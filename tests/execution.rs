use test_changed::error::AppError;
use test_changed::reporting::pluralize;
use test_changed::test_runner::TestRunnerType;
use test_changed::testing::executor::{check_runner_installed, tests_outcome, ExecutorAction, TestExecutor};
use test_changed::testing::plan::{ManualTestCrate, TestCrates, TestPlan};
use test_changed::testing::result::{TestResult, TestResults};

fn plan_of(names: &[&str], fail_fast: bool) -> TestPlan {
    TestPlan {
        workspace_root: "/w".to_string(),
        crates: TestCrates::Manual(names.iter().map(|n| ManualTestCrate { name: n.to_string() }).collect()),
        with_dependents: false,
        fail_fast,
        verbose: false,
        test_runner_args: vec![],
    }
}

fn outcome(name: &str, success: bool) -> TestResult {
    TestResult {
        crate_name: name.to_string(),
        success,
        output: format!("output of {}", name),
        duration_ms: 5,
    }
}

/// Drives a run the way the application does, with `fails` naming the packages whose tests fail.
fn drive(plan: &TestPlan, fails: &[&str]) -> (Vec<String>, TestResults) {
    let mut executor = TestExecutor::new(plan);
    let mut started = Vec::new();
    loop {
        match executor.next_action() {
            ExecutorAction::RunTest { crate_name, test_number, total_tests } => {
                assert_eq!(test_number, started.len() + 1);
                assert_eq!(total_tests, plan.get_crates_to_test().len());
                let success = !fails.contains(&crate_name.as_str());
                started.push(crate_name.clone());
                executor.record(outcome(&crate_name, success));
            }
            ExecutorAction::Finished => break,
        }
    }
    (started, executor.into_results(42))
}

#[test]
fn fail_fast_stops_after_first_failure() {
    let (started, results) = drive(&plan_of(&["one", "two", "three"], true), &["two"]);
    assert_eq!(started, vec!["one", "two"]);
    assert_eq!(results.passed.len(), 1);
    assert_eq!(results.failed.len(), 1);
    assert_eq!(results.failed[0].crate_name, "two");
    assert_eq!(results.duration_ms, 42);
}

#[test]
fn no_fail_fast_runs_everything() {
    let (started, results) = drive(&plan_of(&["one", "two", "three"], false), &["two"]);
    assert_eq!(started, vec!["one", "two", "three"]);
    assert_eq!(results.passed.len() + results.failed.len(), 3);
    assert_eq!(results.failed.len(), 1);
}

#[test]
fn end_to_end_failure_names_the_failed_package() {
    let (started, results) = drive(&plan_of(&["B", "C"], true), &["B"]);
    assert_eq!(started, vec!["B"]);
    match tests_outcome(&results) {
        Err(AppError::TestsFailed { failed_crates }) => assert_eq!(failed_crates, vec!["B".to_string()]),
        _ => panic!("expected TestsFailed"),
    }
}

#[test]
fn passing_run_succeeds() {
    let (_, results) = drive(&plan_of(&["one", "two"], true), &[]);
    assert!(!results.has_failures());
    assert!(tests_outcome(&results).is_ok());
}

#[test]
fn results_are_filed_by_outcome() {
    let mut results = TestResults::new();
    assert!(!results.has_failures());
    results.add_result(outcome("a", true));
    results.add_result(outcome("b", false));
    results.add_result(outcome("c", true));
    assert_eq!(results.passed.iter().map(|r| r.crate_name.as_str()).collect::<Vec<_>>(), vec!["a", "c"]);
    assert_eq!(results.failed[0].crate_name, "b");
    assert!(results.has_failures());
}

#[test]
fn missing_runner_fails_before_any_run() {
    assert!(check_runner_installed(TestRunnerType::Nextest, true).is_ok());
    match check_runner_installed(TestRunnerType::Nextest, false) {
        Err(AppError::TestRunnerNotInstalled { runner_name, installation_tip }) => {
            assert_eq!(runner_name, "nextest");
            assert_eq!(installation_tip, "to install nextest, run 'cargo install cargo-nextest'");
        }
        _ => panic!("expected TestRunnerNotInstalled"),
    }
}

#[test]
fn runner_commands() {
    assert_eq!(TestRunnerType::Cargo.command("pkg"), vec!["cargo", "test", "-p", "pkg"]);
    assert_eq!(
        TestRunnerType::Nextest.command("pkg"),
        vec!["cargo", "nextest", "run", "--no-tests", "pass", "-p", "pkg"]
    );
    assert_eq!(TestRunnerType::Cargo.name(), "cargo");
}

#[test]
fn exit_codes_are_distinct() {
    let errors = vec![
        AppError::TestRunnerNotInstalled { runner_name: String::new(), installation_tip: String::new() },
        AppError::TestsFailed { failed_crates: vec![] },
        AppError::GitDiscoveryFailed { reason: String::new() },
        AppError::MetadataFailed { reason: String::new() },
        AppError::GitOperationFailed { operation: String::new(), reason: String::new() },
        AppError::CommandFailed { command: String::new(), reason: String::new() },
        AppError::UnknownCrate { crate_name: String::new() },
        AppError::InvalidArguments { reason: String::new() },
        AppError::Other(String::new()),
    ];
    let codes: Vec<i32> = errors.iter().map(|e| e.exit_code()).collect();
    assert_eq!(codes, vec![10, 20, 30, 40, 50, 60, 70, 80, 1]);
}

#[test]
fn pluralize_picks_the_form() {
    assert_eq!(pluralize(1, "crate", "crates"), "crate");
    assert_eq!(pluralize(0, "crate", "crates"), "crates");
    assert_eq!(pluralize(2, "file", "files"), "files");
}
