//! The decisions of a test run, one package at a time.
//!
//! The caller runs the loop: it asks for the next action, runs the package's
//! tests when told to, and hands the outcome back. Only one package runs at a
//! time, in plan order; with fail-fast the run stops after the first failure.
use vstd::prelude::*;

use super::plan::{names_of, TestPlan};
use super::result::{TestResult, TestResults};
use crate::error::AppError;
use crate::test_runner::TestRunnerType;

verus! {

/// What the caller does next.
#[derive(Debug, Clone, PartialEq, Eq)]
pub enum ExecutorAction {
    /// Run the tests of `crate_name`, the `test_number`-th (from 1) of `total_tests`.
    RunTest { crate_name: String, test_number: usize, total_tests: usize },
    /// Nothing more runs.
    Finished,
}

/// The state of a test run.
#[derive(Debug, Clone)]
pub struct TestExecutor {
    /// The packages scheduled, in order.
    pub crates: Vec<String>,
    pub fail_fast: bool,
    /// How many packages have run.
    pub next: usize,
    /// Set once a failure stopped the run under fail-fast.
    pub stopped: bool,
    pub results: TestResults,
}

impl TestExecutor {
    pub open spec fn wf(&self) -> bool {
        &&& self.next <= self.crates@.len()
        &&& self.results.passed@.len() + self.results.failed@.len() == self.next
        &&& self.stopped ==> self.fail_fast && self.results.failed@.len() > 0
        &&& self.fail_fast && self.results.failed@.len() > 0 ==> self.stopped
    }

    pub open spec fn is_finished(&self) -> bool {
        self.stopped || self.next == self.crates@.len()
    }

    /// A run of the plan's packages, none run yet.
    pub fn new(plan: &TestPlan) -> (r: TestExecutor)
        ensures
            r.wf(),
            names_of(r.crates@) == plan.spec_crates_to_test(),
            r.fail_fast == plan.fail_fast,
            r.next == 0,
            !r.stopped,
            r.results.passed@.len() == 0,
            r.results.failed@.len() == 0,
    {
        TestExecutor {
            crates: plan.get_crates_to_test(),
            fail_fast: plan.fail_fast,
            next: 0,
            stopped: false,
            results: TestResults::new(),
        }
    }

    /// The next package to run, or `Finished` once every package has run or a
    /// failure stopped the run.
    pub fn next_action(&self) -> (r: ExecutorAction)
        requires
            self.wf(),
        ensures
            self.is_finished() ==> r == ExecutorAction::Finished,
            !self.is_finished() ==> match r {
                ExecutorAction::RunTest { crate_name, test_number, total_tests } => {
                    &&& crate_name@ == self.crates@[self.next as int]@
                    &&& test_number == self.next + 1
                    &&& total_tests == self.crates@.len()
                },
                ExecutorAction::Finished => false,
            },
    {
        if self.stopped || self.next >= self.crates.len() {
            ExecutorAction::Finished
        } else {
            ExecutorAction::RunTest {
                crate_name: self.crates[self.next].clone(),
                test_number: self.next + 1,
                total_tests: self.crates.len(),
            }
        }
    }

    /// Records the outcome of the package that was last started. Under
    /// fail-fast a failure stops the run: the packages after it never start.
    pub fn record(&mut self, result: TestResult)
        requires
            old(self).wf(),
            !old(self).is_finished(),
        ensures
            final(self).wf(),
            final(self).next == old(self).next + 1,
            final(self).crates == old(self).crates,
            final(self).fail_fast == old(self).fail_fast,
            final(self).stopped == (old(self).fail_fast && !result.success),
            result.success ==> final(self).results.passed@ == old(self).results.passed@.push(result)
                && final(self).results.failed@ == old(self).results.failed@,
            !result.success ==> final(self).results.failed@ == old(self).results.failed@.push(result)
                && final(self).results.passed@ == old(self).results.passed@,
    {
        let failed = !result.success;
        let len = self.crates.len();
        assert(self.next < len);
        let next = self.next + 1;
        self.results.add_result(result);
        self.next = next;
        if failed && self.fail_fast {
            self.stopped = true;
        }
    }

    /// The outcomes, with the run's total duration.
    pub fn into_results(self, duration_ms: u64) -> (r: TestResults)
        ensures
            r.passed == self.results.passed,
            r.failed == self.results.failed,
            r.duration_ms == duration_ms,
    {
        let mut r = self.results;
        r.duration_ms = duration_ms;
        r
    }
}

pub open spec fn failed_names(results: TestResults) -> Seq<Seq<char>> {
    results.failed@.map_values(|t: TestResult| t.crate_name@)
}

/// Fails the whole run where the runner is missing; this is checked once,
/// before any package runs.
pub fn check_runner_installed(runner: TestRunnerType, installed: bool) -> (r: Result<(), AppError>)
    ensures
        installed ==> r is Ok,
        !installed ==> match r {
            Err(AppError::TestRunnerNotInstalled { runner_name, installation_tip }) => {
                &&& runner == TestRunnerType::Cargo ==> runner_name@ == "cargo"@
                    && installation_tip@ == "cargo should be available since you're running this as a cargo command"@
                &&& runner == TestRunnerType::Nextest ==> runner_name@ == "nextest"@
                    && installation_tip@ == "to install nextest, run 'cargo install cargo-nextest'"@
            },
            _ => false,
        },
{
    if installed {
        Ok(())
    } else {
        Err(AppError::TestRunnerNotInstalled {
            runner_name: runner.name().to_string(),
            installation_tip: runner.installation_instructions(),
        })
    }
}

/// How the whole run ends: success where nothing failed, else `TestsFailed` with the
/// failed packages in run order.
pub fn tests_outcome(results: &TestResults) -> (r: Result<(), AppError>)
    ensures
        results.failed@.len() == 0 <==> r is Ok,
        results.failed@.len() > 0 ==> match r {
            Err(AppError::TestsFailed { failed_crates }) => names_of(failed_crates@) == failed_names(*results),
            _ => false,
        },
{
    if !results.has_failures() {
        return Ok(());
    }
    let mut names: Vec<String> = Vec::new();
    let mut i: usize = 0;
    while i < results.failed.len()
        invariant
            i <= results.failed@.len(),
            names_of(names@) == failed_names(*results).subrange(0, i as int),
        decreases results.failed@.len() - i,
    {
        let ghost before = names@;
        let name = results.failed[i].crate_name.clone();
        names.push(name);
        assert(names@ == before.push(name));
        assert(failed_names(*results)[i as int] == results.failed@[i as int].crate_name@);
        assert(names_of(names@) =~= names_of(before).push(name@));
        assert(names_of(names@) =~= failed_names(*results).subrange(0, i as int + 1));
        i = i + 1;
    }
    assert(failed_names(*results).subrange(0, i as int) =~= failed_names(*results));
    Err(AppError::TestsFailed { failed_crates: names })
}

} // verus!
