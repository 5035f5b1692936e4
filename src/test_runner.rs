//! The test runners a package can be tested with, and the command each runs.
use vstd::prelude::*;

verus! {

/// Runs a package's tests with `cargo test`.
#[derive(Debug, Clone, Copy, PartialEq, Eq, Structural)]
pub struct CargoRunner;

/// Runs a package's tests with `cargo nextest`.
#[derive(Debug, Clone, Copy, PartialEq, Eq, Structural)]
pub struct NextestRunner;

/// The test runner to use.
#[derive(Debug, Clone, Copy, PartialEq, Eq, Structural)]
pub enum TestRunnerType {
    Cargo,
    Nextest,
}

pub open spec fn strs(v: Seq<String>) -> Seq<Seq<char>> {
    v.map_values(|s: String| s@)
}

impl CargoRunner {
    /// The program and arguments that test `crate_name`.
    pub fn command(&self, crate_name: &str) -> (r: Vec<String>)
        ensures
            strs(r@) == seq!["cargo"@, "test"@, "-p"@, crate_name@],
    {
        let r = vec!["cargo".to_string(), "test".to_string(), "-p".to_string(), crate_name.to_string()];
        assert(strs(r@) =~= seq!["cargo"@, "test"@, "-p"@, crate_name@]);
        r
    }

    pub fn name(&self) -> (r: &'static str)
        ensures
            r@ == "cargo"@,
    {
        "cargo"
    }

    pub fn installation_instructions(&self) -> (r: String)
        ensures
            r@ == "cargo should be available since you're running this as a cargo command"@,
    {
        "cargo should be available since you're running this as a cargo command".to_string()
    }
}

impl NextestRunner {
    /// The program and arguments that test `crate_name`.
    pub fn command(&self, crate_name: &str) -> (r: Vec<String>)
        ensures
            strs(r@) == seq!["cargo"@, "nextest"@, "run"@, "--no-tests"@, "pass"@, "-p"@, crate_name@],
    {
        let r = vec![
            "cargo".to_string(),
            "nextest".to_string(),
            "run".to_string(),
            "--no-tests".to_string(),
            "pass".to_string(),
            "-p".to_string(),
            crate_name.to_string(),
        ];
        assert(strs(r@) =~= seq!["cargo"@, "nextest"@, "run"@, "--no-tests"@, "pass"@, "-p"@, crate_name@]);
        r
    }

    pub fn name(&self) -> (r: &'static str)
        ensures
            r@ == "nextest"@,
    {
        "nextest"
    }

    pub fn installation_instructions(&self) -> (r: String)
        ensures
            r@ == "to install nextest, run 'cargo install cargo-nextest'"@,
    {
        "to install nextest, run 'cargo install cargo-nextest'".to_string()
    }
}

impl TestRunnerType {
    /// The program and arguments that test `crate_name` with this runner.
    pub fn command(&self, crate_name: &str) -> (r: Vec<String>)
        ensures
            *self == TestRunnerType::Cargo ==> strs(r@) == seq!["cargo"@, "test"@, "-p"@, crate_name@],
            *self == TestRunnerType::Nextest ==> strs(r@) == seq![
                "cargo"@,
                "nextest"@,
                "run"@,
                "--no-tests"@,
                "pass"@,
                "-p"@,
                crate_name@,
            ],
    {
        match self {
            TestRunnerType::Cargo => CargoRunner.command(crate_name),
            TestRunnerType::Nextest => NextestRunner.command(crate_name),
        }
    }

    pub fn name(&self) -> (r: &'static str)
        ensures
            *self == TestRunnerType::Cargo ==> r@ == "cargo"@,
            *self == TestRunnerType::Nextest ==> r@ == "nextest"@,
    {
        match self {
            TestRunnerType::Cargo => CargoRunner.name(),
            TestRunnerType::Nextest => NextestRunner.name(),
        }
    }

    pub fn installation_instructions(&self) -> (r: String)
        ensures
            *self == TestRunnerType::Cargo ==> r@ == "cargo should be available since you're running this as a cargo command"@,
            *self == TestRunnerType::Nextest ==> r@ == "to install nextest, run 'cargo install cargo-nextest'"@,
    {
        match self {
            TestRunnerType::Cargo => CargoRunner.installation_instructions(),
            TestRunnerType::Nextest => NextestRunner.installation_instructions(),
        }
    }
}

} // verus!
