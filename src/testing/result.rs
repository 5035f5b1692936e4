//! The outcome of each package's test run, and of the whole run.
use vstd::prelude::*;

verus! {

/// The outcome of one package's test run.
#[derive(Debug, Clone)]
pub struct TestResult {
    pub crate_name: String,
    pub success: bool,
    pub output: String,
    pub duration_ms: u64,
}

/// The outcomes so far, passed and failed apart, each in run order.
#[derive(Debug, Clone)]
pub struct TestResults {
    pub passed: Vec<TestResult>,
    pub failed: Vec<TestResult>,
    pub duration_ms: u64,
}

impl TestResults {
    /// No outcome yet.
    pub fn new() -> (r: TestResults)
        ensures
            r.passed@.len() == 0,
            r.failed@.len() == 0,
            r.duration_ms == 0,
    {
        TestResults { passed: Vec::new(), failed: Vec::new(), duration_ms: 0 }
    }

    /// Files `result` under passed or failed, after those already there.
    pub fn add_result(&mut self, result: TestResult)
        ensures
            result.success ==> final(self).passed@ == old(self).passed@.push(result)
                && final(self).failed@ == old(self).failed@,
            !result.success ==> final(self).failed@ == old(self).failed@.push(result)
                && final(self).passed@ == old(self).passed@,
            final(self).duration_ms == old(self).duration_ms,
    {
        if result.success {
            self.passed.push(result);
        } else {
            self.failed.push(result);
        }
    }

    /// Whether any package failed.
    pub fn has_failures(&self) -> (r: bool)
        ensures
            r == (self.failed@.len() > 0),
    {
        self.failed.len() > 0
    }
}

} // verus!
