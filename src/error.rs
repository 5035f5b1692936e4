use vstd::prelude::*;

verus! {

/// Every way a run can end other than in success.
#[derive(Debug)]
pub enum AppError {
    TestRunnerNotInstalled { runner_name: String, installation_tip: String },
    TestsFailed { failed_crates: Vec<String> },
    GitDiscoveryFailed { reason: String },
    MetadataFailed { reason: String },
    GitOperationFailed { operation: String, reason: String },
    CommandFailed { command: String, reason: String },
    UnknownCrate { crate_name: String },
    InvalidArguments { reason: String },
    Other(String),
}

/// The process exit code that stands for each kind of error.
pub open spec fn spec_exit_code(e: &AppError) -> i32 {
    match e {
        AppError::TestRunnerNotInstalled { .. } => 10,
        AppError::TestsFailed { .. } => 20,
        AppError::GitDiscoveryFailed { .. } => 30,
        AppError::MetadataFailed { .. } => 40,
        AppError::GitOperationFailed { .. } => 50,
        AppError::CommandFailed { .. } => 60,
        AppError::UnknownCrate { .. } => 70,
        AppError::InvalidArguments { .. } => 80,
        AppError::Other(_) => 1,
    }
}

impl AppError {
    /// Maps the error to its exit code; distinct kinds get distinct codes.
    pub fn exit_code(&self) -> (r: i32)
        ensures
            r == spec_exit_code(self),
    {
        match self {
            AppError::TestRunnerNotInstalled { .. } => 10,
            AppError::TestsFailed { .. } => 20,
            AppError::GitDiscoveryFailed { .. } => 30,
            AppError::MetadataFailed { .. } => 40,
            AppError::GitOperationFailed { .. } => 50,
            AppError::CommandFailed { .. } => 60,
            AppError::UnknownCrate { .. } => 70,
            AppError::InvalidArguments { .. } => 80,
            AppError::Other(_) => 1,
        }
    }
}

} // verus!
