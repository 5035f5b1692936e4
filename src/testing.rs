//! Planning the test runs and deciding, run by run, what happens next.
pub mod executor;
pub mod plan;
pub mod result;
