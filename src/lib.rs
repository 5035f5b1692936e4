//! Works out which packages of a workspace a change touches, plans their test
//! runs, and drives the runs one package at a time.

pub mod error;
pub mod metadata;
pub mod name_set;
pub mod paths;
pub mod reporting;
pub mod test_runner;
pub mod testing;
pub mod vcs;
