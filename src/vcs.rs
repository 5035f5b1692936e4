//! Changed files as a version-control system reports them.
use vstd::prelude::*;

use crate::error::AppError;

pub mod git;
mod gix_calls;

pub use git::GitVcs;

verus! {

/// How a file changed.
#[derive(Debug, Clone, Copy, PartialEq, Eq, Hash, Structural)]
pub enum ChangeType {
    Added,
    Modified,
    Removed,
}

/// What kind of entry a changed path is.
#[derive(Debug, Clone, Copy, PartialEq, Eq, Hash, Structural)]
pub enum FileType {
    File,
    Directory,
    Symlink,
    Other,
}

/// One changed path; `old_path` is set only where the file was renamed.
#[derive(Debug, Clone, PartialEq, Eq, Hash)]
pub struct ChangedFile {
    pub current_path: String,
    pub old_path: Option<String>,
    pub file_type: FileType,
    pub change_type: ChangeType,
}

/// A source of changed files for a workspace.
pub trait Vcs {
    /// The root directory of the repository that holds `path`.
    fn get_workspace_root(&self, path: &str) -> Result<String, AppError>;

    /// The files changed in the working tree and the index against the last commit.
    fn get_uncommitted_changes(&self, workspace_root: &str) -> Result<Vec<ChangedFile>, AppError>;

    /// The files changed between `from_ref` and `to_ref` (the last commit where `None`).
    fn get_changes_between(
        &self,
        workspace_root: &str,
        from_ref: &str,
        to_ref: Option<&str>,
    ) -> Result<Vec<ChangedFile>, AppError>;
}

/// The version-control systems this library can read.
#[derive(Debug, Clone, Copy, PartialEq, Eq, Structural)]
pub enum VcsType {
    Git,
}

impl VcsType {
    /// The reader for this kind of repository.
    pub fn create(&self) -> (r: GitVcs)
        ensures
            *self == VcsType::Git ==> r == GitVcs,
    {
        match self {
            VcsType::Git => GitVcs,
        }
    }
}

} // verus!
