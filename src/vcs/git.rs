//! Changed files read from a git repository.
//!
//! The repository is read through `gix` (see `gix_calls`); each change it
//! reports is first turned into plain values (`GitChangeInfo`), and the rest is
//! done here.
use gix::{Repository, Tree};
use vstd::prelude::*;

use super::gix_calls::{
    canonicalize, commit_tree, concat3, diff_change_entry_kind, diff_change_kind, diff_change_location,
    diff_change_source_location, diff_tree_to_tree, discover_repository, ends_with_separator, find_commit,
    object_id_hex, repository_work_dir, rev_parse_single, starts_with_separator, status_item_disk_kind,
    status_item_entry_kind, status_item_is_copy, status_item_is_ignored, status_item_kind, status_item_location,
    status_item_source_location, status_item_summary, status_items,
};
use super::{ChangeType, ChangedFile, FileType, Vcs};
use crate::error::AppError;

verus! {

/// Reads changes from the git repository that holds the workspace.
#[derive(Debug, Clone, Copy, PartialEq, Eq, Structural)]
pub struct GitVcs;

/// The kind of a change between two trees.
#[derive(Debug, Clone, Copy, PartialEq, Eq, Structural)]
pub enum DiffChangeKind {
    Addition,
    Deletion,
    Modification,
    Rewrite,
}

/// The kind of a tree entry, as git records it in its mode.
#[derive(Debug, Clone, Copy, PartialEq, Eq, Structural)]
pub enum EntryKind {
    Tree,
    Blob,
    BlobExecutable,
    Link,
    Commit,
}

/// One change as git reports it: paths relative to the repository root.
#[derive(Debug, Clone, PartialEq, Eq)]
pub struct GitChangeInfo {
    pub current_path: Option<String>,
    pub old_path: Option<String>,
    pub file_type: Option<FileType>,
    pub change_type: ChangeType,
}

/// `rel` taken relative to `root`: an absolute `rel` stands alone, and one
/// separator goes between the two otherwise.
pub open spec fn joined(root: Seq<char>, rel: Seq<char>) -> Seq<char> {
    if rel.len() > 0 && rel[0] == '/' {
        rel
    } else if root.len() == 0 || root.last() == '/' {
        root + rel
    } else {
        root + seq!['/'] + rel
    }
}

/// `rel` taken relative to `root`.
pub fn join_path(root: &str, rel: &str) -> (r: String)
    ensures
        r@ == joined(root@, rel@),
{
    proof {
        reveal_strlit("");
        reveal_strlit("/");
    }
    if starts_with_separator(rel) {
        concat3(rel, "", "")
    } else if root.is_empty() || ends_with_separator(root) {
        concat3(root, rel, "")
    } else {
        concat3(root, "/", rel)
    }
}

pub open spec fn spec_file_type_of(kind: EntryKind) -> FileType {
    match kind {
        EntryKind::Tree => FileType::Directory,
        EntryKind::Blob | EntryKind::BlobExecutable => FileType::File,
        EntryKind::Link => FileType::Symlink,
        EntryKind::Commit => FileType::Other,
    }
}

impl FileType {
    /// The file type of a tree entry of the given kind.
    pub fn from_entry_kind(kind: EntryKind) -> (r: FileType)
        ensures
            r == spec_file_type_of(kind),
    {
        match kind {
            EntryKind::Tree => FileType::Directory,
            EntryKind::Blob | EntryKind::BlobExecutable => FileType::File,
            EntryKind::Link => FileType::Symlink,
            EntryKind::Commit => FileType::Other,
        }
    }
}

pub open spec fn spec_diff_change_type(kind: DiffChangeKind) -> ChangeType {
    match kind {
        DiffChangeKind::Addition => ChangeType::Added,
        DiffChangeKind::Modification | DiffChangeKind::Rewrite => ChangeType::Modified,
        DiffChangeKind::Deletion => ChangeType::Removed,
    }
}

/// A change between two trees as plain values: the old path is kept only for a
/// rename, and the file type comes from the entry's mode after the change.
pub fn diff_change_info(
    kind: DiffChangeKind,
    location: Option<String>,
    source_location: Option<String>,
    entry: EntryKind,
) -> (r: GitChangeInfo)
    ensures
        r.current_path == location,
        r.old_path == if kind == DiffChangeKind::Rewrite { source_location } else { None },
        r.file_type == Some(spec_file_type_of(entry)),
        r.change_type == spec_diff_change_type(kind),
{
    let change_type = match kind {
        DiffChangeKind::Addition => ChangeType::Added,
        DiffChangeKind::Modification | DiffChangeKind::Rewrite => ChangeType::Modified,
        DiffChangeKind::Deletion => ChangeType::Removed,
    };
    let old_path = match kind {
        DiffChangeKind::Rewrite => source_location,
        _ => None,
    };
    GitChangeInfo {
        current_path: location,
        old_path,
        file_type: Some(FileType::from_entry_kind(entry)),
        change_type,
    }
}

/// A changed file, in view: absolute current path, old path, type and change.
pub open spec fn changed_view(f: ChangedFile) -> (Seq<char>, Option<Seq<char>>, FileType, ChangeType) {
    (
        f.current_path@,
        match f.old_path {
            Some(p) => Some(p@),
            None => None,
        },
        f.file_type,
        f.change_type,
    )
}

/// What a change becomes once its paths are taken relative to `root`; `None`
/// where git gave no current path.
pub open spec fn spec_convert(info: GitChangeInfo, root: Seq<char>) -> Option<
    (Seq<char>, Option<Seq<char>>, FileType, ChangeType),
> {
    match info.current_path {
        None => None,
        Some(cur) => Some(
            (
                joined(root, cur@),
                match info.old_path {
                    Some(p) => Some(joined(root, p@)),
                    None => None,
                },
                match info.file_type {
                    Some(t) => t,
                    None => FileType::Other,
                },
                info.change_type,
            ),
        ),
    }
}

/// Turns a change into a changed file below `workspace_root`. A change without a
/// current path cannot be placed and is an error.
pub fn convert_to_changed_file(info: &GitChangeInfo, workspace_root: &str) -> (r: Result<ChangedFile, AppError>)
    ensures
        r is Ok <==> info.current_path is Some,
        r matches Ok(f) ==> spec_convert(*info, workspace_root@) == Some(changed_view(f)),
{
    let current_path = match &info.current_path {
        Some(p) => join_path(workspace_root, p.as_str()),
        None => {
            return Err(AppError::GitOperationFailed {
                operation: "convert path".to_string(),
                reason: "Missing required path".to_string(),
            });
        },
    };
    let old_path = match &info.old_path {
        Some(p) => Some(join_path(workspace_root, p.as_str())),
        None => None,
    };
    let file_type = match info.file_type {
        Some(t) => t,
        None => FileType::Other,
    };
    Ok(ChangedFile { current_path, old_path, file_type, change_type: info.change_type })
}

pub open spec fn is_file_or_symlink(t: FileType) -> bool {
    t == FileType::File || t == FileType::Symlink
}

/// The changed files for the changes git reported, in git's order: every change
/// that can be placed below `root`, and, where `only_files` is set, only those
/// that are a file or a symbolic link.
pub open spec fn spec_changed_files(infos: Seq<GitChangeInfo>, root: Seq<char>, only_files: bool) -> Seq<
    (Seq<char>, Option<Seq<char>>, FileType, ChangeType),
>
    decreases infos.len(),
{
    if infos.len() == 0 {
        Seq::empty()
    } else {
        let rest = spec_changed_files(infos.drop_last(), root, only_files);
        match spec_convert(infos.last(), root) {
            Some(v) => if !only_files || is_file_or_symlink(v.2) {
                rest.push(v)
            } else {
                rest
            },
            None => rest,
        }
    }
}

pub open spec fn views(v: Seq<ChangedFile>) -> Seq<(Seq<char>, Option<Seq<char>>, FileType, ChangeType)> {
    v.map_values(|f: ChangedFile| changed_view(f))
}

/// The changed files for the changes git reported; where `only_files` is set,
/// directories and other entries are left out.
pub fn changed_files_from_changes(infos: &Vec<GitChangeInfo>, workspace_root: &str, only_files: bool) -> (r: Vec<
    ChangedFile,
>)
    ensures
        views(r@) == spec_changed_files(infos@, workspace_root@, only_files),
{
    let ghost all = infos@;
    let mut out: Vec<ChangedFile> = Vec::new();
    let mut i: usize = 0;
    while i < infos.len()
        invariant
            i <= all.len(),
            all == infos@,
            views(out@) == spec_changed_files(all.subrange(0, i as int), workspace_root@, only_files),
        decreases all.len() - i,
    {
        let ghost before = out@;
        let info = &infos[i];
        proof {
            assert(all.subrange(0, i as int + 1).drop_last() =~= all.subrange(0, i as int));
            assert(all.subrange(0, i as int + 1).last() == *info);
        }
        match convert_to_changed_file(info, workspace_root) {
            Ok(f) => {
                if !only_files || f.file_type == FileType::File || f.file_type == FileType::Symlink {
                    out.push(f);
                    assert(views(out@) =~= views(before).push(changed_view(f)));
                }
            },
            Err(_) => {},
        }
        i = i + 1;
    }
    proof {
        assert(all.subrange(0, all.len() as int) =~= all);
    }
    out
}

/// The step of a status query that failed.
#[derive(Debug, Clone, Copy, PartialEq, Eq, Structural)]
pub enum StatusStep {
    Status,
    Iteration,
    ProcessChange,
}

/// Where a status entry comes from: the working tree against the index, or the
/// index against the last commit.
#[derive(Debug, Clone, Copy, PartialEq, Eq, Structural)]
pub enum StatusItemKind {
    WorktreeModification,
    WorktreeDirectoryContents,
    WorktreeRewrite,
    IndexAddition,
    IndexDeletion,
    IndexModification,
    IndexRewrite,
}

/// How git sums up a change of the working tree.
#[derive(Debug, Clone, Copy, PartialEq, Eq, Structural)]
pub enum WorktreeSummary {
    Removed,
    Added,
    Modified,
    TypeChange,
    Renamed,
    Copied,
    IntentToAdd,
    Conflict,
}

/// What a walk of the working tree found on disk.
#[derive(Debug, Clone, Copy, PartialEq, Eq, Structural)]
pub enum DiskKind {
    Untrackable,
    File,
    Symlink,
    Directory,
    Repository,
}

/// One status entry as plain values.
#[derive(Debug, Clone, PartialEq, Eq)]
pub struct StatusEntry {
    pub kind: StatusItemKind,
    /// The path where the entry is now.
    pub location: Option<String>,
    /// The path a renamed or copied entry came from.
    pub source_location: Option<String>,
    /// The rewrite is a copy, not a rename.
    pub copy: bool,
    /// The walk found the entry ignored.
    pub ignored: bool,
    pub summary: Option<WorktreeSummary>,
    /// The kind that the entry's mode in the index gives.
    pub entry_kind: Option<EntryKind>,
    /// The kind that the walk of the working tree found.
    pub disk_kind: Option<DiskKind>,
}

pub open spec fn spec_disk_file_type(k: DiskKind) -> FileType {
    match k {
        DiskKind::File => FileType::File,
        DiskKind::Directory => FileType::Directory,
        DiskKind::Symlink => FileType::Symlink,
        _ => FileType::Other,
    }
}

pub open spec fn spec_summary_change_type(s: Option<WorktreeSummary>) -> ChangeType {
    match s {
        Some(WorktreeSummary::Added) | Some(WorktreeSummary::IntentToAdd) => ChangeType::Added,
        Some(WorktreeSummary::Removed) => ChangeType::Removed,
        _ => ChangeType::Modified,
    }
}

pub open spec fn is_worktree_kind(k: StatusItemKind) -> bool {
    k == StatusItemKind::WorktreeModification || k == StatusItemKind::WorktreeDirectoryContents
        || k == StatusItemKind::WorktreeRewrite
}

/// What a status entry says, as a change: an ignored entry of the working tree
/// has no path; a rename keeps its source, a copy does not; the file type comes
/// from the walk of the working tree where the entry was found there, else from
/// the mode in the index; the change type from git's summary for the working
/// tree, and from the kind of change for the index.
pub open spec fn spec_status_change(e: StatusEntry) -> GitChangeInfo {
    GitChangeInfo {
        current_path: if e.kind == StatusItemKind::WorktreeDirectoryContents && e.ignored {
            None
        } else {
            e.location
        },
        old_path: if (e.kind == StatusItemKind::WorktreeRewrite || e.kind == StatusItemKind::IndexRewrite)
            && !e.copy {
            e.source_location
        } else {
            None
        },
        file_type: if e.kind == StatusItemKind::WorktreeDirectoryContents || e.kind
            == StatusItemKind::WorktreeRewrite {
            match e.disk_kind {
                Some(k) => Some(spec_disk_file_type(k)),
                None => None,
            }
        } else {
            match e.entry_kind {
                Some(k) => Some(spec_file_type_of(k)),
                None => None,
            }
        },
        change_type: if is_worktree_kind(e.kind) {
            spec_summary_change_type(e.summary)
        } else if e.kind == StatusItemKind::IndexAddition {
            ChangeType::Added
        } else if e.kind == StatusItemKind::IndexDeletion {
            ChangeType::Removed
        } else {
            ChangeType::Modified
        },
    }
}

/// A status entry as a change.
pub fn status_change_info(e: &StatusEntry) -> (r: GitChangeInfo)
    ensures
        r == spec_status_change(*e),
{
    let current_path = if e.kind == StatusItemKind::WorktreeDirectoryContents && e.ignored {
        None
    } else {
        e.location.clone()
    };
    let old_path = if (e.kind == StatusItemKind::WorktreeRewrite || e.kind == StatusItemKind::IndexRewrite)
        && !e.copy {
        e.source_location.clone()
    } else {
        None
    };
    let file_type = if e.kind == StatusItemKind::WorktreeDirectoryContents || e.kind
        == StatusItemKind::WorktreeRewrite {
        match e.disk_kind {
            Some(DiskKind::File) => Some(FileType::File),
            Some(DiskKind::Directory) => Some(FileType::Directory),
            Some(DiskKind::Symlink) => Some(FileType::Symlink),
            Some(_) => Some(FileType::Other),
            None => None,
        }
    } else {
        match e.entry_kind {
            Some(k) => Some(FileType::from_entry_kind(k)),
            None => None,
        }
    };
    let change_type = match e.kind {
        StatusItemKind::WorktreeModification | StatusItemKind::WorktreeDirectoryContents
        | StatusItemKind::WorktreeRewrite => match e.summary {
            Some(WorktreeSummary::Added) | Some(WorktreeSummary::IntentToAdd) => ChangeType::Added,
            Some(WorktreeSummary::Removed) => ChangeType::Removed,
            _ => ChangeType::Modified,
        },
        StatusItemKind::IndexAddition => ChangeType::Added,
        StatusItemKind::IndexDeletion => ChangeType::Removed,
        StatusItemKind::IndexModification | StatusItemKind::IndexRewrite => ChangeType::Modified,
    };
    GitChangeInfo { current_path, old_path, file_type, change_type }
}

/// Opens the repository that holds `path`.
fn discover_repo(path: &str) -> (r: Result<Repository, AppError>)
    ensures
        r matches Err(e) ==> e is GitDiscoveryFailed,
{
    match discover_repository(path) {
        Ok(repo) => Ok(repo),
        Err(reason) => Err(AppError::GitDiscoveryFailed { reason }),
    }
}

/// The tree of the commit that `reference` names.
fn resolve_tree<'repo>(repo: &'repo Repository, reference: &str) -> (r: Result<Tree<'repo>, AppError>)
    ensures
        r matches Err(e) ==> e is GitOperationFailed,
{
    let id = match rev_parse_single(repo, reference) {
        Ok(id) => id,
        Err(reason) => {
            return Err(AppError::GitOperationFailed {
                operation: concat3("resolve reference '", reference, "'"),
                reason,
            });
        },
    };
    let hex = object_id_hex(&id);
    let commit = match find_commit(repo, id) {
        Ok(commit) => commit,
        Err(reason) => {
            return Err(AppError::GitOperationFailed {
                operation: concat3("convert '", reference, "' to commit"),
                reason,
            });
        },
    };
    match commit_tree(&commit) {
        Ok(tree) => Ok(tree),
        Err(reason) => Err(AppError::GitOperationFailed {
            operation: concat3("get tree for commit ", hex.as_str(), ""),
            reason,
        }),
    }
}

impl GitVcs {
    /// The canonical root of the working tree of the repository that holds `path`.
    pub fn workspace_root(&self, path: &str) -> (r: Result<String, AppError>)
        ensures
            r matches Err(e) ==> e is GitDiscoveryFailed,
    {
        let repo = discover_repo(path)?;
        match repository_work_dir(&repo) {
            None => Err(AppError::GitDiscoveryFailed { reason: "Failed to get repository root".to_string() }),
            Some(dir) => match canonicalize(dir.as_str()) {
                Ok(p) => Ok(p),
                Err(reason) => Err(AppError::GitDiscoveryFailed { reason }),
            },
        }
    }

    /// The files changed in the working tree and the index, staged or not,
    /// untracked files included and ignored ones left out, each below `workspace_root`.
    pub fn uncommitted_changes(&self, workspace_root: &str) -> (r: Result<Vec<ChangedFile>, AppError>)
        ensures
            r matches Err(e) ==> e is GitDiscoveryFailed || e is GitOperationFailed,
    {
        let repo = discover_repo(workspace_root)?;
        let items = match status_items(&repo) {
            Ok(items) => items,
            Err((step, reason)) => {
                let operation = match step {
                    StatusStep::Status => "status".to_string(),
                    StatusStep::Iteration => "status iteration".to_string(),
                    StatusStep::ProcessChange => "process change".to_string(),
                };
                return Err(AppError::GitOperationFailed { operation, reason });
            },
        };
        let mut infos: Vec<GitChangeInfo> = Vec::new();
        let mut i: usize = 0;
        while i < items.len()
            invariant
                i <= items@.len(),
            decreases items@.len() - i,
        {
            let item = &items[i];
            let entry = StatusEntry {
                kind: status_item_kind(item),
                location: status_item_location(item),
                source_location: status_item_source_location(item),
                copy: status_item_is_copy(item),
                ignored: status_item_is_ignored(item),
                summary: status_item_summary(item),
                entry_kind: status_item_entry_kind(item),
                disk_kind: status_item_disk_kind(item),
            };
            infos.push(status_change_info(&entry));
            i = i + 1;
        }
        Ok(changed_files_from_changes(&infos, workspace_root, false))
    }

    /// The files and symbolic links changed between the commits that `from_ref`
    /// and `to_ref` name (the last commit where `to_ref` is `None`), each below
    /// `workspace_root`.
    pub fn changes_between(&self, workspace_root: &str, from_ref: &str, to_ref: Option<&str>) -> (r: Result<
        Vec<ChangedFile>,
        AppError,
    >)
        ensures
            r matches Ok(v) ==> forall|i: int| 0 <= i < v@.len() ==> is_file_or_symlink(#[trigger] v@[i].file_type),
            r matches Err(e) ==> e is GitDiscoveryFailed || e is GitOperationFailed,
    {
        let repo = discover_repo(workspace_root)?;
        let from_tree = resolve_tree(&repo, from_ref)?;
        let to_name = match to_ref {
            Some(r) => r,
            None => "HEAD",
        };
        let to_tree = resolve_tree(&repo, to_name)?;
        let changes = match diff_tree_to_tree(&repo, &from_tree, &to_tree) {
            Ok(c) => c,
            Err(reason) => {
                return Err(AppError::GitOperationFailed {
                    operation: "diff between commits".to_string(),
                    reason,
                });
            },
        };
        let mut infos: Vec<GitChangeInfo> = Vec::new();
        let mut i: usize = 0;
        while i < changes.len()
            invariant
                i <= changes@.len(),
            decreases changes@.len() - i,
        {
            let c = &changes[i];
            infos.push(
                diff_change_info(
                    diff_change_kind(c),
                    diff_change_location(c),
                    diff_change_source_location(c),
                    diff_change_entry_kind(c),
                ),
            );
            i = i + 1;
        }
        let files = changed_files_from_changes(&infos, workspace_root, true);
        proof {
            lemma_only_files(infos@, workspace_root@);
            let sv = spec_changed_files(infos@, workspace_root@, true);
            assert forall|i: int| 0 <= i < files@.len() implies is_file_or_symlink(#[trigger] files@[i].file_type) by {
                assert(views(files@)[i] == changed_view(files@[i]));
                assert(sv[i].2 == files@[i].file_type);
            }
        }
        Ok(files)
    }
}

/// Keeping only files and links leaves nothing else.
proof fn lemma_only_files(infos: Seq<GitChangeInfo>, root: Seq<char>)
    ensures
        forall|i: int| 0 <= i < spec_changed_files(infos, root, true).len() ==> is_file_or_symlink(
            #[trigger] spec_changed_files(infos, root, true)[i].2,
        ),
    decreases infos.len(),
{
    if infos.len() > 0 {
        lemma_only_files(infos.drop_last(), root);
        let rest = spec_changed_files(infos.drop_last(), root, true);
        let all = spec_changed_files(infos, root, true);
        assert forall|i: int| 0 <= i < all.len() implies is_file_or_symlink(#[trigger] all[i].2) by {
            if i < rest.len() {
                assert(all[i] == rest[i]);
            }
        }
    }
}

impl Vcs for GitVcs {
    fn get_workspace_root(&self, path: &str) -> Result<String, AppError> {
        self.workspace_root(path)
    }

    fn get_uncommitted_changes(&self, workspace_root: &str) -> Result<Vec<ChangedFile>, AppError> {
        self.uncommitted_changes(workspace_root)
    }

    fn get_changes_between(&self, workspace_root: &str, from_ref: &str, to_ref: Option<&str>) -> Result<
        Vec<ChangedFile>,
        AppError,
    > {
        self.changes_between(workspace_root, from_ref, to_ref)
    }
}

} // verus!
