//! The calls into `gix` and `std` that reading a repository needs, each turning
//! what it gets into plain values.
use gix::diff::index::ChangeRef as IndexChange;
use gix::object::tree::diff::ChangeDetached;
use gix::status::index_worktree::iter::Summary;
use gix::status::index_worktree::Item as WorktreeItem;
use gix::status::Item as StatusItem;
use gix::{Commit, ObjectId, Repository, Tree};
use vstd::prelude::*;

use super::git::{DiffChangeKind, DiskKind, EntryKind, StatusItemKind, StatusStep, WorktreeSummary};

verus! {

#[verifier::external_type_specification]
#[verifier::external_body]
pub struct ExRepository(Repository);

#[verifier::external_type_specification]
#[verifier::external_body]
pub struct ExObjectId(ObjectId);

#[verifier::external_type_specification]
#[verifier::external_body]
pub struct ExCommit<'repo>(Commit<'repo>);

#[verifier::external_type_specification]
#[verifier::external_body]
pub struct ExTree<'repo>(Tree<'repo>);

#[verifier::external_type_specification]
#[verifier::external_body]
pub struct ExChangeDetached(ChangeDetached);

#[verifier::external_type_specification]
#[verifier::external_body]
pub struct ExStatusItem(StatusItem);

/// Relies on `gix::discover`: opens the repository that holds `path`; the error's text where none does.
#[verifier::external_body]
pub(crate) fn discover_repository(path: &str) -> (r: Result<Repository, String>) {
    gix::discover(path).map_err(|e| e.to_string())
}

/// Relies on `Repository::work_dir`: the repository's working tree, where it has
/// one whose path is valid UTF-8.
#[verifier::external_body]
pub(crate) fn repository_work_dir(repo: &Repository) -> (r: Option<String>) {
    repo.work_dir().and_then(|p| p.to_str()).map(|s| s.to_string())
}

/// Relies on `Path::canonicalize`: the absolute form of `path` with links resolved,
/// where it exists and is valid UTF-8; otherwise the reason.
#[verifier::external_body]
pub(crate) fn canonicalize(path: &str) -> (r: Result<String, String>) {
    match std::path::Path::new(path).canonicalize() {
        Ok(p) => p.to_str().map(|s| s.to_string()).ok_or_else(|| "invalid UTF-8 in path".to_string()),
        Err(e) => Err(e.to_string()),
    }
}

/// Relies on `Repository::rev_parse_single`: the object a revision names.
#[verifier::external_body]
pub(crate) fn rev_parse_single(repo: &Repository, spec: &str) -> (r: Result<ObjectId, String>) {
    repo.rev_parse_single(spec).map(|id| id.detach()).map_err(|e| e.to_string())
}

/// Relies on `Repository::find_commit`: the commit `id`, or why there is none.
#[verifier::external_body]
pub(crate) fn find_commit<'repo>(repo: &'repo Repository, id: ObjectId) -> (r: Result<Commit<'repo>, String>) {
    repo.find_commit(id).map_err(|e| e.to_string())
}

/// Relies on `Commit::tree`: the tree the commit records, or why it cannot be read.
#[verifier::external_body]
pub(crate) fn commit_tree<'repo>(commit: &Commit<'repo>) -> (r: Result<Tree<'repo>, String>) {
    commit.tree().map_err(|e| e.to_string())
}

/// Relies on `ObjectId`'s `Display`: the hexadecimal form of `id`.
#[verifier::external_body]
pub(crate) fn object_id_hex(id: &ObjectId) -> (r: String) {
    id.to_string()
}

/// Relies on `Repository::diff_tree_to_tree`: the changes that turn `old` into
/// `new`, with the repository's configured rename tracking.
#[verifier::external_body]
pub(crate) fn diff_tree_to_tree(repo: &Repository, old: &Tree, new: &Tree) -> (r: Result<Vec<ChangeDetached>, String>) {
    repo.diff_tree_to_tree(Some(old), Some(new), None).map_err(|e| e.to_string())
}

/// Relies on the variants of `ChangeDetached`: which kind of change `c` is.
#[verifier::external_body]
pub(crate) fn diff_change_kind(c: &ChangeDetached) -> (r: DiffChangeKind) {
    match c {
        ChangeDetached::Addition { .. } => DiffChangeKind::Addition,
        ChangeDetached::Deletion { .. } => DiffChangeKind::Deletion,
        ChangeDetached::Modification { .. } => DiffChangeKind::Modification,
        ChangeDetached::Rewrite { .. } => DiffChangeKind::Rewrite,
    }
}

/// Relies on `ChangeDetached::location`: the path the entry has after the change,
/// where it is valid UTF-8.
#[verifier::external_body]
pub(crate) fn diff_change_location(c: &ChangeDetached) -> (r: Option<String>) {
    std::str::from_utf8(c.location()).ok().map(|s| s.to_string())
}

/// Relies on `ChangeDetached::source_location`: the path the entry had before a
/// rename, where it is valid UTF-8.
#[verifier::external_body]
pub(crate) fn diff_change_source_location(c: &ChangeDetached) -> (r: Option<String>) {
    std::str::from_utf8(c.source_location()).ok().map(|s| s.to_string())
}

/// Relies on `ChangeDetached::entry_mode` and `EntryMode::kind`: the kind of the entry after the change.
#[verifier::external_body]
pub(crate) fn diff_change_entry_kind(c: &ChangeDetached) -> (r: EntryKind) {
    match c.entry_mode().kind() {
        gix::object::tree::EntryKind::Tree => EntryKind::Tree,
        gix::object::tree::EntryKind::Blob => EntryKind::Blob,
        gix::object::tree::EntryKind::BlobExecutable => EntryKind::BlobExecutable,
        gix::object::tree::EntryKind::Link => EntryKind::Link,
        gix::object::tree::EntryKind::Commit => EntryKind::Commit,
    }
}

/// Relies on `str::starts_with`.
#[verifier::external_body]
pub(crate) fn starts_with_separator(s: &str) -> (r: bool)
    ensures
        r == (s@.len() > 0 && s@[0] == '/'),
{
    s.starts_with('/')
}

/// Relies on `str::ends_with`.
#[verifier::external_body]
pub(crate) fn ends_with_separator(s: &str) -> (r: bool)
    ensures
        r == (s@.len() > 0 && s@.last() == '/'),
{
    s.ends_with('/')
}

/// Relies on `<[&str]>::concat`: the pieces one after another.
#[verifier::external_body]
pub(crate) fn concat3(a: &str, b: &str, c: &str) -> (r: String)
    ensures
        r@ == a@ + b@ + c@,
{
    [a, b, c].concat()
}

/// Relies on `Repository::status`, `Platform::untracked_files` and
/// `Platform::into_iter`: the status of the working tree and the index, each
/// untracked file listed on its own; the failed step and its reason otherwise.
#[verifier::external_body]
pub(crate) fn status_items(repo: &Repository) -> (r: Result<Vec<StatusItem>, (StatusStep, String)>) {
    repo.status(gix::progress::Discard)
        .map_err(|e| (StatusStep::Status, e.to_string()))?
        .untracked_files(gix::status::UntrackedFiles::Files)
        .into_iter(None)
        .map_err(|e| (StatusStep::Iteration, e.to_string()))?
        .collect::<Result<Vec<StatusItem>, _>>()
        .map_err(|e| (StatusStep::ProcessChange, e.to_string()))
}

/// Relies on the variants of `gix::status::Item` and of the two item types it wraps.
#[verifier::external_body]
pub(crate) fn status_item_kind(item: &StatusItem) -> (r: StatusItemKind) {
    match item {
        StatusItem::IndexWorktree(WorktreeItem::Modification { .. }) => StatusItemKind::WorktreeModification,
        StatusItem::IndexWorktree(WorktreeItem::DirectoryContents { .. }) => StatusItemKind::WorktreeDirectoryContents,
        StatusItem::IndexWorktree(WorktreeItem::Rewrite { .. }) => StatusItemKind::WorktreeRewrite,
        StatusItem::TreeIndex(IndexChange::Addition { .. }) => StatusItemKind::IndexAddition,
        StatusItem::TreeIndex(IndexChange::Deletion { .. }) => StatusItemKind::IndexDeletion,
        StatusItem::TreeIndex(IndexChange::Modification { .. }) => StatusItemKind::IndexModification,
        StatusItem::TreeIndex(IndexChange::Rewrite { .. }) => StatusItemKind::IndexRewrite,
    }
}

/// Relies on `gix::status::Item::location`: where the entry is now, where the path is valid UTF-8.
#[verifier::external_body]
pub(crate) fn status_item_location(item: &StatusItem) -> (r: Option<String>) {
    std::str::from_utf8(item.location()).ok().map(|s| s.to_string())
}

/// Relies on the rewrite variants' source fields: where a renamed or copied entry
/// came from, where the path is valid UTF-8; `None` for other entries.
#[verifier::external_body]
pub(crate) fn status_item_source_location(item: &StatusItem) -> (r: Option<String>) {
    let source: &[u8] = match item {
        StatusItem::IndexWorktree(WorktreeItem::Rewrite { source, .. }) => source.rela_path(),
        StatusItem::TreeIndex(IndexChange::Rewrite { source_location, .. }) => source_location.as_ref(),
        _ => return None,
    };
    std::str::from_utf8(source).ok().map(|s| s.to_string())
}

/// Relies on the rewrite variants' `copy` flag; `false` for other entries.
#[verifier::external_body]
pub(crate) fn status_item_is_copy(item: &StatusItem) -> (r: bool) {
    match item {
        StatusItem::IndexWorktree(WorktreeItem::Rewrite { copy, .. }) => *copy,
        StatusItem::TreeIndex(IndexChange::Rewrite { copy, .. }) => *copy,
        _ => false,
    }
}

/// Relies on `gix::dir::Entry::status`: whether a walked entry is ignored.
#[verifier::external_body]
pub(crate) fn status_item_is_ignored(item: &StatusItem) -> (r: bool) {
    match item {
        StatusItem::IndexWorktree(WorktreeItem::DirectoryContents { entry, .. }) => {
            matches!(entry.status, gix::dir::entry::Status::Ignored(_))
        },
        _ => false,
    }
}

/// Relies on `index_worktree::Item::summary`: git's summary of a working-tree change.
#[verifier::external_body]
pub(crate) fn status_item_summary(item: &StatusItem) -> (r: Option<WorktreeSummary>) {
    let StatusItem::IndexWorktree(item) = item else { return None };
    item.summary().map(|s| match s {
        Summary::Removed => WorktreeSummary::Removed,
        Summary::Added => WorktreeSummary::Added,
        Summary::Modified => WorktreeSummary::Modified,
        Summary::TypeChange => WorktreeSummary::TypeChange,
        Summary::Renamed => WorktreeSummary::Renamed,
        Summary::Copied => WorktreeSummary::Copied,
        Summary::IntentToAdd => WorktreeSummary::IntentToAdd,
        Summary::Conflict => WorktreeSummary::Conflict,
    })
}

/// Relies on `Mode::to_tree_entry_mode` and `EntryMode::kind`: the kind that the
/// mode recorded in the index gives, for entries that have one.
#[verifier::external_body]
pub(crate) fn status_item_entry_kind(item: &StatusItem) -> (r: Option<EntryKind>) {
    let mode = match item {
        StatusItem::IndexWorktree(WorktreeItem::Modification { entry, .. }) => entry.mode,
        StatusItem::TreeIndex(change) => change.fields().2,
        _ => return None,
    };
    mode.to_tree_entry_mode().map(|m| match m.kind() {
        gix::object::tree::EntryKind::Tree => EntryKind::Tree,
        gix::object::tree::EntryKind::Blob => EntryKind::Blob,
        gix::object::tree::EntryKind::BlobExecutable => EntryKind::BlobExecutable,
        gix::object::tree::EntryKind::Link => EntryKind::Link,
        gix::object::tree::EntryKind::Commit => EntryKind::Commit,
    })
}

/// Relies on `gix::dir::Entry::disk_kind`: what the walk of the working tree found.
#[verifier::external_body]
pub(crate) fn status_item_disk_kind(item: &StatusItem) -> (r: Option<DiskKind>) {
    let kind = match item {
        StatusItem::IndexWorktree(WorktreeItem::DirectoryContents { entry, .. }) => entry.disk_kind,
        StatusItem::IndexWorktree(WorktreeItem::Rewrite { dirwalk_entry, .. }) => dirwalk_entry.disk_kind,
        _ => None,
    };
    kind.map(|k| match k {
        gix::dir::entry::Kind::Untrackable => DiskKind::Untrackable,
        gix::dir::entry::Kind::File => DiskKind::File,
        gix::dir::entry::Kind::Symlink => DiskKind::Symlink,
        gix::dir::entry::Kind::Directory => DiskKind::Directory,
        gix::dir::entry::Kind::Repository => DiskKind::Repository,
    })
}

} // verus!
