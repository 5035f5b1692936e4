use std::collections::BTreeMap;
use std::io::Write;
use std::path::{Path, PathBuf};

use gix::objs::tree::EntryKind;
use test_changed::error::AppError;
use test_changed::vcs::{ChangeType, FileType, GitVcs, Vcs};

type TestResult = Result<(), Box<dyn std::error::Error>>;

/// A scratch repository. Files are written to the working tree; staging and
/// committing are done through gix's object database.
struct TestRepo {
    _temp_dir: tempfile::TempDir,
    repo_path: PathBuf,
    repo: gix::Repository,
    worktree: BTreeMap<String, (EntryKind, Vec<u8>)>,
    staged: BTreeMap<String, (EntryKind, Vec<u8>)>,
    head: Option<gix::ObjectId>,
}

impl TestRepo {
    fn new() -> Result<Self, Box<dyn std::error::Error>> {
        let temp_dir = tempfile::tempdir()?;
        let repo_path = temp_dir.path().to_path_buf();
        let mut repo = gix::init(&repo_path)?;
        let mut config = repo.config_snapshot_mut();
        config.set_raw_value_by("user", None, "name", "Test User")?;
        config.set_raw_value_by("user", None, "email", "test@example.com")?;
        config.commit()?;
        Ok(TestRepo {
            _temp_dir: temp_dir,
            repo_path,
            repo,
            worktree: BTreeMap::new(),
            staged: BTreeMap::new(),
            head: None,
        })
    }

    fn root(&self) -> &str {
        self.repo_path.to_str().unwrap()
    }

    fn create_file(&mut self, filename: &str, content: &str) -> Result<PathBuf, Box<dyn std::error::Error>> {
        let bytes = format!("{}\n", content).into_bytes();
        let mut file = tempfile::NamedTempFile::new_in(&self.repo_path)?;
        file.write_all(&bytes)?;
        let path = self.repo_path.join(filename);
        file.persist(&path)?;
        self.worktree.insert(filename.to_string(), (EntryKind::Blob, bytes));
        Ok(path)
    }

    fn modify_file(&mut self, filename: &str, content: &str) -> Result<(), Box<dyn std::error::Error>> {
        self.create_file(filename, content)?;
        Ok(())
    }

    fn create_symlink(&mut self, link_name: &str, target: &str) -> Result<PathBuf, Box<dyn std::error::Error>> {
        let link_path = self.repo_path.join(link_name);
        gix::fs::symlink::create(Path::new(target), &link_path)?;
        self.worktree
            .insert(link_name.to_string(), (EntryKind::Link, target.as_bytes().to_vec()));
        Ok(link_path)
    }

    fn is_ignored(&self, filename: &str) -> bool {
        match self.worktree.get(".gitignore") {
            Some((_, rules)) => {
                let rules = String::from_utf8_lossy(rules);
                rules
                    .lines()
                    .filter_map(|l| l.strip_prefix('*'))
                    .any(|suffix| filename.ends_with(suffix))
            }
            None => false,
        }
    }

    fn stage_file(&mut self, filename: &str) -> Result<(), Box<dyn std::error::Error>> {
        if let Some(entry) = self.worktree.get(filename) {
            self.staged.insert(filename.to_string(), entry.clone());
        }
        self.write_index()
    }

    fn stage_all(&mut self) -> Result<(), Box<dyn std::error::Error>> {
        let names: Vec<String> = self.worktree.keys().cloned().collect();
        for name in names {
            if !self.is_ignored(&name) {
                if let Some(entry) = self.worktree.get(&name) {
                    self.staged.insert(name.clone(), entry.clone());
                }
            }
        }
        self.write_index()
    }

    /// Makes the index hold exactly the staged entries.
    fn write_index(&self) -> Result<(), Box<dyn std::error::Error>> {
        let tree_id = self.write_tree()?;
        let mut index = self.repo.index_from_tree(&tree_id)?;
        index.write(Default::default())?;
        Ok(())
    }

    fn write_tree(&self) -> Result<gix::ObjectId, Box<dyn std::error::Error>> {
        let mut entries = Vec::new();
        for (name, (kind, bytes)) in &self.staged {
            let oid = self.repo.write_blob(bytes)?.detach();
            entries.push(gix::objs::tree::Entry {
                mode: (*kind).into(),
                filename: name.as_str().into(),
                oid,
            });
        }
        Ok(self.repo.write_object(&gix::objs::Tree { entries })?.detach())
    }

    fn commit(&mut self, message: &str) -> Result<String, Box<dyn std::error::Error>> {
        let tree_id = self.write_tree()?;
        let time = gix::date::Time::new(1_700_000_000, 0);
        let signature = gix::actor::SignatureRef {
            name: "Test User".into(),
            email: "test@example.com".into(),
            time,
        };
        let parents: Vec<gix::ObjectId> = self.head.into_iter().collect();
        let id = self
            .repo
            .commit_as(signature, signature, "HEAD", message, tree_id, parents)?
            .detach();
        self.head = Some(id);
        Ok(id.to_string())
    }

    fn create_and_commit_file(&mut self, filename: &str, content: &str) -> Result<String, Box<dyn std::error::Error>> {
        self.create_file(filename, content)?;
        self.stage_file(filename)?;
        self.commit(&format!("Add {}", filename))
    }
}

fn ends_with(path: &str, name: &str) -> bool {
    Path::new(path).ends_with(name)
}

#[test]
fn test_get_workspace_root_from_repo_root() -> TestResult {
    let test_repo = TestRepo::new()?;

    let git_vcs = GitVcs;
    let workspace_root = git_vcs.get_workspace_root(test_repo.root()).unwrap();

    let expected = test_repo.repo_path.canonicalize()?;
    assert_eq!(workspace_root, expected.to_str().unwrap());
    Ok(())
}

#[test]
fn test_added_file() -> TestResult {
    let mut test_repo = TestRepo::new()?;
    test_repo.create_file("new.txt", "new content")?;

    let git_vcs = GitVcs;
    let changes = git_vcs.get_uncommitted_changes(test_repo.root()).unwrap();

    assert_eq!(changes.len(), 1);
    let change = &changes[0];
    assert_eq!(change.change_type, ChangeType::Added);
    assert_eq!(change.file_type, FileType::File);
    assert!(ends_with(&change.current_path, "new.txt"));
    assert!(change.old_path.is_none());
    Ok(())
}

#[test]
fn test_empty_repository() -> TestResult {
    let mut test_repo = TestRepo::new()?;
    test_repo.create_file("uncommitted.txt", "content")?;

    let git_vcs = GitVcs;
    let changes = git_vcs.get_uncommitted_changes(test_repo.root()).unwrap();

    assert_eq!(changes.len(), 1);
    assert!(ends_with(&changes[0].current_path, "uncommitted.txt"));
    assert_eq!(changes[0].change_type, ChangeType::Added);
    Ok(())
}

#[test]
fn test_added_file_between_commits() -> TestResult {
    let mut test_repo = TestRepo::new()?;
    let commit1 = test_repo.create_and_commit_file("file1.txt", "content")?;
    test_repo.create_file("file2.txt", "content of file 2")?;
    test_repo.stage_all()?;
    let commit2 = test_repo.commit("Second commit")?;

    let git_vcs = GitVcs;
    let changes = git_vcs
        .get_changes_between(test_repo.root(), &commit1, Some(&commit2))
        .unwrap();

    assert_eq!(changes.len(), 1);
    let change = &changes[0];
    assert_eq!(change.change_type, ChangeType::Added);
    assert_eq!(change.file_type, FileType::File);
    assert!(ends_with(&change.current_path, "file2.txt"));
    assert!(change.old_path.is_none());
    Ok(())
}

#[test]
fn test_modified_file_between_commits() -> TestResult {
    let mut test_repo = TestRepo::new()?;
    let commit1 = test_repo.create_and_commit_file("file.txt", "initial content")?;
    test_repo.modify_file("file.txt", "modified content")?;
    test_repo.stage_all()?;
    let commit2 = test_repo.commit("Modify file")?;

    let git_vcs = GitVcs;
    let changes = git_vcs
        .get_changes_between(test_repo.root(), &commit1, Some(&commit2))
        .unwrap();

    assert_eq!(changes.len(), 1);
    let change = &changes[0];
    assert_eq!(change.change_type, ChangeType::Modified);
    assert_eq!(change.file_type, FileType::File);
    assert!(ends_with(&change.current_path, "file.txt"));
    assert!(change.old_path.is_none());
    Ok(())
}

#[test]
fn test_symlink_between_commits() -> TestResult {
    let mut test_repo = TestRepo::new()?;
    test_repo.create_file("target.txt", "target content")?;
    test_repo.stage_all()?;
    let commit1 = test_repo.commit("Add target file")?;
    test_repo.create_symlink("link.txt", "target.txt")?;
    test_repo.stage_all()?;
    let commit2 = test_repo.commit("Add symlink")?;

    let git_vcs = GitVcs;
    let changes = git_vcs
        .get_changes_between(test_repo.root(), &commit1, Some(&commit2))
        .unwrap();

    assert_eq!(changes.len(), 1);
    let change = &changes[0];
    assert_eq!(change.change_type, ChangeType::Added);
    assert_eq!(change.file_type, FileType::Symlink);
    assert!(ends_with(&change.current_path, "link.txt"));
    assert!(change.old_path.is_none());
    Ok(())
}

#[test]
fn test_ignored_file_between_commits() -> TestResult {
    let mut test_repo = TestRepo::new()?;
    test_repo.create_file(".gitignore", "*.log\n")?;
    test_repo.stage_all()?;
    let commit1 = test_repo.commit("Add gitignore")?;
    test_repo.create_file("ignored.log", "log content")?;
    test_repo.create_file("tracked.txt", "tracked content")?;
    test_repo.stage_all()?;
    let commit2 = test_repo.commit("Add tracked file")?;

    let git_vcs = GitVcs;
    let changes = git_vcs
        .get_changes_between(test_repo.root(), &commit1, Some(&commit2))
        .unwrap();

    assert_eq!(changes.len(), 1);
    let change = &changes[0];
    assert_eq!(change.change_type, ChangeType::Added);
    assert!(ends_with(&change.current_path, "tracked.txt"));
    Ok(())
}

#[test]
fn test_changes_with_default_head() -> TestResult {
    let mut test_repo = TestRepo::new()?;
    let commit1 = test_repo.create_and_commit_file("file1.txt", "content")?;
    test_repo.create_file("file2.txt", "content")?;
    test_repo.stage_all()?;
    test_repo.commit("Second commit")?;

    let git_vcs = GitVcs;
    let changes = git_vcs.get_changes_between(test_repo.root(), &commit1, None).unwrap();

    assert_eq!(changes.len(), 1);
    assert!(ends_with(&changes[0].current_path, "file2.txt"));
    assert_eq!(changes[0].change_type, ChangeType::Added);
    Ok(())
}

#[test]
fn test_changes_with_invalid_reference() {
    let test_repo = TestRepo::new().unwrap();

    let git_vcs = GitVcs;
    let result = git_vcs.get_changes_between(test_repo.root(), "non-existent-ref", None);

    assert!(result.is_err());
    if let Err(AppError::GitOperationFailed { operation: _, reason: _ }) = result {
    } else {
        panic!("Expected GitOperationFailed error, got: {:?}", result);
    }
}

#[test]
fn test_modified_file() -> TestResult {
    let mut test_repo = TestRepo::new()?;
    test_repo.create_and_commit_file("file.txt", "initial content")?;
    test_repo.modify_file("file.txt", "modified content")?;

    let git_vcs = GitVcs;
    let changes = git_vcs.get_uncommitted_changes(test_repo.root()).unwrap();

    assert_eq!(changes.len(), 1);
    let change = &changes[0];
    assert_eq!(change.change_type, ChangeType::Modified);
    assert_eq!(change.file_type, FileType::File);
    assert!(ends_with(&change.current_path, "file.txt"));
    assert!(change.old_path.is_none());
    Ok(())
}

#[test]
fn test_no_changes_in_clean_repo() -> TestResult {
    let mut test_repo = TestRepo::new()?;
    test_repo.create_and_commit_file("file.txt", "content")?;

    let git_vcs = GitVcs;
    let changes = git_vcs.get_uncommitted_changes(test_repo.root()).unwrap();

    assert!(changes.is_empty());
    Ok(())
}

#[test]
fn test_ignored_files() -> TestResult {
    let mut test_repo = TestRepo::new()?;
    test_repo.create_and_commit_file(".gitignore", "*.log\n")?;
    test_repo.create_file("ignored.log", "log content")?;
    test_repo.create_file("tracked.txt", "tracked content")?;

    let git_vcs = GitVcs;
    let changes = git_vcs.get_uncommitted_changes(test_repo.root()).unwrap();

    assert_eq!(changes.len(), 1);
    let change = &changes[0];
    assert_eq!(change.change_type, ChangeType::Added);
    assert!(ends_with(&change.current_path, "tracked.txt"));
    Ok(())
}

#[test]
fn test_staged_changes() -> TestResult {
    let mut test_repo = TestRepo::new()?;
    test_repo.create_file("staged.txt", "staged content")?;
    test_repo.stage_file("staged.txt")?;

    let git_vcs = GitVcs;
    let changes = git_vcs.get_uncommitted_changes(test_repo.root()).unwrap();

    assert_eq!(changes.len(), 1);
    let change = &changes[0];
    assert_eq!(change.change_type, ChangeType::Added);
    assert_eq!(change.file_type, FileType::File);
    assert!(ends_with(&change.current_path, "staged.txt"));
    Ok(())
}

#[test]
fn test_unstaged_and_staged_changes() -> TestResult {
    let mut test_repo = TestRepo::new()?;
    test_repo.create_file("staged.txt", "staged content")?;
    test_repo.create_file("unstaged.txt", "unstaged content")?;
    test_repo.stage_file("staged.txt")?;

    let git_vcs = GitVcs;
    let changes = git_vcs.get_uncommitted_changes(test_repo.root()).unwrap();

    assert_eq!(changes.len(), 2);
    let staged = changes.iter().find(|c| ends_with(&c.current_path, "staged.txt"));
    let unstaged = changes.iter().find(|c| ends_with(&c.current_path, "unstaged.txt"));
    assert!(staged.is_some());
    assert!(unstaged.is_some());
    assert_eq!(staged.unwrap().change_type, ChangeType::Added);
    assert_eq!(unstaged.unwrap().change_type, ChangeType::Added);
    Ok(())
}

#[test]
fn test_get_workspace_root_not_in_git_repo() {
    let temp_dir = tempfile::TempDir::new().unwrap();

    let git_vcs = GitVcs;
    let result = git_vcs.get_workspace_root(temp_dir.path().to_str().unwrap());

    assert!(result.is_err());
    if let Err(AppError::GitDiscoveryFailed { reason: _ }) = result {
    } else {
        panic!("Expected GitDiscoveryFailed error, got: {:?}", result);
    }
}

#[test]
fn test_symlink_change() -> TestResult {
    let mut test_repo = TestRepo::new()?;
    test_repo.create_and_commit_file("target.txt", "target content")?;
    test_repo.create_symlink("link.txt", "target.txt")?;

    let git_vcs = GitVcs;
    let changes = git_vcs.get_uncommitted_changes(test_repo.root()).unwrap();

    assert_eq!(changes.len(), 1);
    let change = &changes[0];
    assert_eq!(change.change_type, ChangeType::Added);
    assert_eq!(change.file_type, FileType::Symlink);
    assert!(ends_with(&change.current_path, "link.txt"));
    assert!(change.old_path.is_none());
    Ok(())
}
