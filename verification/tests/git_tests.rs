//! Tests for the health engine: snapshot fields and status classification.

use devbase::status::{degraded_ahead_behind, head_fields, stash_count_of, status_counts};
use devbase::{get_repo_health, RepoHealth, RepoStatus};
use std::io::Write;
use std::path::Path;

fn init_repo_h(path: &Path) -> git2::Repository {
    git2::Repository::init(path).expect("Failed to init git repo")
}

fn write_file_h(dir: &Path, prefix: &str, suffix: &str, content: &[u8]) -> tempfile::NamedTempFile {
    let mut file = tempfile::Builder::new()
        .prefix(prefix)
        .suffix(suffix)
        .rand_bytes(0)
        .tempfile_in(dir)
        .unwrap();
    file.as_file_mut().write_all(content).unwrap();
    file.as_file_mut().flush().unwrap();
    file
}

fn commit_all_h(repo: &git2::Repository, message: &str) -> git2::Oid {
    let mut index = repo.index().unwrap();
    index
        .add_all(["*"].iter(), git2::IndexAddOption::DEFAULT, None)
        .unwrap();
    index.write().unwrap();
    let tree_id = index.write_tree().unwrap();
    let tree = repo.find_tree(tree_id).unwrap();
    let sig = git2::Signature::now("Test User", "test@test.com").unwrap();
    let parent = match repo.head() {
        Ok(head) => Some(repo.find_commit(head.target().unwrap()).unwrap()),
        Err(_) => None,
    };
    let parents: Vec<&git2::Commit> = parent.iter().collect();
    repo.commit(Some("HEAD"), &sig, &sig, message, &tree, &parents)
        .unwrap()
}

#[test]
fn test_clean_repo_status() {
    let temp = tempfile::tempdir().unwrap();
    let repo = init_repo_h(temp.path());

    // Make an initial commit
    let readme = write_file_h(temp.path(), "README", ".md", b"# Test");
    commit_all_h(&repo, "initial");

    let health = get_repo_health(temp.path().to_str().unwrap()).unwrap();

    assert!(!health.is_dirty);
    assert_eq!(health.uncommitted_count, 0);
    assert_eq!(health.status(), RepoStatus::Clean);
    drop(readme);
}

#[test]
fn test_dirty_repo_status() {
    let temp = tempfile::tempdir().unwrap();
    init_repo_h(temp.path());

    // Create uncommitted file
    let dirty = write_file_h(temp.path(), "dirty", ".txt", b"uncommitted");

    let health = get_repo_health(temp.path().to_str().unwrap()).unwrap();

    assert!(health.is_dirty);
    assert!(health.uncommitted_count > 0);
    assert_eq!(health.status(), RepoStatus::Dirty);
    drop(dirty);
}

#[test]
fn test_staged_files_count() {
    let temp = tempfile::tempdir().unwrap();
    let repo = init_repo_h(temp.path());

    // Create and stage a file
    let staged = write_file_h(temp.path(), "staged", ".txt", b"staged content");
    let mut index = repo.index().unwrap();
    index.add_path(Path::new("staged.txt")).unwrap();
    index.write().unwrap();

    let health = get_repo_health(temp.path().to_str().unwrap()).unwrap();

    assert!(health.is_dirty);
    assert!(health.staged_count > 0);
    assert_eq!(health.status(), RepoStatus::Dirty);
    drop(staged);
}

#[test]
fn test_current_branch() {
    let temp = tempfile::tempdir().unwrap();
    let repo = init_repo_h(temp.path());

    // Make initial commit to create branch
    let readme = write_file_h(temp.path(), "README", ".md", b"# Test");
    commit_all_h(&repo, "init");

    let health = get_repo_health(temp.path().to_str().unwrap()).unwrap();

    // Branch is either main or master depending on git config
    assert!(
        health.current_branch == Some("main".to_string())
            || health.current_branch == Some("master".to_string())
    );
    drop(readme);
}

#[test]
fn test_stash_count() {
    let temp = tempfile::tempdir().unwrap();
    let mut repo = init_repo_h(temp.path());

    // Make initial commit
    let readme = write_file_h(temp.path(), "README", ".md", b"# Test");
    commit_all_h(&repo, "init");

    // Create and stash changes
    let stashed = write_file_h(temp.path(), "stashed", ".txt", b"to stash");
    let mut index = repo.index().unwrap();
    index
        .add_all(["*"].iter(), git2::IndexAddOption::DEFAULT, None)
        .unwrap();
    index.write().unwrap();
    let sig = git2::Signature::now("Test User", "test@test.com").unwrap();
    repo.stash_save(&sig, "stash", None).unwrap();

    let health = get_repo_health(temp.path().to_str().unwrap()).unwrap();

    assert_eq!(health.stash_count, 1);
    drop(stashed);
    drop(readme);
}

#[test]
fn test_fresh_commit_classifies_clean() {
    let temp = tempfile::tempdir().unwrap();
    let repo = init_repo_h(temp.path());
    let one = write_file_h(temp.path(), "one", ".txt", b"contents");
    commit_all_h(&repo, "only commit");

    let health = get_repo_health(temp.path().to_str().unwrap()).unwrap();

    assert_eq!(health.uncommitted_count, 0);
    assert_eq!(health.staged_count, 0);
    assert!(!health.is_dirty);
    assert_eq!(health.status(), RepoStatus::Clean);
    drop(one);
}

#[test]
fn test_untracked_file_dirties_clean_tree() {
    let temp = tempfile::tempdir().unwrap();
    let repo = init_repo_h(temp.path());
    let readme = write_file_h(temp.path(), "README", ".md", b"# Test");
    commit_all_h(&repo, "init");

    let extra = write_file_h(temp.path(), "untracked", ".txt", b"new");

    let health = get_repo_health(temp.path().to_str().unwrap()).unwrap();

    assert!(health.is_dirty);
    assert!(health.uncommitted_count >= 1);
    assert_eq!(health.status(), RepoStatus::Dirty);
    drop(extra);
    drop(readme);
}

#[test]
fn test_dirty_flag_matches_counts() {
    let temp = tempfile::tempdir().unwrap();
    init_repo_h(temp.path());
    let dirty = write_file_h(temp.path(), "loose", ".txt", b"x");

    let health = get_repo_health(temp.path().to_str().unwrap()).unwrap();

    assert_eq!(
        health.is_dirty,
        health.uncommitted_count > 0 || health.staged_count > 0
    );
    drop(dirty);
}

#[test]
fn test_status_precedence_diverged() {
    let health = RepoHealth {
        is_dirty: true,
        uncommitted_count: 1,
        staged_count: 0,
        commits_ahead: 2,
        commits_behind: 3,
        stash_count: 0,
        current_branch: Some("main".to_string()),
        is_detached: false,
    };
    assert_eq!(health.status(), RepoStatus::Diverged);
}

#[test]
fn test_status_precedence_chain() {
    let mut health = RepoHealth {
        is_dirty: true,
        uncommitted_count: 1,
        staged_count: 0,
        commits_ahead: 0,
        commits_behind: 3,
        stash_count: 0,
        current_branch: None,
        is_detached: false,
    };
    assert_eq!(health.status(), RepoStatus::Behind);

    health.commits_behind = 0;
    health.commits_ahead = 2;
    assert_eq!(health.status(), RepoStatus::Ahead);

    health.commits_ahead = 0;
    assert_eq!(health.status(), RepoStatus::Dirty);

    health.is_dirty = false;
    assert_eq!(health.status(), RepoStatus::Clean);
}

#[test]
fn test_default_health_is_clean() {
    let health = RepoHealth::default();
    assert!(!health.is_dirty);
    assert_eq!(health.uncommitted_count, 0);
    assert_eq!(health.staged_count, 0);
    assert_eq!(health.stash_count, 0);
    assert_eq!(health.current_branch, None);
    assert_eq!(health.status(), RepoStatus::Clean);
}

#[test]
fn test_head_fields_mapping() {
    // HEAD on a branch: not detached, branch name kept as reported
    assert_eq!(head_fields(Some((true, Some("main".to_string()), None))), (false, Some("main".to_string())));
    // HEAD resolved but not a branch: detached, shorthand still reported
    assert_eq!(head_fields(Some((false, Some("v1.0".to_string()), None))), (true, Some("v1.0".to_string())));
    // unresolvable HEAD degrades to the defaults
    assert_eq!(head_fields(None), (false, None));
}

#[test]
fn test_status_counts_mapping() {
    // a failing enumeration degrades to zero counts
    assert_eq!(status_counts(None), (0, 0));
    // bit 0 is a staged change, bit 7 an unstaged one; a word can carry both
    assert_eq!(status_counts(Some(vec![1, 128, 129, 0])), (2, 2));
    assert_eq!(status_counts(Some(vec![])), (0, 0));
}

#[test]
fn test_stash_count_of_list_length() {
    assert_eq!(stash_count_of(&vec![]), 0);
    assert_eq!(stash_count_of(&vec![0, 1, 2]), 3);
}

#[test]
fn test_degraded_ahead_behind_mapping() {
    // any failure along the upstream path degrades to (0, 0)
    assert_eq!(degraded_ahead_behind(None), (0, 0));
    assert_eq!(degraded_ahead_behind(Some((3, 4))), (3, 4));
    assert_eq!(degraded_ahead_behind(Some((0, 0))), (0, 0));
}

#[test]
fn test_health_on_missing_tree_is_scan_error() {
    let result = get_repo_health("/nonexistent/devbase/tree");
    assert!(result.is_err());
    let err = result.err().unwrap();
    assert!(err.display_string().starts_with("Scan error: "));
}
