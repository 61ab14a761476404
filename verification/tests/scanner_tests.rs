//! Tests for working-tree discovery.

use devbase::scanner::depth_cap_of;
use devbase::{find_git_repos, is_git_repo, scan_directory};
use std::io::Write;
use std::path::Path;

fn init_repo_at(path: &Path) {
    git2::Repository::init(path).expect("Failed to init git repo");
}

fn as_str(path: &Path) -> &str {
    path.to_str().unwrap()
}

#[test]
fn test_find_single_repo() {
    let temp = tempfile::tempdir().unwrap();
    let repo_path = temp.path().join("my-repo");
    init_repo_at(&repo_path);

    let repos = find_git_repos(as_str(temp.path()), 5).unwrap();

    assert_eq!(repos.len(), 1);
    assert_eq!(repos[0].name, "my-repo");
}

#[test]
fn test_find_multiple_repos() {
    let temp = tempfile::tempdir().unwrap();

    for name in &["repo1", "repo2", "repo3"] {
        init_repo_at(&temp.path().join(name));
    }

    let repos = find_git_repos(as_str(temp.path()), 5).unwrap();

    assert_eq!(repos.len(), 3);
}

#[test]
fn test_find_nested_repos() {
    let temp = tempfile::tempdir().unwrap();

    let deep_path = temp.path().join("level1").join("level2").join("deep-repo");
    init_repo_at(&deep_path);

    let repos = find_git_repos(as_str(temp.path()), 10).unwrap();

    assert_eq!(repos.len(), 1);
    assert_eq!(repos[0].name, "deep-repo");
}

#[test]
fn test_max_depth_limits_search() {
    let temp = tempfile::tempdir().unwrap();

    // Create a deep repo
    let deep_path = temp.path().join("a").join("b").join("c").join("deep");
    init_repo_at(&deep_path);

    // Shallow search should not find it
    let repos = find_git_repos(as_str(temp.path()), 2).unwrap();
    assert_eq!(repos.len(), 0);

    // Deep search should find it
    let repos = find_git_repos(as_str(temp.path()), 10).unwrap();
    assert_eq!(repos.len(), 1);
}

#[test]
fn test_is_git_repo() {
    let temp = tempfile::tempdir().unwrap();
    let repo_dir = tempfile::tempdir_in(temp.path()).unwrap();

    assert!(!is_git_repo(as_str(repo_dir.path())));

    init_repo_at(repo_dir.path());

    assert!(is_git_repo(as_str(repo_dir.path())));
}

#[test]
fn test_scan_nonexistent_path() {
    let result = find_git_repos("/nonexistent/path", 5);
    assert!(result.is_err());
}

#[test]
fn test_nested_repo_suppressed() {
    let temp = tempfile::tempdir().unwrap();
    let outer = temp.path().join("outer");
    init_repo_at(&outer);
    init_repo_at(&outer.join("inner"));

    let repos = find_git_repos(as_str(temp.path()), 0).unwrap();

    // the nested tree is a submodule of the outer one and never reported;
    // no returned root is an ancestor of another
    assert_eq!(repos.len(), 1);
    assert_eq!(repos[0].name, "outer");
    for a in &repos {
        for b in &repos {
            if a.path != b.path {
                assert!(!b.path.starts_with(&format!("{}/", a.path)));
            }
        }
    }
}

#[test]
fn test_independent_repos_counted_exactly() {
    let temp = tempfile::tempdir().unwrap();
    for name in &["one", "two", "three", "four"] {
        init_repo_at(&temp.path().join(name));
    }

    let repos = find_git_repos(as_str(temp.path()), 0).unwrap();
    assert_eq!(repos.len(), 4);

    let mut names: Vec<String> = repos.iter().map(|r| r.name.clone()).collect();
    names.sort();
    assert_eq!(names, vec!["four".to_string(), "one".to_string(), "three".to_string(), "two".to_string()]);
}

#[test]
fn test_unlimited_depth_returns_superset() {
    let temp = tempfile::tempdir().unwrap();
    init_repo_at(&temp.path().join("shallow"));
    init_repo_at(&temp.path().join("d1").join("d2").join("d3").join("deeper"));

    let limited = find_git_repos(as_str(temp.path()), 2).unwrap();
    let unlimited = find_git_repos(as_str(temp.path()), 0).unwrap();

    assert_eq!(limited.len(), 1);
    assert_eq!(unlimited.len(), 2);
    for repo in &limited {
        assert!(unlimited.iter().any(|r| r.path == repo.path));
    }
}

#[test]
fn test_skip_directories_not_scanned() {
    let temp = tempfile::tempdir().unwrap();
    init_repo_at(&temp.path().join("node_modules").join("dep"));
    init_repo_at(&temp.path().join("kept"));

    let repos = find_git_repos(as_str(temp.path()), 0).unwrap();

    assert_eq!(repos.len(), 1);
    assert_eq!(repos[0].name, "kept");
}

#[test]
fn test_scan_directory_matches_finder() {
    let temp = tempfile::tempdir().unwrap();
    init_repo_at(&temp.path().join("solo"));

    let repos = scan_directory(as_str(temp.path()), 5).unwrap();
    assert_eq!(repos.len(), 1);
    assert_eq!(repos[0].name, "solo");
    assert_eq!(repos[0].path, as_str(&temp.path().join("solo")));
}

#[test]
fn test_scan_file_root_is_error() {
    let temp = tempfile::tempdir().unwrap();
    let mut file = tempfile::Builder::new()
        .prefix("afile")
        .suffix(".txt")
        .rand_bytes(0)
        .tempfile_in(temp.path())
        .unwrap();
    file.as_file_mut().write_all(b"not a directory").unwrap();

    let result = find_git_repos(as_str(&temp.path().join("afile.txt")), 5);
    assert!(result.is_err());
    assert_eq!(result.err().unwrap().code_string(), "NOT_A_DIRECTORY");
}

#[test]
fn test_depth_cap_of_zero_is_unlimited() {
    assert_eq!(depth_cap_of(0), None);
    assert_eq!(depth_cap_of(1), Some(1));
    assert_eq!(depth_cap_of(7), Some(7));
}

#[test]
fn test_scan_missing_root_is_not_found() {
    let result = find_git_repos("/nonexistent/devbase/root", 5);
    assert!(result.is_err());
    assert_eq!(result.err().unwrap().code_string(), "NOT_FOUND");
}
