//! Tests for the record types, metadata extraction and path expansion.

use devbase::scanner::{choose_default_branch, extract_repo_info};
use devbase::{
    expand_path, HealthStatus, RepoHealth, RepoInfo, RepoStatus, ScanPath, ScanPathConfig,
    StoredRepo,
};
use std::path::Path;

fn init_repo_m(path: &Path) -> git2::Repository {
    git2::Repository::init(path).expect("Failed to init git repo")
}

#[test]
fn test_expand_path_plain_unchanged() {
    assert_eq!(expand_path("/absolute/path"), "/absolute/path");
    assert_eq!(expand_path("relative/path"), "relative/path");
    assert_eq!(expand_path(""), "");
}

#[test]
fn test_expand_path_tilde() {
    if let Some(home) = dirs::home_dir() {
        let home_str = home.to_string_lossy().into_owned();
        assert_eq!(expand_path("~"), home_str);
        assert_eq!(expand_path("~/projects"), format!("{home_str}/projects"));
        // a tilde that is not the shorthand is left alone
        assert_eq!(expand_path("~user/projects"), "~user/projects");
    }
}

#[test]
fn test_scan_path_from_config() {
    let config = ScanPathConfig {
        id: 7,
        path: "/srv/code".to_string(),
        enabled: true,
        max_depth: 5,
    };
    let scan_path = ScanPath::from_config(config);
    assert_eq!(scan_path.id, 7);
    assert_eq!(scan_path.path, "/srv/code");
    assert!(scan_path.enabled);
    assert_eq!(scan_path.max_depth, 5);
}

#[test]
fn test_repo_info_from_parts() {
    let stored = StoredRepo {
        id: 3,
        path: "/srv/code/app".to_string(),
        name: "app".to_string(),
        remote_url: Some("git@host:owner/app.git".to_string()),
        default_branch: Some("main".to_string()),
    };
    let health = RepoHealth {
        is_dirty: true,
        uncommitted_count: 2,
        staged_count: 0,
        commits_ahead: 0,
        commits_behind: 0,
        stash_count: 0,
        current_branch: Some("feature".to_string()),
        is_detached: false,
    };
    let info = RepoInfo::from_parts(stored, health, vec!["tooling".to_string()]);

    assert_eq!(info.id, 3);
    assert_eq!(info.path, "/srv/code/app");
    assert_eq!(info.name, "app");
    assert_eq!(info.remote_url, Some("git@host:owner/app.git".to_string()));
    assert_eq!(info.default_branch, Some("main".to_string()));
    assert_eq!(info.current_branch, Some("feature".to_string()));
    assert_eq!(info.status, RepoStatus::Dirty);
    assert_eq!(info.tags, vec!["tooling".to_string()]);
    assert!(info.health.is_dirty);
}

#[test]
fn test_health_status_fields() {
    let status = HealthStatus {
        status: "ok".to_string(),
        version: "0.1.0".to_string(),
        database_connected: true,
    };
    assert_eq!(status.status, "ok");
    assert_eq!(status.version, "0.1.0");
    assert!(status.database_connected);
}

#[test]
fn test_choose_default_branch_precedence() {
    // a branch HEAD answers, present or not
    assert_eq!(
        choose_default_branch(true, Some("dev".to_string()), true, true),
        Some("dev".to_string())
    );
    assert_eq!(choose_default_branch(true, None, true, true), None);
    // otherwise "main" before "master", and neither means none
    assert_eq!(choose_default_branch(false, None, true, true), Some("main".to_string()));
    assert_eq!(choose_default_branch(false, None, false, true), Some("master".to_string()));
    assert_eq!(choose_default_branch(false, None, false, false), None);
}

#[test]
fn test_extract_repo_info_name_and_path() {
    let temp = tempfile::tempdir().unwrap();
    let repo_path = temp.path().join("sample-project");
    init_repo_m(&repo_path);

    let info = extract_repo_info(repo_path.to_str().unwrap()).unwrap();

    assert_eq!(info.path, repo_path.to_str().unwrap());
    assert_eq!(info.name, "sample-project");
    assert_eq!(info.remote_url, None);
}

#[test]
fn test_extract_repo_info_remote_and_branch() {
    let temp = tempfile::tempdir().unwrap();
    let repo = init_repo_m(temp.path());
    repo.remote("origin", "git@github.com:owner/sample.git").unwrap();

    let info = extract_repo_info(temp.path().to_str().unwrap()).unwrap();

    assert_eq!(info.remote_url, Some("git@github.com:owner/sample.git".to_string()));
}

#[test]
fn test_extract_repo_info_on_plain_dir_is_scan_error() {
    let temp = tempfile::tempdir().unwrap();

    let result = extract_repo_info(temp.path().to_str().unwrap());

    assert!(result.is_err());
    let err = result.err().unwrap();
    assert!(err.display_string().starts_with("Scan error: Failed to open repository"));
}
