//! Tests for the public string and path helpers.

use devbase::scanner::{git_metadata_path, keep_component, strict_ancestor_of};
use devbase::strutil::{repo_name_of_path, str_concat, str_eq, str_has_prefix, str_has_suffix};

#[test]
fn test_repo_name_last_segment() {
    assert_eq!(repo_name_of_path("/srv/code/app"), "app");
    assert_eq!(repo_name_of_path("relative/dir"), "dir");
    assert_eq!(repo_name_of_path("plain"), "plain");
}

#[test]
fn test_repo_name_trailing_slashes() {
    assert_eq!(repo_name_of_path("/srv/code/app/"), "app");
    assert_eq!(repo_name_of_path("/srv/code/app//"), "app");
}

#[test]
fn test_repo_name_fallback() {
    assert_eq!(repo_name_of_path("/"), "unknown");
    assert_eq!(repo_name_of_path(""), "unknown");
}

#[test]
fn test_keep_component_skips_well_known_dirs() {
    assert!(!keep_component("node_modules"));
    assert!(!keep_component("target"));
    assert!(!keep_component("__pycache__"));
    assert!(!keep_component("build"));
    assert!(keep_component("src"));
    assert!(keep_component(".git"));
    assert!(keep_component("node_modules2"));
}

#[test]
fn test_strict_ancestor() {
    assert!(strict_ancestor_of("/a", "/a/b"));
    assert!(strict_ancestor_of("/a/b", "/a/b/c/d"));
    assert!(!strict_ancestor_of("/a", "/ab"));
    assert!(!strict_ancestor_of("/a/b", "/a"));
    assert!(!strict_ancestor_of("/a", "/a"));
}

#[test]
fn test_metadata_path_join() {
    assert_eq!(git_metadata_path("/srv/app"), "/srv/app/.git");
    assert_eq!(git_metadata_path("/srv/app/"), "/srv/app/.git");
}

#[test]
fn test_string_helpers() {
    assert!(str_has_prefix("git@host", "git@"));
    assert!(!str_has_prefix("gi", "git@"));
    assert!(str_has_suffix("x/.git", "/.git"));
    assert!(!str_has_suffix(".git", "/.git"));
    assert!(str_eq("same", "same"));
    assert!(!str_eq("same", "sam"));
    assert_eq!(str_concat("ab", "cd"), "abcd");
}
