//! Plain record types exchanged with the application layer: stored rows,
//! scan-path configuration, tags, and the assembled per-repository record.

use vstd::prelude::*;
use crate::status::{spec_status, RepoHealth, RepoStatus};

verus! {

/// Application health response.
#[derive(Debug)]
pub struct HealthStatus {
    pub status: String,
    pub version: String,
    pub database_connected: bool,
}

/// A repository row as the store keeps it.
#[derive(Debug, Clone)]
pub struct StoredRepo {
    pub id: i64,
    pub path: String,
    pub name: String,
    pub remote_url: Option<String>,
    pub default_branch: Option<String>,
}

/// A configured scan root: a path, a depth cap (zero meaning unlimited) and
/// an enabled flag.
#[derive(Debug, Clone)]
pub struct ScanPathConfig {
    pub id: i64,
    pub path: String,
    pub enabled: bool,
    pub max_depth: u32,
}

/// A tag that repositories can carry.
#[derive(Debug, Clone)]
pub struct Tag {
    pub id: i64,
    pub name: String,
    pub color: String,
}

/// The scan-path shape handed over the invocation surface.
#[derive(Debug, Clone)]
pub struct ScanPath {
    pub id: i64,
    pub path: String,
    pub enabled: bool,
    pub max_depth: u32,
}

impl ScanPath {
    /// The invocation-surface form of a stored scan-path row.
    pub fn from_config(config: ScanPathConfig) -> (r: ScanPath)
        ensures
            r.id == config.id,
            r.path@ == config.path@,
            r.enabled == config.enabled,
            r.max_depth == config.max_depth,
    {
        ScanPath {
            id: config.id,
            path: config.path,
            enabled: config.enabled,
            max_depth: config.max_depth,
        }
    }
}

/// A clone of an optional string, field for field.
fn clone_opt_string(value: &Option<String>) -> (r: Option<String>)
    ensures
        r == *value,
{
    match value {
        Some(s) => Some(s.clone()),
        None => None,
    }
}

/// The assembled per-repository record handed to callers.
#[derive(Debug, Clone)]
pub struct RepoInfo {
    pub id: i64,
    pub path: String,
    pub name: String,
    pub remote_url: Option<String>,
    pub default_branch: Option<String>,
    pub current_branch: Option<String>,
    pub health: RepoHealth,
    pub status: RepoStatus,
    pub tags: Vec<String>,
}

impl RepoInfo {
    /// Assemble the record for one repository: its stored identity, a fresh
    /// health snapshot, the snapshot's derived status, and its tags. The
    /// record's current branch is the snapshot's.
    pub fn from_parts(repo: StoredRepo, health: RepoHealth, tags: Vec<String>) -> (r: RepoInfo)
        ensures
            r.id == repo.id,
            r.path@ == repo.path@,
            r.name@ == repo.name@,
            r.remote_url == repo.remote_url,
            r.default_branch == repo.default_branch,
            r.current_branch == health.current_branch,
            r.health == health,
            r.status == spec_status(health),
            r.tags@ == tags@,
    {
        let status = health.status();
        let current_branch = clone_opt_string(&health.current_branch);
        RepoInfo {
            id: repo.id,
            path: repo.path,
            name: repo.name,
            remote_url: repo.remote_url,
            default_branch: repo.default_branch,
            current_branch,
            health,
            status,
            tags,
        }
    }
}

} // verus!
