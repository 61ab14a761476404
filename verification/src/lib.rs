//! A library for discovering and summarizing the state of local git working
//! trees: filesystem discovery with deduplication and submodule suppression,
//! repository metadata extraction, a best-effort health snapshot with a
//! derived status classification, and bounded commit-history traversal.

pub mod error;
pub mod gitio;
pub mod history;
pub mod model;
pub mod pathutil;
pub mod scanner;
pub mod status;
pub mod strutil;
pub mod urlparse;
pub mod walkio;

pub use error::{DevBaseError, IpcError};
pub use history::{get_repo_history, CommitLogEntry};
pub use model::{HealthStatus, RepoInfo, ScanPath, ScanPathConfig, StoredRepo, Tag};
pub use pathutil::expand_path;
pub use scanner::{find_git_repos, is_git_repo, scan_directory, DiscoveredRepo};
pub use status::{get_repo_health, RepoHealth, RepoStatus};
pub use urlparse::{extract_host_from_url, extract_org_from_url};
