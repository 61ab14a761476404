//! Health snapshots of a git working tree and their status classification.

use vstd::prelude::*;
use crate::error::DevBaseError;
use crate::gitio::{
    open_repo, head_summary, status_bits, stash_indices, branch_and_upstream_tips,
    graph_ahead_behind,
};
use crate::strutil::str_concat;

verus! {

/// Status bits marking a difference between the last commit and the index
/// (mirrors git2's `INDEX_NEW | INDEX_MODIFIED | INDEX_DELETED |
/// INDEX_RENAMED | INDEX_TYPECHANGE`, bits 0 through 4).
pub const INDEX_CHANGE_BITS: u32 = 0x1f;

/// Status bits marking a difference between the index and the working tree,
/// untracked files included (mirrors git2's `WT_NEW | WT_MODIFIED |
/// WT_DELETED | WT_TYPECHANGE | WT_RENAMED`, bits 7 through 11).
pub const WT_CHANGE_BITS: u32 = 0xf80;

/// The path behind this status word has a staged (index) change.
pub open spec fn is_staged_change(bits: u32) -> bool {
    bits & INDEX_CHANGE_BITS != 0
}

/// The path behind this status word has an unstaged (working-tree) change.
pub open spec fn is_wt_change(bits: u32) -> bool {
    bits & WT_CHANGE_BITS != 0
}

/// How many status words mark a staged change.
pub open spec fn count_staged(bits: Seq<u32>) -> nat
    decreases bits.len(),
{
    if bits.len() == 0 {
        0
    } else {
        count_staged(bits.drop_last()) + if is_staged_change(bits.last()) { 1nat } else { 0 }
    }
}

/// How many status words mark an unstaged change.
pub open spec fn count_wt(bits: Seq<u32>) -> nat
    decreases bits.len(),
{
    if bits.len() == 0 {
        0
    } else {
        count_wt(bits.drop_last()) + if is_wt_change(bits.last()) { 1nat } else { 0 }
    }
}

/// `n` held to the range of a `u32`.
pub open spec fn cap_u32(n: nat) -> nat {
    if n > u32::MAX { u32::MAX as nat } else { n }
}

/// Health/status snapshot of one working tree, produced fresh on each query.
#[derive(Debug, Clone)]
pub struct RepoHealth {
    /// The tree has uncommitted changes (working tree or index).
    pub is_dirty: bool,
    /// Number of paths with a working-tree change (including untracked files).
    pub uncommitted_count: u32,
    /// Number of paths with a staged (index) change.
    pub staged_count: u32,
    /// Commits reachable from the local branch tip but not its upstream.
    pub commits_ahead: u32,
    /// Commits reachable from the upstream tip but not the local branch.
    pub commits_behind: u32,
    /// Number of stash entries.
    pub stash_count: u32,
    /// Shorthand name HEAD resolves to, when it resolves.
    pub current_branch: Option<String>,
    /// HEAD does not point at a branch.
    pub is_detached: bool,
}

/// The snapshot's internal invariant: the dirty flag summarizes the counts.
pub open spec fn health_wf(h: RepoHealth) -> bool {
    h.is_dirty == (h.uncommitted_count > 0 || h.staged_count > 0)
}

impl Default for RepoHealth {
    /// The all-clean snapshot; also what failing sub-checks degrade to.
    fn default() -> (r: Self)
        ensures
            r.is_dirty == false,
            r.uncommitted_count == 0,
            r.staged_count == 0,
            r.commits_ahead == 0,
            r.commits_behind == 0,
            r.stash_count == 0,
            r.current_branch is None,
            r.is_detached == false,
            health_wf(r),
    {
        RepoHealth {
            is_dirty: false,
            uncommitted_count: 0,
            staged_count: 0,
            commits_ahead: 0,
            commits_behind: 0,
            stash_count: 0,
            current_branch: None,
            is_detached: false,
        }
    }
}

/// Summary classification of a snapshot, for display.
#[derive(Debug, Clone, Copy, PartialEq, Eq, Structural)]
pub enum RepoStatus {
    /// No local changes and not ahead of or behind an upstream.
    Clean,
    /// Has uncommitted or staged changes.
    Dirty,
    /// Has commits to push.
    Ahead,
    /// Has commits to pull.
    Behind,
    /// Has commits both to push and to pull.
    Diverged,
}

/// The classification precedence: divergence and remote-relative state
/// dominate local dirtiness; first match wins.
pub open spec fn spec_status(h: RepoHealth) -> RepoStatus {
    if h.commits_ahead > 0 && h.commits_behind > 0 {
        RepoStatus::Diverged
    } else if h.commits_behind > 0 {
        RepoStatus::Behind
    } else if h.commits_ahead > 0 {
        RepoStatus::Ahead
    } else if h.is_dirty {
        RepoStatus::Dirty
    } else {
        RepoStatus::Clean
    }
}

/// Count the staged and unstaged changes among the status words; one path
/// contributes to both counts when it has both. Each count saturates at the
/// range of its field.
fn count_status_changes(bits: &Vec<u32>) -> (r: (u32, u32))
    ensures
        r.0 as nat == cap_u32(count_staged(bits@)),
        r.1 as nat == cap_u32(count_wt(bits@)),
{
    let mut staged: u32 = 0;
    let mut wt: u32 = 0;
    let mut i: usize = 0;
    assert(bits@.take(0) =~= Seq::<u32>::empty());
    while i < bits.len()
        invariant
            0 <= i <= bits@.len(),
            staged as nat == cap_u32(count_staged(bits@.take(i as int))),
            wt as nat == cap_u32(count_wt(bits@.take(i as int))),
        decreases bits@.len() - i,
    {
        let b = bits[i];
        proof {
            assert(bits@.take(i + 1).drop_last() =~= bits@.take(i as int));
            assert(bits@.take(i + 1).last() == b);
        }
        if b & INDEX_CHANGE_BITS != 0 && staged < u32::MAX {
            staged = staged + 1;
        } else if b & INDEX_CHANGE_BITS != 0 {
            assert(staged == u32::MAX);
        }
        if b & WT_CHANGE_BITS != 0 && wt < u32::MAX {
            wt = wt + 1;
        } else if b & WT_CHANGE_BITS != 0 {
            assert(wt == u32::MAX);
        }
        i = i + 1;
    }
    assert(bits@.take(i as int) =~= bits@);
    (staged, wt)
}

/// `n` lowered into a `u32`, saturating at its maximum.
fn cap_usize_u32(n: usize) -> (r: u32)
    ensures
        r as nat == cap_u32(n as nat),
{
    if n > u32::MAX as usize {
        u32::MAX
    } else {
        n as u32
    }
}

/// The branch fields of a snapshot, from what HEAD resolution reported:
/// detached means HEAD resolved but not to a branch, and the current branch
/// is HEAD's shorthand. An unresolvable HEAD keeps the defaults — not
/// detached, no branch — because health is best-effort.
pub fn head_fields(head: Option<(bool, Option<String>, Option<git2::Oid>)>) -> (r: (bool, Option<String>))
    ensures
        head is Some ==> r.0 == !head.unwrap().0 && r.1 == head.unwrap().1,
        head is None ==> r.0 == false && r.1 is None,
{
    match head {
        Some((is_branch, shorthand, _target)) => (!is_branch, shorthand),
        None => (false, None),
    }
}

/// The two change counts of a snapshot, from what status enumeration
/// reported: the capped staged and unstaged counts of the status words, or
/// zeroes when the enumeration failed — a deliberate degrade, since partial
/// health is still useful.
pub fn status_counts(bits: Option<Vec<u32>>) -> (r: (u32, u32))
    ensures
        bits is None ==> r == (0u32, 0u32),
        bits is Some ==> r.0 as nat == cap_u32(count_staged(bits.unwrap()@))
            && r.1 as nat == cap_u32(count_wt(bits.unwrap()@)),
{
    match bits {
        Some(words) => count_status_changes(&words),
        None => (0, 0),
    }
}

/// The stash count of a snapshot: how many entries the enumeration yielded,
/// capped at the field's range.
pub fn stash_count_of(indices: &Vec<usize>) -> (r: u32)
    ensures
        r as nat == cap_u32(indices@.len()),
{
    cap_usize_u32(indices.len())
}

/// The ahead/behind pair of a snapshot, from what the commit-graph
/// reachability call reported: the capped counts, or `(0, 0)` when the
/// upstream could not be resolved or the computation failed — the deliberate
/// degrade of every failure along this path.
pub fn degraded_ahead_behind(counts: Option<(usize, usize)>) -> (r: (u32, u32))
    ensures
        counts is None ==> r == (0u32, 0u32),
        counts is Some ==> r.0 as nat == cap_u32(counts.unwrap().0 as nat)
            && r.1 as nat == cap_u32(counts.unwrap().1 as nat),
{
    match counts {
        Some((ahead, behind)) => (cap_usize_u32(ahead), cap_usize_u32(behind)),
        None => (0, 0),
    }
}

/// Ahead/behind counts of the named local branch relative to its configured
/// upstream. A missing upstream is the common case, not an error, and any
/// failure along this path likewise degrades to `(0, 0)`.
fn ahead_behind(repo: &git2::Repository, branch: &str) -> (u32, u32)
{
    let counts = match branch_and_upstream_tips(repo, branch) {
        Some((local, upstream)) => graph_ahead_behind(repo, &local, &upstream),
        None => None,
    };
    degraded_ahead_behind(counts)
}

/// Compute a fresh health snapshot of the working tree at `path`.
///
/// Fails with a scan error exactly when the tree cannot be opened; every
/// other sub-check degrades to the snapshot's default value for its field,
/// because health is best-effort and partial information is still useful.
/// Ahead/behind are computed only when a current branch is known.
pub fn get_repo_health(path: &str) -> (r: Result<RepoHealth, DevBaseError>)
    ensures
        r is Ok ==> health_wf(r.unwrap()),
        r is Ok && r.unwrap().current_branch is None
            ==> r.unwrap().commits_ahead == 0 && r.unwrap().commits_behind == 0,
        r is Err ==> r.unwrap_err() is Scan,
{
    let mut repo = match open_repo(path) {
        Ok(repo) => repo,
        Err(msg) => {
            return Err(DevBaseError::Scan {
                message: str_concat("Failed to open repository: ", msg.as_str()),
            });
        },
    };
    let mut health = RepoHealth::default();
    let (is_detached, current_branch) = head_fields(head_summary(&repo));
    health.is_detached = is_detached;
    health.current_branch = current_branch;
    let (staged, uncommitted) = status_counts(status_bits(&repo));
    health.staged_count = staged;
    health.uncommitted_count = uncommitted;
    health.is_dirty = health.uncommitted_count > 0 || health.staged_count > 0;
    // a failing stash enumeration yields no further indices, hence a low count
    let stashes = stash_indices(&mut repo);
    health.stash_count = stash_count_of(&stashes);
    match &health.current_branch {
        Some(branch) => {
            let (ahead, behind) = ahead_behind(&repo, branch.as_str());
            health.commits_ahead = ahead;
            health.commits_behind = behind;
        },
        None => {
            // ahead/behind are only computed when a current branch is known
        },
    }
    Ok(health)
}

impl RepoHealth {
    /// The overall status of this snapshot, by the fixed precedence chain.
    pub fn status(&self) -> (r: RepoStatus)
        ensures
            r == spec_status(*self),
    {
        if self.commits_ahead > 0 && self.commits_behind > 0 {
            RepoStatus::Diverged
        } else if self.commits_behind > 0 {
            RepoStatus::Behind
        } else if self.commits_ahead > 0 {
            RepoStatus::Ahead
        } else if self.is_dirty {
            RepoStatus::Dirty
        } else {
            RepoStatus::Clean
        }
    }
}

} // verus!
