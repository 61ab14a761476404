//! Trusted boundary to the `git2` crate: type declarations and thin wrappers.
//!
//! Every result here depends on what is on disk at call time, so the wrappers
//! state only what holds of every outcome; the verified callers take these
//! results as inputs and carry the real contracts.

use vstd::prelude::*;

verus! {

#[verifier::external_type_specification]
#[verifier::external_body]
pub struct ExRepository(git2::Repository);

#[verifier::external_type_specification]
#[verifier::external_body]
pub struct ExOid(git2::Oid);

/// Relies on `git2::Repository::open`: a handle on the working tree at
/// `path`, or the message of the error that prevented opening it.
#[verifier::external_body]
pub(crate) fn open_repo(path: &str) -> (r: Result<git2::Repository, String>)
{
    match git2::Repository::open(path) {
        Ok(repo) => Ok(repo),
        Err(e) => Err(format!("{e}")),
    }
}

/// Relies on `git2::Repository::head`, `Reference::is_branch`,
/// `Reference::shorthand` and `Reference::target`: whether HEAD points at a
/// branch, its shorthand name, and its target id; `None` when HEAD cannot be
/// resolved.
#[verifier::external_body]
pub(crate) fn head_summary(repo: &git2::Repository) -> (r: Option<(bool, Option<String>, Option<git2::Oid>)>)
{
    match repo.head() {
        Ok(head) => {
            let shorthand = match head.shorthand() {
                Ok(s) => Some(s.to_string()),
                Err(_) => None,
            };
            Some((head.is_branch(), shorthand, head.target()))
        },
        Err(_) => None,
    }
}

/// Relies on `git2::Repository::find_remote` and `Remote::url`: the
/// configured URL of the named remote, when the remote exists and its URL is
/// well-formed text.
#[verifier::external_body]
pub(crate) fn remote_url_of(repo: &git2::Repository, name: &str) -> (r: Option<String>)
{
    match repo.find_remote(name) {
        Ok(remote) => match remote.url() {
            Ok(u) => Some(u.to_string()),
            Err(_) => None,
        },
        Err(_) => None,
    }
}

/// Relies on `git2::Repository::find_branch` with the local branch type:
/// whether a local branch of this name exists.
#[verifier::external_body]
pub(crate) fn local_branch_exists(repo: &git2::Repository, name: &str) -> (r: bool)
{
    match repo.find_branch(name, git2::BranchType::Local) {
        Ok(_) => true,
        Err(_) => false,
    }
}

/// Relies on `git2::Repository::find_branch`, `Branch::upstream`,
/// `Branch::get` and `Reference::target`: the tip ids of the named local
/// branch and of its configured upstream, when branch, upstream and both
/// tips resolve.
#[verifier::external_body]
pub(crate) fn branch_and_upstream_tips(repo: &git2::Repository, name: &str) -> (r: Option<(git2::Oid, git2::Oid)>)
{
    let branch = match repo.find_branch(name, git2::BranchType::Local) {
        Ok(b) => b,
        Err(_) => return None,
    };
    let upstream = match branch.upstream() {
        Ok(u) => u,
        Err(_) => return None,
    };
    match (branch.get().target(), upstream.get().target()) {
        (Some(local), Some(up)) => Some((local, up)),
        _ => None,
    }
}

/// Relies on `git2::Repository::graph_ahead_behind`: how many commits each of
/// the two ids can reach that the other cannot.
#[verifier::external_body]
pub(crate) fn graph_ahead_behind(repo: &git2::Repository, local: &git2::Oid, upstream: &git2::Oid) -> (r: Option<(usize, usize)>)
{
    match repo.graph_ahead_behind(*local, *upstream) {
        Ok(counts) => Some(counts),
        Err(_) => None,
    }
}

/// Relies on `git2::Repository::statuses` (with untracked files included and
/// untracked directories recursed) and `git2::Status::bits`: the raw status
/// bits of every path that differs between commit, index and working tree.
#[verifier::external_body]
pub(crate) fn status_bits(repo: &git2::Repository) -> (r: Option<Vec<u32>>)
{
    let mut opts = git2::StatusOptions::new();
    opts.include_untracked(true).recurse_untracked_dirs(true);
    match repo.statuses(Some(&mut opts)) {
        Ok(statuses) => Some(statuses.iter().map(|e| e.status().bits()).collect()),
        Err(_) => None,
    }
}

/// Appends one stash index. Kept verified so that the trusted stash wrapper's
/// callback holds no logic of its own.
pub fn note_stash(seen: &mut Vec<usize>, index: usize) -> (r: bool)
    ensures
        final(seen)@ == old(seen)@.push(index),
        r == true,
{
    seen.push(index);
    true
}

/// Relies on `git2::Repository::stash_foreach`: the callback runs once per
/// stash entry, so the result holds one index per enumerated entry; a
/// failing enumeration keeps the indices seen before the failure.
#[verifier::external_body]
pub(crate) fn stash_indices(repo: &mut git2::Repository) -> (r: Vec<usize>)
{
    let mut seen: Vec<usize> = Vec::new();
    let _ = repo.stash_foreach(|index, _message, _id| note_stash(&mut seen, index));
    seen
}

/// Relies on `git2::Repository::revwalk`, `Revwalk::set_sorting` (topological
/// order biased by commit time), `Revwalk::push`, the `Revwalk` iterator with
/// `Iterator::take`, and `git2::Oid`'s `Display` (the full hex form of the
/// id): at most `limit` commit ids reachable from `start`, each paired with
/// its hex form, or the message of the error that stopped the walk. The walk
/// yields each commit at most once — libgit2 interns one node per id and
/// marks yielded nodes as seen — and distinct ids have distinct hex forms,
/// so the hex forms are pairwise distinct.
#[verifier::external_body]
pub(crate) fn walk_oids(repo: &git2::Repository, start: &git2::Oid, limit: usize) -> (r: Result<Vec<(git2::Oid, String)>, String>)
    ensures
        r is Ok ==> r.unwrap()@.len() <= limit,
        r is Ok ==> forall|i: int, j: int|
            0 <= i < r.unwrap()@.len() && 0 <= j < r.unwrap()@.len() && i != j
            ==> (#[trigger] r.unwrap()@[i]).1@ != (#[trigger] r.unwrap()@[j]).1@,
{
    let mut walk = match repo.revwalk() { Ok(w) => w, Err(e) => return Err(format!("{e}")) };
    if let Err(e) = walk.set_sorting(git2::Sort::TOPOLOGICAL | git2::Sort::TIME) {
        return Err(format!("{e}"));
    }
    if let Err(e) = walk.push(*start) {
        return Err(format!("{e}"));
    }
    let mut out: Vec<(git2::Oid, String)> = Vec::new();
    for item in walk.take(limit) {
        match item { Ok(oid) => out.push((oid, oid.to_string())), Err(e) => return Err(format!("{e}")) }
    }
    Ok(out)
}

/// The recorded fields of one commit, as handed back by the commit wrapper.
pub struct CommitRaw {
    /// First paragraph of the commit message, when it is well-formed text.
    pub summary: Option<String>,
    /// Author name, when it is well-formed text.
    pub author_name: Option<String>,
    /// Author email, when it is well-formed text.
    pub author_email: Option<String>,
    /// Commit time, in seconds since the epoch.
    pub date: i64,
    /// Hex ids of the commit's parents, in order.
    pub parents: Vec<String>,
}

/// Relies on `git2::Repository::find_commit`, `Commit::summary`,
/// `Commit::author`, `Signature::name`, `Signature::email`, `Commit::time`,
/// `Time::seconds` and `Commit::parent_ids`: the recorded fields of the
/// commit with this id, or the message of the lookup error.
#[verifier::external_body]
pub(crate) fn commit_info(repo: &git2::Repository, oid: &git2::Oid) -> (r: Result<CommitRaw, String>)
{
    let commit = match repo.find_commit(*oid) {
        Ok(c) => c,
        Err(e) => return Err(format!("{e}")),
    };
    let author = commit.author();
    Ok(CommitRaw {
        summary: match commit.summary() { Ok(s) => s.map(|x| x.to_string()), Err(_) => None },
        author_name: match author.name() { Ok(n) => Some(n.to_string()), Err(_) => None },
        author_email: match author.email() { Ok(m) => Some(m.to_string()), Err(_) => None },
        date: commit.time().seconds(),
        parents: commit.parent_ids().map(|id| id.to_string()).collect(),
    })
}

} // verus!
