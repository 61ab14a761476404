//! Bounded commit-history traversal: an ordered log of at most `limit`
//! entries starting at HEAD, walked in topological order biased by commit
//! time so that the bound can stop the walk early.

use vstd::prelude::*;
use vstd::string::StrSliceExecFns;
use crate::error::DevBaseError;
use crate::gitio::{open_repo, head_summary, walk_oids, commit_info, CommitRaw};
use crate::strutil::str_concat;

verus! {

/// One entry of a commit log.
#[derive(Debug, Clone)]
pub struct CommitLogEntry {
    /// Full hex id of the commit.
    pub oid: String,
    /// Exactly the first seven characters of `oid`.
    pub short_oid: String,
    /// First paragraph of the commit message; empty when there is none.
    pub message: String,
    /// Author name, with a fixed fallback when it is not well-formed text.
    pub author_name: String,
    /// Author email; empty when it is not well-formed text.
    pub author_email: String,
    /// Commit time, in seconds since the epoch.
    pub date: i64,
    /// Hex ids of the commit's parents, in order.
    pub parents: Vec<String>,
    /// Branches and tags pointing here; deliberately always empty, since no
    /// efficient per-commit reverse index is specified.
    pub refs: Vec<String>,
}

/// Well-formedness of a produced entry: the short id is exactly the first
/// seven characters of the full id, and `refs` is empty.
pub open spec fn entry_wf(e: CommitLogEntry) -> bool {
    &&& e.oid@.len() >= 7
    &&& e.short_oid@ == e.oid@.take(7)
    &&& e.refs@.len() == 0
}

/// Assemble one log entry from a commit's hex id and its recorded fields.
///
/// Succeeds exactly when the id holds at least seven characters; a
/// pathologically short id is an internal error, never a panic. Missing
/// summary and email degrade to empty text, a missing author name to the
/// fixed fallback.
pub fn build_log_entry(oid_hex: String, raw: CommitRaw) -> (r: Result<CommitLogEntry, DevBaseError>)
    ensures
        (r is Ok) == (oid_hex@.len() >= 7),
        r is Ok ==> ({
            let e = r.unwrap();
            &&& e.oid@ == oid_hex@
            &&& e.short_oid@ == oid_hex@.take(7)
            &&& e.message@ == (match raw.summary {
                Option::Some(s) => s@,
                Option::None => ""@,
            })
            &&& e.author_name@ == (match raw.author_name {
                Option::Some(n) => n@,
                Option::None => "Unknown"@,
            })
            &&& e.author_email@ == (match raw.author_email {
                Option::Some(m) => m@,
                Option::None => ""@,
            })
            &&& e.date == raw.date
            &&& e.parents@ == raw.parents@
            &&& e.refs@.len() == 0
            &&& entry_wf(e)
        }),
        r is Err ==> r.unwrap_err() is Internal,
{
    let n = oid_hex.as_str().unicode_len();
    if n < 7 {
        return Err(DevBaseError::Internal {
            message: "commit id shorter than 7 characters".to_owned(),
        });
    }
    let short_oid = oid_hex.as_str().substring_char(0, 7).to_owned();
    let message = match raw.summary {
        Option::Some(s) => s,
        Option::None => "".to_owned(),
    };
    let author_name = match raw.author_name {
        Option::Some(name) => name,
        Option::None => "Unknown".to_owned(),
    };
    let author_email = match raw.author_email {
        Option::Some(mail) => mail,
        Option::None => "".to_owned(),
    };
    Ok(CommitLogEntry {
        oid: oid_hex,
        short_oid,
        message,
        author_name,
        author_email,
        date: raw.date,
        parents: raw.parents,
        refs: Vec::new(),
    })
}

/// Produce the commit log of the working tree at `path`: at most `limit`
/// entries starting at HEAD, each commit at most once, parents never after
/// their children, ties broken by descending commit time.
///
/// An unresolvable or unborn HEAD yields an empty log, not an error. A tree
/// that cannot be opened or walked fails with a scan error; an id shorter
/// than seven characters with an internal error.
pub fn get_repo_history(path: &str, limit: usize) -> (r: Result<Vec<CommitLogEntry>, DevBaseError>)
    ensures
        r is Ok ==> r.unwrap()@.len() <= limit,
        r is Ok ==> forall|i: int|
            0 <= i < r.unwrap()@.len() ==> entry_wf(#[trigger] r.unwrap()@[i]),
        r is Ok ==> forall|i: int, j: int|
            0 <= i < r.unwrap()@.len() && 0 <= j < r.unwrap()@.len() && i != j
            ==> (#[trigger] r.unwrap()@[i]).oid@ != (#[trigger] r.unwrap()@[j]).oid@,
        r is Err ==> (r.unwrap_err() is Scan || r.unwrap_err() is Internal),
{
    let repo = match open_repo(path) {
        Ok(repo) => repo,
        Err(msg) => {
            return Err(DevBaseError::Scan {
                message: str_concat("Failed to open repository: ", msg.as_str()),
            });
        },
    };
    let start = match head_summary(&repo) {
        Some((_is_branch, _shorthand, Some(target))) => target,
        _ => {
            // empty or headless working tree: an empty log, not an error
            return Ok(Vec::new());
        },
    };
    let oids = match walk_oids(&repo, &start, limit) {
        Ok(oids) => oids,
        Err(msg) => {
            return Err(DevBaseError::Scan { message: msg });
        },
    };
    let mut entries: Vec<CommitLogEntry> = Vec::new();
    let mut i: usize = 0;
    while i < oids.len()
        invariant
            0 <= i <= oids@.len() <= limit,
            entries@.len() == i,
            forall|m: int| 0 <= m < i ==> entry_wf(#[trigger] entries@[m]),
            forall|m: int| 0 <= m < i ==> (#[trigger] entries@[m]).oid@ == oids@[m].1@,
            forall|m: int, m2: int| 0 <= m < oids@.len() && 0 <= m2 < oids@.len() && m != m2
                ==> (#[trigger] oids@[m]).1@ != (#[trigger] oids@[m2]).1@,
        decreases oids@.len() - i,
    {
        let (oid, hex) = &oids[i];
        let raw = match commit_info(&repo, oid) {
            Ok(raw) => raw,
            Err(msg) => {
                return Err(DevBaseError::Scan { message: msg });
            },
        };
        match build_log_entry(hex.clone(), raw) {
            Ok(entry) => {
                entries.push(entry);
            },
            Err(err) => {
                return Err(err);
            },
        }
        i = i + 1;
    }
    Ok(entries)
}

} // verus!
