//! Trusted boundary to the `walkdir` crate: probing a path and walking a
//! directory tree. What a walk yields depends on the filesystem at call time,
//! so only the depth bound — enforced by the walker itself — is stated.

use vstd::prelude::*;

verus! {

/// One filesystem entry seen during a walk: its full path, whether it is a
/// directory (symbolic links are not followed), and its depth below the walk
/// root.
pub struct WalkEntry {
    pub path: String,
    pub is_dir: bool,
    pub depth: usize,
}

/// Relies on `walkdir::WalkDir` with a zero maximum depth: whether `path`
/// exists (following a symbolic link at the root) and, when it does, whether
/// it is a directory.
#[verifier::external_body]
pub(crate) fn probe_path(path: &str) -> (r: Option<bool>)
{
    let mut it = walkdir::WalkDir::new(path).follow_links(true).max_depth(0).into_iter();
    match it.next() {
        Some(Ok(entry)) => Some(entry.file_type().is_dir()),
        _ => None,
    }
}

/// Relies on `walkdir::WalkDir`: a walk below `base` that does not follow
/// symbolic links, does not descend into entries whose name `keep_component`
/// refuses, and skips unreadable entries. `WalkDir::max_depth` and
/// `DirEntry::depth` give the stated bound: with a cap of `d`, no yielded
/// entry lies deeper than `d` below `base`.
#[verifier::external_body]
pub(crate) fn walk_tree(base: &str, max_depth: Option<usize>) -> (r: Vec<WalkEntry>)
    ensures
        max_depth is Some ==> forall|i: int|
            0 <= i < r@.len() ==> (#[trigger] r@[i]).depth <= max_depth.unwrap(),
{
    let mut walker = walkdir::WalkDir::new(base).follow_links(false);
    if let Some(d) = max_depth {
        walker = walker.max_depth(d);
    }
    walker
        .into_iter()
        .filter_entry(|e| crate::scanner::keep_component(&e.file_name().to_string_lossy()))
        .filter_map(|e| e.ok())
        .map(|e| WalkEntry {
            path: e.path().to_string_lossy().into_owned(),
            is_dir: e.file_type().is_dir(),
            depth: e.depth(),
        })
        .collect()
}

} // verus!
