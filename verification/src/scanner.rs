//! Discovery of git working trees under a root directory: traversal with
//! skip rules, detection of metadata directories, deduplication, and
//! suppression of nested (submodule) trees — followed by per-tree metadata
//! extraction.

use vstd::prelude::*;
use vstd::string::StrSliceExecFns;
use crate::error::DevBaseError;
use crate::gitio::{open_repo, head_summary, remote_url_of, local_branch_exists};
use crate::strutil::{
    has_suffix, str_has_prefix, str_has_suffix, str_eq, str_concat,
    spec_repo_name, repo_name_of_path,
};
use crate::walkio::{probe_path, walk_tree, WalkEntry};

verus! {

/// Information about a discovered repository.
#[derive(Debug, Clone)]
pub struct DiscoveredRepo {
    /// Absolute path of the working-tree root.
    pub path: String,
    /// Repository name: the final path segment.
    pub name: String,
    /// URL of the remote named "origin", when one is configured.
    pub remote_url: Option<String>,
    /// Default branch name, when one can be determined.
    pub default_branch: Option<String>,
    /// Branch HEAD currently resolves to, when it resolves.
    pub current_branch: Option<String>,
}

/// Well-known build/cache/dependency directory names that the walk does not
/// descend into, for performance. The metadata directory itself is *not*
/// skipped: it is what identifies a working tree.
pub open spec fn is_skip_name(name: Seq<char>) -> bool {
    ||| name == "node_modules"@
    ||| name == "target"@
    ||| name == "vendor"@
    ||| name == ".cargo"@
    ||| name == "__pycache__"@
    ||| name == ".venv"@
    ||| name == "venv"@
    ||| name == ".tox"@
    ||| name == "dist"@
    ||| name == "build"@
}

/// Whether the walk may descend into a directory entry with this name.
pub fn keep_component(name: &str) -> (r: bool)
    ensures
        r == !is_skip_name(name@),
{
    !(str_eq(name, "node_modules") || str_eq(name, "target") || str_eq(name, "vendor")
        || str_eq(name, ".cargo") || str_eq(name, "__pycache__") || str_eq(name, ".venv")
        || str_eq(name, "venv") || str_eq(name, ".tox") || str_eq(name, "dist")
        || str_eq(name, "build"))
}

/// `a` names a strict path-ancestor of `b`: `b` extends `a` with a separator
/// and at least one further character.
pub open spec fn is_strict_ancestor(a: Seq<char>, b: Seq<char>) -> bool {
    a.len() < b.len() && b.take(a.len() as int) == a && b[a.len() as int] == '/'
}

/// Whether `a` names a strict path-ancestor of `b`.
pub fn strict_ancestor_of(a: &str, b: &str) -> (r: bool)
    ensures
        r == is_strict_ancestor(a@, b@),
{
    let n = a.unicode_len();
    let m = b.unicode_len();
    if n < m {
        str_has_prefix(b, a) && b.get_char(n) == '/'
    } else {
        false
    }
}

/// Two paths name independent trees: they are distinct and neither is a
/// strict path-ancestor of the other.
pub open spec fn unrelated(a: Seq<char>, b: Seq<char>) -> bool {
    a != b && !is_strict_ancestor(a, b) && !is_strict_ancestor(b, a)
}

/// A walk entry that identifies a working tree: a directory whose final path
/// segment is the metadata directory.
pub open spec fn is_git_entry(e: WalkEntry) -> bool {
    e.is_dir && has_suffix(e.path@, "/.git"@)
}

/// The working-tree root of a metadata-directory path: the path with the
/// final metadata segment removed.
pub open spec fn git_root_of(p: Seq<char>) -> Seq<char> {
    p.take(p.len() - "/.git"@.len())
}

/// `r` is the working-tree root of some metadata entry of the walk.
pub open spec fn from_git_entry(entries: Seq<WalkEntry>, r: Seq<char>) -> bool {
    exists|k: int| 0 <= k < entries.len() && is_git_entry(#[trigger] entries[k])
        && r == git_root_of(entries[k].path@)
}

/// Some kept root equals `r` or stands in an ancestor relation with it.
pub open spec fn related_root_kept(roots: Seq<String>, r: Seq<char>) -> bool {
    exists|i: int| 0 <= i < roots.len() && !unrelated((#[trigger] roots[i])@, r)
}

/// What deduplication and suppression guarantee of the kept roots:
/// every kept root comes from a metadata entry of the walk; kept roots are
/// pairwise distinct and never nested in one another; and every metadata
/// entry of the walk is represented — its root is kept, or stands in an
/// ancestor relation with a kept root.
pub open spec fn scan_roots_ok(entries: Seq<WalkEntry>, roots: Seq<String>) -> bool {
    &&& forall|i: int| 0 <= i < roots.len() ==> from_git_entry(entries, (#[trigger] roots[i])@)
    &&& forall|i: int, j: int| 0 <= i < roots.len() && 0 <= j < roots.len() && i != j
        ==> unrelated((#[trigger] roots[i])@, (#[trigger] roots[j])@)
    &&& forall|k: int| 0 <= k < entries.len() && is_git_entry(#[trigger] entries[k])
        ==> related_root_kept(roots, git_root_of(entries[k].path@))
}

/// The working-tree roots among the walk entries, deduplicated, with nested
/// roots suppressed: of two nested or equal roots, the one seen first is
/// kept and treated as the outer repository, whatever the discovery order.
pub fn collect_repo_roots(entries: &Vec<WalkEntry>) -> (roots: Vec<String>)
    ensures
        scan_roots_ok(entries@, roots@),
{
    let mut roots: Vec<String> = Vec::new();
    let mut k: usize = 0;
    while k < entries.len()
        invariant
            0 <= k <= entries@.len(),
            forall|i: int| 0 <= i < roots@.len()
                ==> from_git_entry(entries@, (#[trigger] roots@[i])@),
            forall|i: int, j: int| 0 <= i < roots@.len() && 0 <= j < roots@.len() && i != j
                ==> unrelated((#[trigger] roots@[i])@, (#[trigger] roots@[j])@),
            forall|k2: int| 0 <= k2 < k && is_git_entry(#[trigger] entries@[k2])
                ==> related_root_kept(roots@, git_root_of(entries@[k2].path@)),
        decreases entries@.len() - k,
    {
        let e = &entries[k];
        if e.is_dir && str_has_suffix(e.path.as_str(), "/.git") {
            proof {
                reveal_strlit("/.git");
            }
            let plen = e.path.as_str().unicode_len();
            let root = e.path.as_str().substring_char(0, plen - 5).to_owned();
            assert(root@ == git_root_of(e.path@));
            assert(is_git_entry(entries@[k as int]));
            let ghost old_roots = roots@;
            let mut related = false;
            let mut i: usize = 0;
            while i < roots.len()
                invariant
                    0 <= i <= roots@.len(),
                    roots@ == old_roots,
                    related == exists|i2: int| 0 <= i2 < i
                        && !unrelated((#[trigger] roots@[i2])@, root@),
                decreases roots@.len() - i,
            {
                let kept = &roots[i];
                let same = str_eq(kept.as_str(), root.as_str());
                let anc1 = strict_ancestor_of(kept.as_str(), root.as_str());
                let anc2 = strict_ancestor_of(root.as_str(), kept.as_str());
                if same || anc1 || anc2 {
                    related = true;
                }
                i = i + 1;
            }
            if related {
                assert(related_root_kept(roots@, root@));
            } else {
                let ghost pre = roots@;
                roots.push(root);
                proof {
                    assert forall|i2: int| 0 <= i2 < pre.len()
                        implies unrelated((#[trigger] pre[i2])@, git_root_of(entries@[k as int].path@)) by {
                        assert(!(!unrelated((pre[i2])@, git_root_of(entries@[k as int].path@))));
                    }
                    assert(!unrelated((roots@[pre.len() as int])@, git_root_of(entries@[k as int].path@)));
                    assert forall|k2: int| 0 <= k2 < k + 1 && is_git_entry(#[trigger] entries@[k2])
                        implies related_root_kept(roots@, git_root_of(entries@[k2].path@)) by {
                        if k2 < k {
                            let i2 = choose|i2: int| 0 <= i2 < pre.len()
                                && !unrelated((#[trigger] pre[i2])@, git_root_of(entries@[k2].path@));
                            assert(!unrelated((roots@[i2])@, git_root_of(entries@[k2].path@)));
                        } else {
                            assert(!unrelated((roots@[pre.len() as int])@, git_root_of(entries@[k2].path@)));
                        }
                    }
                }
            }
        }
        k = k + 1;
    }
    roots
}

/// The set of working-tree roots named by the walk's metadata entries.
pub open spec fn git_roots_set(entries: Seq<WalkEntry>) -> Set<Seq<char>> {
    Set::new(|r: Seq<char>| from_git_entry(entries, r))
}

/// Law: when the walk's working-tree roots are independent — no two distinct
/// roots nested in one another — suppression discards nothing: the kept
/// roots are exactly the distinct roots, one each. A directory holding
/// exactly `k` independent working trees therefore yields exactly `k`
/// entries, whatever the traversal order.
pub proof fn lemma_independent_roots_all_kept(entries: Seq<WalkEntry>, roots: Seq<String>)
    requires
        scan_roots_ok(entries, roots),
        forall|k1: int, k2: int|
            0 <= k1 < entries.len() && 0 <= k2 < entries.len()
                && is_git_entry(#[trigger] entries[k1]) && is_git_entry(#[trigger] entries[k2])
                && git_root_of(entries[k1].path@) != git_root_of(entries[k2].path@)
            ==> unrelated(git_root_of(entries[k1].path@), git_root_of(entries[k2].path@)),
    ensures
        roots.map_values(|r: String| r@).no_duplicates(),
        roots.map_values(|r: String| r@).to_set() == git_roots_set(entries),
        roots.len() == git_roots_set(entries).len(),
{
    let mapped = roots.map_values(|r: String| r@);
    assert(mapped.no_duplicates()) by {
        assert forall|i: int, j: int| 0 <= i < mapped.len() && 0 <= j < mapped.len() && i != j
            implies mapped[i] != mapped[j] by {
            assert(unrelated((roots[i])@, (roots[j])@));
        }
    }
    assert forall|r: Seq<char>| #[trigger] git_roots_set(entries).contains(r)
        implies mapped.to_set().contains(r) by {
        let k = choose|k: int| 0 <= k < entries.len() && is_git_entry(#[trigger] entries[k])
            && r == git_root_of(entries[k].path@);
        assert(related_root_kept(roots, git_root_of(entries[k].path@)));
        let i = choose|i: int| 0 <= i < roots.len()
            && !unrelated((#[trigger] roots[i])@, git_root_of(entries[k].path@));
        assert(from_git_entry(entries, (roots[i])@));
        let k2 = choose|k2: int| 0 <= k2 < entries.len() && is_git_entry(#[trigger] entries[k2])
            && (roots[i])@ == git_root_of(entries[k2].path@);
        // were the kept root a different root, independence would make the
        // two unrelated, against the suppression witness
        assert((roots[i])@ == r);
        assert(mapped[i] == r);
        assert(mapped.contains(r));
    }
    assert forall|r: Seq<char>| #[trigger] mapped.to_set().contains(r)
        implies git_roots_set(entries).contains(r) by {
        let i = choose|i: int| 0 <= i < mapped.len() && mapped[i] == r;
        assert(from_git_entry(entries, (roots[i])@));
    }
    assert(mapped.to_set() =~= git_roots_set(entries));
    mapped.unique_seq_to_set();
}

/// The depth cap handed to the walk: zero means unlimited depth, any other
/// value prunes the walk below it.
pub fn depth_cap_of(max_depth: u32) -> (r: Option<usize>)
    ensures
        (max_depth == 0) == (r is None),
        max_depth > 0 ==> r == Some(max_depth as usize),
{
    if max_depth > 0 {
        Some(max_depth as usize)
    } else {
        None
    }
}

/// `r` is the working-tree root of some metadata entry of the walk that lies
/// no deeper than `d` below the walk root.
pub open spec fn root_within_depth(entries: Seq<WalkEntry>, r: Seq<char>, d: usize) -> bool {
    exists|k: int| 0 <= k < entries.len() && is_git_entry(#[trigger] entries[k])
        && r == git_root_of(entries[k].path@) && entries[k].depth <= d
}

/// Law: when every walk entry lies within depth `d` — what the walker's
/// `max_depth` enforces — every kept root comes from a metadata entry within
/// depth `d`, so no tree whose metadata directory lies deeper than `d` below
/// the scan root is ever returned.
pub proof fn lemma_depth_capped_roots(entries: Seq<WalkEntry>, roots: Seq<String>, d: usize)
    requires
        scan_roots_ok(entries, roots),
        forall|k: int| 0 <= k < entries.len() ==> (#[trigger] entries[k]).depth <= d,
    ensures
        forall|i: int| 0 <= i < roots.len()
            ==> root_within_depth(entries, (#[trigger] roots[i])@, d),
{
    assert forall|i: int| 0 <= i < roots.len()
        implies root_within_depth(entries, (#[trigger] roots[i])@, d) by {
        assert(from_git_entry(entries, (roots[i])@));
        let k = choose|k: int| 0 <= k < entries.len() && is_git_entry(#[trigger] entries[k])
            && (roots[i])@ == git_root_of(entries[k].path@);
        assert(entries[k].depth <= d);
        assert(0 <= k < entries.len() && is_git_entry(entries[k])
            && (roots[i])@ == git_root_of(entries[k].path@) && entries[k].depth <= d);
    }
}

/// Find all git working trees within a directory.
///
/// `max_depth` of zero means unlimited depth; otherwise the walk is pruned
/// below that depth. Fails only on a structurally invalid root: one that
/// does not exist, or one that is not a directory. Unreadable candidates are
/// skipped, never fatal. No two returned trees are nested in or equal to one
/// another.
pub fn find_git_repos(base_path: &str, max_depth: u32) -> (r: Result<Vec<DiscoveredRepo>, DevBaseError>)
    ensures
        r is Ok ==> forall|m: int, m2: int|
            0 <= m < r.unwrap()@.len() && 0 <= m2 < r.unwrap()@.len() && m != m2
            ==> unrelated((#[trigger] r.unwrap()@[m]).path@, (#[trigger] r.unwrap()@[m2]).path@),
        r is Err ==> (r.unwrap_err() is NotFound || r.unwrap_err() is NotADirectory),
{
    match probe_path(base_path) {
        None => {
            return Err(DevBaseError::NotFound { message: base_path.to_owned() });
        },
        Some(false) => {
            return Err(DevBaseError::NotADirectory { message: base_path.to_owned() });
        },
        Some(true) => {},
    }
    let entries = walk_tree(base_path, depth_cap_of(max_depth));
    let roots = collect_repo_roots(&entries);
    let mut repos: Vec<DiscoveredRepo> = Vec::new();
    let mut i: usize = 0;
    while i < roots.len()
        invariant
            0 <= i <= roots@.len(),
            scan_roots_ok(entries@, roots@),
            forall|m: int| 0 <= m < repos@.len() ==> exists|k2: int|
                0 <= k2 < i && (#[trigger] repos@[m]).path@ == (roots@[k2])@,
            forall|m: int, m2: int| 0 <= m < repos@.len() && 0 <= m2 < repos@.len() && m != m2
                ==> unrelated((#[trigger] repos@[m]).path@, (#[trigger] repos@[m2]).path@),
        decreases roots@.len() - i,
    {
        match extract_repo_info(roots[i].as_str()) {
            Ok(info) => {
                let ghost pre = repos@;
                repos.push(info);
                proof {
                    assert forall|m: int| 0 <= m < pre.len()
                        implies unrelated((#[trigger] repos@[m]).path@, (roots@[i as int])@) by {
                        let k2 = choose|k2: int| 0 <= k2 < i
                            && (#[trigger] pre[m]).path@ == (roots@[k2])@;
                        assert(unrelated((roots@[k2])@, (roots@[i as int])@));
                    }
                }
            },
            Err(_) => {
                // per-candidate errors are non-fatal: skip and keep scanning
            },
        }
        i = i + 1;
    }
    Ok(repos)
}

/// The path of the metadata directory that would make `p` a working tree.
pub open spec fn spec_metadata_path(p: Seq<char>) -> Seq<char> {
    if has_suffix(p, "/"@) {
        p + ".git"@
    } else {
        p + "/.git"@
    }
}

/// The metadata-directory path of `path`, as `spec_metadata_path` describes.
pub fn git_metadata_path(path: &str) -> (r: String)
    ensures
        r@ == spec_metadata_path(path@),
{
    if str_has_suffix(path, "/") {
        str_concat(path, ".git")
    } else {
        str_concat(path, "/.git")
    }
}

/// Check whether a single directory is a git working tree, without
/// traversal: whether its metadata path names a directory on disk.
pub fn is_git_repo(path: &str) -> (r: bool)
{
    let probe = git_metadata_path(path);
    match probe_path(probe.as_str()) {
        Some(is_dir) => is_dir,
        None => false,
    }
}

/// Scan a directory for git working trees; see `find_git_repos`.
pub fn scan_directory(base_path: &str, max_depth: u32) -> (r: Result<Vec<DiscoveredRepo>, DevBaseError>)
    ensures
        r is Ok ==> forall|m: int, m2: int|
            0 <= m < r.unwrap()@.len() && 0 <= m2 < r.unwrap()@.len() && m != m2
            ==> unrelated((#[trigger] r.unwrap()@[m]).path@, (#[trigger] r.unwrap()@[m2]).path@),
        r is Err ==> (r.unwrap_err() is NotFound || r.unwrap_err() is NotADirectory),
{
    find_git_repos(base_path, max_depth)
}

/// Extract identity metadata from a working-tree root: its name from the
/// final path segment, the "origin" remote URL, and the default and current
/// branches. Fails with a scan error exactly when the tree cannot be opened.
pub fn extract_repo_info(path: &str) -> (r: Result<DiscoveredRepo, DevBaseError>)
    ensures
        r is Ok ==> (r.unwrap().path@ == path@ && r.unwrap().name@ == spec_repo_name(path@)),
        r is Err ==> r.unwrap_err() is Scan,
{
    let repo = match open_repo(path) {
        Ok(repo) => repo,
        Err(msg) => {
            return Err(DevBaseError::Scan {
                message: str_concat("Failed to open repository: ", msg.as_str()),
            });
        },
    };
    let name = repo_name_of_path(path);
    let remote_url = remote_url_of(&repo, "origin");
    let default_branch = default_branch_of(&repo);
    let current_branch = current_branch_of(&repo);
    Ok(DiscoveredRepo { path: path.to_owned(), name, remote_url, default_branch, current_branch })
}

/// The default-branch rule: when HEAD points at a branch, its shorthand is
/// the answer, present or not; otherwise the first conventional name that
/// exists locally — "main" before "master" — and failing both, none.
pub fn choose_default_branch(
    head_is_branch: bool,
    head_shorthand: Option<String>,
    has_main: bool,
    has_master: bool,
) -> (r: Option<String>)
    ensures
        head_is_branch ==> r == head_shorthand,
        !head_is_branch && has_main ==> (r matches Some(b) && b@ == "main"@),
        !head_is_branch && !has_main && has_master ==> (r matches Some(b) && b@ == "master"@),
        !head_is_branch && !has_main && !has_master ==> r is None,
{
    if head_is_branch {
        head_shorthand
    } else if has_main {
        Some("main".to_owned())
    } else if has_master {
        Some("master".to_owned())
    } else {
        None
    }
}

/// The default branch: the branch HEAD points at when HEAD is a branch
/// reference, else the first of the conventional names that exists locally.
fn default_branch_of(repo: &git2::Repository) -> Option<String>
{
    let (head_is_branch, head_shorthand) = match head_summary(repo) {
        Some((is_branch, shorthand, _target)) => (is_branch, shorthand),
        None => (false, None),
    };
    let has_main = local_branch_exists(repo, "main");
    let has_master = local_branch_exists(repo, "master");
    choose_default_branch(head_is_branch, head_shorthand, has_main, has_master)
}

/// The shorthand name HEAD currently resolves to, when it resolves.
fn current_branch_of(repo: &git2::Repository) -> Option<String>
{
    match head_summary(repo) {
        Some((_is_branch, shorthand, _target)) => shorthand,
        None => None,
    }
}

} // verus!
