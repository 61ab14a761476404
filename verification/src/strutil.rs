//! Verified helpers over `&str` and `String`: prefix/suffix tests, character
//! scanning, concatenation, and path-segment reasoning used across the crate.

use vstd::prelude::*;
use vstd::string::StrSliceExecFns;
use vstd::string::StringExecFns;

verus! {

/// The smallest index `i` with `k <= i < s.len()` and `s[i] == c`,
/// or `s.len()` when `c` does not occur at or after `k`.
pub open spec fn scan_to(s: Seq<char>, k: int, c: char) -> int
    decreases s.len() - k,
{
    if k < 0 || k >= s.len() {
        s.len() as int
    } else if s[k] == c {
        k
    } else {
        scan_to(s, k + 1, c)
    }
}

/// What `scan_to` returns: the first occurrence of `c` at or after `k`.
pub proof fn lemma_scan_to(s: Seq<char>, k: int, c: char)
    requires
        0 <= k <= s.len(),
    ensures
        k <= scan_to(s, k, c) <= s.len(),
        scan_to(s, k, c) < s.len() ==> s[scan_to(s, k, c)] == c,
        forall|j: int| k <= j < scan_to(s, k, c) ==> s[j] != c,
    decreases s.len() - k,
{
    if k < s.len() && s[k] != c {
        lemma_scan_to(s, k + 1, c);
    }
}

/// First occurrence of `c` in `s` at or after `start`, as `scan_to` describes.
pub fn find_char_from(s: &str, start: usize, c: char) -> (r: usize)
    requires
        start <= s@.len(),
    ensures
        r == scan_to(s@, start as int, c),
{
    let n = s.unicode_len();
    let mut i = start;
    while i < n
        invariant
            start <= i <= n,
            n == s@.len(),
            forall|j: int| start <= j < i ==> s@[j] != c,
        decreases n - i,
    {
        if s.get_char(i) == c {
            proof {
                lemma_scan_to(s@, start as int, c);
                let r = scan_to(s@, start as int, c);
                // both i and r are the first occurrence, so they coincide
                assert(!(r < i) && !(i < r));
            }
            return i;
        }
        i = i + 1;
    }
    proof {
        lemma_scan_to(s@, start as int, c);
        let r = scan_to(s@, start as int, c);
        assert(!(r < n));
    }
    n
}

/// The smallest index `i` with `k <= i < s.len()` and `s[i] != c`,
/// or `s.len()` when only `c` occurs at and after `k`.
pub open spec fn scan_past(s: Seq<char>, k: int, c: char) -> int
    decreases s.len() - k,
{
    if k < 0 || k >= s.len() {
        s.len() as int
    } else if s[k] != c {
        k
    } else {
        scan_past(s, k + 1, c)
    }
}

/// What `scan_past` returns: the first index at or after `k` not holding `c`.
pub proof fn lemma_scan_past(s: Seq<char>, k: int, c: char)
    requires
        0 <= k <= s.len(),
    ensures
        k <= scan_past(s, k, c) <= s.len(),
        scan_past(s, k, c) < s.len() ==> s[scan_past(s, k, c)] != c,
        forall|j: int| k <= j < scan_past(s, k, c) ==> s[j] == c,
    decreases s.len() - k,
{
    if k < s.len() && s[k] == c {
        lemma_scan_past(s, k + 1, c);
    }
}

/// First index in `s` at or after `start` whose character is not `c`,
/// as `scan_past` describes.
pub fn find_not_char_from(s: &str, start: usize, c: char) -> (r: usize)
    requires
        start <= s@.len(),
    ensures
        r == scan_past(s@, start as int, c),
{
    let n = s.unicode_len();
    let mut i = start;
    while i < n
        invariant
            start <= i <= n,
            n == s@.len(),
            forall|j: int| start <= j < i ==> s@[j] == c,
        decreases n - i,
    {
        if s.get_char(i) != c {
            proof {
                lemma_scan_past(s@, start as int, c);
                let r = scan_past(s@, start as int, c);
                assert(!(r < i) && !(i < r));
            }
            return i;
        }
        i = i + 1;
    }
    proof {
        lemma_scan_past(s@, start as int, c);
        let r = scan_past(s@, start as int, c);
        assert(!(r < n));
    }
    n
}

/// `p` is a prefix of `s`.
pub open spec fn has_prefix(s: Seq<char>, p: Seq<char>) -> bool {
    p.len() <= s.len() && s.take(p.len() as int) == p
}

/// Whether `p` is a prefix of `s`.
pub fn str_has_prefix(s: &str, p: &str) -> (r: bool)
    ensures
        r == has_prefix(s@, p@),
{
    let n = s.unicode_len();
    let m = p.unicode_len();
    if m > n {
        return false;
    }
    let mut i: usize = 0;
    while i < m
        invariant
            0 <= i <= m <= n,
            n == s@.len(),
            m == p@.len(),
            forall|j: int| 0 <= j < i ==> s@[j] == p@[j],
        decreases m - i,
    {
        if s.get_char(i) != p.get_char(i) {
            assert(s@.take(m as int)[i as int] != p@[i as int]);
            return false;
        }
        i = i + 1;
    }
    assert(s@.take(m as int) =~= p@);
    true
}

/// `p` is a suffix of `s`.
pub open spec fn has_suffix(s: Seq<char>, p: Seq<char>) -> bool {
    p.len() <= s.len() && s.skip(s.len() - p.len()) == p
}

/// Whether `p` is a suffix of `s`.
pub fn str_has_suffix(s: &str, p: &str) -> (r: bool)
    ensures
        r == has_suffix(s@, p@),
{
    let n = s.unicode_len();
    let m = p.unicode_len();
    if m > n {
        return false;
    }
    let off = n - m;
    let mut i: usize = 0;
    while i < m
        invariant
            0 <= i <= m <= n,
            n == s@.len(),
            m == p@.len(),
            off == n - m,
            forall|j: int| 0 <= j < i ==> s@[off + j] == p@[j],
        decreases m - i,
    {
        if s.get_char(off + i) != p.get_char(i) {
            assert(s@.skip(off as int)[i as int] != p@[i as int]);
            return false;
        }
        i = i + 1;
    }
    assert(s@.skip(off as int) =~= p@);
    true
}

/// Whether two string slices hold the same characters.
pub fn str_eq(a: &str, b: &str) -> (r: bool)
    ensures
        r == (a@ == b@),
{
    let n = a.unicode_len();
    if n != b.unicode_len() {
        return false;
    }
    let mut i: usize = 0;
    while i < n
        invariant
            0 <= i <= n,
            n == a@.len() == b@.len(),
            forall|j: int| 0 <= j < i ==> a@[j] == b@[j],
        decreases n - i,
    {
        if a.get_char(i) != b.get_char(i) {
            return false;
        }
        i = i + 1;
    }
    assert(a@ =~= b@);
    true
}

/// The concatenation of two string slices.
pub fn str_concat(a: &str, b: &str) -> (r: String)
    ensures
        r@ == a@ + b@,
{
    let mut s = a.to_owned();
    s.append(b);
    s
}

/// `s` with every trailing `'/'` removed.
pub open spec fn trim_trailing_slashes(s: Seq<char>) -> Seq<char>
    decreases s.len(),
{
    if s.len() > 0 && s.last() == '/' {
        trim_trailing_slashes(s.drop_last())
    } else {
        s
    }
}

/// The trimmed sequence is the prefix of `s` that ends before its trailing slashes.
pub proof fn lemma_trim_trailing_slashes(s: Seq<char>)
    ensures
        trim_trailing_slashes(s).len() <= s.len(),
        trim_trailing_slashes(s) == s.take(trim_trailing_slashes(s).len() as int),
        trim_trailing_slashes(s).len() > 0 ==> trim_trailing_slashes(s).last() != '/',
        forall|j: int| trim_trailing_slashes(s).len() <= j < s.len() ==> s[j] == '/',
    decreases s.len(),
{
    if s.len() > 0 && s.last() == '/' {
        lemma_trim_trailing_slashes(s.drop_last());
        assert(s.drop_last() =~= s.take(s.len() - 1));
        assert(s.drop_last().take(trim_trailing_slashes(s).len() as int)
            =~= s.take(trim_trailing_slashes(s).len() as int));
        assert forall|j: int| trim_trailing_slashes(s).len() <= j < s.len() implies s[j] == '/' by {
            if j < s.len() - 1 {
                assert(s.drop_last()[j] == '/');
            }
        }
    } else {
        assert(s =~= s.take(s.len() as int));
    }
}

/// The largest index `i < k` with `s[i] == c`, or `-1` when there is none.
pub open spec fn rscan(s: Seq<char>, k: int, c: char) -> int
    decreases k,
{
    if k <= 0 {
        -1
    } else if s[k - 1] == c {
        k - 1
    } else {
        rscan(s, k - 1, c)
    }
}

/// What `rscan` returns: the last occurrence of `c` before `k`.
pub proof fn lemma_rscan(s: Seq<char>, k: int, c: char)
    requires
        0 <= k <= s.len(),
    ensures
        -1 <= rscan(s, k, c) < k,
        rscan(s, k, c) >= 0 ==> s[rscan(s, k, c)] == c,
        forall|j: int| rscan(s, k, c) < j < k ==> s[j] != c,
    decreases k,
{
    if k > 0 && s[k - 1] != c {
        lemma_rscan(s, k - 1, c);
    }
}

/// The final path segment of `p` after trailing slashes are trimmed, or the
/// fixed fallback name when no segment remains.
pub open spec fn spec_repo_name(p: Seq<char>) -> Seq<char> {
    let t = trim_trailing_slashes(p);
    let seg = t.skip(rscan(t, t.len() as int, '/') + 1);
    if seg.len() == 0 {
        "unknown"@
    } else {
        seg
    }
}

/// The final path segment of `p`, as `spec_repo_name` describes.
pub fn repo_name_of_path(p: &str) -> (r: String)
    ensures
        r@ == spec_repo_name(p@),
{
    let n = p.unicode_len();
    // trim trailing slashes
    let mut end = n;
    assert(p@.take(n as int) =~= p@);
    while end > 0 && p.get_char(end - 1) == '/'
        invariant
            0 <= end <= n,
            n == p@.len(),
            trim_trailing_slashes(p@) == trim_trailing_slashes(p@.take(end as int)),
        decreases end,
    {
        assert(p@.take(end as int).drop_last() =~= p@.take(end - 1));
        end = end - 1;
    }
    proof {
        assert(p@.take(end as int) =~= trim_trailing_slashes(p@.take(end as int))) by {
            if end > 0 {
                assert(p@.take(end as int).last() == p@[end - 1]);
            }
        }
        lemma_trim_trailing_slashes(p@);
    }
    let ghost t = trim_trailing_slashes(p@);
    assert(t == p@.take(end as int));
    // find the last slash before `end`
    let mut start = end;
    while start > 0 && p.get_char(start - 1) != '/'
        invariant
            0 <= start <= end <= n,
            n == p@.len(),
            forall|j: int| start <= j < end ==> p@[j] != '/',
        decreases start,
    {
        start = start - 1;
    }
    proof {
        lemma_rscan(t, t.len() as int, '/');
        let r = rscan(t, t.len() as int, '/');
        assert(forall|j: int| 0 <= j < end ==> t[j] == p@[j]);
        // both `start - 1` and `r` are the last slash before `end`, so they coincide
        if start > 0 {
            assert(t[start - 1] == '/');
            assert(!(r < start - 1) && !(start - 1 < r));
        } else {
            assert(!(0 <= r));
        }
        assert(t.skip(r + 1) =~= p@.take(end as int).skip(start as int));
    }
    if start == end {
        "unknown".to_owned()
    } else {
        let seg = p.substring_char(start, end);
        assert(seg@ =~= p@.take(end as int).skip(start as int));
        seg.to_owned()
    }
}

} // verus!
