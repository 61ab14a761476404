//! Remote-URL helpers: extracting the host and the owner/organization segment
//! from an SSH-form (`user@host:owner/repo`) or HTTP-form remote URL.
//!
//! The SSH form is parsed by verified character scanning; the HTTP form goes
//! through the `url` crate behind a trusted wrapper.

use vstd::prelude::*;
use vstd::string::StrSliceExecFns;
use crate::strutil::{
    scan_to, lemma_scan_to, find_char_from, scan_past, lemma_scan_past, find_not_char_from,
    has_prefix, str_has_prefix,
};

verus! {

/// The host (when the URL has one) and the path of a string that parses as a
/// URL; `None` when it does not parse.
pub uninterp spec fn url_parts_of(s: Seq<char>) -> Option<(Option<Seq<char>>, Seq<char>)>;

/// Relies on `url::Url::parse`, `Url::host_str` and `Url::path`: whether the
/// string parses, its host and its path are functions of the string alone.
#[verifier::external_body]
fn parse_url_parts(s: &str) -> (r: Option<(Option<String>, String)>)
    ensures
        (r is Some) == (url_parts_of(s@) is Some),
        r is Some ==> (r.unwrap().0 is Some) == (url_parts_of(s@).unwrap().0 is Some),
        r is Some && r.unwrap().0 is Some
            ==> r.unwrap().0.unwrap()@ == url_parts_of(s@).unwrap().0.unwrap(),
        r is Some ==> r.unwrap().1@ == url_parts_of(s@).unwrap().1,
{
    match url::Url::parse(s) {
        Ok(u) => Some((u.host_str().map(|h| h.to_string()), u.path().to_string())),
        Err(_) => None,
    }
}

/// The owner segment of an SSH-form URL: the text between the first `:` and
/// the next `:` or end, truncated at its first `/`.
pub open spec fn spec_ssh_org(s: Seq<char>) -> Seq<char> {
    let c1 = scan_to(s, 0, ':');
    let c2 = scan_to(s, c1 + 1, ':');
    let sl = scan_to(s, c1 + 1, '/');
    let end = if sl < c2 { sl } else { c2 };
    s.subrange(c1 + 1, end)
}

/// The first non-empty `/`-separated segment of a URL path, if any.
pub open spec fn spec_first_segment(p: Seq<char>) -> Option<Seq<char>> {
    let i = scan_past(p, 0, '/');
    if i == p.len() {
        None
    } else {
        Some(p.subrange(i, scan_to(p, i, '/')))
    }
}

/// The owner/organization of a remote URL: the SSH form is split on `:` then
/// `/`; the HTTP form is parsed as a URL and yields the first non-empty path
/// segment; anything else yields `None`.
pub open spec fn spec_org_of(s: Seq<char>) -> Option<Seq<char>> {
    if has_prefix(s, "git@"@) && scan_to(s, 0, ':') < s.len() {
        Some(spec_ssh_org(s))
    } else if has_prefix(s, "http"@) {
        match url_parts_of(s) {
            Some(parts) => spec_first_segment(parts.1),
            None => None,
        }
    } else {
        None
    }
}

/// The host of an SSH-form URL: the text between the first `@` and the next
/// `@` or end, truncated at its first `:`.
pub open spec fn spec_ssh_host(s: Seq<char>) -> Seq<char> {
    let a1 = scan_to(s, 0, '@');
    let a2 = scan_to(s, a1 + 1, '@');
    let c = scan_to(s, a1 + 1, ':');
    let end = if c < a2 { c } else { a2 };
    s.subrange(a1 + 1, end)
}

/// The host of a remote URL: taken after the `@` for the SSH form, and from
/// the URL parser for the HTTP form; anything else yields `None`.
pub open spec fn spec_host_of(s: Seq<char>) -> Option<Seq<char>> {
    if has_prefix(s, "git@"@) {
        Some(spec_ssh_host(s))
    } else if has_prefix(s, "http"@) {
        match url_parts_of(s) {
            Some(parts) => parts.0,
            None => None,
        }
    } else {
        None
    }
}

/// A `"git@"` prefix and an `"http"` prefix exclude each other.
proof fn lemma_prefixes_disjoint(s: Seq<char>)
    requires
        has_prefix(s, "git@"@),
    ensures
        !has_prefix(s, "http"@),
{
    reveal_strlit("git@");
    reveal_strlit("http");
    assert(s[0] == "git@"@[0]) by {
        assert(s.take("git@"@.len() as int)[0] == s[0]);
    }
    if has_prefix(s, "http"@) {
        assert(s.take("http"@.len() as int)[0] == s[0]);
    }
}

/// First non-empty `/`-separated segment of `p`, as `spec_first_segment`
/// describes.
fn first_segment(p: &str) -> (r: Option<String>)
    ensures
        r.deep_view() == spec_first_segment(p@),
{
    let n = p.unicode_len();
    let i = find_not_char_from(p, 0, '/');
    if i == n {
        None
    } else {
        proof {
            lemma_scan_past(p@, 0, '/');
            lemma_scan_to(p@, i as int, '/');
        }
        let j = find_char_from(p, i, '/');
        Some(p.substring_char(i, j).to_owned())
    }
}

/// Extract the owner/organization from a remote URL, or `None` for any
/// unrecognized form.
pub fn extract_org_from_url(url: &str) -> (r: Option<String>)
    ensures
        r.deep_view() == spec_org_of(url@),
{
    let n = url.unicode_len();
    if str_has_prefix(url, "git@") {
        proof {
            lemma_prefixes_disjoint(url@);
            lemma_scan_to(url@, 0, ':');
        }
        let c1 = find_char_from(url, 0, ':');
        if c1 < n {
            proof {
                lemma_scan_to(url@, c1 + 1, ':');
                lemma_scan_to(url@, c1 + 1, '/');
            }
            let c2 = find_char_from(url, c1 + 1, ':');
            let sl = find_char_from(url, c1 + 1, '/');
            let end = if sl < c2 { sl } else { c2 };
            return Some(url.substring_char(c1 + 1, end).to_owned());
        }
        return None;
    }
    if str_has_prefix(url, "http") {
        match parse_url_parts(url) {
            Some((_host, path)) => first_segment(path.as_str()),
            None => None,
        }
    } else {
        None
    }
}

/// Extract the host from a remote URL, or `None` for any unrecognized form.
pub fn extract_host_from_url(url: &str) -> (r: Option<String>)
    ensures
        r.deep_view() == spec_host_of(url@),
{
    let n = url.unicode_len();
    if str_has_prefix(url, "git@") {
        proof {
            lemma_prefixes_disjoint(url@);
            lemma_scan_to(url@, 0, '@');
            reveal_strlit("git@");
            assert(url@[3] == "git@"@[3]) by {
                assert(url@.take("git@"@.len() as int)[3] == url@[3]);
            }
            assert(scan_to(url@, 0, '@') <= 3);
        }
        let a1 = find_char_from(url, 0, '@');
        proof {
            lemma_scan_to(url@, a1 + 1, '@');
            lemma_scan_to(url@, a1 + 1, ':');
        }
        let a2 = find_char_from(url, a1 + 1, '@');
        let c = find_char_from(url, a1 + 1, ':');
        let end = if c < a2 { c } else { a2 };
        return Some(url.substring_char(a1 + 1, end).to_owned());
    }
    if str_has_prefix(url, "http") {
        match parse_url_parts(url) {
            Some((host, _path)) => host,
            None => None,
        }
    } else {
        None
    }
}

} // verus!
