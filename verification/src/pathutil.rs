//! Expansion of a leading home-directory shorthand in configured scan paths.

use vstd::prelude::*;
use vstd::string::StrSliceExecFns;
use crate::strutil::{has_prefix, str_has_prefix, str_concat, str_eq};

verus! {

/// Relies on `dirs::home_dir`: the user's home directory, when the platform
/// reports one. The result depends on the environment, so nothing more is
/// stated of it.
#[verifier::external_body]
fn home_dir_string() -> (r: Option<String>)
{
    match dirs::home_dir() {
        Some(p) => Some(p.to_string_lossy().into_owned()),
        None => None,
    }
}

/// `path` with a leading tilde replaced by `home`: a bare `~` becomes `home`,
/// a `~/`-prefixed path becomes `home` followed by the remainder (which keeps
/// its leading slash), and any other path is unchanged.
pub open spec fn spec_expand(path: Seq<char>, home: Option<Seq<char>>) -> Seq<char> {
    match home {
        Some(h) => if path == "~"@ {
            h
        } else if has_prefix(path, "~/"@) {
            h + path.skip(1)
        } else {
            path
        },
        None => path,
    }
}

/// Expand a leading tilde in `path` against the given home directory,
/// exactly as `spec_expand` describes.
pub fn expand_with_home(path: &str, home: &Option<String>) -> (r: String)
    ensures
        r@ == spec_expand(path@, home.deep_view()),
{
    match home {
        Some(h) => {
            if str_eq(path, "~") {
                h.clone()
            } else if str_has_prefix(path, "~/") {
                proof {
                    reveal_strlit("~/");
                }
                let rest = path.substring_char(1, path.unicode_len());
                assert(rest@ =~= path@.skip(1));
                str_concat(h.as_str(), rest)
            } else {
                path.to_owned()
            }
        },
        None => path.to_owned(),
    }
}

/// Expand a leading home-directory shorthand against the resolved home
/// directory; a path that does not begin with `~` comes back unchanged.
pub fn expand_path(path: &str) -> (r: String)
    ensures
        !(path@.len() > 0 && path@[0] == '~') ==> r@ == path@,
{
    let home = home_dir_string();
    let r = expand_with_home(path, &home);
    proof {
        reveal_strlit("~");
        reveal_strlit("~/");
        if !(path@.len() > 0 && path@[0] == '~') {
            if path@ == "~"@ {
                assert(path@[0] == '~');
            }
            if has_prefix(path@, "~/"@) {
                assert(path@.take(2)[0] == path@[0]);
            }
        }
    }
    r
}

} // verus!
