//! The user's home directory and paths shown relative to it.
use vstd::prelude::*;

use crate::text::occurs_at;
use crate::text::starts_with;

verus! {

/// Relies on `dirs::home_dir`: the current user's home directory if one is
/// known, rendered as `Path::display` renders it. It depends on the
/// environment, so nothing is promised of it.
#[verifier::external_body]
pub(crate) fn home_dir() -> (r: Option<String>) {
    dirs::home_dir().map(|h| h.display().to_string())
}

/// `path` with a leading `home` replaced by `~`.
pub open spec fn shortened(path: Seq<char>, home: Seq<char>) -> Seq<char> {
    if occurs_at(path, 0, home, false) {
        seq!['~'] + path.skip(home.len() as int)
    } else {
        path
    }
}

/// Shows `path` relative to `home` when it lies under it.
pub fn shorten_path_with(path: &str, home: &str) -> (r: String)
    ensures
        r@ == shortened(path@, home@),
{
    if starts_with(path, home, false) {
        let mut out = String::from_str("~");
        proof {
            reveal_strlit("~");
        }
        let n = path.unicode_len();
        let m = home.unicode_len();
        out.append(path.substring_char(m, n));
        proof {
            assert(path@.subrange(m as int, n as int) =~= path@.skip(m as int));
        }
        out
    } else {
        String::from_str(path)
    }
}

/// Shows `path` relative to the user's home directory when it lies under it.
pub fn shorten_path(path: &str) -> (r: String)
    ensures
        r@ == path@ || exists|home: Seq<char>| r@ == #[trigger] shortened(path@, home),
{
    match home_dir() {
        Some(home) => shorten_path_with(path, home.as_str()),
        None => String::from_str(path),
    }
}

} // verus!
