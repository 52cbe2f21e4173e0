//! Telling a URI from a local path.

use vstd::prelude::*;
use vstd::string::*;

verus! {

/// Whether the three characters `://` stand in `s` at index `i`.
pub open spec fn mark_at(s: Seq<char>, i: int) -> bool {
    0 <= i && i + 3 <= s.len() && s[i] == ':' && s[i + 1] == '/' && s[i + 2] == '/'
}

/// Whether `s` holds `://` anywhere.
pub open spec fn has_scheme_mark(s: Seq<char>) -> bool {
    exists|i: int| mark_at(s, i)
}

/// How an input string becomes the URI to play.
#[derive(Clone, Debug, PartialEq, Eq)]
pub enum Resolution {
    /// The input is a URI already: this is it, unchanged.
    Uri(String),
    /// The input is a local path: it has to be made absolute and turned into
    /// a `file://` URI.
    LocalPath,
}

/// Whether the input already looks like a URI, that is, holds `://`.
pub fn looks_like_uri(input: &str) -> (r: bool)
    ensures
        r == has_scheme_mark(input@),
{
    let n: usize = input.unicode_len();
    if n < 3 {
        return false;
    }
    let mut i: usize = 0;
    while i <= n - 3
        invariant
            n == input@.len(),
            n >= 3,
            forall|j: int| 0 <= j < i ==> !mark_at(input@, j),
        decreases n - i,
    {
        if input.get_char(i) == ':' && input.get_char(i + 1) == '/' && input.get_char(i + 2) == '/' {
            assert(mark_at(input@, i as int));
            return true;
        }
        i = i + 1;
    }
    false
}

/// The first step of resolving an input: a string that holds `://` is taken
/// as a URI and passed through unchanged, anything else is a local path.
pub fn to_uri(path_or_uri: &str) -> (r: Resolution)
    ensures
        has_scheme_mark(path_or_uri@) ==> (r matches Resolution::Uri(u) && u@ == path_or_uri@),
        !has_scheme_mark(path_or_uri@) ==> r is LocalPath,
{
    if looks_like_uri(path_or_uri) {
        Resolution::Uri(String::from_str(path_or_uri))
    } else {
        Resolution::LocalPath
    }
}

/// The line that announces playback of `uri`.
pub fn playing_notice(uri: &str) -> (r: String)
    ensures
        r@ == "Playing: "@ + uri@,
{
    String::from_str("Playing: ").concat(uri)
}

/// The error text for a local path that cannot be made absolute.
pub fn cannot_resolve_message(input: &str) -> (r: String)
    ensures
        r@ == "Cannot resolve path: "@ + input@,
{
    String::from_str("Cannot resolve path: ").concat(input)
}

} // verus!
