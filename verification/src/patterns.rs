//! What the library takes from the `regex` crate: whether a text has the
//! shape that a pattern describes.

use vstd::prelude::*;

verus! {

/// Whether `regex::Regex` finds a match of the pattern in the text; none
/// where the pattern is not one that `regex::Regex::new` accepts.
pub uninterp spec fn pattern_matches(pattern: Seq<char>, text: Seq<char>) -> Option<bool>;

/// Calls `regex::Regex::new` on the pattern and `regex::Regex::is_match` on
/// what it returns. The contract names the result.
#[verifier::external_body]
pub(crate) fn matches_pattern(pattern: &str, text: &str) -> (r: Option<bool>)
    ensures
        r == pattern_matches(pattern@, text@),
{
    match regex::Regex::new(pattern) {
        Ok(compiled) => Some(compiled.is_match(text)),
        Err(_) => None,
    }
}

} // verus!
