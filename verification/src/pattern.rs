//! Regular expressions, which the `regex` crate compiles and matches.

use vstd::prelude::*;

verus! {

/// Whether the regular expression `pattern` matches somewhere in `haystack`,
/// as the `regex` crate decides it; `None` where that crate does not accept
/// the pattern.
pub uninterp spec fn regex_match(pattern: Seq<char>, haystack: Seq<char>) -> Option<bool>;

/// Compiles `pattern` with `regex::Regex::new` and searches `haystack` with
/// `Regex::is_match` of the result. The contract only gives the outcome its
/// name: `None` where the first call fails, else what the second returns.
#[verifier::external_body]
pub(crate) fn pattern_matches(pattern: &str, haystack: &str) -> (found: Option<bool>)
    ensures
        found == regex_match(pattern@, haystack@),
{
    match regex::Regex::new(pattern) {
        Ok(regex) => Some(regex.is_match(haystack)),
        Err(_) => None,
    }
}

} // verus!
