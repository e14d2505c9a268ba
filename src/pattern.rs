//! Regular expressions that configurations give for the format rules.

use vstd::prelude::*;

use crate::git::opt_view;

verus! {

/// The error text of a pattern that does not compile, or `None` when it does.
pub uninterp spec fn pattern_error(pattern: Seq<char>) -> Option<Seq<char>>;

/// Whether a compiled pattern matches somewhere in `text`.
pub uninterp spec fn pattern_matches(pattern: Seq<char>, text: Seq<char>) -> bool;

/// Relies on `regex::Regex::new`, whose outcome depends on the pattern alone,
/// and on the `Display` text of its error.
#[verifier::external_body]
pub(crate) fn compile_pattern(pattern: &str) -> (r: Option<String>)
    ensures
        opt_view(r) == pattern_error(pattern@),
{
    match regex::Regex::new(pattern) {
        Ok(_) => None,
        Err(e) => Some(e.to_string()),
    }
}

/// Relies on `regex::Regex::is_match`, on the regex compiled from `pattern`:
/// whether it matches anywhere in `text`.
#[verifier::external_body]
pub(crate) fn is_match(pattern: &str, text: &str) -> (r: bool)
    requires
        pattern_error(pattern@) is None,
    ensures
        r == pattern_matches(pattern@, text@),
{
    match regex::Regex::new(pattern) {
        Ok(re) => re.is_match(text),
        Err(_) => false,
    }
}

} // verus!
