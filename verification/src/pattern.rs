//! Trusted boundary around the regex engine.
//!
//! A compiled regular expression is opaque to verification, so the facts the
//! routing logic depends on are given names: whether a pattern string
//! compiles, which pattern a compiled regex was built from, and whether a
//! pattern matches somewhere inside a haystack.

use vstd::prelude::*;

verus! {

/// Whether `pattern` is accepted by the regex engine's default parser and
/// size limit.  This is a function of the pattern text alone.
pub uninterp spec fn pattern_compiles(pattern: Seq<char>) -> bool;

/// The pattern text a compiled regex was built from, as `regex::Regex::as_str`
/// returns it.
pub uninterp spec fn regex_pattern(re: regex::Regex) -> Seq<char>;

/// Whether the regex compiled from `pattern` matches anywhere inside
/// `haystack` (search semantics, no implicit anchoring).  For a fixed default
/// build configuration this is a function of the two texts alone.
pub uninterp spec fn regex_matches(pattern: Seq<char>, haystack: Seq<char>) -> bool;

#[verifier::external_type_specification]
#[verifier::external_body]
pub struct ExRegex(regex::Regex);

/// Relies on `regex::Regex::new`: it returns `Ok` exactly when the pattern is
/// a valid regular expression within the default size limit, and the compiled
/// regex reports the original pattern through `as_str`.
#[verifier::external_body]
pub(crate) fn compile_pattern(pattern: &str) -> (r: Option<regex::Regex>)
    ensures
        r is Some <==> pattern_compiles(pattern@),
        r matches Some(re) ==> regex_pattern(re) == pattern@,
{
    regex::Regex::new(pattern).ok()
}

/// Relies on `regex::Regex::is_match`: it returns true if and only if the
/// regex matches anywhere in the haystack, a deterministic function of the
/// regex's pattern and the haystack.
#[verifier::external_body]
pub(crate) fn regex_is_match(re: &regex::Regex, haystack: &str) -> (b: bool)
    ensures
        b == regex_matches(regex_pattern(*re), haystack@),
{
    re.is_match(haystack)
}

} // verus!
