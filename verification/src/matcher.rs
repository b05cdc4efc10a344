//! Pattern matcher: a thin verified interface over the `regex` crate.
//!
//! A pattern is compiled once per invocation and then tested against each
//! entry name with partial-match semantics (a match anywhere in the name).

use vstd::prelude::*;

verus! {

#[verifier::external_type_specification]
#[verifier::external_body]
pub struct ExRegex(regex::Regex);

/// Whether `regex::Regex::new` accepts the pattern: the pattern is
/// syntactically valid and the compiled form fits the default size limit.
/// Compilation is a deterministic function of the pattern text alone.
pub uninterp spec fn valid_regex(pattern: Seq<char>) -> bool;

/// The pattern text that a compiled `regex::Regex` was built from.
pub uninterp spec fn regex_pattern(re: regex::Regex) -> Seq<char>;

/// What `regex::Regex::is_match` returns for a pattern and a haystack:
/// whether the pattern matches anywhere in the haystack. The result is a
/// deterministic function of the two texts alone.
pub uninterp spec fn regex_match(pattern: Seq<char>, haystack: Seq<char>) -> bool;

/// Relies on `regex::Regex::new`: it returns `Ok` exactly when the pattern
/// is a valid regular expression (within the default size limit), and the
/// compiled value holds that pattern.
#[verifier::external_body]
pub fn compile(pattern: &str) -> (r: Option<regex::Regex>)
    ensures
        r is Some <==> valid_regex(pattern@),
        r is Some ==> regex_pattern(r->0) == pattern@,
{
    match regex::Regex::new(pattern) {
        Ok(re) => Some(re),
        Err(_) => None,
    }
}

/// Relies on `regex::Regex::is_match`: true if and only if the compiled
/// pattern matches anywhere in `haystack`.
#[verifier::external_body]
pub fn is_match(re: &regex::Regex, haystack: &str) -> (r: bool)
    ensures
        r == regex_match(regex_pattern(*re), haystack@),
{
    re.is_match(haystack)
}

} // verus!
