//! The regular-expression engine, which this library calls and does not
//! verify. Everything stated here about it is taken on trust from its
//! documentation.

use vstd::prelude::*;

verus! {

#[verifier::external_type_specification]
#[verifier::external_body]
pub struct ExRegex(regex::Regex);

#[verifier::external_type_specification]
#[verifier::external_body]
pub struct ExRegexError(regex::Error);

/// The haystacks in which a compiled regular expression finds a match
/// somewhere: those for which `regex::Regex::is_match` answers `true`.
pub uninterp spec fn regex_language(re: regex::Regex) -> Set<Seq<char>>;

/// What `regex::Regex::new` makes of a pattern: `None` where it rejects the
/// pattern, else the language of the regular expression it returns.
pub uninterp spec fn regex_compiled(pattern: Seq<char>) -> Option<Set<Seq<char>>>;

/// Calls `regex::Regex::new`. Trusted: whether the engine takes a pattern,
/// and which haystacks the result matches, depend on the pattern's text
/// alone.
#[verifier::external_body]
pub(crate) fn regex_new(pattern: &str) -> (r: Result<regex::Regex, regex::Error>)
    ensures
        match r {
            Ok(re) => regex_compiled(pattern@) == Some(regex_language(re)),
            Err(_) => regex_compiled(pattern@) is None,
        },
{
    regex::Regex::new(pattern)
}

/// Calls `regex::Regex::is_match`. Trusted: the answer is `true` exactly
/// for the haystacks in the language of `re`.
#[verifier::external_body]
pub(crate) fn regex_is_match(re: &regex::Regex, haystack: &str) -> (found: bool)
    ensures
        found == regex_language(*re).contains(haystack@),
{
    re.is_match(haystack)
}

} // verus!
