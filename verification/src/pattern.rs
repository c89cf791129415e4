//! Pattern matching on text, done by the `regex` crate.
use vstd::prelude::*;

verus! {

#[verifier::external_type_specification]
#[verifier::external_body]
pub struct ExPattern(regex::Regex);

/// Whether `regex::Regex::new` accepts the pattern.
pub uninterp spec fn compiles(pattern: Seq<char>) -> bool;

/// The pattern that a compiled expression was made from.
pub uninterp spec fn source_of(compiled: regex::Regex) -> Seq<char>;

/// What the capture group named `group` holds in the leftmost match of
/// `pattern` in `haystack`: `None` where the pattern does not match or the
/// group took no part in the match.
pub uninterp spec fn named_capture(
    pattern: Seq<char>,
    group: Seq<char>,
    haystack: Seq<char>,
) -> Option<Seq<char>>;

/// Trusted: `regex::Regex::new`. `None` stands for its error, which it gives
/// for a pattern that is invalid or too big.
#[verifier::external_body]
pub(crate) fn compile(pattern: &str) -> (r: Option<regex::Regex>)
    ensures
        r is Some <==> compiles(pattern@),
        r matches Some(compiled) ==> source_of(compiled) == pattern@,
{
    regex::Regex::new(pattern).ok()
}

/// Trusted: `regex::Regex::captures`, then `regex::Captures::name`, then the
/// matched text as a `String`.
#[verifier::external_body]
pub(crate) fn capture(compiled: &regex::Regex, group: &str, haystack: &str) -> (r: Option<String>)
    ensures
        match r {
            Some(found) => named_capture(source_of(*compiled), group@, haystack@) == Some(found@),
            None => named_capture(source_of(*compiled), group@, haystack@) is None,
        },
{
    compiled.captures(haystack).and_then(|caps| caps.name(group)).map(|m| m.as_str().to_owned())
}

} // verus!
