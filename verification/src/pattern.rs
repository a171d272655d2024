//! Regular expressions, compiled and searched by the `regex` crate.

use crate::text::is_span;
use regex::Regex;
use vstd::prelude::*;

verus! {

#[verifier::external_type_specification]
#[verifier::external_body]
pub struct ExRegex(regex::Regex);

#[verifier::external_type_specification]
#[verifier::external_body]
pub struct ExRegexError(regex::Error);

/// What `regex::Regex::new` makes of `pattern`: the compiled regex, or
/// nothing where the crate rejects the pattern.
pub uninterp spec fn compiled(pattern: Seq<char>) -> Option<Regex>;

/// The byte offsets, into the UTF-8 encoding of `text`, of the leftmost match
/// that `regex::Regex::find` reports for `re`, if there is one.
pub uninterp spec fn first_match(re: Regex, text: Seq<char>) -> Option<(int, int)>;

/// Calls `regex::Regex::new`. Trusted: compiling is a function of the
/// pattern alone, so the outcome is the one that `compiled` names.
#[verifier::external_body]
pub(crate) fn compile(pattern: &str) -> (r: Result<Regex, regex::Error>)
    ensures
        r is Ok <==> compiled(pattern@) is Some,
        r matches Ok(re) ==> compiled(pattern@) == Some(re),
{
    Regex::new(pattern)
}

/// Calls `regex::Regex::find`. Trusted: the offsets are those that
/// `first_match` names, and, as the crate documents of a `Match`, they are
/// ordered, lie within `text` and fall on character boundaries.
#[verifier::external_body]
pub(crate) fn find_first(re: &Regex, text: &str) -> (r: Option<(usize, usize)>)
    ensures
        (match r {
            Some((start, end)) => {
                &&& first_match(*re, text@) == Some((start as int, end as int))
                &&& is_span(text@, start as int, end as int)
            },
            None => first_match(*re, text@) is None,
        }),
{
    match re.find(text) {
        Some(m) => Some((m.start(), m.end())),
        None => None,
    }
}

} // verus!
