//! Regular expressions, as the `fancy_regex` crate compiles and runs them.

use fancy_regex::Regex;
use vstd::prelude::*;

verus! {

/// `fancy_regex::Regex`: a compiled regular expression. Nothing is known
/// of what it holds.
#[verifier::external_type_specification]
#[verifier::external_body]
pub struct ExRegex(fancy_regex::Regex);

/// Whether `Regex::new` accepts `pattern`.
pub uninterp spec fn regex_compiles(pattern: Seq<char>) -> bool;

/// The pattern text that a compiled regex holds, which is what
/// `Regex::as_str` hands out.
pub uninterp spec fn regex_source(regex: Regex) -> Seq<char>;

/// The byte span of the first match that a regex compiled from `pattern`
/// with default options finds in `text`; `None` where `Regex::find` finds
/// none or gives up with an error.
pub uninterp spec fn regex_find(pattern: Seq<char>, text: Seq<char>) -> Option<(int, int)>;

/// `Regex::new`. A pattern either compiles or is refused; the compiled regex
/// holds the pattern it was made from. The error value is dropped.
#[verifier::external_body]
pub(crate) fn compile_regex(pattern: &str) -> (r: Option<Regex>)
    ensures
        r is Some <==> regex_compiles(pattern@),
        r matches Some(regex) ==> regex_source(regex) == pattern@,
{
    Regex::new(pattern).ok()
}

/// `Regex::find`, for a regex that `compile_regex` made. The result is the
/// start and end of the first match as byte offsets into `text`; a run that
/// ends in an error counts as no match. Nothing is claimed about where the
/// offsets lie: callers test them.
#[verifier::external_body]
pub(crate) fn find_regex(regex: &Regex, text: &str) -> (r: Option<(usize, usize)>)
    ensures
        r is Some <==> regex_find(regex_source(*regex), text@) is Some,
        r matches Some((start, end)) ==> regex_find(regex_source(*regex), text@) == Some(
            (start as int, end as int),
        ),
{
    match regex.find(text) {
        Ok(Some(found)) => Some((found.start(), found.end())),
        _ => None,
    }
}

/// `Regex::clone`: the copy is the same regex.
#[verifier::external_body]
pub(crate) fn clone_regex(regex: &Regex) -> (r: Regex)
    ensures
        r == *regex,
{
    regex.clone()
}

} // verus!
