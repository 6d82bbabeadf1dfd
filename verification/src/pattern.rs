//! Searching text for a pattern. The search itself is the `regex` crate's;
//! what it finds is known here by name only.

use regex::Regex;
use vstd::prelude::*;

verus! {

#[verifier::external_type_specification]
#[verifier::external_body]
pub struct ExRegexError(regex::Error);

/// What a search for `pattern` in `text` finds: nothing at all where the
/// pattern is refused, else the matches from left to right, each as the byte
/// offsets of its start and its end.
pub uninterp spec fn pattern_matches(pattern: Seq<char>, text: Seq<char>) -> Option<
    Seq<(usize, usize)>,
>;

/// `Regex::new` and `Regex::find_iter`: compiles the pattern and collects the
/// byte offsets of the successive matches that do not overlap. The result
/// depends on the pattern and the text alone.
#[verifier::external_body]
pub(crate) fn search(pattern: &str, text: &str) -> (found: Result<Vec<(usize, usize)>, regex::Error>)
    ensures
        match found {
            Ok(matches) => pattern_matches(pattern@, text@) == Some(matches@),
            Err(_) => pattern_matches(pattern@, text@) is None,
        },
{
    match Regex::new(pattern) {
        Ok(compiled) => Ok(compiled.find_iter(text).map(|m| (m.start(), m.end())).collect()),
        Err(error) => Err(error),
    }
}

/// What the first match of `pattern` in `text` holds in its capture group
/// `group`: nothing at all where the pattern is refused; else no span where
/// there is no match or the group took no part in it; else the byte offsets
/// of the group's start and end.
pub uninterp spec fn pattern_group(pattern: Seq<char>, text: Seq<char>, group: usize) -> Option<
    Option<(usize, usize)>,
>;

/// `Regex::new`, `Regex::captures` and `Captures::get`: compiles the pattern
/// and gives the offsets of one capture group of the leftmost match. The
/// result depends on the pattern, the text and the group alone.
#[verifier::external_body]
pub(crate) fn search_group(pattern: &str, text: &str, group: usize) -> (found: Result<
    Option<(usize, usize)>,
    regex::Error,
>)
    ensures
        match found {
            Ok(span) => pattern_group(pattern@, text@, group) == Some(span),
            Err(_) => pattern_group(pattern@, text@, group) is None,
        },
{
    match Regex::new(pattern) {
        Ok(compiled) => Ok(
            compiled.captures(text).and_then(|c| c.get(group)).map(|m| (m.start(), m.end())),
        ),
        Err(error) => Err(error),
    }
}

} // verus!
