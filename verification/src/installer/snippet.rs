//! The lines that hook the export script into the simulator's `Export.lua`:
//! finding them, taking them out, and putting the current ones in.

use core::ops::Range;
use vstd::prelude::*;
use vstd::utf8::{decode_utf8, encode_utf8, encode_utf8_decode_utf8, valid_utf8};

use crate::pattern::{pattern_matches, search};
use crate::text::{chars_of, string_from_utf8};

verus! {

/// The lines that belong to the hook: any line that names both of its
/// variables, `hemmecsStatus` before `hemmecsErr`, or `:hemmecsErr` before
/// `hemmecsStatus`.
pub const HEMMECS_VARS_PATTERN: &'static str =
    r".*hemmecsStatus.*hemmecsErr.*\n|.*:hemmecsErr.*hemmecsStatus.*\n";

/// Why a text could not be rewritten.
#[derive(Debug, Clone, Copy, PartialEq, Eq, Structural)]
pub enum SnippetError {
    /// The pattern for the hook's lines was refused.
    Pattern,
    /// What was left after taking bytes out is no text.
    Encoding,
}

/// Whether byte `at` lies in one of the ranges. A range covers its end as
/// well as its start.
pub open spec fn covered(ranges: Seq<Range<usize>>, at: int) -> bool {
    exists|k: int|
        0 <= k < ranges.len() && (#[trigger] ranges[k]).start <= at && at <= ranges[k].end
}

/// The bytes that no range covers, in their order.
pub open spec fn uncovered(bytes: Seq<u8>, ranges: Seq<Range<usize>>) -> Seq<u8>
    decreases bytes.len(),
{
    if bytes.len() == 0 {
        bytes
    } else if covered(ranges, bytes.len() - 1) {
        uncovered(bytes.drop_last(), ranges)
    } else {
        uncovered(bytes.drop_last(), ranges).push(bytes.last())
    }
}

fn is_covered(ranges: &[Range<usize>], at: usize) -> (hit: bool)
    ensures
        hit == covered(ranges@, at as int),
{
    let mut k: usize = 0;
    while k < ranges.len()
        invariant
            k <= ranges@.len(),
            forall|j: int| 0 <= j < k ==> !((#[trigger] ranges@[j]).start <= at && at <= ranges@[j].end),
        decreases ranges@.len() - k,
    {
        if at >= ranges[k].start && at <= ranges[k].end {
            return true;
        }
        k = k + 1;
    }
    false
}

/// A copy of `string` without the bytes that the ranges cover. It fails
/// where what is left is not well-formed UTF-8.
pub fn remove_ranges(string: &str, ranges: &[Range<usize>]) -> (copy: Result<String, SnippetError>)
    ensures
        match copy {
            Ok(text) => valid_utf8(uncovered(encode_utf8(string@), ranges@)) && encode_utf8(text@)
                == uncovered(encode_utf8(string@), ranges@),
            Err(error) => error == SnippetError::Encoding && !valid_utf8(
                uncovered(encode_utf8(string@), ranges@),
            ),
        },
{
    let bytes = string.as_bytes();
    let mut kept: Vec<u8> = Vec::new();
    let mut i: usize = 0;
    while i < bytes.len()
        invariant
            i <= bytes@.len(),
            bytes@ == encode_utf8(string@),
            kept@ == uncovered(bytes@.take(i as int), ranges@),
        decreases bytes@.len() - i,
    {
        if !is_covered(ranges, i) {
            kept.push(bytes[i]);
        }
        proof {
            assert(bytes@.take(i + 1).drop_last() == bytes@.take(i as int));
        }
        i = i + 1;
    }
    assert(bytes@.take(i as int) == bytes@);
    match string_from_utf8(kept) {
        Ok(text) => Ok(text),
        Err(_) => Err(SnippetError::Encoding),
    }
}

/// The ranges with these starts and ends.
pub open spec fn ranges_of(matches: Seq<(usize, usize)>) -> Seq<Range<usize>> {
    Seq::new(matches.len(), |k: int| (Range { start: matches[k].0, end: matches[k].1 }))
}

/// The byte ranges of the matches of `pattern` in `text`, from first to last.
/// It fails where the pattern is refused.
pub fn matching_ranges(pattern: &str, text: &str) -> (ranges: Result<
    Vec<Range<usize>>,
    SnippetError,
>)
    ensures
        match ranges {
            Ok(found) => pattern_matches(pattern@, text@) is Some && found@ == ranges_of(
                pattern_matches(pattern@, text@)->0,
            ),
            Err(error) => error == SnippetError::Pattern && pattern_matches(pattern@, text@)
                is None,
        },
{
    match search(pattern, text) {
        Err(_) => Err(SnippetError::Pattern),
        Ok(matches) => {
            let mut ranges: Vec<Range<usize>> = Vec::new();
            let mut k: usize = 0;
            while k < matches.len()
                invariant
                    k <= matches@.len(),
                    ranges@ == ranges_of(matches@.take(k as int)),
                decreases matches@.len() - k,
            {
                let (start, end) = matches[k];
                ranges.push(Range { start, end });
                k = k + 1;
            }
            assert(matches@.take(k as int) == matches@);
            Ok(ranges)
        },
    }
}

/// The byte ranges of the hook's lines in `text`, from first to last.
pub fn export_snippet_ranges(text: &str) -> (ranges: Result<Vec<Range<usize>>, SnippetError>)
    ensures
        match ranges {
            Ok(found) => pattern_matches(HEMMECS_VARS_PATTERN@, text@) is Some && found@
                == ranges_of(pattern_matches(HEMMECS_VARS_PATTERN@, text@)->0),
            Err(error) => error == SnippetError::Pattern && pattern_matches(
                HEMMECS_VARS_PATTERN@,
                text@,
            ) is None,
        },
{
    matching_ranges(HEMMECS_VARS_PATTERN, text)
}

/// White space, as Unicode defines it.
pub open spec fn is_white_space(c: char) -> bool {
    ||| '\u{9}' <= c && c <= '\u{d}'
    ||| c == ' '
    ||| c == '\u{85}'
    ||| c == '\u{a0}'
    ||| c == '\u{1680}'
    ||| '\u{2000}' <= c && c <= '\u{200a}'
    ||| c == '\u{2028}'
    ||| c == '\u{2029}'
    ||| c == '\u{202f}'
    ||| c == '\u{205f}'
    ||| c == '\u{3000}'
}

/// The text without the white space at its end.
pub open spec fn trimmed_end(text: Seq<char>) -> Seq<char>
    decreases text.len(),
{
    if text.len() > 0 && is_white_space(text.last()) {
        trimmed_end(text.drop_last())
    } else {
        text
    }
}

/// The new contents of the file, from its old contents with the hook's lines
/// taken out: the white space at the end goes; on `reinstall` an empty line
/// and the hook follow; one line break ends the file.
pub open spec fn rewritten(cleaned: Seq<char>, snippet: Seq<char>, reinstall: bool) -> Seq<char> {
    let hook = if reinstall {
        seq!['\n', '\n'] + snippet
    } else {
        Seq::<char>::empty()
    };
    trimmed_end(cleaned) + hook + seq!['\n']
}

fn white_space(c: char) -> (white: bool)
    ensures
        white == is_white_space(c),
{
    ('\u{9}' <= c && c <= '\u{d}') || c == ' ' || c == '\u{85}' || c == '\u{a0}' || c
        == '\u{1680}' || ('\u{2000}' <= c && c <= '\u{200a}') || c == '\u{2028}' || c
        == '\u{2029}' || c == '\u{202f}' || c == '\u{205f}' || c == '\u{3000}'
}

/// Puts the file's new contents together from its old contents without the
/// hook's lines.
pub fn rewritten_text(cleaned: &str, snippet: &str, reinstall: bool) -> (out: String)
    ensures
        out@ == rewritten(cleaned@, snippet@, reinstall),
{
    let chars = chars_of(cleaned);
    let mut end: usize = chars.len();
    assert(chars@.take(end as int) == chars@);
    while end > 0 && white_space(chars[end - 1])
        invariant
            end <= chars@.len(),
            trimmed_end(chars@) == trimmed_end(chars@.take(end as int)),
        decreases end,
    {
        proof {
            assert(chars@.take(end as int).drop_last() == chars@.take(end - 1));
        }
        end = end - 1;
    }
    proof {
        reveal_strlit("\n\n");
        reveal_strlit("\n");
        assert("\n\n"@ == seq!['\n', '\n']);
        assert("\n"@ == seq!['\n']);
    }
    let mut out = String::from_str(cleaned.substring_char(0, end));
    if reinstall {
        out.append("\n\n");
        out.append(snippet);
        assert(out@ == trimmed_end(cleaned@) + (seq!['\n', '\n'] + snippet@));
    } else {
        assert(out@ == trimmed_end(cleaned@) + Seq::<char>::empty());
    }
    out.append("\n");
    out
}

/// What `Export.lua` is to hold after the installer has run, from what it
/// holds now: the hook's lines are found and taken out, and the rest is put
/// together again, with the current hook at the end on `reinstall`.
pub fn rewrite_export_lua_snippet(text: &str, snippet: &str, reinstall: bool) -> (out: Result<
    String,
    SnippetError,
>)
    ensures
        match pattern_matches(HEMMECS_VARS_PATTERN@, text@) {
            None => out == Err::<String, SnippetError>(SnippetError::Pattern),
            Some(found) => {
                let left = uncovered(encode_utf8(text@), ranges_of(found));
                if valid_utf8(left) {
                    out is Ok && out->Ok_0@ == rewritten(decode_utf8(left), snippet@, reinstall)
                } else {
                    out == Err::<String, SnippetError>(SnippetError::Encoding)
                }
            },
        },
{
    let ranges = match export_snippet_ranges(text) {
        Ok(ranges) => ranges,
        Err(error) => {
            return Err(error);
        },
    };
    let cleaned = match remove_ranges(text, ranges.as_slice()) {
        Ok(cleaned) => cleaned,
        Err(error) => {
            return Err(error);
        },
    };
    proof {
        encode_utf8_decode_utf8(cleaned@);
    }
    Ok(rewritten_text(cleaned.as_str(), snippet, reinstall))
}

} // verus!
