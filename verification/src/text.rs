//! Small operations on text held as a sequence of characters.

use std::string::FromUtf8Error;
use vstd::prelude::*;
use vstd::slice::slice_subrange;
use vstd::utf8::{encode_utf8, valid_utf8};

verus! {

/// The position of the first `mark` in `text`, or the length of `text` where
/// there is none.
pub open spec fn first_index(text: Seq<char>, mark: char) -> int
    decreases text.len(),
{
    if text.len() == 0 {
        0
    } else if text[0] == mark {
        0
    } else {
        1 + first_index(text.skip(1), mark)
    }
}

/// `first_index` is a position with no `mark` before it that either holds a
/// `mark` or is the end of the text.
pub proof fn lemma_first_index_is_first(text: Seq<char>, mark: char)
    ensures
        0 <= first_index(text, mark) <= text.len(),
        forall|i: int| 0 <= i < first_index(text, mark) ==> text[i] != mark,
        first_index(text, mark) < text.len() ==> text[first_index(text, mark)] == mark,
    decreases text.len(),
{
    if text.len() > 0 && text[0] != mark {
        let rest = text.skip(1);
        lemma_first_index_is_first(rest, mark);
        assert forall|i: int| 0 <= i < first_index(text, mark) implies text[i] != mark by {
            if i > 0 {
                assert(rest[i - 1] == text[i]);
            }
        }
    }
}

/// `first_index` is the only position with no `mark` before it that either
/// holds a `mark` or is the end of the text.
pub proof fn lemma_first_index(text: Seq<char>, mark: char, at: int)
    requires
        0 <= at <= text.len(),
        forall|i: int| 0 <= i < at ==> text[i] != mark,
        at < text.len() ==> text[at] == mark,
    ensures
        first_index(text, mark) == at,
    decreases text.len(),
{
    if text.len() > 0 && text[0] != mark {
        let rest = text.skip(1);
        assert forall|i: int| 0 <= i < at - 1 implies rest[i] != mark by {
            assert(rest[i] == text[i + 1]);
        }
        lemma_first_index(rest, mark, at - 1);
    }
}

/// The characters of a string.
pub fn chars_of(text: &str) -> (chars: Vec<char>)
    ensures
        chars@ == text@,
{
    let mut chars: Vec<char> = Vec::new();
    for c in it: text.chars()
        invariant
            it.seq() == text@,
            chars@ == it.seq().take(it.index()),
            it.index() == it.seq().len() ==> chars@ == text@,
    {
        chars.push(c);
    }
    chars
}

/// Finds the first `mark`.
pub fn find(text: &[char], mark: char) -> (at: usize)
    ensures
        at == first_index(text@, mark),
        at <= text@.len(),
{
    let mut at: usize = 0;
    while at < text.len() && text[at] != mark
        invariant
            at <= text@.len(),
            forall|i: int| 0 <= i < at ==> text@[i] != mark,
        decreases text@.len() - at,
    {
        at = at + 1;
    }
    proof {
        lemma_first_index(text@, mark, at as int);
    }
    at
}

/// Whether a run of characters spells `word`.
pub fn spells(text: &[char], word: &str) -> (same: bool)
    ensures
        same == (text@ == word@),
{
    let letters = chars_of(word);
    if letters.len() != text.len() {
        return false;
    }
    let mut i: usize = 0;
    while i < text.len()
        invariant
            i <= text@.len(),
            letters@ == word@,
            letters@.len() == text@.len(),
            forall|j: int| 0 <= j < i ==> text@[j] == letters@[j],
        decreases text@.len() - i,
    {
        if text[i] != letters[i] {
            return false;
        }
        i = i + 1;
    }
    assert(text@ =~= letters@);
    true
}

/// The part of `text` from `from` up to `to`.
pub fn part(text: &[char], from: usize, to: usize) -> (run: &[char])
    requires
        from <= to <= text@.len(),
    ensures
        run@ == text@.subrange(from as int, to as int),
{
    slice_subrange(text, from, to)
}

/// Whether a run of characters begins with `word`.
pub fn begins_with(text: &[char], word: &str) -> (begins: bool)
    ensures
        begins == word@.is_prefix_of(text@),
{
    let letters = chars_of(word);
    if letters.len() > text.len() {
        return false;
    }
    let mut i: usize = 0;
    while i < letters.len()
        invariant
            i <= letters@.len() <= text@.len(),
            letters@ == word@,
            forall|j: int| 0 <= j < i ==> text@[j] == letters@[j],
        decreases letters@.len() - i,
    {
        if text[i] != letters[i] {
            assert(text@.subrange(0, word@.len() as int)[i as int] != word@[i as int]);
            return false;
        }
        i = i + 1;
    }
    assert(word@ =~= text@.subrange(0, word@.len() as int));
    true
}

#[verifier::external_type_specification]
#[verifier::external_body]
pub struct ExFromUtf8Error(FromUtf8Error);

/// `String::from_utf8`: the bytes become a string exactly when they are
/// well-formed UTF-8, and the string then encodes to those bytes.
#[verifier::external_body]
pub(crate) fn string_from_utf8(bytes: Vec<u8>) -> (text: Result<String, FromUtf8Error>)
    ensures
        match text {
            Ok(s) => valid_utf8(bytes@) && encode_utf8(s@) == bytes@,
            Err(_) => !valid_utf8(bytes@),
        },
{
    String::from_utf8(bytes)
}

} // verus!
