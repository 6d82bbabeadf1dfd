//! The cockpit-parameter text: one `Key:Value` per line, in a format the
//! simulator does not document. Reading it never fails. Lines without a colon
//! and lines with a key that is not known are skipped; a known key with a
//! value that is no number counts as "not ejected".

use vstd::prelude::*;

use crate::data::{CockpitParams, FlightData};
use crate::text::{
    chars_of, find, first_index, lemma_first_index, lemma_first_index_is_first, part, spells,
};

verus! {

/// The key under which the simulator reports the state of the ejection seat:
/// below zero before an ejection, zero or above from its start on.
pub const EJECTION_KEY: &'static str = "EJECTION_INITIATED_0";

pub open spec fn is_digit(c: char) -> bool {
    '0' <= c && c <= '9'
}

/// The end of the run of digits that starts at `from`.
pub open spec fn digits_end(text: Seq<char>, from: int) -> int
    decreases text.len() - from,
{
    if 0 <= from < text.len() && is_digit(text[from]) {
        digits_end(text, from + 1)
    } else {
        from
    }
}

/// The text begins with a minus sign.
pub open spec fn negative(text: Seq<char>) -> bool {
    text.len() > 0 && text[0] == '-'
}

/// The text without its leading sign, if it has one.
pub open spec fn unsigned_part(text: Seq<char>) -> Seq<char> {
    if text.len() > 0 && (text[0] == '+' || text[0] == '-') {
        text.skip(1)
    } else {
        text
    }
}

/// The lower-case form of a letter of the basic Latin alphabet; any other
/// character is left as it is.
pub open spec fn lower(c: char) -> char {
    if 'A' <= c && c <= 'Z' {
        ((c as u8) + 32) as char
    } else {
        c
    }
}

/// The text spells `word` when upper and lower case are not told apart;
/// `word` is in lower case.
pub open spec fn spells_uncased(text: Seq<char>, word: Seq<char>) -> bool {
    text.len() == word.len() && forall|i: int| 0 <= i < text.len() ==> lower(text[i]) == word[i]
}

/// The text is one of the two spellings of infinity.
pub open spec fn is_infinity(body: Seq<char>) -> bool {
    spells_uncased(body, "inf"@) || spells_uncased(body, "infinity"@)
}

/// Where the mantissa of an unsigned number ends: after the digits, a point
/// and more digits, as far as they are there.
pub open spec fn mantissa_end(body: Seq<char>) -> int {
    let whole_end = digits_end(body, 0);
    if whole_end < body.len() && body[whole_end] == '.' {
        digits_end(body, whole_end + 1)
    } else {
        whole_end
    }
}

/// The number of digits in the mantissa.
pub open spec fn mantissa_digits(body: Seq<char>) -> int {
    let whole_end = digits_end(body, 0);
    if whole_end < body.len() && body[whole_end] == '.' {
        mantissa_end(body) - 1
    } else {
        whole_end
    }
}

/// An exponent: the letter `e` in either case, an optional sign, and one
/// digit or more.
pub open spec fn is_exponent(tail: Seq<char>) -> bool {
    let digits = unsigned_part(tail.skip(1));
    &&& tail.len() > 0
    &&& tail[0] == 'e' || tail[0] == 'E'
    &&& digits.len() > 0
    &&& digits_end(digits, 0) == digits.len()
}

/// An unsigned decimal number: digits with at most one point among them, at
/// least one digit in all, and an optional exponent.
pub open spec fn is_number(body: Seq<char>) -> bool {
    &&& mantissa_digits(body) >= 1
    &&& mantissa_end(body) == body.len() || is_exponent(body.skip(mantissa_end(body)))
}

/// Every digit of the mantissa is a zero.
pub open spec fn is_zero(body: Seq<char>) -> bool {
    forall|i: int| 0 <= i < mantissa_end(body) ==> body[i] == '0' || body[i] == '.'
}

/// The text is a number, or infinity, that is not below zero. What is no
/// number at all is not such a number.
pub open spec fn non_negative_number(text: Seq<char>) -> bool {
    let body = unsigned_part(text);
    if is_infinity(body) {
        !negative(text)
    } else {
        is_number(body) && (!negative(text) || is_zero(body))
    }
}

/// What one line says of the ejection seat: nothing, unless its key, the text
/// before the first colon, is the ejection key; then, whether the text after
/// that colon is a number that is not below zero.
pub open spec fn verdict(line: Seq<char>) -> Option<bool> {
    let colon = first_index(line, ':');
    if colon < line.len() && line.take(colon) == EJECTION_KEY@ {
        Some(non_negative_number(line.skip(colon + 1)))
    } else {
        None
    }
}

/// The state of the ejection seat after reading `text` line by line, having
/// started from `ejected`: each line that has a verdict replaces the state.
pub open spec fn scan(text: Seq<char>, ejected: bool) -> bool
    decreases text.len(),
{
    let end = first_index(text, '\n');
    let now = match verdict(text.take(end)) {
        Some(state) => state,
        None => ejected,
    };
    if 0 <= end < text.len() {
        scan(text.skip(end + 1), now)
    } else {
        now
    }
}

/// What the cockpit-parameter text says.
pub open spec fn cockpit_params(text: Seq<char>) -> CockpitParams {
    CockpitParams { ejected: scan(text, false) }
}

fn to_lower(c: char) -> (l: char)
    ensures
        l == lower(c),
{
    if 'A' <= c && c <= 'Z' {
        ((c as u8) + 32) as char
    } else {
        c
    }
}

fn reads_uncased(text: &[char], word: &str) -> (same: bool)
    ensures
        same == spells_uncased(text@, word@),
{
    let letters = chars_of(word);
    if letters.len() != text.len() {
        return false;
    }
    let mut i: usize = 0;
    while i < text.len()
        invariant
            i <= text@.len(),
            letters@ == word@,
            letters@.len() == text@.len(),
            forall|j: int| 0 <= j < i ==> lower(text@[j]) == letters@[j],
        decreases text@.len() - i,
    {
        if to_lower(text[i]) != letters[i] {
            return false;
        }
        i = i + 1;
    }
    true
}

fn skip_digits(text: &[char], from: usize) -> (end: usize)
    requires
        from <= text@.len(),
    ensures
        end == digits_end(text@, from as int),
        from <= end <= text@.len(),
        forall|i: int| from <= i < end ==> is_digit(text@[i]),
{
    let mut end: usize = from;
    while end < text.len() && '0' <= text[end] && text[end] <= '9'
        invariant
            from <= end <= text@.len(),
            digits_end(text@, from as int) == digits_end(text@, end as int),
            forall|i: int| from <= i < end ==> is_digit(text@[i]),
        decreases text@.len() - end,
    {
        end = end + 1;
    }
    end
}

fn without_sign(text: &[char]) -> (body: &[char])
    ensures
        body@ == unsigned_part(text@),
{
    if text.len() > 0 && (text[0] == '+' || text[0] == '-') {
        part(text, 1, text.len())
    } else {
        text
    }
}

fn reads_exponent(tail: &[char]) -> (ok: bool)
    ensures
        ok == is_exponent(tail@),
{
    if tail.len() == 0 || !(tail[0] == 'e' || tail[0] == 'E') {
        return false;
    }
    let digits = without_sign(part(tail, 1, tail.len()));
    digits.len() > 0 && skip_digits(digits, 0) == digits.len()
}

fn only_zeros(text: &[char], end: usize) -> (ok: bool)
    requires
        end <= text@.len(),
    ensures
        ok == forall|i: int| 0 <= i < end ==> text@[i] == '0' || text@[i] == '.',
{
    let mut i: usize = 0;
    while i < end
        invariant
            i <= end <= text@.len(),
            forall|j: int| 0 <= j < i ==> text@[j] == '0' || text@[j] == '.',
        decreases end - i,
    {
        if text[i] != '0' && text[i] != '.' {
            return false;
        }
        i = i + 1;
    }
    true
}

/// Whether the text is a number, or infinity, that is not below zero.
pub fn is_non_negative_number(text: &[char]) -> (ok: bool)
    ensures
        ok == non_negative_number(text@),
{
    let minus = text.len() > 0 && text[0] == '-';
    let body = without_sign(text);
    if reads_uncased(body, "inf") || reads_uncased(body, "infinity") {
        return !minus;
    }
    let whole_end = skip_digits(body, 0);
    let pointed = whole_end < body.len() && body[whole_end] == '.';
    let end = if pointed {
        skip_digits(body, whole_end + 1)
    } else {
        whole_end
    };
    let digits = if pointed {
        end - 1
    } else {
        end
    };
    if digits < 1 {
        return false;
    }
    if end < body.len() && !reads_exponent(part(body, end, body.len())) {
        return false;
    }
    !minus || only_zeros(body, end)
}

fn line_verdict(line: &[char]) -> (said: Option<bool>)
    ensures
        said == verdict(line@),
{
    let colon = find(line, ':');
    if colon < line.len() && spells(part(line, 0, colon), EJECTION_KEY) {
        Some(is_non_negative_number(part(line, colon + 1, line.len())))
    } else {
        None
    }
}

impl FlightData {
    /// Reads the cockpit parameters, where the snapshot has any. The pilot
    /// counts as ejected when the last line under the ejection key gives a
    /// number that is not below zero.
    pub fn parse_cockpit_params(&self) -> (params: Option<CockpitParams>)
        ensures
            params == match self.cp_params {
                Some(text) => Some(cockpit_params(text@)),
                None => None,
            },
    {
        match &self.cp_params {
            None => None,
            Some(raw) => {
                let chars = chars_of(raw.as_str());
                let text = chars.as_slice();
                let mut ejected = false;
                let mut from: usize = 0;
                let mut done = false;
                assert(text@.skip(0) == text@);
                while !done
                    invariant
                        from <= text@.len(),
                        text@ == raw@,
                        !done ==> scan(text@, false) == scan(text@.skip(from as int), ejected),
                        done ==> scan(text@, false) == ejected,
                    decreases text@.len() - from + if done { 0int } else { 1int },
                {
                    let rest = part(text, from, text.len());
                    let end = find(rest, '\n');
                    match line_verdict(part(rest, 0, end)) {
                        Some(state) => {
                            ejected = state;
                        },
                        None => {},
                    }
                    if end < rest.len() {
                        proof {
                            assert(rest@.skip(end + 1) == text@.skip(from + end + 1));
                        }
                        from = from + end + 1;
                    } else {
                        done = true;
                    }
                }
                Some(CockpitParams { ejected })
            },
        }
    }
}

/// The last line decides where it has a verdict; where it has none, the text
/// before it does.
pub proof fn lemma_last_line_decides(head: Seq<char>, line: Seq<char>, ejected: bool)
    requires
        !line.contains('\n'),
    ensures
        scan(head + seq!['\n'] + line, ejected) == match verdict(line) {
            Some(state) => state,
            None => scan(head, ejected),
        },
    decreases head.len(),
{
    let text = head + seq!['\n'] + line;
    let end = first_index(head, '\n');
    lemma_first_index_is_first(head, '\n');
    assert forall|i: int| 0 <= i < end implies text[i] != '\n' by {
        assert(text[i] == head[i]);
    }
    assert(text[end] == '\n');
    lemma_first_index(text, '\n', end);
    assert(text.take(end) == head.take(end));
    let now = match verdict(head.take(end)) {
        Some(state) => state,
        None => ejected,
    };
    assert(scan(text, ejected) == scan(text.skip(end + 1), now));
    if end == head.len() {
        assert(text.skip(end + 1) == line);
        assert(head.take(end) == head);
        lemma_single_line(line, now);
        assert(scan(head, ejected) == now);
    } else {
        assert(scan(head, ejected) == scan(head.skip(end + 1), now));
        assert(text.skip(end + 1) == head.skip(end + 1) + seq!['\n'] + line);
        lemma_last_line_decides(head.skip(end + 1), line, now);
    }
}

/// A text of one line says what that line says.
pub proof fn lemma_single_line(line: Seq<char>, ejected: bool)
    requires
        !line.contains('\n'),
    ensures
        scan(line, ejected) == match verdict(line) {
            Some(state) => state,
            None => ejected,
        },
{
    assert forall|i: int| 0 <= i < line.len() implies line[i] != '\n' by {
        assert(line.contains(line[i]));
    }
    lemma_first_index(line, '\n', line.len() as int);
    assert(line.take(line.len() as int) == line);
}

} // verus!
