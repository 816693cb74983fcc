//! Text out of the bytes that a program wrote.

use vstd::prelude::*;
use vstd::string::StrSliceExecFns;
use vstd::string::StringExecFns;
use vstd::utf8::decode_utf8;
use vstd::utf8::valid_utf8;

verus! {

/// The text that a lossy reading of `bytes` as UTF-8 gives: what the bytes
/// encode, with U+FFFD in place of each sequence that encodes nothing.
pub uninterp spec fn lossy_utf8(bytes: Seq<u8>) -> Seq<char>;

/// Whether a character has the Unicode property White_Space.
pub uninterp spec fn white_space(c: char) -> bool;

/// A text without the whitespace that it starts and ends with.
pub open spec fn trimmed(text: Seq<char>) -> Seq<char>
    decreases text.len(),
{
    if text.len() == 0 {
        text
    } else if white_space(text.first()) {
        trimmed(text.drop_first())
    } else if white_space(text.last()) {
        trimmed(text.drop_last())
    } else {
        text
    }
}

/// The part of `text` from `from` up to `to` is all that is left of it when
/// whitespace is trimmed: nothing but whitespace lies outside, and the part
/// neither starts nor ends with any.
pub open spec fn is_core(text: Seq<char>, from: int, to: int) -> bool {
    &&& 0 <= from <= to <= text.len()
    &&& forall|k: int| 0 <= k < from ==> white_space(#[trigger] text[k])
    &&& forall|k: int| to <= k < text.len() ==> white_space(#[trigger] text[k])
    &&& from < to ==> !white_space(text[from]) && !white_space(text[to - 1])
}

/// Trimming a text leaves its core.
pub proof fn trimmed_is_core(text: Seq<char>, from: int, to: int)
    requires
        is_core(text, from, to),
    ensures
        trimmed(text) == text.subrange(from, to),
    decreases text.len(),
{
    if text.len() == 0 {
    } else if white_space(text.first()) {
        let rest = text.drop_first();
        if from == 0 {
            trimmed_is_core(rest, 0, 0);
            assert(rest.subrange(0, 0) == text.subrange(0, 0));
        } else {
            trimmed_is_core(rest, from - 1, to - 1);
            assert(rest.subrange(from - 1, to - 1) == text.subrange(from, to));
        }
    } else if white_space(text.last()) {
        let rest = text.drop_last();
        trimmed_is_core(rest, 0, to);
        assert(rest.subrange(0, to) == text.subrange(0, to));
    } else {
        assert(text.subrange(0, text.len() as int) == text);
    }
}

/// `String::from_utf8_lossy`, as an owned string. The result is a function of
/// the bytes alone; where they are valid UTF-8 it is the text they encode.
#[verifier::external_body]
pub(crate) fn from_utf8_lossy(bytes: &[u8]) -> (text: String)
    ensures
        text@ == lossy_utf8(bytes@),
        valid_utf8(bytes@) ==> text@ == decode_utf8(bytes@),
{
    String::from_utf8_lossy(bytes).into_owned()
}

/// `char::is_whitespace`: whether the character has the property White_Space.
#[verifier::external_body]
pub(crate) fn is_whitespace(c: char) -> (yes: bool)
    ensures
        yes == white_space(c),
{
    c.is_whitespace()
}

/// The text without its leading and trailing whitespace.
///
/// One pass over the characters finds the core: `from` is where the first
/// character that is no whitespace stands, `to` is just behind the last one.
pub fn trim(text: &str) -> (rest: String)
    ensures
        rest@ == trimmed(text@),
{
    // Counting the characters first keeps the positions below inside `usize`.
    let len: usize = text.unicode_len();
    if len == 0 {
        return String::new();
    }
    let mut from: usize = 0;
    let mut to: usize = 0;
    let mut at: usize = 0;
    for c in chars: text.chars()
        invariant
            chars.seq() == text@,
            at == chars.index(),
            text@.len() == len,
            is_core(text@.take(at as int), from as int, to as int),
    {
        if !is_whitespace(c) {
            if from == to {
                from = at;
            }
            to = at + 1;
        } else if from == to {
            from = at + 1;
            to = at + 1;
        }
        at = at + 1;
    }
    proof {
        assert(text@.take(at as int) == text@);
        trimmed_is_core(text@, from as int, to as int);
    }
    String::from_str(text.substring_char(from, to))
}

} // verus!
