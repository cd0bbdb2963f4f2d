//! The document's text and the step from byte offsets to character offsets.
//!
//! The text is a `ropey::RopeSlice`. Syntax highlighting counts in bytes and
//! may cut a character in two; the renderer counts in characters.

use vstd::prelude::*;

verus! {

/// `ropey::RopeSlice`, an immutable view into a rope's text.
#[verifier::external_type_specification]
#[verifier::external_body]
pub struct ExRopeSlice<'a>(ropey::RopeSlice<'a>);

/// The characters of a rope slice, in order.
pub uninterp spec fn rope_chars(text: ropey::RopeSlice) -> Seq<char>;

/// The number of bytes that UTF-8 takes for one character.
pub open spec fn utf8_len(c: char) -> int {
    if c as u32 <= 0x7f {
        1
    } else if c as u32 <= 0x7ff {
        2
    } else if c as u32 <= 0xffff {
        3
    } else {
        4
    }
}

/// The byte offset at which character `n` of `chars` starts; for `n` at or
/// beyond the length, the number of bytes in all of `chars`.
pub open spec fn byte_offset(chars: Seq<char>, n: int) -> int
    decreases chars.len(),
{
    if n <= 0 || chars.len() == 0 {
        0
    } else {
        utf8_len(chars[0]) + byte_offset(chars.drop_first(), n - 1)
    }
}

/// The number of bytes in `chars`.
pub open spec fn byte_len(chars: Seq<char>) -> int {
    byte_offset(chars, chars.len() as int)
}

/// The index of the character that byte `b` belongs to; the length of
/// `chars` for a `b` at or beyond the end.
pub open spec fn char_of_byte(chars: Seq<char>, b: int) -> int
    decreases chars.len(),
{
    if chars.len() == 0 || b < utf8_len(chars[0]) {
        0
    } else {
        1 + char_of_byte(chars.drop_first(), b - utf8_len(chars[0]))
    }
}

/// The index of the first character that starts at byte `b` or later; the
/// length of `chars` where none does.
pub open spec fn char_at_or_after_byte(chars: Seq<char>, b: int) -> int
    decreases chars.len(),
{
    if chars.len() == 0 || b <= 0 {
        0
    } else {
        1 + char_at_or_after_byte(chars.drop_first(), b - utf8_len(chars[0]))
    }
}

/// Calls `RopeSlice::len_bytes`: the total number of bytes in the text.
#[verifier::external_body]
pub(crate) fn len_bytes(text: &ropey::RopeSlice) -> (r: usize)
    ensures
        r == byte_len(rope_chars(*text)),
{
    text.len_bytes()
}

/// Calls `RopeSlice::byte_to_char`: the index of the character that the byte
/// belongs to, and the number of characters for the offset one past the end.
/// It panics on an offset beyond that.
#[verifier::external_body]
pub(crate) fn byte_to_char(text: &ropey::RopeSlice, byte_idx: usize) -> (r: usize)
    requires
        byte_idx <= byte_len(rope_chars(*text)),
    ensures
        r == char_of_byte(rope_chars(*text), byte_idx as int),
{
    text.byte_to_char(byte_idx)
}

/// Calls `RopeSlice::char_to_byte`: the byte offset at which the character
/// starts, and the number of bytes for the index one past the end. It panics
/// on an index beyond that.
#[verifier::external_body]
pub(crate) fn char_to_byte(text: &ropey::RopeSlice, char_idx: usize) -> (r: usize)
    requires
        char_idx <= rope_chars(*text).len(),
    ensures
        r == byte_offset(rope_chars(*text), char_idx as int),
{
    text.char_to_byte(char_idx)
}

/// Offsets grow with the index and stop at the length of the text.
pub proof fn lemma_byte_offset_bounds(chars: Seq<char>, n: int)
    ensures
        0 <= byte_offset(chars, n) <= byte_len(chars),
        n >= chars.len() ==> byte_offset(chars, n) == byte_len(chars),
        0 <= n < chars.len() ==> byte_offset(chars, n) < byte_offset(chars, n + 1),
        0 <= n <= chars.len() ==> n <= byte_offset(chars, n),
    decreases chars.len(),
{
    if chars.len() > 0 {
        lemma_byte_offset_bounds(chars.drop_first(), n - 1);
        if n <= 0 {
            lemma_byte_offset_bounds(chars.drop_first(), chars.len() - 1);
            lemma_byte_offset_bounds(chars.drop_first(), 0);
        }
    }
}

/// The character that a byte belongs to starts at or before that byte, and
/// the next one starts after it.
pub proof fn lemma_char_of_byte(chars: Seq<char>, b: int)
    requires
        0 <= b,
    ensures
        0 <= char_of_byte(chars, b) <= chars.len(),
        byte_offset(chars, char_of_byte(chars, b)) <= b,
        char_of_byte(chars, b) < chars.len() ==> b < byte_offset(
            chars,
            char_of_byte(chars, b) + 1,
        ),
        char_of_byte(chars, b) == chars.len() <==> b >= byte_len(chars),
    decreases chars.len(),
{
    if chars.len() > 0 && b >= utf8_len(chars[0]) {
        lemma_char_of_byte(chars.drop_first(), b - utf8_len(chars[0]));
    } else if chars.len() > 0 {
        lemma_byte_offset_bounds(chars.drop_first(), 0);
        lemma_byte_offset_bounds(chars.drop_first(), chars.len() - 1);
    }
}

/// Rounding a byte offset up to a character never moves it backward, and
/// moves it no further than the next character's start.
pub proof fn lemma_char_at_or_after_byte(chars: Seq<char>, b: int)
    ensures
        0 <= char_at_or_after_byte(chars, b) <= chars.len(),
        b <= byte_len(chars) ==> byte_offset(chars, char_at_or_after_byte(chars, b)) >= b,
        char_at_or_after_byte(chars, b) > 0 ==> byte_offset(
            chars,
            char_at_or_after_byte(chars, b) - 1,
        ) < b,
        b >= byte_len(chars) ==> char_at_or_after_byte(chars, b) == chars.len(),
    decreases chars.len(),
{
    if chars.len() > 0 && b > 0 {
        lemma_char_at_or_after_byte(chars.drop_first(), b - utf8_len(chars[0]));
        lemma_byte_offset_bounds(chars.drop_first(), 0);
    } else if chars.len() > 0 {
        lemma_byte_offset_bounds(chars.drop_first(), chars.len() - 1);
    }
}

/// Rounding up agrees with rounding down on a character's first byte and is
/// one more anywhere else.
pub proof fn lemma_round_up_from_down(chars: Seq<char>, b: int)
    requires
        0 <= b < byte_len(chars),
    ensures
        char_at_or_after_byte(chars, b) == if byte_offset(chars, char_of_byte(chars, b)) == b {
            char_of_byte(chars, b)
        } else {
            char_of_byte(chars, b) + 1
        },
    decreases chars.len(),
{
    if chars.len() > 0 {
        let w = utf8_len(chars[0]);
        let rest = chars.drop_first();
        lemma_byte_offset_bounds(rest, rest.len() as int);
        if b >= w {
            lemma_round_up_from_down(rest, b - w);
        } else if b > 0 {
            assert(char_at_or_after_byte(rest, b - w) == 0);
        }
    }
}

/// Rounding up keeps the order of byte offsets.
pub proof fn lemma_char_at_or_after_byte_monotonic(chars: Seq<char>, a: int, b: int)
    requires
        a <= b,
    ensures
        char_at_or_after_byte(chars, a) <= char_at_or_after_byte(chars, b),
    decreases chars.len(),
{
    if chars.len() > 0 && a > 0 {
        lemma_char_at_or_after_byte_monotonic(
            chars.drop_first(),
            a - utf8_len(chars[0]),
            b - utf8_len(chars[0]),
        );
    } else {
        lemma_char_at_or_after_byte(chars, b);
    }
}

/// The character offset of the first character that starts at byte
/// `byte_idx` or later: `byte_idx` itself where it lies on a character
/// boundary, the end of the character that it cuts otherwise, and the
/// number of characters for an offset at or beyond the end of the text.
pub fn byte_to_next_char(text: ropey::RopeSlice, byte_idx: usize) -> (r: usize)
    ensures
        r == char_at_or_after_byte(rope_chars(text), byte_idx as int),
        r <= rope_chars(text).len(),
{
    let n: usize = len_bytes(&text);
    proof {
        lemma_char_at_or_after_byte(rope_chars(text), byte_idx as int);
        lemma_char_of_byte(rope_chars(text), byte_idx as int);
        lemma_char_of_byte(rope_chars(text), n as int);
    }
    if byte_idx >= n {
        byte_to_char(&text, n)
    } else {
        proof {
            lemma_round_up_from_down(rope_chars(text), byte_idx as int);
        }
        let c: usize = byte_to_char(&text, byte_idx);
        proof {
            lemma_byte_offset_bounds(rope_chars(text), c as int);
        }
        if char_to_byte(&text, c) == byte_idx {
            c
        } else {
            c + 1
        }
    }
}

} // verus!
