//! Numeric literals of the legacy program document.
//!
//! A literal is the two characters `0x` followed by one or more hexadecimal
//! digits of either case. Its value is the number the digits spell.

use vstd::prelude::*;
use vstd::string::*;

use crate::natural::{be_value, lemma_be_value_push};

verus! {

/// The value of a hexadecimal digit, or `None` for any other character.
pub open spec fn digit_value(c: char) -> Option<nat> {
    let code = c as u32;
    if 48 <= code <= 57 {
        Some((code - 48) as nat)
    } else if 97 <= code <= 102 {
        Some((code - 87) as nat)
    } else if 65 <= code <= 70 {
        Some((code - 55) as nat)
    } else {
        None
    }
}

/// The number that a run of hexadecimal digits spells, most significant
/// digit first. A character that is no digit counts as zero.
pub open spec fn hex_value(digits: Seq<char>) -> nat
    decreases digits.len(),
{
    if digits.len() == 0 {
        0
    } else {
        let last = match digit_value(digits.last()) {
            Some(d) => d,
            None => 0,
        };
        hex_value(digits.drop_last()) * 16 + last
    }
}

/// Whether `token` is a numeric literal: `0x`, then at least one
/// hexadecimal digit, and nothing else.
pub open spec fn is_literal(token: Seq<char>) -> bool {
    &&& token.len() >= 3
    &&& token[0] == '0'
    &&& token[1] == 'x'
    &&& forall|i: int| 2 <= i < token.len() ==> digit_value(#[trigger] token[i]) is Some
}

/// The value of a numeric literal.
pub open spec fn literal_value(token: Seq<char>) -> nat {
    hex_value(token.skip(2))
}

/// The value of the hexadecimal digit with character code `byte`.
fn digit_of(byte: u8) -> (digit: Option<u8>)
    ensures
        digit is Some <==> digit_value(byte as char) is Some,
        digit matches Some(d) ==> digit_value(byte as char) == Some(d as nat) && d < 16,
{
    if 48 <= byte && byte <= 57 {
        Some(byte - 48)
    } else if 97 <= byte && byte <= 102 {
        Some(byte - 87)
    } else if 65 <= byte && byte <= 70 {
        Some(byte - 55)
    } else {
        None
    }
}

proof fn lemma_literal_char_is_ascii(c: char)
    requires
        digit_value(c) is Some || c == '0' || c == 'x',
    ensures
        '\0' <= c <= '\u{7f}',
{
}

proof fn lemma_hex_value_push(digits: Seq<char>, c: char)
    requires
        digit_value(c) is Some,
    ensures
        hex_value(digits.push(c)) == hex_value(digits) * 16 + digit_value(c)->0,
{
    assert(digits.push(c).drop_last() =~= digits);
}

/// Reads a numeric literal and returns its value as big-endian bytes, one
/// byte for each two digits, or `None` where `token` is no literal.
pub fn parse_literal(token: &str) -> (bytes: Option<Vec<u8>>)
    ensures
        bytes is Some <==> is_literal(token@),
        bytes matches Some(b) ==> be_value(b@) == literal_value(token@) && b@.len() == (
            token@.len() - 1) / 2,
{
    broadcast use is_ascii_spec_bytes;

    if !token.is_ascii() {
        proof {
            if is_literal(token@) {
                assert forall|i: int| 0 <= i < token@.len() implies '\0' <= #[trigger] token@[i]
                    <= '\u{7f}' by {
                    lemma_literal_char_is_ascii(token@[i]);
                }
            }
        }
        return None;
    }
    let text = token.as_bytes();
    let len = text.len();
    if len < 3 || text[0] != 48 || text[1] != 120 {
        return None;
    }
    let ghost digits = token@.skip(2);
    let mut out: Vec<u8> = Vec::new();
    let mut pos: usize = 2;
    if (len - 2) % 2 == 1 {
        match digit_of(text[2]) {
            Some(d) => {
                out.push(d);
                proof {
                    lemma_hex_value_push(Seq::<char>::empty(), token@[2]);
                    assert(digits.take(1) =~= Seq::<char>::empty().push(token@[2]));
                    lemma_be_value_push(Seq::<u8>::empty(), d);
                }
            },
            None => {
                return None;
            },
        }
        pos = 3;
    }
    while pos < len
        invariant
            2 <= pos <= len,
            len == text@.len(),
            len == token@.len(),
            (len - pos) % 2 == 0,
            token@[0] == '0',
            token@[1] == 'x',
            digits == token@.skip(2),
            forall|i: int| 0 <= i < text@.len() ==> text@[i] as char == token@[i],
            forall|i: int| 2 <= i < pos ==> digit_value(#[trigger] token@[i]) is Some,
            be_value(out@) == hex_value(digits.take(pos - 2)),
            out@.len() == (pos - 1) / 2,
        decreases len - pos,
    {
        let high = digit_of(text[pos]);
        let low = digit_of(text[pos + 1]);
        match (high, low) {
            (Some(h), Some(l)) => {
                proof {
                    let before = digits.take(pos - 2);
                    lemma_hex_value_push(before, token@[pos as int]);
                    lemma_hex_value_push(before.push(token@[pos as int]), token@[pos + 1]);
                    assert(digits.take(pos + 2 - 2) =~= before.push(token@[pos as int]).push(
                        token@[pos + 1],
                    ));
                    lemma_be_value_push(out@, (h * 16 + l) as u8);
                }
                out.push(h * 16 + l);
                pos = pos + 2;
            },
            _ => {
                return None;
            },
        }
    }
    assert(digits.take(len - 2) =~= digits);
    Some(out)
}

} // verus!
