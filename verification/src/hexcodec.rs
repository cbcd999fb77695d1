//! Hexadecimal text and the bytes it stands for.

use vstd::prelude::*;
use crate::text::string_of;

verus! {

/// Whether `c` is one of `0`-`9`, `a`-`f`, `A`-`F`.
pub open spec fn is_hex_digit(c: char) -> bool {
    ('0' <= c && c <= '9') || ('a' <= c && c <= 'f') || ('A' <= c && c <= 'F')
}

/// The number from 0 to 15 that a hex digit stands for.
pub open spec fn hex_digit_value(c: char) -> int {
    if '0' <= c && c <= '9' {
        c as int - '0' as int
    } else if 'a' <= c && c <= 'f' {
        c as int - 'a' as int + 10
    } else {
        c as int - 'A' as int + 10
    }
}

/// Whether `text` is an even number of hex digits and nothing else.
pub open spec fn is_hex_text(text: Seq<char>) -> bool {
    &&& text.len() % 2 == 0
    &&& forall|i: int| 0 <= i < text.len() ==> is_hex_digit(#[trigger] text[i])
}

/// The bytes that hex text stands for: each pair of digits is one byte, the
/// first digit its high half.
pub open spec fn hex_value(text: Seq<char>) -> Seq<u8> {
    Seq::new(
        text.len() / 2,
        |i: int| (16 * hex_digit_value(text[2 * i]) + hex_digit_value(text[2 * i + 1])) as u8,
    )
}

/// The lower-case hex digit for a number from 0 to 15.
pub open spec fn lower_hex_digit(v: int) -> char {
    if v < 10 {
        ('0' as int + v) as char
    } else {
        ('a' as int + v - 10) as char
    }
}

/// The upper-case hex digit for a number from 0 to 15.
pub open spec fn upper_hex_digit(v: int) -> char {
    if v < 10 {
        ('0' as int + v) as char
    } else {
        ('A' as int + v - 10) as char
    }
}

/// Bytes as lower-case hex text without separators, two digits per byte.
pub open spec fn lower_hex(bytes: Seq<u8>) -> Seq<char> {
    Seq::new(
        2 * bytes.len(),
        |i: int|
            if i % 2 == 0 {
                lower_hex_digit(bytes[i / 2] as int / 16)
            } else {
                lower_hex_digit(bytes[i / 2] as int % 16)
            },
    )
}

/// Bytes as upper-case hex text without separators, two digits per byte.
pub open spec fn upper_hex(bytes: Seq<u8>) -> Seq<char> {
    Seq::new(
        2 * bytes.len(),
        |i: int|
            if i % 2 == 0 {
                upper_hex_digit(bytes[i / 2] as int / 16)
            } else {
                upper_hex_digit(bytes[i / 2] as int % 16)
            },
    )
}

/// The two upper-case digits of one byte.
pub open spec fn upper_hex_pair(b: u8) -> Seq<char> {
    seq![upper_hex_digit(b as int / 16), upper_hex_digit(b as int % 16)]
}

/// Bytes as upper-case hex text, two digits per byte, the bytes separated by
/// single spaces.
pub open spec fn spaced_upper_hex(bytes: Seq<u8>) -> Seq<char>
    decreases bytes.len(),
{
    if bytes.len() == 0 {
        Seq::empty()
    } else if bytes.len() == 1 {
        upper_hex_pair(bytes[0])
    } else {
        spaced_upper_hex(bytes.drop_last()).push(' ') + upper_hex_pair(bytes.last())
    }
}

/// `hex::FromHexError`, the reason for which `hex::decode` refuses a text.
/// It is carried through and never looked into.
#[verifier::external_type_specification]
#[verifier::external_body]
pub struct ExFromHexError(hex::FromHexError);

/// `hex::decode`. Believed: it succeeds exactly on an even number of hex
/// digits of either case, and then returns one byte per pair of digits, the
/// first digit of a pair being the high half. It reads the bytes of the
/// text; a character outside ASCII has no byte that is a hex digit, so a text
/// with one is refused, as the contract says.
#[verifier::external_body]
pub(crate) fn hex_decode(text: &str) -> (r: Result<Vec<u8>, hex::FromHexError>)
    ensures
        r is Ok <==> is_hex_text(text@),
        r matches Ok(bytes) ==> bytes@ == hex_value(text@),
{
    hex::decode(text)
}

/// `hex::encode`. Believed: it returns two lower-case hex digits for each
/// byte, high half first, and nothing between them.
#[verifier::external_body]
pub(crate) fn hex_encode(bytes: &[u8]) -> (r: String)
    ensures
        r@ == lower_hex(bytes@),
{
    hex::encode(bytes)
}

/// The upper-case hex digit of a number below 16.
pub(crate) fn upper_digit(v: u8) -> (c: char)
    requires
        v < 16,
    ensures
        c == upper_hex_digit(v as int),
{
    if v < 10 {
        (48u8 + v) as char
    } else {
        (65u8 + (v - 10)) as char
    }
}

/// Digits made even in number by one leading zero where they are odd.
pub open spec fn pad_even(digits: Seq<char>) -> Seq<char> {
    if digits.len() % 2 == 1 {
        seq!['0'] + digits
    } else {
        digits
    }
}

/// The bytes that digits stand for once padded to an even number, or `None`
/// where a character among them is no hex digit.
pub open spec fn padded_hex_value(digits: Seq<char>) -> Option<Seq<u8>> {
    let padded = pad_even(digits);
    if is_hex_text(padded) {
        Some(hex_value(padded))
    } else {
        None
    }
}

/// Decodes hex digits, padding an odd number of them with a leading zero.
pub fn decode_padded(digits: &Vec<char>) -> (out: Option<Vec<u8>>)
    ensures
        match out {
            Some(bytes) => padded_hex_value(digits@) == Some(bytes@),
            None => padded_hex_value(digits@) is None,
        },
{
    let mut padded: Vec<char> = Vec::new();
    if digits.len() % 2 == 1 {
        padded.push('0');
    }
    let ghost lead = padded@;
    let mut i: usize = 0;
    while i < digits.len()
        invariant
            i <= digits.len(),
            padded@ == lead + digits@.take(i as int),
        decreases digits.len() - i,
    {
        padded.push(digits[i]);
        assert(digits@.take(i + 1) =~= digits@.take(i as int).push(digits@[i as int]));
        assert(padded@ =~= lead + digits@.take(i + 1));
        i += 1;
    }
    assert(digits@.take(digits@.len() as int) =~= digits@);
    assert(padded@ =~= pad_even(digits@));
    let text = string_of(&padded);
    match hex_decode(text.as_str()) {
        Ok(bytes) => Some(bytes),
        Err(_) => None,
    }
}

} // verus!
