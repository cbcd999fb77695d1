//! Small helpers on text and bytes.

use vstd::prelude::*;
use crate::hexcodec::{spaced_upper_hex, upper_digit, upper_hex_pair};
use crate::text::{chars_of, string_of, strip_whitespace, without_whitespace};

verus! {

/// Removes every whitespace character from `s`, keeping the others in order.
pub fn remove_whitespace(s: &mut String)
    ensures
        final(s)@ == strip_whitespace(old(s)@),
{
    let kept = without_whitespace(&chars_of(s.as_str()));
    *s = string_of(&kept);
}

/// Bytes as upper-case hex text, the bytes separated by single spaces, as in
/// `DE AD BE EF`.
pub fn hex_to_str(data: &[u8]) -> (out: String)
    ensures
        out@ == spaced_upper_hex(data@),
{
    let mut out = String::new();
    let mut i: usize = 0;
    while i < data.len()
        invariant
            i <= data.len(),
            out@ == spaced_upper_hex(data@.take(i as int)),
        decreases data.len() - i,
    {
        let b = data[i];
        let ghost before = out@;
        if i > 0 {
            out.push(' ');
        }
        out.push(upper_digit(b / 16));
        out.push(upper_digit(b % 16));
        proof {
            let next = data@.take(i + 1);
            assert(next.drop_last() =~= data@.take(i as int));
            assert(next.last() == b);
            if i > 0 {
                assert(out@ =~= before.push(' ') + upper_hex_pair(b));
            } else {
                assert(out@ =~= upper_hex_pair(b));
            }
        }
        i += 1;
    }
    assert(data@.take(data@.len() as int) =~= data@);
    out
}

/// What a byte shows as: itself where it is printable ASCII, an underscore
/// otherwise.
pub open spec fn printable(b: u8) -> char {
    if 32 <= b && b <= 126 {
        b as char
    } else {
        '_'
    }
}

/// Bytes read as ASCII text, every byte that is not printable replaced by an
/// underscore.
pub fn bytes_to_string(bytes: &[u8]) -> (out: String)
    ensures
        out@ == bytes@.map_values(|b: u8| printable(b)),
{
    let mut out = String::new();
    let mut i: usize = 0;
    while i < bytes.len()
        invariant
            i <= bytes.len(),
            out@ == bytes@.take(i as int).map_values(|b: u8| printable(b)),
        decreases bytes.len() - i,
    {
        let b = bytes[i];
        if b >= 32 && b <= 126 {
            out.push(b as char);
        } else {
            out.push('_');
        }
        assert(bytes@.take(i + 1).map_values(|b: u8| printable(b)) =~= bytes@.take(
            i as int,
        ).map_values(|b: u8| printable(b)).push(printable(b)));
        i += 1;
    }
    assert(bytes@.take(bytes@.len() as int) =~= bytes@);
    out
}

/// `None` for an empty vector, the vector itself otherwise.
pub fn empty_vec_as_none<T>(vec: Vec<T>) -> (out: Option<Vec<T>>)
    ensures
        out == if vec@.len() == 0 {
            None
        } else {
            Some(vec)
        },
{
    if vec.is_empty() {
        None
    } else {
        Some(vec)
    }
}

/// `None` for an empty string, the string itself otherwise.
pub fn empty_str_as_none(s: String) -> (out: Option<String>)
    ensures
        out == if s@.len() == 0 {
            None
        } else {
            Some(s)
        },
{
    if s.as_str().is_empty() {
        None
    } else {
        Some(s)
    }
}

/// The bytes of an optional vector.
pub open spec fn opt_bytes(bytes: Option<Vec<u8>>) -> Option<Seq<u8>> {
    match bytes {
        Some(bytes) => Some(bytes@),
        None => None,
    }
}

/// The characters of an optional string.
pub open spec fn opt_text(text: Option<String>) -> Option<Seq<char>> {
    match text {
        Some(text) => Some(text@),
        None => None,
    }
}

/// Whether two byte strings are the same.
pub fn same_bytes(a: &[u8], b: &[u8]) -> (same: bool)
    ensures
        same == (a@ == b@),
{
    if a.len() != b.len() {
        return false;
    }
    let mut i: usize = 0;
    while i < a.len()
        invariant
            i <= a.len(),
            a.len() == b.len(),
            a@.take(i as int) == b@.take(i as int),
        decreases a.len() - i,
    {
        if a[i] != b[i] {
            return false;
        }
        assert(a@.take(i + 1) =~= a@.take(i as int).push(a@[i as int]));
        assert(b@.take(i + 1) =~= b@.take(i as int).push(b@[i as int]));
        i += 1;
    }
    assert(a@.take(a@.len() as int) =~= a@);
    assert(b@.take(b@.len() as int) =~= b@);
    true
}

/// A new vector with the same bytes.
pub fn copy_bytes(bytes: &[u8]) -> (out: Vec<u8>)
    ensures
        out@ == bytes@,
{
    let mut out: Vec<u8> = Vec::new();
    let mut i: usize = 0;
    while i < bytes.len()
        invariant
            i <= bytes.len(),
            out@ == bytes@.take(i as int),
        decreases bytes.len() - i,
    {
        out.push(bytes[i]);
        assert(bytes@.take(i + 1) =~= bytes@.take(i as int).push(bytes@[i as int]));
        i += 1;
    }
    assert(bytes@.take(bytes@.len() as int) =~= bytes@);
    out
}

} // verus!
