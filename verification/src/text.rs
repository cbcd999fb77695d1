//! Characters and strings: what counts as whitespace, and how text is
//! taken apart and put together.

use vstd::prelude::*;

verus! {

/// Whether a character outside ASCII has Unicode's `White_Space` property.
pub uninterp spec fn is_unicode_space(c: char) -> bool;

/// Whether a character is whitespace: in ASCII the space and the controls
/// from tab to carriage return, elsewhere what Unicode calls `White_Space`.
pub open spec fn is_space(c: char) -> bool {
    if (c as u32) < 0x80 {
        c == ' ' || (0x09 <= (c as u32) && (c as u32) <= 0x0d)
    } else {
        is_unicode_space(c)
    }
}

/// `char::is_whitespace` of std. Believed: in ASCII it holds of the space and
/// of U+0009 to U+000D and of nothing else; of any other character it is the
/// `White_Space` property, which is named and not spelled out.
pub assume_specification[ char::is_whitespace ](c: char) -> (b: bool)
    ensures
        b == (if (c as u32) < 0x80 {
            c == ' ' || (0x09 <= (c as u32) && (c as u32) <= 0x0d)
        } else {
            is_unicode_space(c)
        }),
;

/// `String::push` of std. Believed: the character is appended and nothing
/// else changes.
pub assume_specification[ String::push ](s: &mut String, c: char)
    ensures
        final(s)@ == old(s)@.push(c),
;

/// The text without its whitespace characters, the others in their order.
pub open spec fn strip_whitespace(s: Seq<char>) -> Seq<char> {
    s.filter(|c: char| !is_space(c))
}

/// One step of filtering: what the last character adds.
pub proof fn lemma_strip_whitespace_step(s: Seq<char>, i: int)
    requires
        0 <= i < s.len(),
    ensures
        strip_whitespace(s.take(i + 1)) == if is_space(s[i]) {
            strip_whitespace(s.take(i))
        } else {
            strip_whitespace(s.take(i)).push(s[i])
        },
{
    reveal(Seq::filter);
    assert(s.take(i + 1).drop_last() =~= s.take(i));
}

/// The characters of a string, one by one.
pub fn chars_of(s: &str) -> (out: Vec<char>)
    ensures
        out@ == s@,
{
    let mut out: Vec<char> = Vec::new();
    for c in it: s.chars()
        invariant
            it.seq() == s@,
            out@ == s@.take(it.index() as int),
    {
        out.push(c);
        assert(s@.take(it.index() + 1) =~= s@.take(it.index() as int).push(c));
    }
    assert(s@.take(s@.len() as int) =~= s@);
    out
}

/// A string made of the given characters.
pub fn string_of(chars: &Vec<char>) -> (out: String)
    ensures
        out@ == chars@,
{
    let mut out = String::new();
    let mut i: usize = 0;
    while i < chars.len()
        invariant
            i <= chars.len(),
            out@ == chars@.take(i as int),
        decreases chars.len() - i,
    {
        out.push(chars[i]);
        assert(chars@.take(i + 1) =~= chars@.take(i as int).push(chars@[i as int]));
        i += 1;
    }
    assert(chars@.take(chars@.len() as int) =~= chars@);
    out
}

/// The characters of `chars` that are not whitespace, in their order.
pub fn without_whitespace(chars: &Vec<char>) -> (out: Vec<char>)
    ensures
        out@ == strip_whitespace(chars@),
{
    let mut out: Vec<char> = Vec::new();
    let mut i: usize = 0;
    while i < chars.len()
        invariant
            i <= chars.len(),
            out@ == strip_whitespace(chars@.take(i as int)),
        decreases chars.len() - i,
    {
        let c = chars[i];
        proof {
            lemma_strip_whitespace_step(chars@, i as int);
        }
        if !c.is_whitespace() {
            out.push(c);
        }
        i += 1;
    }
    assert(chars@.take(chars@.len() as int) =~= chars@);
    out
}

/// A letter from `A` to `Z` as its lower-case letter, any other character
/// as itself.
pub open spec fn ascii_lower(c: char) -> char {
    if 'A' <= c && c <= 'Z' {
        ((c as u8) + 32) as char
    } else {
        c
    }
}

/// Whether two texts are equal once their ASCII letters are lower case.
pub open spec fn eq_ignore_case(a: Seq<char>, b: Seq<char>) -> bool {
    a.map_values(|c: char| ascii_lower(c)) == b.map_values(|c: char| ascii_lower(c))
}

/// A character with an ASCII capital letter made lower case.
pub fn to_ascii_lower(c: char) -> (out: char)
    ensures
        out == ascii_lower(c),
{
    if 'A' <= c && c <= 'Z' {
        ((c as u8) + 32) as char
    } else {
        c
    }
}

/// Compares two texts without regard to the case of ASCII letters.
pub fn chars_eq_ignore_case(a: &Vec<char>, b: &Vec<char>) -> (same: bool)
    ensures
        same == eq_ignore_case(a@, b@),
{
    if a.len() != b.len() {
        assert(a@.map_values(|c: char| ascii_lower(c)).len() != b@.map_values(
            |c: char| ascii_lower(c),
        ).len());
        return false;
    }
    let mut i: usize = 0;
    while i < a.len()
        invariant
            i <= a.len(),
            a.len() == b.len(),
            forall|j: int| 0 <= j < i ==> ascii_lower(a@[j]) == ascii_lower(b@[j]),
        decreases a.len() - i,
    {
        if to_ascii_lower(a[i]) != to_ascii_lower(b[i]) {
            assert(a@.map_values(|c: char| ascii_lower(c))[i as int] != b@.map_values(
                |c: char| ascii_lower(c),
            )[i as int]);
            return false;
        }
        i += 1;
    }
    assert(a@.map_values(|c: char| ascii_lower(c)) =~= b@.map_values(|c: char| ascii_lower(c)));
    true
}

} // verus!
