//! Which texts are decimal numbers.
//!
//! A number is an optional sign and then one of the words `inf`, `infinity`
//! and `nan`, in any mix of cases, or digits with at most one point among
//! them and at least one digit, which an exponent may follow: the letter `e`
//! of either case, an optional sign, and at least one digit.

use vstd::prelude::*;
use crate::text::{chars_eq_ignore_case, eq_ignore_case};

verus! {

/// Whether `c` is one of `0` to `9`.
pub open spec fn is_digit(c: char) -> bool {
    '0' <= c && c <= '9'
}

/// How many digits the text begins with.
pub open spec fn leading_digits(text: Seq<char>) -> nat
    decreases text.len(),
{
    if text.len() > 0 && is_digit(text[0]) {
        1 + leading_digits(text.skip(1))
    } else {
        0
    }
}

/// The text without its sign, where it begins with one.
pub open spec fn skip_sign(text: Seq<char>) -> Seq<char> {
    if text.len() > 0 && (text[0] == '+' || text[0] == '-') {
        text.skip(1)
    } else {
        text
    }
}

/// Whether the text is an exponent: `e` or `E`, an optional sign, and
/// digits, at least one, to the end.
pub open spec fn is_exponent(text: Seq<char>) -> bool {
    &&& text.len() > 0
    &&& (text[0] == 'e' || text[0] == 'E')
    &&& skip_sign(text.skip(1)).len() > 0
    &&& leading_digits(skip_sign(text.skip(1))) == skip_sign(text.skip(1)).len()
}

/// What follows the digits after a point, where the text begins with a
/// point; else the text itself.
pub open spec fn skip_fraction(text: Seq<char>) -> Seq<char> {
    if text.len() > 0 && text[0] == '.' {
        text.skip(1 + leading_digits(text.skip(1)) as int)
    } else {
        text
    }
}

/// How many digits follow the point, where the text begins with a point;
/// else none.
pub open spec fn fraction_digits(text: Seq<char>) -> nat {
    if text.len() > 0 && text[0] == '.' {
        leading_digits(text.skip(1))
    } else {
        0
    }
}

/// Whether the text is digits with at most one point among them and at
/// least one digit, with or without an exponent after them.
pub open spec fn is_decimal(text: Seq<char>) -> bool {
    let whole = leading_digits(text);
    let rest = text.skip(whole as int);
    &&& whole + fraction_digits(rest) > 0
    &&& skip_fraction(rest).len() == 0 || is_exponent(skip_fraction(rest))
}

/// Whether the text is a number.
pub open spec fn is_number(text: Seq<char>) -> bool {
    let body = skip_sign(text);
    ||| eq_ignore_case(body, seq!['i', 'n', 'f'])
    ||| eq_ignore_case(body, seq!['i', 'n', 'f', 'i', 'n', 'i', 't', 'y'])
    ||| eq_ignore_case(body, seq!['n', 'a', 'n'])
    ||| is_decimal(body)
}

/// The digits from position `from` on: as many as there are at `from + k`,
/// and `k` more, where the `k` characters from `from` on are digits.
proof fn lemma_leading_digits_run(text: Seq<char>, from: int, k: int)
    requires
        0 <= from,
        0 <= k,
        from + k <= text.len(),
        forall|j: int| from <= j < from + k ==> is_digit(text[j]),
    ensures
        leading_digits(text.skip(from)) == k + leading_digits(text.skip(from + k)),
    decreases k,
{
    if k > 0 {
        assert(text.skip(from)[0] == text[from]);
        assert(text.skip(from).skip(1) =~= text.skip(from + 1));
        lemma_leading_digits_run(text, from + 1, k - 1);
    }
}

/// How many digits stand in `chars` from position `from` on.
fn count_digits(chars: &Vec<char>, from: usize) -> (count: usize)
    requires
        from <= chars.len(),
    ensures
        count == leading_digits(chars@.skip(from as int)),
        from + count <= chars.len(),
{
    let mut count: usize = 0;
    while from + count < chars.len() && '0' <= chars[from + count] && chars[from + count] <= '9'
        invariant
            from + count <= chars.len(),
            forall|j: int| from <= j < from + count ==> is_digit(chars@[j]),
        decreases chars.len() - count,
    {
        count += 1;
    }
    proof {
        lemma_leading_digits_run(chars@, from as int, count as int);
        let rest = chars@.skip(from + count);
        if rest.len() > 0 {
            assert(rest[0] == chars@[from + count]);
        }
    }
    count
}

/// The position after the sign at `from`, where there is one; else `from`.
fn after_sign(chars: &Vec<char>, from: usize) -> (next: usize)
    requires
        from <= chars.len(),
    ensures
        from <= next <= chars.len(),
        chars@.skip(next as int) == skip_sign(chars@.skip(from as int)),
{
    if from < chars.len() && (chars[from] == '+' || chars[from] == '-') {
        assert(chars@.skip(from as int)[0] == chars@[from as int]);
        assert(chars@.skip(from as int).skip(1) =~= chars@.skip(from + 1));
        from + 1
    } else {
        if from < chars.len() {
            assert(chars@.skip(from as int)[0] == chars@[from as int]);
        }
        from
    }
}

/// Whether an exponent stands in `chars` from position `from` to the end.
fn exponent_at(chars: &Vec<char>, from: usize) -> (out: bool)
    requires
        from <= chars.len(),
    ensures
        out == is_exponent(chars@.skip(from as int)),
{
    if from == chars.len() {
        return false;
    }
    assert(chars@.skip(from as int)[0] == chars@[from as int]);
    assert(chars@.skip(from as int).skip(1) =~= chars@.skip(from + 1));
    if !(chars[from] == 'e' || chars[from] == 'E') {
        return false;
    }
    let digits = after_sign(chars, from + 1);
    let count = count_digits(chars, digits);
    count > 0 && digits + count == chars.len()
}

/// Whether a decimal stands in `chars` from position `from` to the end.
fn decimal_at(chars: &Vec<char>, from: usize) -> (out: bool)
    requires
        from <= chars.len(),
    ensures
        out == is_decimal(chars@.skip(from as int)),
{
    let ghost text = chars@.skip(from as int);
    let whole = count_digits(chars, from);
    let point: usize = from + whole;
    assert(text.skip(whole as int) =~= chars@.skip(point as int));
    let ghost rest = chars@.skip(point as int);
    if point < chars.len() && chars[point] == '.' {
        assert(rest[0] == chars@[point as int]);
        assert(rest.skip(1) =~= chars@.skip(point + 1));
        let fraction = count_digits(chars, point + 1);
        let tail: usize = point + 1 + fraction;
        assert(rest.skip(1 + fraction) =~= chars@.skip(tail as int));
        whole + fraction > 0 && (tail == chars.len() || exponent_at(chars, tail))
    } else {
        if point < chars.len() {
            assert(rest[0] == chars@[point as int]);
        }
        whole > 0 && (point == chars.len() || exponent_at(chars, point))
    }
}

/// Whether the characters are a number.
pub fn is_number_text(chars: &Vec<char>) -> (out: bool)
    ensures
        out == is_number(chars@),
{
    let start = after_sign(chars, 0);
    assert(chars@.skip(0) =~= chars@);
    let mut body: Vec<char> = Vec::new();
    let mut i: usize = start;
    while i < chars.len()
        invariant
            start <= i <= chars.len(),
            body@ == chars@.subrange(start as int, i as int),
        decreases chars.len() - i,
    {
        body.push(chars[i]);
        assert(chars@.subrange(start as int, i + 1) =~= chars@.subrange(start as int, i as int).push(
            chars@[i as int],
        ));
        i += 1;
    }
    assert(body@ =~= chars@.skip(start as int));
    let inf: Vec<char> = vec!['i', 'n', 'f'];
    let infinity: Vec<char> = vec!['i', 'n', 'f', 'i', 'n', 'i', 't', 'y'];
    let nan: Vec<char> = vec!['n', 'a', 'n'];
    assert(inf@ =~= seq!['i', 'n', 'f']);
    assert(infinity@ =~= seq!['i', 'n', 'f', 'i', 'n', 'i', 't', 'y']);
    assert(nan@ =~= seq!['n', 'a', 'n']);
    chars_eq_ignore_case(&body, &inf) || chars_eq_ignore_case(&body, &infinity)
        || chars_eq_ignore_case(&body, &nan) || decimal_at(chars, start)
}

} // verus!
