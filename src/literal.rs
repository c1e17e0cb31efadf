use vstd::prelude::*;

use crate::text::sub_chars;

verus! {

pub open spec fn is_digit(c: char) -> bool {
    '0' <= c && c <= '9'
}

pub open spec fn is_sign(c: char) -> bool {
    c == '+' || c == '-'
}

pub open spec fn is_exp_mark(c: char) -> bool {
    c == 'e' || c == 'E'
}

/// One or more ASCII digits.
pub open spec fn is_digits(d: Seq<char>) -> bool {
    d.len() > 0 && forall|i: int| 0 <= i < d.len() ==> is_digit(#[trigger] d[i])
}

/// The value of a run of ASCII digits, read in base ten.
pub open spec fn digits_value(d: Seq<char>) -> int
    decreases d.len(),
{
    if d.len() == 0 {
        0
    } else {
        10 * digits_value(d.drop_last()) + (d.last() as int - '0' as int)
    }
}

/// The integer that `s` writes: an optional `+` or `-`, then ASCII digits.
pub open spec fn int_literal_value(s: Seq<char>) -> Option<int> {
    if s.len() > 0 && s[0] == '-' && is_digits(s.skip(1)) {
        Some(-digits_value(s.skip(1)))
    } else if s.len() > 0 && s[0] == '+' && is_digits(s.skip(1)) {
        Some(digits_value(s.skip(1)))
    } else if is_digits(s) {
        Some(digits_value(s))
    } else {
        None
    }
}

/// The `i32` that `s` writes, when it writes an integer in range.
pub open spec fn i32_literal(s: Seq<char>) -> Option<i32> {
    match int_literal_value(s) {
        Some(v) => if i32::MIN <= v <= i32::MAX {
            Some(v as i32)
        } else {
            None
        },
        None => None,
    }
}

/// Relies on `str::parse::<i32>`: it accepts exactly an optional `+` or `-`
/// followed by one or more ASCII digits whose value fits in `i32`.
#[verifier::external_body]
fn parse_i32(s: &str) -> (r: Option<i32>)
    ensures
        r == i32_literal(s@),
{
    s.parse::<i32>().ok()
}

/// ASCII digits with at most one `.`, and at least one digit.
pub open spec fn is_mantissa(m: Seq<char>) -> bool {
    &&& forall|i: int| 0 <= i < m.len() ==> is_digit(#[trigger] m[i]) || m[i] == '.'
    &&& forall|i: int, j: int|
        0 <= i < m.len() && 0 <= j < m.len() && #[trigger] m[i] == '.' && #[trigger] m[j] == '.'
            ==> i == j
    &&& exists|i: int| 0 <= i < m.len() && is_digit(#[trigger] m[i])
}

/// What follows the `e` of an exponent: an optional sign, then digits.
pub open spec fn is_exponent_tail(x: Seq<char>) -> bool {
    is_digits(x) || (x.len() > 0 && is_sign(x[0]) && is_digits(x.skip(1)))
}

/// A decimal number with an optional exponent, without a sign.
pub open spec fn is_number(s: Seq<char>) -> bool {
    ||| (forall|i: int| 0 <= i < s.len() ==> !is_exp_mark(#[trigger] s[i])) && is_mantissa(s)
    ||| exists|p: int|
        0 <= p < s.len() && is_exp_mark(#[trigger] s[p]) && is_mantissa(s.take(p))
            && is_exponent_tail(s.skip(p + 1))
}

pub open spec fn ci(c: char, lower: char, upper: char) -> bool {
    c == lower || c == upper
}

/// `inf`, `infinity` or `nan`, in any case.
pub open spec fn is_special(s: Seq<char>) -> bool {
    ||| s.len() == 3 && ci(s[0], 'i', 'I') && ci(s[1], 'n', 'N') && ci(s[2], 'f', 'F')
    ||| s.len() == 8 && ci(s[0], 'i', 'I') && ci(s[1], 'n', 'N') && ci(s[2], 'f', 'F') && ci(
        s[3],
        'i',
        'I',
    ) && ci(s[4], 'n', 'N') && ci(s[5], 'i', 'I') && ci(s[6], 't', 'T') && ci(s[7], 'y', 'Y')
    ||| s.len() == 3 && ci(s[0], 'n', 'N') && ci(s[1], 'a', 'A') && ci(s[2], 'n', 'N')
}

/// A literal that Rust reads as an `f64`: an optional sign, then a decimal
/// number with an optional exponent, or `inf`, `infinity` or `nan` in any case.
pub open spec fn is_float_literal(s: Seq<char>) -> bool {
    if s.len() > 0 && is_sign(s[0]) {
        is_special(s.skip(1)) || is_number(s.skip(1))
    } else {
        is_special(s) || is_number(s)
    }
}

fn digit(c: char) -> (r: bool)
    ensures
        r == is_digit(c),
{
    '0' <= c && c <= '9'
}

fn all_digits(d: &Vec<char>) -> (r: bool)
    ensures
        r == is_digits(d@),
{
    if d.len() == 0 {
        return false;
    }
    let mut i: usize = 0;
    while i < d.len()
        invariant
            i <= d@.len(),
            forall|k: int| 0 <= k < i ==> is_digit(#[trigger] d@[k]),
        decreases d@.len() - i,
    {
        if !digit(d[i]) {
            return false;
        }
        i += 1;
    }
    true
}

fn mantissa(m: &Vec<char>) -> (r: bool)
    ensures
        r == is_mantissa(m@),
{
    let mut dot: Option<usize> = None;
    let mut seen_digit: Option<usize> = None;
    let mut i: usize = 0;
    while i < m.len()
        invariant
            i <= m@.len(),
            forall|k: int| 0 <= k < i ==> is_digit(#[trigger] m@[k]) || m@[k] == '.',
            match dot {
                Some(d) => d < i && m@[d as int] == '.' && forall|k: int|
                    0 <= k < i && #[trigger] m@[k] == '.' ==> k == d,
                None => forall|k: int| 0 <= k < i ==> #[trigger] m@[k] != '.',
            },
            match seen_digit {
                Some(d) => d < i && is_digit(m@[d as int]),
                None => forall|k: int| 0 <= k < i ==> !is_digit(#[trigger] m@[k]),
            },
        decreases m@.len() - i,
    {
        let c = m[i];
        if digit(c) {
            seen_digit = Some(i);
        } else if c == '.' {
            if let Some(d) = dot {
                assert(m@[d as int] == '.' && m@[i as int] == '.');
                return false;
            }
            dot = Some(i);
        } else {
            assert(!(is_digit(m@[i as int]) || m@[i as int] == '.'));
            return false;
        }
        i += 1;
    }
    match seen_digit {
        Some(d) => {
            assert(is_digit(m@[d as int]));
            true
        },
        None => false,
    }
}

fn exponent_tail(x: &Vec<char>) -> (r: bool)
    ensures
        r == is_exponent_tail(x@),
{
    if x.len() > 0 && (x[0] == '+' || x[0] == '-') {
        let rest = sub_chars(x, 1, x.len());
        assert(!is_digit(x@[0]));
        all_digits(&rest)
    } else {
        all_digits(x)
    }
}

fn number(s: &Vec<char>) -> (r: bool)
    ensures
        r == is_number(s@),
{
    let mut p: usize = 0;
    while p < s.len()
        invariant
            p <= s@.len(),
            forall|k: int| 0 <= k < p ==> !is_exp_mark(#[trigger] s@[k]),
        ensures
            p <= s@.len(),
            forall|k: int| 0 <= k < p ==> !is_exp_mark(#[trigger] s@[k]),
            p < s@.len() ==> is_exp_mark(s@[p as int]),
        decreases s@.len() - p,
    {
        if s[p] == 'e' || s[p] == 'E' {
            break;
        }
        p += 1;
    }
    if p == s.len() {
        mantissa(s)
    } else {
        let m = sub_chars(s, 0, p);
        let x = sub_chars(s, p + 1, s.len());
        assert(m@ =~= s@.take(p as int));
        assert(x@ =~= s@.skip(p + 1));
        let r = mantissa(&m) && exponent_tail(&x);
        assert(is_exp_mark(s@[p as int]));
        if !r {
            assert forall|q: int|
                0 <= q < s@.len() && is_exp_mark(#[trigger] s@[q]) && is_mantissa(s@.take(q))
                implies !is_exponent_tail(s@.skip(q + 1)) by {
                if q > p {
                    assert(s@.take(q)[p as int] == s@[p as int]);
                }
            }
        }
        r
    }
}

fn special(s: &Vec<char>) -> (r: bool)
    ensures
        r == is_special(s@),
{
    let n = s.len();
    (n == 3 && (s[0] == 'i' || s[0] == 'I') && (s[1] == 'n' || s[1] == 'N') && (s[2] == 'f' || s[2]
        == 'F')) || (n == 8 && (s[0] == 'i' || s[0] == 'I') && (s[1] == 'n' || s[1] == 'N') && (s[2]
        == 'f' || s[2] == 'F') && (s[3] == 'i' || s[3] == 'I') && (s[4] == 'n' || s[4] == 'N') && (
    s[5] == 'i' || s[5] == 'I') && (s[6] == 't' || s[6] == 'T') && (s[7] == 'y' || s[7] == 'Y')) || (
    n == 3 && (s[0] == 'n' || s[0] == 'N') && (s[1] == 'a' || s[1] == 'A') && (s[2] == 'n' || s[2]
        == 'N'))
}

/// Whether `s` is a literal that Rust reads as a 64-bit float.
pub fn float_literal(s: &Vec<char>) -> (r: bool)
    ensures
        r == is_float_literal(s@),
{
    if s.len() > 0 && (s[0] == '+' || s[0] == '-') {
        let rest = sub_chars(s, 1, s.len());
        assert(rest@ =~= s@.skip(1));
        special(&rest) || number(&rest)
    } else {
        special(s) || number(s)
    }
}

/// Whether `s` writes an `i32`, and which.
pub fn int_literal(s: &String) -> (r: Option<i32>)
    ensures
        r == i32_literal(s@),
{
    parse_i32(s.as_str())
}

} // verus!
