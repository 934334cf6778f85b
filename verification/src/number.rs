//! Reading numbers and truth values from text.

use vstd::prelude::*;
use crate::text::{same_text, to_chars};

verus! {

/// An ASCII decimal digit.
pub open spec fn is_digit(c: char) -> bool {
    '0' <= c && c <= '9'
}

/// The value of a decimal digit.
pub open spec fn digit_value(c: char) -> nat
    recommends
        is_digit(c),
{
    (c as u32 - '0' as u32) as nat
}

/// `s` is a non-empty string of decimal digits.
pub open spec fn is_digits(s: Seq<char>) -> bool {
    s.len() > 0 && forall|i: int| 0 <= i < s.len() ==> is_digit(#[trigger] s[i])
}

/// The number that a string of decimal digits writes.
pub open spec fn digits_value(s: Seq<char>) -> nat
    decreases s.len(),
{
    if s.len() == 0 {
        0
    } else {
        digits_value(s.drop_last()) * 10 + digit_value(s.last())
    }
}

/// The number that a string of decimal digits writes, if it is one and the
/// number is at most `max`.
pub open spec fn digits_at_most(digits: Seq<char>, max: u64) -> Option<u64> {
    if is_digits(digits) && digits_value(digits) <= max {
        Some(digits_value(digits) as u64)
    } else {
        None
    }
}

/// The number that `s` writes, if it writes one that is at most `max`: an
/// optional `+`, then decimal digits and nothing else. Where `minus_zero`
/// is set, a `-` may stand in place of the `+` before a zero.
pub open spec fn number(s: Seq<char>, max: u64, minus_zero: bool) -> Option<u64> {
    if s.len() > 0 && s[0] == '+' {
        digits_at_most(s.skip(1), max)
    } else if minus_zero && s.len() > 0 && s[0] == '-' {
        digits_at_most(s.skip(1), 0)
    } else {
        digits_at_most(s, max)
    }
}

/// The truth value that `s` writes: `true` or `false` and nothing else.
pub open spec fn truth(s: Seq<char>) -> Option<bool> {
    if s == "true"@ {
        Some(true)
    } else if s == "false"@ {
        Some(false)
    } else {
        None
    }
}

proof fn lemma_digits_grow(s: Seq<char>, n: int)
    requires
        0 <= n <= s.len(),
    ensures
        digits_value(s.take(n)) <= digits_value(s),
    decreases s.len() - n,
{
    if n < s.len() {
        lemma_digits_grow(s, n + 1);
        assert(s.take(n + 1).drop_last() =~= s.take(n));
        assert(digits_value(s.take(n + 1)) == digits_value(s.take(n)) * 10 + digit_value(
            s.take(n + 1).last(),
        ));
    } else {
        assert(s.take(n) =~= s);
    }
}

pub(crate) fn parse_digits(chars: &Vec<char>, start: usize, max: u64) -> (r: Option<u64>)
    requires
        start <= chars@.len(),
    ensures
        r == digits_at_most(chars@.skip(start as int), max),
{
    let n = chars.len();
    let ghost digits = chars@.skip(start as int);
    if start == n {
        return None;
    }
    let mut value: u64 = 0;
    let mut i: usize = start;
    while i < n
        invariant
            n == chars@.len(),
            digits == chars@.skip(start as int),
            start <= i <= n,
            start < n,
            forall|k: int| 0 <= k < i - start ==> is_digit(#[trigger] digits[k]),
            value == digits_value(digits.take(i - start)),
            value <= max,
        decreases n - i,
    {
        let c = chars[i];
        assert(digits[i - start] == c);
        if c < '0' || c > '9' {
            assert(!is_digit(digits[i - start]));
            return None;
        }
        let d: u64 = (c as u32 - '0' as u32) as u64;
        proof {
            assert(digits.take(i - start + 1).drop_last() =~= digits.take(i - start));
            assert(digits.take(i - start + 1).last() == c);
            assert(digits_value(digits.take(i - start + 1)) == value * 10 + d);
            lemma_digits_grow(digits, i - start + 1);
        }
        if d > max || value > (max - d) / 10 {
            assert(value * 10 + d > max) by (nonlinear_arith)
                requires
                    d > max || value > (max - d) / 10,
                    0 <= value,
                    0 <= d <= 9,
            ;
            return None;
        }
        assert(value * 10 + d <= max) by (nonlinear_arith)
            requires
                value <= (max - d) / 10,
                d <= max,
        ;
        value = value * 10 + d;
        i += 1;
    }
    assert(digits.take(n - start) =~= digits);
    assert(is_digits(digits));
    Some(value)
}

/// Reads a number that is at most `max`.
pub fn parse_number(s: &str, max: u64, minus_zero: bool) -> (r: Option<u64>)
    ensures
        r == number(s@, max, minus_zero),
        r matches Some(n) ==> n <= max,
{
    let chars = to_chars(s);
    assert(chars@.skip(0) =~= chars@);
    if chars.len() > 0 && chars[0] == '+' {
        parse_digits(&chars, 1, max)
    } else if minus_zero && chars.len() > 0 && chars[0] == '-' {
        parse_digits(&chars, 1, 0)
    } else {
        parse_digits(&chars, 0, max)
    }
}

/// Reads a truth value.
pub fn parse_truth(s: &str) -> (r: Option<bool>)
    ensures
        r == truth(s@),
{
    if same_text(s, "true") {
        Some(true)
    } else if same_text(s, "false") {
        Some(false)
    } else {
        None
    }
}

} // verus!
