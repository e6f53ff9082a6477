//! Canonical decimal text of integers.

use vstd::prelude::*;

verus! {

/// The character that stands for one decimal digit.
pub open spec fn digit_char(d: nat) -> char {
    if d == 0 {
        '0'
    } else if d == 1 {
        '1'
    } else if d == 2 {
        '2'
    } else if d == 3 {
        '3'
    } else if d == 4 {
        '4'
    } else if d == 5 {
        '5'
    } else if d == 6 {
        '6'
    } else if d == 7 {
        '7'
    } else if d == 8 {
        '8'
    } else {
        '9'
    }
}

/// The digits of a natural number in base ten, most significant first, with
/// no leading zero (zero itself is the single digit `0`).
pub open spec fn decimal_digits(n: nat) -> Seq<char>
    decreases n,
{
    if n < 10 {
        seq![digit_char(n)]
    } else {
        decimal_digits(n / 10).push(digit_char(n % 10))
    }
}

/// The canonical decimal text of an integer: its digits, after a minus sign
/// when it is negative.
pub open spec fn decimal(n: int) -> Seq<char> {
    if n < 0 {
        seq!['-'] + decimal_digits((-n) as nat)
    } else {
        decimal_digits(n as nat)
    }
}

/// The character of a digit below ten.
fn digit_of(d: u8) -> (c: char)
    requires
        d < 10,
    ensures
        c == digit_char(d as nat),
{
    if d == 0 {
        '0'
    } else if d == 1 {
        '1'
    } else if d == 2 {
        '2'
    } else if d == 3 {
        '3'
    } else if d == 4 {
        '4'
    } else if d == 5 {
        '5'
    } else if d == 6 {
        '6'
    } else if d == 7 {
        '7'
    } else if d == 8 {
        '8'
    } else {
        '9'
    }
}

/// Appends the decimal digits of `n` to `out`.
pub fn push_decimal_digits(out: &mut Vec<char>, n: u64)
    ensures
        final(out)@ == old(out)@ + decimal_digits(n as nat),
    decreases n,
{
    if n >= 10 {
        push_decimal_digits(out, n / 10);
    }
    out.push(digit_of((n % 10) as u8));
}

/// The decimal digits of `n`.
pub fn unsigned_text(n: u64) -> (chars: Vec<char>)
    ensures
        chars@ == decimal(n as int),
{
    let mut chars: Vec<char> = Vec::new();
    push_decimal_digits(&mut chars, n);
    assert(chars@ =~= decimal_digits(n as nat));
    chars
}

/// The decimal text of `n`: a minus sign before the digits of a negative
/// number.
pub fn signed_text(n: i64) -> (chars: Vec<char>)
    ensures
        chars@ == decimal(n as int),
{
    if n < 0 {
        let wide: i128 = n as i128;
        let magnitude: u64 = (-wide) as u64;
        let mut chars: Vec<char> = Vec::new();
        chars.push('-');
        push_decimal_digits(&mut chars, magnitude);
        assert(chars@ =~= seq!['-'] + decimal_digits(magnitude as nat));
        chars
    } else {
        unsigned_text(n as u64)
    }
}

} // verus!
