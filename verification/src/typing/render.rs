//! Positional rendering of integers as text: decimal, and upper-case
//! hexadecimal behind a `0x` prefix.

use vstd::prelude::*;

verus! {

/// The sixteen digit characters, indexed by their value.
pub open spec fn digit_table() -> Seq<char> {
    seq!['0', '1', '2', '3', '4', '5', '6', '7', '8', '9', 'A', 'B', 'C', 'D', 'E', 'F']
}

/// The character that stands for the digit value `d`, for `d < 16`.
pub open spec fn digit_char(d: nat) -> char
    recommends
        d < 16,
{
    digit_table()[d as int]
}

/// The digits of `n` in decimal, most significant first, without leading
/// zeros; zero is the single digit `0`.
pub open spec fn decimal_digits(n: nat) -> Seq<char>
    decreases n,
{
    if n < 10 {
        seq![digit_char(n)]
    } else {
        decimal_digits(n / 10).push(digit_char(n % 10))
    }
}

/// The digits of `n` in hexadecimal, most significant first, upper case,
/// without leading zeros; zero is the single digit `0`.
pub open spec fn hex_digits(n: nat) -> Seq<char>
    decreases n,
{
    if n < 16 {
        seq![digit_char(n)]
    } else {
        hex_digits(n / 16).push(digit_char(n % 16))
    }
}

/// Decimal text of a signed value: a minus sign before the digits of the
/// magnitude when the value is negative.
pub open spec fn decimal_text(v: int) -> Seq<char> {
    if v < 0 {
        seq!['-'] + decimal_digits((-v) as nat)
    } else {
        decimal_digits(v as nat)
    }
}

/// Hexadecimal text of an unsigned value: `0x`, then the upper-case digits.
pub open spec fn hex_text(n: nat) -> Seq<char> {
    seq!['0', 'x'] + hex_digits(n)
}

/// `String::push` of the standard library, which puts the character at the
/// end of the string and leaves what was there as it is.
pub assume_specification[ String::push ](s: &mut String, ch: char)
    ensures
        final(s)@ == old(s)@.push(ch),
;

fn digit(d: u8) -> (c: char)
    requires
        d < 16,
    ensures
        c == digit_char(d as nat),
{
    if d < 10 {
        (48u8 + d) as char
    } else {
        (55u8 + d) as char
    }
}

fn push_decimal_digits(out: &mut String, n: u64)
    ensures
        final(out)@ == old(out)@ + decimal_digits(n as nat),
    decreases n,
{
    if n >= 10 {
        push_decimal_digits(out, n / 10);
    }
    out.push(digit((n % 10) as u8));
}

fn push_hex_digits(out: &mut String, n: u64)
    ensures
        final(out)@ == old(out)@ + hex_digits(n as nat),
    decreases n,
{
    if n >= 16 {
        push_hex_digits(out, n / 16);
    }
    out.push(digit((n % 16) as u8));
}

/// Renders an unsigned value in decimal.
pub fn unsigned_string(n: u64) -> (s: String)
    ensures
        s@ == decimal_text(n as int),
{
    let mut s = String::new();
    push_decimal_digits(&mut s, n);
    s
}

/// Renders a signed value in decimal, with a leading minus sign when it is
/// negative.
pub fn signed_string(v: i64) -> (s: String)
    ensures
        s@ == decimal_text(v as int),
{
    let mut s = String::new();
    if v < 0 {
        s.push('-');
        let magnitude: u64 = ((-(v + 1)) as u64) + 1;
        push_decimal_digits(&mut s, magnitude);
    } else {
        push_decimal_digits(&mut s, v as u64);
    }
    s
}

/// Renders an unsigned value in upper-case hexadecimal behind `0x`.
pub fn hex_string(n: u64) -> (s: String)
    ensures
        s@ == hex_text(n as nat),
{
    let mut s = String::new();
    s.push('0');
    s.push('x');
    push_hex_digits(&mut s, n);
    s
}

} // verus!
