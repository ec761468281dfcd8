//! Building text: characters, decimal and hexadecimal numerals.
use vstd::prelude::*;

verus! {

/// Relies on `String::push`: appends one character.
#[verifier::external_body]
pub(crate) fn push_char(s: &mut String, c: char)
    ensures
        final(s)@ == old(s)@.push(c),
{
    s.push(c)
}

/// The character of a digit below sixteen, lowercase past nine.
pub open spec fn digit_char(d: nat) -> char {
    if d < 10 {
        (48 + d) as char
    } else {
        (87 + d) as char
    }
}

/// The decimal numeral of `n`, without leading zeros.
pub open spec fn decimal(n: nat) -> Seq<char>
    decreases n,
{
    if n < 10 {
        seq![digit_char(n)]
    } else {
        decimal(n / 10).push(digit_char(n % 10))
    }
}

/// The decimal numeral of `v`, with a minus sign when negative.
pub open spec fn int_text(v: int) -> Seq<char> {
    if v < 0 {
        seq!['-'] + decimal((-v) as nat)
    } else {
        decimal(v as nat)
    }
}

/// The `n` lowest hexadecimal digits of `v`, lowercase, zero-padded.
pub open spec fn hex_text(v: nat, n: nat) -> Seq<char>
    decreases n,
{
    if n == 0 {
        seq![]
    } else {
        hex_text(v / 16, (n - 1) as nat).push(digit_char(v % 16))
    }
}

/// The hexadecimal numeral of `v`, lowercase, without leading zeros.
pub open spec fn hex_min(v: nat) -> Seq<char>
    decreases v,
{
    if v < 16 {
        seq![digit_char(v)]
    } else {
        hex_min(v / 16).push(digit_char(v % 16))
    }
}

fn push_digit(out: &mut String, d: u8)
    requires
        d < 16,
    ensures
        final(out)@ == old(out)@.push(digit_char(d as nat)),
{
    let c: char = if d < 10 { (48 + d) as char } else { (87 + d) as char };
    push_char(out, c);
}

/// Appends the decimal numeral of `n`.
pub fn push_decimal(out: &mut String, n: u64)
    ensures
        final(out)@ == old(out)@ + decimal(n as nat),
    decreases n,
{
    if n >= 10 {
        push_decimal(out, n / 10);
        push_digit(out, (n % 10) as u8);
    } else {
        push_digit(out, n as u8);
    }
    assert(final(out)@ =~= old(out)@ + decimal(n as nat));
}

/// Appends the decimal numeral of `v`, with a minus sign when negative.
pub fn push_int(out: &mut String, v: i64)
    ensures
        final(out)@ == old(out)@ + int_text(v as int),
{
    if v < 0 {
        push_char(out, '-');
        let m: u64 = if v == i64::MIN { 0x8000_0000_0000_0000 } else { (-v) as u64 };
        push_decimal(out, m);
    } else {
        push_decimal(out, v as u64);
    }
    assert(final(out)@ =~= old(out)@ + int_text(v as int));
}

/// Appends the hexadecimal numeral of `v`, without leading zeros.
pub fn push_digit_min(out: &mut String, v: u64)
    ensures
        final(out)@ == old(out)@ + hex_min(v as nat),
    decreases v,
{
    if v >= 16 {
        push_digit_min(out, v / 16);
        push_digit(out, (v % 16) as u8);
    } else {
        push_digit(out, v as u8);
    }
    assert(final(out)@ =~= old(out)@ + hex_min(v as nat));
}

/// Appends the `n` lowest hexadecimal digits of `v`.
pub fn push_hex(out: &mut String, v: u64, n: usize)
    ensures
        final(out)@ == old(out)@ + hex_text(v as nat, n as nat),
    decreases n,
{
    if n > 0 {
        push_hex(out, v / 16, n - 1);
        push_digit(out, (v % 16) as u8);
    }
    assert(final(out)@ =~= old(out)@ + hex_text(v as nat, n as nat));
}

} // verus!
