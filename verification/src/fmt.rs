//! Numbers as text.

use vstd::prelude::*;

verus! {

/// The character of one digit; digits above 9 are the letters from `a`.
pub open spec fn digit_char(d: nat) -> char {
    if d < 10 {
        (0x30 + d) as char
    } else {
        (0x57 + d) as char
    }
}

/// The digit that a character writes.
pub open spec fn digit_value(c: char) -> nat {
    (c as u32 - 0x30) as nat
}

/// `n` in decimal: its digits, most significant first, without leading zeros.
pub open spec fn decimal(n: nat) -> Seq<char>
    decreases n,
{
    if n < 10 {
        seq![digit_char(n)]
    } else {
        decimal(n / 10).push(digit_char(n % 10))
    }
}

/// `n` in hexadecimal with small letters, without leading zeros.
pub open spec fn hex(n: nat) -> Seq<char>
    decreases n,
{
    if n < 16 {
        seq![digit_char(n)]
    } else {
        hex(n / 16).push(digit_char(n % 16))
    }
}

/// `String::push` of std: appends one character.
#[verifier::external_body]
pub(crate) fn push_char(s: &mut String, c: char)
    ensures
        final(s)@ == old(s)@.push(c),
{
    s.push(c)
}

fn digit(d: u8) -> (c: char)
    requires
        d < 16,
    ensures
        c == digit_char(d as nat),
{
    if d < 10 {
        (0x30 + d) as char
    } else {
        (0x57 + d) as char
    }
}

/// Appends `x` in decimal.
pub fn push_decimal(out: &mut String, x: u64)
    ensures
        final(out)@ == old(out)@ + decimal(x as nat),
    decreases x,
{
    if x >= 10 {
        push_decimal(out, x / 10);
    }
    push_char(out, digit((x % 10) as u8));
    assert(out@ =~= old(out)@ + decimal(x as nat));
}

/// Appends `x` in hexadecimal.
pub fn push_hex(out: &mut String, x: u64)
    ensures
        final(out)@ == old(out)@ + hex(x as nat),
    decreases x,
{
    if x >= 16 {
        push_hex(out, x / 16);
    }
    push_char(out, digit((x % 16) as u8));
    assert(out@ =~= old(out)@ + hex(x as nat));
}

/// `x` in decimal.
pub fn decimal_string(x: u64) -> (s: String)
    ensures
        s@ == decimal(x as nat),
{
    let mut s = String::new();
    push_decimal(&mut s, x);
    assert(s@ =~= decimal(x as nat));
    s
}

} // verus!
