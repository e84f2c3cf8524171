//! Sizes in bytes as short text, counted in units of 1024.
//!
//! The size is taken as the double-precision number nearest to it, divided
//! by 1024 until it is below 1024 or the largest unit is reached, and shown
//! with one decimal; below 1024 it is shown as it is. All of it is stated
//! and computed on integers.

use crate::fmt::{decimal, digit_char, push_char, push_decimal};
use vstd::prelude::*;

verus! {

/// The distance between neighbouring double-precision numbers at `x`.
pub open spec fn spacing(x: nat) -> nat {
    if x < 0x20_0000_0000_0000 {
        1
    } else if x < 0x40_0000_0000_0000 {
        2
    } else if x < 0x80_0000_0000_0000 {
        4
    } else if x < 0x100_0000_0000_0000 {
        8
    } else if x < 0x200_0000_0000_0000 {
        16
    } else if x < 0x400_0000_0000_0000 {
        32
    } else if x < 0x800_0000_0000_0000 {
        64
    } else if x < 0x1000_0000_0000_0000 {
        128
    } else if x < 0x2000_0000_0000_0000 {
        256
    } else if x < 0x4000_0000_0000_0000 {
        512
    } else if x < 0x8000_0000_0000_0000 {
        1024
    } else {
        2048
    }
}

/// `x / unit`, rounded to the nearest integer, and to the even one of two
/// that are equally near.
pub open spec fn div_round_even(x: nat, unit: nat) -> nat {
    let q = x / unit;
    let r = x % unit;
    if 2 * r > unit || (2 * r == unit && q % 2 == 1) {
        q + 1
    } else {
        q
    }
}

/// The double-precision number nearest to `x`.
pub open spec fn nearest_double(x: nat) -> nat {
    div_round_even(x, spacing(x)) * spacing(x)
}

/// The unit in which a size of `r` bytes is shown: the largest power of
/// 1024 that is not above it, up to 1024^6.
pub open spec fn unit_size(r: nat) -> nat {
    if r < 0x400 {
        0x1
    } else if r < 0x10_0000 {
        0x400
    } else if r < 0x4000_0000 {
        0x10_0000
    } else if r < 0x100_0000_0000 {
        0x4000_0000
    } else if r < 0x4_0000_0000_0000 {
        0x100_0000_0000
    } else if r < 0x1000_0000_0000_0000 {
        0x4_0000_0000_0000
    } else {
        0x1000_0000_0000_0000
    }
}

/// The place of that unit among `B K M G T P E`.
pub open spec fn unit_index(r: nat) -> nat {
    if r < 0x400 {
        0
    } else if r < 0x10_0000 {
        1
    } else if r < 0x4000_0000 {
        2
    } else if r < 0x100_0000_0000 {
        3
    } else if r < 0x4_0000_0000_0000 {
        4
    } else if r < 0x1000_0000_0000_0000 {
        5
    } else {
        6
    }
}

/// The letter of a unit.
pub open spec fn unit_letter(index: nat) -> char {
    if index == 0 {
        'B'
    } else if index == 1 {
        'K'
    } else if index == 2 {
        'M'
    } else if index == 3 {
        'G'
    } else if index == 4 {
        'T'
    } else if index == 5 {
        'P'
    } else {
        'E'
    }
}

/// A size as text: below 1024 the number and `B`; else the number of units
/// with one decimal, rounded to the nearest tenth and to the even one of
/// two that are equally near, and the letter of the unit.
pub open spec fn spec_human_size(bytes: u64) -> Seq<char> {
    let r = nearest_double(bytes as nat);
    if unit_index(r) == 0 {
        decimal(r).push('B')
    } else {
        let tenths = div_round_even(r * 10, unit_size(r));
        (decimal(tenths / 10).push('.') + seq![digit_char(tenths % 10)]).push(
            unit_letter(unit_index(r)),
        )
    }
}

fn spacing_of(x: u64) -> (u: u64)
    ensures
        u == spacing(x as nat),
        1 <= u <= 2048,
{
    if x < 0x20_0000_0000_0000 {
        1
    } else if x < 0x40_0000_0000_0000 {
        2
    } else if x < 0x80_0000_0000_0000 {
        4
    } else if x < 0x100_0000_0000_0000 {
        8
    } else if x < 0x200_0000_0000_0000 {
        16
    } else if x < 0x400_0000_0000_0000 {
        32
    } else if x < 0x800_0000_0000_0000 {
        64
    } else if x < 0x1000_0000_0000_0000 {
        128
    } else if x < 0x2000_0000_0000_0000 {
        256
    } else if x < 0x4000_0000_0000_0000 {
        512
    } else if x < 0x8000_0000_0000_0000 {
        1024
    } else {
        2048
    }
}

fn unit_size_of(r: u128) -> (u: u128)
    ensures
        u == unit_size(r as nat),
        1 <= u <= 0x1000_0000_0000_0000,
{
    if r < 0x400 {
        0x1
    } else if r < 0x10_0000 {
        0x400
    } else if r < 0x4000_0000 {
        0x10_0000
    } else if r < 0x100_0000_0000 {
        0x4000_0000
    } else if r < 0x4_0000_0000_0000 {
        0x100_0000_0000
    } else if r < 0x1000_0000_0000_0000 {
        0x4_0000_0000_0000
    } else {
        0x1000_0000_0000_0000
    }
}

fn unit_index_of(r: u128) -> (i: u8)
    ensures
        i == unit_index(r as nat),
        i <= 6,
{
    if r < 0x400 {
        0
    } else if r < 0x10_0000 {
        1
    } else if r < 0x4000_0000 {
        2
    } else if r < 0x100_0000_0000 {
        3
    } else if r < 0x4_0000_0000_0000 {
        4
    } else if r < 0x1000_0000_0000_0000 {
        5
    } else {
        6
    }
}

fn letter(index: u8) -> (c: char)
    ensures
        c == unit_letter(index as nat),
{
    if index == 0 {
        'B'
    } else if index == 1 {
        'K'
    } else if index == 2 {
        'M'
    } else if index == 3 {
        'G'
    } else if index == 4 {
        'T'
    } else if index == 5 {
        'P'
    } else {
        'E'
    }
}

fn round_even(x: u128, unit: u128) -> (q: u128)
    requires
        1 <= unit <= 0x1000_0000_0000_0000,
        x <= 0xffff_ffff_ffff_ffff_ffff,
    ensures
        q == div_round_even(x as nat, unit as nat),
        q <= x + 1,
{
    let q: u128 = x / unit;
    let r: u128 = x % unit;
    proof {
        assert(x / unit <= x) by (nonlinear_arith)
            requires
                unit >= 1,
                x >= 0,
        ;
    }
    if 2 * r > unit || (2 * r == unit && q % 2 == 1) {
        q + 1
    } else {
        q
    }
}

/// Shows a size in bytes in units of 1024.
pub fn human_size(bytes: u64) -> (s: String)
    ensures
        s@ == spec_human_size(bytes),
{
    let unit: u64 = spacing_of(bytes);
    let q: u128 = round_even(bytes as u128, unit as u128);
    proof {
        assert(q * (unit as u128) <= 0x1_0000_0000_0000_0800) by (nonlinear_arith)
            requires
                q <= bytes + 1,
                bytes <= 0xffff_ffff_ffff_ffff,
                1 <= unit <= 2048,
                q == div_round_even(bytes as nat, unit as nat),
        {
            assert((bytes as nat / unit as nat) * unit as nat <= bytes as nat);
        }
    }
    let r: u128 = q * (unit as u128);
    let index: u8 = unit_index_of(r);
    let mut out = String::new();
    if index == 0 {
        push_decimal(&mut out, r as u64);
        push_char(&mut out, 'B');
        assert(out@ =~= spec_human_size(bytes));
        return out;
    }
    let scale: u128 = unit_size_of(r);
    let tenths: u128 = round_even(r * 10, scale);
    proof {
        assert(tenths / 10 <= 0xffff_ffff_ffff_ffff);
    }
    push_decimal(&mut out, (tenths / 10) as u64);
    push_char(&mut out, '.');
    push_char(&mut out, (0x30u8 + (tenths % 10) as u8) as char);
    push_char(&mut out, letter(index));
    assert(out@ =~= spec_human_size(bytes));
    out
}

} // verus!
