//! The flag byte F: bit 7 zero, bit 6 subtract, bit 5 half-carry, bit 4 carry.
//! Bits 0 to 3 hold no flag: every write to a flag clears them.

use vstd::prelude::*;

verus! {

pub const F_ZERO_SET: u8 = 0x80;

pub const F_ADD_SUB_SET: u8 = 0x40;

pub const F_HALF_CARRY_SET: u8 = 0x20;

pub const F_CARRY_SET: u8 = 0x10;

pub const F_ZERO_CLR: u8 = 0x7f;

pub const F_ADD_SUB_CLR: u8 = 0xbf;

pub const F_HALF_CARRY_CLR: u8 = 0xdf;

pub const F_CARRY_CLR: u8 = 0xef;

/// The four bits of F that hold flags.
pub const F_FLAG_MASK: u8 = 0xf0;

pub open spec fn zero_flag(f: u8) -> bool {
    f & F_ZERO_SET > 0
}

pub open spec fn add_sub_flag(f: u8) -> bool {
    f & F_ADD_SUB_SET > 0
}

pub open spec fn half_carry_flag(f: u8) -> bool {
    f & F_HALF_CARRY_SET > 0
}

pub open spec fn carry_flag(f: u8) -> bool {
    f & F_CARRY_SET > 0
}

/// F with the zero flag set or cleared, and its lower half cleared.
pub open spec fn with_zero(f: u8, on: bool) -> u8 {
    if on {
        (f | F_ZERO_SET) & F_FLAG_MASK
    } else {
        (f & F_ZERO_CLR) & F_FLAG_MASK
    }
}

/// F with the subtract flag set or cleared, and its lower half cleared.
pub open spec fn with_add_sub(f: u8, on: bool) -> u8 {
    if on {
        (f | F_ADD_SUB_SET) & F_FLAG_MASK
    } else {
        (f & F_ADD_SUB_CLR) & F_FLAG_MASK
    }
}

/// F with the half-carry flag set or cleared, and its lower half cleared.
pub open spec fn with_half_carry(f: u8, on: bool) -> u8 {
    if on {
        (f | F_HALF_CARRY_SET) & F_FLAG_MASK
    } else {
        (f & F_HALF_CARRY_CLR) & F_FLAG_MASK
    }
}

/// F with the carry flag set or cleared, and its lower half cleared.
pub open spec fn with_carry(f: u8, on: bool) -> u8 {
    if on {
        (f | F_CARRY_SET) & F_FLAG_MASK
    } else {
        (f & F_CARRY_CLR) & F_FLAG_MASK
    }
}

/// Writing the zero flag changes that flag, keeps the other three, and leaves
/// the lower half of F at 0.
pub proof fn lemma_with_zero(f: u8, on: bool)
    by (bit_vector)
    ensures
        zero_flag(with_zero(f, on)) == on,
        add_sub_flag(with_zero(f, on)) == add_sub_flag(f),
        half_carry_flag(with_zero(f, on)) == half_carry_flag(f),
        carry_flag(with_zero(f, on)) == carry_flag(f),
        with_zero(f, on) & 0x0f == 0,
{
}

/// Writing the subtract flag changes that flag, keeps the other three, and leaves
/// the lower half of F at 0.
pub proof fn lemma_with_add_sub(f: u8, on: bool)
    by (bit_vector)
    ensures
        zero_flag(with_add_sub(f, on)) == zero_flag(f),
        add_sub_flag(with_add_sub(f, on)) == on,
        half_carry_flag(with_add_sub(f, on)) == half_carry_flag(f),
        carry_flag(with_add_sub(f, on)) == carry_flag(f),
        with_add_sub(f, on) & 0x0f == 0,
{
}

/// Writing the half-carry flag changes that flag, keeps the other three, and leaves
/// the lower half of F at 0.
pub proof fn lemma_with_half_carry(f: u8, on: bool)
    by (bit_vector)
    ensures
        zero_flag(with_half_carry(f, on)) == zero_flag(f),
        add_sub_flag(with_half_carry(f, on)) == add_sub_flag(f),
        half_carry_flag(with_half_carry(f, on)) == on,
        carry_flag(with_half_carry(f, on)) == carry_flag(f),
        with_half_carry(f, on) & 0x0f == 0,
{
}

/// Writing the carry flag changes that flag, keeps the other three, and leaves
/// the lower half of F at 0.
pub proof fn lemma_with_carry(f: u8, on: bool)
    by (bit_vector)
    ensures
        zero_flag(with_carry(f, on)) == zero_flag(f),
        add_sub_flag(with_carry(f, on)) == add_sub_flag(f),
        half_carry_flag(with_carry(f, on)) == half_carry_flag(f),
        carry_flag(with_carry(f, on)) == on,
        with_carry(f, on) & 0x0f == 0,
{
}

} // verus!
