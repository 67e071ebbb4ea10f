//! What the arithmetic unit computes from bytes, apart from any machine state:
//! carries out of bit 3, 7, 11 and 15, and the results of rotates and shifts.

use vstd::prelude::*;
use crate::bits::wrap8;

verus! {

/// Carry out of bit 7 of `a + b + carry`.
pub open spec fn carry_add(a: u8, b: u8, carry: u8) -> bool {
    a + b + carry > 0xff
}

/// Borrow into bit 7 of `a - b - carry`.
pub open spec fn carry_sub(a: u8, b: u8, carry: u8) -> bool {
    a - b - carry < 0
}

/// Carry out of bit 3 of `a + b + carry`.
pub open spec fn half_carry_add(a: u8, b: u8, carry: u8) -> bool {
    (a & 0xf) + (b & 0xf) + carry > 0xf
}

/// Borrow into bit 3 of `a - b - carry`.
pub open spec fn half_carry_sub(a: u8, b: u8, carry: u8) -> bool {
    (a & 0xf) - (b & 0xf) - carry < 0
}

/// Carry out of bit 15 of `a + b`.
pub open spec fn carry_add16(a: u16, b: u16) -> bool {
    a + b > 0xffff
}

/// Carry out of bit 11 of `a + b`.
pub open spec fn half_carry_add16(a: u16, b: u16) -> bool {
    (a & 0xfff) + (b & 0xfff) > 0xfff
}

/// `a + b + carry` in eight bits.
pub open spec fn sum8(a: u8, b: u8, carry: u8) -> u8 {
    wrap8(a + b + carry)
}

/// `a - b - carry` in eight bits.
pub open spec fn difference8(a: u8, b: u8, carry: u8) -> u8 {
    wrap8(a - b - carry)
}

/// Whether bit 7 is set: the bit that a shift to the left pushes out.
pub open spec fn top_bit(value: u8) -> bool {
    value > 0x7f
}

/// Whether bit 0 is set: the bit that a shift to the right pushes out.
pub open spec fn bottom_bit(value: u8) -> bool {
    value & 0x01 == 1
}

/// Rotation to the left by one: bit 7 comes back as bit 0.
pub open spec fn rotate_left(value: u8) -> u8 {
    (value << 1) | (value >> 7)
}

/// Rotation to the right by one: bit 0 comes back as bit 7.
pub open spec fn rotate_right(value: u8) -> u8 {
    (value >> 1) | (value << 7)
}

/// Rotation to the left through the carry: the carry comes in as bit 0.
pub open spec fn rotate_left_through(value: u8, carry: bool) -> u8 {
    (value << 1) | (if carry {
        1u8
    } else {
        0u8
    })
}

/// Rotation to the right through the carry: the carry comes in as bit 7.
pub open spec fn rotate_right_through(value: u8, carry: bool) -> u8 {
    (value >> 1) | (if carry {
        0x80u8
    } else {
        0u8
    })
}

/// Shift to the left by one; bit 0 becomes 0.
pub open spec fn shift_left(value: u8) -> u8 {
    value << 1
}

/// Shift to the right by one; bit 7 stays as it was.
pub open spec fn shift_right_keep_sign(value: u8) -> u8 {
    if top_bit(value) {
        (value >> 1) | 0x80
    } else {
        value >> 1
    }
}

/// Shift to the right by one; bit 7 becomes 0.
pub open spec fn shift_right(value: u8) -> u8 {
    value >> 1
}

/// The two halves of a byte exchanged.
pub open spec fn swap_halves(value: u8) -> u8 {
    (value << 4) | (value >> 4)
}

/// The byte with one bit set and the others clear.
pub open spec fn bit_mask(bit: u8) -> u8 {
    1u8 << bit
}

/// Whether a byte holds two decimal digits, one in each half.
pub open spec fn is_packed_decimal(value: u8) -> bool {
    value / 16 <= 9 && value % 16 <= 9
}

/// The number from 0 to 99 that a byte of two decimal digits stands for.
pub open spec fn decimal_value(value: u8) -> int {
    10 * (value / 16) + value % 16
}

/// The accumulator after decimal adjustment. After an addition 0x60 is added
/// when the carry is set or the value is above 0x99, then 0x06 when the
/// half-carry is set or the low digit is above 9. After a subtraction 0x60 is
/// taken off when the carry is set, then 0x06 when the half-carry is set.
pub open spec fn decimal_adjusted(a: u8, add_sub: bool, half_carry: bool, carry: bool) -> u8 {
    if !add_sub {
        let high = if decimal_carry(a, add_sub, carry) {
            wrap8(a + 0x60)
        } else {
            a
        };
        if half_carry || high & 0x0f > 0x09 {
            wrap8(high + 0x06)
        } else {
            high
        }
    } else {
        let high = if carry {
            wrap8(a - 0x60)
        } else {
            a
        };
        if half_carry {
            wrap8(high - 0x06)
        } else {
            high
        }
    }
}

/// Whether decimal adjustment sets the carry: only after an addition, when
/// the carry is set already or the value is above 0x99.
pub open spec fn decimal_carry(a: u8, add_sub: bool, carry: bool) -> bool {
    !add_sub && (carry || a > 0x99)
}

} // verus!
