//! Bytes, 16-bit words and the opcode bit fields, as arithmetic.

use vstd::prelude::*;

verus! {

/// The upper eight bits of a word.
pub open spec fn high_byte(w: u16) -> u8 {
    (w / 256) as u8
}

/// The lower eight bits of a word.
pub open spec fn low_byte(w: u16) -> u8 {
    (w % 256) as u8
}

/// The word made of an upper and a lower byte.
pub open spec fn word(high: u8, low: u8) -> u16 {
    (high * 256 + low) as u16
}

/// An integer reduced to the 8-bit domain.
pub open spec fn wrap8(i: int) -> u8 {
    (i % 0x100) as u8
}

/// An integer reduced to the 16-bit domain.
pub open spec fn wrap16(i: int) -> u16 {
    (i % 0x10000) as u16
}

/// A byte read as a two's complement number, from -128 to 127.
pub open spec fn signed(b: u8) -> int {
    if b < 128 {
        b as int
    } else {
        b - 256
    }
}

/// Bits 3 to 5 of an opcode: a register or a condition.
pub open spec fn y_bits(opcode: u8) -> int {
    (opcode as int / 8) % 8
}

/// Bits 0 to 2 of an opcode: a register.
pub open spec fn z_bits(opcode: u8) -> int {
    opcode as int % 8
}

/// Bits 4 and 5 of an opcode: a register pair.
pub open spec fn p_bits(opcode: u8) -> int {
    (opcode as int / 16) % 4
}

/// A word splits into its two bytes and is made of them again.
pub proof fn lemma_word_of_bytes(w: u16)
    ensures
        word(high_byte(w), low_byte(w)) == w,
{
}

/// The bytes of a word that was made of two bytes are those two.
pub proof fn lemma_bytes_of_word(high: u8, low: u8)
    ensures
        high_byte(word(high, low)) == high,
        low_byte(word(high, low)) == low,
{
}

/// Makes a word of an upper and a lower byte.
pub fn make_word(high: u8, low: u8) -> (w: u16)
    ensures
        w == word(high, low),
{
    let w: u16 = ((high as u16) << 8) | (low as u16);
    assert(((high as u16) << 8) | (low as u16) == (high as u16) * 256 + (low as u16))
        by (bit_vector);
    w
}

/// The upper byte of a word.
pub fn upper(w: u16) -> (b: u8)
    ensures
        b == high_byte(w),
{
    let b: u8 = ((0xff00 & w) >> 8) as u8;
    assert((((0xff00 & w) >> 8) as u8) as u16 == w / 256) by (bit_vector);
    b
}

/// The lower byte of a word.
pub fn lower(w: u16) -> (b: u8)
    ensures
        b == low_byte(w),
{
    let b: u8 = (0x00ff & w) as u8;
    assert(((0x00ff & w) as u8) as u16 == w % 256) by (bit_vector);
    b
}

/// A word moved by a signed 8-bit displacement, wrapping at both ends.
pub fn displace(base: u16, d: u8) -> (w: u16)
    ensures
        w == wrap16(base + signed(d)),
{
    if d < 128 {
        base.wrapping_add(d as u16)
    } else {
        base.wrapping_sub(256 - d as u16)
    }
}

} // verus!
