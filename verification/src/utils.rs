//! Byte-level helpers shared by the register file, the memory and the ALU.

use vstd::prelude::*;

verus! {

/// High byte of a 16-bit value.
pub open spec fn hi_byte(value: u16) -> u8 {
    (value >> 8) as u8
}

/// Low byte of a 16-bit value.
pub open spec fn lo_byte(value: u16) -> u8 {
    (value & 0xFF) as u8
}

/// The 16-bit value whose high byte is `hi` and whose low byte is `lo`.
pub open spec fn join_bytes(hi: u8, lo: u8) -> u16 {
    ((hi as u16) << 8) | (lo as u16)
}

/// Half-carry of an 8-bit addition: a carry out of bit 3.
pub open spec fn half_carry(a: u8, b: u8, carry_in: bool) -> bool {
    (a & 0x0F) + (b & 0x0F) + (if carry_in { 1int } else { 0int }) > 0x0F
}

/// Splitting a value and joining the halves gives the value back.
pub proof fn lemma_join_split(value: u16)
    ensures
        join_bytes(hi_byte(value), lo_byte(value)) == value,
{
    assert(((((value >> 8) as u8) as u16) << 8) | (((value & 0xFF) as u8) as u16) == value)
        by (bit_vector);
}

/// Joining two bytes and splitting the result gives the bytes back.
pub proof fn lemma_split_join(hi: u8, lo: u8)
    ensures
        hi_byte(join_bytes(hi, lo)) == hi,
        lo_byte(join_bytes(hi, lo)) == lo,
{
    assert((((((hi as u16) << 8) | (lo as u16)) >> 8) as u8) == hi) by (bit_vector);
    assert((((((hi as u16) << 8) | (lo as u16)) & 0xFF) as u8) == lo) by (bit_vector);
}

/// Splits a 16-bit value into its high and low byte.
pub fn split_hi_lo(value: u16) -> (halves: (u8, u8))
    ensures
        halves.0 == hi_byte(value),
        halves.1 == lo_byte(value),
{
    assert(value >> 8 <= 0xFF) by (bit_vector);
    assert(value & 0xFF <= 0xFF) by (bit_vector);
    let hi = (value >> 8) as u8;
    let lo = (value & 0xFF) as u8;
    (hi, lo)
}

/// Joins a high and a low byte into a 16-bit value.
pub fn join_hi_lo(hi: u8, lo: u8) -> (value: u16)
    ensures
        value == join_bytes(hi, lo),
{
    ((hi as u16) << 8) | (lo as u16)
}

/// Whether adding `a` and `b` carries out of bit 3.
pub fn has_half_carry(a: u8, b: u8) -> (carried: bool)
    ensures
        carried == half_carry(a, b, false),
{
    assert(a & 0x0F <= 0x0F) by (bit_vector);
    assert(b & 0x0F <= 0x0F) by (bit_vector);
    ((a & 0x0F) + (b & 0x0F)) > 0x0F
}

} // verus!
