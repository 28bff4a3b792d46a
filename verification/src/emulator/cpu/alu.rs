use vstd::prelude::*;

use crate::emulator::cpu::register::{hi, join, lo, lemma_join_bits, lemma_split_bits};

verus! {

/// `a + b` modulo 256.
pub open spec fn add8(a: u8, b: u8) -> u8 {
    ((a + b) % 256) as u8
}

/// `a - b` modulo 256.
pub open spec fn sub8(a: u8, b: u8) -> u8 {
    ((a - b + 256) % 256) as u8
}

/// `a + b` modulo 65536.
pub open spec fn add16(a: u16, b: u16) -> u16 {
    ((a + b) % 65536) as u16
}

/// `a - b` modulo 65536.
pub open spec fn sub16(a: u16, b: u16) -> u16 {
    ((a - b + 65536) % 65536) as u16
}

/// `a` plus the signed offset `b`, modulo 65536.
pub open spec fn add16_signed(a: u16, b: i8) -> u16 {
    ((a + b + 65536) % 65536) as u16
}

/// Whether adding `a` and `b` carries out of the lower nibble.
pub open spec fn nibble_carry(a: u8, b: u8) -> bool {
    a % 16 + b % 16 > 15
}

/// Whether subtracting `b` from `a` borrows from the upper nibble.
pub open spec fn nibble_borrow(a: u8, b: u8) -> bool {
    a % 16 < b % 16
}

/// Whether adding `a` and `b` carries out of bit 11.
pub open spec fn bit11_carry(a: u16, b: u16) -> bool {
    a % 4096 + b % 4096 > 4095
}

/// The byte whose nibbles are those of `v` swapped.
pub open spec fn swapped(v: u8) -> u8 {
    ((v % 16) * 16 + v / 16) as u8
}

/// The outcome of an 8-bit subtraction.
pub struct SubCarryResult {
    pub result: u8,
    pub carry: bool,
    pub half_carry: bool,
}

/// The outcome of an addition.
pub struct AddCarryResult<T> {
    pub result: T,
    pub carry: bool,
    pub half_carry: bool,
}

/// The little-endian word made of `lsb` and `msb`.
pub fn u16_le(lsb: u8, msb: u8) -> (r: u16)
    ensures
        r == join(msb, lsb),
{
    proof {
        lemma_join_bits(msb, lsb);
    }
    ((msb as u16) << 8) | lsb as u16
}

/// The low byte of `value`.
pub fn u16_lsb(value: u16) -> (r: u8)
    ensures
        r == lo(value),
{
    proof {
        lemma_split_bits(value);
    }
    value as u8
}

/// The high byte of `value`.
pub fn u16_msb(value: u16) -> (r: u8)
    ensures
        r == hi(value),
{
    proof {
        lemma_split_bits(value);
    }
    (value >> 8) as u8
}

pub fn lower_nibble(value: u8) -> (r: u8)
    ensures
        r == value % 16,
{
    assert(value & 0xF == value % 16) by (bit_vector);
    value & 0xF
}

pub fn upper_nibble(value: u8) -> (r: u8)
    ensures
        r == value / 16,
{
    assert((value >> 4) & 0xF == value / 16) by (bit_vector);
    (value >> 4) & 0xF
}

/// Exchanges the two nibbles of `value`.
pub fn swap_nibbles(value: u8) -> (r: u8)
    ensures
        r == swapped(value),
{
    let lower = lower_nibble(value);
    let upper = upper_nibble(value);
    assert(lower << 4u8 | upper == ((lower * 16 + upper) as u8)) by (bit_vector)
        requires
            lower < 16,
            upper < 16,
    ;
    lower << 4 | upper
}

/// Whether bit 4 of `a ^ b ^ result` is set: the carry (or borrow) into bit 4.
pub fn is_half_carry_8(a: u8, b: u8, result: u8) -> (r: bool)
    ensures
        r == ((a ^ b ^ result) & 0x10 == 0x10),
{
    (a ^ b ^ result) & 0x10 == 0x10
}

/// Whether bit 12 of `a ^ b ^ result` is set: the carry into bit 12.
pub fn is_half_carry_16(a: u16, b: u16, result: u16) -> (r: bool)
    ensures
        r == ((a ^ b ^ result) & 0x1000 == 0x1000),
{
    (a ^ b ^ result) & 0x1000 == 0x1000
}

/// Bit 4 of `a ^ b ^ (a + b)` is the carry out of the lower nibble.
pub proof fn lemma_half_carry_add8(a: u8, b: u8)
    ensures
        ((a ^ b ^ add8(a, b)) & 0x10 == 0x10) == nibble_carry(a, b),
{
    let r = add8(a, b);
    assert(r == ((a as u16 + b as u16) % 256) as u8);
    assert(((a ^ b ^ (((a as u16 + b as u16) % 256) as u8)) & 0x10 == 0x10) == ((a & 0xF) + (b
        & 0xF) > 15)) by (bit_vector);
    assert(a & 0xF == a % 16 && b & 0xF == b % 16) by (bit_vector);
}

/// Bit 4 of `a ^ b ^ (a - b)` is the borrow from the upper nibble.
pub proof fn lemma_half_carry_sub8(a: u8, b: u8)
    ensures
        ((a ^ b ^ sub8(a, b)) & 0x10 == 0x10) == nibble_borrow(a, b),
{
    let r = sub8(a, b);
    assert(r == ((a as u16 + 256 - b as u16) % 256) as u8);
    assert(((a ^ b ^ (((a as u16 + 256 - b as u16) % 256) as u8)) & 0x10 == 0x10) == ((a & 0xF)
        < (b & 0xF))) by (bit_vector);
    assert(a & 0xF == a % 16 && b & 0xF == b % 16) by (bit_vector);
}

/// Bit 12 of `a ^ b ^ (a + b)` is the carry out of bit 11.
pub proof fn lemma_half_carry_add16(a: u16, b: u16)
    ensures
        ((a ^ b ^ add16(a, b)) & 0x1000 == 0x1000) == bit11_carry(a, b),
{
    let r = add16(a, b);
    assert(r == ((a as u32 + b as u32) % 65536) as u16);
    assert(((a ^ b ^ (((a as u32 + b as u32) % 65536) as u16)) & 0x1000 == 0x1000) == ((a
        & 0xFFF) + (b & 0xFFF) > 4095)) by (bit_vector);
    assert(a & 0xFFF == a % 4096 && b & 0xFFF == b % 4096) by (bit_vector);
}

/// `a - b` with its borrow and its borrow from the upper nibble.
pub fn sub_carry(a: u8, b: u8) -> (r: SubCarryResult)
    ensures
        r.result == sub8(a, b),
        r.carry == (a < b),
        r.half_carry == nibble_borrow(a, b),
{
    let result = a.wrapping_sub(b);
    let carry = a < b;
    proof {
        lemma_half_carry_sub8(a, b);
    }
    SubCarryResult { result, carry, half_carry: is_half_carry_8(a, b, result) }
}

/// `a + b` with its carry and its carry out of the lower nibble.
pub fn add_carry_8(a: u8, b: u8) -> (r: AddCarryResult<u8>)
    ensures
        r.result == add8(a, b),
        r.carry == (a + b > 255),
        r.half_carry == nibble_carry(a, b),
{
    let result = a.wrapping_add(b);
    let carry = a as u16 + b as u16 > 255;
    proof {
        lemma_half_carry_add8(a, b);
    }
    AddCarryResult { result, carry, half_carry: is_half_carry_8(a, b, result) }
}

/// `a + b` with its carry and its carry out of bit 11.
pub fn add_carry_16(a: u16, b: u16) -> (r: AddCarryResult<u16>)
    ensures
        r.result == add16(a, b),
        r.carry == (a + b > 65535),
        r.half_carry == bit11_carry(a, b),
{
    let result = a.wrapping_add(b);
    let carry = a as u32 + b as u32 > 65535;
    proof {
        lemma_half_carry_add16(a, b);
    }
    AddCarryResult { result, carry, half_carry: is_half_carry_16(a, b, result) }
}

/// The address `0xFF00 + low` in the I/O page.
pub fn high_address(low: u8) -> (r: u16)
    ensures
        r == 0xFF00 + low,
{
    assert(0xFF00u16 | (low as u16) == 0xFF00 + low) by (bit_vector);
    0xFF00 | (low as u16)
}

/// `value` with bit `position` cleared.
pub fn reset_bit(value: u8, position: u8) -> (r: u8)
    requires
        position < 8,
    ensures
        r == value & !(1u8 << position),
{
    value & !(1u8 << position)
}

/// Clearing a bit clears exactly that bit.
pub proof fn lemma_reset_bit(value: u8, position: u8, other: u8)
    requires
        position < 8,
        other < 8,
    ensures
        (value & !(1u8 << position)) & (1u8 << position) == 0,
        other != position ==> ((value & !(1u8 << position)) & (1u8 << other)) == (value & (1u8
            << other)),
{
    assert((value & !(1u8 << position)) & (1u8 << position) == 0) by (bit_vector)
        requires
            position < 8,
    ;
    assert(other != position ==> ((value & !(1u8 << position)) & (1u8 << other)) == (value & (1u8
        << other))) by (bit_vector)
        requires
            position < 8,
            other < 8,
    ;
}

/// Swapping the nibbles twice gives the byte back.
pub proof fn lemma_swap_involution(v: u8)
    ensures
        swapped(swapped(v)) == v,
{
}

/// Splitting a word into its bytes and joining them again gives the word back.
pub proof fn lemma_split_join(v: u16)
    ensures
        join(hi(v), lo(v)) == v,
{
    lemma_split_bits(v);
}

} // verus!
