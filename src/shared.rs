use vstd::prelude::*;

verus! {

/// The high byte of a 16-bit word.
pub open spec fn hi_byte(w: u16) -> u8 {
    (w / 256) as u8
}

/// The low byte of a 16-bit word.
pub open spec fn lo_byte(w: u16) -> u8 {
    (w % 256) as u8
}

/// The word made of a high and a low byte.
pub open spec fn word_of(hi: u8, lo: u8) -> u16 {
    (hi * 256 + lo) as u16
}

/// Splits a word into its bytes, returned as (high, low).
pub fn split_u16(val: u16) -> (r: (u8, u8))
    ensures
        r.0 == hi_byte(val),
        r.1 == lo_byte(val),
{
    let hi = (val >> 8) as u8;
    let lo = (val & 0xff) as u8;
    assert((val >> 8) == val / 256 && (val & 0xff) == val % 256) by (bit_vector);
    (hi, lo)
}

/// Joins a high and a low byte into a word.
pub fn join_u8(hi: u8, lo: u8) -> (r: u16)
    ensures
        r == word_of(hi, lo),
{
    assert(((hi as u16) << 8) | (lo as u16) == hi * 256 + lo) by (bit_vector);
    ((hi as u16) << 8) | (lo as u16)
}

} // verus!

verus! {

/// The value of bit `i` of a byte: 2 to the power `i`, for `i` in 0..8.
pub open spec fn bit_weight(i: u8) -> u8 {
    if i == 0 {
        1
    } else if i == 1 {
        2
    } else if i == 2 {
        4
    } else if i == 3 {
        8
    } else if i == 4 {
        16
    } else if i == 5 {
        32
    } else if i == 6 {
        64
    } else {
        128
    }
}

/// Whether bit `i` (0 = least significant) of `v` is one.
pub open spec fn bit_of(v: u8, i: u8) -> bool {
    (v / bit_weight(i)) % 2 == 1
}

/// The value of bit `i` of a word: 2 to the power `i`, for `i` in 0..16.
pub open spec fn bit_weight16(i: u16) -> u16 {
    if i < 8 {
        bit_weight(i as u8) as u16
    } else {
        (bit_weight((i - 8) as u8) * 256) as u16
    }
}

/// Whether bit `i` (0 = least significant) of `v` is one.
pub open spec fn bit_of16(v: u16, i: u16) -> bool {
    (v / bit_weight16(i)) % 2 == 1
}

/// Reads bit `bit_index` of a byte.
pub fn nth_bit(num: u8, bit_index: u8) -> (r: bool)
    requires
        bit_index <= 7,
    ensures
        r == bit_of(num, bit_index),
{
    assert(bit_index <= 7 ==> (((num >> bit_index) & 1 == 1) == ((num / bit_weight(bit_index))
        % 2 == 1))) by (bit_vector);
    (num >> bit_index) & 1 == 1
}

/// Reads bit `bit_index` of a word.
pub fn nth_bit16(num: u16, bit_index: u16) -> (r: bool)
    requires
        bit_index <= 15,
    ensures
        r == bit_of16(num, bit_index),
{
    assert(bit_index <= 15 ==> (((num >> bit_index) & 1 == 1) == ((num / bit_weight16(
        bit_index)) % 2 == 1))) by (bit_vector);
    (num >> bit_index) & 1 == 1
}

/// The upper four bits of a byte, as a value in 0..16.
pub fn high_nibble(val: u8) -> (r: u8)
    ensures
        r == val / 16,
{
    assert((val & 0xf0) >> 4 == val / 16) by (bit_vector);
    (val & 0xf0) >> 4
}

/// The lower four bits of a byte, as a value in 0..16.
pub fn low_nibble(val: u8) -> (r: u8)
    ensures
        r == val % 16,
{
    assert(val & 0x0f == val % 16) by (bit_vector);
    val & 0x0f
}

/// A byte with its two nibbles exchanged.
pub open spec fn swap_nibbles(v: u8) -> u8 {
    ((v % 16) * 16 + v / 16) as u8
}

/// Exchanges the two nibbles of a byte in place.
pub fn swap8(val: &mut u8)
    ensures
        *final(val) == swap_nibbles(*old(val)),
{
    let high = high_nibble(*val);
    let lo = low_nibble(*val);
    assert(lo < 16 ==> (lo << 4) | high == lo * 16 + high) by (bit_vector)
        requires
            high < 16,
    ;
    *val = (lo << 4) | high;
}

/// A word with its two bytes exchanged.
pub fn swap16(val: u16) -> (r: u16)
    ensures
        r == word_of(lo_byte(val), hi_byte(val)),
{
    let (hi, lo) = split_u16(val);
    join_u8(lo, hi)
}

/// 1 for a set carry, 0 for a clear one.
pub open spec fn carry_value(c: bool) -> int {
    if c {
        1
    } else {
        0
    }
}

/// 8-bit addition with carry in: (result, carry out, half carry out).
pub open spec fn add8_spec(a: u8, b: u8, c: bool) -> (u8, bool, bool) {
    let sum = a + b + carry_value(c);
    ((sum % 256) as u8, sum > 255, a % 16 + b % 16 + carry_value(c) > 15)
}

/// 8-bit subtraction with borrow in: (result, borrow out, half borrow out).
pub open spec fn sub8_spec(a: u8, b: u8, c: bool) -> (u8, bool, bool) {
    let diff = a - b - carry_value(c);
    ((diff % 256) as u8, diff < 0, a % 16 - b % 16 - carry_value(c) < 0)
}

/// 16-bit addition with carry in: (result, carry out, carry out of bit 11).
pub open spec fn add16_spec(a: u16, b: u16, c: bool) -> (u16, bool, bool) {
    let sum = a + b + carry_value(c);
    ((sum % 65536) as u16, sum > 65535, a % 4096 + b % 4096 + carry_value(c) > 4095)
}

/// Adds two bytes and a carry, wrapping; returns the result, the carry out
/// and the half carry out.
pub fn add(u0: u8, u1: u8, c: bool) -> (r: (u8, bool, bool))
    ensures
        r == add8_spec(u0, u1, c),
{
    let cin: u8 = if c {
        1
    } else {
        0
    };
    let sum: u16 = u0 as u16 + u1 as u16 + cin as u16;
    let half = low_nibble(u0) + low_nibble(u1) + cin > 0x0f;
    ((sum % 256) as u8, sum > 0xff, half)
}

/// Adds two words and a carry, wrapping; returns the result, the carry out
/// and the carry out of the low twelve bits.
pub fn add16(u0: u16, u1: u16, c: bool) -> (r: (u16, bool, bool))
    ensures
        r == add16_spec(u0, u1, c),
{
    let cin: u16 = if c {
        1
    } else {
        0
    };
    let sum: u32 = u0 as u32 + u1 as u32 + cin as u32;
    let half = u0 % 0x1000 + u1 % 0x1000 + cin > 0x0fff;
    ((sum % 65536) as u16, sum > 0xffff, half)
}

/// Subtracts a byte and a borrow from a byte, wrapping; returns the result,
/// the borrow out and the borrow out of the low nibble.
pub fn sub(u0: u8, u1: u8, c: bool) -> (r: (u8, bool, bool))
    ensures
        r == sub8_spec(u0, u1, c),
{
    let cin: i16 = if c {
        1
    } else {
        0
    };
    let diff: i16 = u0 as i16 - u1 as i16 - cin;
    let half = (low_nibble(u0) as i16 - low_nibble(u1) as i16 - cin) < 0;
    let res: u8 = if diff < 0 {
        (diff + 256) as u8
    } else {
        diff as u8
    };
    (res, diff < 0, half)
}

/// Circular left rotation: bit 7 moves to bit 0 and is shifted out.
pub open spec fn rlc_spec(v: u8) -> (u8, bool) {
    (((v * 2) % 256 + v / 128) as u8, v >= 128)
}

/// Circular right rotation: bit 0 moves to bit 7 and is shifted out.
pub open spec fn rrc_spec(v: u8) -> (u8, bool) {
    ((v / 2 + (v % 2) * 128) as u8, v % 2 == 1)
}

/// Left rotation through the carry: the carry enters at bit 0, bit 7 leaves.
pub open spec fn rl_spec(v: u8, c: bool) -> (u8, bool) {
    (((v * 2) % 256 + carry_value(c)) as u8, v >= 128)
}

/// Right rotation through the carry: the carry enters at bit 7, bit 0 leaves.
pub open spec fn rr_spec(v: u8, c: bool) -> (u8, bool) {
    ((v / 2 + carry_value(c) * 128) as u8, v % 2 == 1)
}

/// Left shift: a zero enters at bit 0, bit 7 leaves.
pub open spec fn sla_spec(v: u8) -> (u8, bool) {
    (((v * 2) % 256) as u8, v >= 128)
}

/// Arithmetic right shift: bit 7 is kept, bit 0 leaves.
pub open spec fn sra_spec(v: u8) -> (u8, bool) {
    ((v / 2 + (v / 128) * 128) as u8, v % 2 == 1)
}

/// Logical right shift: a zero enters at bit 7, bit 0 leaves.
pub open spec fn srl_spec(v: u8) -> (u8, bool) {
    ((v / 2) as u8, v % 2 == 1)
}

/// Rotates a byte left by one; returns the new byte and the bit shifted out.
pub fn rotate_left1(v: u8) -> (r: (u8, bool))
    ensures
        r == rlc_spec(v),
{
    assert((v << 1) | (v >> 7) == (v * 2) % 256 + v / 128) by (bit_vector);
    ((v << 1) | (v >> 7), v >= 0x80)
}

/// Rotates a byte right by one; returns the new byte and the bit shifted out.
pub fn rotate_right1(v: u8) -> (r: (u8, bool))
    ensures
        r == rrc_spec(v),
{
    assert((v >> 1) | (v << 7) == v / 2 + (v % 2) * 128) by (bit_vector);
    assert(v & 1 == v % 2) by (bit_vector);
    ((v >> 1) | (v << 7), v & 1 == 1)
}

/// Rotates a byte left by one through the carry; returns the new byte and the
/// bit shifted out.
pub fn rotate_left_carry1(v: u8, c: bool) -> (r: (u8, bool))
    ensures
        r == rl_spec(v, c),
{
    let cin: u8 = if c {
        1
    } else {
        0
    };
    assert(cin <= 1 ==> (v << 1) | cin == (v * 2) % 256 + cin) by (bit_vector);
    ((v << 1) | cin, v >= 0x80)
}

/// Rotates a byte right by one through the carry; returns the new byte and
/// the bit shifted out.
pub fn rotate_right_carry1(v: u8, c: bool) -> (r: (u8, bool))
    ensures
        r == rr_spec(v, c),
{
    let cin: u8 = if c {
        0x80
    } else {
        0
    };
    assert((cin == 0 || cin == 0x80) ==> (v >> 1) | cin == v / 2 + cin) by (bit_vector);
    assert(v & 1 == v % 2) by (bit_vector);
    ((v >> 1) | cin, v & 1 == 1)
}

/// Shifts a byte left by one; returns the new byte and the bit shifted out.
pub fn shift_left1(v: u8) -> (r: (u8, bool))
    ensures
        r == sla_spec(v),
{
    assert(v << 1 == (v * 2) % 256) by (bit_vector);
    (v << 1, v >= 0x80)
}

/// Shifts a byte right by one, keeping bit 7; returns the new byte and the bit
/// shifted out.
pub fn shift_right1_arithmetic(v: u8) -> (r: (u8, bool))
    ensures
        r == sra_spec(v),
{
    assert((v >> 1) | (v & 0x80) == v / 2 + (v / 128) * 128) by (bit_vector);
    assert(v & 1 == v % 2) by (bit_vector);
    ((v >> 1) | (v & 0x80), v & 1 == 1)
}

/// Shifts a byte right by one, bringing in a zero; returns the new byte and
/// the bit shifted out.
pub fn shift_right1_logical(v: u8) -> (r: (u8, bool))
    ensures
        r == srl_spec(v),
{
    assert(v >> 1 == v / 2) by (bit_vector);
    assert(v & 1 == v % 2) by (bit_vector);
    (v >> 1, v & 1 == 1)
}

} // verus!

verus! {

/// A 16-bit address.
pub type Addr = u16;

/// An unsigned 8-bit operand.
pub type Du8 = u8;

/// A signed 8-bit operand.
pub type Ds8 = i8;

/// The index of a bit within a byte, 0..8.
pub type BitIndex = u8;

/// An unsigned 16-bit operand.
pub type Du16 = u16;

} // verus!
