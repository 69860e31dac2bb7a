//! Bit-level helpers shared by every core: single-bit tests and
//! byte/word packing, each proved against a direct bit-vector statement.

use vstd::prelude::*;

verus! {

/// Whether bit `n` of `value` is set (`n` counted from the least significant bit).
pub open spec fn spec_bit8(value: u8, n: u8) -> bool {
    (value >> n) & 1 == 1
}

/// Whether bit `n` of `value` is set.
pub open spec fn spec_bit16(value: u16, n: u16) -> bool {
    (value >> n) & 1 == 1
}

/// Test bit `n` of an 8-bit value.
pub fn bit8(value: u8, n: u8) -> (r: bool)
    requires
        n < 8,
    ensures
        r == spec_bit8(value, n),
{
    (value >> n) & 1 == 1
}

/// Test bit `n` of a 16-bit value.
pub fn bit16(value: u16, n: u16) -> (r: bool)
    requires
        n < 16,
    ensures
        r == spec_bit16(value, n),
{
    (value >> n) & 1 == 1
}

/// The 16-bit word with high byte `msb` and low byte `lsb`.
pub open spec fn spec_word(msb: u8, lsb: u8) -> u16 {
    (msb as u16) << 8 | (lsb as u16)
}

/// High byte of a 16-bit word.
pub open spec fn spec_msb(word: u16) -> u8 {
    (word >> 8) as u8
}

/// Low byte of a 16-bit word.
pub open spec fn spec_lsb(word: u16) -> u8 {
    (word & 0xFF) as u8
}

/// Combine two bytes into a word, high byte first.
pub fn word_from_bytes(msb: u8, lsb: u8) -> (r: u16)
    ensures
        r == spec_word(msb, lsb),
        spec_msb(r) == msb,
        spec_lsb(r) == lsb,
{
    let r: u16 = (msb as u16) << 8 | (lsb as u16);
    proof {
        assert(spec_msb(spec_word(msb, lsb)) == msb && spec_lsb(spec_word(msb, lsb)) == lsb)
            by (bit_vector);
    }
    r
}

/// High byte of a word.
pub fn word_msb(word: u16) -> (r: u8)
    ensures
        r == spec_msb(word),
{
    (word >> 8) as u8
}

/// Low byte of a word.
pub fn word_lsb(word: u16) -> (r: u8)
    ensures
        r == spec_lsb(word),
{
    (word & 0xFF) as u8
}

/// Masking bounds a value by the mask.
pub proof fn lemma_and_bound_u8(x: u8, c: u8)
    by (bit_vector)
    ensures
        x & c <= c,
{
}

/// Masking bounds a value by the mask.
pub proof fn lemma_and_bound_u16(x: u16, c: u16)
    by (bit_vector)
    ensures
        x & c <= c,
{
}

/// Masking bounds a value by the mask.
pub proof fn lemma_and_bound_u32(x: u32, c: u32)
    by (bit_vector)
    ensures
        x & c <= c,
{
}

/// Masking twice is the same as masking once.
pub proof fn lemma_mask_idempotent_u8(x: u8, c: u8)
    by (bit_vector)
    ensures
        (x & c) & c == x & c,
{
}

/// Both nibbles of a byte fit in four bits.
pub proof fn lemma_nibbles_u8(x: u8)
    by (bit_vector)
    ensures
        x >> 4 <= 15 && x & 0xF <= 15,
{
}

/// Both halves of a word fit in a byte.
pub proof fn lemma_bytes_u16(x: u16)
    by (bit_vector)
    ensures
        x >> 8 <= 0xFF && x & 0xFF <= 0xFF,
{
}

/// Masking by $1FFFF is reduction modulo $20000.
pub proof fn lemma_mask_1ffff_u32(x: u32)
    by (bit_vector)
    ensures
        x & 0x1FFFF == x % 0x20000,
{
}

/// 16-bit wrapping addition (shorthand for the vstd wrapping spec).
pub open spec fn spec_wadd16(x: u16, y: u16) -> u16 {
    vstd::wrapping::u16_specs::wrapping_add(x, y)
}

/// 16-bit wrapping subtraction.
pub open spec fn spec_wsub16(x: u16, y: u16) -> u16 {
    vstd::wrapping::u16_specs::wrapping_sub(x, y)
}

/// 8-bit wrapping addition.
pub open spec fn spec_wadd8(x: u8, y: u8) -> u8 {
    vstd::wrapping::u8_specs::wrapping_add(x, y)
}

/// 8-bit wrapping subtraction.
pub open spec fn spec_wsub8(x: u8, y: u8) -> u8 {
    vstd::wrapping::u8_specs::wrapping_sub(x, y)
}

/// 32-bit wrapping addition.
pub open spec fn spec_wadd32(x: u32, y: u32) -> u32 {
    vstd::wrapping::u32_specs::wrapping_add(x, y)
}

/// 32-bit wrapping subtraction.
pub open spec fn spec_wsub32(x: u32, y: u32) -> u32 {
    vstd::wrapping::u32_specs::wrapping_sub(x, y)
}

/// Splitting a word into bytes and recombining them gives the word back.
pub proof fn lemma_word_roundtrip(word: u16)
    ensures
        spec_word(spec_msb(word), spec_lsb(word)) == word,
{
    assert(((word >> 8) as u8 as u16) << 8 | ((word & 0xFF) as u8 as u16) == word)
        by (bit_vector);
}

} // verus!
