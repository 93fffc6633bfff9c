//! Byte/word packing and single-bit access.
//!
//! Pair registers and little-endian immediates assemble a 16-bit word by
//! placing one byte high and one byte low; these are the helpers every other
//! module uses for that, together with their round-trip laws.

use vstd::prelude::*;

verus! {

/// The 16-bit word with `hi` as its high byte and `lo` as its low byte.
pub open spec fn spec_word(hi: u8, lo: u8) -> u16 {
    (hi * 0x100 + lo) as u16
}

/// The high byte of a 16-bit word.
pub open spec fn spec_hi(x: u16) -> u8 {
    (x / 0x100) as u8
}

/// The low byte of a 16-bit word.
pub open spec fn spec_lo(x: u16) -> u8 {
    (x % 0x100) as u8
}

/// Bit `offset` of `x`, as a boolean.
pub open spec fn spec_bit(x: u8, offset: u8) -> bool {
    (x >> offset) & 1 == 1
}

/// `x` with bit `offset` forced to `value` and every other bit kept.
pub open spec fn spec_with_bit(x: u8, offset: u8, value: bool) -> u8 {
    if value {
        x | (1u8 << offset)
    } else {
        x & !(1u8 << offset)
    }
}

/// 16-bit modular addition, as pointer arithmetic wraps at the edges of
/// the address space.
pub open spec fn spec_wrap_add16(x: u16, y: u16) -> u16 {
    if x + y > 0xFFFF {
        (x + y - 0x10000) as u16
    } else {
        (x + y) as u16
    }
}

/// 16-bit modular subtraction.
pub open spec fn spec_wrap_sub16(x: u16, y: u16) -> u16 {
    if x - y < 0 {
        (x - y + 0x10000) as u16
    } else {
        (x - y) as u16
    }
}

/// A byte reinterpreted as a signed two's-complement offset.
pub open spec fn spec_as_i8(v: u8) -> i8 {
    if v < 0x80 {
        v as i8
    } else {
        (v - 0x100) as i8
    }
}

/// The instruction pointer `i` moved by the signed offset `n`, wrapping
/// modulo 65536.
pub open spec fn spec_rel_target(i: u16, n: i8) -> u16 {
    if i + n < 0 {
        (i + n + 0x10000) as u16
    } else if i + n > 0xFFFF {
        (i + n - 0x10000) as u16
    } else {
        (i + n) as u16
    }
}

/// Reinterprets a fetched byte as a signed two's-complement offset.
pub fn i8_from_u8(v: u8) -> (r: i8)
    ensures
        r == spec_as_i8(v),
{
    if v < 0x80 {
        v as i8
    } else {
        ((v as i16) - 0x100) as i8
    }
}

/// Packs a low byte `a` and a high byte `b` into one word.
pub fn u8s_to_u16(a: u8, b: u8) -> (r: u16)
    ensures
        r == spec_word(b, a),
{
    proof {
        assert((b as u16) << 8 == b * 0x100) by (bit_vector);
    }
    a as u16 + ((b as u16) << 8)
}

/// Splits a word into its low and high byte, in that order.
pub fn u16_to_u8s(x: u16) -> (r: (u8, u8))
    ensures
        r.0 == spec_lo(x),
        r.1 == spec_hi(x),
{
    proof {
        assert(x & 0xFF == x % 0x100 && (x >> 8) == x / 0x100) by (bit_vector);
    }
    ((x & 0xFF) as u8, (x >> 8) as u8)
}

/// Reads one bit of a byte. Offsets past the top bit are meaningless and
/// excluded.
pub fn u8_get_bit(x: u8, offset: u8) -> (r: bool)
    requires
        offset <= 7,
    ensures
        r == spec_bit(x, offset),
{
    (x >> offset) & 1 == 1
}

/// Sets or clears one bit of a byte in place, keeping the other seven.
pub fn u8_set_bit(x: &mut u8, offset: u8, value: bool)
    requires
        offset <= 7,
    ensures
        *final(x) == spec_with_bit(*old(x), offset, value),
{
    let mask: u8 = 1 << offset;
    if value {
        *x |= mask;
    } else {
        *x &= !mask;
    }
}

/// Splitting a word and packing the parts again yields the word back.
pub proof fn lemma_word_roundtrip(x: u16)
    ensures
        spec_word(spec_hi(x), spec_lo(x)) == x,
{
    assert(x / 0x100 * 0x100 + x % 0x100 == x) by (nonlinear_arith);
}

/// Packing two bytes and splitting the word again yields the bytes back.
pub proof fn lemma_byte_roundtrip(hi: u8, lo: u8)
    ensures
        spec_hi(spec_word(hi, lo)) == hi,
        spec_lo(spec_word(hi, lo)) == lo,
{
    assert((hi * 0x100 + lo) / 0x100 == hi && (hi * 0x100 + lo) % 0x100 == lo)
        by (nonlinear_arith)
        requires
            hi <= 0xFF && lo <= 0xFF,
    ;
}

/// Writing one bit leaves every other bit of the byte as it was.
pub proof fn lemma_set_bit_isolated(x: u8, offset: u8, value: bool, other: u8)
    requires
        offset <= 7,
        other <= 7,
        other != offset,
    ensures
        spec_bit(spec_with_bit(x, offset, value), offset) == value,
        spec_bit(spec_with_bit(x, offset, value), other) == spec_bit(x, other),
{
    let y = spec_with_bit(x, offset, value);
    if value {
        assert(spec_bit(x | (1u8 << offset), offset) && (other != offset ==> spec_bit(
            x | (1u8 << offset),
            other,
        ) == spec_bit(x, other))) by (bit_vector)
            requires
                offset <= 7 && other <= 7,
        ;
    } else {
        assert(!spec_bit(x & !(1u8 << offset), offset) && (other != offset ==> spec_bit(
            x & !(1u8 << offset),
            other,
        ) == spec_bit(x, other))) by (bit_vector)
            requires
                offset <= 7 && other <= 7,
        ;
    }
}

} // verus!
