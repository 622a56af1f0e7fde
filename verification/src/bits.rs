//! Bit-field operations on a single register byte.
//!
//! Bits are numbered 0 (least significant) to 7. A field is a pair
//! `(start, length)` with `start + length <= 8`; it covers the bits
//! `start .. start + length` and never wraps.

use vstd::prelude::*;

verus! {

/// Bit `n` of `byte`, as 0 or 1.
pub open spec fn spec_get_bit(byte: u8, n: u8) -> u8 {
    (byte >> n) & 1
}

/// `byte` with bit `n` cleared, then set again if `value` is true.
pub open spec fn spec_set_bit(byte: u8, n: u8, value: bool) -> u8 {
    if value {
        byte | (1u8 << n)
    } else {
        byte & !(1u8 << n)
    }
}

/// The mask covering the low `length` bits, e.g. `spec_low_mask(3) == 0b111`.
pub open spec fn spec_low_mask(length: u8) -> u8
    recommends
        length <= 8,
{
    if length >= 8 {
        0xffu8
    } else {
        ((1u8 << length) - 1) as u8
    }
}

/// The field `(start, length)` of `byte`, right-aligned.
pub open spec fn spec_get_bits(byte: u8, start: u8, length: u8) -> u8 {
    (byte >> start) & spec_low_mask(length)
}

/// `byte` with the field `(start, length)` replaced by the low `length`
/// bits of `value`; all bits outside the field keep their value.
pub open spec fn spec_set_bits(byte: u8, start: u8, length: u8, value: u8) -> u8 {
    (byte & !((spec_low_mask(length)) << start)) | ((value & spec_low_mask(length)) << start)
}

/// Returns bit `n` of `byte` (0-based from the least significant bit).
pub fn get_bit(byte: u8, n: u8) -> (r: u8)
    requires
        n < 8,
    ensures
        r == spec_get_bit(byte, n),
        r == 0 || r == 1,
{
    proof {
        assert((byte >> n) & 1 == 0 || (byte >> n) & 1 == 1) by (bit_vector);
    }
    (byte >> n) & 1
}

/// Clears bit `n` of `byte`, then sets it again if `enable` is true;
/// every other bit keeps its value.
pub fn set_bit(byte: &mut u8, n: u8, enable: bool)
    requires
        n < 8,
    ensures
        *final(byte) == spec_set_bit(*old(byte), n, enable),
        spec_get_bit(*final(byte), n) == (if enable { 1u8 } else { 0u8 }),
        forall|m: u8| m < 8 && m != n ==> spec_get_bit(*final(byte), m) == spec_get_bit(*old(byte), m),
{
    let b = *byte;
    if enable {
        *byte = b | (1u8 << n);
    } else {
        *byte = b & !(1u8 << n);
    }
    proof {
        lemma_set_bit_effect(b, n, enable);
    }
}

/// Extracts the field `(start, length)` of `byte`, right-aligned:
/// the bits `start .. start + length`.
pub fn get_bits(byte: u8, start: u8, length: u8) -> (r: u8)
    requires
        0 < length,
        start + length <= 8,
    ensures
        r == spec_get_bits(byte, start, length),
        (r as u16) < (1u16 << (length as u16)),
{
    proof {
        assert(length < 8 ==> (1u8 << length) >= 1) by (bit_vector);
    }
    let mask: u8 = if length == 8 {
        0xffu8
    } else {
        (1u8 << length) - 1
    };
    proof {
        assert(mask == spec_low_mask(length)) by (bit_vector)
            requires
                0 < length <= 8,
                mask == (if length == 8 { 0xffu8 } else { ((1u8 << length) - 1) as u8 }),
        ;
        assert((((byte >> start) & mask) as u16) < (1u16 << (length as u16))) by (bit_vector)
            requires
                0 < length <= 8,
                mask == (if length == 8 { 0xffu8 } else { ((1u8 << length) - 1) as u8 }),
        ;
    }
    (byte >> start) & mask
}

/// Replaces the field `(start, length)` of `byte` by the low `length`
/// bits of `value` (higher bits of `value` are truncated, not rejected);
/// every bit outside the field keeps its value.
pub fn set_bits(byte: &mut u8, start: u8, length: u8, value: u8)
    requires
        0 < length,
        start + length <= 8,
    ensures
        *final(byte) == spec_set_bits(*old(byte), start, length, value),
        spec_get_bits(*final(byte), start, length) == value & spec_low_mask(length),
        forall|m: u8| m < 8 && !(start <= m < start + length) ==> spec_get_bit(*final(byte), m)
            == spec_get_bit(*old(byte), m),
{
    let b = *byte;
    proof {
        assert(length < 8 ==> (1u8 << length) >= 1) by (bit_vector);
    }
    let low: u8 = if length == 8 {
        0xffu8
    } else {
        (1u8 << length) - 1
    };
    let mask: u8 = low << start;
    *byte = (b & !mask) | ((value & low) << start);
    proof {
        assert(low == spec_low_mask(length)) by (bit_vector)
            requires
                0 < length <= 8,
                low == (if length == 8 { 0xffu8 } else { ((1u8 << length) - 1) as u8 }),
        ;
        lemma_set_bits_effect(b, start, length, value);
    }
}

/// Writing a bit and reading it back returns the written value,
/// and no other bit moves.
pub proof fn lemma_set_bit_effect(byte: u8, n: u8, value: bool)
    requires
        n < 8,
    ensures
        spec_get_bit(spec_set_bit(byte, n, value), n) == (if value { 1u8 } else { 0u8 }),
        forall|m: u8| m < 8 && m != n ==> spec_get_bit(spec_set_bit(byte, n, value), m)
            == spec_get_bit(byte, m),
{
    assert(spec_get_bit(spec_set_bit(byte, n, value), n) == (if value { 1u8 } else { 0u8 }))
        by (bit_vector)
        requires
            n < 8,
    ;
    assert(forall|m: u8| m < 8 && m != n ==> spec_get_bit(spec_set_bit(byte, n, value), m)
        == spec_get_bit(byte, m)) by (bit_vector)
        requires
            n < 8,
    ;
}

/// Setting bit `n` to the value it already has gives the byte back unchanged.
pub proof fn lemma_set_bit_roundtrip(byte: u8, n: u8)
    requires
        n < 8,
    ensures
        spec_set_bit(byte, n, spec_get_bit(byte, n) == 1) == byte,
{
    assert(spec_set_bit(byte, n, spec_get_bit(byte, n) == 1) == byte) by (bit_vector)
        requires
            n < 8,
    ;
}

/// Writing a field and reading it back returns the written value reduced
/// modulo `2^length`, and every bit outside the field keeps its value.
pub proof fn lemma_set_bits_effect(byte: u8, start: u8, length: u8, value: u8)
    requires
        0 < length,
        start + length <= 8,
    ensures
        spec_get_bits(spec_set_bits(byte, start, length, value), start, length)
            == value & spec_low_mask(length),
        (value & spec_low_mask(length)) as u16 == (value as u16) % (1u16 << (length as u16)),
        forall|m: u8| m < 8 && !(start <= m < start + length)
            ==> spec_get_bit(spec_set_bits(byte, start, length, value), m) == spec_get_bit(byte, m),
{
    assert(spec_get_bits(spec_set_bits(byte, start, length, value), start, length)
        == value & spec_low_mask(length)) by (bit_vector)
        requires
            0 < length,
            start + length <= 8,
    ;
    assert((value & spec_low_mask(length)) as u16 == (value as u16) % (1u16 << (length as u16)))
        by (bit_vector)
        requires
            0 < length <= 8,
    ;
    assert(forall|m: u8| m < 8 && !(start <= m < start + length)
        ==> spec_get_bit(spec_set_bits(byte, start, length, value), m) == spec_get_bit(byte, m))
        by (bit_vector)
        requires
            0 < length,
            start + length <= 8,
    ;
}

} // verus!
