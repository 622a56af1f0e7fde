//! Raw sample decoding and fixed-point unit conversion.
//!
//! A raw sample is a big-endian 16-bit two's-complement integer read
//! from a register pair; decoding widens it to `i32`, so the value
//! always lies in `[-32768, 32767]`. Temperature applies the fixed
//! affine transform from the datasheet; to stay in integer arithmetic
//! the result is kept in hundredths of a degree Celsius.

use vstd::prelude::*;

verus! {

/// Counts per degree Celsius of the die temperature sensor.
pub const TEMP_SENSITIVITY: i32 = 340;

/// Temperature offset, in hundredths of a degree Celsius (36.53 degrees).
pub const TEMP_OFFSET_CENTI: i32 = 3653;

/// Truncating division (rounds toward zero), for a positive divisor.
pub open spec fn spec_div_trunc(a: int, b: int) -> int
    recommends
        b > 0,
{
    if a >= 0 {
        a / b
    } else {
        -((-a) / b)
    }
}

/// The unsigned 16-bit word held by a big-endian byte pair.
pub open spec fn spec_word(high: u8, low: u8) -> int {
    high * 256 + low
}

/// The byte pair reinterpreted as a two's-complement 16-bit integer.
pub open spec fn spec_word_2c(high: u8, low: u8) -> int {
    if spec_word(high, low) >= 32768 {
        spec_word(high, low) - 65536
    } else {
        spec_word(high, low)
    }
}

/// Decodes a big-endian two's-complement 16-bit word from the first
/// two bytes of `bytes`.
pub fn read_word_2c(bytes: &[u8]) -> (r: i32)
    requires
        bytes@.len() >= 2,
    ensures
        r == spec_word_2c(bytes@[0], bytes@[1]),
        -32768 <= r <= 32767,
{
    let high: i32 = bytes[0] as i32;
    let low: i32 = bytes[1] as i32;
    proof {
        assert(high << 8 == high * 256) by (bit_vector)
            requires
                0 <= high < 256,
        ;
    }
    let word: i32 = (high << 8) + low;
    if word >= 0x8000 {
        word - 65536
    } else {
        word
    }
}

/// The die temperature in hundredths of a degree Celsius, as a function
/// of the decoded raw word: `raw / TEMP_SENSITIVITY + 36.53` degrees,
/// scaled by 100 and truncated toward zero.
pub open spec fn spec_temp_centi(raw: int) -> int {
    spec_div_trunc(raw * 100, TEMP_SENSITIVITY as int) + TEMP_OFFSET_CENTI
}

/// Converts a decoded raw temperature word to hundredths of a degree
/// Celsius. A raw word of zero maps exactly to the datasheet offset,
/// 36.53 degrees.
pub fn temp_centi(raw: i32) -> (r: i32)
    requires
        -32768 <= raw <= 32767,
    ensures
        r == spec_temp_centi(raw as int),
        raw == 0 ==> r == TEMP_OFFSET_CENTI,
{
    if raw >= 0 {
        let scaled: u32 = (raw as u32) * 100;
        let q: u32 = scaled / 340;
        (q as i32) + TEMP_OFFSET_CENTI
    } else {
        let scaled: u32 = ((-raw) as u32) * 100;
        let q: u32 = scaled / 340;
        -(q as i32) + TEMP_OFFSET_CENTI
    }
}

/// Divides `a` by the positive divisor `b`, rounding toward zero.
pub fn div_trunc(a: i32, b: i32) -> (r: i32)
    requires
        -2_000_000_000 <= a <= 2_000_000_000,
        0 < b,
    ensures
        r == spec_div_trunc(a as int, b as int),
{
    if a >= 0 {
        ((a as u32) / (b as u32)) as i32
    } else {
        -((((-a) as u32) / (b as u32)) as i32)
    }
}

/// The temperature conversion is monotonic in the raw word.
pub proof fn lemma_temp_centi_monotonic(a: int, b: int)
    requires
        a <= b,
    ensures
        spec_temp_centi(a) <= spec_temp_centi(b),
{
    lemma_div_trunc_monotonic(a * 100, b * 100, 340);
    vstd::arithmetic::mul::lemma_mul_inequality(a, b, 100);
    assert(a * 100 == 100 * a) by (nonlinear_arith);
    assert(b * 100 == 100 * b) by (nonlinear_arith);
}

/// Truncating division by a positive divisor is monotonic.
pub proof fn lemma_div_trunc_monotonic(a: int, b: int, d: int)
    requires
        a <= b,
        d > 0,
    ensures
        spec_div_trunc(a, d) <= spec_div_trunc(b, d),
{
    if a >= 0 {
        vstd::arithmetic::div_mod::lemma_div_is_ordered(a, b, d);
    } else if b < 0 {
        vstd::arithmetic::div_mod::lemma_div_is_ordered(-b, -a, d);
    } else {
        vstd::arithmetic::div_mod::lemma_div_pos_is_pos(-a, d);
        vstd::arithmetic::div_mod::lemma_div_pos_is_pos(b, d);
    }
}

} // verus!
