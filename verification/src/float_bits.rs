//! Predicates on IEEE-754 bit patterns.
//!
//! The document format carries real-valued fields (prior locations,
//! scales, percentiles, stoichiometric coefficients). The library holds
//! each such value as its bit pattern: `u64` for double precision,
//! `u32` for single precision. The predicates the engine needs — sign
//! classification, NaN detection, ordering — are plain functions of the
//! bit layout (sign bit, biased exponent, mantissa) and are defined and
//! verified here directly; no floating-point arithmetic is performed.

use vstd::prelude::*;

verus! {

/// The magnitude part of a double-precision pattern: everything but
/// the sign bit.
pub open spec fn f64_mag_of(bits: u64) -> u64 {
    bits & 0x7FFF_FFFF_FFFF_FFFF
}

/// A double-precision pattern is NaN when its magnitude exceeds that
/// of infinity (biased exponent all ones, mantissa nonzero).
pub open spec fn f64_is_nan_of(bits: u64) -> bool {
    f64_mag_of(bits) > 0x7FF0_0000_0000_0000
}

/// The sign bit of a double-precision pattern.
pub open spec fn f64_sign_of(bits: u64) -> bool {
    bits >= 0x8000_0000_0000_0000
}

/// IEEE-754 `<` on double-precision patterns: false when either side
/// is NaN; the two zeros are equal; otherwise negatives order by
/// descending magnitude, positives by ascending magnitude.
pub open spec fn f64_lt_of(a: u64, b: u64) -> bool {
    if f64_is_nan_of(a) || f64_is_nan_of(b) {
        false
    } else {
        let ma = f64_mag_of(a);
        let mb = f64_mag_of(b);
        if f64_sign_of(a) {
            if f64_sign_of(b) {
                mb < ma
            } else {
                !(ma == 0 && mb == 0)
            }
        } else {
            if f64_sign_of(b) {
                false
            } else {
                ma < mb
            }
        }
    }
}

/// IEEE-754 `<` on double-precision bit patterns.
pub fn f64_lt(a: u64, b: u64) -> (r: bool)
    ensures
        r == f64_lt_of(a, b),
{
    let ma = a & 0x7FFF_FFFF_FFFF_FFFF;
    let mb = b & 0x7FFF_FFFF_FFFF_FFFF;
    if ma > 0x7FF0_0000_0000_0000 || mb > 0x7FF0_0000_0000_0000 {
        false
    } else if a >= 0x8000_0000_0000_0000 {
        if b >= 0x8000_0000_0000_0000 {
            mb < ma
        } else {
            !(ma == 0 && mb == 0)
        }
    } else {
        if b >= 0x8000_0000_0000_0000 {
            false
        } else {
            ma < mb
        }
    }
}

/// The magnitude part of a single-precision pattern.
pub open spec fn f32_mag_of(bits: u32) -> u32 {
    bits & 0x7FFF_FFFF
}

/// A single-precision pattern is NaN when its magnitude exceeds that
/// of infinity.
pub open spec fn f32_is_nan_of(bits: u32) -> bool {
    f32_mag_of(bits) > 0x7F80_0000
}

/// The pattern denotes a value strictly below zero: sign bit set,
/// magnitude nonzero (negative zero equals zero), and not NaN.
pub open spec fn f32_is_negative_of(bits: u32) -> bool {
    bits >= 0x8000_0000 && f32_mag_of(bits) != 0 && !f32_is_nan_of(bits)
}

/// The pattern's value is strictly below zero.
pub fn f32_is_negative(bits: u32) -> (r: bool)
    ensures
        r == f32_is_negative_of(bits),
{
    let mag = bits & 0x7FFF_FFFF;
    bits >= 0x8000_0000 && mag != 0 && !(mag > 0x7F80_0000)
}

/// The pattern's magnitude is exactly one (the pattern of 1.0f32 is
/// 0x3F80_0000: biased exponent 127, mantissa zero).
pub open spec fn f32_is_unit_of(bits: u32) -> bool {
    f32_mag_of(bits) == 0x3F80_0000
}

/// The pattern's value is exactly 1 or -1.
pub fn f32_is_unit(bits: u32) -> (r: bool)
    ensures
        r == f32_is_unit_of(bits),
{
    bits & 0x7FFF_FFFF == 0x3F80_0000
}

} // verus!
