//! An integer model of IEEE-754 binary64 bit patterns.
//!
//! The crate never computes with floating-point values; it carries them as raw
//! `u64` bit patterns and reasons about the fields of the encoding: a sign bit,
//! an 11-bit biased exponent and a 52-bit fraction. Everything the decoder
//! needs from a coefficient — its ordering, whether it lies in `[0, 1]`, and
//! (in `fixedpt`) its square to a fixed precision — is an exact integer
//! function of those fields.

use vstd::prelude::*;

verus! {

/// 2^63: the sign bit of a binary64 pattern.
pub const SIGN_BIT: u64 = 0x8000_0000_0000_0000;

/// 2^52: the weight of the lowest exponent-field bit.
pub const FRAC_WEIGHT: u64 = 0x10_0000_0000_0000;

/// The bit pattern of 1.0 (exponent field 1023, fraction 0).
pub const ONE_BITS: u64 = 0x3FF0_0000_0000_0000;

/// The magnitude of a pattern: its low 63 bits, encoding exponent and fraction.
pub open spec fn magnitude(b: u64) -> int {
    (b as int) % (SIGN_BIT as int)
}

/// Whether the sign bit is set (the encoded value is negative or negative zero).
pub open spec fn sign_neg(b: u64) -> bool {
    (b as int) / (SIGN_BIT as int) == 1
}

/// The 11-bit biased exponent field.
pub open spec fn exp_field(b: u64) -> int {
    ((b as int) / (FRAC_WEIGHT as int)) % 0x800
}

/// The 52-bit fraction field.
pub open spec fn frac_field(b: u64) -> int {
    (b as int) % (FRAC_WEIGHT as int)
}

/// A NaN: exponent field all ones with a nonzero fraction.
pub open spec fn is_nan_bits(b: u64) -> bool {
    exp_field(b) == 0x7FF && frac_field(b) != 0
}

/// A key that orders non-NaN patterns exactly as IEEE-754 orders their values:
/// magnitudes order nonnegative values, the sign negates, and both zeros map
/// to the key 0.
pub open spec fn float_key(b: u64) -> int {
    if sign_neg(b) {
        -magnitude(b)
    } else {
        magnitude(b)
    }
}

/// IEEE-754 `>` on two binary64 bit patterns: false whenever either operand is
/// a NaN, and the key order otherwise (so `-0.0 > 0.0` is false).
pub open spec fn float_gt(a: u64, b: u64) -> bool {
    &&& !is_nan_bits(a)
    &&& !is_nan_bits(b)
    &&& float_key(a) > float_key(b)
}

/// IEEE-754 `<=` on two binary64 bit patterns: false whenever either operand
/// is a NaN.
pub open spec fn float_le(a: u64, b: u64) -> bool {
    &&& !is_nan_bits(a)
    &&& !is_nan_bits(b)
    &&& float_key(a) <= float_key(b)
}

/// The pattern encodes a value in the closed interval [0, 1]: a magnitude of
/// at most 1.0 that is not negative (negative zero is allowed).
pub open spec fn in_unit_interval(b: u64) -> bool {
    &&& magnitude(b) <= ONE_BITS as int
    &&& (!sign_neg(b) || magnitude(b) == 0)
}

/// A magnitude strictly below 2.0, which also rules out NaN and infinity.
/// Patterns in [0, 1] satisfy it; `fixedpt` squares only such patterns.
pub open spec fn small_magnitude(b: u64) -> bool {
    exp_field(b) <= 1023
}

/// The sign bit read as an exec value.
fn sign_neg_of(b: u64) -> (r: bool)
    ensures
        r == sign_neg(b),
{
    b / SIGN_BIT == 1
}

/// The magnitude read as an exec value.
fn magnitude_of(b: u64) -> (r: u64)
    ensures
        r as int == magnitude(b),
{
    b % SIGN_BIT
}

/// Whether the pattern is a NaN, as an exec value.
pub fn f64_bits_is_nan(b: u64) -> (r: bool)
    ensures
        r == is_nan_bits(b),
{
    let e: u64 = (b / FRAC_WEIGHT) % 0x800;
    let f: u64 = b % FRAC_WEIGHT;
    e == 0x7FF && f != 0
}

/// IEEE-754 `>` computed on bit patterns, without touching floating point.
pub fn f64_bits_gt(a: u64, b: u64) -> (r: bool)
    ensures
        r == float_gt(a, b),
{
    if f64_bits_is_nan(a) || f64_bits_is_nan(b) {
        return false;
    }
    let neg_a = sign_neg_of(a);
    let neg_b = sign_neg_of(b);
    let mag_a = magnitude_of(a);
    let mag_b = magnitude_of(b);
    if !neg_a && !neg_b {
        mag_a > mag_b
    } else if !neg_a && neg_b {
        // a >= 0 >= b: strict unless both are zeros.
        mag_a > 0 || mag_b > 0
    } else if neg_a && !neg_b {
        false
    } else {
        mag_a < mag_b
    }
}

/// Whether the pattern encodes a value in [0, 1], as an exec value.
pub fn f64_bits_in_unit_interval(b: u64) -> (r: bool)
    ensures
        r == in_unit_interval(b),
{
    let mag = magnitude_of(b);
    mag <= ONE_BITS && (!sign_neg_of(b) || mag == 0)
}

/// Whether the pattern's magnitude is strictly below 2.0, as an exec value.
pub fn f64_bits_small_magnitude(b: u64) -> (r: bool)
    ensures
        r == small_magnitude(b),
{
    (b / FRAC_WEIGHT) % 0x800 <= 1023
}

/// A value in [0, 1] has magnitude strictly below 2.0.
pub proof fn lemma_unit_interval_is_small(b: u64)
    requires
        in_unit_interval(b),
    ensures
        small_magnitude(b),
        !is_nan_bits(b),
{
}

/// A value in [0, 1] is not a NaN, so `float_gt` on two such values is the
/// magnitude order and `float_le` its complement.
pub proof fn lemma_unit_interval_order(a: u64, b: u64)
    requires
        in_unit_interval(a),
        in_unit_interval(b),
    ensures
        !float_gt(a, b) ==> float_le(a, b),
{
}

} // verus!
