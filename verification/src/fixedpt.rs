//! Fixed-point evaluation of products of binary64 values.
//!
//! A finite binary64 pattern with exponent field `e` and fraction `f` encodes
//! the value `sig * 2^(pe - 1075)` (up to sign), where `sig = f + 2^52` and
//! `pe = e` for normal numbers, and `sig = f`, `pe = 1` for subnormals. The
//! product of two such values is therefore the exact rational
//! `sig_a * sig_b * 2^(pe_a + pe_b - 2150)`. This module computes such
//! products scaled by 2^100 and truncated to an integer — a fixed-point
//! representation with 100 fractional bits, far finer than the 1e-5 tolerance
//! the validations use — and decides the cosine/sine identity
//! `|s1^2 + s2^2 - 1| < 1e-5` exactly on that representation.

use vstd::prelude::*;
use vstd::arithmetic::power2::{
    pow2, lemma_pow2_adds, lemma_pow2_pos, lemma_pow2_strictly_increases, lemma2_to64,
    lemma2_to64_rest,
};
use vstd::arithmetic::power2::lemma_pow2_unfold;
use vstd::arithmetic::div_mod::{lemma_basic_div, lemma_div_is_ordered};
use crate::fbits::{exp_field, frac_field, sign_neg, small_magnitude, FRAC_WEIGHT};

verus! {

/// 2^100, the fixed-point scale: an integer `x` in this representation stands
/// for the real number `x / SCALE_FP`.
pub const SCALE_FP: u128 = 0x10_0000_0000_0000_0000_0000_0000;

/// The significand of a binary64 pattern: the fraction with the implicit
/// leading bit added for normal numbers.
pub open spec fn sig_of(b: u64) -> int {
    if exp_field(b) == 0 {
        frac_field(b)
    } else {
        frac_field(b) + FRAC_WEIGHT as int
    }
}

/// The effective power-of-two exponent of a binary64 pattern, before the
/// -1075 bias: subnormals share the exponent of the smallest normals.
pub open spec fn pexp_of(b: u64) -> int {
    if exp_field(b) == 0 {
        1
    } else {
        exp_field(b)
    }
}

/// The magnitude of the product of the values of `a` and `b`, scaled by 2^100
/// and truncated toward zero. Meaningful for magnitudes below 2.0 (the scaled
/// exponent `2050 - pexp_of(a) - pexp_of(b)` is then at least 4).
pub open spec fn prod_mag_fp(a: u64, b: u64) -> int {
    sig_of(a) * sig_of(b) / (pow2((2050 - pexp_of(a) - pexp_of(b)) as nat) as int)
}

/// The signed fixed-point product of the values of `a` and `b`.
pub open spec fn prod_fp(a: u64, b: u64) -> int {
    if sign_neg(a) != sign_neg(b) {
        -prod_mag_fp(a, b)
    } else {
        prod_mag_fp(a, b)
    }
}

/// The square of the value of `b`, scaled by 2^100 and truncated toward zero.
pub open spec fn square_fp(b: u64) -> int {
    prod_mag_fp(b, b)
}

/// The cosine/sine identity at tolerance 1e-5: the squares of the two values,
/// in fixed point, sum to 1 within 1e-5. Because 2^100 is not a multiple of
/// 100000, equality is impossible and the strictness of `<` never decides.
pub open spec fn cos_sin_identity(a: u64, b: u64) -> bool {
    100000 * abs_int(square_fp(a) + square_fp(b) - pow2(100)) < pow2(100)
}

/// The absolute value of a mathematical integer.
pub open spec fn abs_int(x: int) -> int {
    if x < 0 {
        -x
    } else {
        x
    }
}

/// The largest fixed-point magnitude within the 1e-5 tolerance:
/// floor(2^100 / 100000).
pub const TOLERANCE_FP: u128 = SCALE_FP / 100000;

/// Comparing a nonnegative fixed-point magnitude against the 1e-5 tolerance
/// reduces to comparing against `TOLERANCE_FP`; and because 2^100 is not a
/// multiple of 100000, the strict and non-strict comparisons coincide.
pub proof fn lemma_tolerance_threshold(x: int)
    requires
        0 <= x,
    ensures
        (100000 * x < pow2(100)) <==> x <= TOLERANCE_FP as int,
        (100000 * x <= pow2(100)) <==> x <= TOLERANCE_FP as int,
{
    lemma_pow2_constants();
}

/// Concrete values of the powers of two this module computes with.
pub proof fn lemma_pow2_constants()
    ensures
        pow2(100) == SCALE_FP,
        pow2(102) == 0x40_0000_0000_0000_0000_0000_0000,
        pow2(106) == 0x400_0000_0000_0000_0000_0000_0000,
        pow2(127) == 0x8000_0000_0000_0000_0000_0000_0000_0000,
        pow2(53) == 0x20_0000_0000_0000,
{
    lemma2_to64();
    lemma2_to64_rest();
    lemma_pow2_adds(64, 36);
    lemma_pow2_adds(64, 38);
    lemma_pow2_adds(64, 42);
    lemma_pow2_adds(64, 63);
}

/// 2^k as a u128, computed by repeated doubling.
fn pow2_u128(k: u64) -> (r: u128)
    requires
        k < 128,
    ensures
        r == pow2(k as nat),
        r > 0,
{
    proof {
        lemma2_to64();
        lemma_pow2_pos(k as nat);
    }
    let mut r: u128 = 1;
    let mut i: u64 = 0;
    while i < k
        invariant
            i <= k,
            k < 128,
            r == pow2(i as nat),
        decreases k - i,
    {
        proof {
            lemma_pow2_constants();
            lemma_pow2_unfold((i + 1) as nat);
            if i + 1 < 127 {
                lemma_pow2_strictly_increases((i + 1) as nat, 127);
            }
        }
        r = r * 2;
        i = i + 1;
    }
    r
}

/// The significand and effective exponent of a pattern, as exec values.
fn sig_pexp_of(b: u64) -> (r: (u64, u64))
    ensures
        r.0 as int == sig_of(b),
        r.1 as int == pexp_of(b),
        r.0 < 0x20_0000_0000_0000,
        1 <= r.1 <= 0x7FF,
{
    let e: u64 = (b / FRAC_WEIGHT) % 0x800;
    let f: u64 = b % FRAC_WEIGHT;
    if e == 0 {
        (f, 1)
    } else {
        (f + FRAC_WEIGHT, e)
    }
}

/// The magnitude of the fixed-point product of two patterns whose magnitudes
/// are below 2.0.
fn prod_mag_fixed(a: u64, b: u64) -> (r: u128)
    requires
        small_magnitude(a),
        small_magnitude(b),
    ensures
        r as int == prod_mag_fp(a, b),
        r < 0x40_0000_0000_0000_0000_0000_0000,
{
    let (sig_a, pe_a) = sig_pexp_of(a);
    let (sig_b, pe_b) = sig_pexp_of(b);
    proof {
        lemma_pow2_constants();
        assert((sig_a as int) * (sig_b as int) < 0x400_0000_0000_0000_0000_0000_0000)
            by (nonlinear_arith)
            requires
                sig_a < 0x20_0000_0000_0000,
                sig_b < 0x20_0000_0000_0000,
        ;
    }
    let prod: u128 = (sig_a as u128) * (sig_b as u128);
    let shift: u64 = 2050 - pe_a - pe_b;
    if shift >= 106 {
        proof {
            if 106 < shift {
                lemma_pow2_strictly_increases(106, shift as nat);
            }
            lemma_basic_div(prod as int, pow2(shift as nat) as int);
        }
        0
    } else {
        let divisor = pow2_u128(shift);
        let q = prod / divisor;
        proof {
            lemma_pow2_pos(shift as nat);
            lemma_pow2_pos(4);
            lemma2_to64();
            if 4 < shift {
                lemma_pow2_strictly_increases(4, shift as nat);
            }
            vstd::arithmetic::div_mod::lemma_div_is_ordered_by_denominator(
                prod as int,
                16,
                pow2(shift as nat) as int,
            );
            lemma_div_is_ordered(
                prod as int,
                0x400_0000_0000_0000_0000_0000_0000 - 1,
                16,
            );
        }
        q
    }
}

/// The fixed-point square of a pattern whose magnitude is below 2.0.
pub fn square_fixed(b: u64) -> (r: u128)
    requires
        small_magnitude(b),
    ensures
        r as int == square_fp(b),
        r < 0x40_0000_0000_0000_0000_0000_0000,
{
    prod_mag_fixed(b, b)
}

/// The signed fixed-point product of two patterns whose magnitudes are below
/// 2.0.
pub fn product_fixed(a: u64, b: u64) -> (r: i128)
    requires
        small_magnitude(a),
        small_magnitude(b),
    ensures
        r as int == prod_fp(a, b),
        -0x40_0000_0000_0000_0000_0000_0000 < r < 0x40_0000_0000_0000_0000_0000_0000,
{
    let mag = prod_mag_fixed(a, b);
    let neg_a: bool = a / crate::fbits::SIGN_BIT == 1;
    let neg_b: bool = b / crate::fbits::SIGN_BIT == 1;
    if neg_a != neg_b {
        -(mag as i128)
    } else {
        mag as i128
    }
}

/// Decides the cosine/sine identity `|a^2 + b^2 - 1| < 1e-5` in fixed point.
pub fn check_cos_sin_identity(a: u64, b: u64) -> (r: bool)
    requires
        small_magnitude(a),
        small_magnitude(b),
    ensures
        r == cos_sin_identity(a, b),
{
    proof {
        lemma_pow2_constants();
    }
    let sa = square_fixed(a);
    let sb = square_fixed(b);
    let sum = sa + sb;
    let diff: u128 = if sum >= SCALE_FP {
        sum - SCALE_FP
    } else {
        SCALE_FP - sum
    };
    100000 * diff < SCALE_FP
}

} // verus!
