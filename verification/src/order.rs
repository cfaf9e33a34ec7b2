//! Orders of Bessel functions, held as binary64 bit patterns.
//!
//! An order is a real number in the IEEE 754 double-precision encoding. The
//! library never computes with it; it only reads the three fields of the
//! encoding to decide the sign of the order, its magnitude, and whether it is
//! a whole number. A finite pattern with sign `s`, significand `m` and
//! exponent `e` denotes the dyadic rational `(-1)^s * m * 2^e`.

use vstd::arithmetic::div_mod::lemma_small_mod;
use vstd::arithmetic::power2::{lemma2_to64_rest, lemma_pow2_strictly_increases, pow2};
use vstd::bits::{
    lemma_u64_low_bits_mask_is_mod, lemma_u64_pow2_no_overflow, lemma_u64_shl_is_mul,
};
use vstd::prelude::*;

verus! {

/// The sign bit of a binary64 pattern.
pub const SIGN_MASK: u64 = 0x8000_0000_0000_0000;

/// The 52 stored fraction bits of a binary64 pattern.
pub const FRACTION_MASK: u64 = 0x000f_ffff_ffff_ffff;

/// The leading significand bit that normal numbers do not store.
pub const HIDDEN_BIT: u64 = 0x0010_0000_0000_0000;

/// The biased exponent that marks infinities and NaNs.
pub const EXPONENT_SPECIAL: u64 = 0x7ff;

/// Whether the sign bit is set.
pub open spec fn sign_bit(bits: u64) -> bool {
    bits & SIGN_MASK != 0
}

/// The 11-bit exponent field.
pub open spec fn biased_exponent(bits: u64) -> u64 {
    (bits >> 52) & 0x7ff
}

/// The 52-bit fraction field.
pub open spec fn fraction(bits: u64) -> u64 {
    bits & FRACTION_MASK
}

/// A pattern is finite when it is neither an infinity nor a NaN.
pub open spec fn is_finite(bits: u64) -> bool {
    biased_exponent(bits) != EXPONENT_SPECIAL
}

/// The integer significand `m` of a finite pattern: the fraction for
/// subnormals and zero, the fraction with the hidden bit for normal numbers.
pub open spec fn significand(bits: u64) -> nat {
    if biased_exponent(bits) == 0 {
        fraction(bits) as nat
    } else {
        fraction(bits) as nat + pow2(52)
    }
}

/// The power of two `e` by which the significand of a finite pattern is scaled.
pub open spec fn exponent(bits: u64) -> int {
    if biased_exponent(bits) == 0 {
        -1074
    } else {
        biased_exponent(bits) - 1075
    }
}

/// The pattern denotes zero, of either sign.
pub open spec fn is_zero(bits: u64) -> bool {
    significand(bits) == 0
}

/// The dyadic rational `m * 2^e` is a whole number: either `e` is not
/// negative, or `2^(-e)` divides `m`.
pub open spec fn denotes_integer(bits: u64) -> bool {
    exponent(bits) >= 0 || significand(bits) % pow2((-exponent(bits)) as nat) == 0
}

/// The order is below zero. Zero of either sign counts as not negative.
pub open spec fn is_negative(bits: u64) -> bool {
    sign_bit(bits) && !is_zero(bits)
}

/// The pattern of the absolute value.
pub open spec fn magnitude(bits: u64) -> u64 {
    bits & !SIGN_MASK
}

/// The pattern of the value with the opposite sign.
pub open spec fn negated(bits: u64) -> u64 {
    bits ^ SIGN_MASK
}

/// An order split into its sign and its magnitude.
#[derive(Clone, Copy, Debug, PartialEq, Eq)]
pub struct NormalizedOrder {
    /// The order is strictly below zero.
    pub negative: bool,
    /// The pattern of the absolute value of the order.
    pub magnitude: u64,
    /// The order is a whole number.
    pub integral: bool,
}

/// What `normalize` returns for a pattern.
pub open spec fn normalized(bits: u64) -> NormalizedOrder {
    NormalizedOrder {
        negative: is_negative(bits),
        magnitude: magnitude(bits),
        integral: denotes_integer(bits),
    }
}

/// Clearing or flipping the sign bit leaves exponent and fraction alone.
pub proof fn lemma_sign_only(bits: u64)
    ensures
        !sign_bit(magnitude(bits)),
        biased_exponent(magnitude(bits)) == biased_exponent(bits),
        fraction(magnitude(bits)) == fraction(bits),
        sign_bit(negated(bits)) == !sign_bit(bits),
        biased_exponent(negated(bits)) == biased_exponent(bits),
        fraction(negated(bits)) == fraction(bits),
        magnitude(negated(bits)) == magnitude(bits),
        negated(negated(bits)) == bits,
        magnitude(magnitude(bits)) == magnitude(bits),
{
    assert(((bits & !SIGN_MASK) & SIGN_MASK) == 0) by (bit_vector);
    assert((((bits & !SIGN_MASK) >> 52) & 0x7ff) == ((bits >> 52) & 0x7ff)) by (bit_vector);
    assert(((bits & !SIGN_MASK) & FRACTION_MASK) == (bits & FRACTION_MASK)) by (bit_vector);
    assert((((bits ^ SIGN_MASK) & SIGN_MASK) != 0) == !((bits & SIGN_MASK) != 0))
        by (bit_vector);
    assert((((bits ^ SIGN_MASK) >> 52) & 0x7ff) == ((bits >> 52) & 0x7ff)) by (bit_vector);
    assert(((bits ^ SIGN_MASK) & FRACTION_MASK) == (bits & FRACTION_MASK)) by (bit_vector);
    assert(((bits ^ SIGN_MASK) & !SIGN_MASK) == (bits & !SIGN_MASK)) by (bit_vector);
    assert(((bits ^ SIGN_MASK) ^ SIGN_MASK) == bits) by (bit_vector);
    assert(((bits & !SIGN_MASK) & !SIGN_MASK) == (bits & !SIGN_MASK)) by (bit_vector);
}

/// The magnitude and the negation of a pattern denote the same absolute
/// value as the pattern itself, so they agree with it on every property
/// that does not look at the sign.
pub proof fn lemma_magnitude_keeps_value(bits: u64)
    ensures
        is_finite(magnitude(bits)) == is_finite(bits),
        significand(magnitude(bits)) == significand(bits),
        exponent(magnitude(bits)) == exponent(bits),
        denotes_integer(magnitude(bits)) == denotes_integer(bits),
        is_zero(magnitude(bits)) == is_zero(bits),
        !is_negative(magnitude(bits)),
        is_finite(negated(bits)) == is_finite(bits),
        significand(negated(bits)) == significand(bits),
        exponent(negated(bits)) == exponent(bits),
        denotes_integer(negated(bits)) == denotes_integer(bits),
        is_zero(negated(bits)) == is_zero(bits),
{
    lemma_sign_only(bits);
}

/// A pattern denotes zero exactly when all bits but the sign are clear.
pub proof fn lemma_zero_pattern(bits: u64)
    ensures
        is_zero(bits) <==> magnitude(bits) == 0,
{
    lemma2_to64_rest();
    assert(((bits >> 52) & 0x7ff) == 0 && (bits & FRACTION_MASK) == 0 <==> (bits & !SIGN_MASK)
        == 0) by (bit_vector);
}

/// Tells whether `bits` is neither an infinity nor a NaN.
pub fn finite(bits: u64) -> (r: bool)
    ensures
        r == is_finite(bits),
{
    (bits >> 52) & 0x7ff != EXPONENT_SPECIAL
}

/// Tells whether the finite pattern `bits` denotes a whole number.
pub fn is_integer(bits: u64) -> (r: bool)
    requires
        is_finite(bits),
    ensures
        r == denotes_integer(bits),
{
    let e: u64 = (bits >> 52) & 0x7ff;
    let f: u64 = bits & FRACTION_MASK;
    proof {
        lemma2_to64_rest();
        assert(bits & FRACTION_MASK < 0x0010_0000_0000_0000) by (bit_vector);
        assert((bits >> 52) & 0x7ff <= 0x7ff) by (bit_vector);
    }
    if e == 0 {
        proof {
            lemma_pow2_strictly_increases(52, 1074);
            lemma_small_mod(f as nat, pow2(1074));
        }
        f == 0
    } else if e >= 1075 {
        true
    } else if e < 1023 {
        proof {
            let shift: nat = (1075 - e) as nat;
            if shift > 53 {
                lemma_pow2_strictly_increases(53, shift);
            }
            lemma_small_mod(significand(bits), pow2(shift));
        }
        false
    } else {
        let shift: u64 = 1075 - e;
        let m: u64 = f | HIDDEN_BIT;
        proof {
            assert(f | HIDDEN_BIT == f + 0x0010_0000_0000_0000) by (bit_vector)
                requires
                    f < 0x0010_0000_0000_0000,
            ;
            lemma_u64_pow2_no_overflow(shift as nat);
            lemma_u64_shl_is_mul(1, shift);
            lemma_u64_low_bits_mask_is_mod(m, shift as nat);
        }
        m & ((1u64 << shift) - 1) == 0
    }
}

/// Splits a finite order into sign, magnitude and integrality.
pub fn normalize(nu: u64) -> (r: NormalizedOrder)
    requires
        is_finite(nu),
    ensures
        r == normalized(nu),
        r.magnitude == magnitude(nu),
        is_finite(r.magnitude),
        !sign_bit(r.magnitude),
{
    proof {
        lemma_sign_only(nu);
        lemma_zero_pattern(nu);
    }
    let m: u64 = nu & !SIGN_MASK;
    NormalizedOrder { negative: nu & SIGN_MASK != 0 && m != 0, magnitude: m, integral: is_integer(nu) }
}

} // verus!
