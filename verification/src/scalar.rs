//! Scalar arithmetic on IEEE-754 binary32 values, carried as bit patterns.
//!
//! Every scalar in this crate is a `u32` holding the bit pattern of a binary32
//! value. Arithmetic that needs rounding (addition, subtraction,
//! multiplication, division, square root) is delegated to the softfloat
//! routines of `const_soft_float`; each result is a pure function of the
//! argument bit patterns and is given a name here. Negation and IEEE equality
//! are plain bit logic and are implemented and verified directly.

use const_soft_float::soft_f32::SoftF32;
use vstd::prelude::*;

verus! {

/// Bit pattern of the binary32 value 1.0.
pub const ONE_BITS: u32 = 0x3F80_0000;

/// Sign bit of a binary32 bit pattern.
pub const SIGN_MASK: u32 = 0x8000_0000;

/// Bit pattern of the binary32 sum of `a` and `b`, rounded to nearest even.
pub uninterp spec fn add_bits(a: u32, b: u32) -> u32;

/// Bit pattern of the binary32 difference of `a` and `b`, rounded to nearest even.
pub uninterp spec fn sub_bits(a: u32, b: u32) -> u32;

/// Bit pattern of the binary32 product of `a` and `b`, rounded to nearest even.
pub uninterp spec fn mul_bits(a: u32, b: u32) -> u32;

/// Bit pattern of the binary32 quotient of `a` by `b`, rounded to nearest even.
pub uninterp spec fn div_bits(a: u32, b: u32) -> u32;

/// Bit pattern of the binary32 square root of `a`, rounded to nearest even.
pub uninterp spec fn sqrt_bits(a: u32) -> u32;

/// Relies on `const_soft_float::soft_f32::SoftF32::add`: IEEE-754 binary32
/// addition of the two bit patterns, round to nearest even. The result depends
/// on the bit patterns alone.
#[verifier::external_body]
pub(crate) fn scalar_add(a: u32, b: u32) -> (r: u32)
    ensures
        r == add_bits(a, b),
{
    SoftF32::from_bits(a).add(SoftF32::from_bits(b)).to_bits()
}

/// Relies on `const_soft_float::soft_f32::SoftF32::sub`: IEEE-754 binary32
/// subtraction (addition of the negated operand), round to nearest even. The
/// result depends on the bit patterns alone.
#[verifier::external_body]
pub(crate) fn scalar_sub(a: u32, b: u32) -> (r: u32)
    ensures
        r == sub_bits(a, b),
{
    SoftF32::from_bits(a).sub(SoftF32::from_bits(b)).to_bits()
}

/// Relies on `const_soft_float::soft_f32::SoftF32::mul`: IEEE-754 binary32
/// multiplication, round to nearest even. The result depends on the bit
/// patterns alone.
#[verifier::external_body]
pub(crate) fn scalar_mul(a: u32, b: u32) -> (r: u32)
    ensures
        r == mul_bits(a, b),
{
    SoftF32::from_bits(a).mul(SoftF32::from_bits(b)).to_bits()
}

/// Relies on `const_soft_float::soft_f32::SoftF32::div`: IEEE-754 binary32
/// division, round to nearest even. The result depends on the bit patterns
/// alone.
#[verifier::external_body]
pub(crate) fn scalar_div(a: u32, b: u32) -> (r: u32)
    ensures
        r == div_bits(a, b),
{
    SoftF32::from_bits(a).div(SoftF32::from_bits(b)).to_bits()
}

/// Relies on `const_soft_float::soft_f32::SoftF32::sqrt`: IEEE-754 binary32
/// square root, round to nearest even. The result depends on the bit pattern
/// alone.
#[verifier::external_body]
pub(crate) fn scalar_sqrt(a: u32) -> (r: u32)
    ensures
        r == sqrt_bits(a),
{
    SoftF32::from_bits(a).sqrt().to_bits()
}

/// IEEE-754 negation: the sign bit is flipped, whatever the value (including
/// NaN and infinities).
pub open spec fn neg_bits(a: u32) -> u32 {
    a ^ SIGN_MASK
}

/// Negating a bit pattern twice gives the pattern back.
pub proof fn lemma_neg_bits_involution(a: u32)
    ensures
        neg_bits(neg_bits(a)) == a,
{
    assert((a ^ 0x8000_0000u32) ^ 0x8000_0000u32 == a) by (bit_vector);
}

pub(crate) fn scalar_neg(a: u32) -> (r: u32)
    ensures
        r == neg_bits(a),
{
    a ^ SIGN_MASK
}

/// The pattern encodes a NaN: exponent all ones and a nonzero fraction.
pub open spec fn is_nan_bits(a: u32) -> bool {
    a & 0x7FFF_FFFF > 0x7F80_0000
}

/// The pattern encodes a zero (of either sign).
pub open spec fn is_zero_bits(a: u32) -> bool {
    a & 0x7FFF_FFFF == 0
}

/// IEEE-754 equality of two binary32 bit patterns: NaN equals nothing, the
/// two zeros are equal, and every other value has exactly one bit pattern.
pub open spec fn eq_bits(a: u32, b: u32) -> bool {
    if is_nan_bits(a) || is_nan_bits(b) {
        false
    } else if is_zero_bits(a) && is_zero_bits(b) {
        true
    } else {
        a == b
    }
}

pub(crate) fn scalar_eq(a: u32, b: u32) -> (r: bool)
    ensures
        r == eq_bits(a, b),
{
    if a & 0x7FFF_FFFF > 0x7F80_0000 || b & 0x7FFF_FFFF > 0x7F80_0000 {
        false
    } else if a & 0x7FFF_FFFF == 0 && b & 0x7FFF_FFFF == 0 {
        true
    } else {
        a == b
    }
}

} // verus!
