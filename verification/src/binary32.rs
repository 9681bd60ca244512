//! IEEE-754 binary32 values held as their `u32` bit patterns.
//!
//! The four arithmetic operations are carried out by the `softfloat` crate.
//! Their results are named by uninterpreted functions: the contracts of this
//! library say which operations are applied to which operands, in which
//! order, and leave the rounding to the crate.

use vstd::prelude::*;

verus! {

/// The bit pattern of `+0.0`.
pub const ZERO: u32 = 0;

/// The bit pattern of `2.0`.
pub const TWO: u32 = 0x4000_0000;

/// The bit pattern of `+infinity`, the largest pattern that is not a NaN
/// among those with a clear sign bit.
pub const POSITIVE_INFINITY: u32 = 0x7F80_0000;

/// The sign bit.
pub const SIGN_MASK: u32 = 0x8000_0000;

/// What `softfloat::F32::add` returns for the operands with these bit patterns.
pub uninterp spec fn ieee_add(a: u32, b: u32) -> u32;

/// What `softfloat::F32::sub` returns for the operands with these bit patterns.
pub uninterp spec fn ieee_sub(a: u32, b: u32) -> u32;

/// What `softfloat::F32::mul` returns for the operands with these bit patterns.
pub uninterp spec fn ieee_mul(a: u32, b: u32) -> u32;

/// What `softfloat::F32::div` returns for the operands with these bit patterns.
pub uninterp spec fn ieee_div(a: u32, b: u32) -> u32;

/// The pattern encodes a NaN: all exponent bits set and a nonzero fraction.
pub open spec fn is_nan(bits: u32) -> bool {
    (bits & 0x7F80_0000) == 0x7F80_0000 && (bits & 0x007F_FFFF) != 0
}

/// The pattern encodes `+0.0` or `-0.0`.
pub open spec fn is_zero(bits: u32) -> bool {
    bits == ZERO || bits == SIGN_MASK
}

/// The value is neither an infinity nor a NaN: some exponent bit is clear.
pub open spec fn is_finite(bits: u32) -> bool {
    (bits & 0x7F80_0000) != 0x7F80_0000
}

/// The value is strictly greater than zero: the sign bit is clear, and the
/// pattern is neither a zero nor a NaN.
pub open spec fn is_positive(bits: u32) -> bool {
    (bits & SIGN_MASK) == 0 && !is_zero(bits) && !is_nan(bits)
}

/// The value is greater than or equal to zero: `+0.0`, or strictly positive.
pub open spec fn is_nonnegative(bits: u32) -> bool {
    bits == ZERO || is_positive(bits)
}

/// The value itself where it is strictly positive, else `+0.0`: negative
/// values, `-0.0` and NaN all become `+0.0`.
pub open spec fn clamp_at_zero(bits: u32) -> u32 {
    if is_positive(bits) {
        bits
    } else {
        ZERO
    }
}

/// A strictly positive value is one whose pattern, read as an integer, lies
/// above zero and not above that of `+infinity`.
pub proof fn lemma_positive_range(bits: u32)
    ensures
        is_positive(bits) <==> 0 < bits <= POSITIVE_INFINITY,
{
    assert(((bits & 0x8000_0000) == 0 && !(bits == 0 || bits == 0x8000_0000) && !((bits
        & 0x7F80_0000) == 0x7F80_0000 && (bits & 0x007F_FFFF) != 0)) <==> (0 < bits && bits
        <= 0x7F80_0000)) by (bit_vector);
}

/// Calls `softfloat::F32::add` on the two values. The crate computes the sum
/// from the two bit patterns alone; the contract gives that result its name.
#[verifier::external_body]
pub(crate) fn soft_add(a: u32, b: u32) -> (r: u32)
    ensures
        r == ieee_add(a, b),
{
    softfloat::F32::from_bits(a).add(softfloat::F32::from_bits(b)).to_bits()
}

/// Calls `softfloat::F32::sub` on the two values. The crate computes the
/// difference from the two bit patterns alone; the contract gives that result
/// its name. It also states one case that the crate settles before any
/// rounding: where a zero is taken from `+0.0`, from a positive number or
/// from `+infinity`, the crate negates the zero, adds it, and its addition
/// hands back the other operand bit for bit.
#[verifier::external_body]
pub(crate) fn soft_sub(a: u32, b: u32) -> (r: u32)
    ensures
        r == ieee_sub(a, b),
        is_zero(b) && is_nonnegative(a) ==> r == a,
{
    softfloat::F32::from_bits(a).sub(softfloat::F32::from_bits(b)).to_bits()
}

/// Calls `softfloat::F32::mul` on the two values. The crate computes the
/// product from the two bit patterns alone; the contract gives that result its
/// name. It also states one case that the crate settles before any rounding:
/// a finite value times a zero is a zero, of either sign.
#[verifier::external_body]
pub(crate) fn soft_mul(a: u32, b: u32) -> (r: u32)
    ensures
        r == ieee_mul(a, b),
        is_finite(a) && is_zero(b) ==> is_zero(r),
{
    softfloat::F32::from_bits(a).mul(softfloat::F32::from_bits(b)).to_bits()
}

/// Calls `softfloat::F32::div` on the two values. The crate computes the
/// quotient from the two bit patterns alone, also for a zero divisor; the
/// contract gives that result its name.
#[verifier::external_body]
pub(crate) fn soft_div(a: u32, b: u32) -> (r: u32)
    ensures
        r == ieee_div(a, b),
{
    softfloat::F32::from_bits(a).div(softfloat::F32::from_bits(b)).to_bits()
}

/// Whether the value is strictly greater than zero.
pub fn positive(bits: u32) -> (r: bool)
    ensures
        r == is_positive(bits),
{
    proof {
        lemma_positive_range(bits);
    }
    0 < bits && bits <= POSITIVE_INFINITY
}

/// The value itself where it is strictly positive, else `+0.0`.
pub fn clamped_at_zero(bits: u32) -> (r: u32)
    ensures
        r == clamp_at_zero(bits),
        is_nonnegative(r),
{
    if positive(bits) {
        bits
    } else {
        ZERO
    }
}

/// Whether the value is a zero of either sign.
pub fn zero(bits: u32) -> (r: bool)
    ensures
        r == is_zero(bits),
{
    bits == ZERO || bits == SIGN_MASK
}

} // verus!
