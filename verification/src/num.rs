//! Scalar model of the field values.
//!
//! Every field sample, coefficient and source amplitude in this crate is an
//! IEEE 754 double-precision value carried as its 64-bit pattern (`u64`).
//! The four rounded arithmetic operations and the square root are supplied by
//! the `const_soft_float` crate, which implements them as pure integer
//! algorithms over the bit patterns, so each is a deterministic function of
//! its operand bits; the names below stand for those functions in contracts.

use vstd::prelude::*;
use const_soft_float::soft_f64::SoftF64;

verus! {

/// Bit pattern of positive zero.
pub const F_ZERO: u64 = 0;
/// Bit pattern of 1.0.
pub const F_ONE: u64 = 0x3ff0000000000000;
/// Bit pattern of 2.0.
pub const F_TWO: u64 = 0x4000000000000000;
/// Mask of the sign bit.
pub const F_SIGN_MASK: u64 = 0x8000000000000000;
/// Bit pattern of positive infinity; also the lower bound of the
/// non-finite encodings when the sign bit is cleared.
pub const F_POS_INF: u64 = 0x7ff0000000000000;

/// The encoded value is neither an infinity nor a NaN.
pub open spec fn is_finite(a: u64) -> bool {
    (a & 0x7fffffffffffffffu64) < 0x7ff0000000000000u64
}

/// The encoded value is a NaN (exponent all ones, mantissa non-zero).
pub open spec fn is_nan(a: u64) -> bool {
    (a & 0x7fffffffffffffffu64) > 0x7ff0000000000000u64
}

/// The encoded value is an infinity of either sign.
pub open spec fn is_inf(a: u64) -> bool {
    (a & 0x7fffffffffffffffu64) == 0x7ff0000000000000u64
}

/// The encoded value is a zero of either sign.
pub open spec fn is_zero_val(a: u64) -> bool {
    (a & 0x7fffffffffffffffu64) == 0u64
}

/// The encoded value is finite and carries a cleared sign bit: exactly the
/// bit patterns below that of positive infinity.
pub open spec fn is_nonneg_finite(a: u64) -> bool {
    a < 0x7ff0000000000000u64
}

/// Numeric equality of two encoded values: equal bit patterns of a
/// non-NaN value, or two zeroes of either sign.
pub open spec fn val_eq(a: u64, b: u64) -> bool {
    (a == b && !is_nan(a)) || (is_zero_val(a) && is_zero_val(b))
}

/// Names the IEEE 754 rounded sum of two doubles given as bit patterns.
pub uninterp spec fn add_bits(a: u64, b: u64) -> u64;

/// Names the IEEE 754 rounded difference of two doubles given as bit patterns.
pub uninterp spec fn sub_bits(a: u64, b: u64) -> u64;

/// Names the IEEE 754 rounded product of two doubles given as bit patterns.
pub uninterp spec fn mul_bits(a: u64, b: u64) -> u64;

/// Names the IEEE 754 rounded quotient of two doubles given as bit patterns.
pub uninterp spec fn div_bits(a: u64, b: u64) -> u64;

/// Names the IEEE 754 correctly rounded square root of a double given as a
/// bit pattern.
pub uninterp spec fn sqrt_bits(a: u64) -> u64;

/// Relies on const_soft_float's SoftF64::add: the rounded IEEE 754 sum,
/// computed from the operand bits alone. Its source returns the bitwise-and
/// of two zero operands, so positive zero plus positive zero is positive zero.
#[verifier::external_body]
pub fn f_add(a: u64, b: u64) -> (r: u64)
    ensures
        r == add_bits(a, b),
        a == F_ZERO && b == F_ZERO ==> r == F_ZERO,
{
    SoftF64::from_bits(a).add(SoftF64::from_bits(b)).to_bits()
}

/// Relies on const_soft_float's SoftF64::sub: the rounded IEEE 754
/// difference, computed from the operand bits alone. Its source negates the
/// second operand and adds, so positive zero minus positive zero is positive
/// zero.
#[verifier::external_body]
pub fn f_sub(a: u64, b: u64) -> (r: u64)
    ensures
        r == sub_bits(a, b),
        a == F_ZERO && b == F_ZERO ==> r == F_ZERO,
{
    SoftF64::from_bits(a).sub(SoftF64::from_bits(b)).to_bits()
}

/// Relies on const_soft_float's SoftF64::mul: the rounded IEEE 754 product,
/// computed from the operand bits alone. Its source returns a zero carrying
/// the exclusive-or of the signs when either operand is a zero and the other
/// is neither an infinity nor a NaN.
#[verifier::external_body]
pub fn f_mul(a: u64, b: u64) -> (r: u64)
    ensures
        r == mul_bits(a, b),
        is_nonneg_finite(a) && b == F_ZERO ==> r == F_ZERO,
        a == F_ZERO && is_nonneg_finite(b) ==> r == F_ZERO,
{
    SoftF64::from_bits(a).mul(SoftF64::from_bits(b)).to_bits()
}

/// Relies on const_soft_float's SoftF64::div: the rounded IEEE 754 quotient,
/// computed from the operand bits alone.
#[verifier::external_body]
pub fn f_div(a: u64, b: u64) -> (r: u64)
    ensures
        r == div_bits(a, b),
{
    SoftF64::from_bits(a).div(SoftF64::from_bits(b)).to_bits()
}

/// Relies on const_soft_float's SoftF64::sqrt: the correctly rounded IEEE 754
/// square root, computed from the operand bits alone.
#[verifier::external_body]
pub fn f_sqrt(a: u64) -> (r: u64)
    ensures
        r == sqrt_bits(a),
{
    SoftF64::from_bits(a).sqrt().to_bits()
}

/// Negation of an encoded double: IEEE 754 negation flips the sign bit and
/// leaves the rest of the pattern unchanged.
pub open spec fn neg_bits(a: u64) -> u64 {
    a ^ 0x8000000000000000u64
}

/// Flips the sign bit of an encoded double.
pub fn f_neg(a: u64) -> (r: u64)
    ensures
        r == neg_bits(a),
{
    a ^ F_SIGN_MASK
}

} // verus!
