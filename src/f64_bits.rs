//! Clamping of a double, given by its IEEE 754 bit pattern, into the range of
//! finite `f32` values.
//!
//! A double is held here as its 64 bits: one sign bit, then 63 bits of
//! magnitude (exponent over mantissa). For patterns that are not NaN, IEEE 754
//! orders the values as the sign-magnitude integers of their bits: a larger
//! magnitude field is a larger absolute value, and the sign bit negates it
//! (`+0.0` and `-0.0` both have magnitude zero and compare equal).
use vstd::prelude::*;

verus! {

/// The sign bit of a double.
pub const F64_SIGN_BIT: u64 = 0x8000_0000_0000_0000;

/// The exponent and mantissa fields of a double.
pub const F64_MAGNITUDE_MASK: u64 = 0x7FFF_FFFF_FFFF_FFFF;

/// The magnitude field of an infinite double: all exponent bits set, mantissa
/// zero. Larger magnitudes are NaN; smaller ones are finite.
pub const F64_INFINITY_MAGNITUDE: u64 = 0x7FF0_0000_0000_0000;

/// The bits of `f32::MAX` widened to `f64`: exponent `127 + 1023`, then the
/// 23 mantissa bits of `f32::MAX` all set, then 29 zero bits.
pub const F32_MAX_AS_F64_BITS: u64 = 0x47EF_FFFF_E000_0000;

/// The bits of `f64::MAX`.
pub const F64_MAX_BITS: u64 = 0x7FEF_FFFF_FFFF_FFFF;

/// The bits of `f64::MIN`.
pub const F64_MIN_BITS: u64 = 0xFFEF_FFFF_FFFF_FFFF;

/// The bits of `-0.0`.
pub const F64_NEGATIVE_ZERO_BITS: u64 = 0x8000_0000_0000_0000;

/// The bits of `f32::MIN` widened to `f64`: `f32::MAX` with the sign bit set.
pub const F32_MIN_AS_F64_BITS: u64 = 0xC7EF_FFFF_E000_0000;

/// The magnitude field of the double with bits `b`.
pub open spec fn magnitude(b: u64) -> int {
    b as int % 0x8000_0000_0000_0000
}

/// Whether the sign bit of `b` is set.
pub open spec fn is_negative(b: u64) -> bool {
    b >= 0x8000_0000_0000_0000
}

/// Whether `b` encodes a NaN.
pub open spec fn is_nan(b: u64) -> bool {
    magnitude(b) > F64_INFINITY_MAGNITUDE
}

/// Whether `b` encodes a finite double.
pub open spec fn is_finite(b: u64) -> bool {
    magnitude(b) < F64_INFINITY_MAGNITUDE
}

/// For `b` that is not NaN, an integer that orders as the double it encodes.
pub open spec fn order_key(b: u64) -> int {
    if is_negative(b) {
        -magnitude(b)
    } else {
        magnitude(b)
    }
}

/// The order key of `f32::MAX` as a double.
pub open spec fn f32_max_key() -> int {
    F32_MAX_AS_F64_BITS as int
}

/// Whether `r` is what clamping the double `b` into `[f32::MIN, f32::MAX]`
/// gives: NaN is passed through unchanged, a value out of range becomes the
/// nearer bound, and a value in range (either zero included) is kept as it is.
pub open spec fn is_f32_range_clamp(b: u64, r: u64) -> bool {
    if is_nan(b) {
        r == b
    } else if order_key(b) > f32_max_key() {
        r == F32_MAX_AS_F64_BITS
    } else if order_key(b) < -f32_max_key() {
        r == F32_MIN_AS_F64_BITS
    } else {
        r == b
    }
}

/// Clamps the double with bits `bits` into `[f32::MIN, f32::MAX]` and returns
/// the bits of the result. Narrowing that result to `f32` is then exact at the
/// bounds and never overflows.
pub fn f64_bits_to_f32_range(bits: u64) -> (r: u64)
    ensures
        is_f32_range_clamp(bits, r),
{
    let magnitude_bits = bits & F64_MAGNITUDE_MASK;
    let negative = bits & F64_SIGN_BIT != 0;
    assert(magnitude_bits == bits % 0x8000_0000_0000_0000) by (bit_vector)
        requires
            magnitude_bits == bits & 0x7FFF_FFFF_FFFF_FFFF,
    ;
    assert(negative == (bits >= 0x8000_0000_0000_0000)) by (bit_vector)
        requires
            negative == (bits & 0x8000_0000_0000_0000 != 0),
    ;
    if magnitude_bits > F64_INFINITY_MAGNITUDE {
        bits
    } else if magnitude_bits > F32_MAX_AS_F64_BITS {
        if negative {
            F32_MIN_AS_F64_BITS
        } else {
            F32_MAX_AS_F64_BITS
        }
    } else {
        bits
    }
}

/// The largest and the smallest finite doubles become `f32::MAX` and
/// `f32::MIN`.
pub proof fn lemma_double_extremes_saturate(r_max: u64, r_min: u64)
    requires
        is_f32_range_clamp(F64_MAX_BITS, r_max),
        is_f32_range_clamp(F64_MIN_BITS, r_min),
    ensures
        r_max == F32_MAX_AS_F64_BITS,
        r_min == F32_MIN_AS_F64_BITS,
{
}

/// Zero, of either sign, is kept as it is.
pub proof fn lemma_double_zero_kept(r_pos: u64, r_neg: u64)
    requires
        is_f32_range_clamp(0, r_pos),
        is_f32_range_clamp(F64_NEGATIVE_ZERO_BITS, r_neg),
    ensures
        r_pos == 0,
        r_neg == F64_NEGATIVE_ZERO_BITS,
{
}

/// Any double that is not NaN, infinities included, becomes a finite double
/// within `[f32::MIN, f32::MAX]`.
pub proof fn lemma_double_result_finite(b: u64, r: u64)
    requires
        !is_nan(b),
        is_f32_range_clamp(b, r),
    ensures
        is_finite(r),
        -f32_max_key() <= order_key(r) <= f32_max_key(),
{
}

} // verus!
