//! Clamping of integer sources into the range of finite `f32` values.
use vstd::prelude::*;

verus! {

/// The largest finite `f32` value, `(2^24 - 1) * 2^104`, as an integer.
///
/// It is exactly representable in `f32`, so casting it gives `f32::MAX`.
pub const F32_MAX_INTEGER: u128 = 0xFFFF_FF00_0000_0000_0000_0000_0000_0000;

/// `f32::MAX` as the mathematical integer it denotes.
pub open spec fn f32_max_value() -> int {
    (0x100_0000 - 1) * 0x100_0000_0000_0000_0000_0000_0000
}

/// The exact value `x`, clamped into `[-f32::MAX, f32::MAX]`.
pub open spec fn clamp_to_f32_range(x: int) -> int {
    if x > f32_max_value() {
        f32_max_value()
    } else if x < -f32_max_value() {
        -f32_max_value()
    } else {
        x
    }
}

/// An integer type whose values can be clamped into the finite `f32` range.
///
/// The result of `saturate_to_f32_range` casts to a finite `f32`: a value of
/// magnitude at most `f32::MAX` rounds to a value of magnitude at most
/// `f32::MAX`, because `f32::MAX` itself is representable.
pub trait SaturateToF32Range: Sized {
    /// The mathematical integer that `self` denotes.
    spec fn int_value(self) -> int;

    /// Returns `self` clamped into `[-f32::MAX, f32::MAX]`.
    fn saturate_to_f32_range(self) -> (r: Self)
        ensures
            r.int_value() == clamp_to_f32_range(self.int_value()),
    ;
}

/// `f32::MAX` truncated to `u32`: the cast saturates at `u32::MAX`.
pub const F32_MAX_IN_U32: u32 = u32::MAX;

/// `f32::MAX` truncated to `u64`: the cast saturates at `u64::MAX`.
pub const F32_MAX_IN_U64: u64 = u64::MAX;

/// `f32::MAX` truncated to `usize`: the cast saturates at `usize::MAX`.
pub const F32_MAX_IN_USIZE: usize = usize::MAX;

/// `f32::MAX` truncated to `i64`: the cast saturates at `i64::MAX`.
pub const F32_MAX_IN_I64: i64 = i64::MAX;

/// `f32::MIN` truncated to `i64`: the cast saturates at `i64::MIN`.
pub const F32_MIN_IN_I64: i64 = i64::MIN;

/// `f32::MAX` truncated to `u128`: it fits, so nothing is lost.
pub const F32_MAX_IN_U128: u128 = F32_MAX_INTEGER;

impl SaturateToF32Range for u32 {
    open spec fn int_value(self) -> int {
        self as int
    }

    fn saturate_to_f32_range(self) -> (r: u32) {
        if self > F32_MAX_IN_U32 {
            F32_MAX_IN_U32
        } else {
            self
        }
    }
}

impl SaturateToF32Range for u64 {
    open spec fn int_value(self) -> int {
        self as int
    }

    fn saturate_to_f32_range(self) -> (r: u64) {
        if self > F32_MAX_IN_U64 {
            F32_MAX_IN_U64
        } else {
            self
        }
    }
}

impl SaturateToF32Range for usize {
    open spec fn int_value(self) -> int {
        self as int
    }

    fn saturate_to_f32_range(self) -> (r: usize) {
        if self > F32_MAX_IN_USIZE {
            F32_MAX_IN_USIZE
        } else {
            self
        }
    }
}

impl SaturateToF32Range for i64 {
    open spec fn int_value(self) -> int {
        self as int
    }

    fn saturate_to_f32_range(self) -> (r: i64) {
        if self > F32_MAX_IN_I64 {
            F32_MAX_IN_I64
        } else if self < F32_MIN_IN_I64 {
            F32_MIN_IN_I64
        } else {
            self
        }
    }
}

impl SaturateToF32Range for u128 {
    open spec fn int_value(self) -> int {
        self as int
    }

    fn saturate_to_f32_range(self) -> (r: u128) {
        assert(F32_MAX_IN_U128 as int == f32_max_value());
        if self > F32_MAX_IN_U128 {
            F32_MAX_IN_U128
        } else {
            self
        }
    }
}

/// The largest `u128` becomes exactly `f32::MAX`.
pub proof fn lemma_u128_maximum_saturates()
    ensures
        clamp_to_f32_range(u128::MAX as int) == F32_MAX_INTEGER as int,
        F32_MAX_INTEGER as int == f32_max_value(),
{
}

/// Zero is kept as it is.
pub proof fn lemma_zero_kept()
    ensures
        clamp_to_f32_range(0) == 0,
{
}

/// A source that is not negative, so every unsigned one, gives a result that
/// is not negative.
pub proof fn lemma_nonnegative_kept_nonnegative(x: int)
    requires
        x >= 0,
    ensures
        clamp_to_f32_range(x) >= 0,
{
}

/// Every result lies within `[-f32::MAX, f32::MAX]`, so it casts to a finite
/// `f32`.
pub proof fn lemma_result_within_f32_range(x: int)
    ensures
        -f32_max_value() <= clamp_to_f32_range(x) <= f32_max_value(),
{
}

} // verus!
