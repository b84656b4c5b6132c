//! Saturating conversion into the finite range of IEEE 754 single precision.
//!
//! Audio code often narrows wide or unsigned numbers into `f32` samples. A
//! plain cast may overflow to infinity. The functions here do the part of that
//! narrowing that decides: they clamp a source value into the closed range
//! `[-f32::MAX, f32::MAX]` first, after which an ordinary cast to `f32` yields
//! a finite value.
//!
//! * [`saturate::SaturateToF32Range`] clamps integer sources.
//! * [`f64_bits`] clamps a double given by its IEEE 754 bit pattern.
use vstd::prelude::*;

pub mod f64_bits;
pub mod saturate;

verus! {

} // verus!
