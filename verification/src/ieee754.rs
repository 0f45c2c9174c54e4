//! Predicates on IEEE-754 bit patterns.
//!
//! The oscilloscope keeps every real-valued quantity (samples, zoom factors,
//! tempo, sample rate, song position) as the bit pattern of its `f32`/`f64`
//! value. The helpers here answer the few questions the core logic asks of
//! those values without converting them: whether a value is finite, whether
//! it is negative, how two non-negative values compare, and whether two
//! values are equal as numbers.
//!
//! For two `f32` values whose sign bits are clear and that are not NaN, the
//! numeric order coincides with the unsigned order of their bit patterns;
//! the clamping rules in this crate rely on that fact.

use vstd::prelude::*;

verus! {

/// Bit pattern of `1.0f32`.
pub const F32_ONE_BITS: u32 = 0x3F80_0000;

/// Bit pattern of positive infinity as an `f32`.
pub const F32_INFINITY_BITS: u32 = 0x7F80_0000;

/// Sign bit of an `f32` bit pattern.
pub const F32_SIGN_BIT: u32 = 0x8000_0000;

/// Sign bit of an `f64` bit pattern.
pub const F64_SIGN_BIT: u64 = 0x8000_0000_0000_0000;

/// Bit pattern of positive infinity as an `f64`.
pub const F64_INFINITY_BITS: u64 = 0x7FF0_0000_0000_0000;

/// The `f32` with these bits is finite: its exponent field is not all ones.
pub open spec fn f32_finite(bits: u32) -> bool {
    bits % 0x8000_0000 < 0x7F80_0000
}

/// The `f32` with these bits has its sign bit set (this includes `-0.0`).
pub open spec fn f32_sign_set(bits: u32) -> bool {
    bits >= 0x8000_0000
}

/// The `f64` with these bits is finite: its exponent field is not all ones.
pub open spec fn f64_finite(bits: u64) -> bool {
    bits % 0x8000_0000_0000_0000 < 0x7FF0_0000_0000_0000
}

/// The `f32` with these bits is finite, positive and strictly greater than
/// the positive finite `f32` whose bits are `floor_bits`.
pub open spec fn f32_finite_above(bits: u32, floor_bits: u32) -> bool {
    f32_finite(bits) && !f32_sign_set(bits) && bits > floor_bits
}

/// Return whether the `f32` with these bits is finite.
pub fn f32_bits_is_finite(bits: u32) -> (finite: bool)
    ensures
        finite == f32_finite(bits),
{
    bits % F32_SIGN_BIT < F32_INFINITY_BITS
}

/// Return whether the `f64` with these bits is finite.
pub fn f64_bits_is_finite(bits: u64) -> (finite: bool)
    ensures
        finite == f64_finite(bits),
{
    bits % F64_SIGN_BIT < F64_INFINITY_BITS
}

/// Return whether the `f32` with bits `bits` is finite and strictly greater
/// than the positive finite `f32` with bits `floor_bits`.
pub fn f32_bits_finite_above(bits: u32, floor_bits: u32) -> (above: bool)
    ensures
        above == f32_finite_above(bits, floor_bits),
{
    f32_bits_is_finite(bits) && bits < F32_SIGN_BIT && bits > floor_bits
}

/// The `f32` with these bits is NaN: its exponent field is all ones and its
/// mantissa is not zero.
pub open spec fn f32_nan(bits: u32) -> bool {
    bits % 0x8000_0000 > 0x7F80_0000
}

/// The `f64` with these bits is NaN.
pub open spec fn f64_nan(bits: u64) -> bool {
    bits % 0x8000_0000_0000_0000 > 0x7FF0_0000_0000_0000
}

/// IEEE equality of two `f32` values given by their bits: NaN equals
/// nothing, `0.0` equals `-0.0`, and otherwise equal values have equal bits.
pub open spec fn f32_ieee_eq(a: u32, b: u32) -> bool {
    !f32_nan(a) && !f32_nan(b) && (a == b || (a % 0x8000_0000 == 0 && b % 0x8000_0000 == 0))
}

/// IEEE equality of two `f64` values given by their bits.
pub open spec fn f64_ieee_eq(a: u64, b: u64) -> bool {
    !f64_nan(a) && !f64_nan(b) && (a == b || (a % 0x8000_0000_0000_0000 == 0 && b
        % 0x8000_0000_0000_0000 == 0))
}

/// Return whether two `f32` values, given by their bits, are equal as IEEE
/// numbers (what `==` on `f32` gives).
pub fn f32_bits_ieee_eq(a: u32, b: u32) -> (equal: bool)
    ensures
        equal == f32_ieee_eq(a, b),
{
    let a_mag = a % F32_SIGN_BIT;
    let b_mag = b % F32_SIGN_BIT;
    a_mag <= F32_INFINITY_BITS && b_mag <= F32_INFINITY_BITS && (a == b || (a_mag == 0 && b_mag == 0))
}

/// Return whether two `f64` values, given by their bits, are equal as IEEE
/// numbers (what `==` on `f64` gives).
pub fn f64_bits_ieee_eq(a: u64, b: u64) -> (equal: bool)
    ensures
        equal == f64_ieee_eq(a, b),
{
    let a_mag = a % F64_SIGN_BIT;
    let b_mag = b % F64_SIGN_BIT;
    a_mag <= F64_INFINITY_BITS && b_mag <= F64_INFINITY_BITS && (a == b || (a_mag == 0 && b_mag == 0))
}

} // verus!
