//! The arithmetic of the transform stages: 32-bit wrapping operations,
//! rotation halves, clamps and rounding shifts. Each is opaque, so that a
//! stage-by-stage statement of a transform is compared term by term.

use crate::transform::butterfly::{
    clamp_to, range_hi, range_lo, ButterflyParams,
};
use crate::transform::dc::{half_btf, round_bit, round_shift_out};
use vstd::prelude::*;
use vstd::wrapping::i32_specs::{wrapping_add, wrapping_mul, wrapping_sub};

verus! {

/// `a + b`, wrapping around at 32 bits.
#[verifier::opaque]
pub open spec fn add_w(a: i32, b: i32) -> i32 {
    wrapping_add(a, b)
}

/// `a - b`, wrapping around at 32 bits.
#[verifier::opaque]
pub open spec fn sub_w(a: i32, b: i32) -> i32 {
    wrapping_sub(a, b)
}

/// `a * b`, wrapping around at 32 bits.
#[verifier::opaque]
pub open spec fn mul_w(a: i32, b: i32) -> i32 {
    wrapping_mul(a, b)
}

/// `v` plus the rounding offset of the cosine precision, shifted right by
/// that precision.
#[verifier::opaque]
pub open spec fn round_to_bit(v: i32, p: ButterflyParams) -> i32 {
    round_bit(v, p)
}

/// `a * w0 + b * w1`, rounded and shifted by the cosine precision: one half
/// of a rotation.
#[verifier::opaque]
pub open spec fn rotate_half(a: i32, w0: i32, b: i32, w1: i32, p: ButterflyParams) -> i32 {
    half_btf(a, w0, b, w1, p)
}

/// `v` clamped to the range of code `c`.
#[verifier::opaque]
pub open spec fn clamp_w(v: i32, bd: u32, c: i32) -> i32 {
    clamp_to(v, bd, c)
}

/// `v` rounded and shifted right by the output shift, when it is not zero.
#[verifier::opaque]
pub open spec fn round_out(v: i32, p: ButterflyParams) -> i32 {
    round_shift_out(v, p)
}

/// `x` raised to the lower end of the range of code `c`.
#[verifier::opaque]
pub open spec fn raise_to_range(x: i32, bd: u32, c: i32) -> i32 {
    if x < range_lo(bd, c) {
        range_lo(bd, c) as i32
    } else {
        x
    }
}

/// `x` lowered to the upper end of the range of code `c`.
#[verifier::opaque]
pub open spec fn lower_to_range(x: i32, bd: u32, c: i32) -> i32 {
    if x > range_hi(bd, c) {
        range_hi(bd, c) as i32
    } else {
        x
    }
}


} // verus!
