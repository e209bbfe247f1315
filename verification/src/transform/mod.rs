//! Inverse transforms of high bit depth residuals: transform sizes, the
//! rounding shifts between passes, and the 1-D transforms.

pub mod butterfly;
pub mod inverse;
pub mod dc;
pub mod inverse_2d;
pub mod programs;
pub mod stages;
pub mod stages_idct16;
pub mod stages_idct32;
pub mod stages_iadst;

use vstd::prelude::*;
use vstd::wrapping::i32_specs::{wrapping_add, wrapping_mul};

verus! {

/// The transform block sizes, width by height.
#[derive(Debug, Clone, Copy, PartialEq, Eq, Structural)]
#[allow(non_camel_case_types)]
pub enum TxSize {
    TX_4X4,
    TX_8X8,
    TX_16X16,
    TX_32X32,
    TX_64X64,
    TX_4X8,
    TX_8X4,
    TX_8X16,
    TX_16X8,
    TX_16X32,
    TX_32X16,
    TX_32X64,
    TX_64X32,
    TX_4X16,
    TX_16X4,
    TX_8X32,
    TX_32X8,
    TX_16X64,
    TX_64X16,
}

/// The base-2 logarithm of the width of a transform size.
pub open spec fn spec_width_log2(t: TxSize) -> nat {
    match t {
        TxSize::TX_4X4 | TxSize::TX_4X8 | TxSize::TX_4X16 => 2,
        TxSize::TX_8X8 | TxSize::TX_8X4 | TxSize::TX_8X16 | TxSize::TX_8X32 => 3,
        TxSize::TX_16X16 | TxSize::TX_16X8 | TxSize::TX_16X32 | TxSize::TX_16X4
        | TxSize::TX_16X64 => 4,
        TxSize::TX_32X32 | TxSize::TX_32X16 | TxSize::TX_32X64 | TxSize::TX_32X8 => 5,
        TxSize::TX_64X64 | TxSize::TX_64X32 | TxSize::TX_64X16 => 6,
    }
}

/// The base-2 logarithm of the height of a transform size.
pub open spec fn spec_height_log2(t: TxSize) -> nat {
    match t {
        TxSize::TX_4X4 | TxSize::TX_8X4 | TxSize::TX_16X4 => 2,
        TxSize::TX_8X8 | TxSize::TX_4X8 | TxSize::TX_16X8 | TxSize::TX_32X8 => 3,
        TxSize::TX_16X16 | TxSize::TX_8X16 | TxSize::TX_32X16 | TxSize::TX_4X16
        | TxSize::TX_64X16 => 4,
        TxSize::TX_32X32 | TxSize::TX_16X32 | TxSize::TX_64X32 | TxSize::TX_8X32 => 5,
        TxSize::TX_64X64 | TxSize::TX_32X64 | TxSize::TX_16X64 => 6,
    }
}

impl TxSize {
    /// The base-2 logarithm of the width.
    pub fn width_log2(self) -> (r: usize)
        ensures
            r == spec_width_log2(self),
    {
        match self {
            TxSize::TX_4X4 | TxSize::TX_4X8 | TxSize::TX_4X16 => 2,
            TxSize::TX_8X8 | TxSize::TX_8X4 | TxSize::TX_8X16 | TxSize::TX_8X32 => 3,
            TxSize::TX_16X16 | TxSize::TX_16X8 | TxSize::TX_16X32 | TxSize::TX_16X4
            | TxSize::TX_16X64 => 4,
            TxSize::TX_32X32 | TxSize::TX_32X16 | TxSize::TX_32X64 | TxSize::TX_32X8 => 5,
            TxSize::TX_64X64 | TxSize::TX_64X32 | TxSize::TX_64X16 => 6,
        }
    }

    /// The base-2 logarithm of the height.
    pub fn height_log2(self) -> (r: usize)
        ensures
            r == spec_height_log2(self),
    {
        match self {
            TxSize::TX_4X4 | TxSize::TX_8X4 | TxSize::TX_16X4 => 2,
            TxSize::TX_8X8 | TxSize::TX_4X8 | TxSize::TX_16X8 | TxSize::TX_32X8 => 3,
            TxSize::TX_16X16 | TxSize::TX_8X16 | TxSize::TX_32X16 | TxSize::TX_4X16
            | TxSize::TX_64X16 => 4,
            TxSize::TX_32X32 | TxSize::TX_16X32 | TxSize::TX_64X32 | TxSize::TX_8X32 => 5,
            TxSize::TX_64X64 | TxSize::TX_32X64 | TxSize::TX_16X64 => 6,
        }
    }

    /// The width in samples.
    pub fn width(self) -> (r: usize)
        ensures
            r == spec_width(self),
    {
        match self.width_log2() {
            2 => 4,
            3 => 8,
            4 => 16,
            5 => 32,
            _ => 64,
        }
    }

    /// The height in samples.
    pub fn height(self) -> (r: usize)
        ensures
            r == spec_height(self),
    {
        match self.height_log2() {
            2 => 4,
            3 => 8,
            4 => 16,
            5 => 32,
            _ => 64,
        }
    }
}

/// `2^n` for the logarithms of transform sizes, 2 to 6.
pub open spec fn size_of_log2(n: nat) -> nat {
    if n == 2 {
        4
    } else if n == 3 {
        8
    } else if n == 4 {
        16
    } else if n == 5 {
        32
    } else {
        64
    }
}

/// The width of a transform size in samples.
pub open spec fn spec_width(t: TxSize) -> nat {
    size_of_log2(spec_width_log2(t))
}

/// The height of a transform size in samples.
pub open spec fn spec_height(t: TxSize) -> nat {
    size_of_log2(spec_height_log2(t))
}

/// Precision of the factor `sqrt(2)` of rectangular transforms, in bits.
pub const NEW_SQRT2_BITS: i32 = 12;

/// `1 / sqrt(2)` at that precision.
pub const NEW_INV_SQRT2: i32 = 2896;

/// `v` rounded and shifted right by `bit`, in 32-bit lane arithmetic.
pub open spec fn spec_round_shift_32(v: i32, bit: u32) -> i32 {
    wrapping_add(v, 1i32 << ((bit - 1) as u32)) >> bit
}

/// Rounds and shifts one lane right by `bit`, 1 to 31.
pub fn round_shift_32(v: i32, bit: u32) -> (r: i32)
    requires
        1 <= bit <= 31,
    ensures
        r == spec_round_shift_32(v, bit),
{
    v.wrapping_add(1i32 << (bit - 1)) >> bit
}

/// One lane of `round_shift_array_32`: rounded right shift for a positive
/// `bit`, left shift by `-bit` otherwise.
pub open spec fn spec_round_shift_or_scale(v: i32, bit: i32) -> i32 {
    if bit > 0 {
        spec_round_shift_32(v, bit as u32)
    } else {
        v << ((-bit) as u32)
    }
}

/// Rounds and shifts every lane of `data` right by `bit` when it is
/// positive, shifts them left by `-bit` otherwise.
pub fn round_shift_array_32(data: &mut [i32], bit: i32)
    requires
        -31 <= bit <= 31,
    ensures
        final(data)@.len() == old(data)@.len(),
        forall|i: int|
            0 <= i < old(data)@.len() ==> #[trigger] final(data)@[i] == spec_round_shift_or_scale(
                old(data)@[i],
                bit,
            ),
{
    let ghost orig = data@;
    let mut i: usize = 0;
    while i < data.len()
        invariant
            i <= data@.len(),
            data@.len() == orig.len(),
            -31 <= bit <= 31,
            forall|k: int| 0 <= k < i ==> #[trigger] data@[k] == spec_round_shift_or_scale(orig[k], bit),
            forall|k: int| i <= k < data@.len() ==> #[trigger] data@[k] == orig[k],
        decreases data@.len() - i,
    {
        let v = data[i];
        let r = if bit > 0 {
            round_shift_32(v, bit as u32)
        } else {
            v << ((-bit) as u32)
        };
        data[i] = r;
        i = i + 1;
    }
}

/// One lane of `round_shift_rect_array_32`: shifted as above, scaled by
/// `val` and rounded down by the precision of `sqrt(2)`.
pub open spec fn spec_round_shift_rect(v: i32, bit: i32, val: i32) -> i32 {
    spec_round_shift_32(wrapping_mul(val, spec_round_shift_or_scale(v, bit)), NEW_SQRT2_BITS as u32)
}

/// Shifts every lane of `data` as `round_shift_array_32` does, multiplies
/// it by `val` and rounds it down by the precision of `sqrt(2)`: the
/// scaling of rectangular transforms.
pub fn round_shift_rect_array_32(data: &mut [i32], bit: i32, val: i32)
    requires
        -31 <= bit <= 31,
    ensures
        final(data)@.len() == old(data)@.len(),
        forall|i: int|
            0 <= i < old(data)@.len() ==> #[trigger] final(data)@[i] == spec_round_shift_rect(
                old(data)@[i],
                bit,
                val,
            ),
{
    let ghost orig = data@;
    let mut i: usize = 0;
    while i < data.len()
        invariant
            i <= data@.len(),
            data@.len() == orig.len(),
            -31 <= bit <= 31,
            forall|k: int|
                0 <= k < i ==> #[trigger] data@[k] == spec_round_shift_rect(orig[k], bit, val),
            forall|k: int| i <= k < data@.len() ==> #[trigger] data@[k] == orig[k],
        decreases data@.len() - i,
    {
        let v = data[i];
        let r0 = if bit > 0 {
            round_shift_32(v, bit as u32)
        } else {
            v << ((-bit) as u32)
        };
        let r1 = val.wrapping_mul(r0);
        data[i] = round_shift_32(r1, NEW_SQRT2_BITS as u32);
        i = i + 1;
    }
}

} // verus!
