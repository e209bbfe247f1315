//! The 1-D inverse transforms of high bit depth residuals, one lane at a
//! time, and the tables that pick the transform and its pass settings.
//!
//! A transform works in place on the samples of one lane. Each is the
//! butterfly program of its pass run on those samples: the column pass
//! clamps to a range 6 bits above the bit depth, the row pass to a range 8
//! bits above it and rounds its outputs down by the output shift.

use crate::transform::{spec_height, spec_height_log2, spec_width, spec_width_log2, TxSize};
use crate::transform::butterfly::{
    outputs_clamped, lemma_clamped_outputs_in_range, range_hi, range_lo,
    butterfly_output, params_ok, run_butterfly, ButterflyParams,
};
use crate::transform::programs::{
    IDCT8_LOW1_COL_OPS, IDCT8_LOW1_COL_OUTS, IDCT8_LOW1_ROW_OPS, IDCT8_LOW1_ROW_OUTS,
    IDCT8_COL_OPS, IDCT8_COL_OUTS, IDCT8_ROW_OPS, IDCT8_ROW_OUTS,
    IDCT16_LOW1_COL_OPS, IDCT16_LOW1_COL_OUTS, IDCT16_LOW1_ROW_OPS, IDCT16_LOW1_ROW_OUTS,
    IDCT16_LOW8_COL_OPS, IDCT16_LOW8_COL_OUTS, IDCT16_LOW8_ROW_OPS, IDCT16_LOW8_ROW_OUTS,
    IDCT16_COL_OPS, IDCT16_COL_OUTS, IDCT16_ROW_OPS, IDCT16_ROW_OUTS,
    IDCT32_LOW1_COL_OPS, IDCT32_LOW1_COL_OUTS, IDCT32_LOW1_ROW_OPS, IDCT32_LOW1_ROW_OUTS,
    IDCT32_LOW8_COL_OPS, IDCT32_LOW8_COL_OUTS, IDCT32_LOW8_ROW_OPS, IDCT32_LOW8_ROW_OUTS,
    IDCT32_LOW16_COL_OPS, IDCT32_LOW16_COL_OUTS, IDCT32_LOW16_ROW_OPS, IDCT32_LOW16_ROW_OUTS,
    IDCT32_COL_OPS, IDCT32_COL_OUTS, IDCT32_ROW_OPS, IDCT32_ROW_OUTS,
    IDCT64_LOW1_COL_OPS, IDCT64_LOW1_COL_OUTS, IDCT64_LOW1_ROW_OPS, IDCT64_LOW1_ROW_OUTS,
    IDCT64_LOW8_COL_OPS, IDCT64_LOW8_COL_OUTS, IDCT64_LOW8_ROW_OPS, IDCT64_LOW8_ROW_OUTS,
    IDCT64_LOW16_COL_OPS, IDCT64_LOW16_COL_OUTS, IDCT64_LOW16_ROW_OPS, IDCT64_LOW16_ROW_OUTS,
    IDCT64_COL_OPS, IDCT64_COL_OUTS, IDCT64_ROW_OPS, IDCT64_ROW_OUTS,
    IADST8_LOW1_COL_OPS, IADST8_LOW1_COL_OUTS, IADST8_LOW1_ROW_OPS, IADST8_LOW1_ROW_OUTS,
    IADST8_COL_OPS, IADST8_COL_OUTS, IADST8_ROW_OPS, IADST8_ROW_OUTS,
    IADST16_LOW1_COL_OPS, IADST16_LOW1_COL_OUTS, IADST16_LOW1_ROW_OPS, IADST16_LOW1_ROW_OUTS,
    IADST16_LOW8_COL_OPS, IADST16_LOW8_COL_OUTS, IADST16_LOW8_ROW_OPS, IADST16_LOW8_ROW_OUTS,
    IADST16_COL_OPS, IADST16_COL_OUTS, IADST16_ROW_OPS, IADST16_ROW_OUTS,
};
use crate::transform::dc::{
    law_iadst8_stages, law_idct8_stages, law_idct_dc_kernels, spec_iadst8, spec_idct8, spec_idct_dc,
};
use crate::transform::stages_idct16::{law_idct16_low8_stages, law_idct16_stages, spec_idct16, spec_idct16_low8};
use crate::transform::stages_iadst::{law_iadst16_low1_stages, law_iadst16_low8_stages, law_iadst16_stages, law_iadst8_low1_stages, spec_iadst16, spec_iadst16_low1, spec_iadst16_low8, spec_iadst8_low1};
use crate::transform::stages_idct32::{law_idct32_stages, spec_idct32};
use vstd::prelude::*;

verus! {

/// A 1-D inverse transform, by kind, size and the number of leading
/// coefficients it reads.
#[derive(Debug, Clone, Copy, PartialEq, Eq, Structural)]
pub enum TxfmKernel {
    /// Runs the 8-point inverse DCT of a lane whose coefficients past the first are zero.
    Idct8Low1,
    /// Runs the 8-point inverse DCT.
    Idct8,
    /// Runs the 16-point inverse DCT of a lane whose coefficients past the first are zero.
    Idct16Low1,
    /// Runs the 16-point inverse DCT of a lane whose coefficients past the first 8 are zero.
    Idct16Low8,
    /// Runs the 16-point inverse DCT.
    Idct16,
    /// Runs the 32-point inverse DCT of a lane whose coefficients past the first are zero.
    Idct32Low1,
    /// Runs the 32-point inverse DCT of a lane whose coefficients past the first 8 are zero.
    Idct32Low8,
    /// Runs the 32-point inverse DCT of a lane whose coefficients past the first 16 are zero.
    Idct32Low16,
    /// Runs the 32-point inverse DCT.
    Idct32,
    /// Runs the 64-point inverse DCT of a lane whose coefficients past the first are zero.
    Idct64Low1,
    /// Runs the 64-point inverse DCT of a lane whose coefficients past the first 8 are zero.
    Idct64Low8,
    /// Runs the 64-point inverse DCT of a lane whose coefficients past the first 16 are zero.
    Idct64Low16,
    /// Runs the 64-point inverse DCT of a lane whose coefficients past the first 32 are zero.
    Idct64,
    /// Runs the 8-point inverse ADST of a lane whose coefficients past the first are zero.
    Iadst8Low1,
    /// Runs the 8-point inverse ADST.
    Iadst8,
    /// Runs the 16-point inverse ADST of a lane whose coefficients past the first are zero.
    Iadst16Low1,
    /// Runs the 16-point inverse ADST of a lane whose coefficients past the first 8 are zero.
    Iadst16Low8,
    /// Runs the 16-point inverse ADST.
    Iadst16,
}

/// The number of samples a transform works on.
pub open spec fn kernel_size(k: TxfmKernel) -> nat {
    match k {
        TxfmKernel::Idct8Low1 => 8,
        TxfmKernel::Idct8 => 8,
        TxfmKernel::Idct16Low1 => 16,
        TxfmKernel::Idct16Low8 => 16,
        TxfmKernel::Idct16 => 16,
        TxfmKernel::Idct32Low1 => 32,
        TxfmKernel::Idct32Low8 => 32,
        TxfmKernel::Idct32Low16 => 32,
        TxfmKernel::Idct32 => 32,
        TxfmKernel::Idct64Low1 => 64,
        TxfmKernel::Idct64Low8 => 64,
        TxfmKernel::Idct64Low16 => 64,
        TxfmKernel::Idct64 => 64,
        TxfmKernel::Iadst8Low1 => 8,
        TxfmKernel::Iadst8 => 8,
        TxfmKernel::Iadst16Low1 => 16,
        TxfmKernel::Iadst16Low8 => 16,
        TxfmKernel::Iadst16 => 16,
    }
}

/// The operations of the pass of a transform.
pub open spec fn kernel_ops(k: TxfmKernel, do_cols: bool) -> Seq<i32> {
    match k {
        TxfmKernel::Idct8Low1 => if do_cols {
            IDCT8_LOW1_COL_OPS@
        } else {
            IDCT8_LOW1_ROW_OPS@
        },
        TxfmKernel::Idct8 => if do_cols {
            IDCT8_COL_OPS@
        } else {
            IDCT8_ROW_OPS@
        },
        TxfmKernel::Idct16Low1 => if do_cols {
            IDCT16_LOW1_COL_OPS@
        } else {
            IDCT16_LOW1_ROW_OPS@
        },
        TxfmKernel::Idct16Low8 => if do_cols {
            IDCT16_LOW8_COL_OPS@
        } else {
            IDCT16_LOW8_ROW_OPS@
        },
        TxfmKernel::Idct16 => if do_cols {
            IDCT16_COL_OPS@
        } else {
            IDCT16_ROW_OPS@
        },
        TxfmKernel::Idct32Low1 => if do_cols {
            IDCT32_LOW1_COL_OPS@
        } else {
            IDCT32_LOW1_ROW_OPS@
        },
        TxfmKernel::Idct32Low8 => if do_cols {
            IDCT32_LOW8_COL_OPS@
        } else {
            IDCT32_LOW8_ROW_OPS@
        },
        TxfmKernel::Idct32Low16 => if do_cols {
            IDCT32_LOW16_COL_OPS@
        } else {
            IDCT32_LOW16_ROW_OPS@
        },
        TxfmKernel::Idct32 => if do_cols {
            IDCT32_COL_OPS@
        } else {
            IDCT32_ROW_OPS@
        },
        TxfmKernel::Idct64Low1 => if do_cols {
            IDCT64_LOW1_COL_OPS@
        } else {
            IDCT64_LOW1_ROW_OPS@
        },
        TxfmKernel::Idct64Low8 => if do_cols {
            IDCT64_LOW8_COL_OPS@
        } else {
            IDCT64_LOW8_ROW_OPS@
        },
        TxfmKernel::Idct64Low16 => if do_cols {
            IDCT64_LOW16_COL_OPS@
        } else {
            IDCT64_LOW16_ROW_OPS@
        },
        TxfmKernel::Idct64 => if do_cols {
            IDCT64_COL_OPS@
        } else {
            IDCT64_ROW_OPS@
        },
        TxfmKernel::Iadst8Low1 => if do_cols {
            IADST8_LOW1_COL_OPS@
        } else {
            IADST8_LOW1_ROW_OPS@
        },
        TxfmKernel::Iadst8 => if do_cols {
            IADST8_COL_OPS@
        } else {
            IADST8_ROW_OPS@
        },
        TxfmKernel::Iadst16Low1 => if do_cols {
            IADST16_LOW1_COL_OPS@
        } else {
            IADST16_LOW1_ROW_OPS@
        },
        TxfmKernel::Iadst16Low8 => if do_cols {
            IADST16_LOW8_COL_OPS@
        } else {
            IADST16_LOW8_ROW_OPS@
        },
        TxfmKernel::Iadst16 => if do_cols {
            IADST16_COL_OPS@
        } else {
            IADST16_ROW_OPS@
        },
    }
}

/// The output registers of the pass of a transform.
pub open spec fn kernel_outs(k: TxfmKernel, do_cols: bool) -> Seq<i32> {
    match k {
        TxfmKernel::Idct8Low1 => if do_cols {
            IDCT8_LOW1_COL_OUTS@
        } else {
            IDCT8_LOW1_ROW_OUTS@
        },
        TxfmKernel::Idct8 => if do_cols {
            IDCT8_COL_OUTS@
        } else {
            IDCT8_ROW_OUTS@
        },
        TxfmKernel::Idct16Low1 => if do_cols {
            IDCT16_LOW1_COL_OUTS@
        } else {
            IDCT16_LOW1_ROW_OUTS@
        },
        TxfmKernel::Idct16Low8 => if do_cols {
            IDCT16_LOW8_COL_OUTS@
        } else {
            IDCT16_LOW8_ROW_OUTS@
        },
        TxfmKernel::Idct16 => if do_cols {
            IDCT16_COL_OUTS@
        } else {
            IDCT16_ROW_OUTS@
        },
        TxfmKernel::Idct32Low1 => if do_cols {
            IDCT32_LOW1_COL_OUTS@
        } else {
            IDCT32_LOW1_ROW_OUTS@
        },
        TxfmKernel::Idct32Low8 => if do_cols {
            IDCT32_LOW8_COL_OUTS@
        } else {
            IDCT32_LOW8_ROW_OUTS@
        },
        TxfmKernel::Idct32Low16 => if do_cols {
            IDCT32_LOW16_COL_OUTS@
        } else {
            IDCT32_LOW16_ROW_OUTS@
        },
        TxfmKernel::Idct32 => if do_cols {
            IDCT32_COL_OUTS@
        } else {
            IDCT32_ROW_OUTS@
        },
        TxfmKernel::Idct64Low1 => if do_cols {
            IDCT64_LOW1_COL_OUTS@
        } else {
            IDCT64_LOW1_ROW_OUTS@
        },
        TxfmKernel::Idct64Low8 => if do_cols {
            IDCT64_LOW8_COL_OUTS@
        } else {
            IDCT64_LOW8_ROW_OUTS@
        },
        TxfmKernel::Idct64Low16 => if do_cols {
            IDCT64_LOW16_COL_OUTS@
        } else {
            IDCT64_LOW16_ROW_OUTS@
        },
        TxfmKernel::Idct64 => if do_cols {
            IDCT64_COL_OUTS@
        } else {
            IDCT64_ROW_OUTS@
        },
        TxfmKernel::Iadst8Low1 => if do_cols {
            IADST8_LOW1_COL_OUTS@
        } else {
            IADST8_LOW1_ROW_OUTS@
        },
        TxfmKernel::Iadst8 => if do_cols {
            IADST8_COL_OUTS@
        } else {
            IADST8_ROW_OUTS@
        },
        TxfmKernel::Iadst16Low1 => if do_cols {
            IADST16_LOW1_COL_OUTS@
        } else {
            IADST16_LOW1_ROW_OUTS@
        },
        TxfmKernel::Iadst16Low8 => if do_cols {
            IADST16_LOW8_COL_OUTS@
        } else {
            IADST16_LOW8_ROW_OUTS@
        },
        TxfmKernel::Iadst16 => if do_cols {
            IADST16_COL_OUTS@
        } else {
            IADST16_ROW_OUTS@
        },
    }
}

/// What a pass of transform `k` makes of the samples `input`.
pub open spec fn kernel_output(
    k: TxfmKernel,
    do_cols: bool,
    input: Seq<i32>,
    p: ButterflyParams,
) -> Seq<i32> {
    butterfly_output(kernel_ops(k, do_cols), kernel_outs(k, do_cols), input, p)
}

/// Applies the 8-point inverse DCT of a lane whose coefficients past the first are zero to the samples of `data`: the column pass when `do_cols`
/// holds, the row pass otherwise.
pub fn idct8_low1(data: &mut [i32], do_cols: bool, p: ButterflyParams)
    requires
        old(data)@.len() == 8,
        params_ok(p),
    ensures
        final(data)@ == kernel_output(TxfmKernel::Idct8Low1, do_cols, old(data)@, p),
        forall|i: int|
            0 <= i < 8 ==> #[trigger] final(data)@[i] == spec_idct_dc(old(data)@[0], do_cols, p),
{
    proof {
        law_idct_dc_kernels(TxfmKernel::Idct8Low1, do_cols, old(data)@, p);
    }
    if do_cols {
        run_butterfly(IDCT8_LOW1_COL_OPS.as_slice(), IDCT8_LOW1_COL_OUTS.as_slice(), data, p);
    } else {
        run_butterfly(IDCT8_LOW1_ROW_OPS.as_slice(), IDCT8_LOW1_ROW_OUTS.as_slice(), data, p);
    }
}

/// Applies the 8-point inverse DCT to the samples of `data`: the column pass when `do_cols`
/// holds, the row pass otherwise.
pub fn idct8(data: &mut [i32], do_cols: bool, p: ButterflyParams)
    requires
        old(data)@.len() == 8,
        params_ok(p),
    ensures
        final(data)@ == kernel_output(TxfmKernel::Idct8, do_cols, old(data)@, p),
        final(data)@ == spec_idct8(old(data)@, do_cols, p),
{
    proof {
        law_idct8_stages(old(data)@, do_cols, p);
    }
    if do_cols {
        run_butterfly(IDCT8_COL_OPS.as_slice(), IDCT8_COL_OUTS.as_slice(), data, p);
    } else {
        run_butterfly(IDCT8_ROW_OPS.as_slice(), IDCT8_ROW_OUTS.as_slice(), data, p);
    }
}

/// Applies the 16-point inverse DCT of a lane whose coefficients past the first are zero to the samples of `data`: the column pass when `do_cols`
/// holds, the row pass otherwise.
pub fn idct16_low1(data: &mut [i32], do_cols: bool, p: ButterflyParams)
    requires
        old(data)@.len() == 16,
        params_ok(p),
    ensures
        final(data)@ == kernel_output(TxfmKernel::Idct16Low1, do_cols, old(data)@, p),
        forall|i: int|
            0 <= i < 16 ==> #[trigger] final(data)@[i] == spec_idct_dc(old(data)@[0], do_cols, p),
{
    proof {
        law_idct_dc_kernels(TxfmKernel::Idct16Low1, do_cols, old(data)@, p);
    }
    if do_cols {
        run_butterfly(IDCT16_LOW1_COL_OPS.as_slice(), IDCT16_LOW1_COL_OUTS.as_slice(), data, p);
    } else {
        run_butterfly(IDCT16_LOW1_ROW_OPS.as_slice(), IDCT16_LOW1_ROW_OUTS.as_slice(), data, p);
    }
}

/// Applies the 16-point inverse DCT of a lane whose coefficients past the first 8 are zero to the samples of `data`: the column pass when `do_cols`
/// holds, the row pass otherwise.
pub fn idct16_low8(data: &mut [i32], do_cols: bool, p: ButterflyParams)
    requires
        old(data)@.len() == 16,
        params_ok(p),
    ensures
        final(data)@ == kernel_output(TxfmKernel::Idct16Low8, do_cols, old(data)@, p),
        final(data)@ == spec_idct16_low8(old(data)@, do_cols, p),
{
    proof {
        law_idct16_low8_stages(old(data)@, do_cols, p);
    }
    if do_cols {
        run_butterfly(IDCT16_LOW8_COL_OPS.as_slice(), IDCT16_LOW8_COL_OUTS.as_slice(), data, p);
    } else {
        run_butterfly(IDCT16_LOW8_ROW_OPS.as_slice(), IDCT16_LOW8_ROW_OUTS.as_slice(), data, p);
    }
}

/// Applies the 16-point inverse DCT to the samples of `data`: the column pass when `do_cols`
/// holds, the row pass otherwise.
pub fn idct16(data: &mut [i32], do_cols: bool, p: ButterflyParams)
    requires
        old(data)@.len() == 16,
        params_ok(p),
    ensures
        final(data)@ == kernel_output(TxfmKernel::Idct16, do_cols, old(data)@, p),
        final(data)@ == spec_idct16(old(data)@, do_cols, p),
{
    proof {
        law_idct16_stages(old(data)@, do_cols, p);
    }
    if do_cols {
        run_butterfly(IDCT16_COL_OPS.as_slice(), IDCT16_COL_OUTS.as_slice(), data, p);
    } else {
        run_butterfly(IDCT16_ROW_OPS.as_slice(), IDCT16_ROW_OUTS.as_slice(), data, p);
    }
}

/// Applies the 32-point inverse DCT of a lane whose coefficients past the first are zero to the samples of `data`: the column pass when `do_cols`
/// holds, the row pass otherwise.
pub fn idct32_low1(data: &mut [i32], do_cols: bool, p: ButterflyParams)
    requires
        old(data)@.len() == 32,
        params_ok(p),
    ensures
        final(data)@ == kernel_output(TxfmKernel::Idct32Low1, do_cols, old(data)@, p),
        forall|i: int|
            0 <= i < 32 ==> #[trigger] final(data)@[i] == spec_idct_dc(old(data)@[0], do_cols, p),
{
    proof {
        law_idct_dc_kernels(TxfmKernel::Idct32Low1, do_cols, old(data)@, p);
    }
    if do_cols {
        run_butterfly(IDCT32_LOW1_COL_OPS.as_slice(), IDCT32_LOW1_COL_OUTS.as_slice(), data, p);
    } else {
        run_butterfly(IDCT32_LOW1_ROW_OPS.as_slice(), IDCT32_LOW1_ROW_OUTS.as_slice(), data, p);
    }
}

/// Applies the 32-point inverse DCT of a lane whose coefficients past the first 8 are zero to the samples of `data`: the column pass when `do_cols`
/// holds, the row pass otherwise.
pub fn idct32_low8(data: &mut [i32], do_cols: bool, p: ButterflyParams)
    requires
        old(data)@.len() == 32,
        params_ok(p),
    ensures
        final(data)@ == kernel_output(TxfmKernel::Idct32Low8, do_cols, old(data)@, p),
{
    if do_cols {
        run_butterfly(IDCT32_LOW8_COL_OPS.as_slice(), IDCT32_LOW8_COL_OUTS.as_slice(), data, p);
    } else {
        run_butterfly(IDCT32_LOW8_ROW_OPS.as_slice(), IDCT32_LOW8_ROW_OUTS.as_slice(), data, p);
    }
}

/// Applies the 32-point inverse DCT of a lane whose coefficients past the first 16 are zero to the samples of `data`: the column pass when `do_cols`
/// holds, the row pass otherwise.
pub fn idct32_low16(data: &mut [i32], do_cols: bool, p: ButterflyParams)
    requires
        old(data)@.len() == 32,
        params_ok(p),
    ensures
        final(data)@ == kernel_output(TxfmKernel::Idct32Low16, do_cols, old(data)@, p),
{
    if do_cols {
        run_butterfly(IDCT32_LOW16_COL_OPS.as_slice(), IDCT32_LOW16_COL_OUTS.as_slice(), data, p);
    } else {
        run_butterfly(IDCT32_LOW16_ROW_OPS.as_slice(), IDCT32_LOW16_ROW_OUTS.as_slice(), data, p);
    }
}

/// Applies the 32-point inverse DCT to the samples of `data`: the column pass when `do_cols`
/// holds, the row pass otherwise.
pub fn idct32(data: &mut [i32], do_cols: bool, p: ButterflyParams)
    requires
        old(data)@.len() == 32,
        params_ok(p),
    ensures
        final(data)@ == kernel_output(TxfmKernel::Idct32, do_cols, old(data)@, p),
        final(data)@ == spec_idct32(old(data)@, do_cols, p),
{
    proof {
        law_idct32_stages(old(data)@, do_cols, p);
    }
    if do_cols {
        run_butterfly(IDCT32_COL_OPS.as_slice(), IDCT32_COL_OUTS.as_slice(), data, p);
    } else {
        run_butterfly(IDCT32_ROW_OPS.as_slice(), IDCT32_ROW_OUTS.as_slice(), data, p);
    }
}

/// Applies the 64-point inverse DCT of a lane whose coefficients past the first are zero to the samples of `data`: the column pass when `do_cols`
/// holds, the row pass otherwise.
pub fn idct64_low1(data: &mut [i32], do_cols: bool, p: ButterflyParams)
    requires
        old(data)@.len() == 64,
        params_ok(p),
    ensures
        final(data)@ == kernel_output(TxfmKernel::Idct64Low1, do_cols, old(data)@, p),
        forall|i: int|
            0 <= i < 64 ==> #[trigger] final(data)@[i] == spec_idct_dc(old(data)@[0], do_cols, p),
{
    proof {
        law_idct_dc_kernels(TxfmKernel::Idct64Low1, do_cols, old(data)@, p);
    }
    if do_cols {
        run_butterfly(IDCT64_LOW1_COL_OPS.as_slice(), IDCT64_LOW1_COL_OUTS.as_slice(), data, p);
    } else {
        run_butterfly(IDCT64_LOW1_ROW_OPS.as_slice(), IDCT64_LOW1_ROW_OUTS.as_slice(), data, p);
    }
}

/// Applies the 64-point inverse DCT of a lane whose coefficients past the first 8 are zero to the samples of `data`: the column pass when `do_cols`
/// holds, the row pass otherwise.
pub fn idct64_low8(data: &mut [i32], do_cols: bool, p: ButterflyParams)
    requires
        old(data)@.len() == 64,
        params_ok(p),
    ensures
        final(data)@ == kernel_output(TxfmKernel::Idct64Low8, do_cols, old(data)@, p),
{
    if do_cols {
        run_butterfly(IDCT64_LOW8_COL_OPS.as_slice(), IDCT64_LOW8_COL_OUTS.as_slice(), data, p);
    } else {
        run_butterfly(IDCT64_LOW8_ROW_OPS.as_slice(), IDCT64_LOW8_ROW_OUTS.as_slice(), data, p);
    }
}

/// Applies the 64-point inverse DCT of a lane whose coefficients past the first 16 are zero to the samples of `data`: the column pass when `do_cols`
/// holds, the row pass otherwise.
pub fn idct64_low16(data: &mut [i32], do_cols: bool, p: ButterflyParams)
    requires
        old(data)@.len() == 64,
        params_ok(p),
    ensures
        final(data)@ == kernel_output(TxfmKernel::Idct64Low16, do_cols, old(data)@, p),
{
    if do_cols {
        run_butterfly(IDCT64_LOW16_COL_OPS.as_slice(), IDCT64_LOW16_COL_OUTS.as_slice(), data, p);
    } else {
        run_butterfly(IDCT64_LOW16_ROW_OPS.as_slice(), IDCT64_LOW16_ROW_OUTS.as_slice(), data, p);
    }
}

/// Applies the 64-point inverse DCT of a lane whose coefficients past the first 32 are zero to the samples of `data`: the column pass when `do_cols`
/// holds, the row pass otherwise.
pub fn idct64(data: &mut [i32], do_cols: bool, p: ButterflyParams)
    requires
        old(data)@.len() == 64,
        params_ok(p),
    ensures
        final(data)@ == kernel_output(TxfmKernel::Idct64, do_cols, old(data)@, p),
{
    if do_cols {
        run_butterfly(IDCT64_COL_OPS.as_slice(), IDCT64_COL_OUTS.as_slice(), data, p);
    } else {
        run_butterfly(IDCT64_ROW_OPS.as_slice(), IDCT64_ROW_OUTS.as_slice(), data, p);
    }
}

/// Applies the 8-point inverse ADST of a lane whose coefficients past the first are zero to the samples of `data`: the column pass when `do_cols`
/// holds, the row pass otherwise.
pub fn iadst8_low1(data: &mut [i32], do_cols: bool, p: ButterflyParams)
    requires
        old(data)@.len() == 8,
        params_ok(p),
    ensures
        final(data)@ == kernel_output(TxfmKernel::Iadst8Low1, do_cols, old(data)@, p),
        final(data)@ == spec_iadst8_low1(old(data)@, do_cols, p),
{
    proof {
        law_iadst8_low1_stages(old(data)@, do_cols, p);
    }
    if do_cols {
        run_butterfly(IADST8_LOW1_COL_OPS.as_slice(), IADST8_LOW1_COL_OUTS.as_slice(), data, p);
    } else {
        run_butterfly(IADST8_LOW1_ROW_OPS.as_slice(), IADST8_LOW1_ROW_OUTS.as_slice(), data, p);
    }
}

/// Applies the 8-point inverse ADST to the samples of `data`: the column pass when `do_cols`
/// holds, the row pass otherwise.
pub fn iadst8(data: &mut [i32], do_cols: bool, p: ButterflyParams)
    requires
        old(data)@.len() == 8,
        params_ok(p),
    ensures
        final(data)@ == kernel_output(TxfmKernel::Iadst8, do_cols, old(data)@, p),
        final(data)@ == spec_iadst8(old(data)@, do_cols, p),
{
    proof {
        law_iadst8_stages(old(data)@, do_cols, p);
    }
    if do_cols {
        run_butterfly(IADST8_COL_OPS.as_slice(), IADST8_COL_OUTS.as_slice(), data, p);
    } else {
        run_butterfly(IADST8_ROW_OPS.as_slice(), IADST8_ROW_OUTS.as_slice(), data, p);
    }
}

/// Applies the 16-point inverse ADST of a lane whose coefficients past the first are zero to the samples of `data`: the column pass when `do_cols`
/// holds, the row pass otherwise.
pub fn iadst16_low1(data: &mut [i32], do_cols: bool, p: ButterflyParams)
    requires
        old(data)@.len() == 16,
        params_ok(p),
    ensures
        final(data)@ == kernel_output(TxfmKernel::Iadst16Low1, do_cols, old(data)@, p),
        final(data)@ == spec_iadst16_low1(old(data)@, do_cols, p),
{
    proof {
        law_iadst16_low1_stages(old(data)@, do_cols, p);
    }
    if do_cols {
        run_butterfly(IADST16_LOW1_COL_OPS.as_slice(), IADST16_LOW1_COL_OUTS.as_slice(), data, p);
    } else {
        run_butterfly(IADST16_LOW1_ROW_OPS.as_slice(), IADST16_LOW1_ROW_OUTS.as_slice(), data, p);
    }
}

/// Applies the 16-point inverse ADST of a lane whose coefficients past the first 8 are zero to the samples of `data`: the column pass when `do_cols`
/// holds, the row pass otherwise.
pub fn iadst16_low8(data: &mut [i32], do_cols: bool, p: ButterflyParams)
    requires
        old(data)@.len() == 16,
        params_ok(p),
    ensures
        final(data)@ == kernel_output(TxfmKernel::Iadst16Low8, do_cols, old(data)@, p),
        final(data)@ == spec_iadst16_low8(old(data)@, do_cols, p),
{
    proof {
        law_iadst16_low8_stages(old(data)@, do_cols, p);
    }
    if do_cols {
        run_butterfly(IADST16_LOW8_COL_OPS.as_slice(), IADST16_LOW8_COL_OUTS.as_slice(), data, p);
    } else {
        run_butterfly(IADST16_LOW8_ROW_OPS.as_slice(), IADST16_LOW8_ROW_OUTS.as_slice(), data, p);
    }
}

/// Applies the 16-point inverse ADST to the samples of `data`: the column pass when `do_cols`
/// holds, the row pass otherwise.
pub fn iadst16(data: &mut [i32], do_cols: bool, p: ButterflyParams)
    requires
        old(data)@.len() == 16,
        params_ok(p),
    ensures
        final(data)@ == kernel_output(TxfmKernel::Iadst16, do_cols, old(data)@, p),
        final(data)@ == spec_iadst16(old(data)@, do_cols, p),
{
    proof {
        law_iadst16_stages(old(data)@, do_cols, p);
    }
    if do_cols {
        run_butterfly(IADST16_COL_OPS.as_slice(), IADST16_COL_OUTS.as_slice(), data, p);
    } else {
        run_butterfly(IADST16_ROW_OPS.as_slice(), IADST16_ROW_OUTS.as_slice(), data, p);
    }
}

/// Applies the pass of transform `kernel` to the samples of `data`.
pub fn inv_txfm_lane(kernel: TxfmKernel, data: &mut [i32], do_cols: bool, p: ButterflyParams)
    requires
        old(data)@.len() == kernel_size(kernel),
        params_ok(p),
    ensures
        final(data)@ == kernel_output(kernel, do_cols, old(data)@, p),
{
    match kernel {
        TxfmKernel::Idct8Low1 => idct8_low1(data, do_cols, p),
        TxfmKernel::Idct8 => idct8(data, do_cols, p),
        TxfmKernel::Idct16Low1 => idct16_low1(data, do_cols, p),
        TxfmKernel::Idct16Low8 => idct16_low8(data, do_cols, p),
        TxfmKernel::Idct16 => idct16(data, do_cols, p),
        TxfmKernel::Idct32Low1 => idct32_low1(data, do_cols, p),
        TxfmKernel::Idct32Low8 => idct32_low8(data, do_cols, p),
        TxfmKernel::Idct32Low16 => idct32_low16(data, do_cols, p),
        TxfmKernel::Idct32 => idct32(data, do_cols, p),
        TxfmKernel::Idct64Low1 => idct64_low1(data, do_cols, p),
        TxfmKernel::Idct64Low8 => idct64_low8(data, do_cols, p),
        TxfmKernel::Idct64Low16 => idct64_low16(data, do_cols, p),
        TxfmKernel::Idct64 => idct64(data, do_cols, p),
        TxfmKernel::Iadst8Low1 => iadst8_low1(data, do_cols, p),
        TxfmKernel::Iadst8 => iadst8(data, do_cols, p),
        TxfmKernel::Iadst16Low1 => iadst16_low1(data, do_cols, p),
        TxfmKernel::Iadst16Low8 => iadst16_low8(data, do_cols, p),
        TxfmKernel::Iadst16 => iadst16(data, do_cols, p),
    }
}

/// The last column and row (low and high byte) of the nonzero coefficients
/// of a 8x8 transform, by row of the last nonzero coefficient.
pub const EOB_TO_EOBXY_8X8_DEFAULT: [i16; 8] = [
    0x0707, 0x0707, 0x0707, 0x0707, 0x0707, 0x0707, 0x0707, 0x0707,
];

/// The last column and row (low and high byte) of the nonzero coefficients
/// of a 16x16 transform, by row of the last nonzero coefficient.
pub const EOB_TO_EOBXY_16X16_DEFAULT: [i16; 16] = [
    0x0707, 0x0707, 0x0f0f, 0x0f0f, 0x0f0f, 0x0f0f, 0x0f0f, 0x0f0f,
    0x0f0f, 0x0f0f, 0x0f0f, 0x0f0f, 0x0f0f, 0x0f0f, 0x0f0f, 0x0f0f,
];

/// The last column and row (low and high byte) of the nonzero coefficients
/// of a 32x32 transform, by row of the last nonzero coefficient.
pub const EOB_TO_EOBXY_32X32_DEFAULT: [i16; 32] = [
    0x0707, 0x0f0f, 0x0f0f, 0x0f0f, 0x1f1f, 0x1f1f, 0x1f1f, 0x1f1f,
    0x1f1f, 0x1f1f, 0x1f1f, 0x1f1f, 0x1f1f, 0x1f1f, 0x1f1f, 0x1f1f,
    0x1f1f, 0x1f1f, 0x1f1f, 0x1f1f, 0x1f1f, 0x1f1f, 0x1f1f, 0x1f1f,
    0x1f1f, 0x1f1f, 0x1f1f, 0x1f1f, 0x1f1f, 0x1f1f, 0x1f1f, 0x1f1f,
];

/// The last column and row (low and high byte) of the nonzero coefficients
/// of a 8x16 transform, by row of the last nonzero coefficient.
pub const EOB_TO_EOBXY_8X16_DEFAULT: [i16; 16] = [
    0x0707, 0x0707, 0x0707, 0x0707, 0x0707, 0x0f07, 0x0f07, 0x0f07,
    0x0f07, 0x0f07, 0x0f07, 0x0f07, 0x0f07, 0x0f07, 0x0f07, 0x0f07,
];

/// The last column and row (low and high byte) of the nonzero coefficients
/// of a 16x8 transform, by row of the last nonzero coefficient.
pub const EOB_TO_EOBXY_16X8_DEFAULT: [i16; 8] = [
    0x0707, 0x0707, 0x070f, 0x070f, 0x070f, 0x070f, 0x070f, 0x070f,
];

/// The last column and row (low and high byte) of the nonzero coefficients
/// of a 16x32 transform, by row of the last nonzero coefficient.
pub const EOB_TO_EOBXY_16X32_DEFAULT: [i16; 32] = [
    0x0707, 0x0707, 0x0f0f, 0x0f0f, 0x0f0f, 0x0f0f, 0x0f0f, 0x0f0f,
    0x0f0f, 0x1f0f, 0x1f0f, 0x1f0f, 0x1f0f, 0x1f0f, 0x1f0f, 0x1f0f,
    0x1f0f, 0x1f0f, 0x1f0f, 0x1f0f, 0x1f0f, 0x1f0f, 0x1f0f, 0x1f0f,
    0x1f0f, 0x1f0f, 0x1f0f, 0x1f0f, 0x1f0f, 0x1f0f, 0x1f0f, 0x1f0f,
];

/// The last column and row (low and high byte) of the nonzero coefficients
/// of a 32x16 transform, by row of the last nonzero coefficient.
pub const EOB_TO_EOBXY_32X16_DEFAULT: [i16; 16] = [
    0x0707, 0x0f0f, 0x0f0f, 0x0f0f, 0x0f1f, 0x0f1f, 0x0f1f, 0x0f1f,
    0x0f1f, 0x0f1f, 0x0f1f, 0x0f1f, 0x0f1f, 0x0f1f, 0x0f1f, 0x0f1f,
];

/// The last column and row (low and high byte) of the nonzero coefficients
/// of a 8x32 transform, by row of the last nonzero coefficient.
pub const EOB_TO_EOBXY_8X32_DEFAULT: [i16; 32] = [
    0x0707, 0x0707, 0x0707, 0x0707, 0x0707, 0x0f07, 0x0f07, 0x0f07,
    0x0f07, 0x0f07, 0x0f07, 0x0f07, 0x0f07, 0x1f07, 0x1f07, 0x1f07,
    0x1f07, 0x1f07, 0x1f07, 0x1f07, 0x1f07, 0x1f07, 0x1f07, 0x1f07,
    0x1f07, 0x1f07, 0x1f07, 0x1f07, 0x1f07, 0x1f07, 0x1f07, 0x1f07,
];

/// The last column and row (low and high byte) of the nonzero coefficients
/// of a 32x8 transform, by row of the last nonzero coefficient.
pub const EOB_TO_EOBXY_32X8_DEFAULT: [i16; 8] = [
    0x0707, 0x070f, 0x070f, 0x071f, 0x071f, 0x071f, 0x071f, 0x071f,
];

/// The table of `get_eobx_eoby_scan_default` for a transform size; empty
/// for the sizes with a side of 4.
pub open spec fn eob_to_eobxy_table(t: TxSize) -> Seq<i16> {
    match t {
        TxSize::TX_4X4 => Seq::empty(),
        TxSize::TX_8X8 => EOB_TO_EOBXY_8X8_DEFAULT@,
        TxSize::TX_16X16 => EOB_TO_EOBXY_16X16_DEFAULT@,
        TxSize::TX_32X32 => EOB_TO_EOBXY_32X32_DEFAULT@,
        TxSize::TX_64X64 => EOB_TO_EOBXY_32X32_DEFAULT@,
        TxSize::TX_4X8 => Seq::empty(),
        TxSize::TX_8X4 => Seq::empty(),
        TxSize::TX_8X16 => EOB_TO_EOBXY_8X16_DEFAULT@,
        TxSize::TX_16X8 => EOB_TO_EOBXY_16X8_DEFAULT@,
        TxSize::TX_16X32 => EOB_TO_EOBXY_16X32_DEFAULT@,
        TxSize::TX_32X16 => EOB_TO_EOBXY_32X16_DEFAULT@,
        TxSize::TX_32X64 => EOB_TO_EOBXY_32X32_DEFAULT@,
        TxSize::TX_64X32 => EOB_TO_EOBXY_32X32_DEFAULT@,
        TxSize::TX_4X16 => Seq::empty(),
        TxSize::TX_16X4 => Seq::empty(),
        TxSize::TX_8X32 => EOB_TO_EOBXY_8X32_DEFAULT@,
        TxSize::TX_32X8 => EOB_TO_EOBXY_32X8_DEFAULT@,
        TxSize::TX_16X64 => EOB_TO_EOBXY_16X32_DEFAULT@,
        TxSize::TX_64X16 => EOB_TO_EOBXY_32X16_DEFAULT@,
    }
}

fn eob_to_eobxy_entry(t: TxSize, row: usize) -> (r: i16)
    requires
        row < eob_to_eobxy_table(t).len(),
    ensures
        r == eob_to_eobxy_table(t)[row as int],
{
    match t {
        TxSize::TX_4X4 => 0,
        TxSize::TX_8X8 => EOB_TO_EOBXY_8X8_DEFAULT[row],
        TxSize::TX_16X16 => EOB_TO_EOBXY_16X16_DEFAULT[row],
        TxSize::TX_32X32 => EOB_TO_EOBXY_32X32_DEFAULT[row],
        TxSize::TX_64X64 => EOB_TO_EOBXY_32X32_DEFAULT[row],
        TxSize::TX_4X8 => 0,
        TxSize::TX_8X4 => 0,
        TxSize::TX_8X16 => EOB_TO_EOBXY_8X16_DEFAULT[row],
        TxSize::TX_16X8 => EOB_TO_EOBXY_16X8_DEFAULT[row],
        TxSize::TX_16X32 => EOB_TO_EOBXY_16X32_DEFAULT[row],
        TxSize::TX_32X16 => EOB_TO_EOBXY_32X16_DEFAULT[row],
        TxSize::TX_32X64 => EOB_TO_EOBXY_32X32_DEFAULT[row],
        TxSize::TX_64X32 => EOB_TO_EOBXY_32X32_DEFAULT[row],
        TxSize::TX_4X16 => 0,
        TxSize::TX_16X4 => 0,
        TxSize::TX_8X32 => EOB_TO_EOBXY_8X32_DEFAULT[row],
        TxSize::TX_32X8 => EOB_TO_EOBXY_32X8_DEFAULT[row],
        TxSize::TX_16X64 => EOB_TO_EOBXY_16X32_DEFAULT[row],
        TxSize::TX_64X16 => EOB_TO_EOBXY_32X16_DEFAULT[row],
    }
}

/// The row of coefficient number `eob` (counting from 1) in scan order,
/// with rows at most 32 coefficients wide.
pub open spec fn eob_row(tx_size: TxSize, eob: i32) -> int {
    let shift: u32 = if spec_width_log2(tx_size) < 5 {
        spec_width_log2(tx_size) as u32
    } else {
        5
    };
    ((eob - 1) as i32 >> shift) as int
}

/// The eob scan position of a transform: the last column and row that
/// hold nonzero coefficients when the last nonzero coefficient in scan
/// order is number `eob` (counting from 1); both 0 when it is the first.
pub fn get_eobx_eoby_scan_default(tx_size: TxSize, eob: i32) -> (r: (i16, i16))
    requires
        eob >= 1,
        eob == 1 || eob_row(tx_size, eob) < eob_to_eobxy_table(tx_size).len(),
    ensures
        eob == 1 ==> r == (0i16, 0i16),
        eob != 1 ==> ({
            let e = eob_to_eobxy_table(tx_size)[eob_row(tx_size, eob)];
            r == (e & 0xFF, e >> 8u32)
        }),
{
    if eob == 1 {
        return (0, 0);
    }
    let w_log2 = tx_size.width_log2();
    let tx_w_log2: u32 = if w_log2 < 5 {
        w_log2 as u32
    } else {
        5
    };
    let eob_row = (eob - 1) >> tx_w_log2;
    assert(eob_row >= 0) by (bit_vector)
        requires
            eob >= 1,
            eob_row == (eob - 1) as i32 >> tx_w_log2,
    ;
    let eobxy = eob_to_eobxy_entry(tx_size, eob_row as usize);
    (eobxy & 0xFF, eobxy >> 8u32)
}

/// The last column (low byte) and the last row (high byte) of an entry of
/// an eob table.
pub open spec fn eobxy_col_row(e: i16) -> (int, int) {
    (e as int % 256, e as int / 256)
}

/// From index `i` on, the entries of `s` lie inside a block of `w` by `h`
/// samples and neither their column nor their row ever decreases.
pub open spec fn eobxy_grow_within(s: Seq<i16>, i: nat, w: int, h: int) -> bool
    decreases s.len() - i,
{
    if i >= s.len() {
        true
    } else {
        let (x, y) = eobxy_col_row(s[i as int]);
        &&& 0 <= x < w && 0 <= y < h
        &&& i + 1 < s.len() ==> x <= eobxy_col_row(s[i + 1int]).0 && y <= eobxy_col_row(s[i + 1int]).1
        &&& eobxy_grow_within(s, i + 1, w, h)
    }
}

proof fn lemma_eobxy_grow_within_all(s: Seq<i16>, i: nat, w: int, h: int)
    requires
        eobxy_grow_within(s, i, w, h),
    ensures
        forall|a: int, b: int|
            i <= a <= b < s.len() ==> eobxy_col_row(#[trigger] s[a]).0 <= eobxy_col_row(
                #[trigger] s[b],
            ).0 && eobxy_col_row(s[a]).1 <= eobxy_col_row(s[b]).1,
        forall|a: int|
            i <= a < s.len() ==> 0 <= #[trigger] eobxy_col_row(s[a]).0 < w && 0
                <= eobxy_col_row(s[a]).1 < h,
    decreases s.len() - i,
{
    if i < s.len() {
        lemma_eobxy_grow_within_all(s, i + 1, w, h);
    }
}

proof fn lemma_eobxy_tables_grow(t: TxSize)
    ensures
        eobxy_grow_within(
            eob_to_eobxy_table(t),
            0,
            if spec_width_log2(t) < 5 { spec_width(t) as int } else { 32 },
            if spec_height_log2(t) < 5 { spec_height(t) as int } else { 32 },
        ),
{
    reveal_with_fuel(eobxy_grow_within, 33);
}

/// The eob tables have one entry for each row (at most 32) of the coded
/// area of the blocks with both sides of 8 or more, and none for the others;
/// their entries lie inside the coded area, never move back to an earlier
/// column or row, and the last one reaches the far corner of the area.
pub proof fn law_eobxy_tables_grow_within_block(t: TxSize)
    ensures
        ({
            let s = eob_to_eobxy_table(t);
            let w: int = if spec_width_log2(t) < 5 { spec_width(t) as int } else { 32 };
            let h: int = if spec_height_log2(t) < 5 { spec_height(t) as int } else { 32 };
            &&& (spec_width(t) >= 8 && spec_height(t) >= 8) ==> s.len() == h
            &&& (spec_width(t) == 4 || spec_height(t) == 4) ==> s.len() == 0
            &&& forall|a: int, b: int|
                0 <= a <= b < s.len() ==> eobxy_col_row(#[trigger] s[a]).0 <= eobxy_col_row(
                    #[trigger] s[b],
                ).0 && eobxy_col_row(s[a]).1 <= eobxy_col_row(s[b]).1
            &&& forall|a: int|
                0 <= a < s.len() ==> 0 <= #[trigger] eobxy_col_row(s[a]).0 < w && 0
                    <= eobxy_col_row(s[a]).1 < h
            &&& s.len() > 0 ==> eobxy_col_row(s.last()) == (w - 1, h - 1)
        }),
{
    let w: int = if spec_width_log2(t) < 5 { spec_width(t) as int } else { 32 };
    let h: int = if spec_height_log2(t) < 5 { spec_height(t) as int } else { 32 };
    lemma_eobxy_tables_grow(t);
    lemma_eobxy_grow_within_all(eob_to_eobxy_table(t), 0, w, h);
}

/// The scan position that `get_eobx_eoby_scan_default` reads off a table
/// entry is the entry's column and row.
pub proof fn law_eobxy_bytes_are_col_row(e: i16)
    requires
        e >= 0,
    ensures
        (e & 0xFF) as int == eobxy_col_row(e).0,
        (e >> 8u32) as int == eobxy_col_row(e).1,
{
    assert((e & 0xFF) == e % 256 && (e >> 8u32) == e / 256) by (bit_vector)
        requires
            e >= 0,
    ;
}

/// The kind of a 1-D transform.
#[derive(Debug, Clone, Copy, PartialEq, Eq, Structural)]
#[allow(non_camel_case_types)]
pub enum TxType1D {
    DCT,
    ADST,
    FLIPADST,
    IDTX,
}

/// The transform for a size, a kind and the index of the number of
/// leading coefficients that may be nonzero (1, 8, 16 or all).
pub open spec fn spec_kernel_for(tx_size: usize, tx_type: TxType1D, lowbd_idx: usize) -> Option<
    TxfmKernel,
> {
    match tx_type {
        TxType1D::DCT => if tx_size == 8 {
            if lowbd_idx == 0 {
                Some(TxfmKernel::Idct8Low1)
            } else if lowbd_idx == 1 {
                Some(TxfmKernel::Idct8)
            } else {
                None
            }
        } else if tx_size == 16 {
            if lowbd_idx == 0 {
                Some(TxfmKernel::Idct16Low1)
            } else if lowbd_idx == 1 {
                Some(TxfmKernel::Idct16Low8)
            } else if lowbd_idx == 2 {
                Some(TxfmKernel::Idct16)
            } else {
                None
            }
        } else if tx_size == 32 {
            if lowbd_idx == 0 {
                Some(TxfmKernel::Idct32Low1)
            } else if lowbd_idx == 1 {
                Some(TxfmKernel::Idct32Low8)
            } else if lowbd_idx == 2 {
                Some(TxfmKernel::Idct32Low16)
            } else if lowbd_idx == 3 {
                Some(TxfmKernel::Idct32)
            } else {
                None
            }
        } else if tx_size == 64 {
            if lowbd_idx == 0 {
                Some(TxfmKernel::Idct64Low1)
            } else if lowbd_idx == 1 {
                Some(TxfmKernel::Idct64Low8)
            } else if lowbd_idx == 2 {
                Some(TxfmKernel::Idct64Low16)
            } else if lowbd_idx == 3 {
                Some(TxfmKernel::Idct64)
            } else {
                None
            }
        } else {
            None
        },
        TxType1D::ADST => if tx_size == 8 {
            if lowbd_idx == 0 {
                Some(TxfmKernel::Iadst8Low1)
            } else if lowbd_idx == 1 {
                Some(TxfmKernel::Iadst8)
            } else {
                None
            }
        } else if tx_size == 16 {
            if lowbd_idx == 0 {
                Some(TxfmKernel::Iadst16Low1)
            } else if lowbd_idx == 1 {
                Some(TxfmKernel::Iadst16Low8)
            } else if lowbd_idx == 2 {
                Some(TxfmKernel::Iadst16)
            } else {
                None
            }
        } else {
            None
        },
        _ => None,
    }
}

/// Picks the 1-D transform for a size, a kind and the index of the number
/// of leading coefficients that may be nonzero. Only the DCT of 8 to 64
/// points and the ADST of 8 and 16 points exist here.
pub fn get_highbd_inv_txfm(tx_size: usize, tx_type: TxType1D, lowbd_idx: usize) -> (r: TxfmKernel)
    requires
        spec_kernel_for(tx_size, tx_type, lowbd_idx) is Some,
    ensures
        Some(r) == spec_kernel_for(tx_size, tx_type, lowbd_idx),
        kernel_size(r) == tx_size,
{
    match tx_type {
        TxType1D::DCT => match tx_size {
            8 => match lowbd_idx {
                0 => TxfmKernel::Idct8Low1,
                _ => TxfmKernel::Idct8,
            },
            16 => match lowbd_idx {
                0 => TxfmKernel::Idct16Low1,
                1 => TxfmKernel::Idct16Low8,
                _ => TxfmKernel::Idct16,
            },
            32 => match lowbd_idx {
                0 => TxfmKernel::Idct32Low1,
                1 => TxfmKernel::Idct32Low8,
                2 => TxfmKernel::Idct32Low16,
                _ => TxfmKernel::Idct32,
            },
            _ => match lowbd_idx {
                0 => TxfmKernel::Idct64Low1,
                1 => TxfmKernel::Idct64Low8,
                2 => TxfmKernel::Idct64Low16,
                _ => TxfmKernel::Idct64,
            },
        },
        _ => match tx_size {
            8 => match lowbd_idx {
                0 => TxfmKernel::Iadst8Low1,
                _ => TxfmKernel::Iadst8,
            },
            _ => match lowbd_idx {
                0 => TxfmKernel::Iadst16Low1,
                1 => TxfmKernel::Iadst16Low8,
                _ => TxfmKernel::Iadst16,
            },
        },
    }
}


/// Whether the pass clamps its outputs: every pass of an inverse DCT, and
/// the row pass of an inverse ADST (its column pass leaves them as they come
/// out of the last rotation).
pub open spec fn kernel_clamps_outputs(k: TxfmKernel, do_cols: bool) -> bool {
    !do_cols || !(k == TxfmKernel::Iadst8Low1 || k == TxfmKernel::Iadst8 || k
        == TxfmKernel::Iadst16Low1 || k == TxfmKernel::Iadst16Low8 || k == TxfmKernel::Iadst16)
}

proof fn lemma_idct8_low1_col_clamped()
    ensures
        outputs_clamped(IDCT8_LOW1_COL_OPS@, IDCT8_LOW1_COL_OUTS@, 8, 6, 8),
{
    reveal(IDCT8_LOW1_COL_OPS);
    reveal(IDCT8_LOW1_COL_OUTS);
    reveal_with_fuel(outputs_clamped, 9);
}

proof fn lemma_idct8_low1_row_clamped()
    ensures
        outputs_clamped(IDCT8_LOW1_ROW_OPS@, IDCT8_LOW1_ROW_OUTS@, 8, 6, 8),
{
    reveal(IDCT8_LOW1_ROW_OPS);
    reveal(IDCT8_LOW1_ROW_OUTS);
    reveal_with_fuel(outputs_clamped, 9);
}

proof fn lemma_idct8_col_clamped()
    ensures
        outputs_clamped(IDCT8_COL_OPS@, IDCT8_COL_OUTS@, 8, 6, 8),
{
    reveal(IDCT8_COL_OPS);
    reveal(IDCT8_COL_OUTS);
    reveal_with_fuel(outputs_clamped, 9);
}

proof fn lemma_idct8_row_clamped()
    ensures
        outputs_clamped(IDCT8_ROW_OPS@, IDCT8_ROW_OUTS@, 8, 6, 8),
{
    reveal(IDCT8_ROW_OPS);
    reveal(IDCT8_ROW_OUTS);
    reveal_with_fuel(outputs_clamped, 9);
}

proof fn lemma_idct16_low1_col_clamped()
    ensures
        outputs_clamped(IDCT16_LOW1_COL_OPS@, IDCT16_LOW1_COL_OUTS@, 16, 6, 16),
{
    reveal(IDCT16_LOW1_COL_OPS);
    reveal(IDCT16_LOW1_COL_OUTS);
    reveal_with_fuel(outputs_clamped, 17);
}

proof fn lemma_idct16_low1_row_clamped()
    ensures
        outputs_clamped(IDCT16_LOW1_ROW_OPS@, IDCT16_LOW1_ROW_OUTS@, 16, 6, 16),
{
    reveal(IDCT16_LOW1_ROW_OPS);
    reveal(IDCT16_LOW1_ROW_OUTS);
    reveal_with_fuel(outputs_clamped, 17);
}

proof fn lemma_idct16_low8_col_clamped()
    ensures
        outputs_clamped(IDCT16_LOW8_COL_OPS@, IDCT16_LOW8_COL_OUTS@, 16, 6, 16),
{
    reveal(IDCT16_LOW8_COL_OPS);
    reveal(IDCT16_LOW8_COL_OUTS);
    reveal_with_fuel(outputs_clamped, 17);
}

proof fn lemma_idct16_low8_row_clamped()
    ensures
        outputs_clamped(IDCT16_LOW8_ROW_OPS@, IDCT16_LOW8_ROW_OUTS@, 16, 6, 16),
{
    reveal(IDCT16_LOW8_ROW_OPS);
    reveal(IDCT16_LOW8_ROW_OUTS);
    reveal_with_fuel(outputs_clamped, 17);
}

proof fn lemma_idct16_col_clamped()
    ensures
        outputs_clamped(IDCT16_COL_OPS@, IDCT16_COL_OUTS@, 16, 6, 16),
{
    reveal(IDCT16_COL_OPS);
    reveal(IDCT16_COL_OUTS);
    reveal_with_fuel(outputs_clamped, 17);
}

proof fn lemma_idct16_row_clamped()
    ensures
        outputs_clamped(IDCT16_ROW_OPS@, IDCT16_ROW_OUTS@, 16, 6, 16),
{
    reveal(IDCT16_ROW_OPS);
    reveal(IDCT16_ROW_OUTS);
    reveal_with_fuel(outputs_clamped, 17);
}

#[verifier::rlimit(100)]
proof fn lemma_idct32_low1_col_clamped()
    ensures
        outputs_clamped(IDCT32_LOW1_COL_OPS@, IDCT32_LOW1_COL_OUTS@, 32, 6, 32),
{
    reveal(IDCT32_LOW1_COL_OPS);
    reveal(IDCT32_LOW1_COL_OUTS);
    reveal_with_fuel(outputs_clamped, 33);
}

#[verifier::rlimit(100)]
proof fn lemma_idct32_low1_row_clamped()
    ensures
        outputs_clamped(IDCT32_LOW1_ROW_OPS@, IDCT32_LOW1_ROW_OUTS@, 32, 6, 32),
{
    reveal(IDCT32_LOW1_ROW_OPS);
    reveal(IDCT32_LOW1_ROW_OUTS);
    reveal_with_fuel(outputs_clamped, 33);
}

#[verifier::rlimit(100)]
proof fn lemma_idct32_low8_col_clamped()
    ensures
        outputs_clamped(IDCT32_LOW8_COL_OPS@, IDCT32_LOW8_COL_OUTS@, 32, 6, 32),
{
    reveal(IDCT32_LOW8_COL_OPS);
    reveal(IDCT32_LOW8_COL_OUTS);
    reveal_with_fuel(outputs_clamped, 33);
}

#[verifier::rlimit(100)]
proof fn lemma_idct32_low8_row_clamped()
    ensures
        outputs_clamped(IDCT32_LOW8_ROW_OPS@, IDCT32_LOW8_ROW_OUTS@, 32, 6, 32),
{
    reveal(IDCT32_LOW8_ROW_OPS);
    reveal(IDCT32_LOW8_ROW_OUTS);
    reveal_with_fuel(outputs_clamped, 33);
}

#[verifier::rlimit(100)]
proof fn lemma_idct32_low16_col_clamped()
    ensures
        outputs_clamped(IDCT32_LOW16_COL_OPS@, IDCT32_LOW16_COL_OUTS@, 32, 6, 32),
{
    reveal(IDCT32_LOW16_COL_OPS);
    reveal(IDCT32_LOW16_COL_OUTS);
    reveal_with_fuel(outputs_clamped, 33);
}

#[verifier::rlimit(100)]
proof fn lemma_idct32_low16_row_clamped()
    ensures
        outputs_clamped(IDCT32_LOW16_ROW_OPS@, IDCT32_LOW16_ROW_OUTS@, 32, 6, 32),
{
    reveal(IDCT32_LOW16_ROW_OPS);
    reveal(IDCT32_LOW16_ROW_OUTS);
    reveal_with_fuel(outputs_clamped, 33);
}

#[verifier::rlimit(100)]
proof fn lemma_idct32_col_clamped()
    ensures
        outputs_clamped(IDCT32_COL_OPS@, IDCT32_COL_OUTS@, 32, 6, 32),
{
    reveal(IDCT32_COL_OPS);
    reveal(IDCT32_COL_OUTS);
    reveal_with_fuel(outputs_clamped, 33);
}

#[verifier::rlimit(100)]
proof fn lemma_idct32_row_clamped()
    ensures
        outputs_clamped(IDCT32_ROW_OPS@, IDCT32_ROW_OUTS@, 32, 6, 32),
{
    reveal(IDCT32_ROW_OPS);
    reveal(IDCT32_ROW_OUTS);
    reveal_with_fuel(outputs_clamped, 33);
}

#[verifier::rlimit(100)]
proof fn lemma_idct64_low1_col_clamped()
    ensures
        outputs_clamped(IDCT64_LOW1_COL_OPS@, IDCT64_LOW1_COL_OUTS@, 64, 6, 64),
{
    reveal(IDCT64_LOW1_COL_OPS);
    reveal(IDCT64_LOW1_COL_OUTS);
    reveal_with_fuel(outputs_clamped, 65);
}

#[verifier::rlimit(100)]
proof fn lemma_idct64_low1_row_clamped()
    ensures
        outputs_clamped(IDCT64_LOW1_ROW_OPS@, IDCT64_LOW1_ROW_OUTS@, 64, 6, 64),
{
    reveal(IDCT64_LOW1_ROW_OPS);
    reveal(IDCT64_LOW1_ROW_OUTS);
    reveal_with_fuel(outputs_clamped, 65);
}

#[verifier::rlimit(100)]
proof fn lemma_idct64_low8_col_clamped()
    ensures
        outputs_clamped(IDCT64_LOW8_COL_OPS@, IDCT64_LOW8_COL_OUTS@, 64, 6, 64),
{
    reveal(IDCT64_LOW8_COL_OPS);
    reveal(IDCT64_LOW8_COL_OUTS);
    reveal_with_fuel(outputs_clamped, 65);
}

#[verifier::rlimit(100)]
proof fn lemma_idct64_low8_row_clamped()
    ensures
        outputs_clamped(IDCT64_LOW8_ROW_OPS@, IDCT64_LOW8_ROW_OUTS@, 64, 6, 64),
{
    reveal(IDCT64_LOW8_ROW_OPS);
    reveal(IDCT64_LOW8_ROW_OUTS);
    reveal_with_fuel(outputs_clamped, 65);
}

#[verifier::rlimit(100)]
proof fn lemma_idct64_low16_col_clamped()
    ensures
        outputs_clamped(IDCT64_LOW16_COL_OPS@, IDCT64_LOW16_COL_OUTS@, 64, 6, 64),
{
    reveal(IDCT64_LOW16_COL_OPS);
    reveal(IDCT64_LOW16_COL_OUTS);
    reveal_with_fuel(outputs_clamped, 65);
}

#[verifier::rlimit(100)]
proof fn lemma_idct64_low16_row_clamped()
    ensures
        outputs_clamped(IDCT64_LOW16_ROW_OPS@, IDCT64_LOW16_ROW_OUTS@, 64, 6, 64),
{
    reveal(IDCT64_LOW16_ROW_OPS);
    reveal(IDCT64_LOW16_ROW_OUTS);
    reveal_with_fuel(outputs_clamped, 65);
}

#[verifier::rlimit(100)]
proof fn lemma_idct64_col_clamped()
    ensures
        outputs_clamped(IDCT64_COL_OPS@, IDCT64_COL_OUTS@, 64, 6, 64),
{
    reveal(IDCT64_COL_OPS);
    reveal(IDCT64_COL_OUTS);
    reveal_with_fuel(outputs_clamped, 65);
}

#[verifier::rlimit(100)]
proof fn lemma_idct64_row_clamped()
    ensures
        outputs_clamped(IDCT64_ROW_OPS@, IDCT64_ROW_OUTS@, 64, 6, 64),
{
    reveal(IDCT64_ROW_OPS);
    reveal(IDCT64_ROW_OUTS);
    reveal_with_fuel(outputs_clamped, 65);
}

proof fn lemma_iadst8_low1_row_clamped()
    ensures
        outputs_clamped(IADST8_LOW1_ROW_OPS@, IADST8_LOW1_ROW_OUTS@, 8, 6, 8),
{
    reveal(IADST8_LOW1_ROW_OPS);
    reveal(IADST8_LOW1_ROW_OUTS);
    reveal_with_fuel(outputs_clamped, 9);
}

proof fn lemma_iadst8_row_clamped()
    ensures
        outputs_clamped(IADST8_ROW_OPS@, IADST8_ROW_OUTS@, 8, 6, 8),
{
    reveal(IADST8_ROW_OPS);
    reveal(IADST8_ROW_OUTS);
    reveal_with_fuel(outputs_clamped, 9);
}

proof fn lemma_iadst16_low1_row_clamped()
    ensures
        outputs_clamped(IADST16_LOW1_ROW_OPS@, IADST16_LOW1_ROW_OUTS@, 16, 6, 16),
{
    reveal(IADST16_LOW1_ROW_OPS);
    reveal(IADST16_LOW1_ROW_OUTS);
    reveal_with_fuel(outputs_clamped, 17);
}

proof fn lemma_iadst16_low8_row_clamped()
    ensures
        outputs_clamped(IADST16_LOW8_ROW_OPS@, IADST16_LOW8_ROW_OUTS@, 16, 6, 16),
{
    reveal(IADST16_LOW8_ROW_OPS);
    reveal(IADST16_LOW8_ROW_OUTS);
    reveal_with_fuel(outputs_clamped, 17);
}

proof fn lemma_iadst16_row_clamped()
    ensures
        outputs_clamped(IADST16_ROW_OPS@, IADST16_ROW_OUTS@, 16, 6, 16),
{
    reveal(IADST16_ROW_OPS);
    reveal(IADST16_ROW_OUTS);
    reveal_with_fuel(outputs_clamped, 17);
}

proof fn lemma_kernel_outputs_clamped(k: TxfmKernel, do_cols: bool)
    requires
        kernel_clamps_outputs(k, do_cols),
    ensures
        kernel_outs(k, do_cols).len() == kernel_size(k),
        outputs_clamped(
            kernel_ops(k, do_cols),
            kernel_outs(k, do_cols),
            kernel_size(k) as int,
            6,
            kernel_size(k),
        ),
{
    match k {
        TxfmKernel::Idct8Low1 => if do_cols {
            lemma_idct8_low1_col_clamped();
        } else {
            lemma_idct8_low1_row_clamped();
        },
        TxfmKernel::Idct8 => if do_cols {
            lemma_idct8_col_clamped();
        } else {
            lemma_idct8_row_clamped();
        },
        TxfmKernel::Idct16Low1 => if do_cols {
            lemma_idct16_low1_col_clamped();
        } else {
            lemma_idct16_low1_row_clamped();
        },
        TxfmKernel::Idct16Low8 => if do_cols {
            lemma_idct16_low8_col_clamped();
        } else {
            lemma_idct16_low8_row_clamped();
        },
        TxfmKernel::Idct16 => if do_cols {
            lemma_idct16_col_clamped();
        } else {
            lemma_idct16_row_clamped();
        },
        TxfmKernel::Idct32Low1 => if do_cols {
            lemma_idct32_low1_col_clamped();
        } else {
            lemma_idct32_low1_row_clamped();
        },
        TxfmKernel::Idct32Low8 => if do_cols {
            lemma_idct32_low8_col_clamped();
        } else {
            lemma_idct32_low8_row_clamped();
        },
        TxfmKernel::Idct32Low16 => if do_cols {
            lemma_idct32_low16_col_clamped();
        } else {
            lemma_idct32_low16_row_clamped();
        },
        TxfmKernel::Idct32 => if do_cols {
            lemma_idct32_col_clamped();
        } else {
            lemma_idct32_row_clamped();
        },
        TxfmKernel::Idct64Low1 => if do_cols {
            lemma_idct64_low1_col_clamped();
        } else {
            lemma_idct64_low1_row_clamped();
        },
        TxfmKernel::Idct64Low8 => if do_cols {
            lemma_idct64_low8_col_clamped();
        } else {
            lemma_idct64_low8_row_clamped();
        },
        TxfmKernel::Idct64Low16 => if do_cols {
            lemma_idct64_low16_col_clamped();
        } else {
            lemma_idct64_low16_row_clamped();
        },
        TxfmKernel::Idct64 => if do_cols {
            lemma_idct64_col_clamped();
        } else {
            lemma_idct64_row_clamped();
        },
        TxfmKernel::Iadst8Low1 => if !do_cols {
            lemma_iadst8_low1_row_clamped();
        },
        TxfmKernel::Iadst8 => if !do_cols {
            lemma_iadst8_row_clamped();
        },
        TxfmKernel::Iadst16Low1 => if !do_cols {
            lemma_iadst16_low1_row_clamped();
        },
        TxfmKernel::Iadst16Low8 => if !do_cols {
            lemma_iadst16_low8_row_clamped();
        },
        TxfmKernel::Iadst16 => if !do_cols {
            lemma_iadst16_row_clamped();
        },
    }
}

/// Every output of a pass that clamps its outputs (every inverse DCT pass,
/// the row pass of an inverse ADST) lies in the range of `max(16, bd + 6)`
/// bits: from `-2^(r - 1)` to `2^(r - 1) - 1` for that `r`.
pub proof fn law_kernel_output_range(k: TxfmKernel, do_cols: bool, input: Seq<i32>, p: ButterflyParams)
    requires
        params_ok(p),
        input.len() == kernel_size(k),
        kernel_clamps_outputs(k, do_cols),
    ensures
        forall|i: int|
            0 <= i < input.len() ==> range_lo(p.bd, 6) <= #[trigger] kernel_output(
                k,
                do_cols,
                input,
                p,
            )[i] <= range_hi(p.bd, 6),
{
    lemma_kernel_outputs_clamped(k, do_cols);
    lemma_clamped_outputs_in_range(kernel_ops(k, do_cols), kernel_outs(k, do_cols), input, 6, p);
}

} // verus!
