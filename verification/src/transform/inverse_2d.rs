//! The 2-D inverse transform of a block of high bit depth coefficients and
//! its addition to the prediction: a row pass, a column pass, rounding, and
//! clamping of the reconstructed samples to the bit depth.

use crate::transform::butterfly::{params_ok, ButterflyParams};
use crate::transform::inverse::{
    eob_to_eobxy_table, eob_row, get_eobx_eoby_scan_default, get_highbd_inv_txfm, inv_txfm_lane,
    kernel_output, kernel_size, spec_kernel_for, TxType1D, TxfmKernel,
};
use crate::transform::{
    spec_height, spec_round_shift_32, spec_round_shift_rect, spec_width, TxSize, NEW_INV_SQRT2,
};
use vstd::prelude::*;

verus! {

/// Precision of the cosine weights of both passes, in bits.
pub const INV_COS_BIT: u32 = 12;

/// The rounding shift after the column pass.
pub const INV_SHIFT_COL: u32 = 4;

/// The rounding shift after the row pass of a transform size (the
/// negation of the first entry of the shift table).
pub open spec fn spec_inv_shift_row(t: TxSize) -> u32 {
    match t {
        TxSize::TX_4X4 | TxSize::TX_4X8 | TxSize::TX_8X4 => 0,
        TxSize::TX_16X16 | TxSize::TX_32X32 | TxSize::TX_64X64 | TxSize::TX_8X32
        | TxSize::TX_32X8 | TxSize::TX_16X64 | TxSize::TX_64X16 => 2,
        _ => 1,
    }
}

/// The rounding shift after the row pass of a transform size.
pub fn inv_shift_row(t: TxSize) -> (r: u32)
    ensures
        r == spec_inv_shift_row(t),
{
    match t {
        TxSize::TX_4X4 | TxSize::TX_4X8 | TxSize::TX_8X4 => 0,
        TxSize::TX_16X16 | TxSize::TX_32X32 | TxSize::TX_64X64 | TxSize::TX_8X32
        | TxSize::TX_32X8 | TxSize::TX_16X64 | TxSize::TX_64X16 => 2,
        _ => 1,
    }
}

/// The row pass of a transform of `w` by `h` samples rounds off no bits for
/// blocks of at most 32 samples, two bits for blocks of at least 256
/// samples whose sides are not in a 2:1 ratio, and one bit otherwise.
pub proof fn law_inv_shift_row_by_block_area(t: TxSize)
    ensures
        ({
            let w = spec_width(t);
            let h = spec_height(t);
            spec_inv_shift_row(t) == if w * h <= 32 {
                0u32
            } else if w * h >= 256 && w != 2 * h && h != 2 * w {
                2u32
            } else {
                1u32
            }
        }),
{
    assert(spec_width(t) * spec_height(t) == match t {
        TxSize::TX_4X4 => 16nat,
        TxSize::TX_4X8 | TxSize::TX_8X4 => 32nat,
        TxSize::TX_8X8 | TxSize::TX_4X16 | TxSize::TX_16X4 => 64nat,
        TxSize::TX_8X16 | TxSize::TX_16X8 => 128nat,
        TxSize::TX_16X16 | TxSize::TX_8X32 | TxSize::TX_32X8 => 256nat,
        TxSize::TX_16X32 | TxSize::TX_32X16 => 512nat,
        TxSize::TX_32X32 | TxSize::TX_16X64 | TxSize::TX_64X16 => 1024nat,
        TxSize::TX_32X64 | TxSize::TX_64X32 => 2048nat,
        TxSize::TX_64X64 => 4096nat,
    }) by (nonlinear_arith)
        requires
            spec_width(t) == crate::transform::size_of_log2(crate::transform::spec_width_log2(t)),
            spec_height(t) == crate::transform::size_of_log2(crate::transform::spec_height_log2(t)),
    ;
}


/// The index of the transform variant for the last nonzero coefficient
/// position `e` (0 to 31): one, up to 8, up to 16, or up to 32
/// coefficients.
pub open spec fn spec_zeros_idx(e: int) -> usize {
    if e <= 0 {
        0
    } else if e < 8 {
        1
    } else if e < 16 {
        2
    } else {
        3
    }
}

fn zeros_idx(e: i16) -> (r: usize)
    ensures
        r == spec_zeros_idx(e as int),
{
    if e <= 0 {
        0
    } else if e < 8 {
        1
    } else if e < 16 {
        2
    } else {
        3
    }
}

/// The last column and row holding nonzero coefficients.
pub open spec fn spec_eob_position(t: TxSize, eob: i32) -> (int, int) {
    if eob == 1 {
        (0, 0)
    } else {
        let e = eob_to_eobxy_table(t)[eob_row(t, eob)];
        ((e & 0xFF) as int, (e >> 8u32) as int)
    }
}

/// A reconstructed sample: the prediction `pred`, read as a signed 16-bit
/// value, plus the residual `res` in 32-bit lane arithmetic, saturated to
/// 16 unsigned bits, then read as signed 16 bits and clamped to
/// `0..2^bd - 1`.
pub open spec fn spec_recon(pred: u16, res: i32, bd: u32) -> u16 {
    let p: int = if pred > 32767 {
        pred - 65536
    } else {
        pred as int
    };
    let v = vstd::wrapping::i32_specs::wrapping_add(res, p as i32);
    let s: int = if v < 0 {
        0
    } else if v > 65535 {
        65535
    } else {
        v as int
    };
    let t: int = if s > 32767 {
        s - 65536
    } else {
        s
    };
    let max: int = vstd::arithmetic::power2::pow2(bd as nat) - 1;
    (if t > max {
        max
    } else if t > 0 {
        t
    } else {
        0
    }) as u16
}

/// A reconstructed sample is always a sample of bit depth `bd`; for a
/// prediction of that depth and a sum of at most 32767, it is the sum of
/// prediction and residual clamped to `0..2^bd - 1`.
pub proof fn law_recon_clamps_sum(pred: u16, res: i32, bd: u32)
    requires
        1 <= bd <= 15,
    ensures
        spec_recon(pred, res, bd) < vstd::arithmetic::power2::pow2(bd as nat),
        pred < vstd::arithmetic::power2::pow2(bd as nat) && pred + res <= 32767 ==> {
            let sum = pred + res;
            let max = vstd::arithmetic::power2::pow2(bd as nat) - 1;
            spec_recon(pred, res, bd) == if sum < 0 {
                0
            } else if sum > max {
                max
            } else {
                sum
            }
        },
{
    vstd::arithmetic::power2::lemma2_to64();
    vstd::arithmetic::power2::lemma_pow2_strictly_increases(bd as nat, 16);
    vstd::arithmetic::power2::lemma_pow2_pos(bd as nat);
}

/// Adds a residual to a predicted sample and clamps the result to the bit
/// depth `bd`, as `spec_recon` says.
pub fn highbd_recon(pred: u16, res: i32, bd: u32) -> (r: u16)
    requires
        1 <= bd <= 15,
    ensures
        r == spec_recon(pred, res, bd),
{
    let p: i32 = if pred > 32767 {
        pred as i32 - 65536
    } else {
        pred as i32
    };
    let v = res.wrapping_add(p);
    let s: i32 = if v < 0 {
        0
    } else if v > 65535 {
        65535
    } else {
        v
    };
    let t: i32 = if s > 32767 {
        s - 65536
    } else {
        s
    };
    proof {
        vstd::arithmetic::power2::lemma2_to64();
        vstd::arithmetic::power2::lemma_pow2_strictly_increases(bd as nat, 16);
        assert(1u32 << bd == vstd::arithmetic::power2::pow2(bd as nat)) by {
            vstd::bits::lemma_u32_shl_is_mul(1, bd);
        }
    }
    let max: i32 = ((1u32 << bd) - 1) as i32;
    let r = if t > max {
        max
    } else if t > 0 {
        t
    } else {
        0
    };
    r as u16
}

/// The input of the row pass for row `y`: the first `nz_w` coefficients of
/// the row (scaled by `1 / sqrt(2)` for 2:1 rectangles), zero after them.
pub open spec fn row_input(
    input: Seq<i32>,
    in_stride: int,
    nz_w: int,
    w: nat,
    rect: bool,
    y: int,
) -> Seq<i32> {
    Seq::new(
        w,
        |x: int|
            if x < nz_w {
                let c = input[y * in_stride + x];
                if rect {
                    spec_round_shift_rect(c, 0, NEW_INV_SQRT2)
                } else {
                    c
                }
            } else {
                0
            },
    )
}

/// The settings of the two passes and where the nonzero coefficients of a
/// block lie.
#[derive(Debug, Clone, Copy, PartialEq, Eq, Structural)]
pub struct Txfm2dSetup {
    /// Width of the block.
    pub w: usize,
    /// Height of the block.
    pub h: usize,
    /// Coefficients per row of the input.
    pub in_stride: usize,
    /// Columns that hold coefficients: the last nonzero one, rounded up to
    /// a multiple of 8.
    pub nz_w: usize,
    /// Rows that hold coefficients, likewise.
    pub nz_h: usize,
    /// Whether the block is a 2:1 rectangle.
    pub rect: bool,
    /// The transform of the row pass.
    pub row_kernel: TxfmKernel,
    /// The transform of the column pass.
    pub col_kernel: TxfmKernel,
    /// Settings of the row pass.
    pub row_params: ButterflyParams,
    /// Settings of the column pass.
    pub col_params: ButterflyParams,
}

/// The output of the row pass for row `y`, or zeros for the rows past the
/// coefficients.
pub open spec fn row_output(s: Txfm2dSetup, input: Seq<i32>, y: int) -> Seq<i32> {
    kernel_output(
        s.row_kernel,
        false,
        row_input(input, s.in_stride as int, s.nz_w as int, s.w as nat, s.rect, y),
        s.row_params,
    )
}

/// The input of the column pass for column `x`: the row outputs at that
/// column (counted from the right with `lr_flip`), zero past the rows of
/// coefficients.
pub open spec fn col_input(s: Txfm2dSetup, input: Seq<i32>, lr_flip: bool, x: int) -> Seq<i32> {
    Seq::new(
        s.h as nat,
        |y: int|
            if y < s.nz_h {
                row_output(s, input, y)[if lr_flip {
                    s.w - 1 - x
                } else {
                    x
                }]
            } else {
                0
            },
    )
}

/// The residual of column `x`: the column pass, rounded down by 4 bits.
pub open spec fn col_output(s: Txfm2dSetup, input: Seq<i32>, lr_flip: bool, x: int) -> Seq<i32> {
    let c = kernel_output(s.col_kernel, true, col_input(s, input, lr_flip, x), s.col_params);
    Seq::new(s.h as nat, |y: int| spec_round_shift_32(c[y], INV_SHIFT_COL))
}

/// The setup of a block: its size, how much of it holds coefficients, and
/// the transforms and settings of its passes.
pub open spec fn spec_setup(
    tx_size: TxSize,
    row_type: TxType1D,
    col_type: TxType1D,
    eob: i32,
    bd: u32,
) -> Txfm2dSetup {
    let w = spec_width(tx_size);
    let h = spec_height(tx_size);
    let (ex, ey) = spec_eob_position(tx_size, eob);
    Txfm2dSetup {
        w: w as usize,
        h: h as usize,
        in_stride: (if w < 32 {
            w
        } else {
            32
        }) as usize,
        nz_w: ((ex + 8) / 8 * 8) as usize,
        nz_h: ((ey + 8) / 8 * 8) as usize,
        rect: w == 2 * h || h == 2 * w,
        row_kernel: spec_kernel_for(w as usize, row_type, spec_zeros_idx(ex))->0,
        col_kernel: spec_kernel_for(h as usize, col_type, spec_zeros_idx(ey))->0,
        row_params: ButterflyParams { bit: INV_COS_BIT, bd, out_shift: spec_inv_shift_row(tx_size) },
        col_params: ButterflyParams { bit: INV_COS_BIT, bd, out_shift: 0 },
    }
}

/// The block can be transformed: both sides are 8 to 64, the last nonzero
/// coefficient lies inside the coded area, transforms of both kinds exist
/// for the sizes and the coefficients read, and the buffers are large
/// enough.
pub open spec fn txfm2d_ok(
    tx_size: TxSize,
    row_type: TxType1D,
    col_type: TxType1D,
    eob: i32,
    bd: u32,
    input_len: nat,
    output_len: nat,
    stride: nat,
) -> bool {
    let w = spec_width(tx_size);
    let h = spec_height(tx_size);
    let cw: int = if w < 32 {
        w as int
    } else {
        32
    };
    let ch: int = if h < 32 {
        h as int
    } else {
        32
    };
    let (ex, ey) = spec_eob_position(tx_size, eob);
    &&& w >= 8 && h >= 8
    &&& 1 <= bd <= 15
    &&& eob >= 1
    &&& (eob == 1 || eob_row(tx_size, eob) < eob_to_eobxy_table(tx_size).len())
    &&& 0 <= ex < cw && 0 <= ey < ch
    &&& spec_kernel_for(w as usize, row_type, spec_zeros_idx(ex)) is Some
    &&& spec_kernel_for(h as usize, col_type, spec_zeros_idx(ey)) is Some
    &&& input_len >= cw * ch
    &&& stride >= w
    &&& (h - 1) * stride + w <= output_len
    &&& output_len <= usize::MAX
}

proof fn lemma_out_index(r: int, c: int, stride: int)
    requires
        0 <= c < stride,
        r >= 0,
    ensures
        (r * stride + c) / stride == r,
        (r * stride + c) % stride == c,
{
    vstd::arithmetic::div_mod::lemma_fundamental_div_mod_converse(r * stride + c, stride, r, c);
}

/// Inverse transforms a block of coefficients and adds the residual to the
/// prediction held in `output`, whose rows are `stride` samples apart.
///
/// The coefficients sit row after row, at most 32 to a row and at most 32
/// rows; `eob` counts the coefficients up to the last nonzero one in scan
/// order. Rows past the last nonzero row and columns past the last nonzero
/// column, rounded up to multiples of 8, are taken as zero. Each row then
/// goes through the row transform `row_type` (scaled by `1 / sqrt(2)` first
/// for 2:1 rectangles), each column through the column transform
/// `col_type`, rounded down by 4 bits; `lr_flip` and `ud_flip` mirror the
/// residual left to right and top to bottom. The samples of the block
/// become their reconstruction, the others stay.
pub fn highbd_inv_txfm2d_add_no_identity(
    input: &[i32],
    output: &mut [u16],
    stride: usize,
    row_type: TxType1D,
    col_type: TxType1D,
    ud_flip: bool,
    lr_flip: bool,
    tx_size: TxSize,
    eob: i32,
    bd: u32,
)
    requires
        txfm2d_ok(
            tx_size,
            row_type,
            col_type,
            eob,
            bd,
            input@.len(),
            old(output)@.len(),
            stride as nat,
        ),
    ensures
        final(output)@.len() == old(output)@.len(),
        ({
            let s = spec_setup(tx_size, row_type, col_type, eob, bd);
            forall|i: int|
                0 <= i < old(output)@.len() ==> #[trigger] final(output)@[i] == (if i / (stride as int)
                    < s.h && i % (stride as int) < s.w {
                    spec_recon(
                        old(output)@[i],
                        col_output(s, input@, lr_flip, i % (stride as int))[if ud_flip {
                            s.h - 1 - i / (stride as int)
                        } else {
                            i / (stride as int)
                        }],
                        bd,
                    )
                } else {
                    old(output)@[i]
                })
        }),
{
    let ghost s = spec_setup(tx_size, row_type, col_type, eob, bd);
    let ghost orig = output@;
    let (eobx, eoby) = get_eobx_eoby_scan_default(tx_size, eob);
    let w = tx_size.width();
    let h = tx_size.height();
    let in_stride: usize = if w < 32 {
        w
    } else {
        32
    };
    let nz_w: usize = ((eobx as usize) + 8) / 8 * 8;
    let nz_h: usize = ((eoby as usize) + 8) / 8 * 8;
    let rect = w == 2 * h || h == 2 * w;
    let row_kernel = get_highbd_inv_txfm(w, row_type, zeros_idx(eobx));
    let col_kernel = get_highbd_inv_txfm(h, col_type, zeros_idx(eoby));
    let row_params = ButterflyParams { bit: INV_COS_BIT, bd, out_shift: inv_shift_row(tx_size) };
    let col_params = ButterflyParams { bit: INV_COS_BIT, bd, out_shift: 0 };
    proof {
        assert(w == s.w && h == s.h && in_stride == s.in_stride);
        assert(nz_w == s.nz_w && nz_h == s.nz_h && rect == s.rect);
        assert(row_kernel == s.row_kernel && col_kernel == s.col_kernel);
        assert(row_params == s.row_params && col_params == s.col_params);
        assert(nz_w <= in_stride && nz_h <= 32 && nz_h <= h && nz_w <= w);
        assert(nz_h <= (if h < 32 {
            h
        } else {
            32
        }));
        assert(input@.len() == input.len());
        assert(nz_h * in_stride <= input@.len()) by (nonlinear_arith)
            requires
                nz_h <= (if h < 32 {
                    h
                } else {
                    32
                }),
                in_stride == (if w < 32 {
                    w
                } else {
                    32
                }),
                input@.len() >= (if w < 32 {
                    w
                } else {
                    32
                }) * (if h < 32 {
                    h
                } else {
                    32
                }),
        ;
    }
    // Row pass.
    let mut rows: Vec<Vec<i32>> = Vec::new();
    let mut y: usize = 0;
    while y < nz_h
        invariant
            s == spec_setup(tx_size, row_type, col_type, eob, bd),
            txfm2d_ok(tx_size, row_type, col_type, eob, bd, input@.len(), orig.len(), stride as nat),
            w == s.w,
            h == s.h,
            in_stride == s.in_stride,
            nz_w == s.nz_w,
            nz_h == s.nz_h,
            rect == s.rect,
            row_kernel == s.row_kernel,
            row_params == s.row_params,
            nz_w <= in_stride,
            nz_h <= 32,
            nz_h <= h,
            in_stride <= 32,
            in_stride <= w,
            nz_h * in_stride <= input@.len(),
            input@.len() == input.len(),
            y <= nz_h,
            rows@.len() == y,
            forall|k: int| 0 <= k < y ==> (#[trigger] rows@[k])@ == row_output(s, input@, k),
        decreases nz_h - y,
    {
        let mut row: Vec<i32> = Vec::new();
        let mut x: usize = 0;
        proof {
            assert(y * in_stride + in_stride <= nz_h * in_stride) by (nonlinear_arith)
                requires
                    y < nz_h,
            ;
        }
        while x < w
            invariant
                x <= w,
                w == s.w,
                row@.len() == x,
                nz_w <= in_stride,
                y * in_stride + in_stride <= input@.len(),
                input@.len() == input.len(),
                forall|k: int|
                    0 <= k < x ==> #[trigger] row@[k] == row_input(
                        input@,
                        in_stride as int,
                        nz_w as int,
                        w as nat,
                        rect,
                        y as int,
                    )[k],
            decreases w - x,
        {
            let v: i32 = if x < nz_w {
                let c = input[y * in_stride + x];
                if rect {
                    let r0 = c << 0u32;
                    let r1 = NEW_INV_SQRT2.wrapping_mul(r0);
                    crate::transform::round_shift_32(r1, 12)
                } else {
                    c
                }
            } else {
                0
            };
            row.push(v);
            x = x + 1;
        }
        proof {
            assert(row@ =~= row_input(input@, in_stride as int, nz_w as int, w as nat, rect, y as int));
        }
        inv_txfm_lane(row_kernel, row.as_mut_slice(), false, row_params);
        rows.push(row);
        y = y + 1;
    }
    // Column pass and reconstruction.
    let mut x: usize = 0;
    while x < w
        invariant
            s == spec_setup(tx_size, row_type, col_type, eob, bd),
            txfm2d_ok(tx_size, row_type, col_type, eob, bd, input@.len(), orig.len(), stride as nat),
            w == s.w,
            h == s.h,
            nz_h == s.nz_h,
            nz_h <= h,
            col_kernel == s.col_kernel,
            col_params == s.col_params,
            rows@.len() == nz_h,
            forall|k: int| 0 <= k < nz_h ==> (#[trigger] rows@[k])@ == row_output(s, input@, k),
            x <= w,
            output@.len() == orig.len(),
            stride >= w,
            (h - 1) * stride + w <= orig.len(),
            forall|i: int|
                0 <= i < orig.len() ==> #[trigger] output@[i] == (if i / (stride as int) < h && i % (
                stride as int) < x {
                    spec_recon(
                        orig[i],
                        col_output(s, input@, lr_flip, i % (stride as int))[if ud_flip {
                            h - 1 - i / (stride as int)
                        } else {
                            i / (stride as int)
                        }],
                        bd,
                    )
                } else {
                    orig[i]
                }),
        decreases w - x,
    {
        let src_x: usize = if lr_flip {
            w - 1 - x
        } else {
            x
        };
        let mut col: Vec<i32> = Vec::new();
        let mut yy: usize = 0;
        while yy < h
            invariant
                yy <= h,
                h == s.h,
                w == s.w,
                src_x < w,
                x < w,
                src_x == (if lr_flip {
                    w - 1 - x
                } else {
                    x as int
                }),
                nz_h == s.nz_h,
                rows@.len() == nz_h,
                forall|k: int| 0 <= k < nz_h ==> (#[trigger] rows@[k])@ == row_output(s, input@, k),
                forall|k: int| 0 <= k < nz_h ==> (#[trigger] rows@[k])@.len() == w,
                col@.len() == yy,
                forall|k: int|
                    0 <= k < yy ==> #[trigger] col@[k] == col_input(s, input@, lr_flip, x as int)[k],
            decreases h - yy,
        {
            let v: i32 = if yy < nz_h {
                rows[yy][src_x]
            } else {
                0
            };
            col.push(v);
            yy = yy + 1;
        }
        proof {
            assert(col@ =~= col_input(s, input@, lr_flip, x as int));
        }
        inv_txfm_lane(col_kernel, col.as_mut_slice(), true, col_params);
        let ghost pre_round = col@;
        crate::transform::round_shift_array_32(col.as_mut_slice(), INV_SHIFT_COL as i32);
        proof {
            assert(col@ =~= col_output(s, input@, lr_flip, x as int));
        }
        let ghost before = output@;
        let mut r: usize = 0;
        while r < h
            invariant
                r <= h,
                h == s.h,
                w == s.w,
                x < w,
                stride >= w,
                (h - 1) * stride + w <= orig.len(),
                orig.len() <= usize::MAX,
                output@.len() == orig.len(),
                col@ == col_output(s, input@, lr_flip, x as int),
                col@.len() == h,
                1 <= bd <= 15,
                w >= 8,
                forall|i: int|
                    0 <= i < orig.len() ==> #[trigger] output@[i] == (if i / (stride as int) < r && i
                        % (stride as int) == x {
                        spec_recon(
                            before[i],
                            col@[if ud_flip {
                                h - 1 - i / (stride as int)
                            } else {
                                i / (stride as int)
                            }],
                            bd,
                        )
                    } else {
                        before[i]
                    }),
            decreases h - r,
        {
            proof {
                assert(r * stride + x < orig.len()) by (nonlinear_arith)
                    requires
                        r < h,
                        x < w,
                        (h - 1) * stride + w <= orig.len(),
                        stride >= w,
                ;
                assert(r * stride <= r * stride + x);
                lemma_out_index(r as int, x as int, stride as int);
            }
            let j: usize = if ud_flip {
                h - 1 - r
            } else {
                r
            };
            let idx = r * stride + x;
            let pred = output[idx];
            let v = highbd_recon(pred, col[j], bd);
            output[idx] = v;
            proof {
                assert forall|i: int| 0 <= i < orig.len() implies #[trigger] output@[i] == (if i / (
                stride as int) < r + 1 && i % (stride as int) == x {
                    spec_recon(
                        before[i],
                        col@[if ud_flip {
                            h - 1 - i / (stride as int)
                        } else {
                            i / (stride as int)
                        }],
                        bd,
                    )
                } else {
                    before[i]
                }) by {
                    if i != idx {
                        if i / (stride as int) == r && i % (stride as int) == x {
                            vstd::arithmetic::div_mod::lemma_fundamental_div_mod(i, stride as int);
                            assert(stride * r == r * stride) by (nonlinear_arith);
                        }
                    }
                }
            }
            r = r + 1;
        }
        proof {
            assert forall|i: int| 0 <= i < orig.len() implies #[trigger] output@[i] == (if i / (
            stride as int) < h && i % (stride as int) < x + 1 {
                spec_recon(
                    orig[i],
                    col_output(s, input@, lr_flip, i % (stride as int))[if ud_flip {
                        h - 1 - i / (stride as int)
                    } else {
                        i / (stride as int)
                    }],
                    bd,
                )
            } else {
                orig[i]
            }) by {
                if i / (stride as int) < h && i % (stride as int) == x {
                } else {
                }
            }
        }
        x = x + 1;
    }
}

} // verus!
