//! The 8- and 16-point inverse ADST, in full and reduced forms, stated stage by stage
//! (rotations by the cosine weights, clamped butterflies, rounding shifts),
//! with the proofs that the butterfly programs compute those stages.

use crate::transform::butterfly::{
    lemma_run_ops_len, lemma_run_ops_prefix, lemma_run_ops_step, params_ok, run_ops, spec_cospi,
    spec_out_offset, spec_rounding, ButterflyParams,
};
use crate::transform::stages::{
    add_w, clamp_w, lower_to_range, mul_w, raise_to_range, rotate_half, round_out, round_to_bit,
    sub_w,
};
use crate::transform::inverse::{kernel_output, TxfmKernel};
use crate::transform::programs::{
    IADST16_COL_OPS, IADST16_COL_OUTS, IADST16_LOW1_COL_OPS, IADST16_LOW1_COL_OUTS, IADST16_LOW1_ROW_OPS, IADST16_LOW1_ROW_OUTS, IADST16_LOW8_COL_OPS, IADST16_LOW8_COL_OUTS, IADST16_LOW8_ROW_OPS, IADST16_LOW8_ROW_OUTS, IADST16_ROW_OPS, IADST16_ROW_OUTS, IADST8_LOW1_COL_OPS, IADST8_LOW1_COL_OUTS, IADST8_LOW1_ROW_OPS, IADST8_LOW1_ROW_OUTS,
};
use vstd::prelude::*;

verus! {

/// The column pass of the 8-point inverse ADST of a lane whose coefficients past the first are zero, stage by stage:
/// rotations by the cosine weights, butterflies clamped to the range of
/// `max(16, bd + 6)` bits.
pub open spec fn spec_iadst8_low1_col(i: Seq<i32>, p: ButterflyParams) -> Seq<i32> {
    let x_1 = mul_w(i[0], spec_cospi(p.bit, 60));
    let u_1 = add_w(x_1, spec_rounding(p));
    let u_2 = u_1 >> p.bit;
    let x_2 = mul_w(i[0], spec_cospi(p.bit, 4));
    let u_3 = sub_w(0i32, x_2);
    let u_4 = add_w(u_3, spec_rounding(p));
    let u_5 = u_4 >> p.bit;
    let temp1_1 = mul_w(u_2, spec_cospi(p.bit, 16));
    let x_3 = mul_w(u_5, spec_cospi(p.bit, 48));
    let temp1_2 = add_w(temp1_1, x_3);
    let temp1_3 = add_w(temp1_2, spec_rounding(p));
    let temp1_4 = temp1_3 >> p.bit;
    let temp2_1 = mul_w(u_2, spec_cospi(p.bit, 48));
    let x_4 = mul_w(u_5, spec_cospi(p.bit, 16));
    let u_6 = sub_w(temp2_1, x_4);
    let u_7 = add_w(u_6, spec_rounding(p));
    let u_8 = u_7 >> p.bit;
    let temp1_5 = mul_w(u_2, spec_cospi(p.bit, 32));
    let x_5 = mul_w(u_5, spec_cospi(p.bit, 32));
    let u_9 = add_w(temp1_5, x_5);
    let u_10 = add_w(u_9, spec_rounding(p));
    let u_11 = u_10 >> p.bit;
    let u_12 = sub_w(temp1_5, x_5);
    let u_13 = add_w(u_12, spec_rounding(p));
    let u_14 = u_13 >> p.bit;
    let temp1_6 = mul_w(temp1_4, spec_cospi(p.bit, 32));
    let x_6 = mul_w(u_8, spec_cospi(p.bit, 32));
    let u_15 = add_w(temp1_6, x_6);
    let u_16 = add_w(u_15, spec_rounding(p));
    let u_17 = u_16 >> p.bit;
    let u_18 = sub_w(temp1_6, x_6);
    let u_19 = add_w(u_18, spec_rounding(p));
    let u_20 = u_19 >> p.bit;
    let output_1 = sub_w(0i32, temp1_4);
    let output_2 = sub_w(0i32, u_11);
    let output_3 = sub_w(0i32, u_20);
    let output_4 = sub_w(0i32, u_5);
    seq![u_2, output_1, u_17, output_2, u_14, output_3, u_8, output_4]
}

/// The row pass of the 8-point inverse ADST of a lane whose coefficients past the first are zero, stage by stage:
/// rotations by the cosine weights, butterflies clamped to the range of
/// `max(16, bd + 8)` bits, then the outputs rounded down by the output shift and clamped to
/// the range of `max(16, bd + 6)` bits.
pub open spec fn spec_iadst8_low1_row(i: Seq<i32>, p: ButterflyParams) -> Seq<i32> {
    let x_1 = mul_w(i[0], spec_cospi(p.bit, 60));
    let u_1 = add_w(x_1, spec_rounding(p));
    let u_2 = u_1 >> p.bit;
    let x_2 = mul_w(i[0], spec_cospi(p.bit, 4));
    let u_3 = sub_w(0i32, x_2);
    let u_4 = add_w(u_3, spec_rounding(p));
    let u_5 = u_4 >> p.bit;
    let temp1_1 = mul_w(u_2, spec_cospi(p.bit, 16));
    let x_3 = mul_w(u_5, spec_cospi(p.bit, 48));
    let temp1_2 = add_w(temp1_1, x_3);
    let temp1_3 = add_w(temp1_2, spec_rounding(p));
    let temp1_4 = temp1_3 >> p.bit;
    let temp2_1 = mul_w(u_2, spec_cospi(p.bit, 48));
    let x_4 = mul_w(u_5, spec_cospi(p.bit, 16));
    let u_6 = sub_w(temp2_1, x_4);
    let u_7 = add_w(u_6, spec_rounding(p));
    let u_8 = u_7 >> p.bit;
    let temp1_5 = mul_w(u_2, spec_cospi(p.bit, 32));
    let x_5 = mul_w(u_5, spec_cospi(p.bit, 32));
    let u_9 = add_w(temp1_5, x_5);
    let u_10 = add_w(u_9, spec_rounding(p));
    let u_11 = u_10 >> p.bit;
    let u_12 = sub_w(temp1_5, x_5);
    let u_13 = add_w(u_12, spec_rounding(p));
    let u_14 = u_13 >> p.bit;
    let temp1_6 = mul_w(temp1_4, spec_cospi(p.bit, 32));
    let x_6 = mul_w(u_8, spec_cospi(p.bit, 32));
    let u_15 = add_w(temp1_6, x_6);
    let u_16 = add_w(u_15, spec_rounding(p));
    let u_17 = u_16 >> p.bit;
    let u_18 = sub_w(temp1_6, x_6);
    let u_19 = add_w(u_18, spec_rounding(p));
    let u_20 = u_19 >> p.bit;
    let output_1 = clamp_w(add_w(u_2, spec_out_offset(p)) >> p.out_shift, p.bd, 6);
    let output_2 = clamp_w(sub_w(spec_out_offset(p), temp1_4) >> p.out_shift, p.bd, 6);
    let output_3 = clamp_w(add_w(u_17, spec_out_offset(p)) >> p.out_shift, p.bd, 6);
    let output_4 = clamp_w(sub_w(spec_out_offset(p), u_11) >> p.out_shift, p.bd, 6);
    let output_5 = clamp_w(add_w(u_14, spec_out_offset(p)) >> p.out_shift, p.bd, 6);
    let output_6 = clamp_w(sub_w(spec_out_offset(p), u_20) >> p.out_shift, p.bd, 6);
    let output_7 = clamp_w(add_w(u_8, spec_out_offset(p)) >> p.out_shift, p.bd, 6);
    let output_8 = clamp_w(sub_w(spec_out_offset(p), u_5) >> p.out_shift, p.bd, 6);
    seq![output_1, output_2, output_3, output_4, output_5, output_6, output_7, output_8]
}

/// The 8-point inverse ADST of a lane whose coefficients past the first are zero: the column pass when `do_cols` holds, the row pass otherwise.
pub open spec fn spec_iadst8_low1(i: Seq<i32>, do_cols: bool, p: ButterflyParams) -> Seq<i32> {
    if do_cols {
        spec_iadst8_low1_col(i, p)
    } else {
        spec_iadst8_low1_row(i, p)
    }
}

/// The column pass of the 16-point inverse ADST of a lane whose coefficients past the first are zero, stage by stage:
/// rotations by the cosine weights, butterflies clamped to the range of
/// `max(16, bd + 6)` bits.
pub open spec fn spec_iadst16_low1_col(i: Seq<i32>, p: ButterflyParams) -> Seq<i32> {
    let x_1 = mul_w(i[0], spec_cospi(p.bit, 62));
    let v_1 = add_w(x_1, spec_rounding(p));
    let v_2 = v_1 >> p.bit;
    let x_2 = mul_w(i[0], spec_cospi(p.bit, 2));
    let v_3 = sub_w(0i32, x_2);
    let v_4 = add_w(v_3, spec_rounding(p));
    let v_5 = v_4 >> p.bit;
    let temp1_1 = mul_w(v_2, spec_cospi(p.bit, 8));
    let x_3 = mul_w(v_5, spec_cospi(p.bit, 56));
    let temp1_2 = add_w(temp1_1, x_3);
    let temp1_3 = add_w(temp1_2, spec_rounding(p));
    let temp1_4 = temp1_3 >> p.bit;
    let temp2_1 = mul_w(v_2, spec_cospi(p.bit, 56));
    let x_4 = mul_w(v_5, spec_cospi(p.bit, 8));
    let temp2_2 = sub_w(temp2_1, x_4);
    let temp2_3 = add_w(temp2_2, spec_rounding(p));
    let temp2_4 = temp2_3 >> p.bit;
    let temp1_5 = mul_w(v_2, spec_cospi(p.bit, 16));
    let x_5 = mul_w(v_5, spec_cospi(p.bit, 48));
    let temp1_6 = add_w(temp1_5, x_5);
    let temp1_7 = add_w(temp1_6, spec_rounding(p));
    let temp1_8 = temp1_7 >> p.bit;
    let temp2_5 = mul_w(v_2, spec_cospi(p.bit, 48));
    let x_6 = mul_w(v_5, spec_cospi(p.bit, 16));
    let temp2_6 = sub_w(temp2_5, x_6);
    let temp2_7 = add_w(temp2_6, spec_rounding(p));
    let temp2_8 = temp2_7 >> p.bit;
    let temp1_9 = mul_w(temp1_4, spec_cospi(p.bit, 16));
    let x_7 = mul_w(temp2_4, spec_cospi(p.bit, 48));
    let temp1_10 = add_w(temp1_9, x_7);
    let temp1_11 = add_w(temp1_10, spec_rounding(p));
    let temp1_12 = temp1_11 >> p.bit;
    let temp2_9 = mul_w(temp1_4, spec_cospi(p.bit, 48));
    let x_8 = mul_w(temp2_4, spec_cospi(p.bit, 16));
    let temp2_10 = sub_w(temp2_9, x_8);
    let temp2_11 = add_w(temp2_10, spec_rounding(p));
    let temp2_12 = temp2_11 >> p.bit;
    let y_1 = mul_w(v_2, spec_cospi(p.bit, 32));
    let x_9 = mul_w(v_5, spec_cospi(p.bit, 32));
    let v_6 = add_w(y_1, x_9);
    let v_7 = add_w(v_6, spec_rounding(p));
    let v_8 = v_7 >> p.bit;
    let v_9 = sub_w(y_1, x_9);
    let v_10 = add_w(v_9, spec_rounding(p));
    let v_11 = v_10 >> p.bit;
    let y_2 = mul_w(temp1_8, spec_cospi(p.bit, 32));
    let x_10 = mul_w(temp2_8, spec_cospi(p.bit, 32));
    let v_12 = add_w(y_2, x_10);
    let v_13 = add_w(v_12, spec_rounding(p));
    let v_14 = v_13 >> p.bit;
    let v_15 = sub_w(y_2, x_10);
    let v_16 = add_w(v_15, spec_rounding(p));
    let v_17 = v_16 >> p.bit;
    let y_3 = mul_w(temp1_4, spec_cospi(p.bit, 32));
    let x_11 = mul_w(temp2_4, spec_cospi(p.bit, 32));
    let v_18 = add_w(y_3, x_11);
    let v_19 = add_w(v_18, spec_rounding(p));
    let v_20 = v_19 >> p.bit;
    let v_21 = sub_w(y_3, x_11);
    let v_22 = add_w(v_21, spec_rounding(p));
    let v_23 = v_22 >> p.bit;
    let y_4 = mul_w(temp1_12, spec_cospi(p.bit, 32));
    let x_12 = mul_w(temp2_12, spec_cospi(p.bit, 32));
    let v_24 = add_w(y_4, x_12);
    let v_25 = add_w(v_24, spec_rounding(p));
    let v_26 = v_25 >> p.bit;
    let v_27 = sub_w(y_4, x_12);
    let v_28 = add_w(v_27, spec_rounding(p));
    let v_29 = v_28 >> p.bit;
    let output_1 = sub_w(0i32, temp1_4);
    let output_2 = sub_w(0i32, temp1_8);
    let output_3 = sub_w(0i32, v_26);
    let output_4 = sub_w(0i32, v_8);
    let output_5 = sub_w(0i32, v_23);
    let output_6 = sub_w(0i32, v_17);
    let output_7 = sub_w(0i32, temp2_12);
    let output_8 = sub_w(0i32, v_5);
    seq![v_2, output_1, temp1_12, output_2, v_14, output_3, v_20, output_4, v_11, output_5, v_29, output_6, temp2_8, output_7, temp2_4, output_8]
}

/// The row pass of the 16-point inverse ADST of a lane whose coefficients past the first are zero, stage by stage:
/// rotations by the cosine weights, butterflies clamped to the range of
/// `max(16, bd + 8)` bits, then the outputs rounded down by the output shift and clamped to
/// the range of `max(16, bd + 6)` bits.
pub open spec fn spec_iadst16_low1_row(i: Seq<i32>, p: ButterflyParams) -> Seq<i32> {
    let x_1 = mul_w(i[0], spec_cospi(p.bit, 62));
    let v_1 = add_w(x_1, spec_rounding(p));
    let v_2 = v_1 >> p.bit;
    let x_2 = mul_w(i[0], spec_cospi(p.bit, 2));
    let v_3 = sub_w(0i32, x_2);
    let v_4 = add_w(v_3, spec_rounding(p));
    let v_5 = v_4 >> p.bit;
    let temp1_1 = mul_w(v_2, spec_cospi(p.bit, 8));
    let x_3 = mul_w(v_5, spec_cospi(p.bit, 56));
    let temp1_2 = add_w(temp1_1, x_3);
    let temp1_3 = add_w(temp1_2, spec_rounding(p));
    let temp1_4 = temp1_3 >> p.bit;
    let temp2_1 = mul_w(v_2, spec_cospi(p.bit, 56));
    let x_4 = mul_w(v_5, spec_cospi(p.bit, 8));
    let temp2_2 = sub_w(temp2_1, x_4);
    let temp2_3 = add_w(temp2_2, spec_rounding(p));
    let temp2_4 = temp2_3 >> p.bit;
    let temp1_5 = mul_w(v_2, spec_cospi(p.bit, 16));
    let x_5 = mul_w(v_5, spec_cospi(p.bit, 48));
    let temp1_6 = add_w(temp1_5, x_5);
    let temp1_7 = add_w(temp1_6, spec_rounding(p));
    let temp1_8 = temp1_7 >> p.bit;
    let temp2_5 = mul_w(v_2, spec_cospi(p.bit, 48));
    let x_6 = mul_w(v_5, spec_cospi(p.bit, 16));
    let temp2_6 = sub_w(temp2_5, x_6);
    let temp2_7 = add_w(temp2_6, spec_rounding(p));
    let temp2_8 = temp2_7 >> p.bit;
    let temp1_9 = mul_w(temp1_4, spec_cospi(p.bit, 16));
    let x_7 = mul_w(temp2_4, spec_cospi(p.bit, 48));
    let temp1_10 = add_w(temp1_9, x_7);
    let temp1_11 = add_w(temp1_10, spec_rounding(p));
    let temp1_12 = temp1_11 >> p.bit;
    let temp2_9 = mul_w(temp1_4, spec_cospi(p.bit, 48));
    let x_8 = mul_w(temp2_4, spec_cospi(p.bit, 16));
    let temp2_10 = sub_w(temp2_9, x_8);
    let temp2_11 = add_w(temp2_10, spec_rounding(p));
    let temp2_12 = temp2_11 >> p.bit;
    let y_1 = mul_w(v_2, spec_cospi(p.bit, 32));
    let x_9 = mul_w(v_5, spec_cospi(p.bit, 32));
    let v_6 = add_w(y_1, x_9);
    let v_7 = add_w(v_6, spec_rounding(p));
    let v_8 = v_7 >> p.bit;
    let v_9 = sub_w(y_1, x_9);
    let v_10 = add_w(v_9, spec_rounding(p));
    let v_11 = v_10 >> p.bit;
    let y_2 = mul_w(temp1_8, spec_cospi(p.bit, 32));
    let x_10 = mul_w(temp2_8, spec_cospi(p.bit, 32));
    let v_12 = add_w(y_2, x_10);
    let v_13 = add_w(v_12, spec_rounding(p));
    let v_14 = v_13 >> p.bit;
    let v_15 = sub_w(y_2, x_10);
    let v_16 = add_w(v_15, spec_rounding(p));
    let v_17 = v_16 >> p.bit;
    let y_3 = mul_w(temp1_4, spec_cospi(p.bit, 32));
    let x_11 = mul_w(temp2_4, spec_cospi(p.bit, 32));
    let v_18 = add_w(y_3, x_11);
    let v_19 = add_w(v_18, spec_rounding(p));
    let v_20 = v_19 >> p.bit;
    let v_21 = sub_w(y_3, x_11);
    let v_22 = add_w(v_21, spec_rounding(p));
    let v_23 = v_22 >> p.bit;
    let y_4 = mul_w(temp1_12, spec_cospi(p.bit, 32));
    let x_12 = mul_w(temp2_12, spec_cospi(p.bit, 32));
    let v_24 = add_w(y_4, x_12);
    let v_25 = add_w(v_24, spec_rounding(p));
    let v_26 = v_25 >> p.bit;
    let v_27 = sub_w(y_4, x_12);
    let v_28 = add_w(v_27, spec_rounding(p));
    let v_29 = v_28 >> p.bit;
    let output_1 = clamp_w(add_w(v_2, spec_out_offset(p)) >> p.out_shift, p.bd, 6);
    let output_2 = clamp_w(sub_w(spec_out_offset(p), temp1_4) >> p.out_shift, p.bd, 6);
    let output_3 = clamp_w(add_w(temp1_12, spec_out_offset(p)) >> p.out_shift, p.bd, 6);
    let output_4 = clamp_w(sub_w(spec_out_offset(p), temp1_8) >> p.out_shift, p.bd, 6);
    let output_5 = clamp_w(add_w(v_14, spec_out_offset(p)) >> p.out_shift, p.bd, 6);
    let output_6 = clamp_w(sub_w(spec_out_offset(p), v_26) >> p.out_shift, p.bd, 6);
    let output_7 = clamp_w(add_w(v_20, spec_out_offset(p)) >> p.out_shift, p.bd, 6);
    let output_8 = clamp_w(sub_w(spec_out_offset(p), v_8) >> p.out_shift, p.bd, 6);
    let output_9 = clamp_w(add_w(v_11, spec_out_offset(p)) >> p.out_shift, p.bd, 6);
    let output_10 = clamp_w(sub_w(spec_out_offset(p), v_23) >> p.out_shift, p.bd, 6);
    let output_11 = clamp_w(add_w(v_29, spec_out_offset(p)) >> p.out_shift, p.bd, 6);
    let output_12 = clamp_w(sub_w(spec_out_offset(p), v_17) >> p.out_shift, p.bd, 6);
    let output_13 = clamp_w(add_w(temp2_8, spec_out_offset(p)) >> p.out_shift, p.bd, 6);
    let output_14 = clamp_w(sub_w(spec_out_offset(p), temp2_12) >> p.out_shift, p.bd, 6);
    let output_15 = clamp_w(add_w(temp2_4, spec_out_offset(p)) >> p.out_shift, p.bd, 6);
    let output_16 = clamp_w(sub_w(spec_out_offset(p), v_5) >> p.out_shift, p.bd, 6);
    seq![output_1, output_2, output_3, output_4, output_5, output_6, output_7, output_8, output_9, output_10, output_11, output_12, output_13, output_14, output_15, output_16]
}

/// The 16-point inverse ADST of a lane whose coefficients past the first are zero: the column pass when `do_cols` holds, the row pass otherwise.
pub open spec fn spec_iadst16_low1(i: Seq<i32>, do_cols: bool, p: ButterflyParams) -> Seq<i32> {
    if do_cols {
        spec_iadst16_low1_col(i, p)
    } else {
        spec_iadst16_low1_row(i, p)
    }
}

/// The column pass of the 16-point inverse ADST of a lane whose coefficients past the first 8 are zero, stage by stage:
/// rotations by the cosine weights, butterflies clamped to the range of
/// `max(16, bd + 6)` bits.
pub open spec fn spec_iadst16_low8_col(i: Seq<i32>, p: ButterflyParams) -> Seq<i32> {
    let x_1 = mul_w(i[0], spec_cospi(p.bit, 62));
    let u_1 = add_w(x_1, spec_rounding(p));
    let u_2 = u_1 >> p.bit;
    let x_2 = mul_w(i[0], spec_cospi(p.bit, 2));
    let u_3 = sub_w(0i32, x_2);
    let u_4 = add_w(u_3, spec_rounding(p));
    let u_5 = u_4 >> p.bit;
    let x_3 = mul_w(i[2], spec_cospi(p.bit, 54));
    let u_6 = add_w(x_3, spec_rounding(p));
    let u_7 = u_6 >> p.bit;
    let x_4 = mul_w(i[2], spec_cospi(p.bit, 10));
    let u_8 = sub_w(0i32, x_4);
    let u_9 = add_w(u_8, spec_rounding(p));
    let u_10 = u_9 >> p.bit;
    let x_5 = mul_w(i[4], spec_cospi(p.bit, 46));
    let u_11 = add_w(x_5, spec_rounding(p));
    let u_12 = u_11 >> p.bit;
    let x_6 = mul_w(i[4], spec_cospi(p.bit, 18));
    let u_13 = sub_w(0i32, x_6);
    let u_14 = add_w(u_13, spec_rounding(p));
    let u_15 = u_14 >> p.bit;
    let x_7 = mul_w(i[6], spec_cospi(p.bit, 38));
    let u_16 = add_w(x_7, spec_rounding(p));
    let u_17 = u_16 >> p.bit;
    let x_8 = mul_w(i[6], spec_cospi(p.bit, 26));
    let u_18 = sub_w(0i32, x_8);
    let u_19 = add_w(u_18, spec_rounding(p));
    let u_20 = u_19 >> p.bit;
    let u_21 = mul_w(i[7], spec_cospi(p.bit, 34));
    let u_22 = add_w(u_21, spec_rounding(p));
    let u_23 = u_22 >> p.bit;
    let u_24 = mul_w(i[7], spec_cospi(p.bit, 30));
    let u_25 = add_w(u_24, spec_rounding(p));
    let u_26 = u_25 >> p.bit;
    let u_27 = mul_w(i[5], spec_cospi(p.bit, 42));
    let u_28 = add_w(u_27, spec_rounding(p));
    let u_29 = u_28 >> p.bit;
    let u_30 = mul_w(i[5], spec_cospi(p.bit, 22));
    let u_31 = add_w(u_30, spec_rounding(p));
    let u_32 = u_31 >> p.bit;
    let u_33 = mul_w(i[3], spec_cospi(p.bit, 50));
    let u_34 = add_w(u_33, spec_rounding(p));
    let u_35 = u_34 >> p.bit;
    let u_36 = mul_w(i[3], spec_cospi(p.bit, 14));
    let u_37 = add_w(u_36, spec_rounding(p));
    let u_38 = u_37 >> p.bit;
    let u_39 = mul_w(i[1], spec_cospi(p.bit, 58));
    let u_40 = add_w(u_39, spec_rounding(p));
    let u_41 = u_40 >> p.bit;
    let u_42 = mul_w(i[1], spec_cospi(p.bit, 6));
    let u_43 = add_w(u_42, spec_rounding(p));
    let u_44 = u_43 >> p.bit;
    let u_45 = clamp_w(add_w(u_2, u_23), p.bd, 6);
    let u_46 = clamp_w(sub_w(u_2, u_23), p.bd, 6);
    let u_47 = clamp_w(add_w(u_5, u_26), p.bd, 6);
    let u_48 = clamp_w(sub_w(u_5, u_26), p.bd, 6);
    let u_49 = clamp_w(add_w(u_7, u_29), p.bd, 6);
    let u_50 = clamp_w(sub_w(u_7, u_29), p.bd, 6);
    let u_51 = clamp_w(add_w(u_10, u_32), p.bd, 6);
    let u_52 = clamp_w(sub_w(u_10, u_32), p.bd, 6);
    let u_53 = clamp_w(add_w(u_12, u_35), p.bd, 6);
    let u_54 = clamp_w(sub_w(u_12, u_35), p.bd, 6);
    let u_55 = clamp_w(add_w(u_15, u_38), p.bd, 6);
    let u_56 = clamp_w(sub_w(u_15, u_38), p.bd, 6);
    let u_57 = clamp_w(add_w(u_17, u_41), p.bd, 6);
    let u_58 = clamp_w(sub_w(u_17, u_41), p.bd, 6);
    let u_59 = clamp_w(add_w(u_20, u_44), p.bd, 6);
    let u_60 = clamp_w(sub_w(u_20, u_44), p.bd, 6);
    let y_1 = mul_w(u_46, spec_cospi(p.bit, 56));
    let x_9 = mul_w(u_48, spec_cospi(p.bit, 56));
    let u_61 = mul_w(u_46, spec_cospi(p.bit, 8));
    let u_62 = add_w(u_61, x_9);
    let u_63 = add_w(u_62, spec_rounding(p));
    let u_64 = u_63 >> p.bit;
    let x_10 = mul_w(u_48, spec_cospi(p.bit, 8));
    let u_65 = sub_w(y_1, x_10);
    let u_66 = add_w(u_65, spec_rounding(p));
    let u_67 = u_66 >> p.bit;
    let x_11 = mul_w(u_52, spec_cospi(p.bit, 24));
    let y_2 = mul_w(u_50, spec_cospi(p.bit, 24));
    let u_68 = mul_w(u_50, spec_cospi(p.bit, 40));
    let u_69 = add_w(u_68, x_11);
    let u_70 = add_w(u_69, spec_rounding(p));
    let u_71 = u_70 >> p.bit;
    let x_12 = mul_w(u_52, spec_cospi(p.bit, 40));
    let u_72 = sub_w(y_2, x_12);
    let u_73 = add_w(u_72, spec_rounding(p));
    let u_74 = u_73 >> p.bit;
    let x_13 = mul_w(u_56, spec_cospi(p.bit, 8));
    let y_3 = mul_w(u_54, spec_cospi(p.bit, 8));
    let u_75 = mul_w(u_54, sub_w(0, spec_cospi(p.bit, 56)));
    let u_76 = add_w(u_75, x_13);
    let u_77 = add_w(u_76, spec_rounding(p));
    let u_78 = u_77 >> p.bit;
    let x_14 = mul_w(u_56, sub_w(0, spec_cospi(p.bit, 56)));
    let u_79 = sub_w(y_3, x_14);
    let u_80 = add_w(u_79, spec_rounding(p));
    let u_81 = u_80 >> p.bit;
    let x_15 = mul_w(u_60, spec_cospi(p.bit, 40));
    let y_4 = mul_w(u_58, spec_cospi(p.bit, 40));
    let u_82 = mul_w(u_58, sub_w(0, spec_cospi(p.bit, 24)));
    let u_83 = add_w(u_82, x_15);
    let u_84 = add_w(u_83, spec_rounding(p));
    let u_85 = u_84 >> p.bit;
    let x_16 = mul_w(u_60, sub_w(0, spec_cospi(p.bit, 24)));
    let u_86 = sub_w(y_4, x_16);
    let u_87 = add_w(u_86, spec_rounding(p));
    let u_88 = u_87 >> p.bit;
    let u_89 = clamp_w(add_w(u_45, u_53), p.bd, 6);
    let u_90 = clamp_w(sub_w(u_45, u_53), p.bd, 6);
    let u_91 = clamp_w(add_w(u_47, u_55), p.bd, 6);
    let u_92 = clamp_w(sub_w(u_47, u_55), p.bd, 6);
    let u_93 = clamp_w(add_w(u_49, u_57), p.bd, 6);
    let u_94 = clamp_w(sub_w(u_49, u_57), p.bd, 6);
    let u_95 = clamp_w(add_w(u_51, u_59), p.bd, 6);
    let u_96 = clamp_w(sub_w(u_51, u_59), p.bd, 6);
    let u_97 = clamp_w(add_w(u_64, u_78), p.bd, 6);
    let u_98 = clamp_w(sub_w(u_64, u_78), p.bd, 6);
    let u_99 = clamp_w(add_w(u_67, u_81), p.bd, 6);
    let u_100 = clamp_w(sub_w(u_67, u_81), p.bd, 6);
    let u_101 = clamp_w(add_w(u_71, u_85), p.bd, 6);
    let u_102 = clamp_w(sub_w(u_71, u_85), p.bd, 6);
    let u_103 = clamp_w(add_w(u_74, u_88), p.bd, 6);
    let u_104 = clamp_w(sub_w(u_74, u_88), p.bd, 6);
    let x_17 = mul_w(u_92, spec_cospi(p.bit, 48));
    let y_5 = mul_w(u_90, spec_cospi(p.bit, 48));
    let u_105 = mul_w(u_90, spec_cospi(p.bit, 16));
    let u_106 = add_w(u_105, x_17);
    let u_107 = add_w(u_106, spec_rounding(p));
    let u_108 = u_107 >> p.bit;
    let x_18 = mul_w(u_92, spec_cospi(p.bit, 16));
    let u_109 = sub_w(y_5, x_18);
    let u_110 = add_w(u_109, spec_rounding(p));
    let u_111 = u_110 >> p.bit;
    let x_19 = mul_w(u_96, spec_cospi(p.bit, 16));
    let y_6 = mul_w(u_94, spec_cospi(p.bit, 16));
    let u_112 = mul_w(u_94, sub_w(0, spec_cospi(p.bit, 48)));
    let u_113 = add_w(u_112, x_19);
    let u_114 = add_w(u_113, spec_rounding(p));
    let u_115 = u_114 >> p.bit;
    let x_20 = mul_w(u_96, sub_w(0, spec_cospi(p.bit, 48)));
    let u_116 = sub_w(y_6, x_20);
    let u_117 = add_w(u_116, spec_rounding(p));
    let u_118 = u_117 >> p.bit;
    let x_21 = mul_w(u_100, spec_cospi(p.bit, 48));
    let y_7 = mul_w(u_98, spec_cospi(p.bit, 48));
    let u_119 = mul_w(u_98, spec_cospi(p.bit, 16));
    let u_120 = add_w(u_119, x_21);
    let u_121 = add_w(u_120, spec_rounding(p));
    let u_122 = u_121 >> p.bit;
    let x_22 = mul_w(u_100, spec_cospi(p.bit, 16));
    let u_123 = sub_w(y_7, x_22);
    let u_124 = add_w(u_123, spec_rounding(p));
    let u_125 = u_124 >> p.bit;
    let x_23 = mul_w(u_104, spec_cospi(p.bit, 16));
    let y_8 = mul_w(u_102, spec_cospi(p.bit, 16));
    let u_126 = mul_w(u_102, sub_w(0, spec_cospi(p.bit, 48)));
    let u_127 = add_w(u_126, x_23);
    let u_128 = add_w(u_127, spec_rounding(p));
    let u_129 = u_128 >> p.bit;
    let x_24 = mul_w(u_104, sub_w(0, spec_cospi(p.bit, 48)));
    let u_130 = sub_w(y_8, x_24);
    let u_131 = add_w(u_130, spec_rounding(p));
    let u_132 = u_131 >> p.bit;
    let u_133 = clamp_w(add_w(u_89, u_93), p.bd, 6);
    let u_134 = clamp_w(sub_w(u_89, u_93), p.bd, 6);
    let u_135 = clamp_w(add_w(u_91, u_95), p.bd, 6);
    let u_136 = clamp_w(sub_w(u_91, u_95), p.bd, 6);
    let u_137 = clamp_w(add_w(u_108, u_115), p.bd, 6);
    let u_138 = clamp_w(sub_w(u_108, u_115), p.bd, 6);
    let u_139 = clamp_w(add_w(u_111, u_118), p.bd, 6);
    let u_140 = clamp_w(sub_w(u_111, u_118), p.bd, 6);
    let u_141 = clamp_w(add_w(u_97, u_101), p.bd, 6);
    let u_142 = clamp_w(sub_w(u_97, u_101), p.bd, 6);
    let u_143 = clamp_w(add_w(u_99, u_103), p.bd, 6);
    let u_144 = clamp_w(sub_w(u_99, u_103), p.bd, 6);
    let u_145 = clamp_w(add_w(u_122, u_129), p.bd, 6);
    let u_146 = clamp_w(sub_w(u_122, u_129), p.bd, 6);
    let u_147 = clamp_w(add_w(u_125, u_132), p.bd, 6);
    let u_148 = clamp_w(sub_w(u_125, u_132), p.bd, 6);
    let y_9 = mul_w(u_134, spec_cospi(p.bit, 32));
    let x_25 = mul_w(u_136, spec_cospi(p.bit, 32));
    let u_149 = add_w(y_9, x_25);
    let u_150 = add_w(u_149, spec_rounding(p));
    let u_151 = u_150 >> p.bit;
    let u_152 = sub_w(y_9, x_25);
    let u_153 = add_w(u_152, spec_rounding(p));
    let u_154 = u_153 >> p.bit;
    let y_10 = mul_w(u_138, spec_cospi(p.bit, 32));
    let x_26 = mul_w(u_140, spec_cospi(p.bit, 32));
    let u_155 = add_w(y_10, x_26);
    let u_156 = add_w(u_155, spec_rounding(p));
    let u_157 = u_156 >> p.bit;
    let u_158 = sub_w(y_10, x_26);
    let u_159 = add_w(u_158, spec_rounding(p));
    let u_160 = u_159 >> p.bit;
    let y_11 = mul_w(u_142, spec_cospi(p.bit, 32));
    let x_27 = mul_w(u_144, spec_cospi(p.bit, 32));
    let u_161 = add_w(y_11, x_27);
    let u_162 = add_w(u_161, spec_rounding(p));
    let u_163 = u_162 >> p.bit;
    let u_164 = sub_w(y_11, x_27);
    let u_165 = add_w(u_164, spec_rounding(p));
    let u_166 = u_165 >> p.bit;
    let y_12 = mul_w(u_146, spec_cospi(p.bit, 32));
    let x_28 = mul_w(u_148, spec_cospi(p.bit, 32));
    let u_167 = add_w(y_12, x_28);
    let u_168 = add_w(u_167, spec_rounding(p));
    let u_169 = u_168 >> p.bit;
    let u_170 = sub_w(y_12, x_28);
    let u_171 = add_w(u_170, spec_rounding(p));
    let u_172 = u_171 >> p.bit;
    let output_1 = sub_w(0i32, u_141);
    let output_2 = sub_w(0i32, u_137);
    let output_3 = sub_w(0i32, u_169);
    let output_4 = sub_w(0i32, u_151);
    let output_5 = sub_w(0i32, u_166);
    let output_6 = sub_w(0i32, u_160);
    let output_7 = sub_w(0i32, u_147);
    let output_8 = sub_w(0i32, u_135);
    seq![u_133, output_1, u_145, output_2, u_157, output_3, u_163, output_4, u_154, output_5, u_172, output_6, u_139, output_7, u_143, output_8]
}

/// The row pass of the 16-point inverse ADST of a lane whose coefficients past the first 8 are zero, stage by stage:
/// rotations by the cosine weights, butterflies clamped to the range of
/// `max(16, bd + 8)` bits, then the outputs rounded down by the output shift and clamped to
/// the range of `max(16, bd + 6)` bits.
pub open spec fn spec_iadst16_low8_row(i: Seq<i32>, p: ButterflyParams) -> Seq<i32> {
    let x_1 = mul_w(i[0], spec_cospi(p.bit, 62));
    let u_1 = add_w(x_1, spec_rounding(p));
    let u_2 = u_1 >> p.bit;
    let x_2 = mul_w(i[0], spec_cospi(p.bit, 2));
    let u_3 = sub_w(0i32, x_2);
    let u_4 = add_w(u_3, spec_rounding(p));
    let u_5 = u_4 >> p.bit;
    let x_3 = mul_w(i[2], spec_cospi(p.bit, 54));
    let u_6 = add_w(x_3, spec_rounding(p));
    let u_7 = u_6 >> p.bit;
    let x_4 = mul_w(i[2], spec_cospi(p.bit, 10));
    let u_8 = sub_w(0i32, x_4);
    let u_9 = add_w(u_8, spec_rounding(p));
    let u_10 = u_9 >> p.bit;
    let x_5 = mul_w(i[4], spec_cospi(p.bit, 46));
    let u_11 = add_w(x_5, spec_rounding(p));
    let u_12 = u_11 >> p.bit;
    let x_6 = mul_w(i[4], spec_cospi(p.bit, 18));
    let u_13 = sub_w(0i32, x_6);
    let u_14 = add_w(u_13, spec_rounding(p));
    let u_15 = u_14 >> p.bit;
    let x_7 = mul_w(i[6], spec_cospi(p.bit, 38));
    let u_16 = add_w(x_7, spec_rounding(p));
    let u_17 = u_16 >> p.bit;
    let x_8 = mul_w(i[6], spec_cospi(p.bit, 26));
    let u_18 = sub_w(0i32, x_8);
    let u_19 = add_w(u_18, spec_rounding(p));
    let u_20 = u_19 >> p.bit;
    let u_21 = mul_w(i[7], spec_cospi(p.bit, 34));
    let u_22 = add_w(u_21, spec_rounding(p));
    let u_23 = u_22 >> p.bit;
    let u_24 = mul_w(i[7], spec_cospi(p.bit, 30));
    let u_25 = add_w(u_24, spec_rounding(p));
    let u_26 = u_25 >> p.bit;
    let u_27 = mul_w(i[5], spec_cospi(p.bit, 42));
    let u_28 = add_w(u_27, spec_rounding(p));
    let u_29 = u_28 >> p.bit;
    let u_30 = mul_w(i[5], spec_cospi(p.bit, 22));
    let u_31 = add_w(u_30, spec_rounding(p));
    let u_32 = u_31 >> p.bit;
    let u_33 = mul_w(i[3], spec_cospi(p.bit, 50));
    let u_34 = add_w(u_33, spec_rounding(p));
    let u_35 = u_34 >> p.bit;
    let u_36 = mul_w(i[3], spec_cospi(p.bit, 14));
    let u_37 = add_w(u_36, spec_rounding(p));
    let u_38 = u_37 >> p.bit;
    let u_39 = mul_w(i[1], spec_cospi(p.bit, 58));
    let u_40 = add_w(u_39, spec_rounding(p));
    let u_41 = u_40 >> p.bit;
    let u_42 = mul_w(i[1], spec_cospi(p.bit, 6));
    let u_43 = add_w(u_42, spec_rounding(p));
    let u_44 = u_43 >> p.bit;
    let u_45 = clamp_w(add_w(u_2, u_23), p.bd, 8);
    let u_46 = clamp_w(sub_w(u_2, u_23), p.bd, 8);
    let u_47 = clamp_w(add_w(u_5, u_26), p.bd, 8);
    let u_48 = clamp_w(sub_w(u_5, u_26), p.bd, 8);
    let u_49 = clamp_w(add_w(u_7, u_29), p.bd, 8);
    let u_50 = clamp_w(sub_w(u_7, u_29), p.bd, 8);
    let u_51 = clamp_w(add_w(u_10, u_32), p.bd, 8);
    let u_52 = clamp_w(sub_w(u_10, u_32), p.bd, 8);
    let u_53 = clamp_w(add_w(u_12, u_35), p.bd, 8);
    let u_54 = clamp_w(sub_w(u_12, u_35), p.bd, 8);
    let u_55 = clamp_w(add_w(u_15, u_38), p.bd, 8);
    let u_56 = clamp_w(sub_w(u_15, u_38), p.bd, 8);
    let u_57 = clamp_w(add_w(u_17, u_41), p.bd, 8);
    let u_58 = clamp_w(sub_w(u_17, u_41), p.bd, 8);
    let u_59 = clamp_w(add_w(u_20, u_44), p.bd, 8);
    let u_60 = clamp_w(sub_w(u_20, u_44), p.bd, 8);
    let y_1 = mul_w(u_46, spec_cospi(p.bit, 56));
    let x_9 = mul_w(u_48, spec_cospi(p.bit, 56));
    let u_61 = mul_w(u_46, spec_cospi(p.bit, 8));
    let u_62 = add_w(u_61, x_9);
    let u_63 = add_w(u_62, spec_rounding(p));
    let u_64 = u_63 >> p.bit;
    let x_10 = mul_w(u_48, spec_cospi(p.bit, 8));
    let u_65 = sub_w(y_1, x_10);
    let u_66 = add_w(u_65, spec_rounding(p));
    let u_67 = u_66 >> p.bit;
    let x_11 = mul_w(u_52, spec_cospi(p.bit, 24));
    let y_2 = mul_w(u_50, spec_cospi(p.bit, 24));
    let u_68 = mul_w(u_50, spec_cospi(p.bit, 40));
    let u_69 = add_w(u_68, x_11);
    let u_70 = add_w(u_69, spec_rounding(p));
    let u_71 = u_70 >> p.bit;
    let x_12 = mul_w(u_52, spec_cospi(p.bit, 40));
    let u_72 = sub_w(y_2, x_12);
    let u_73 = add_w(u_72, spec_rounding(p));
    let u_74 = u_73 >> p.bit;
    let x_13 = mul_w(u_56, spec_cospi(p.bit, 8));
    let y_3 = mul_w(u_54, spec_cospi(p.bit, 8));
    let u_75 = mul_w(u_54, sub_w(0, spec_cospi(p.bit, 56)));
    let u_76 = add_w(u_75, x_13);
    let u_77 = add_w(u_76, spec_rounding(p));
    let u_78 = u_77 >> p.bit;
    let x_14 = mul_w(u_56, sub_w(0, spec_cospi(p.bit, 56)));
    let u_79 = sub_w(y_3, x_14);
    let u_80 = add_w(u_79, spec_rounding(p));
    let u_81 = u_80 >> p.bit;
    let x_15 = mul_w(u_60, spec_cospi(p.bit, 40));
    let y_4 = mul_w(u_58, spec_cospi(p.bit, 40));
    let u_82 = mul_w(u_58, sub_w(0, spec_cospi(p.bit, 24)));
    let u_83 = add_w(u_82, x_15);
    let u_84 = add_w(u_83, spec_rounding(p));
    let u_85 = u_84 >> p.bit;
    let x_16 = mul_w(u_60, sub_w(0, spec_cospi(p.bit, 24)));
    let u_86 = sub_w(y_4, x_16);
    let u_87 = add_w(u_86, spec_rounding(p));
    let u_88 = u_87 >> p.bit;
    let u_89 = clamp_w(add_w(u_45, u_53), p.bd, 8);
    let u_90 = clamp_w(sub_w(u_45, u_53), p.bd, 8);
    let u_91 = clamp_w(add_w(u_47, u_55), p.bd, 8);
    let u_92 = clamp_w(sub_w(u_47, u_55), p.bd, 8);
    let u_93 = clamp_w(add_w(u_49, u_57), p.bd, 8);
    let u_94 = clamp_w(sub_w(u_49, u_57), p.bd, 8);
    let u_95 = clamp_w(add_w(u_51, u_59), p.bd, 8);
    let u_96 = clamp_w(sub_w(u_51, u_59), p.bd, 8);
    let u_97 = clamp_w(add_w(u_64, u_78), p.bd, 8);
    let u_98 = clamp_w(sub_w(u_64, u_78), p.bd, 8);
    let u_99 = clamp_w(add_w(u_67, u_81), p.bd, 8);
    let u_100 = clamp_w(sub_w(u_67, u_81), p.bd, 8);
    let u_101 = clamp_w(add_w(u_71, u_85), p.bd, 8);
    let u_102 = clamp_w(sub_w(u_71, u_85), p.bd, 8);
    let u_103 = clamp_w(add_w(u_74, u_88), p.bd, 8);
    let u_104 = clamp_w(sub_w(u_74, u_88), p.bd, 8);
    let x_17 = mul_w(u_92, spec_cospi(p.bit, 48));
    let y_5 = mul_w(u_90, spec_cospi(p.bit, 48));
    let u_105 = mul_w(u_90, spec_cospi(p.bit, 16));
    let u_106 = add_w(u_105, x_17);
    let u_107 = add_w(u_106, spec_rounding(p));
    let u_108 = u_107 >> p.bit;
    let x_18 = mul_w(u_92, spec_cospi(p.bit, 16));
    let u_109 = sub_w(y_5, x_18);
    let u_110 = add_w(u_109, spec_rounding(p));
    let u_111 = u_110 >> p.bit;
    let x_19 = mul_w(u_96, spec_cospi(p.bit, 16));
    let y_6 = mul_w(u_94, spec_cospi(p.bit, 16));
    let u_112 = mul_w(u_94, sub_w(0, spec_cospi(p.bit, 48)));
    let u_113 = add_w(u_112, x_19);
    let u_114 = add_w(u_113, spec_rounding(p));
    let u_115 = u_114 >> p.bit;
    let x_20 = mul_w(u_96, sub_w(0, spec_cospi(p.bit, 48)));
    let u_116 = sub_w(y_6, x_20);
    let u_117 = add_w(u_116, spec_rounding(p));
    let u_118 = u_117 >> p.bit;
    let x_21 = mul_w(u_100, spec_cospi(p.bit, 48));
    let y_7 = mul_w(u_98, spec_cospi(p.bit, 48));
    let u_119 = mul_w(u_98, spec_cospi(p.bit, 16));
    let u_120 = add_w(u_119, x_21);
    let u_121 = add_w(u_120, spec_rounding(p));
    let u_122 = u_121 >> p.bit;
    let x_22 = mul_w(u_100, spec_cospi(p.bit, 16));
    let u_123 = sub_w(y_7, x_22);
    let u_124 = add_w(u_123, spec_rounding(p));
    let u_125 = u_124 >> p.bit;
    let x_23 = mul_w(u_104, spec_cospi(p.bit, 16));
    let y_8 = mul_w(u_102, spec_cospi(p.bit, 16));
    let u_126 = mul_w(u_102, sub_w(0, spec_cospi(p.bit, 48)));
    let u_127 = add_w(u_126, x_23);
    let u_128 = add_w(u_127, spec_rounding(p));
    let u_129 = u_128 >> p.bit;
    let x_24 = mul_w(u_104, sub_w(0, spec_cospi(p.bit, 48)));
    let u_130 = sub_w(y_8, x_24);
    let u_131 = add_w(u_130, spec_rounding(p));
    let u_132 = u_131 >> p.bit;
    let u_133 = clamp_w(add_w(u_89, u_93), p.bd, 8);
    let u_134 = clamp_w(sub_w(u_89, u_93), p.bd, 8);
    let u_135 = clamp_w(add_w(u_91, u_95), p.bd, 8);
    let u_136 = clamp_w(sub_w(u_91, u_95), p.bd, 8);
    let u_137 = clamp_w(add_w(u_108, u_115), p.bd, 8);
    let u_138 = clamp_w(sub_w(u_108, u_115), p.bd, 8);
    let u_139 = clamp_w(add_w(u_111, u_118), p.bd, 8);
    let u_140 = clamp_w(sub_w(u_111, u_118), p.bd, 8);
    let u_141 = clamp_w(add_w(u_97, u_101), p.bd, 8);
    let u_142 = clamp_w(sub_w(u_97, u_101), p.bd, 8);
    let u_143 = clamp_w(add_w(u_99, u_103), p.bd, 8);
    let u_144 = clamp_w(sub_w(u_99, u_103), p.bd, 8);
    let u_145 = clamp_w(add_w(u_122, u_129), p.bd, 8);
    let u_146 = clamp_w(sub_w(u_122, u_129), p.bd, 8);
    let u_147 = clamp_w(add_w(u_125, u_132), p.bd, 8);
    let u_148 = clamp_w(sub_w(u_125, u_132), p.bd, 8);
    let y_9 = mul_w(u_134, spec_cospi(p.bit, 32));
    let x_25 = mul_w(u_136, spec_cospi(p.bit, 32));
    let u_149 = add_w(y_9, x_25);
    let u_150 = add_w(u_149, spec_rounding(p));
    let u_151 = u_150 >> p.bit;
    let u_152 = sub_w(y_9, x_25);
    let u_153 = add_w(u_152, spec_rounding(p));
    let u_154 = u_153 >> p.bit;
    let y_10 = mul_w(u_138, spec_cospi(p.bit, 32));
    let x_26 = mul_w(u_140, spec_cospi(p.bit, 32));
    let u_155 = add_w(y_10, x_26);
    let u_156 = add_w(u_155, spec_rounding(p));
    let u_157 = u_156 >> p.bit;
    let u_158 = sub_w(y_10, x_26);
    let u_159 = add_w(u_158, spec_rounding(p));
    let u_160 = u_159 >> p.bit;
    let y_11 = mul_w(u_142, spec_cospi(p.bit, 32));
    let x_27 = mul_w(u_144, spec_cospi(p.bit, 32));
    let u_161 = add_w(y_11, x_27);
    let u_162 = add_w(u_161, spec_rounding(p));
    let u_163 = u_162 >> p.bit;
    let u_164 = sub_w(y_11, x_27);
    let u_165 = add_w(u_164, spec_rounding(p));
    let u_166 = u_165 >> p.bit;
    let y_12 = mul_w(u_146, spec_cospi(p.bit, 32));
    let x_28 = mul_w(u_148, spec_cospi(p.bit, 32));
    let u_167 = add_w(y_12, x_28);
    let u_168 = add_w(u_167, spec_rounding(p));
    let u_169 = u_168 >> p.bit;
    let u_170 = sub_w(y_12, x_28);
    let u_171 = add_w(u_170, spec_rounding(p));
    let u_172 = u_171 >> p.bit;
    let output_1 = clamp_w(add_w(u_133, spec_out_offset(p)) >> p.out_shift, p.bd, 6);
    let output_2 = clamp_w(sub_w(spec_out_offset(p), u_141) >> p.out_shift, p.bd, 6);
    let output_3 = clamp_w(add_w(u_145, spec_out_offset(p)) >> p.out_shift, p.bd, 6);
    let output_4 = clamp_w(sub_w(spec_out_offset(p), u_137) >> p.out_shift, p.bd, 6);
    let output_5 = clamp_w(add_w(u_157, spec_out_offset(p)) >> p.out_shift, p.bd, 6);
    let output_6 = clamp_w(sub_w(spec_out_offset(p), u_169) >> p.out_shift, p.bd, 6);
    let output_7 = clamp_w(add_w(u_163, spec_out_offset(p)) >> p.out_shift, p.bd, 6);
    let output_8 = clamp_w(sub_w(spec_out_offset(p), u_151) >> p.out_shift, p.bd, 6);
    let output_9 = clamp_w(add_w(u_154, spec_out_offset(p)) >> p.out_shift, p.bd, 6);
    let output_10 = clamp_w(sub_w(spec_out_offset(p), u_166) >> p.out_shift, p.bd, 6);
    let output_11 = clamp_w(add_w(u_172, spec_out_offset(p)) >> p.out_shift, p.bd, 6);
    let output_12 = clamp_w(sub_w(spec_out_offset(p), u_160) >> p.out_shift, p.bd, 6);
    let output_13 = clamp_w(add_w(u_139, spec_out_offset(p)) >> p.out_shift, p.bd, 6);
    let output_14 = clamp_w(sub_w(spec_out_offset(p), u_147) >> p.out_shift, p.bd, 6);
    let output_15 = clamp_w(add_w(u_143, spec_out_offset(p)) >> p.out_shift, p.bd, 6);
    let output_16 = clamp_w(sub_w(spec_out_offset(p), u_135) >> p.out_shift, p.bd, 6);
    seq![output_1, output_2, output_3, output_4, output_5, output_6, output_7, output_8, output_9, output_10, output_11, output_12, output_13, output_14, output_15, output_16]
}

/// The 16-point inverse ADST of a lane whose coefficients past the first 8 are zero: the column pass when `do_cols` holds, the row pass otherwise.
pub open spec fn spec_iadst16_low8(i: Seq<i32>, do_cols: bool, p: ButterflyParams) -> Seq<i32> {
    if do_cols {
        spec_iadst16_low8_col(i, p)
    } else {
        spec_iadst16_low8_row(i, p)
    }
}

/// The column pass of the 16-point inverse ADST, stage by stage:
/// rotations by the cosine weights, butterflies clamped to the range of
/// `max(16, bd + 6)` bits.
pub open spec fn spec_iadst16_col(i: Seq<i32>, p: ButterflyParams) -> Seq<i32> {
    let v_1 = mul_w(i[15], spec_cospi(p.bit, 2));
    let x_1 = mul_w(i[0], spec_cospi(p.bit, 62));
    let v_2 = add_w(v_1, x_1);
    let v_3 = add_w(v_2, spec_rounding(p));
    let v_4 = v_3 >> p.bit;
    let v_5 = mul_w(i[15], spec_cospi(p.bit, 62));
    let x_2 = mul_w(i[0], spec_cospi(p.bit, 2));
    let v_6 = sub_w(v_5, x_2);
    let v_7 = add_w(v_6, spec_rounding(p));
    let v_8 = v_7 >> p.bit;
    let v_9 = mul_w(i[13], spec_cospi(p.bit, 10));
    let x_3 = mul_w(i[2], spec_cospi(p.bit, 54));
    let v_10 = add_w(v_9, x_3);
    let v_11 = add_w(v_10, spec_rounding(p));
    let v_12 = v_11 >> p.bit;
    let v_13 = mul_w(i[13], spec_cospi(p.bit, 54));
    let x_4 = mul_w(i[2], spec_cospi(p.bit, 10));
    let v_14 = sub_w(v_13, x_4);
    let v_15 = add_w(v_14, spec_rounding(p));
    let v_16 = v_15 >> p.bit;
    let v_17 = mul_w(i[11], spec_cospi(p.bit, 18));
    let x_5 = mul_w(i[4], spec_cospi(p.bit, 46));
    let v_18 = add_w(v_17, x_5);
    let v_19 = add_w(v_18, spec_rounding(p));
    let v_20 = v_19 >> p.bit;
    let v_21 = mul_w(i[11], spec_cospi(p.bit, 46));
    let x_6 = mul_w(i[4], spec_cospi(p.bit, 18));
    let v_22 = sub_w(v_21, x_6);
    let v_23 = add_w(v_22, spec_rounding(p));
    let v_24 = v_23 >> p.bit;
    let v_25 = mul_w(i[9], spec_cospi(p.bit, 26));
    let x_7 = mul_w(i[6], spec_cospi(p.bit, 38));
    let v_26 = add_w(v_25, x_7);
    let v_27 = add_w(v_26, spec_rounding(p));
    let v_28 = v_27 >> p.bit;
    let v_29 = mul_w(i[9], spec_cospi(p.bit, 38));
    let x_8 = mul_w(i[6], spec_cospi(p.bit, 26));
    let v_30 = sub_w(v_29, x_8);
    let v_31 = add_w(v_30, spec_rounding(p));
    let v_32 = v_31 >> p.bit;
    let v_33 = mul_w(i[7], spec_cospi(p.bit, 34));
    let x_9 = mul_w(i[8], spec_cospi(p.bit, 30));
    let v_34 = add_w(v_33, x_9);
    let v_35 = add_w(v_34, spec_rounding(p));
    let v_36 = v_35 >> p.bit;
    let v_37 = mul_w(i[7], spec_cospi(p.bit, 30));
    let x_10 = mul_w(i[8], spec_cospi(p.bit, 34));
    let v_38 = sub_w(v_37, x_10);
    let v_39 = add_w(v_38, spec_rounding(p));
    let v_40 = v_39 >> p.bit;
    let v_41 = mul_w(i[5], spec_cospi(p.bit, 42));
    let x_11 = mul_w(i[10], spec_cospi(p.bit, 22));
    let v_42 = add_w(v_41, x_11);
    let v_43 = add_w(v_42, spec_rounding(p));
    let v_44 = v_43 >> p.bit;
    let v_45 = mul_w(i[5], spec_cospi(p.bit, 22));
    let x_12 = mul_w(i[10], spec_cospi(p.bit, 42));
    let v_46 = sub_w(v_45, x_12);
    let v_47 = add_w(v_46, spec_rounding(p));
    let v_48 = v_47 >> p.bit;
    let v_49 = mul_w(i[3], spec_cospi(p.bit, 50));
    let x_13 = mul_w(i[12], spec_cospi(p.bit, 14));
    let v_50 = add_w(v_49, x_13);
    let v_51 = add_w(v_50, spec_rounding(p));
    let v_52 = v_51 >> p.bit;
    let v_53 = mul_w(i[3], spec_cospi(p.bit, 14));
    let x_14 = mul_w(i[12], spec_cospi(p.bit, 50));
    let v_54 = sub_w(v_53, x_14);
    let v_55 = add_w(v_54, spec_rounding(p));
    let v_56 = v_55 >> p.bit;
    let v_57 = mul_w(i[1], spec_cospi(p.bit, 58));
    let x_15 = mul_w(i[14], spec_cospi(p.bit, 6));
    let v_58 = add_w(v_57, x_15);
    let v_59 = add_w(v_58, spec_rounding(p));
    let v_60 = v_59 >> p.bit;
    let v_61 = mul_w(i[1], spec_cospi(p.bit, 6));
    let x_16 = mul_w(i[14], spec_cospi(p.bit, 58));
    let v_62 = sub_w(v_61, x_16);
    let v_63 = add_w(v_62, spec_rounding(p));
    let v_64 = v_63 >> p.bit;
    let u_1 = clamp_w(add_w(v_4, v_36), p.bd, 6);
    let u_2 = clamp_w(sub_w(v_4, v_36), p.bd, 6);
    let u_3 = clamp_w(add_w(v_8, v_40), p.bd, 6);
    let u_4 = clamp_w(sub_w(v_8, v_40), p.bd, 6);
    let u_5 = clamp_w(add_w(v_12, v_44), p.bd, 6);
    let u_6 = clamp_w(sub_w(v_12, v_44), p.bd, 6);
    let u_7 = clamp_w(add_w(v_16, v_48), p.bd, 6);
    let u_8 = clamp_w(sub_w(v_16, v_48), p.bd, 6);
    let u_9 = clamp_w(add_w(v_20, v_52), p.bd, 6);
    let u_10 = clamp_w(sub_w(v_20, v_52), p.bd, 6);
    let u_11 = clamp_w(add_w(v_24, v_56), p.bd, 6);
    let u_12 = clamp_w(sub_w(v_24, v_56), p.bd, 6);
    let u_13 = clamp_w(add_w(v_28, v_60), p.bd, 6);
    let u_14 = clamp_w(sub_w(v_28, v_60), p.bd, 6);
    let u_15 = clamp_w(add_w(v_32, v_64), p.bd, 6);
    let u_16 = clamp_w(sub_w(v_32, v_64), p.bd, 6);
    let v_65 = mul_w(u_2, spec_cospi(p.bit, 8));
    let x_17 = mul_w(u_4, spec_cospi(p.bit, 56));
    let v_66 = add_w(v_65, x_17);
    let v_67 = add_w(v_66, spec_rounding(p));
    let v_68 = v_67 >> p.bit;
    let v_69 = mul_w(u_2, spec_cospi(p.bit, 56));
    let x_18 = mul_w(u_4, spec_cospi(p.bit, 8));
    let v_70 = sub_w(v_69, x_18);
    let v_71 = add_w(v_70, spec_rounding(p));
    let v_72 = v_71 >> p.bit;
    let v_73 = mul_w(u_6, spec_cospi(p.bit, 40));
    let x_19 = mul_w(u_8, spec_cospi(p.bit, 24));
    let v_74 = add_w(v_73, x_19);
    let v_75 = add_w(v_74, spec_rounding(p));
    let v_76 = v_75 >> p.bit;
    let v_77 = mul_w(u_6, spec_cospi(p.bit, 24));
    let x_20 = mul_w(u_8, spec_cospi(p.bit, 40));
    let v_78 = sub_w(v_77, x_20);
    let v_79 = add_w(v_78, spec_rounding(p));
    let v_80 = v_79 >> p.bit;
    let v_81 = mul_w(u_10, sub_w(0, spec_cospi(p.bit, 56)));
    let x_21 = mul_w(u_12, spec_cospi(p.bit, 8));
    let v_82 = add_w(v_81, x_21);
    let v_83 = add_w(v_82, spec_rounding(p));
    let v_84 = v_83 >> p.bit;
    let v_85 = mul_w(u_10, spec_cospi(p.bit, 8));
    let x_22 = mul_w(u_12, sub_w(0, spec_cospi(p.bit, 56)));
    let v_86 = sub_w(v_85, x_22);
    let v_87 = add_w(v_86, spec_rounding(p));
    let v_88 = v_87 >> p.bit;
    let v_89 = mul_w(u_14, sub_w(0, spec_cospi(p.bit, 24)));
    let x_23 = mul_w(u_16, spec_cospi(p.bit, 40));
    let v_90 = add_w(v_89, x_23);
    let v_91 = add_w(v_90, spec_rounding(p));
    let v_92 = v_91 >> p.bit;
    let v_93 = mul_w(u_14, spec_cospi(p.bit, 40));
    let x_24 = mul_w(u_16, sub_w(0, spec_cospi(p.bit, 24)));
    let v_94 = sub_w(v_93, x_24);
    let v_95 = add_w(v_94, spec_rounding(p));
    let v_96 = v_95 >> p.bit;
    let u_17 = clamp_w(add_w(u_1, u_9), p.bd, 6);
    let u_18 = clamp_w(sub_w(u_1, u_9), p.bd, 6);
    let u_19 = clamp_w(add_w(u_3, u_11), p.bd, 6);
    let u_20 = clamp_w(sub_w(u_3, u_11), p.bd, 6);
    let u_21 = clamp_w(add_w(u_5, u_13), p.bd, 6);
    let u_22 = clamp_w(sub_w(u_5, u_13), p.bd, 6);
    let u_23 = clamp_w(add_w(u_7, u_15), p.bd, 6);
    let u_24 = clamp_w(sub_w(u_7, u_15), p.bd, 6);
    let u_25 = clamp_w(add_w(v_68, v_84), p.bd, 6);
    let u_26 = clamp_w(sub_w(v_68, v_84), p.bd, 6);
    let u_27 = clamp_w(add_w(v_72, v_88), p.bd, 6);
    let u_28 = clamp_w(sub_w(v_72, v_88), p.bd, 6);
    let u_29 = clamp_w(add_w(v_76, v_92), p.bd, 6);
    let u_30 = clamp_w(sub_w(v_76, v_92), p.bd, 6);
    let u_31 = clamp_w(add_w(v_80, v_96), p.bd, 6);
    let u_32 = clamp_w(sub_w(v_80, v_96), p.bd, 6);
    let v_97 = mul_w(u_18, spec_cospi(p.bit, 16));
    let x_25 = mul_w(u_20, spec_cospi(p.bit, 48));
    let v_98 = add_w(v_97, x_25);
    let v_99 = add_w(v_98, spec_rounding(p));
    let v_100 = v_99 >> p.bit;
    let v_101 = mul_w(u_18, spec_cospi(p.bit, 48));
    let x_26 = mul_w(u_20, spec_cospi(p.bit, 16));
    let v_102 = sub_w(v_101, x_26);
    let v_103 = add_w(v_102, spec_rounding(p));
    let v_104 = v_103 >> p.bit;
    let v_105 = mul_w(u_22, sub_w(0, spec_cospi(p.bit, 48)));
    let x_27 = mul_w(u_24, spec_cospi(p.bit, 16));
    let v_106 = add_w(v_105, x_27);
    let v_107 = add_w(v_106, spec_rounding(p));
    let v_108 = v_107 >> p.bit;
    let v_109 = mul_w(u_22, spec_cospi(p.bit, 16));
    let x_28 = mul_w(u_24, sub_w(0, spec_cospi(p.bit, 48)));
    let v_110 = sub_w(v_109, x_28);
    let v_111 = add_w(v_110, spec_rounding(p));
    let v_112 = v_111 >> p.bit;
    let v_113 = mul_w(u_26, spec_cospi(p.bit, 16));
    let x_29 = mul_w(u_28, spec_cospi(p.bit, 48));
    let v_114 = add_w(v_113, x_29);
    let v_115 = add_w(v_114, spec_rounding(p));
    let v_116 = v_115 >> p.bit;
    let v_117 = mul_w(u_26, spec_cospi(p.bit, 48));
    let x_30 = mul_w(u_28, spec_cospi(p.bit, 16));
    let v_118 = sub_w(v_117, x_30);
    let v_119 = add_w(v_118, spec_rounding(p));
    let v_120 = v_119 >> p.bit;
    let v_121 = mul_w(u_30, sub_w(0, spec_cospi(p.bit, 48)));
    let x_31 = mul_w(u_32, spec_cospi(p.bit, 16));
    let v_122 = add_w(v_121, x_31);
    let v_123 = add_w(v_122, spec_rounding(p));
    let v_124 = v_123 >> p.bit;
    let v_125 = mul_w(u_30, spec_cospi(p.bit, 16));
    let x_32 = mul_w(u_32, sub_w(0, spec_cospi(p.bit, 48)));
    let v_126 = sub_w(v_125, x_32);
    let v_127 = add_w(v_126, spec_rounding(p));
    let v_128 = v_127 >> p.bit;
    let u_33 = clamp_w(add_w(u_17, u_21), p.bd, 6);
    let u_34 = clamp_w(sub_w(u_17, u_21), p.bd, 6);
    let u_35 = clamp_w(add_w(u_19, u_23), p.bd, 6);
    let u_36 = clamp_w(sub_w(u_19, u_23), p.bd, 6);
    let u_37 = clamp_w(add_w(v_100, v_108), p.bd, 6);
    let u_38 = clamp_w(sub_w(v_100, v_108), p.bd, 6);
    let u_39 = clamp_w(add_w(v_104, v_112), p.bd, 6);
    let u_40 = clamp_w(sub_w(v_104, v_112), p.bd, 6);
    let u_41 = clamp_w(add_w(u_25, u_29), p.bd, 6);
    let u_42 = clamp_w(sub_w(u_25, u_29), p.bd, 6);
    let u_43 = clamp_w(add_w(u_27, u_31), p.bd, 6);
    let u_44 = clamp_w(sub_w(u_27, u_31), p.bd, 6);
    let u_45 = clamp_w(add_w(v_116, v_124), p.bd, 6);
    let u_46 = clamp_w(sub_w(v_116, v_124), p.bd, 6);
    let u_47 = clamp_w(add_w(v_120, v_128), p.bd, 6);
    let u_48 = clamp_w(sub_w(v_120, v_128), p.bd, 6);
    let y_1 = mul_w(u_34, spec_cospi(p.bit, 32));
    let x_33 = mul_w(u_36, spec_cospi(p.bit, 32));
    let v_129 = add_w(y_1, x_33);
    let v_130 = add_w(v_129, spec_rounding(p));
    let v_131 = v_130 >> p.bit;
    let v_132 = sub_w(y_1, x_33);
    let v_133 = add_w(v_132, spec_rounding(p));
    let v_134 = v_133 >> p.bit;
    let y_2 = mul_w(u_38, spec_cospi(p.bit, 32));
    let x_34 = mul_w(u_40, spec_cospi(p.bit, 32));
    let v_135 = add_w(y_2, x_34);
    let v_136 = add_w(v_135, spec_rounding(p));
    let v_137 = v_136 >> p.bit;
    let v_138 = sub_w(y_2, x_34);
    let v_139 = add_w(v_138, spec_rounding(p));
    let v_140 = v_139 >> p.bit;
    let y_3 = mul_w(u_42, spec_cospi(p.bit, 32));
    let x_35 = mul_w(u_44, spec_cospi(p.bit, 32));
    let v_141 = add_w(y_3, x_35);
    let v_142 = add_w(v_141, spec_rounding(p));
    let v_143 = v_142 >> p.bit;
    let v_144 = sub_w(y_3, x_35);
    let v_145 = add_w(v_144, spec_rounding(p));
    let v_146 = v_145 >> p.bit;
    let y_4 = mul_w(u_46, spec_cospi(p.bit, 32));
    let x_36 = mul_w(u_48, spec_cospi(p.bit, 32));
    let v_147 = add_w(y_4, x_36);
    let v_148 = add_w(v_147, spec_rounding(p));
    let v_149 = v_148 >> p.bit;
    let v_150 = sub_w(y_4, x_36);
    let v_151 = add_w(v_150, spec_rounding(p));
    let v_152 = v_151 >> p.bit;
    let output_1 = sub_w(0i32, u_41);
    let output_2 = sub_w(0i32, u_37);
    let output_3 = sub_w(0i32, v_149);
    let output_4 = sub_w(0i32, v_131);
    let output_5 = sub_w(0i32, v_146);
    let output_6 = sub_w(0i32, v_140);
    let output_7 = sub_w(0i32, u_47);
    let output_8 = sub_w(0i32, u_35);
    seq![u_33, output_1, u_45, output_2, v_137, output_3, v_143, output_4, v_134, output_5, v_152, output_6, u_39, output_7, u_43, output_8]
}

/// The row pass of the 16-point inverse ADST, stage by stage:
/// rotations by the cosine weights, butterflies clamped to the range of
/// `max(16, bd + 8)` bits, then the outputs rounded down by the output shift and clamped to
/// the range of `max(16, bd + 6)` bits.
pub open spec fn spec_iadst16_row(i: Seq<i32>, p: ButterflyParams) -> Seq<i32> {
    let v_1 = mul_w(i[15], spec_cospi(p.bit, 2));
    let x_1 = mul_w(i[0], spec_cospi(p.bit, 62));
    let v_2 = add_w(v_1, x_1);
    let v_3 = add_w(v_2, spec_rounding(p));
    let v_4 = v_3 >> p.bit;
    let v_5 = mul_w(i[15], spec_cospi(p.bit, 62));
    let x_2 = mul_w(i[0], spec_cospi(p.bit, 2));
    let v_6 = sub_w(v_5, x_2);
    let v_7 = add_w(v_6, spec_rounding(p));
    let v_8 = v_7 >> p.bit;
    let v_9 = mul_w(i[13], spec_cospi(p.bit, 10));
    let x_3 = mul_w(i[2], spec_cospi(p.bit, 54));
    let v_10 = add_w(v_9, x_3);
    let v_11 = add_w(v_10, spec_rounding(p));
    let v_12 = v_11 >> p.bit;
    let v_13 = mul_w(i[13], spec_cospi(p.bit, 54));
    let x_4 = mul_w(i[2], spec_cospi(p.bit, 10));
    let v_14 = sub_w(v_13, x_4);
    let v_15 = add_w(v_14, spec_rounding(p));
    let v_16 = v_15 >> p.bit;
    let v_17 = mul_w(i[11], spec_cospi(p.bit, 18));
    let x_5 = mul_w(i[4], spec_cospi(p.bit, 46));
    let v_18 = add_w(v_17, x_5);
    let v_19 = add_w(v_18, spec_rounding(p));
    let v_20 = v_19 >> p.bit;
    let v_21 = mul_w(i[11], spec_cospi(p.bit, 46));
    let x_6 = mul_w(i[4], spec_cospi(p.bit, 18));
    let v_22 = sub_w(v_21, x_6);
    let v_23 = add_w(v_22, spec_rounding(p));
    let v_24 = v_23 >> p.bit;
    let v_25 = mul_w(i[9], spec_cospi(p.bit, 26));
    let x_7 = mul_w(i[6], spec_cospi(p.bit, 38));
    let v_26 = add_w(v_25, x_7);
    let v_27 = add_w(v_26, spec_rounding(p));
    let v_28 = v_27 >> p.bit;
    let v_29 = mul_w(i[9], spec_cospi(p.bit, 38));
    let x_8 = mul_w(i[6], spec_cospi(p.bit, 26));
    let v_30 = sub_w(v_29, x_8);
    let v_31 = add_w(v_30, spec_rounding(p));
    let v_32 = v_31 >> p.bit;
    let v_33 = mul_w(i[7], spec_cospi(p.bit, 34));
    let x_9 = mul_w(i[8], spec_cospi(p.bit, 30));
    let v_34 = add_w(v_33, x_9);
    let v_35 = add_w(v_34, spec_rounding(p));
    let v_36 = v_35 >> p.bit;
    let v_37 = mul_w(i[7], spec_cospi(p.bit, 30));
    let x_10 = mul_w(i[8], spec_cospi(p.bit, 34));
    let v_38 = sub_w(v_37, x_10);
    let v_39 = add_w(v_38, spec_rounding(p));
    let v_40 = v_39 >> p.bit;
    let v_41 = mul_w(i[5], spec_cospi(p.bit, 42));
    let x_11 = mul_w(i[10], spec_cospi(p.bit, 22));
    let v_42 = add_w(v_41, x_11);
    let v_43 = add_w(v_42, spec_rounding(p));
    let v_44 = v_43 >> p.bit;
    let v_45 = mul_w(i[5], spec_cospi(p.bit, 22));
    let x_12 = mul_w(i[10], spec_cospi(p.bit, 42));
    let v_46 = sub_w(v_45, x_12);
    let v_47 = add_w(v_46, spec_rounding(p));
    let v_48 = v_47 >> p.bit;
    let v_49 = mul_w(i[3], spec_cospi(p.bit, 50));
    let x_13 = mul_w(i[12], spec_cospi(p.bit, 14));
    let v_50 = add_w(v_49, x_13);
    let v_51 = add_w(v_50, spec_rounding(p));
    let v_52 = v_51 >> p.bit;
    let v_53 = mul_w(i[3], spec_cospi(p.bit, 14));
    let x_14 = mul_w(i[12], spec_cospi(p.bit, 50));
    let v_54 = sub_w(v_53, x_14);
    let v_55 = add_w(v_54, spec_rounding(p));
    let v_56 = v_55 >> p.bit;
    let v_57 = mul_w(i[1], spec_cospi(p.bit, 58));
    let x_15 = mul_w(i[14], spec_cospi(p.bit, 6));
    let v_58 = add_w(v_57, x_15);
    let v_59 = add_w(v_58, spec_rounding(p));
    let v_60 = v_59 >> p.bit;
    let v_61 = mul_w(i[1], spec_cospi(p.bit, 6));
    let x_16 = mul_w(i[14], spec_cospi(p.bit, 58));
    let v_62 = sub_w(v_61, x_16);
    let v_63 = add_w(v_62, spec_rounding(p));
    let v_64 = v_63 >> p.bit;
    let u_1 = clamp_w(add_w(v_4, v_36), p.bd, 8);
    let u_2 = clamp_w(sub_w(v_4, v_36), p.bd, 8);
    let u_3 = clamp_w(add_w(v_8, v_40), p.bd, 8);
    let u_4 = clamp_w(sub_w(v_8, v_40), p.bd, 8);
    let u_5 = clamp_w(add_w(v_12, v_44), p.bd, 8);
    let u_6 = clamp_w(sub_w(v_12, v_44), p.bd, 8);
    let u_7 = clamp_w(add_w(v_16, v_48), p.bd, 8);
    let u_8 = clamp_w(sub_w(v_16, v_48), p.bd, 8);
    let u_9 = clamp_w(add_w(v_20, v_52), p.bd, 8);
    let u_10 = clamp_w(sub_w(v_20, v_52), p.bd, 8);
    let u_11 = clamp_w(add_w(v_24, v_56), p.bd, 8);
    let u_12 = clamp_w(sub_w(v_24, v_56), p.bd, 8);
    let u_13 = clamp_w(add_w(v_28, v_60), p.bd, 8);
    let u_14 = clamp_w(sub_w(v_28, v_60), p.bd, 8);
    let u_15 = clamp_w(add_w(v_32, v_64), p.bd, 8);
    let u_16 = clamp_w(sub_w(v_32, v_64), p.bd, 8);
    let v_65 = mul_w(u_2, spec_cospi(p.bit, 8));
    let x_17 = mul_w(u_4, spec_cospi(p.bit, 56));
    let v_66 = add_w(v_65, x_17);
    let v_67 = add_w(v_66, spec_rounding(p));
    let v_68 = v_67 >> p.bit;
    let v_69 = mul_w(u_2, spec_cospi(p.bit, 56));
    let x_18 = mul_w(u_4, spec_cospi(p.bit, 8));
    let v_70 = sub_w(v_69, x_18);
    let v_71 = add_w(v_70, spec_rounding(p));
    let v_72 = v_71 >> p.bit;
    let v_73 = mul_w(u_6, spec_cospi(p.bit, 40));
    let x_19 = mul_w(u_8, spec_cospi(p.bit, 24));
    let v_74 = add_w(v_73, x_19);
    let v_75 = add_w(v_74, spec_rounding(p));
    let v_76 = v_75 >> p.bit;
    let v_77 = mul_w(u_6, spec_cospi(p.bit, 24));
    let x_20 = mul_w(u_8, spec_cospi(p.bit, 40));
    let v_78 = sub_w(v_77, x_20);
    let v_79 = add_w(v_78, spec_rounding(p));
    let v_80 = v_79 >> p.bit;
    let v_81 = mul_w(u_10, sub_w(0, spec_cospi(p.bit, 56)));
    let x_21 = mul_w(u_12, spec_cospi(p.bit, 8));
    let v_82 = add_w(v_81, x_21);
    let v_83 = add_w(v_82, spec_rounding(p));
    let v_84 = v_83 >> p.bit;
    let v_85 = mul_w(u_10, spec_cospi(p.bit, 8));
    let x_22 = mul_w(u_12, sub_w(0, spec_cospi(p.bit, 56)));
    let v_86 = sub_w(v_85, x_22);
    let v_87 = add_w(v_86, spec_rounding(p));
    let v_88 = v_87 >> p.bit;
    let v_89 = mul_w(u_14, sub_w(0, spec_cospi(p.bit, 24)));
    let x_23 = mul_w(u_16, spec_cospi(p.bit, 40));
    let v_90 = add_w(v_89, x_23);
    let v_91 = add_w(v_90, spec_rounding(p));
    let v_92 = v_91 >> p.bit;
    let v_93 = mul_w(u_14, spec_cospi(p.bit, 40));
    let x_24 = mul_w(u_16, sub_w(0, spec_cospi(p.bit, 24)));
    let v_94 = sub_w(v_93, x_24);
    let v_95 = add_w(v_94, spec_rounding(p));
    let v_96 = v_95 >> p.bit;
    let u_17 = clamp_w(add_w(u_1, u_9), p.bd, 8);
    let u_18 = clamp_w(sub_w(u_1, u_9), p.bd, 8);
    let u_19 = clamp_w(add_w(u_3, u_11), p.bd, 8);
    let u_20 = clamp_w(sub_w(u_3, u_11), p.bd, 8);
    let u_21 = clamp_w(add_w(u_5, u_13), p.bd, 8);
    let u_22 = clamp_w(sub_w(u_5, u_13), p.bd, 8);
    let u_23 = clamp_w(add_w(u_7, u_15), p.bd, 8);
    let u_24 = clamp_w(sub_w(u_7, u_15), p.bd, 8);
    let u_25 = clamp_w(add_w(v_68, v_84), p.bd, 8);
    let u_26 = clamp_w(sub_w(v_68, v_84), p.bd, 8);
    let u_27 = clamp_w(add_w(v_72, v_88), p.bd, 8);
    let u_28 = clamp_w(sub_w(v_72, v_88), p.bd, 8);
    let u_29 = clamp_w(add_w(v_76, v_92), p.bd, 8);
    let u_30 = clamp_w(sub_w(v_76, v_92), p.bd, 8);
    let u_31 = clamp_w(add_w(v_80, v_96), p.bd, 8);
    let u_32 = clamp_w(sub_w(v_80, v_96), p.bd, 8);
    let v_97 = mul_w(u_18, spec_cospi(p.bit, 16));
    let x_25 = mul_w(u_20, spec_cospi(p.bit, 48));
    let v_98 = add_w(v_97, x_25);
    let v_99 = add_w(v_98, spec_rounding(p));
    let v_100 = v_99 >> p.bit;
    let v_101 = mul_w(u_18, spec_cospi(p.bit, 48));
    let x_26 = mul_w(u_20, spec_cospi(p.bit, 16));
    let v_102 = sub_w(v_101, x_26);
    let v_103 = add_w(v_102, spec_rounding(p));
    let v_104 = v_103 >> p.bit;
    let v_105 = mul_w(u_22, sub_w(0, spec_cospi(p.bit, 48)));
    let x_27 = mul_w(u_24, spec_cospi(p.bit, 16));
    let v_106 = add_w(v_105, x_27);
    let v_107 = add_w(v_106, spec_rounding(p));
    let v_108 = v_107 >> p.bit;
    let v_109 = mul_w(u_22, spec_cospi(p.bit, 16));
    let x_28 = mul_w(u_24, sub_w(0, spec_cospi(p.bit, 48)));
    let v_110 = sub_w(v_109, x_28);
    let v_111 = add_w(v_110, spec_rounding(p));
    let v_112 = v_111 >> p.bit;
    let v_113 = mul_w(u_26, spec_cospi(p.bit, 16));
    let x_29 = mul_w(u_28, spec_cospi(p.bit, 48));
    let v_114 = add_w(v_113, x_29);
    let v_115 = add_w(v_114, spec_rounding(p));
    let v_116 = v_115 >> p.bit;
    let v_117 = mul_w(u_26, spec_cospi(p.bit, 48));
    let x_30 = mul_w(u_28, spec_cospi(p.bit, 16));
    let v_118 = sub_w(v_117, x_30);
    let v_119 = add_w(v_118, spec_rounding(p));
    let v_120 = v_119 >> p.bit;
    let v_121 = mul_w(u_30, sub_w(0, spec_cospi(p.bit, 48)));
    let x_31 = mul_w(u_32, spec_cospi(p.bit, 16));
    let v_122 = add_w(v_121, x_31);
    let v_123 = add_w(v_122, spec_rounding(p));
    let v_124 = v_123 >> p.bit;
    let v_125 = mul_w(u_30, spec_cospi(p.bit, 16));
    let x_32 = mul_w(u_32, sub_w(0, spec_cospi(p.bit, 48)));
    let v_126 = sub_w(v_125, x_32);
    let v_127 = add_w(v_126, spec_rounding(p));
    let v_128 = v_127 >> p.bit;
    let u_33 = clamp_w(add_w(u_17, u_21), p.bd, 8);
    let u_34 = clamp_w(sub_w(u_17, u_21), p.bd, 8);
    let u_35 = clamp_w(add_w(u_19, u_23), p.bd, 8);
    let u_36 = clamp_w(sub_w(u_19, u_23), p.bd, 8);
    let u_37 = clamp_w(add_w(v_100, v_108), p.bd, 8);
    let u_38 = clamp_w(sub_w(v_100, v_108), p.bd, 8);
    let u_39 = clamp_w(add_w(v_104, v_112), p.bd, 8);
    let u_40 = clamp_w(sub_w(v_104, v_112), p.bd, 8);
    let u_41 = clamp_w(add_w(u_25, u_29), p.bd, 8);
    let u_42 = clamp_w(sub_w(u_25, u_29), p.bd, 8);
    let u_43 = clamp_w(add_w(u_27, u_31), p.bd, 8);
    let u_44 = clamp_w(sub_w(u_27, u_31), p.bd, 8);
    let u_45 = clamp_w(add_w(v_116, v_124), p.bd, 8);
    let u_46 = clamp_w(sub_w(v_116, v_124), p.bd, 8);
    let u_47 = clamp_w(add_w(v_120, v_128), p.bd, 8);
    let u_48 = clamp_w(sub_w(v_120, v_128), p.bd, 8);
    let y_1 = mul_w(u_34, spec_cospi(p.bit, 32));
    let x_33 = mul_w(u_36, spec_cospi(p.bit, 32));
    let v_129 = add_w(y_1, x_33);
    let v_130 = add_w(v_129, spec_rounding(p));
    let v_131 = v_130 >> p.bit;
    let v_132 = sub_w(y_1, x_33);
    let v_133 = add_w(v_132, spec_rounding(p));
    let v_134 = v_133 >> p.bit;
    let y_2 = mul_w(u_38, spec_cospi(p.bit, 32));
    let x_34 = mul_w(u_40, spec_cospi(p.bit, 32));
    let v_135 = add_w(y_2, x_34);
    let v_136 = add_w(v_135, spec_rounding(p));
    let v_137 = v_136 >> p.bit;
    let v_138 = sub_w(y_2, x_34);
    let v_139 = add_w(v_138, spec_rounding(p));
    let v_140 = v_139 >> p.bit;
    let y_3 = mul_w(u_42, spec_cospi(p.bit, 32));
    let x_35 = mul_w(u_44, spec_cospi(p.bit, 32));
    let v_141 = add_w(y_3, x_35);
    let v_142 = add_w(v_141, spec_rounding(p));
    let v_143 = v_142 >> p.bit;
    let v_144 = sub_w(y_3, x_35);
    let v_145 = add_w(v_144, spec_rounding(p));
    let v_146 = v_145 >> p.bit;
    let y_4 = mul_w(u_46, spec_cospi(p.bit, 32));
    let x_36 = mul_w(u_48, spec_cospi(p.bit, 32));
    let v_147 = add_w(y_4, x_36);
    let v_148 = add_w(v_147, spec_rounding(p));
    let v_149 = v_148 >> p.bit;
    let v_150 = sub_w(y_4, x_36);
    let v_151 = add_w(v_150, spec_rounding(p));
    let v_152 = v_151 >> p.bit;
    let output_1 = clamp_w(add_w(u_33, spec_out_offset(p)) >> p.out_shift, p.bd, 6);
    let output_2 = clamp_w(sub_w(spec_out_offset(p), u_41) >> p.out_shift, p.bd, 6);
    let output_3 = clamp_w(add_w(u_45, spec_out_offset(p)) >> p.out_shift, p.bd, 6);
    let output_4 = clamp_w(sub_w(spec_out_offset(p), u_37) >> p.out_shift, p.bd, 6);
    let output_5 = clamp_w(add_w(v_137, spec_out_offset(p)) >> p.out_shift, p.bd, 6);
    let output_6 = clamp_w(sub_w(spec_out_offset(p), v_149) >> p.out_shift, p.bd, 6);
    let output_7 = clamp_w(add_w(v_143, spec_out_offset(p)) >> p.out_shift, p.bd, 6);
    let output_8 = clamp_w(sub_w(spec_out_offset(p), v_131) >> p.out_shift, p.bd, 6);
    let output_9 = clamp_w(add_w(v_134, spec_out_offset(p)) >> p.out_shift, p.bd, 6);
    let output_10 = clamp_w(sub_w(spec_out_offset(p), v_146) >> p.out_shift, p.bd, 6);
    let output_11 = clamp_w(add_w(v_152, spec_out_offset(p)) >> p.out_shift, p.bd, 6);
    let output_12 = clamp_w(sub_w(spec_out_offset(p), v_140) >> p.out_shift, p.bd, 6);
    let output_13 = clamp_w(add_w(u_39, spec_out_offset(p)) >> p.out_shift, p.bd, 6);
    let output_14 = clamp_w(sub_w(spec_out_offset(p), u_47) >> p.out_shift, p.bd, 6);
    let output_15 = clamp_w(add_w(u_43, spec_out_offset(p)) >> p.out_shift, p.bd, 6);
    let output_16 = clamp_w(sub_w(spec_out_offset(p), u_35) >> p.out_shift, p.bd, 6);
    seq![output_1, output_2, output_3, output_4, output_5, output_6, output_7, output_8, output_9, output_10, output_11, output_12, output_13, output_14, output_15, output_16]
}

/// The 16-point inverse ADST: the column pass when `do_cols` holds, the row pass otherwise.
pub open spec fn spec_iadst16(i: Seq<i32>, do_cols: bool, p: ButterflyParams) -> Seq<i32> {
    if do_cols {
        spec_iadst16_col(i, p)
    } else {
        spec_iadst16_row(i, p)
    }
}

proof fn lemma_iadst8_low1_col_regs_0(input: Seq<i32>, p: ButterflyParams)
    requires
        params_ok(p),
        input.len() == 8,
    ensures
        ({
            let rr = run_ops(IADST8_LOW1_COL_OPS@, 37, input.push(0), p);
            &&& rr[9] == mul_w(rr[0], spec_cospi(p.bit, 60))
            &&& rr[10] == add_w(rr[9], spec_rounding(p))
            &&& rr[11] == rr[10] >> p.bit
            &&& rr[12] == mul_w(rr[0], spec_cospi(p.bit, 4))
            &&& rr[13] == sub_w(rr[8], rr[12])
            &&& rr[14] == add_w(rr[13], spec_rounding(p))
            &&& rr[15] == rr[14] >> p.bit
            &&& rr[16] == mul_w(rr[11], spec_cospi(p.bit, 16))
            &&& rr[17] == mul_w(rr[15], spec_cospi(p.bit, 48))
            &&& rr[18] == add_w(rr[16], rr[17])
            &&& rr[19] == add_w(rr[18], spec_rounding(p))
            &&& rr[20] == rr[19] >> p.bit
            &&& rr[21] == mul_w(rr[11], spec_cospi(p.bit, 48))
            &&& rr[22] == mul_w(rr[15], spec_cospi(p.bit, 16))
            &&& rr[23] == sub_w(rr[21], rr[22])
            &&& rr[24] == add_w(rr[23], spec_rounding(p))
            &&& rr[25] == rr[24] >> p.bit
            &&& rr[26] == mul_w(rr[11], spec_cospi(p.bit, 32))
            &&& rr[27] == mul_w(rr[15], spec_cospi(p.bit, 32))
            &&& rr[28] == add_w(rr[26], rr[27])
            &&& rr[29] == add_w(rr[28], spec_rounding(p))
            &&& rr[30] == rr[29] >> p.bit
            &&& rr[31] == sub_w(rr[26], rr[27])
            &&& rr[32] == add_w(rr[31], spec_rounding(p))
            &&& rr[33] == rr[32] >> p.bit
            &&& rr[34] == mul_w(rr[20], spec_cospi(p.bit, 32))
            &&& rr[35] == mul_w(rr[25], spec_cospi(p.bit, 32))
            &&& rr[36] == add_w(rr[34], rr[35])
            &&& rr[37] == add_w(rr[36], spec_rounding(p))
            &&& rr[38] == rr[37] >> p.bit
            &&& rr[39] == sub_w(rr[34], rr[35])
            &&& rr[40] == add_w(rr[39], spec_rounding(p))
            &&& rr[41] == rr[40] >> p.bit
            &&& rr[42] == sub_w(rr[8], rr[20])
            &&& rr[43] == sub_w(rr[8], rr[30])
            &&& rr[44] == sub_w(rr[8], rr[41])
            &&& rr[45] == sub_w(rr[8], rr[15])
        }),
{
    reveal(IADST8_LOW1_COL_OPS);
    let ops = IADST8_LOW1_COL_OPS@;
    let r0 = input.push(0);
    lemma_run_ops_len(ops, 37, r0, p);
    reveal(add_w);
    reveal(sub_w);
    reveal(mul_w);
    lemma_run_ops_step(ops, 37, r0, p, 0);
    lemma_run_ops_step(ops, 37, r0, p, 1);
    lemma_run_ops_step(ops, 37, r0, p, 2);
    lemma_run_ops_step(ops, 37, r0, p, 3);
    lemma_run_ops_step(ops, 37, r0, p, 4);
    lemma_run_ops_step(ops, 37, r0, p, 5);
    lemma_run_ops_step(ops, 37, r0, p, 6);
    lemma_run_ops_step(ops, 37, r0, p, 7);
    lemma_run_ops_step(ops, 37, r0, p, 8);
    lemma_run_ops_step(ops, 37, r0, p, 9);
    lemma_run_ops_step(ops, 37, r0, p, 10);
    lemma_run_ops_step(ops, 37, r0, p, 11);
    lemma_run_ops_step(ops, 37, r0, p, 12);
    lemma_run_ops_step(ops, 37, r0, p, 13);
    lemma_run_ops_step(ops, 37, r0, p, 14);
    lemma_run_ops_step(ops, 37, r0, p, 15);
    lemma_run_ops_step(ops, 37, r0, p, 16);
    lemma_run_ops_step(ops, 37, r0, p, 17);
    lemma_run_ops_step(ops, 37, r0, p, 18);
    lemma_run_ops_step(ops, 37, r0, p, 19);
    lemma_run_ops_step(ops, 37, r0, p, 20);
    lemma_run_ops_step(ops, 37, r0, p, 21);
    lemma_run_ops_step(ops, 37, r0, p, 22);
    lemma_run_ops_step(ops, 37, r0, p, 23);
    lemma_run_ops_step(ops, 37, r0, p, 24);
    lemma_run_ops_step(ops, 37, r0, p, 25);
    lemma_run_ops_step(ops, 37, r0, p, 26);
    lemma_run_ops_step(ops, 37, r0, p, 27);
    lemma_run_ops_step(ops, 37, r0, p, 28);
    lemma_run_ops_step(ops, 37, r0, p, 29);
    lemma_run_ops_step(ops, 37, r0, p, 30);
    lemma_run_ops_step(ops, 37, r0, p, 31);
    lemma_run_ops_step(ops, 37, r0, p, 32);
    lemma_run_ops_step(ops, 37, r0, p, 33);
    lemma_run_ops_step(ops, 37, r0, p, 34);
    lemma_run_ops_step(ops, 37, r0, p, 35);
    lemma_run_ops_step(ops, 37, r0, p, 36);
}

/// The column pass of the 8-point inverse ADST of a lane whose coefficients past the first are zero computes its stages.
#[verifier::rlimit(100)]
pub proof fn law_iadst8_low1_col_stages(input: Seq<i32>, p: ButterflyParams)
    requires
        params_ok(p),
        input.len() == 8,
    ensures
        kernel_output(TxfmKernel::Iadst8Low1, true, input, p) == spec_iadst8_low1_col(input, p),
{
    reveal(IADST8_LOW1_COL_OUTS);
    let ops = IADST8_LOW1_COL_OPS@;
    let r0 = input.push(0);
    lemma_run_ops_len(ops, 37, r0, p);
    let rr = run_ops(ops, 37, r0, p);
    assert forall|k: int| 0 <= k < 9 implies rr[k] == r0[k] by {
        lemma_run_ops_prefix(ops, 0, 37, r0, p, k);
    }
    lemma_iadst8_low1_col_regs_0(input, p);
    assert(kernel_output(TxfmKernel::Iadst8Low1, true, input, p) =~= spec_iadst8_low1_col(input, p));
}

proof fn lemma_iadst8_low1_row_regs_0(input: Seq<i32>, p: ButterflyParams)
    requires
        params_ok(p),
        input.len() == 8,
    ensures
        ({
            let rr = run_ops(IADST8_LOW1_ROW_OPS@, 57, input.push(0), p);
            &&& rr[9] == mul_w(rr[0], spec_cospi(p.bit, 60))
            &&& rr[10] == add_w(rr[9], spec_rounding(p))
            &&& rr[11] == rr[10] >> p.bit
            &&& rr[12] == mul_w(rr[0], spec_cospi(p.bit, 4))
            &&& rr[13] == sub_w(rr[8], rr[12])
            &&& rr[14] == add_w(rr[13], spec_rounding(p))
            &&& rr[15] == rr[14] >> p.bit
            &&& rr[16] == mul_w(rr[11], spec_cospi(p.bit, 16))
            &&& rr[17] == mul_w(rr[15], spec_cospi(p.bit, 48))
            &&& rr[18] == add_w(rr[16], rr[17])
            &&& rr[19] == add_w(rr[18], spec_rounding(p))
            &&& rr[20] == rr[19] >> p.bit
            &&& rr[21] == mul_w(rr[11], spec_cospi(p.bit, 48))
            &&& rr[22] == mul_w(rr[15], spec_cospi(p.bit, 16))
            &&& rr[23] == sub_w(rr[21], rr[22])
            &&& rr[24] == add_w(rr[23], spec_rounding(p))
            &&& rr[25] == rr[24] >> p.bit
            &&& rr[26] == mul_w(rr[11], spec_cospi(p.bit, 32))
            &&& rr[27] == mul_w(rr[15], spec_cospi(p.bit, 32))
            &&& rr[28] == add_w(rr[26], rr[27])
            &&& rr[29] == add_w(rr[28], spec_rounding(p))
            &&& rr[30] == rr[29] >> p.bit
            &&& rr[31] == sub_w(rr[26], rr[27])
            &&& rr[32] == add_w(rr[31], spec_rounding(p))
            &&& rr[33] == rr[32] >> p.bit
            &&& rr[34] == mul_w(rr[20], spec_cospi(p.bit, 32))
            &&& rr[35] == mul_w(rr[25], spec_cospi(p.bit, 32))
            &&& rr[36] == add_w(rr[34], rr[35])
            &&& rr[37] == add_w(rr[36], spec_rounding(p))
            &&& rr[38] == rr[37] >> p.bit
            &&& rr[39] == sub_w(rr[34], rr[35])
            &&& rr[40] == add_w(rr[39], spec_rounding(p))
            &&& rr[41] == rr[40] >> p.bit
            &&& rr[42] == add_w(rr[11], spec_out_offset(p))
            &&& rr[43] == rr[42] >> p.out_shift
            &&& rr[44] == sub_w(spec_out_offset(p), rr[20])
            &&& rr[45] == rr[44] >> p.out_shift
            &&& rr[46] == clamp_w(rr[43], p.bd, 6)
            &&& rr[47] == clamp_w(rr[45], p.bd, 6)
            &&& rr[48] == add_w(rr[38], spec_out_offset(p))
        }),
{
    reveal(IADST8_LOW1_ROW_OPS);
    let ops = IADST8_LOW1_ROW_OPS@;
    let r0 = input.push(0);
    lemma_run_ops_len(ops, 57, r0, p);
    reveal(add_w);
    reveal(sub_w);
    reveal(mul_w);
    reveal(clamp_w);
    lemma_run_ops_step(ops, 57, r0, p, 0);
    lemma_run_ops_step(ops, 57, r0, p, 1);
    lemma_run_ops_step(ops, 57, r0, p, 2);
    lemma_run_ops_step(ops, 57, r0, p, 3);
    lemma_run_ops_step(ops, 57, r0, p, 4);
    lemma_run_ops_step(ops, 57, r0, p, 5);
    lemma_run_ops_step(ops, 57, r0, p, 6);
    lemma_run_ops_step(ops, 57, r0, p, 7);
    lemma_run_ops_step(ops, 57, r0, p, 8);
    lemma_run_ops_step(ops, 57, r0, p, 9);
    lemma_run_ops_step(ops, 57, r0, p, 10);
    lemma_run_ops_step(ops, 57, r0, p, 11);
    lemma_run_ops_step(ops, 57, r0, p, 12);
    lemma_run_ops_step(ops, 57, r0, p, 13);
    lemma_run_ops_step(ops, 57, r0, p, 14);
    lemma_run_ops_step(ops, 57, r0, p, 15);
    lemma_run_ops_step(ops, 57, r0, p, 16);
    lemma_run_ops_step(ops, 57, r0, p, 17);
    lemma_run_ops_step(ops, 57, r0, p, 18);
    lemma_run_ops_step(ops, 57, r0, p, 19);
    lemma_run_ops_step(ops, 57, r0, p, 20);
    lemma_run_ops_step(ops, 57, r0, p, 21);
    lemma_run_ops_step(ops, 57, r0, p, 22);
    lemma_run_ops_step(ops, 57, r0, p, 23);
    lemma_run_ops_step(ops, 57, r0, p, 24);
    lemma_run_ops_step(ops, 57, r0, p, 25);
    lemma_run_ops_step(ops, 57, r0, p, 26);
    lemma_run_ops_step(ops, 57, r0, p, 27);
    lemma_run_ops_step(ops, 57, r0, p, 28);
    lemma_run_ops_step(ops, 57, r0, p, 29);
    lemma_run_ops_step(ops, 57, r0, p, 30);
    lemma_run_ops_step(ops, 57, r0, p, 31);
    lemma_run_ops_step(ops, 57, r0, p, 32);
    lemma_run_ops_step(ops, 57, r0, p, 33);
    lemma_run_ops_step(ops, 57, r0, p, 34);
    lemma_run_ops_step(ops, 57, r0, p, 35);
    lemma_run_ops_step(ops, 57, r0, p, 36);
    lemma_run_ops_step(ops, 57, r0, p, 37);
    lemma_run_ops_step(ops, 57, r0, p, 38);
    lemma_run_ops_step(ops, 57, r0, p, 39);
}

proof fn lemma_iadst8_low1_row_regs_1(input: Seq<i32>, p: ButterflyParams)
    requires
        params_ok(p),
        input.len() == 8,
    ensures
        ({
            let rr = run_ops(IADST8_LOW1_ROW_OPS@, 57, input.push(0), p);
            &&& rr[49] == rr[48] >> p.out_shift
            &&& rr[50] == sub_w(spec_out_offset(p), rr[30])
            &&& rr[51] == rr[50] >> p.out_shift
            &&& rr[52] == clamp_w(rr[49], p.bd, 6)
            &&& rr[53] == clamp_w(rr[51], p.bd, 6)
            &&& rr[54] == add_w(rr[33], spec_out_offset(p))
            &&& rr[55] == rr[54] >> p.out_shift
            &&& rr[56] == sub_w(spec_out_offset(p), rr[41])
            &&& rr[57] == rr[56] >> p.out_shift
            &&& rr[58] == clamp_w(rr[55], p.bd, 6)
            &&& rr[59] == clamp_w(rr[57], p.bd, 6)
            &&& rr[60] == add_w(rr[25], spec_out_offset(p))
            &&& rr[61] == rr[60] >> p.out_shift
            &&& rr[62] == sub_w(spec_out_offset(p), rr[15])
            &&& rr[63] == rr[62] >> p.out_shift
            &&& rr[64] == clamp_w(rr[61], p.bd, 6)
            &&& rr[65] == clamp_w(rr[63], p.bd, 6)
        }),
{
    reveal(IADST8_LOW1_ROW_OPS);
    let ops = IADST8_LOW1_ROW_OPS@;
    let r0 = input.push(0);
    lemma_run_ops_len(ops, 57, r0, p);
    reveal(add_w);
    reveal(sub_w);
    reveal(clamp_w);
    lemma_run_ops_step(ops, 57, r0, p, 40);
    lemma_run_ops_step(ops, 57, r0, p, 41);
    lemma_run_ops_step(ops, 57, r0, p, 42);
    lemma_run_ops_step(ops, 57, r0, p, 43);
    lemma_run_ops_step(ops, 57, r0, p, 44);
    lemma_run_ops_step(ops, 57, r0, p, 45);
    lemma_run_ops_step(ops, 57, r0, p, 46);
    lemma_run_ops_step(ops, 57, r0, p, 47);
    lemma_run_ops_step(ops, 57, r0, p, 48);
    lemma_run_ops_step(ops, 57, r0, p, 49);
    lemma_run_ops_step(ops, 57, r0, p, 50);
    lemma_run_ops_step(ops, 57, r0, p, 51);
    lemma_run_ops_step(ops, 57, r0, p, 52);
    lemma_run_ops_step(ops, 57, r0, p, 53);
    lemma_run_ops_step(ops, 57, r0, p, 54);
    lemma_run_ops_step(ops, 57, r0, p, 55);
    lemma_run_ops_step(ops, 57, r0, p, 56);
}

/// The row pass of the 8-point inverse ADST of a lane whose coefficients past the first are zero computes its stages.
#[verifier::rlimit(100)]
pub proof fn law_iadst8_low1_row_stages(input: Seq<i32>, p: ButterflyParams)
    requires
        params_ok(p),
        input.len() == 8,
    ensures
        kernel_output(TxfmKernel::Iadst8Low1, false, input, p) == spec_iadst8_low1_row(input, p),
{
    reveal(IADST8_LOW1_ROW_OUTS);
    let ops = IADST8_LOW1_ROW_OPS@;
    let r0 = input.push(0);
    lemma_run_ops_len(ops, 57, r0, p);
    let rr = run_ops(ops, 57, r0, p);
    assert forall|k: int| 0 <= k < 9 implies rr[k] == r0[k] by {
        lemma_run_ops_prefix(ops, 0, 57, r0, p, k);
    }
    lemma_iadst8_low1_row_regs_0(input, p);
    lemma_iadst8_low1_row_regs_1(input, p);
    assert(kernel_output(TxfmKernel::Iadst8Low1, false, input, p) =~= spec_iadst8_low1_row(input, p));
}

/// The 8-point inverse ADST of a lane whose coefficients past the first are zero computes its stages.
pub proof fn law_iadst8_low1_stages(input: Seq<i32>, do_cols: bool, p: ButterflyParams)
    requires
        params_ok(p),
        input.len() == 8,
    ensures
        kernel_output(TxfmKernel::Iadst8Low1, do_cols, input, p) == spec_iadst8_low1(input, do_cols, p),
{
    if do_cols {
        law_iadst8_low1_col_stages(input, p);
    } else {
        law_iadst8_low1_row_stages(input, p);
    }
}

proof fn lemma_iadst16_low1_col_regs_0(input: Seq<i32>, p: ButterflyParams)
    requires
        params_ok(p),
        input.len() == 16,
    ensures
        ({
            let rr = run_ops(IADST16_LOW1_COL_OPS@, 77, input.push(0), p);
            &&& rr[17] == mul_w(rr[0], spec_cospi(p.bit, 62))
            &&& rr[18] == add_w(rr[17], spec_rounding(p))
            &&& rr[19] == rr[18] >> p.bit
            &&& rr[20] == mul_w(rr[0], spec_cospi(p.bit, 2))
            &&& rr[21] == sub_w(rr[16], rr[20])
            &&& rr[22] == add_w(rr[21], spec_rounding(p))
            &&& rr[23] == rr[22] >> p.bit
            &&& rr[24] == mul_w(rr[19], spec_cospi(p.bit, 8))
            &&& rr[25] == mul_w(rr[23], spec_cospi(p.bit, 56))
            &&& rr[26] == add_w(rr[24], rr[25])
            &&& rr[27] == add_w(rr[26], spec_rounding(p))
            &&& rr[28] == rr[27] >> p.bit
            &&& rr[29] == mul_w(rr[19], spec_cospi(p.bit, 56))
            &&& rr[30] == mul_w(rr[23], spec_cospi(p.bit, 8))
            &&& rr[31] == sub_w(rr[29], rr[30])
            &&& rr[32] == add_w(rr[31], spec_rounding(p))
            &&& rr[33] == rr[32] >> p.bit
            &&& rr[34] == mul_w(rr[19], spec_cospi(p.bit, 16))
            &&& rr[35] == mul_w(rr[23], spec_cospi(p.bit, 48))
            &&& rr[36] == add_w(rr[34], rr[35])
            &&& rr[37] == add_w(rr[36], spec_rounding(p))
            &&& rr[38] == rr[37] >> p.bit
            &&& rr[39] == mul_w(rr[19], spec_cospi(p.bit, 48))
            &&& rr[40] == mul_w(rr[23], spec_cospi(p.bit, 16))
            &&& rr[41] == sub_w(rr[39], rr[40])
            &&& rr[42] == add_w(rr[41], spec_rounding(p))
            &&& rr[43] == rr[42] >> p.bit
            &&& rr[44] == mul_w(rr[28], spec_cospi(p.bit, 16))
            &&& rr[45] == mul_w(rr[33], spec_cospi(p.bit, 48))
            &&& rr[46] == add_w(rr[44], rr[45])
            &&& rr[47] == add_w(rr[46], spec_rounding(p))
            &&& rr[48] == rr[47] >> p.bit
            &&& rr[49] == mul_w(rr[28], spec_cospi(p.bit, 48))
            &&& rr[50] == mul_w(rr[33], spec_cospi(p.bit, 16))
            &&& rr[51] == sub_w(rr[49], rr[50])
            &&& rr[52] == add_w(rr[51], spec_rounding(p))
            &&& rr[53] == rr[52] >> p.bit
            &&& rr[54] == mul_w(rr[19], spec_cospi(p.bit, 32))
            &&& rr[55] == mul_w(rr[23], spec_cospi(p.bit, 32))
            &&& rr[56] == add_w(rr[54], rr[55])
        }),
{
    reveal(IADST16_LOW1_COL_OPS);
    let ops = IADST16_LOW1_COL_OPS@;
    let r0 = input.push(0);
    lemma_run_ops_len(ops, 77, r0, p);
    reveal(add_w);
    reveal(sub_w);
    reveal(mul_w);
    lemma_run_ops_step(ops, 77, r0, p, 0);
    lemma_run_ops_step(ops, 77, r0, p, 1);
    lemma_run_ops_step(ops, 77, r0, p, 2);
    lemma_run_ops_step(ops, 77, r0, p, 3);
    lemma_run_ops_step(ops, 77, r0, p, 4);
    lemma_run_ops_step(ops, 77, r0, p, 5);
    lemma_run_ops_step(ops, 77, r0, p, 6);
    lemma_run_ops_step(ops, 77, r0, p, 7);
    lemma_run_ops_step(ops, 77, r0, p, 8);
    lemma_run_ops_step(ops, 77, r0, p, 9);
    lemma_run_ops_step(ops, 77, r0, p, 10);
    lemma_run_ops_step(ops, 77, r0, p, 11);
    lemma_run_ops_step(ops, 77, r0, p, 12);
    lemma_run_ops_step(ops, 77, r0, p, 13);
    lemma_run_ops_step(ops, 77, r0, p, 14);
    lemma_run_ops_step(ops, 77, r0, p, 15);
    lemma_run_ops_step(ops, 77, r0, p, 16);
    lemma_run_ops_step(ops, 77, r0, p, 17);
    lemma_run_ops_step(ops, 77, r0, p, 18);
    lemma_run_ops_step(ops, 77, r0, p, 19);
    lemma_run_ops_step(ops, 77, r0, p, 20);
    lemma_run_ops_step(ops, 77, r0, p, 21);
    lemma_run_ops_step(ops, 77, r0, p, 22);
    lemma_run_ops_step(ops, 77, r0, p, 23);
    lemma_run_ops_step(ops, 77, r0, p, 24);
    lemma_run_ops_step(ops, 77, r0, p, 25);
    lemma_run_ops_step(ops, 77, r0, p, 26);
    lemma_run_ops_step(ops, 77, r0, p, 27);
    lemma_run_ops_step(ops, 77, r0, p, 28);
    lemma_run_ops_step(ops, 77, r0, p, 29);
    lemma_run_ops_step(ops, 77, r0, p, 30);
    lemma_run_ops_step(ops, 77, r0, p, 31);
    lemma_run_ops_step(ops, 77, r0, p, 32);
    lemma_run_ops_step(ops, 77, r0, p, 33);
    lemma_run_ops_step(ops, 77, r0, p, 34);
    lemma_run_ops_step(ops, 77, r0, p, 35);
    lemma_run_ops_step(ops, 77, r0, p, 36);
    lemma_run_ops_step(ops, 77, r0, p, 37);
    lemma_run_ops_step(ops, 77, r0, p, 38);
    lemma_run_ops_step(ops, 77, r0, p, 39);
}

proof fn lemma_iadst16_low1_col_regs_1(input: Seq<i32>, p: ButterflyParams)
    requires
        params_ok(p),
        input.len() == 16,
    ensures
        ({
            let rr = run_ops(IADST16_LOW1_COL_OPS@, 77, input.push(0), p);
            &&& rr[57] == add_w(rr[56], spec_rounding(p))
            &&& rr[58] == rr[57] >> p.bit
            &&& rr[59] == sub_w(rr[54], rr[55])
            &&& rr[60] == add_w(rr[59], spec_rounding(p))
            &&& rr[61] == rr[60] >> p.bit
            &&& rr[62] == mul_w(rr[38], spec_cospi(p.bit, 32))
            &&& rr[63] == mul_w(rr[43], spec_cospi(p.bit, 32))
            &&& rr[64] == add_w(rr[62], rr[63])
            &&& rr[65] == add_w(rr[64], spec_rounding(p))
            &&& rr[66] == rr[65] >> p.bit
            &&& rr[67] == sub_w(rr[62], rr[63])
            &&& rr[68] == add_w(rr[67], spec_rounding(p))
            &&& rr[69] == rr[68] >> p.bit
            &&& rr[70] == mul_w(rr[28], spec_cospi(p.bit, 32))
            &&& rr[71] == mul_w(rr[33], spec_cospi(p.bit, 32))
            &&& rr[72] == add_w(rr[70], rr[71])
            &&& rr[73] == add_w(rr[72], spec_rounding(p))
            &&& rr[74] == rr[73] >> p.bit
            &&& rr[75] == sub_w(rr[70], rr[71])
            &&& rr[76] == add_w(rr[75], spec_rounding(p))
            &&& rr[77] == rr[76] >> p.bit
            &&& rr[78] == mul_w(rr[48], spec_cospi(p.bit, 32))
            &&& rr[79] == mul_w(rr[53], spec_cospi(p.bit, 32))
            &&& rr[80] == add_w(rr[78], rr[79])
            &&& rr[81] == add_w(rr[80], spec_rounding(p))
            &&& rr[82] == rr[81] >> p.bit
            &&& rr[83] == sub_w(rr[78], rr[79])
            &&& rr[84] == add_w(rr[83], spec_rounding(p))
            &&& rr[85] == rr[84] >> p.bit
            &&& rr[86] == sub_w(rr[16], rr[28])
            &&& rr[87] == sub_w(rr[16], rr[38])
            &&& rr[88] == sub_w(rr[16], rr[82])
            &&& rr[89] == sub_w(rr[16], rr[58])
            &&& rr[90] == sub_w(rr[16], rr[77])
            &&& rr[91] == sub_w(rr[16], rr[69])
            &&& rr[92] == sub_w(rr[16], rr[53])
            &&& rr[93] == sub_w(rr[16], rr[23])
        }),
{
    reveal(IADST16_LOW1_COL_OPS);
    let ops = IADST16_LOW1_COL_OPS@;
    let r0 = input.push(0);
    lemma_run_ops_len(ops, 77, r0, p);
    reveal(add_w);
    reveal(sub_w);
    reveal(mul_w);
    lemma_run_ops_step(ops, 77, r0, p, 40);
    lemma_run_ops_step(ops, 77, r0, p, 41);
    lemma_run_ops_step(ops, 77, r0, p, 42);
    lemma_run_ops_step(ops, 77, r0, p, 43);
    lemma_run_ops_step(ops, 77, r0, p, 44);
    lemma_run_ops_step(ops, 77, r0, p, 45);
    lemma_run_ops_step(ops, 77, r0, p, 46);
    lemma_run_ops_step(ops, 77, r0, p, 47);
    lemma_run_ops_step(ops, 77, r0, p, 48);
    lemma_run_ops_step(ops, 77, r0, p, 49);
    lemma_run_ops_step(ops, 77, r0, p, 50);
    lemma_run_ops_step(ops, 77, r0, p, 51);
    lemma_run_ops_step(ops, 77, r0, p, 52);
    lemma_run_ops_step(ops, 77, r0, p, 53);
    lemma_run_ops_step(ops, 77, r0, p, 54);
    lemma_run_ops_step(ops, 77, r0, p, 55);
    lemma_run_ops_step(ops, 77, r0, p, 56);
    lemma_run_ops_step(ops, 77, r0, p, 57);
    lemma_run_ops_step(ops, 77, r0, p, 58);
    lemma_run_ops_step(ops, 77, r0, p, 59);
    lemma_run_ops_step(ops, 77, r0, p, 60);
    lemma_run_ops_step(ops, 77, r0, p, 61);
    lemma_run_ops_step(ops, 77, r0, p, 62);
    lemma_run_ops_step(ops, 77, r0, p, 63);
    lemma_run_ops_step(ops, 77, r0, p, 64);
    lemma_run_ops_step(ops, 77, r0, p, 65);
    lemma_run_ops_step(ops, 77, r0, p, 66);
    lemma_run_ops_step(ops, 77, r0, p, 67);
    lemma_run_ops_step(ops, 77, r0, p, 68);
    lemma_run_ops_step(ops, 77, r0, p, 69);
    lemma_run_ops_step(ops, 77, r0, p, 70);
    lemma_run_ops_step(ops, 77, r0, p, 71);
    lemma_run_ops_step(ops, 77, r0, p, 72);
    lemma_run_ops_step(ops, 77, r0, p, 73);
    lemma_run_ops_step(ops, 77, r0, p, 74);
    lemma_run_ops_step(ops, 77, r0, p, 75);
    lemma_run_ops_step(ops, 77, r0, p, 76);
}

/// The column pass of the 16-point inverse ADST of a lane whose coefficients past the first are zero computes its stages.
#[verifier::rlimit(100)]
pub proof fn law_iadst16_low1_col_stages(input: Seq<i32>, p: ButterflyParams)
    requires
        params_ok(p),
        input.len() == 16,
    ensures
        kernel_output(TxfmKernel::Iadst16Low1, true, input, p) == spec_iadst16_low1_col(input, p),
{
    reveal(IADST16_LOW1_COL_OUTS);
    let ops = IADST16_LOW1_COL_OPS@;
    let r0 = input.push(0);
    lemma_run_ops_len(ops, 77, r0, p);
    let rr = run_ops(ops, 77, r0, p);
    assert forall|k: int| 0 <= k < 17 implies rr[k] == r0[k] by {
        lemma_run_ops_prefix(ops, 0, 77, r0, p, k);
    }
    lemma_iadst16_low1_col_regs_0(input, p);
    lemma_iadst16_low1_col_regs_1(input, p);
    assert(kernel_output(TxfmKernel::Iadst16Low1, true, input, p) =~= spec_iadst16_low1_col(input, p));
}

proof fn lemma_iadst16_low1_row_regs_0(input: Seq<i32>, p: ButterflyParams)
    requires
        params_ok(p),
        input.len() == 16,
    ensures
        ({
            let rr = run_ops(IADST16_LOW1_ROW_OPS@, 117, input.push(0), p);
            &&& rr[17] == mul_w(rr[0], spec_cospi(p.bit, 62))
            &&& rr[18] == add_w(rr[17], spec_rounding(p))
            &&& rr[19] == rr[18] >> p.bit
            &&& rr[20] == mul_w(rr[0], spec_cospi(p.bit, 2))
            &&& rr[21] == sub_w(rr[16], rr[20])
            &&& rr[22] == add_w(rr[21], spec_rounding(p))
            &&& rr[23] == rr[22] >> p.bit
            &&& rr[24] == mul_w(rr[19], spec_cospi(p.bit, 8))
            &&& rr[25] == mul_w(rr[23], spec_cospi(p.bit, 56))
            &&& rr[26] == add_w(rr[24], rr[25])
            &&& rr[27] == add_w(rr[26], spec_rounding(p))
            &&& rr[28] == rr[27] >> p.bit
            &&& rr[29] == mul_w(rr[19], spec_cospi(p.bit, 56))
            &&& rr[30] == mul_w(rr[23], spec_cospi(p.bit, 8))
            &&& rr[31] == sub_w(rr[29], rr[30])
            &&& rr[32] == add_w(rr[31], spec_rounding(p))
            &&& rr[33] == rr[32] >> p.bit
            &&& rr[34] == mul_w(rr[19], spec_cospi(p.bit, 16))
            &&& rr[35] == mul_w(rr[23], spec_cospi(p.bit, 48))
            &&& rr[36] == add_w(rr[34], rr[35])
            &&& rr[37] == add_w(rr[36], spec_rounding(p))
            &&& rr[38] == rr[37] >> p.bit
            &&& rr[39] == mul_w(rr[19], spec_cospi(p.bit, 48))
            &&& rr[40] == mul_w(rr[23], spec_cospi(p.bit, 16))
            &&& rr[41] == sub_w(rr[39], rr[40])
            &&& rr[42] == add_w(rr[41], spec_rounding(p))
            &&& rr[43] == rr[42] >> p.bit
            &&& rr[44] == mul_w(rr[28], spec_cospi(p.bit, 16))
            &&& rr[45] == mul_w(rr[33], spec_cospi(p.bit, 48))
            &&& rr[46] == add_w(rr[44], rr[45])
            &&& rr[47] == add_w(rr[46], spec_rounding(p))
            &&& rr[48] == rr[47] >> p.bit
            &&& rr[49] == mul_w(rr[28], spec_cospi(p.bit, 48))
            &&& rr[50] == mul_w(rr[33], spec_cospi(p.bit, 16))
            &&& rr[51] == sub_w(rr[49], rr[50])
            &&& rr[52] == add_w(rr[51], spec_rounding(p))
            &&& rr[53] == rr[52] >> p.bit
            &&& rr[54] == mul_w(rr[19], spec_cospi(p.bit, 32))
            &&& rr[55] == mul_w(rr[23], spec_cospi(p.bit, 32))
            &&& rr[56] == add_w(rr[54], rr[55])
        }),
{
    reveal(IADST16_LOW1_ROW_OPS);
    let ops = IADST16_LOW1_ROW_OPS@;
    let r0 = input.push(0);
    lemma_run_ops_len(ops, 117, r0, p);
    reveal(add_w);
    reveal(sub_w);
    reveal(mul_w);
    lemma_run_ops_step(ops, 117, r0, p, 0);
    lemma_run_ops_step(ops, 117, r0, p, 1);
    lemma_run_ops_step(ops, 117, r0, p, 2);
    lemma_run_ops_step(ops, 117, r0, p, 3);
    lemma_run_ops_step(ops, 117, r0, p, 4);
    lemma_run_ops_step(ops, 117, r0, p, 5);
    lemma_run_ops_step(ops, 117, r0, p, 6);
    lemma_run_ops_step(ops, 117, r0, p, 7);
    lemma_run_ops_step(ops, 117, r0, p, 8);
    lemma_run_ops_step(ops, 117, r0, p, 9);
    lemma_run_ops_step(ops, 117, r0, p, 10);
    lemma_run_ops_step(ops, 117, r0, p, 11);
    lemma_run_ops_step(ops, 117, r0, p, 12);
    lemma_run_ops_step(ops, 117, r0, p, 13);
    lemma_run_ops_step(ops, 117, r0, p, 14);
    lemma_run_ops_step(ops, 117, r0, p, 15);
    lemma_run_ops_step(ops, 117, r0, p, 16);
    lemma_run_ops_step(ops, 117, r0, p, 17);
    lemma_run_ops_step(ops, 117, r0, p, 18);
    lemma_run_ops_step(ops, 117, r0, p, 19);
    lemma_run_ops_step(ops, 117, r0, p, 20);
    lemma_run_ops_step(ops, 117, r0, p, 21);
    lemma_run_ops_step(ops, 117, r0, p, 22);
    lemma_run_ops_step(ops, 117, r0, p, 23);
    lemma_run_ops_step(ops, 117, r0, p, 24);
    lemma_run_ops_step(ops, 117, r0, p, 25);
    lemma_run_ops_step(ops, 117, r0, p, 26);
    lemma_run_ops_step(ops, 117, r0, p, 27);
    lemma_run_ops_step(ops, 117, r0, p, 28);
    lemma_run_ops_step(ops, 117, r0, p, 29);
    lemma_run_ops_step(ops, 117, r0, p, 30);
    lemma_run_ops_step(ops, 117, r0, p, 31);
    lemma_run_ops_step(ops, 117, r0, p, 32);
    lemma_run_ops_step(ops, 117, r0, p, 33);
    lemma_run_ops_step(ops, 117, r0, p, 34);
    lemma_run_ops_step(ops, 117, r0, p, 35);
    lemma_run_ops_step(ops, 117, r0, p, 36);
    lemma_run_ops_step(ops, 117, r0, p, 37);
    lemma_run_ops_step(ops, 117, r0, p, 38);
    lemma_run_ops_step(ops, 117, r0, p, 39);
}

proof fn lemma_iadst16_low1_row_regs_1(input: Seq<i32>, p: ButterflyParams)
    requires
        params_ok(p),
        input.len() == 16,
    ensures
        ({
            let rr = run_ops(IADST16_LOW1_ROW_OPS@, 117, input.push(0), p);
            &&& rr[57] == add_w(rr[56], spec_rounding(p))
            &&& rr[58] == rr[57] >> p.bit
            &&& rr[59] == sub_w(rr[54], rr[55])
            &&& rr[60] == add_w(rr[59], spec_rounding(p))
            &&& rr[61] == rr[60] >> p.bit
            &&& rr[62] == mul_w(rr[38], spec_cospi(p.bit, 32))
            &&& rr[63] == mul_w(rr[43], spec_cospi(p.bit, 32))
            &&& rr[64] == add_w(rr[62], rr[63])
            &&& rr[65] == add_w(rr[64], spec_rounding(p))
            &&& rr[66] == rr[65] >> p.bit
            &&& rr[67] == sub_w(rr[62], rr[63])
            &&& rr[68] == add_w(rr[67], spec_rounding(p))
            &&& rr[69] == rr[68] >> p.bit
            &&& rr[70] == mul_w(rr[28], spec_cospi(p.bit, 32))
            &&& rr[71] == mul_w(rr[33], spec_cospi(p.bit, 32))
            &&& rr[72] == add_w(rr[70], rr[71])
            &&& rr[73] == add_w(rr[72], spec_rounding(p))
            &&& rr[74] == rr[73] >> p.bit
            &&& rr[75] == sub_w(rr[70], rr[71])
            &&& rr[76] == add_w(rr[75], spec_rounding(p))
            &&& rr[77] == rr[76] >> p.bit
            &&& rr[78] == mul_w(rr[48], spec_cospi(p.bit, 32))
            &&& rr[79] == mul_w(rr[53], spec_cospi(p.bit, 32))
            &&& rr[80] == add_w(rr[78], rr[79])
            &&& rr[81] == add_w(rr[80], spec_rounding(p))
            &&& rr[82] == rr[81] >> p.bit
            &&& rr[83] == sub_w(rr[78], rr[79])
            &&& rr[84] == add_w(rr[83], spec_rounding(p))
            &&& rr[85] == rr[84] >> p.bit
            &&& rr[86] == add_w(rr[19], spec_out_offset(p))
            &&& rr[87] == rr[86] >> p.out_shift
            &&& rr[88] == sub_w(spec_out_offset(p), rr[28])
            &&& rr[89] == rr[88] >> p.out_shift
            &&& rr[90] == clamp_w(rr[87], p.bd, 6)
            &&& rr[91] == clamp_w(rr[89], p.bd, 6)
            &&& rr[92] == add_w(rr[48], spec_out_offset(p))
            &&& rr[93] == rr[92] >> p.out_shift
            &&& rr[94] == sub_w(spec_out_offset(p), rr[38])
            &&& rr[95] == rr[94] >> p.out_shift
            &&& rr[96] == clamp_w(rr[93], p.bd, 6)
        }),
{
    reveal(IADST16_LOW1_ROW_OPS);
    let ops = IADST16_LOW1_ROW_OPS@;
    let r0 = input.push(0);
    lemma_run_ops_len(ops, 117, r0, p);
    reveal(add_w);
    reveal(sub_w);
    reveal(mul_w);
    reveal(clamp_w);
    lemma_run_ops_step(ops, 117, r0, p, 40);
    lemma_run_ops_step(ops, 117, r0, p, 41);
    lemma_run_ops_step(ops, 117, r0, p, 42);
    lemma_run_ops_step(ops, 117, r0, p, 43);
    lemma_run_ops_step(ops, 117, r0, p, 44);
    lemma_run_ops_step(ops, 117, r0, p, 45);
    lemma_run_ops_step(ops, 117, r0, p, 46);
    lemma_run_ops_step(ops, 117, r0, p, 47);
    lemma_run_ops_step(ops, 117, r0, p, 48);
    lemma_run_ops_step(ops, 117, r0, p, 49);
    lemma_run_ops_step(ops, 117, r0, p, 50);
    lemma_run_ops_step(ops, 117, r0, p, 51);
    lemma_run_ops_step(ops, 117, r0, p, 52);
    lemma_run_ops_step(ops, 117, r0, p, 53);
    lemma_run_ops_step(ops, 117, r0, p, 54);
    lemma_run_ops_step(ops, 117, r0, p, 55);
    lemma_run_ops_step(ops, 117, r0, p, 56);
    lemma_run_ops_step(ops, 117, r0, p, 57);
    lemma_run_ops_step(ops, 117, r0, p, 58);
    lemma_run_ops_step(ops, 117, r0, p, 59);
    lemma_run_ops_step(ops, 117, r0, p, 60);
    lemma_run_ops_step(ops, 117, r0, p, 61);
    lemma_run_ops_step(ops, 117, r0, p, 62);
    lemma_run_ops_step(ops, 117, r0, p, 63);
    lemma_run_ops_step(ops, 117, r0, p, 64);
    lemma_run_ops_step(ops, 117, r0, p, 65);
    lemma_run_ops_step(ops, 117, r0, p, 66);
    lemma_run_ops_step(ops, 117, r0, p, 67);
    lemma_run_ops_step(ops, 117, r0, p, 68);
    lemma_run_ops_step(ops, 117, r0, p, 69);
    lemma_run_ops_step(ops, 117, r0, p, 70);
    lemma_run_ops_step(ops, 117, r0, p, 71);
    lemma_run_ops_step(ops, 117, r0, p, 72);
    lemma_run_ops_step(ops, 117, r0, p, 73);
    lemma_run_ops_step(ops, 117, r0, p, 74);
    lemma_run_ops_step(ops, 117, r0, p, 75);
    lemma_run_ops_step(ops, 117, r0, p, 76);
    lemma_run_ops_step(ops, 117, r0, p, 77);
    lemma_run_ops_step(ops, 117, r0, p, 78);
    lemma_run_ops_step(ops, 117, r0, p, 79);
}

proof fn lemma_iadst16_low1_row_regs_2(input: Seq<i32>, p: ButterflyParams)
    requires
        params_ok(p),
        input.len() == 16,
    ensures
        ({
            let rr = run_ops(IADST16_LOW1_ROW_OPS@, 117, input.push(0), p);
            &&& rr[97] == clamp_w(rr[95], p.bd, 6)
            &&& rr[98] == add_w(rr[66], spec_out_offset(p))
            &&& rr[99] == rr[98] >> p.out_shift
            &&& rr[100] == sub_w(spec_out_offset(p), rr[82])
            &&& rr[101] == rr[100] >> p.out_shift
            &&& rr[102] == clamp_w(rr[99], p.bd, 6)
            &&& rr[103] == clamp_w(rr[101], p.bd, 6)
            &&& rr[104] == add_w(rr[74], spec_out_offset(p))
            &&& rr[105] == rr[104] >> p.out_shift
            &&& rr[106] == sub_w(spec_out_offset(p), rr[58])
            &&& rr[107] == rr[106] >> p.out_shift
            &&& rr[108] == clamp_w(rr[105], p.bd, 6)
            &&& rr[109] == clamp_w(rr[107], p.bd, 6)
            &&& rr[110] == add_w(rr[61], spec_out_offset(p))
            &&& rr[111] == rr[110] >> p.out_shift
            &&& rr[112] == sub_w(spec_out_offset(p), rr[77])
            &&& rr[113] == rr[112] >> p.out_shift
            &&& rr[114] == clamp_w(rr[111], p.bd, 6)
            &&& rr[115] == clamp_w(rr[113], p.bd, 6)
            &&& rr[116] == add_w(rr[85], spec_out_offset(p))
            &&& rr[117] == rr[116] >> p.out_shift
            &&& rr[118] == sub_w(spec_out_offset(p), rr[69])
            &&& rr[119] == rr[118] >> p.out_shift
            &&& rr[120] == clamp_w(rr[117], p.bd, 6)
            &&& rr[121] == clamp_w(rr[119], p.bd, 6)
            &&& rr[122] == add_w(rr[43], spec_out_offset(p))
            &&& rr[123] == rr[122] >> p.out_shift
            &&& rr[124] == sub_w(spec_out_offset(p), rr[53])
            &&& rr[125] == rr[124] >> p.out_shift
            &&& rr[126] == clamp_w(rr[123], p.bd, 6)
            &&& rr[127] == clamp_w(rr[125], p.bd, 6)
            &&& rr[128] == add_w(rr[33], spec_out_offset(p))
            &&& rr[129] == rr[128] >> p.out_shift
            &&& rr[130] == sub_w(spec_out_offset(p), rr[23])
            &&& rr[131] == rr[130] >> p.out_shift
            &&& rr[132] == clamp_w(rr[129], p.bd, 6)
            &&& rr[133] == clamp_w(rr[131], p.bd, 6)
        }),
{
    reveal(IADST16_LOW1_ROW_OPS);
    let ops = IADST16_LOW1_ROW_OPS@;
    let r0 = input.push(0);
    lemma_run_ops_len(ops, 117, r0, p);
    reveal(add_w);
    reveal(sub_w);
    reveal(clamp_w);
    lemma_run_ops_step(ops, 117, r0, p, 80);
    lemma_run_ops_step(ops, 117, r0, p, 81);
    lemma_run_ops_step(ops, 117, r0, p, 82);
    lemma_run_ops_step(ops, 117, r0, p, 83);
    lemma_run_ops_step(ops, 117, r0, p, 84);
    lemma_run_ops_step(ops, 117, r0, p, 85);
    lemma_run_ops_step(ops, 117, r0, p, 86);
    lemma_run_ops_step(ops, 117, r0, p, 87);
    lemma_run_ops_step(ops, 117, r0, p, 88);
    lemma_run_ops_step(ops, 117, r0, p, 89);
    lemma_run_ops_step(ops, 117, r0, p, 90);
    lemma_run_ops_step(ops, 117, r0, p, 91);
    lemma_run_ops_step(ops, 117, r0, p, 92);
    lemma_run_ops_step(ops, 117, r0, p, 93);
    lemma_run_ops_step(ops, 117, r0, p, 94);
    lemma_run_ops_step(ops, 117, r0, p, 95);
    lemma_run_ops_step(ops, 117, r0, p, 96);
    lemma_run_ops_step(ops, 117, r0, p, 97);
    lemma_run_ops_step(ops, 117, r0, p, 98);
    lemma_run_ops_step(ops, 117, r0, p, 99);
    lemma_run_ops_step(ops, 117, r0, p, 100);
    lemma_run_ops_step(ops, 117, r0, p, 101);
    lemma_run_ops_step(ops, 117, r0, p, 102);
    lemma_run_ops_step(ops, 117, r0, p, 103);
    lemma_run_ops_step(ops, 117, r0, p, 104);
    lemma_run_ops_step(ops, 117, r0, p, 105);
    lemma_run_ops_step(ops, 117, r0, p, 106);
    lemma_run_ops_step(ops, 117, r0, p, 107);
    lemma_run_ops_step(ops, 117, r0, p, 108);
    lemma_run_ops_step(ops, 117, r0, p, 109);
    lemma_run_ops_step(ops, 117, r0, p, 110);
    lemma_run_ops_step(ops, 117, r0, p, 111);
    lemma_run_ops_step(ops, 117, r0, p, 112);
    lemma_run_ops_step(ops, 117, r0, p, 113);
    lemma_run_ops_step(ops, 117, r0, p, 114);
    lemma_run_ops_step(ops, 117, r0, p, 115);
    lemma_run_ops_step(ops, 117, r0, p, 116);
}

/// The row pass of the 16-point inverse ADST of a lane whose coefficients past the first are zero computes its stages.
#[verifier::rlimit(100)]
pub proof fn law_iadst16_low1_row_stages(input: Seq<i32>, p: ButterflyParams)
    requires
        params_ok(p),
        input.len() == 16,
    ensures
        kernel_output(TxfmKernel::Iadst16Low1, false, input, p) == spec_iadst16_low1_row(input, p),
{
    reveal(IADST16_LOW1_ROW_OUTS);
    let ops = IADST16_LOW1_ROW_OPS@;
    let r0 = input.push(0);
    lemma_run_ops_len(ops, 117, r0, p);
    let rr = run_ops(ops, 117, r0, p);
    assert forall|k: int| 0 <= k < 17 implies rr[k] == r0[k] by {
        lemma_run_ops_prefix(ops, 0, 117, r0, p, k);
    }
    lemma_iadst16_low1_row_regs_0(input, p);
    lemma_iadst16_low1_row_regs_1(input, p);
    lemma_iadst16_low1_row_regs_2(input, p);
    assert(kernel_output(TxfmKernel::Iadst16Low1, false, input, p) =~= spec_iadst16_low1_row(input, p));
}

/// The 16-point inverse ADST of a lane whose coefficients past the first are zero computes its stages.
pub proof fn law_iadst16_low1_stages(input: Seq<i32>, do_cols: bool, p: ButterflyParams)
    requires
        params_ok(p),
        input.len() == 16,
    ensures
        kernel_output(TxfmKernel::Iadst16Low1, do_cols, input, p) == spec_iadst16_low1(input, do_cols, p),
{
    if do_cols {
        law_iadst16_low1_col_stages(input, p);
    } else {
        law_iadst16_low1_row_stages(input, p);
    }
}

proof fn lemma_iadst16_low8_col_regs_0(input: Seq<i32>, p: ButterflyParams)
    requires
        params_ok(p),
        input.len() == 16,
    ensures
        ({
            let rr = run_ops(IADST16_LOW8_COL_OPS@, 268, input.push(0), p);
            &&& rr[17] == mul_w(rr[0], spec_cospi(p.bit, 62))
            &&& rr[18] == add_w(rr[17], spec_rounding(p))
            &&& rr[19] == rr[18] >> p.bit
            &&& rr[20] == mul_w(rr[0], spec_cospi(p.bit, 2))
            &&& rr[21] == sub_w(rr[16], rr[20])
            &&& rr[22] == add_w(rr[21], spec_rounding(p))
            &&& rr[23] == rr[22] >> p.bit
            &&& rr[24] == mul_w(rr[2], spec_cospi(p.bit, 54))
            &&& rr[25] == add_w(rr[24], spec_rounding(p))
            &&& rr[26] == rr[25] >> p.bit
            &&& rr[27] == mul_w(rr[2], spec_cospi(p.bit, 10))
            &&& rr[28] == sub_w(rr[16], rr[27])
            &&& rr[29] == add_w(rr[28], spec_rounding(p))
            &&& rr[30] == rr[29] >> p.bit
            &&& rr[31] == mul_w(rr[4], spec_cospi(p.bit, 46))
            &&& rr[32] == add_w(rr[31], spec_rounding(p))
            &&& rr[33] == rr[32] >> p.bit
            &&& rr[34] == mul_w(rr[4], spec_cospi(p.bit, 18))
            &&& rr[35] == sub_w(rr[16], rr[34])
            &&& rr[36] == add_w(rr[35], spec_rounding(p))
            &&& rr[37] == rr[36] >> p.bit
            &&& rr[38] == mul_w(rr[6], spec_cospi(p.bit, 38))
            &&& rr[39] == add_w(rr[38], spec_rounding(p))
            &&& rr[40] == rr[39] >> p.bit
            &&& rr[41] == mul_w(rr[6], spec_cospi(p.bit, 26))
            &&& rr[42] == sub_w(rr[16], rr[41])
            &&& rr[43] == add_w(rr[42], spec_rounding(p))
            &&& rr[44] == rr[43] >> p.bit
            &&& rr[45] == mul_w(rr[7], spec_cospi(p.bit, 34))
            &&& rr[46] == add_w(rr[45], spec_rounding(p))
            &&& rr[47] == rr[46] >> p.bit
            &&& rr[48] == mul_w(rr[7], spec_cospi(p.bit, 30))
            &&& rr[49] == add_w(rr[48], spec_rounding(p))
            &&& rr[50] == rr[49] >> p.bit
            &&& rr[51] == mul_w(rr[5], spec_cospi(p.bit, 42))
            &&& rr[52] == add_w(rr[51], spec_rounding(p))
            &&& rr[53] == rr[52] >> p.bit
            &&& rr[54] == mul_w(rr[5], spec_cospi(p.bit, 22))
            &&& rr[55] == add_w(rr[54], spec_rounding(p))
            &&& rr[56] == rr[55] >> p.bit
        }),
{
    reveal(IADST16_LOW8_COL_OPS);
    let ops = IADST16_LOW8_COL_OPS@;
    let r0 = input.push(0);
    lemma_run_ops_len(ops, 268, r0, p);
    reveal(add_w);
    reveal(sub_w);
    reveal(mul_w);
    lemma_run_ops_step(ops, 268, r0, p, 0);
    lemma_run_ops_step(ops, 268, r0, p, 1);
    lemma_run_ops_step(ops, 268, r0, p, 2);
    lemma_run_ops_step(ops, 268, r0, p, 3);
    lemma_run_ops_step(ops, 268, r0, p, 4);
    lemma_run_ops_step(ops, 268, r0, p, 5);
    lemma_run_ops_step(ops, 268, r0, p, 6);
    lemma_run_ops_step(ops, 268, r0, p, 7);
    lemma_run_ops_step(ops, 268, r0, p, 8);
    lemma_run_ops_step(ops, 268, r0, p, 9);
    lemma_run_ops_step(ops, 268, r0, p, 10);
    lemma_run_ops_step(ops, 268, r0, p, 11);
    lemma_run_ops_step(ops, 268, r0, p, 12);
    lemma_run_ops_step(ops, 268, r0, p, 13);
    lemma_run_ops_step(ops, 268, r0, p, 14);
    lemma_run_ops_step(ops, 268, r0, p, 15);
    lemma_run_ops_step(ops, 268, r0, p, 16);
    lemma_run_ops_step(ops, 268, r0, p, 17);
    lemma_run_ops_step(ops, 268, r0, p, 18);
    lemma_run_ops_step(ops, 268, r0, p, 19);
    lemma_run_ops_step(ops, 268, r0, p, 20);
    lemma_run_ops_step(ops, 268, r0, p, 21);
    lemma_run_ops_step(ops, 268, r0, p, 22);
    lemma_run_ops_step(ops, 268, r0, p, 23);
    lemma_run_ops_step(ops, 268, r0, p, 24);
    lemma_run_ops_step(ops, 268, r0, p, 25);
    lemma_run_ops_step(ops, 268, r0, p, 26);
    lemma_run_ops_step(ops, 268, r0, p, 27);
    lemma_run_ops_step(ops, 268, r0, p, 28);
    lemma_run_ops_step(ops, 268, r0, p, 29);
    lemma_run_ops_step(ops, 268, r0, p, 30);
    lemma_run_ops_step(ops, 268, r0, p, 31);
    lemma_run_ops_step(ops, 268, r0, p, 32);
    lemma_run_ops_step(ops, 268, r0, p, 33);
    lemma_run_ops_step(ops, 268, r0, p, 34);
    lemma_run_ops_step(ops, 268, r0, p, 35);
    lemma_run_ops_step(ops, 268, r0, p, 36);
    lemma_run_ops_step(ops, 268, r0, p, 37);
    lemma_run_ops_step(ops, 268, r0, p, 38);
    lemma_run_ops_step(ops, 268, r0, p, 39);
}

proof fn lemma_iadst16_low8_col_regs_1(input: Seq<i32>, p: ButterflyParams)
    requires
        params_ok(p),
        input.len() == 16,
    ensures
        ({
            let rr = run_ops(IADST16_LOW8_COL_OPS@, 268, input.push(0), p);
            &&& rr[57] == mul_w(rr[3], spec_cospi(p.bit, 50))
            &&& rr[58] == add_w(rr[57], spec_rounding(p))
            &&& rr[59] == rr[58] >> p.bit
            &&& rr[60] == mul_w(rr[3], spec_cospi(p.bit, 14))
            &&& rr[61] == add_w(rr[60], spec_rounding(p))
            &&& rr[62] == rr[61] >> p.bit
            &&& rr[63] == mul_w(rr[1], spec_cospi(p.bit, 58))
            &&& rr[64] == add_w(rr[63], spec_rounding(p))
            &&& rr[65] == rr[64] >> p.bit
            &&& rr[66] == mul_w(rr[1], spec_cospi(p.bit, 6))
            &&& rr[67] == add_w(rr[66], spec_rounding(p))
            &&& rr[68] == rr[67] >> p.bit
            &&& rr[69] == add_w(rr[19], rr[47])
            &&& rr[70] == clamp_w(rr[69], p.bd, 6)
            &&& rr[71] == sub_w(rr[19], rr[47])
            &&& rr[72] == clamp_w(rr[71], p.bd, 6)
            &&& rr[73] == add_w(rr[23], rr[50])
            &&& rr[74] == clamp_w(rr[73], p.bd, 6)
            &&& rr[75] == sub_w(rr[23], rr[50])
            &&& rr[76] == clamp_w(rr[75], p.bd, 6)
            &&& rr[77] == add_w(rr[26], rr[53])
            &&& rr[78] == clamp_w(rr[77], p.bd, 6)
            &&& rr[79] == sub_w(rr[26], rr[53])
            &&& rr[80] == clamp_w(rr[79], p.bd, 6)
            &&& rr[81] == add_w(rr[30], rr[56])
            &&& rr[82] == clamp_w(rr[81], p.bd, 6)
            &&& rr[83] == sub_w(rr[30], rr[56])
            &&& rr[84] == clamp_w(rr[83], p.bd, 6)
            &&& rr[85] == add_w(rr[33], rr[59])
            &&& rr[86] == clamp_w(rr[85], p.bd, 6)
            &&& rr[87] == sub_w(rr[33], rr[59])
            &&& rr[88] == clamp_w(rr[87], p.bd, 6)
            &&& rr[89] == add_w(rr[37], rr[62])
            &&& rr[90] == clamp_w(rr[89], p.bd, 6)
            &&& rr[91] == sub_w(rr[37], rr[62])
            &&& rr[92] == clamp_w(rr[91], p.bd, 6)
            &&& rr[93] == add_w(rr[40], rr[65])
            &&& rr[94] == clamp_w(rr[93], p.bd, 6)
            &&& rr[95] == sub_w(rr[40], rr[65])
            &&& rr[96] == clamp_w(rr[95], p.bd, 6)
        }),
{
    reveal(IADST16_LOW8_COL_OPS);
    let ops = IADST16_LOW8_COL_OPS@;
    let r0 = input.push(0);
    lemma_run_ops_len(ops, 268, r0, p);
    reveal(add_w);
    reveal(sub_w);
    reveal(mul_w);
    reveal(clamp_w);
    lemma_run_ops_step(ops, 268, r0, p, 40);
    lemma_run_ops_step(ops, 268, r0, p, 41);
    lemma_run_ops_step(ops, 268, r0, p, 42);
    lemma_run_ops_step(ops, 268, r0, p, 43);
    lemma_run_ops_step(ops, 268, r0, p, 44);
    lemma_run_ops_step(ops, 268, r0, p, 45);
    lemma_run_ops_step(ops, 268, r0, p, 46);
    lemma_run_ops_step(ops, 268, r0, p, 47);
    lemma_run_ops_step(ops, 268, r0, p, 48);
    lemma_run_ops_step(ops, 268, r0, p, 49);
    lemma_run_ops_step(ops, 268, r0, p, 50);
    lemma_run_ops_step(ops, 268, r0, p, 51);
    lemma_run_ops_step(ops, 268, r0, p, 52);
    lemma_run_ops_step(ops, 268, r0, p, 53);
    lemma_run_ops_step(ops, 268, r0, p, 54);
    lemma_run_ops_step(ops, 268, r0, p, 55);
    lemma_run_ops_step(ops, 268, r0, p, 56);
    lemma_run_ops_step(ops, 268, r0, p, 57);
    lemma_run_ops_step(ops, 268, r0, p, 58);
    lemma_run_ops_step(ops, 268, r0, p, 59);
    lemma_run_ops_step(ops, 268, r0, p, 60);
    lemma_run_ops_step(ops, 268, r0, p, 61);
    lemma_run_ops_step(ops, 268, r0, p, 62);
    lemma_run_ops_step(ops, 268, r0, p, 63);
    lemma_run_ops_step(ops, 268, r0, p, 64);
    lemma_run_ops_step(ops, 268, r0, p, 65);
    lemma_run_ops_step(ops, 268, r0, p, 66);
    lemma_run_ops_step(ops, 268, r0, p, 67);
    lemma_run_ops_step(ops, 268, r0, p, 68);
    lemma_run_ops_step(ops, 268, r0, p, 69);
    lemma_run_ops_step(ops, 268, r0, p, 70);
    lemma_run_ops_step(ops, 268, r0, p, 71);
    lemma_run_ops_step(ops, 268, r0, p, 72);
    lemma_run_ops_step(ops, 268, r0, p, 73);
    lemma_run_ops_step(ops, 268, r0, p, 74);
    lemma_run_ops_step(ops, 268, r0, p, 75);
    lemma_run_ops_step(ops, 268, r0, p, 76);
    lemma_run_ops_step(ops, 268, r0, p, 77);
    lemma_run_ops_step(ops, 268, r0, p, 78);
    lemma_run_ops_step(ops, 268, r0, p, 79);
}

proof fn lemma_iadst16_low8_col_regs_2(input: Seq<i32>, p: ButterflyParams)
    requires
        params_ok(p),
        input.len() == 16,
    ensures
        ({
            let rr = run_ops(IADST16_LOW8_COL_OPS@, 268, input.push(0), p);
            &&& rr[97] == add_w(rr[44], rr[68])
            &&& rr[98] == clamp_w(rr[97], p.bd, 6)
            &&& rr[99] == sub_w(rr[44], rr[68])
            &&& rr[100] == clamp_w(rr[99], p.bd, 6)
            &&& rr[101] == mul_w(rr[72], spec_cospi(p.bit, 56))
            &&& rr[102] == mul_w(rr[76], spec_cospi(p.bit, 56))
            &&& rr[103] == mul_w(rr[72], spec_cospi(p.bit, 8))
            &&& rr[104] == add_w(rr[103], rr[102])
            &&& rr[105] == add_w(rr[104], spec_rounding(p))
            &&& rr[106] == rr[105] >> p.bit
            &&& rr[107] == mul_w(rr[76], spec_cospi(p.bit, 8))
            &&& rr[108] == sub_w(rr[101], rr[107])
            &&& rr[109] == add_w(rr[108], spec_rounding(p))
            &&& rr[110] == rr[109] >> p.bit
            &&& rr[111] == mul_w(rr[84], spec_cospi(p.bit, 24))
            &&& rr[112] == mul_w(rr[80], spec_cospi(p.bit, 24))
            &&& rr[113] == mul_w(rr[80], spec_cospi(p.bit, 40))
            &&& rr[114] == add_w(rr[113], rr[111])
            &&& rr[115] == add_w(rr[114], spec_rounding(p))
            &&& rr[116] == rr[115] >> p.bit
            &&& rr[117] == mul_w(rr[84], spec_cospi(p.bit, 40))
            &&& rr[118] == sub_w(rr[112], rr[117])
            &&& rr[119] == add_w(rr[118], spec_rounding(p))
            &&& rr[120] == rr[119] >> p.bit
            &&& rr[121] == mul_w(rr[92], spec_cospi(p.bit, 8))
            &&& rr[122] == mul_w(rr[88], spec_cospi(p.bit, 8))
            &&& rr[123] == mul_w(rr[88], sub_w(0, spec_cospi(p.bit, 56)))
            &&& rr[124] == add_w(rr[123], rr[121])
            &&& rr[125] == add_w(rr[124], spec_rounding(p))
            &&& rr[126] == rr[125] >> p.bit
            &&& rr[127] == mul_w(rr[92], sub_w(0, spec_cospi(p.bit, 56)))
            &&& rr[128] == sub_w(rr[122], rr[127])
            &&& rr[129] == add_w(rr[128], spec_rounding(p))
            &&& rr[130] == rr[129] >> p.bit
            &&& rr[131] == mul_w(rr[100], spec_cospi(p.bit, 40))
            &&& rr[132] == mul_w(rr[96], spec_cospi(p.bit, 40))
            &&& rr[133] == mul_w(rr[96], sub_w(0, spec_cospi(p.bit, 24)))
            &&& rr[134] == add_w(rr[133], rr[131])
            &&& rr[135] == add_w(rr[134], spec_rounding(p))
            &&& rr[136] == rr[135] >> p.bit
        }),
{
    reveal(IADST16_LOW8_COL_OPS);
    let ops = IADST16_LOW8_COL_OPS@;
    let r0 = input.push(0);
    lemma_run_ops_len(ops, 268, r0, p);
    reveal(add_w);
    reveal(sub_w);
    reveal(mul_w);
    reveal(clamp_w);
    lemma_run_ops_step(ops, 268, r0, p, 80);
    lemma_run_ops_step(ops, 268, r0, p, 81);
    lemma_run_ops_step(ops, 268, r0, p, 82);
    lemma_run_ops_step(ops, 268, r0, p, 83);
    lemma_run_ops_step(ops, 268, r0, p, 84);
    lemma_run_ops_step(ops, 268, r0, p, 85);
    lemma_run_ops_step(ops, 268, r0, p, 86);
    lemma_run_ops_step(ops, 268, r0, p, 87);
    lemma_run_ops_step(ops, 268, r0, p, 88);
    lemma_run_ops_step(ops, 268, r0, p, 89);
    lemma_run_ops_step(ops, 268, r0, p, 90);
    lemma_run_ops_step(ops, 268, r0, p, 91);
    lemma_run_ops_step(ops, 268, r0, p, 92);
    lemma_run_ops_step(ops, 268, r0, p, 93);
    lemma_run_ops_step(ops, 268, r0, p, 94);
    lemma_run_ops_step(ops, 268, r0, p, 95);
    lemma_run_ops_step(ops, 268, r0, p, 96);
    lemma_run_ops_step(ops, 268, r0, p, 97);
    lemma_run_ops_step(ops, 268, r0, p, 98);
    lemma_run_ops_step(ops, 268, r0, p, 99);
    lemma_run_ops_step(ops, 268, r0, p, 100);
    lemma_run_ops_step(ops, 268, r0, p, 101);
    lemma_run_ops_step(ops, 268, r0, p, 102);
    lemma_run_ops_step(ops, 268, r0, p, 103);
    lemma_run_ops_step(ops, 268, r0, p, 104);
    lemma_run_ops_step(ops, 268, r0, p, 105);
    lemma_run_ops_step(ops, 268, r0, p, 106);
    lemma_run_ops_step(ops, 268, r0, p, 107);
    lemma_run_ops_step(ops, 268, r0, p, 108);
    lemma_run_ops_step(ops, 268, r0, p, 109);
    lemma_run_ops_step(ops, 268, r0, p, 110);
    lemma_run_ops_step(ops, 268, r0, p, 111);
    lemma_run_ops_step(ops, 268, r0, p, 112);
    lemma_run_ops_step(ops, 268, r0, p, 113);
    lemma_run_ops_step(ops, 268, r0, p, 114);
    lemma_run_ops_step(ops, 268, r0, p, 115);
    lemma_run_ops_step(ops, 268, r0, p, 116);
    lemma_run_ops_step(ops, 268, r0, p, 117);
    lemma_run_ops_step(ops, 268, r0, p, 118);
    lemma_run_ops_step(ops, 268, r0, p, 119);
}

proof fn lemma_iadst16_low8_col_regs_3(input: Seq<i32>, p: ButterflyParams)
    requires
        params_ok(p),
        input.len() == 16,
    ensures
        ({
            let rr = run_ops(IADST16_LOW8_COL_OPS@, 268, input.push(0), p);
            &&& rr[137] == mul_w(rr[100], sub_w(0, spec_cospi(p.bit, 24)))
            &&& rr[138] == sub_w(rr[132], rr[137])
            &&& rr[139] == add_w(rr[138], spec_rounding(p))
            &&& rr[140] == rr[139] >> p.bit
            &&& rr[141] == add_w(rr[70], rr[86])
            &&& rr[142] == clamp_w(rr[141], p.bd, 6)
            &&& rr[143] == sub_w(rr[70], rr[86])
            &&& rr[144] == clamp_w(rr[143], p.bd, 6)
            &&& rr[145] == add_w(rr[74], rr[90])
            &&& rr[146] == clamp_w(rr[145], p.bd, 6)
            &&& rr[147] == sub_w(rr[74], rr[90])
            &&& rr[148] == clamp_w(rr[147], p.bd, 6)
            &&& rr[149] == add_w(rr[78], rr[94])
            &&& rr[150] == clamp_w(rr[149], p.bd, 6)
            &&& rr[151] == sub_w(rr[78], rr[94])
            &&& rr[152] == clamp_w(rr[151], p.bd, 6)
            &&& rr[153] == add_w(rr[82], rr[98])
            &&& rr[154] == clamp_w(rr[153], p.bd, 6)
            &&& rr[155] == sub_w(rr[82], rr[98])
            &&& rr[156] == clamp_w(rr[155], p.bd, 6)
            &&& rr[157] == add_w(rr[106], rr[126])
            &&& rr[158] == clamp_w(rr[157], p.bd, 6)
            &&& rr[159] == sub_w(rr[106], rr[126])
            &&& rr[160] == clamp_w(rr[159], p.bd, 6)
            &&& rr[161] == add_w(rr[110], rr[130])
            &&& rr[162] == clamp_w(rr[161], p.bd, 6)
            &&& rr[163] == sub_w(rr[110], rr[130])
            &&& rr[164] == clamp_w(rr[163], p.bd, 6)
            &&& rr[165] == add_w(rr[116], rr[136])
            &&& rr[166] == clamp_w(rr[165], p.bd, 6)
            &&& rr[167] == sub_w(rr[116], rr[136])
            &&& rr[168] == clamp_w(rr[167], p.bd, 6)
            &&& rr[169] == add_w(rr[120], rr[140])
            &&& rr[170] == clamp_w(rr[169], p.bd, 6)
            &&& rr[171] == sub_w(rr[120], rr[140])
            &&& rr[172] == clamp_w(rr[171], p.bd, 6)
            &&& rr[173] == mul_w(rr[148], spec_cospi(p.bit, 48))
            &&& rr[174] == mul_w(rr[144], spec_cospi(p.bit, 48))
            &&& rr[175] == mul_w(rr[144], spec_cospi(p.bit, 16))
            &&& rr[176] == add_w(rr[175], rr[173])
        }),
{
    reveal(IADST16_LOW8_COL_OPS);
    let ops = IADST16_LOW8_COL_OPS@;
    let r0 = input.push(0);
    lemma_run_ops_len(ops, 268, r0, p);
    reveal(add_w);
    reveal(sub_w);
    reveal(mul_w);
    reveal(clamp_w);
    lemma_run_ops_step(ops, 268, r0, p, 120);
    lemma_run_ops_step(ops, 268, r0, p, 121);
    lemma_run_ops_step(ops, 268, r0, p, 122);
    lemma_run_ops_step(ops, 268, r0, p, 123);
    lemma_run_ops_step(ops, 268, r0, p, 124);
    lemma_run_ops_step(ops, 268, r0, p, 125);
    lemma_run_ops_step(ops, 268, r0, p, 126);
    lemma_run_ops_step(ops, 268, r0, p, 127);
    lemma_run_ops_step(ops, 268, r0, p, 128);
    lemma_run_ops_step(ops, 268, r0, p, 129);
    lemma_run_ops_step(ops, 268, r0, p, 130);
    lemma_run_ops_step(ops, 268, r0, p, 131);
    lemma_run_ops_step(ops, 268, r0, p, 132);
    lemma_run_ops_step(ops, 268, r0, p, 133);
    lemma_run_ops_step(ops, 268, r0, p, 134);
    lemma_run_ops_step(ops, 268, r0, p, 135);
    lemma_run_ops_step(ops, 268, r0, p, 136);
    lemma_run_ops_step(ops, 268, r0, p, 137);
    lemma_run_ops_step(ops, 268, r0, p, 138);
    lemma_run_ops_step(ops, 268, r0, p, 139);
    lemma_run_ops_step(ops, 268, r0, p, 140);
    lemma_run_ops_step(ops, 268, r0, p, 141);
    lemma_run_ops_step(ops, 268, r0, p, 142);
    lemma_run_ops_step(ops, 268, r0, p, 143);
    lemma_run_ops_step(ops, 268, r0, p, 144);
    lemma_run_ops_step(ops, 268, r0, p, 145);
    lemma_run_ops_step(ops, 268, r0, p, 146);
    lemma_run_ops_step(ops, 268, r0, p, 147);
    lemma_run_ops_step(ops, 268, r0, p, 148);
    lemma_run_ops_step(ops, 268, r0, p, 149);
    lemma_run_ops_step(ops, 268, r0, p, 150);
    lemma_run_ops_step(ops, 268, r0, p, 151);
    lemma_run_ops_step(ops, 268, r0, p, 152);
    lemma_run_ops_step(ops, 268, r0, p, 153);
    lemma_run_ops_step(ops, 268, r0, p, 154);
    lemma_run_ops_step(ops, 268, r0, p, 155);
    lemma_run_ops_step(ops, 268, r0, p, 156);
    lemma_run_ops_step(ops, 268, r0, p, 157);
    lemma_run_ops_step(ops, 268, r0, p, 158);
    lemma_run_ops_step(ops, 268, r0, p, 159);
}

proof fn lemma_iadst16_low8_col_regs_4(input: Seq<i32>, p: ButterflyParams)
    requires
        params_ok(p),
        input.len() == 16,
    ensures
        ({
            let rr = run_ops(IADST16_LOW8_COL_OPS@, 268, input.push(0), p);
            &&& rr[177] == add_w(rr[176], spec_rounding(p))
            &&& rr[178] == rr[177] >> p.bit
            &&& rr[179] == mul_w(rr[148], spec_cospi(p.bit, 16))
            &&& rr[180] == sub_w(rr[174], rr[179])
            &&& rr[181] == add_w(rr[180], spec_rounding(p))
            &&& rr[182] == rr[181] >> p.bit
            &&& rr[183] == mul_w(rr[156], spec_cospi(p.bit, 16))
            &&& rr[184] == mul_w(rr[152], spec_cospi(p.bit, 16))
            &&& rr[185] == mul_w(rr[152], sub_w(0, spec_cospi(p.bit, 48)))
            &&& rr[186] == add_w(rr[185], rr[183])
            &&& rr[187] == add_w(rr[186], spec_rounding(p))
            &&& rr[188] == rr[187] >> p.bit
            &&& rr[189] == mul_w(rr[156], sub_w(0, spec_cospi(p.bit, 48)))
            &&& rr[190] == sub_w(rr[184], rr[189])
            &&& rr[191] == add_w(rr[190], spec_rounding(p))
            &&& rr[192] == rr[191] >> p.bit
            &&& rr[193] == mul_w(rr[164], spec_cospi(p.bit, 48))
            &&& rr[194] == mul_w(rr[160], spec_cospi(p.bit, 48))
            &&& rr[195] == mul_w(rr[160], spec_cospi(p.bit, 16))
            &&& rr[196] == add_w(rr[195], rr[193])
            &&& rr[197] == add_w(rr[196], spec_rounding(p))
            &&& rr[198] == rr[197] >> p.bit
            &&& rr[199] == mul_w(rr[164], spec_cospi(p.bit, 16))
            &&& rr[200] == sub_w(rr[194], rr[199])
            &&& rr[201] == add_w(rr[200], spec_rounding(p))
            &&& rr[202] == rr[201] >> p.bit
            &&& rr[203] == mul_w(rr[172], spec_cospi(p.bit, 16))
            &&& rr[204] == mul_w(rr[168], spec_cospi(p.bit, 16))
            &&& rr[205] == mul_w(rr[168], sub_w(0, spec_cospi(p.bit, 48)))
            &&& rr[206] == add_w(rr[205], rr[203])
            &&& rr[207] == add_w(rr[206], spec_rounding(p))
            &&& rr[208] == rr[207] >> p.bit
            &&& rr[209] == mul_w(rr[172], sub_w(0, spec_cospi(p.bit, 48)))
            &&& rr[210] == sub_w(rr[204], rr[209])
            &&& rr[211] == add_w(rr[210], spec_rounding(p))
            &&& rr[212] == rr[211] >> p.bit
            &&& rr[213] == add_w(rr[142], rr[150])
            &&& rr[214] == clamp_w(rr[213], p.bd, 6)
            &&& rr[215] == sub_w(rr[142], rr[150])
            &&& rr[216] == clamp_w(rr[215], p.bd, 6)
        }),
{
    reveal(IADST16_LOW8_COL_OPS);
    let ops = IADST16_LOW8_COL_OPS@;
    let r0 = input.push(0);
    lemma_run_ops_len(ops, 268, r0, p);
    reveal(add_w);
    reveal(sub_w);
    reveal(mul_w);
    reveal(clamp_w);
    lemma_run_ops_step(ops, 268, r0, p, 160);
    lemma_run_ops_step(ops, 268, r0, p, 161);
    lemma_run_ops_step(ops, 268, r0, p, 162);
    lemma_run_ops_step(ops, 268, r0, p, 163);
    lemma_run_ops_step(ops, 268, r0, p, 164);
    lemma_run_ops_step(ops, 268, r0, p, 165);
    lemma_run_ops_step(ops, 268, r0, p, 166);
    lemma_run_ops_step(ops, 268, r0, p, 167);
    lemma_run_ops_step(ops, 268, r0, p, 168);
    lemma_run_ops_step(ops, 268, r0, p, 169);
    lemma_run_ops_step(ops, 268, r0, p, 170);
    lemma_run_ops_step(ops, 268, r0, p, 171);
    lemma_run_ops_step(ops, 268, r0, p, 172);
    lemma_run_ops_step(ops, 268, r0, p, 173);
    lemma_run_ops_step(ops, 268, r0, p, 174);
    lemma_run_ops_step(ops, 268, r0, p, 175);
    lemma_run_ops_step(ops, 268, r0, p, 176);
    lemma_run_ops_step(ops, 268, r0, p, 177);
    lemma_run_ops_step(ops, 268, r0, p, 178);
    lemma_run_ops_step(ops, 268, r0, p, 179);
    lemma_run_ops_step(ops, 268, r0, p, 180);
    lemma_run_ops_step(ops, 268, r0, p, 181);
    lemma_run_ops_step(ops, 268, r0, p, 182);
    lemma_run_ops_step(ops, 268, r0, p, 183);
    lemma_run_ops_step(ops, 268, r0, p, 184);
    lemma_run_ops_step(ops, 268, r0, p, 185);
    lemma_run_ops_step(ops, 268, r0, p, 186);
    lemma_run_ops_step(ops, 268, r0, p, 187);
    lemma_run_ops_step(ops, 268, r0, p, 188);
    lemma_run_ops_step(ops, 268, r0, p, 189);
    lemma_run_ops_step(ops, 268, r0, p, 190);
    lemma_run_ops_step(ops, 268, r0, p, 191);
    lemma_run_ops_step(ops, 268, r0, p, 192);
    lemma_run_ops_step(ops, 268, r0, p, 193);
    lemma_run_ops_step(ops, 268, r0, p, 194);
    lemma_run_ops_step(ops, 268, r0, p, 195);
    lemma_run_ops_step(ops, 268, r0, p, 196);
    lemma_run_ops_step(ops, 268, r0, p, 197);
    lemma_run_ops_step(ops, 268, r0, p, 198);
    lemma_run_ops_step(ops, 268, r0, p, 199);
}

proof fn lemma_iadst16_low8_col_regs_5(input: Seq<i32>, p: ButterflyParams)
    requires
        params_ok(p),
        input.len() == 16,
    ensures
        ({
            let rr = run_ops(IADST16_LOW8_COL_OPS@, 268, input.push(0), p);
            &&& rr[217] == add_w(rr[146], rr[154])
            &&& rr[218] == clamp_w(rr[217], p.bd, 6)
            &&& rr[219] == sub_w(rr[146], rr[154])
            &&& rr[220] == clamp_w(rr[219], p.bd, 6)
            &&& rr[221] == add_w(rr[178], rr[188])
            &&& rr[222] == clamp_w(rr[221], p.bd, 6)
            &&& rr[223] == sub_w(rr[178], rr[188])
            &&& rr[224] == clamp_w(rr[223], p.bd, 6)
            &&& rr[225] == add_w(rr[182], rr[192])
            &&& rr[226] == clamp_w(rr[225], p.bd, 6)
            &&& rr[227] == sub_w(rr[182], rr[192])
            &&& rr[228] == clamp_w(rr[227], p.bd, 6)
            &&& rr[229] == add_w(rr[158], rr[166])
            &&& rr[230] == clamp_w(rr[229], p.bd, 6)
            &&& rr[231] == sub_w(rr[158], rr[166])
            &&& rr[232] == clamp_w(rr[231], p.bd, 6)
            &&& rr[233] == add_w(rr[162], rr[170])
            &&& rr[234] == clamp_w(rr[233], p.bd, 6)
            &&& rr[235] == sub_w(rr[162], rr[170])
            &&& rr[236] == clamp_w(rr[235], p.bd, 6)
            &&& rr[237] == add_w(rr[198], rr[208])
            &&& rr[238] == clamp_w(rr[237], p.bd, 6)
            &&& rr[239] == sub_w(rr[198], rr[208])
            &&& rr[240] == clamp_w(rr[239], p.bd, 6)
            &&& rr[241] == add_w(rr[202], rr[212])
            &&& rr[242] == clamp_w(rr[241], p.bd, 6)
            &&& rr[243] == sub_w(rr[202], rr[212])
            &&& rr[244] == clamp_w(rr[243], p.bd, 6)
            &&& rr[245] == mul_w(rr[216], spec_cospi(p.bit, 32))
            &&& rr[246] == mul_w(rr[220], spec_cospi(p.bit, 32))
            &&& rr[247] == add_w(rr[245], rr[246])
            &&& rr[248] == add_w(rr[247], spec_rounding(p))
            &&& rr[249] == rr[248] >> p.bit
            &&& rr[250] == sub_w(rr[245], rr[246])
            &&& rr[251] == add_w(rr[250], spec_rounding(p))
            &&& rr[252] == rr[251] >> p.bit
            &&& rr[253] == mul_w(rr[224], spec_cospi(p.bit, 32))
            &&& rr[254] == mul_w(rr[228], spec_cospi(p.bit, 32))
            &&& rr[255] == add_w(rr[253], rr[254])
            &&& rr[256] == add_w(rr[255], spec_rounding(p))
        }),
{
    reveal(IADST16_LOW8_COL_OPS);
    let ops = IADST16_LOW8_COL_OPS@;
    let r0 = input.push(0);
    lemma_run_ops_len(ops, 268, r0, p);
    reveal(add_w);
    reveal(sub_w);
    reveal(mul_w);
    reveal(clamp_w);
    lemma_run_ops_step(ops, 268, r0, p, 200);
    lemma_run_ops_step(ops, 268, r0, p, 201);
    lemma_run_ops_step(ops, 268, r0, p, 202);
    lemma_run_ops_step(ops, 268, r0, p, 203);
    lemma_run_ops_step(ops, 268, r0, p, 204);
    lemma_run_ops_step(ops, 268, r0, p, 205);
    lemma_run_ops_step(ops, 268, r0, p, 206);
    lemma_run_ops_step(ops, 268, r0, p, 207);
    lemma_run_ops_step(ops, 268, r0, p, 208);
    lemma_run_ops_step(ops, 268, r0, p, 209);
    lemma_run_ops_step(ops, 268, r0, p, 210);
    lemma_run_ops_step(ops, 268, r0, p, 211);
    lemma_run_ops_step(ops, 268, r0, p, 212);
    lemma_run_ops_step(ops, 268, r0, p, 213);
    lemma_run_ops_step(ops, 268, r0, p, 214);
    lemma_run_ops_step(ops, 268, r0, p, 215);
    lemma_run_ops_step(ops, 268, r0, p, 216);
    lemma_run_ops_step(ops, 268, r0, p, 217);
    lemma_run_ops_step(ops, 268, r0, p, 218);
    lemma_run_ops_step(ops, 268, r0, p, 219);
    lemma_run_ops_step(ops, 268, r0, p, 220);
    lemma_run_ops_step(ops, 268, r0, p, 221);
    lemma_run_ops_step(ops, 268, r0, p, 222);
    lemma_run_ops_step(ops, 268, r0, p, 223);
    lemma_run_ops_step(ops, 268, r0, p, 224);
    lemma_run_ops_step(ops, 268, r0, p, 225);
    lemma_run_ops_step(ops, 268, r0, p, 226);
    lemma_run_ops_step(ops, 268, r0, p, 227);
    lemma_run_ops_step(ops, 268, r0, p, 228);
    lemma_run_ops_step(ops, 268, r0, p, 229);
    lemma_run_ops_step(ops, 268, r0, p, 230);
    lemma_run_ops_step(ops, 268, r0, p, 231);
    lemma_run_ops_step(ops, 268, r0, p, 232);
    lemma_run_ops_step(ops, 268, r0, p, 233);
    lemma_run_ops_step(ops, 268, r0, p, 234);
    lemma_run_ops_step(ops, 268, r0, p, 235);
    lemma_run_ops_step(ops, 268, r0, p, 236);
    lemma_run_ops_step(ops, 268, r0, p, 237);
    lemma_run_ops_step(ops, 268, r0, p, 238);
    lemma_run_ops_step(ops, 268, r0, p, 239);
}

proof fn lemma_iadst16_low8_col_regs_6(input: Seq<i32>, p: ButterflyParams)
    requires
        params_ok(p),
        input.len() == 16,
    ensures
        ({
            let rr = run_ops(IADST16_LOW8_COL_OPS@, 268, input.push(0), p);
            &&& rr[257] == rr[256] >> p.bit
            &&& rr[258] == sub_w(rr[253], rr[254])
            &&& rr[259] == add_w(rr[258], spec_rounding(p))
            &&& rr[260] == rr[259] >> p.bit
            &&& rr[261] == mul_w(rr[232], spec_cospi(p.bit, 32))
            &&& rr[262] == mul_w(rr[236], spec_cospi(p.bit, 32))
            &&& rr[263] == add_w(rr[261], rr[262])
            &&& rr[264] == add_w(rr[263], spec_rounding(p))
            &&& rr[265] == rr[264] >> p.bit
            &&& rr[266] == sub_w(rr[261], rr[262])
            &&& rr[267] == add_w(rr[266], spec_rounding(p))
            &&& rr[268] == rr[267] >> p.bit
            &&& rr[269] == mul_w(rr[240], spec_cospi(p.bit, 32))
            &&& rr[270] == mul_w(rr[244], spec_cospi(p.bit, 32))
            &&& rr[271] == add_w(rr[269], rr[270])
            &&& rr[272] == add_w(rr[271], spec_rounding(p))
            &&& rr[273] == rr[272] >> p.bit
            &&& rr[274] == sub_w(rr[269], rr[270])
            &&& rr[275] == add_w(rr[274], spec_rounding(p))
            &&& rr[276] == rr[275] >> p.bit
            &&& rr[277] == sub_w(rr[16], rr[230])
            &&& rr[278] == sub_w(rr[16], rr[222])
            &&& rr[279] == sub_w(rr[16], rr[273])
            &&& rr[280] == sub_w(rr[16], rr[249])
            &&& rr[281] == sub_w(rr[16], rr[268])
            &&& rr[282] == sub_w(rr[16], rr[260])
            &&& rr[283] == sub_w(rr[16], rr[242])
            &&& rr[284] == sub_w(rr[16], rr[218])
        }),
{
    reveal(IADST16_LOW8_COL_OPS);
    let ops = IADST16_LOW8_COL_OPS@;
    let r0 = input.push(0);
    lemma_run_ops_len(ops, 268, r0, p);
    reveal(add_w);
    reveal(sub_w);
    reveal(mul_w);
    lemma_run_ops_step(ops, 268, r0, p, 240);
    lemma_run_ops_step(ops, 268, r0, p, 241);
    lemma_run_ops_step(ops, 268, r0, p, 242);
    lemma_run_ops_step(ops, 268, r0, p, 243);
    lemma_run_ops_step(ops, 268, r0, p, 244);
    lemma_run_ops_step(ops, 268, r0, p, 245);
    lemma_run_ops_step(ops, 268, r0, p, 246);
    lemma_run_ops_step(ops, 268, r0, p, 247);
    lemma_run_ops_step(ops, 268, r0, p, 248);
    lemma_run_ops_step(ops, 268, r0, p, 249);
    lemma_run_ops_step(ops, 268, r0, p, 250);
    lemma_run_ops_step(ops, 268, r0, p, 251);
    lemma_run_ops_step(ops, 268, r0, p, 252);
    lemma_run_ops_step(ops, 268, r0, p, 253);
    lemma_run_ops_step(ops, 268, r0, p, 254);
    lemma_run_ops_step(ops, 268, r0, p, 255);
    lemma_run_ops_step(ops, 268, r0, p, 256);
    lemma_run_ops_step(ops, 268, r0, p, 257);
    lemma_run_ops_step(ops, 268, r0, p, 258);
    lemma_run_ops_step(ops, 268, r0, p, 259);
    lemma_run_ops_step(ops, 268, r0, p, 260);
    lemma_run_ops_step(ops, 268, r0, p, 261);
    lemma_run_ops_step(ops, 268, r0, p, 262);
    lemma_run_ops_step(ops, 268, r0, p, 263);
    lemma_run_ops_step(ops, 268, r0, p, 264);
    lemma_run_ops_step(ops, 268, r0, p, 265);
    lemma_run_ops_step(ops, 268, r0, p, 266);
    lemma_run_ops_step(ops, 268, r0, p, 267);
}

/// The column pass of the 16-point inverse ADST of a lane whose coefficients past the first 8 are zero computes its stages.
#[verifier::rlimit(100)]
pub proof fn law_iadst16_low8_col_stages(input: Seq<i32>, p: ButterflyParams)
    requires
        params_ok(p),
        input.len() == 16,
    ensures
        kernel_output(TxfmKernel::Iadst16Low8, true, input, p) == spec_iadst16_low8_col(input, p),
{
    reveal(IADST16_LOW8_COL_OUTS);
    let ops = IADST16_LOW8_COL_OPS@;
    let r0 = input.push(0);
    lemma_run_ops_len(ops, 268, r0, p);
    let rr = run_ops(ops, 268, r0, p);
    assert forall|k: int| 0 <= k < 17 implies rr[k] == r0[k] by {
        lemma_run_ops_prefix(ops, 0, 268, r0, p, k);
    }
    lemma_iadst16_low8_col_regs_0(input, p);
    lemma_iadst16_low8_col_regs_1(input, p);
    lemma_iadst16_low8_col_regs_2(input, p);
    lemma_iadst16_low8_col_regs_3(input, p);
    lemma_iadst16_low8_col_regs_4(input, p);
    lemma_iadst16_low8_col_regs_5(input, p);
    lemma_iadst16_low8_col_regs_6(input, p);
    assert(kernel_output(TxfmKernel::Iadst16Low8, true, input, p) =~= spec_iadst16_low8_col(input, p));
}

proof fn lemma_iadst16_low8_row_regs_0(input: Seq<i32>, p: ButterflyParams)
    requires
        params_ok(p),
        input.len() == 16,
    ensures
        ({
            let rr = run_ops(IADST16_LOW8_ROW_OPS@, 308, input.push(0), p);
            &&& rr[17] == mul_w(rr[0], spec_cospi(p.bit, 62))
            &&& rr[18] == add_w(rr[17], spec_rounding(p))
            &&& rr[19] == rr[18] >> p.bit
            &&& rr[20] == mul_w(rr[0], spec_cospi(p.bit, 2))
            &&& rr[21] == sub_w(rr[16], rr[20])
            &&& rr[22] == add_w(rr[21], spec_rounding(p))
            &&& rr[23] == rr[22] >> p.bit
            &&& rr[24] == mul_w(rr[2], spec_cospi(p.bit, 54))
            &&& rr[25] == add_w(rr[24], spec_rounding(p))
            &&& rr[26] == rr[25] >> p.bit
            &&& rr[27] == mul_w(rr[2], spec_cospi(p.bit, 10))
            &&& rr[28] == sub_w(rr[16], rr[27])
            &&& rr[29] == add_w(rr[28], spec_rounding(p))
            &&& rr[30] == rr[29] >> p.bit
            &&& rr[31] == mul_w(rr[4], spec_cospi(p.bit, 46))
            &&& rr[32] == add_w(rr[31], spec_rounding(p))
            &&& rr[33] == rr[32] >> p.bit
            &&& rr[34] == mul_w(rr[4], spec_cospi(p.bit, 18))
            &&& rr[35] == sub_w(rr[16], rr[34])
            &&& rr[36] == add_w(rr[35], spec_rounding(p))
            &&& rr[37] == rr[36] >> p.bit
            &&& rr[38] == mul_w(rr[6], spec_cospi(p.bit, 38))
            &&& rr[39] == add_w(rr[38], spec_rounding(p))
            &&& rr[40] == rr[39] >> p.bit
            &&& rr[41] == mul_w(rr[6], spec_cospi(p.bit, 26))
            &&& rr[42] == sub_w(rr[16], rr[41])
            &&& rr[43] == add_w(rr[42], spec_rounding(p))
            &&& rr[44] == rr[43] >> p.bit
            &&& rr[45] == mul_w(rr[7], spec_cospi(p.bit, 34))
            &&& rr[46] == add_w(rr[45], spec_rounding(p))
            &&& rr[47] == rr[46] >> p.bit
            &&& rr[48] == mul_w(rr[7], spec_cospi(p.bit, 30))
            &&& rr[49] == add_w(rr[48], spec_rounding(p))
            &&& rr[50] == rr[49] >> p.bit
            &&& rr[51] == mul_w(rr[5], spec_cospi(p.bit, 42))
            &&& rr[52] == add_w(rr[51], spec_rounding(p))
            &&& rr[53] == rr[52] >> p.bit
            &&& rr[54] == mul_w(rr[5], spec_cospi(p.bit, 22))
            &&& rr[55] == add_w(rr[54], spec_rounding(p))
            &&& rr[56] == rr[55] >> p.bit
        }),
{
    reveal(IADST16_LOW8_ROW_OPS);
    let ops = IADST16_LOW8_ROW_OPS@;
    let r0 = input.push(0);
    lemma_run_ops_len(ops, 308, r0, p);
    reveal(add_w);
    reveal(sub_w);
    reveal(mul_w);
    lemma_run_ops_step(ops, 308, r0, p, 0);
    lemma_run_ops_step(ops, 308, r0, p, 1);
    lemma_run_ops_step(ops, 308, r0, p, 2);
    lemma_run_ops_step(ops, 308, r0, p, 3);
    lemma_run_ops_step(ops, 308, r0, p, 4);
    lemma_run_ops_step(ops, 308, r0, p, 5);
    lemma_run_ops_step(ops, 308, r0, p, 6);
    lemma_run_ops_step(ops, 308, r0, p, 7);
    lemma_run_ops_step(ops, 308, r0, p, 8);
    lemma_run_ops_step(ops, 308, r0, p, 9);
    lemma_run_ops_step(ops, 308, r0, p, 10);
    lemma_run_ops_step(ops, 308, r0, p, 11);
    lemma_run_ops_step(ops, 308, r0, p, 12);
    lemma_run_ops_step(ops, 308, r0, p, 13);
    lemma_run_ops_step(ops, 308, r0, p, 14);
    lemma_run_ops_step(ops, 308, r0, p, 15);
    lemma_run_ops_step(ops, 308, r0, p, 16);
    lemma_run_ops_step(ops, 308, r0, p, 17);
    lemma_run_ops_step(ops, 308, r0, p, 18);
    lemma_run_ops_step(ops, 308, r0, p, 19);
    lemma_run_ops_step(ops, 308, r0, p, 20);
    lemma_run_ops_step(ops, 308, r0, p, 21);
    lemma_run_ops_step(ops, 308, r0, p, 22);
    lemma_run_ops_step(ops, 308, r0, p, 23);
    lemma_run_ops_step(ops, 308, r0, p, 24);
    lemma_run_ops_step(ops, 308, r0, p, 25);
    lemma_run_ops_step(ops, 308, r0, p, 26);
    lemma_run_ops_step(ops, 308, r0, p, 27);
    lemma_run_ops_step(ops, 308, r0, p, 28);
    lemma_run_ops_step(ops, 308, r0, p, 29);
    lemma_run_ops_step(ops, 308, r0, p, 30);
    lemma_run_ops_step(ops, 308, r0, p, 31);
    lemma_run_ops_step(ops, 308, r0, p, 32);
    lemma_run_ops_step(ops, 308, r0, p, 33);
    lemma_run_ops_step(ops, 308, r0, p, 34);
    lemma_run_ops_step(ops, 308, r0, p, 35);
    lemma_run_ops_step(ops, 308, r0, p, 36);
    lemma_run_ops_step(ops, 308, r0, p, 37);
    lemma_run_ops_step(ops, 308, r0, p, 38);
    lemma_run_ops_step(ops, 308, r0, p, 39);
}

proof fn lemma_iadst16_low8_row_regs_1(input: Seq<i32>, p: ButterflyParams)
    requires
        params_ok(p),
        input.len() == 16,
    ensures
        ({
            let rr = run_ops(IADST16_LOW8_ROW_OPS@, 308, input.push(0), p);
            &&& rr[57] == mul_w(rr[3], spec_cospi(p.bit, 50))
            &&& rr[58] == add_w(rr[57], spec_rounding(p))
            &&& rr[59] == rr[58] >> p.bit
            &&& rr[60] == mul_w(rr[3], spec_cospi(p.bit, 14))
            &&& rr[61] == add_w(rr[60], spec_rounding(p))
            &&& rr[62] == rr[61] >> p.bit
            &&& rr[63] == mul_w(rr[1], spec_cospi(p.bit, 58))
            &&& rr[64] == add_w(rr[63], spec_rounding(p))
            &&& rr[65] == rr[64] >> p.bit
            &&& rr[66] == mul_w(rr[1], spec_cospi(p.bit, 6))
            &&& rr[67] == add_w(rr[66], spec_rounding(p))
            &&& rr[68] == rr[67] >> p.bit
            &&& rr[69] == add_w(rr[19], rr[47])
            &&& rr[70] == clamp_w(rr[69], p.bd, 8)
            &&& rr[71] == sub_w(rr[19], rr[47])
            &&& rr[72] == clamp_w(rr[71], p.bd, 8)
            &&& rr[73] == add_w(rr[23], rr[50])
            &&& rr[74] == clamp_w(rr[73], p.bd, 8)
            &&& rr[75] == sub_w(rr[23], rr[50])
            &&& rr[76] == clamp_w(rr[75], p.bd, 8)
            &&& rr[77] == add_w(rr[26], rr[53])
            &&& rr[78] == clamp_w(rr[77], p.bd, 8)
            &&& rr[79] == sub_w(rr[26], rr[53])
            &&& rr[80] == clamp_w(rr[79], p.bd, 8)
            &&& rr[81] == add_w(rr[30], rr[56])
            &&& rr[82] == clamp_w(rr[81], p.bd, 8)
            &&& rr[83] == sub_w(rr[30], rr[56])
            &&& rr[84] == clamp_w(rr[83], p.bd, 8)
            &&& rr[85] == add_w(rr[33], rr[59])
            &&& rr[86] == clamp_w(rr[85], p.bd, 8)
            &&& rr[87] == sub_w(rr[33], rr[59])
            &&& rr[88] == clamp_w(rr[87], p.bd, 8)
            &&& rr[89] == add_w(rr[37], rr[62])
            &&& rr[90] == clamp_w(rr[89], p.bd, 8)
            &&& rr[91] == sub_w(rr[37], rr[62])
            &&& rr[92] == clamp_w(rr[91], p.bd, 8)
            &&& rr[93] == add_w(rr[40], rr[65])
            &&& rr[94] == clamp_w(rr[93], p.bd, 8)
            &&& rr[95] == sub_w(rr[40], rr[65])
            &&& rr[96] == clamp_w(rr[95], p.bd, 8)
        }),
{
    reveal(IADST16_LOW8_ROW_OPS);
    let ops = IADST16_LOW8_ROW_OPS@;
    let r0 = input.push(0);
    lemma_run_ops_len(ops, 308, r0, p);
    reveal(add_w);
    reveal(sub_w);
    reveal(mul_w);
    reveal(clamp_w);
    lemma_run_ops_step(ops, 308, r0, p, 40);
    lemma_run_ops_step(ops, 308, r0, p, 41);
    lemma_run_ops_step(ops, 308, r0, p, 42);
    lemma_run_ops_step(ops, 308, r0, p, 43);
    lemma_run_ops_step(ops, 308, r0, p, 44);
    lemma_run_ops_step(ops, 308, r0, p, 45);
    lemma_run_ops_step(ops, 308, r0, p, 46);
    lemma_run_ops_step(ops, 308, r0, p, 47);
    lemma_run_ops_step(ops, 308, r0, p, 48);
    lemma_run_ops_step(ops, 308, r0, p, 49);
    lemma_run_ops_step(ops, 308, r0, p, 50);
    lemma_run_ops_step(ops, 308, r0, p, 51);
    lemma_run_ops_step(ops, 308, r0, p, 52);
    lemma_run_ops_step(ops, 308, r0, p, 53);
    lemma_run_ops_step(ops, 308, r0, p, 54);
    lemma_run_ops_step(ops, 308, r0, p, 55);
    lemma_run_ops_step(ops, 308, r0, p, 56);
    lemma_run_ops_step(ops, 308, r0, p, 57);
    lemma_run_ops_step(ops, 308, r0, p, 58);
    lemma_run_ops_step(ops, 308, r0, p, 59);
    lemma_run_ops_step(ops, 308, r0, p, 60);
    lemma_run_ops_step(ops, 308, r0, p, 61);
    lemma_run_ops_step(ops, 308, r0, p, 62);
    lemma_run_ops_step(ops, 308, r0, p, 63);
    lemma_run_ops_step(ops, 308, r0, p, 64);
    lemma_run_ops_step(ops, 308, r0, p, 65);
    lemma_run_ops_step(ops, 308, r0, p, 66);
    lemma_run_ops_step(ops, 308, r0, p, 67);
    lemma_run_ops_step(ops, 308, r0, p, 68);
    lemma_run_ops_step(ops, 308, r0, p, 69);
    lemma_run_ops_step(ops, 308, r0, p, 70);
    lemma_run_ops_step(ops, 308, r0, p, 71);
    lemma_run_ops_step(ops, 308, r0, p, 72);
    lemma_run_ops_step(ops, 308, r0, p, 73);
    lemma_run_ops_step(ops, 308, r0, p, 74);
    lemma_run_ops_step(ops, 308, r0, p, 75);
    lemma_run_ops_step(ops, 308, r0, p, 76);
    lemma_run_ops_step(ops, 308, r0, p, 77);
    lemma_run_ops_step(ops, 308, r0, p, 78);
    lemma_run_ops_step(ops, 308, r0, p, 79);
}

proof fn lemma_iadst16_low8_row_regs_2(input: Seq<i32>, p: ButterflyParams)
    requires
        params_ok(p),
        input.len() == 16,
    ensures
        ({
            let rr = run_ops(IADST16_LOW8_ROW_OPS@, 308, input.push(0), p);
            &&& rr[97] == add_w(rr[44], rr[68])
            &&& rr[98] == clamp_w(rr[97], p.bd, 8)
            &&& rr[99] == sub_w(rr[44], rr[68])
            &&& rr[100] == clamp_w(rr[99], p.bd, 8)
            &&& rr[101] == mul_w(rr[72], spec_cospi(p.bit, 56))
            &&& rr[102] == mul_w(rr[76], spec_cospi(p.bit, 56))
            &&& rr[103] == mul_w(rr[72], spec_cospi(p.bit, 8))
            &&& rr[104] == add_w(rr[103], rr[102])
            &&& rr[105] == add_w(rr[104], spec_rounding(p))
            &&& rr[106] == rr[105] >> p.bit
            &&& rr[107] == mul_w(rr[76], spec_cospi(p.bit, 8))
            &&& rr[108] == sub_w(rr[101], rr[107])
            &&& rr[109] == add_w(rr[108], spec_rounding(p))
            &&& rr[110] == rr[109] >> p.bit
            &&& rr[111] == mul_w(rr[84], spec_cospi(p.bit, 24))
            &&& rr[112] == mul_w(rr[80], spec_cospi(p.bit, 24))
            &&& rr[113] == mul_w(rr[80], spec_cospi(p.bit, 40))
            &&& rr[114] == add_w(rr[113], rr[111])
            &&& rr[115] == add_w(rr[114], spec_rounding(p))
            &&& rr[116] == rr[115] >> p.bit
            &&& rr[117] == mul_w(rr[84], spec_cospi(p.bit, 40))
            &&& rr[118] == sub_w(rr[112], rr[117])
            &&& rr[119] == add_w(rr[118], spec_rounding(p))
            &&& rr[120] == rr[119] >> p.bit
            &&& rr[121] == mul_w(rr[92], spec_cospi(p.bit, 8))
            &&& rr[122] == mul_w(rr[88], spec_cospi(p.bit, 8))
            &&& rr[123] == mul_w(rr[88], sub_w(0, spec_cospi(p.bit, 56)))
            &&& rr[124] == add_w(rr[123], rr[121])
            &&& rr[125] == add_w(rr[124], spec_rounding(p))
            &&& rr[126] == rr[125] >> p.bit
            &&& rr[127] == mul_w(rr[92], sub_w(0, spec_cospi(p.bit, 56)))
            &&& rr[128] == sub_w(rr[122], rr[127])
            &&& rr[129] == add_w(rr[128], spec_rounding(p))
            &&& rr[130] == rr[129] >> p.bit
            &&& rr[131] == mul_w(rr[100], spec_cospi(p.bit, 40))
            &&& rr[132] == mul_w(rr[96], spec_cospi(p.bit, 40))
            &&& rr[133] == mul_w(rr[96], sub_w(0, spec_cospi(p.bit, 24)))
            &&& rr[134] == add_w(rr[133], rr[131])
            &&& rr[135] == add_w(rr[134], spec_rounding(p))
            &&& rr[136] == rr[135] >> p.bit
        }),
{
    reveal(IADST16_LOW8_ROW_OPS);
    let ops = IADST16_LOW8_ROW_OPS@;
    let r0 = input.push(0);
    lemma_run_ops_len(ops, 308, r0, p);
    reveal(add_w);
    reveal(sub_w);
    reveal(mul_w);
    reveal(clamp_w);
    lemma_run_ops_step(ops, 308, r0, p, 80);
    lemma_run_ops_step(ops, 308, r0, p, 81);
    lemma_run_ops_step(ops, 308, r0, p, 82);
    lemma_run_ops_step(ops, 308, r0, p, 83);
    lemma_run_ops_step(ops, 308, r0, p, 84);
    lemma_run_ops_step(ops, 308, r0, p, 85);
    lemma_run_ops_step(ops, 308, r0, p, 86);
    lemma_run_ops_step(ops, 308, r0, p, 87);
    lemma_run_ops_step(ops, 308, r0, p, 88);
    lemma_run_ops_step(ops, 308, r0, p, 89);
    lemma_run_ops_step(ops, 308, r0, p, 90);
    lemma_run_ops_step(ops, 308, r0, p, 91);
    lemma_run_ops_step(ops, 308, r0, p, 92);
    lemma_run_ops_step(ops, 308, r0, p, 93);
    lemma_run_ops_step(ops, 308, r0, p, 94);
    lemma_run_ops_step(ops, 308, r0, p, 95);
    lemma_run_ops_step(ops, 308, r0, p, 96);
    lemma_run_ops_step(ops, 308, r0, p, 97);
    lemma_run_ops_step(ops, 308, r0, p, 98);
    lemma_run_ops_step(ops, 308, r0, p, 99);
    lemma_run_ops_step(ops, 308, r0, p, 100);
    lemma_run_ops_step(ops, 308, r0, p, 101);
    lemma_run_ops_step(ops, 308, r0, p, 102);
    lemma_run_ops_step(ops, 308, r0, p, 103);
    lemma_run_ops_step(ops, 308, r0, p, 104);
    lemma_run_ops_step(ops, 308, r0, p, 105);
    lemma_run_ops_step(ops, 308, r0, p, 106);
    lemma_run_ops_step(ops, 308, r0, p, 107);
    lemma_run_ops_step(ops, 308, r0, p, 108);
    lemma_run_ops_step(ops, 308, r0, p, 109);
    lemma_run_ops_step(ops, 308, r0, p, 110);
    lemma_run_ops_step(ops, 308, r0, p, 111);
    lemma_run_ops_step(ops, 308, r0, p, 112);
    lemma_run_ops_step(ops, 308, r0, p, 113);
    lemma_run_ops_step(ops, 308, r0, p, 114);
    lemma_run_ops_step(ops, 308, r0, p, 115);
    lemma_run_ops_step(ops, 308, r0, p, 116);
    lemma_run_ops_step(ops, 308, r0, p, 117);
    lemma_run_ops_step(ops, 308, r0, p, 118);
    lemma_run_ops_step(ops, 308, r0, p, 119);
}

proof fn lemma_iadst16_low8_row_regs_3(input: Seq<i32>, p: ButterflyParams)
    requires
        params_ok(p),
        input.len() == 16,
    ensures
        ({
            let rr = run_ops(IADST16_LOW8_ROW_OPS@, 308, input.push(0), p);
            &&& rr[137] == mul_w(rr[100], sub_w(0, spec_cospi(p.bit, 24)))
            &&& rr[138] == sub_w(rr[132], rr[137])
            &&& rr[139] == add_w(rr[138], spec_rounding(p))
            &&& rr[140] == rr[139] >> p.bit
            &&& rr[141] == add_w(rr[70], rr[86])
            &&& rr[142] == clamp_w(rr[141], p.bd, 8)
            &&& rr[143] == sub_w(rr[70], rr[86])
            &&& rr[144] == clamp_w(rr[143], p.bd, 8)
            &&& rr[145] == add_w(rr[74], rr[90])
            &&& rr[146] == clamp_w(rr[145], p.bd, 8)
            &&& rr[147] == sub_w(rr[74], rr[90])
            &&& rr[148] == clamp_w(rr[147], p.bd, 8)
            &&& rr[149] == add_w(rr[78], rr[94])
            &&& rr[150] == clamp_w(rr[149], p.bd, 8)
            &&& rr[151] == sub_w(rr[78], rr[94])
            &&& rr[152] == clamp_w(rr[151], p.bd, 8)
            &&& rr[153] == add_w(rr[82], rr[98])
            &&& rr[154] == clamp_w(rr[153], p.bd, 8)
            &&& rr[155] == sub_w(rr[82], rr[98])
            &&& rr[156] == clamp_w(rr[155], p.bd, 8)
            &&& rr[157] == add_w(rr[106], rr[126])
            &&& rr[158] == clamp_w(rr[157], p.bd, 8)
            &&& rr[159] == sub_w(rr[106], rr[126])
            &&& rr[160] == clamp_w(rr[159], p.bd, 8)
            &&& rr[161] == add_w(rr[110], rr[130])
            &&& rr[162] == clamp_w(rr[161], p.bd, 8)
            &&& rr[163] == sub_w(rr[110], rr[130])
            &&& rr[164] == clamp_w(rr[163], p.bd, 8)
            &&& rr[165] == add_w(rr[116], rr[136])
            &&& rr[166] == clamp_w(rr[165], p.bd, 8)
            &&& rr[167] == sub_w(rr[116], rr[136])
            &&& rr[168] == clamp_w(rr[167], p.bd, 8)
            &&& rr[169] == add_w(rr[120], rr[140])
            &&& rr[170] == clamp_w(rr[169], p.bd, 8)
            &&& rr[171] == sub_w(rr[120], rr[140])
            &&& rr[172] == clamp_w(rr[171], p.bd, 8)
            &&& rr[173] == mul_w(rr[148], spec_cospi(p.bit, 48))
            &&& rr[174] == mul_w(rr[144], spec_cospi(p.bit, 48))
            &&& rr[175] == mul_w(rr[144], spec_cospi(p.bit, 16))
            &&& rr[176] == add_w(rr[175], rr[173])
        }),
{
    reveal(IADST16_LOW8_ROW_OPS);
    let ops = IADST16_LOW8_ROW_OPS@;
    let r0 = input.push(0);
    lemma_run_ops_len(ops, 308, r0, p);
    reveal(add_w);
    reveal(sub_w);
    reveal(mul_w);
    reveal(clamp_w);
    lemma_run_ops_step(ops, 308, r0, p, 120);
    lemma_run_ops_step(ops, 308, r0, p, 121);
    lemma_run_ops_step(ops, 308, r0, p, 122);
    lemma_run_ops_step(ops, 308, r0, p, 123);
    lemma_run_ops_step(ops, 308, r0, p, 124);
    lemma_run_ops_step(ops, 308, r0, p, 125);
    lemma_run_ops_step(ops, 308, r0, p, 126);
    lemma_run_ops_step(ops, 308, r0, p, 127);
    lemma_run_ops_step(ops, 308, r0, p, 128);
    lemma_run_ops_step(ops, 308, r0, p, 129);
    lemma_run_ops_step(ops, 308, r0, p, 130);
    lemma_run_ops_step(ops, 308, r0, p, 131);
    lemma_run_ops_step(ops, 308, r0, p, 132);
    lemma_run_ops_step(ops, 308, r0, p, 133);
    lemma_run_ops_step(ops, 308, r0, p, 134);
    lemma_run_ops_step(ops, 308, r0, p, 135);
    lemma_run_ops_step(ops, 308, r0, p, 136);
    lemma_run_ops_step(ops, 308, r0, p, 137);
    lemma_run_ops_step(ops, 308, r0, p, 138);
    lemma_run_ops_step(ops, 308, r0, p, 139);
    lemma_run_ops_step(ops, 308, r0, p, 140);
    lemma_run_ops_step(ops, 308, r0, p, 141);
    lemma_run_ops_step(ops, 308, r0, p, 142);
    lemma_run_ops_step(ops, 308, r0, p, 143);
    lemma_run_ops_step(ops, 308, r0, p, 144);
    lemma_run_ops_step(ops, 308, r0, p, 145);
    lemma_run_ops_step(ops, 308, r0, p, 146);
    lemma_run_ops_step(ops, 308, r0, p, 147);
    lemma_run_ops_step(ops, 308, r0, p, 148);
    lemma_run_ops_step(ops, 308, r0, p, 149);
    lemma_run_ops_step(ops, 308, r0, p, 150);
    lemma_run_ops_step(ops, 308, r0, p, 151);
    lemma_run_ops_step(ops, 308, r0, p, 152);
    lemma_run_ops_step(ops, 308, r0, p, 153);
    lemma_run_ops_step(ops, 308, r0, p, 154);
    lemma_run_ops_step(ops, 308, r0, p, 155);
    lemma_run_ops_step(ops, 308, r0, p, 156);
    lemma_run_ops_step(ops, 308, r0, p, 157);
    lemma_run_ops_step(ops, 308, r0, p, 158);
    lemma_run_ops_step(ops, 308, r0, p, 159);
}

proof fn lemma_iadst16_low8_row_regs_4(input: Seq<i32>, p: ButterflyParams)
    requires
        params_ok(p),
        input.len() == 16,
    ensures
        ({
            let rr = run_ops(IADST16_LOW8_ROW_OPS@, 308, input.push(0), p);
            &&& rr[177] == add_w(rr[176], spec_rounding(p))
            &&& rr[178] == rr[177] >> p.bit
            &&& rr[179] == mul_w(rr[148], spec_cospi(p.bit, 16))
            &&& rr[180] == sub_w(rr[174], rr[179])
            &&& rr[181] == add_w(rr[180], spec_rounding(p))
            &&& rr[182] == rr[181] >> p.bit
            &&& rr[183] == mul_w(rr[156], spec_cospi(p.bit, 16))
            &&& rr[184] == mul_w(rr[152], spec_cospi(p.bit, 16))
            &&& rr[185] == mul_w(rr[152], sub_w(0, spec_cospi(p.bit, 48)))
            &&& rr[186] == add_w(rr[185], rr[183])
            &&& rr[187] == add_w(rr[186], spec_rounding(p))
            &&& rr[188] == rr[187] >> p.bit
            &&& rr[189] == mul_w(rr[156], sub_w(0, spec_cospi(p.bit, 48)))
            &&& rr[190] == sub_w(rr[184], rr[189])
            &&& rr[191] == add_w(rr[190], spec_rounding(p))
            &&& rr[192] == rr[191] >> p.bit
            &&& rr[193] == mul_w(rr[164], spec_cospi(p.bit, 48))
            &&& rr[194] == mul_w(rr[160], spec_cospi(p.bit, 48))
            &&& rr[195] == mul_w(rr[160], spec_cospi(p.bit, 16))
            &&& rr[196] == add_w(rr[195], rr[193])
            &&& rr[197] == add_w(rr[196], spec_rounding(p))
            &&& rr[198] == rr[197] >> p.bit
            &&& rr[199] == mul_w(rr[164], spec_cospi(p.bit, 16))
            &&& rr[200] == sub_w(rr[194], rr[199])
            &&& rr[201] == add_w(rr[200], spec_rounding(p))
            &&& rr[202] == rr[201] >> p.bit
            &&& rr[203] == mul_w(rr[172], spec_cospi(p.bit, 16))
            &&& rr[204] == mul_w(rr[168], spec_cospi(p.bit, 16))
            &&& rr[205] == mul_w(rr[168], sub_w(0, spec_cospi(p.bit, 48)))
            &&& rr[206] == add_w(rr[205], rr[203])
            &&& rr[207] == add_w(rr[206], spec_rounding(p))
            &&& rr[208] == rr[207] >> p.bit
            &&& rr[209] == mul_w(rr[172], sub_w(0, spec_cospi(p.bit, 48)))
            &&& rr[210] == sub_w(rr[204], rr[209])
            &&& rr[211] == add_w(rr[210], spec_rounding(p))
            &&& rr[212] == rr[211] >> p.bit
            &&& rr[213] == add_w(rr[142], rr[150])
            &&& rr[214] == clamp_w(rr[213], p.bd, 8)
            &&& rr[215] == sub_w(rr[142], rr[150])
            &&& rr[216] == clamp_w(rr[215], p.bd, 8)
        }),
{
    reveal(IADST16_LOW8_ROW_OPS);
    let ops = IADST16_LOW8_ROW_OPS@;
    let r0 = input.push(0);
    lemma_run_ops_len(ops, 308, r0, p);
    reveal(add_w);
    reveal(sub_w);
    reveal(mul_w);
    reveal(clamp_w);
    lemma_run_ops_step(ops, 308, r0, p, 160);
    lemma_run_ops_step(ops, 308, r0, p, 161);
    lemma_run_ops_step(ops, 308, r0, p, 162);
    lemma_run_ops_step(ops, 308, r0, p, 163);
    lemma_run_ops_step(ops, 308, r0, p, 164);
    lemma_run_ops_step(ops, 308, r0, p, 165);
    lemma_run_ops_step(ops, 308, r0, p, 166);
    lemma_run_ops_step(ops, 308, r0, p, 167);
    lemma_run_ops_step(ops, 308, r0, p, 168);
    lemma_run_ops_step(ops, 308, r0, p, 169);
    lemma_run_ops_step(ops, 308, r0, p, 170);
    lemma_run_ops_step(ops, 308, r0, p, 171);
    lemma_run_ops_step(ops, 308, r0, p, 172);
    lemma_run_ops_step(ops, 308, r0, p, 173);
    lemma_run_ops_step(ops, 308, r0, p, 174);
    lemma_run_ops_step(ops, 308, r0, p, 175);
    lemma_run_ops_step(ops, 308, r0, p, 176);
    lemma_run_ops_step(ops, 308, r0, p, 177);
    lemma_run_ops_step(ops, 308, r0, p, 178);
    lemma_run_ops_step(ops, 308, r0, p, 179);
    lemma_run_ops_step(ops, 308, r0, p, 180);
    lemma_run_ops_step(ops, 308, r0, p, 181);
    lemma_run_ops_step(ops, 308, r0, p, 182);
    lemma_run_ops_step(ops, 308, r0, p, 183);
    lemma_run_ops_step(ops, 308, r0, p, 184);
    lemma_run_ops_step(ops, 308, r0, p, 185);
    lemma_run_ops_step(ops, 308, r0, p, 186);
    lemma_run_ops_step(ops, 308, r0, p, 187);
    lemma_run_ops_step(ops, 308, r0, p, 188);
    lemma_run_ops_step(ops, 308, r0, p, 189);
    lemma_run_ops_step(ops, 308, r0, p, 190);
    lemma_run_ops_step(ops, 308, r0, p, 191);
    lemma_run_ops_step(ops, 308, r0, p, 192);
    lemma_run_ops_step(ops, 308, r0, p, 193);
    lemma_run_ops_step(ops, 308, r0, p, 194);
    lemma_run_ops_step(ops, 308, r0, p, 195);
    lemma_run_ops_step(ops, 308, r0, p, 196);
    lemma_run_ops_step(ops, 308, r0, p, 197);
    lemma_run_ops_step(ops, 308, r0, p, 198);
    lemma_run_ops_step(ops, 308, r0, p, 199);
}

proof fn lemma_iadst16_low8_row_regs_5(input: Seq<i32>, p: ButterflyParams)
    requires
        params_ok(p),
        input.len() == 16,
    ensures
        ({
            let rr = run_ops(IADST16_LOW8_ROW_OPS@, 308, input.push(0), p);
            &&& rr[217] == add_w(rr[146], rr[154])
            &&& rr[218] == clamp_w(rr[217], p.bd, 8)
            &&& rr[219] == sub_w(rr[146], rr[154])
            &&& rr[220] == clamp_w(rr[219], p.bd, 8)
            &&& rr[221] == add_w(rr[178], rr[188])
            &&& rr[222] == clamp_w(rr[221], p.bd, 8)
            &&& rr[223] == sub_w(rr[178], rr[188])
            &&& rr[224] == clamp_w(rr[223], p.bd, 8)
            &&& rr[225] == add_w(rr[182], rr[192])
            &&& rr[226] == clamp_w(rr[225], p.bd, 8)
            &&& rr[227] == sub_w(rr[182], rr[192])
            &&& rr[228] == clamp_w(rr[227], p.bd, 8)
            &&& rr[229] == add_w(rr[158], rr[166])
            &&& rr[230] == clamp_w(rr[229], p.bd, 8)
            &&& rr[231] == sub_w(rr[158], rr[166])
            &&& rr[232] == clamp_w(rr[231], p.bd, 8)
            &&& rr[233] == add_w(rr[162], rr[170])
            &&& rr[234] == clamp_w(rr[233], p.bd, 8)
            &&& rr[235] == sub_w(rr[162], rr[170])
            &&& rr[236] == clamp_w(rr[235], p.bd, 8)
            &&& rr[237] == add_w(rr[198], rr[208])
            &&& rr[238] == clamp_w(rr[237], p.bd, 8)
            &&& rr[239] == sub_w(rr[198], rr[208])
            &&& rr[240] == clamp_w(rr[239], p.bd, 8)
            &&& rr[241] == add_w(rr[202], rr[212])
            &&& rr[242] == clamp_w(rr[241], p.bd, 8)
            &&& rr[243] == sub_w(rr[202], rr[212])
            &&& rr[244] == clamp_w(rr[243], p.bd, 8)
            &&& rr[245] == mul_w(rr[216], spec_cospi(p.bit, 32))
            &&& rr[246] == mul_w(rr[220], spec_cospi(p.bit, 32))
            &&& rr[247] == add_w(rr[245], rr[246])
            &&& rr[248] == add_w(rr[247], spec_rounding(p))
            &&& rr[249] == rr[248] >> p.bit
            &&& rr[250] == sub_w(rr[245], rr[246])
            &&& rr[251] == add_w(rr[250], spec_rounding(p))
            &&& rr[252] == rr[251] >> p.bit
            &&& rr[253] == mul_w(rr[224], spec_cospi(p.bit, 32))
            &&& rr[254] == mul_w(rr[228], spec_cospi(p.bit, 32))
            &&& rr[255] == add_w(rr[253], rr[254])
            &&& rr[256] == add_w(rr[255], spec_rounding(p))
        }),
{
    reveal(IADST16_LOW8_ROW_OPS);
    let ops = IADST16_LOW8_ROW_OPS@;
    let r0 = input.push(0);
    lemma_run_ops_len(ops, 308, r0, p);
    reveal(add_w);
    reveal(sub_w);
    reveal(mul_w);
    reveal(clamp_w);
    lemma_run_ops_step(ops, 308, r0, p, 200);
    lemma_run_ops_step(ops, 308, r0, p, 201);
    lemma_run_ops_step(ops, 308, r0, p, 202);
    lemma_run_ops_step(ops, 308, r0, p, 203);
    lemma_run_ops_step(ops, 308, r0, p, 204);
    lemma_run_ops_step(ops, 308, r0, p, 205);
    lemma_run_ops_step(ops, 308, r0, p, 206);
    lemma_run_ops_step(ops, 308, r0, p, 207);
    lemma_run_ops_step(ops, 308, r0, p, 208);
    lemma_run_ops_step(ops, 308, r0, p, 209);
    lemma_run_ops_step(ops, 308, r0, p, 210);
    lemma_run_ops_step(ops, 308, r0, p, 211);
    lemma_run_ops_step(ops, 308, r0, p, 212);
    lemma_run_ops_step(ops, 308, r0, p, 213);
    lemma_run_ops_step(ops, 308, r0, p, 214);
    lemma_run_ops_step(ops, 308, r0, p, 215);
    lemma_run_ops_step(ops, 308, r0, p, 216);
    lemma_run_ops_step(ops, 308, r0, p, 217);
    lemma_run_ops_step(ops, 308, r0, p, 218);
    lemma_run_ops_step(ops, 308, r0, p, 219);
    lemma_run_ops_step(ops, 308, r0, p, 220);
    lemma_run_ops_step(ops, 308, r0, p, 221);
    lemma_run_ops_step(ops, 308, r0, p, 222);
    lemma_run_ops_step(ops, 308, r0, p, 223);
    lemma_run_ops_step(ops, 308, r0, p, 224);
    lemma_run_ops_step(ops, 308, r0, p, 225);
    lemma_run_ops_step(ops, 308, r0, p, 226);
    lemma_run_ops_step(ops, 308, r0, p, 227);
    lemma_run_ops_step(ops, 308, r0, p, 228);
    lemma_run_ops_step(ops, 308, r0, p, 229);
    lemma_run_ops_step(ops, 308, r0, p, 230);
    lemma_run_ops_step(ops, 308, r0, p, 231);
    lemma_run_ops_step(ops, 308, r0, p, 232);
    lemma_run_ops_step(ops, 308, r0, p, 233);
    lemma_run_ops_step(ops, 308, r0, p, 234);
    lemma_run_ops_step(ops, 308, r0, p, 235);
    lemma_run_ops_step(ops, 308, r0, p, 236);
    lemma_run_ops_step(ops, 308, r0, p, 237);
    lemma_run_ops_step(ops, 308, r0, p, 238);
    lemma_run_ops_step(ops, 308, r0, p, 239);
}

proof fn lemma_iadst16_low8_row_regs_6(input: Seq<i32>, p: ButterflyParams)
    requires
        params_ok(p),
        input.len() == 16,
    ensures
        ({
            let rr = run_ops(IADST16_LOW8_ROW_OPS@, 308, input.push(0), p);
            &&& rr[257] == rr[256] >> p.bit
            &&& rr[258] == sub_w(rr[253], rr[254])
            &&& rr[259] == add_w(rr[258], spec_rounding(p))
            &&& rr[260] == rr[259] >> p.bit
            &&& rr[261] == mul_w(rr[232], spec_cospi(p.bit, 32))
            &&& rr[262] == mul_w(rr[236], spec_cospi(p.bit, 32))
            &&& rr[263] == add_w(rr[261], rr[262])
            &&& rr[264] == add_w(rr[263], spec_rounding(p))
            &&& rr[265] == rr[264] >> p.bit
            &&& rr[266] == sub_w(rr[261], rr[262])
            &&& rr[267] == add_w(rr[266], spec_rounding(p))
            &&& rr[268] == rr[267] >> p.bit
            &&& rr[269] == mul_w(rr[240], spec_cospi(p.bit, 32))
            &&& rr[270] == mul_w(rr[244], spec_cospi(p.bit, 32))
            &&& rr[271] == add_w(rr[269], rr[270])
            &&& rr[272] == add_w(rr[271], spec_rounding(p))
            &&& rr[273] == rr[272] >> p.bit
            &&& rr[274] == sub_w(rr[269], rr[270])
            &&& rr[275] == add_w(rr[274], spec_rounding(p))
            &&& rr[276] == rr[275] >> p.bit
            &&& rr[277] == add_w(rr[214], spec_out_offset(p))
            &&& rr[278] == rr[277] >> p.out_shift
            &&& rr[279] == sub_w(spec_out_offset(p), rr[230])
            &&& rr[280] == rr[279] >> p.out_shift
            &&& rr[281] == clamp_w(rr[278], p.bd, 6)
            &&& rr[282] == clamp_w(rr[280], p.bd, 6)
            &&& rr[283] == add_w(rr[238], spec_out_offset(p))
            &&& rr[284] == rr[283] >> p.out_shift
            &&& rr[285] == sub_w(spec_out_offset(p), rr[222])
            &&& rr[286] == rr[285] >> p.out_shift
            &&& rr[287] == clamp_w(rr[284], p.bd, 6)
            &&& rr[288] == clamp_w(rr[286], p.bd, 6)
            &&& rr[289] == add_w(rr[257], spec_out_offset(p))
            &&& rr[290] == rr[289] >> p.out_shift
            &&& rr[291] == sub_w(spec_out_offset(p), rr[273])
            &&& rr[292] == rr[291] >> p.out_shift
            &&& rr[293] == clamp_w(rr[290], p.bd, 6)
            &&& rr[294] == clamp_w(rr[292], p.bd, 6)
            &&& rr[295] == add_w(rr[265], spec_out_offset(p))
            &&& rr[296] == rr[295] >> p.out_shift
        }),
{
    reveal(IADST16_LOW8_ROW_OPS);
    let ops = IADST16_LOW8_ROW_OPS@;
    let r0 = input.push(0);
    lemma_run_ops_len(ops, 308, r0, p);
    reveal(add_w);
    reveal(sub_w);
    reveal(mul_w);
    reveal(clamp_w);
    lemma_run_ops_step(ops, 308, r0, p, 240);
    lemma_run_ops_step(ops, 308, r0, p, 241);
    lemma_run_ops_step(ops, 308, r0, p, 242);
    lemma_run_ops_step(ops, 308, r0, p, 243);
    lemma_run_ops_step(ops, 308, r0, p, 244);
    lemma_run_ops_step(ops, 308, r0, p, 245);
    lemma_run_ops_step(ops, 308, r0, p, 246);
    lemma_run_ops_step(ops, 308, r0, p, 247);
    lemma_run_ops_step(ops, 308, r0, p, 248);
    lemma_run_ops_step(ops, 308, r0, p, 249);
    lemma_run_ops_step(ops, 308, r0, p, 250);
    lemma_run_ops_step(ops, 308, r0, p, 251);
    lemma_run_ops_step(ops, 308, r0, p, 252);
    lemma_run_ops_step(ops, 308, r0, p, 253);
    lemma_run_ops_step(ops, 308, r0, p, 254);
    lemma_run_ops_step(ops, 308, r0, p, 255);
    lemma_run_ops_step(ops, 308, r0, p, 256);
    lemma_run_ops_step(ops, 308, r0, p, 257);
    lemma_run_ops_step(ops, 308, r0, p, 258);
    lemma_run_ops_step(ops, 308, r0, p, 259);
    lemma_run_ops_step(ops, 308, r0, p, 260);
    lemma_run_ops_step(ops, 308, r0, p, 261);
    lemma_run_ops_step(ops, 308, r0, p, 262);
    lemma_run_ops_step(ops, 308, r0, p, 263);
    lemma_run_ops_step(ops, 308, r0, p, 264);
    lemma_run_ops_step(ops, 308, r0, p, 265);
    lemma_run_ops_step(ops, 308, r0, p, 266);
    lemma_run_ops_step(ops, 308, r0, p, 267);
    lemma_run_ops_step(ops, 308, r0, p, 268);
    lemma_run_ops_step(ops, 308, r0, p, 269);
    lemma_run_ops_step(ops, 308, r0, p, 270);
    lemma_run_ops_step(ops, 308, r0, p, 271);
    lemma_run_ops_step(ops, 308, r0, p, 272);
    lemma_run_ops_step(ops, 308, r0, p, 273);
    lemma_run_ops_step(ops, 308, r0, p, 274);
    lemma_run_ops_step(ops, 308, r0, p, 275);
    lemma_run_ops_step(ops, 308, r0, p, 276);
    lemma_run_ops_step(ops, 308, r0, p, 277);
    lemma_run_ops_step(ops, 308, r0, p, 278);
    lemma_run_ops_step(ops, 308, r0, p, 279);
}

proof fn lemma_iadst16_low8_row_regs_7(input: Seq<i32>, p: ButterflyParams)
    requires
        params_ok(p),
        input.len() == 16,
    ensures
        ({
            let rr = run_ops(IADST16_LOW8_ROW_OPS@, 308, input.push(0), p);
            &&& rr[297] == sub_w(spec_out_offset(p), rr[249])
            &&& rr[298] == rr[297] >> p.out_shift
            &&& rr[299] == clamp_w(rr[296], p.bd, 6)
            &&& rr[300] == clamp_w(rr[298], p.bd, 6)
            &&& rr[301] == add_w(rr[252], spec_out_offset(p))
            &&& rr[302] == rr[301] >> p.out_shift
            &&& rr[303] == sub_w(spec_out_offset(p), rr[268])
            &&& rr[304] == rr[303] >> p.out_shift
            &&& rr[305] == clamp_w(rr[302], p.bd, 6)
            &&& rr[306] == clamp_w(rr[304], p.bd, 6)
            &&& rr[307] == add_w(rr[276], spec_out_offset(p))
            &&& rr[308] == rr[307] >> p.out_shift
            &&& rr[309] == sub_w(spec_out_offset(p), rr[260])
            &&& rr[310] == rr[309] >> p.out_shift
            &&& rr[311] == clamp_w(rr[308], p.bd, 6)
            &&& rr[312] == clamp_w(rr[310], p.bd, 6)
            &&& rr[313] == add_w(rr[226], spec_out_offset(p))
            &&& rr[314] == rr[313] >> p.out_shift
            &&& rr[315] == sub_w(spec_out_offset(p), rr[242])
            &&& rr[316] == rr[315] >> p.out_shift
            &&& rr[317] == clamp_w(rr[314], p.bd, 6)
            &&& rr[318] == clamp_w(rr[316], p.bd, 6)
            &&& rr[319] == add_w(rr[234], spec_out_offset(p))
            &&& rr[320] == rr[319] >> p.out_shift
            &&& rr[321] == sub_w(spec_out_offset(p), rr[218])
            &&& rr[322] == rr[321] >> p.out_shift
            &&& rr[323] == clamp_w(rr[320], p.bd, 6)
            &&& rr[324] == clamp_w(rr[322], p.bd, 6)
        }),
{
    reveal(IADST16_LOW8_ROW_OPS);
    let ops = IADST16_LOW8_ROW_OPS@;
    let r0 = input.push(0);
    lemma_run_ops_len(ops, 308, r0, p);
    reveal(add_w);
    reveal(sub_w);
    reveal(clamp_w);
    lemma_run_ops_step(ops, 308, r0, p, 280);
    lemma_run_ops_step(ops, 308, r0, p, 281);
    lemma_run_ops_step(ops, 308, r0, p, 282);
    lemma_run_ops_step(ops, 308, r0, p, 283);
    lemma_run_ops_step(ops, 308, r0, p, 284);
    lemma_run_ops_step(ops, 308, r0, p, 285);
    lemma_run_ops_step(ops, 308, r0, p, 286);
    lemma_run_ops_step(ops, 308, r0, p, 287);
    lemma_run_ops_step(ops, 308, r0, p, 288);
    lemma_run_ops_step(ops, 308, r0, p, 289);
    lemma_run_ops_step(ops, 308, r0, p, 290);
    lemma_run_ops_step(ops, 308, r0, p, 291);
    lemma_run_ops_step(ops, 308, r0, p, 292);
    lemma_run_ops_step(ops, 308, r0, p, 293);
    lemma_run_ops_step(ops, 308, r0, p, 294);
    lemma_run_ops_step(ops, 308, r0, p, 295);
    lemma_run_ops_step(ops, 308, r0, p, 296);
    lemma_run_ops_step(ops, 308, r0, p, 297);
    lemma_run_ops_step(ops, 308, r0, p, 298);
    lemma_run_ops_step(ops, 308, r0, p, 299);
    lemma_run_ops_step(ops, 308, r0, p, 300);
    lemma_run_ops_step(ops, 308, r0, p, 301);
    lemma_run_ops_step(ops, 308, r0, p, 302);
    lemma_run_ops_step(ops, 308, r0, p, 303);
    lemma_run_ops_step(ops, 308, r0, p, 304);
    lemma_run_ops_step(ops, 308, r0, p, 305);
    lemma_run_ops_step(ops, 308, r0, p, 306);
    lemma_run_ops_step(ops, 308, r0, p, 307);
}

/// The row pass of the 16-point inverse ADST of a lane whose coefficients past the first 8 are zero computes its stages.
#[verifier::rlimit(100)]
pub proof fn law_iadst16_low8_row_stages(input: Seq<i32>, p: ButterflyParams)
    requires
        params_ok(p),
        input.len() == 16,
    ensures
        kernel_output(TxfmKernel::Iadst16Low8, false, input, p) == spec_iadst16_low8_row(input, p),
{
    reveal(IADST16_LOW8_ROW_OUTS);
    let ops = IADST16_LOW8_ROW_OPS@;
    let r0 = input.push(0);
    lemma_run_ops_len(ops, 308, r0, p);
    let rr = run_ops(ops, 308, r0, p);
    assert forall|k: int| 0 <= k < 17 implies rr[k] == r0[k] by {
        lemma_run_ops_prefix(ops, 0, 308, r0, p, k);
    }
    lemma_iadst16_low8_row_regs_0(input, p);
    lemma_iadst16_low8_row_regs_1(input, p);
    lemma_iadst16_low8_row_regs_2(input, p);
    lemma_iadst16_low8_row_regs_3(input, p);
    lemma_iadst16_low8_row_regs_4(input, p);
    lemma_iadst16_low8_row_regs_5(input, p);
    lemma_iadst16_low8_row_regs_6(input, p);
    lemma_iadst16_low8_row_regs_7(input, p);
    assert(kernel_output(TxfmKernel::Iadst16Low8, false, input, p) =~= spec_iadst16_low8_row(input, p));
}

/// The 16-point inverse ADST of a lane whose coefficients past the first 8 are zero computes its stages.
pub proof fn law_iadst16_low8_stages(input: Seq<i32>, do_cols: bool, p: ButterflyParams)
    requires
        params_ok(p),
        input.len() == 16,
    ensures
        kernel_output(TxfmKernel::Iadst16Low8, do_cols, input, p) == spec_iadst16_low8(input, do_cols, p),
{
    if do_cols {
        law_iadst16_low8_col_stages(input, p);
    } else {
        law_iadst16_low8_row_stages(input, p);
    }
}

proof fn lemma_iadst16_col_regs_0(input: Seq<i32>, p: ButterflyParams)
    requires
        params_ok(p),
        input.len() == 16,
    ensures
        ({
            let rr = run_ops(IADST16_COL_OPS@, 296, input.push(0), p);
            &&& rr[17] == mul_w(rr[15], spec_cospi(p.bit, 2))
            &&& rr[18] == mul_w(rr[0], spec_cospi(p.bit, 62))
            &&& rr[19] == add_w(rr[17], rr[18])
            &&& rr[20] == add_w(rr[19], spec_rounding(p))
            &&& rr[21] == rr[20] >> p.bit
            &&& rr[22] == mul_w(rr[15], spec_cospi(p.bit, 62))
            &&& rr[23] == mul_w(rr[0], spec_cospi(p.bit, 2))
            &&& rr[24] == sub_w(rr[22], rr[23])
            &&& rr[25] == add_w(rr[24], spec_rounding(p))
            &&& rr[26] == rr[25] >> p.bit
            &&& rr[27] == mul_w(rr[13], spec_cospi(p.bit, 10))
            &&& rr[28] == mul_w(rr[2], spec_cospi(p.bit, 54))
            &&& rr[29] == add_w(rr[27], rr[28])
            &&& rr[30] == add_w(rr[29], spec_rounding(p))
            &&& rr[31] == rr[30] >> p.bit
            &&& rr[32] == mul_w(rr[13], spec_cospi(p.bit, 54))
            &&& rr[33] == mul_w(rr[2], spec_cospi(p.bit, 10))
            &&& rr[34] == sub_w(rr[32], rr[33])
            &&& rr[35] == add_w(rr[34], spec_rounding(p))
            &&& rr[36] == rr[35] >> p.bit
            &&& rr[37] == mul_w(rr[11], spec_cospi(p.bit, 18))
            &&& rr[38] == mul_w(rr[4], spec_cospi(p.bit, 46))
            &&& rr[39] == add_w(rr[37], rr[38])
            &&& rr[40] == add_w(rr[39], spec_rounding(p))
            &&& rr[41] == rr[40] >> p.bit
            &&& rr[42] == mul_w(rr[11], spec_cospi(p.bit, 46))
            &&& rr[43] == mul_w(rr[4], spec_cospi(p.bit, 18))
            &&& rr[44] == sub_w(rr[42], rr[43])
            &&& rr[45] == add_w(rr[44], spec_rounding(p))
            &&& rr[46] == rr[45] >> p.bit
            &&& rr[47] == mul_w(rr[9], spec_cospi(p.bit, 26))
            &&& rr[48] == mul_w(rr[6], spec_cospi(p.bit, 38))
            &&& rr[49] == add_w(rr[47], rr[48])
            &&& rr[50] == add_w(rr[49], spec_rounding(p))
            &&& rr[51] == rr[50] >> p.bit
            &&& rr[52] == mul_w(rr[9], spec_cospi(p.bit, 38))
            &&& rr[53] == mul_w(rr[6], spec_cospi(p.bit, 26))
            &&& rr[54] == sub_w(rr[52], rr[53])
            &&& rr[55] == add_w(rr[54], spec_rounding(p))
            &&& rr[56] == rr[55] >> p.bit
        }),
{
    reveal(IADST16_COL_OPS);
    let ops = IADST16_COL_OPS@;
    let r0 = input.push(0);
    lemma_run_ops_len(ops, 296, r0, p);
    reveal(add_w);
    reveal(sub_w);
    reveal(mul_w);
    lemma_run_ops_step(ops, 296, r0, p, 0);
    lemma_run_ops_step(ops, 296, r0, p, 1);
    lemma_run_ops_step(ops, 296, r0, p, 2);
    lemma_run_ops_step(ops, 296, r0, p, 3);
    lemma_run_ops_step(ops, 296, r0, p, 4);
    lemma_run_ops_step(ops, 296, r0, p, 5);
    lemma_run_ops_step(ops, 296, r0, p, 6);
    lemma_run_ops_step(ops, 296, r0, p, 7);
    lemma_run_ops_step(ops, 296, r0, p, 8);
    lemma_run_ops_step(ops, 296, r0, p, 9);
    lemma_run_ops_step(ops, 296, r0, p, 10);
    lemma_run_ops_step(ops, 296, r0, p, 11);
    lemma_run_ops_step(ops, 296, r0, p, 12);
    lemma_run_ops_step(ops, 296, r0, p, 13);
    lemma_run_ops_step(ops, 296, r0, p, 14);
    lemma_run_ops_step(ops, 296, r0, p, 15);
    lemma_run_ops_step(ops, 296, r0, p, 16);
    lemma_run_ops_step(ops, 296, r0, p, 17);
    lemma_run_ops_step(ops, 296, r0, p, 18);
    lemma_run_ops_step(ops, 296, r0, p, 19);
    lemma_run_ops_step(ops, 296, r0, p, 20);
    lemma_run_ops_step(ops, 296, r0, p, 21);
    lemma_run_ops_step(ops, 296, r0, p, 22);
    lemma_run_ops_step(ops, 296, r0, p, 23);
    lemma_run_ops_step(ops, 296, r0, p, 24);
    lemma_run_ops_step(ops, 296, r0, p, 25);
    lemma_run_ops_step(ops, 296, r0, p, 26);
    lemma_run_ops_step(ops, 296, r0, p, 27);
    lemma_run_ops_step(ops, 296, r0, p, 28);
    lemma_run_ops_step(ops, 296, r0, p, 29);
    lemma_run_ops_step(ops, 296, r0, p, 30);
    lemma_run_ops_step(ops, 296, r0, p, 31);
    lemma_run_ops_step(ops, 296, r0, p, 32);
    lemma_run_ops_step(ops, 296, r0, p, 33);
    lemma_run_ops_step(ops, 296, r0, p, 34);
    lemma_run_ops_step(ops, 296, r0, p, 35);
    lemma_run_ops_step(ops, 296, r0, p, 36);
    lemma_run_ops_step(ops, 296, r0, p, 37);
    lemma_run_ops_step(ops, 296, r0, p, 38);
    lemma_run_ops_step(ops, 296, r0, p, 39);
}

proof fn lemma_iadst16_col_regs_1(input: Seq<i32>, p: ButterflyParams)
    requires
        params_ok(p),
        input.len() == 16,
    ensures
        ({
            let rr = run_ops(IADST16_COL_OPS@, 296, input.push(0), p);
            &&& rr[57] == mul_w(rr[7], spec_cospi(p.bit, 34))
            &&& rr[58] == mul_w(rr[8], spec_cospi(p.bit, 30))
            &&& rr[59] == add_w(rr[57], rr[58])
            &&& rr[60] == add_w(rr[59], spec_rounding(p))
            &&& rr[61] == rr[60] >> p.bit
            &&& rr[62] == mul_w(rr[7], spec_cospi(p.bit, 30))
            &&& rr[63] == mul_w(rr[8], spec_cospi(p.bit, 34))
            &&& rr[64] == sub_w(rr[62], rr[63])
            &&& rr[65] == add_w(rr[64], spec_rounding(p))
            &&& rr[66] == rr[65] >> p.bit
            &&& rr[67] == mul_w(rr[5], spec_cospi(p.bit, 42))
            &&& rr[68] == mul_w(rr[10], spec_cospi(p.bit, 22))
            &&& rr[69] == add_w(rr[67], rr[68])
            &&& rr[70] == add_w(rr[69], spec_rounding(p))
            &&& rr[71] == rr[70] >> p.bit
            &&& rr[72] == mul_w(rr[5], spec_cospi(p.bit, 22))
            &&& rr[73] == mul_w(rr[10], spec_cospi(p.bit, 42))
            &&& rr[74] == sub_w(rr[72], rr[73])
            &&& rr[75] == add_w(rr[74], spec_rounding(p))
            &&& rr[76] == rr[75] >> p.bit
            &&& rr[77] == mul_w(rr[3], spec_cospi(p.bit, 50))
            &&& rr[78] == mul_w(rr[12], spec_cospi(p.bit, 14))
            &&& rr[79] == add_w(rr[77], rr[78])
            &&& rr[80] == add_w(rr[79], spec_rounding(p))
            &&& rr[81] == rr[80] >> p.bit
            &&& rr[82] == mul_w(rr[3], spec_cospi(p.bit, 14))
            &&& rr[83] == mul_w(rr[12], spec_cospi(p.bit, 50))
            &&& rr[84] == sub_w(rr[82], rr[83])
            &&& rr[85] == add_w(rr[84], spec_rounding(p))
            &&& rr[86] == rr[85] >> p.bit
            &&& rr[87] == mul_w(rr[1], spec_cospi(p.bit, 58))
            &&& rr[88] == mul_w(rr[14], spec_cospi(p.bit, 6))
            &&& rr[89] == add_w(rr[87], rr[88])
            &&& rr[90] == add_w(rr[89], spec_rounding(p))
            &&& rr[91] == rr[90] >> p.bit
            &&& rr[92] == mul_w(rr[1], spec_cospi(p.bit, 6))
            &&& rr[93] == mul_w(rr[14], spec_cospi(p.bit, 58))
            &&& rr[94] == sub_w(rr[92], rr[93])
            &&& rr[95] == add_w(rr[94], spec_rounding(p))
            &&& rr[96] == rr[95] >> p.bit
        }),
{
    reveal(IADST16_COL_OPS);
    let ops = IADST16_COL_OPS@;
    let r0 = input.push(0);
    lemma_run_ops_len(ops, 296, r0, p);
    reveal(add_w);
    reveal(sub_w);
    reveal(mul_w);
    lemma_run_ops_step(ops, 296, r0, p, 40);
    lemma_run_ops_step(ops, 296, r0, p, 41);
    lemma_run_ops_step(ops, 296, r0, p, 42);
    lemma_run_ops_step(ops, 296, r0, p, 43);
    lemma_run_ops_step(ops, 296, r0, p, 44);
    lemma_run_ops_step(ops, 296, r0, p, 45);
    lemma_run_ops_step(ops, 296, r0, p, 46);
    lemma_run_ops_step(ops, 296, r0, p, 47);
    lemma_run_ops_step(ops, 296, r0, p, 48);
    lemma_run_ops_step(ops, 296, r0, p, 49);
    lemma_run_ops_step(ops, 296, r0, p, 50);
    lemma_run_ops_step(ops, 296, r0, p, 51);
    lemma_run_ops_step(ops, 296, r0, p, 52);
    lemma_run_ops_step(ops, 296, r0, p, 53);
    lemma_run_ops_step(ops, 296, r0, p, 54);
    lemma_run_ops_step(ops, 296, r0, p, 55);
    lemma_run_ops_step(ops, 296, r0, p, 56);
    lemma_run_ops_step(ops, 296, r0, p, 57);
    lemma_run_ops_step(ops, 296, r0, p, 58);
    lemma_run_ops_step(ops, 296, r0, p, 59);
    lemma_run_ops_step(ops, 296, r0, p, 60);
    lemma_run_ops_step(ops, 296, r0, p, 61);
    lemma_run_ops_step(ops, 296, r0, p, 62);
    lemma_run_ops_step(ops, 296, r0, p, 63);
    lemma_run_ops_step(ops, 296, r0, p, 64);
    lemma_run_ops_step(ops, 296, r0, p, 65);
    lemma_run_ops_step(ops, 296, r0, p, 66);
    lemma_run_ops_step(ops, 296, r0, p, 67);
    lemma_run_ops_step(ops, 296, r0, p, 68);
    lemma_run_ops_step(ops, 296, r0, p, 69);
    lemma_run_ops_step(ops, 296, r0, p, 70);
    lemma_run_ops_step(ops, 296, r0, p, 71);
    lemma_run_ops_step(ops, 296, r0, p, 72);
    lemma_run_ops_step(ops, 296, r0, p, 73);
    lemma_run_ops_step(ops, 296, r0, p, 74);
    lemma_run_ops_step(ops, 296, r0, p, 75);
    lemma_run_ops_step(ops, 296, r0, p, 76);
    lemma_run_ops_step(ops, 296, r0, p, 77);
    lemma_run_ops_step(ops, 296, r0, p, 78);
    lemma_run_ops_step(ops, 296, r0, p, 79);
}

proof fn lemma_iadst16_col_regs_2(input: Seq<i32>, p: ButterflyParams)
    requires
        params_ok(p),
        input.len() == 16,
    ensures
        ({
            let rr = run_ops(IADST16_COL_OPS@, 296, input.push(0), p);
            &&& rr[97] == add_w(rr[21], rr[61])
            &&& rr[98] == clamp_w(rr[97], p.bd, 6)
            &&& rr[99] == sub_w(rr[21], rr[61])
            &&& rr[100] == clamp_w(rr[99], p.bd, 6)
            &&& rr[101] == add_w(rr[26], rr[66])
            &&& rr[102] == clamp_w(rr[101], p.bd, 6)
            &&& rr[103] == sub_w(rr[26], rr[66])
            &&& rr[104] == clamp_w(rr[103], p.bd, 6)
            &&& rr[105] == add_w(rr[31], rr[71])
            &&& rr[106] == clamp_w(rr[105], p.bd, 6)
            &&& rr[107] == sub_w(rr[31], rr[71])
            &&& rr[108] == clamp_w(rr[107], p.bd, 6)
            &&& rr[109] == add_w(rr[36], rr[76])
            &&& rr[110] == clamp_w(rr[109], p.bd, 6)
            &&& rr[111] == sub_w(rr[36], rr[76])
            &&& rr[112] == clamp_w(rr[111], p.bd, 6)
            &&& rr[113] == add_w(rr[41], rr[81])
            &&& rr[114] == clamp_w(rr[113], p.bd, 6)
            &&& rr[115] == sub_w(rr[41], rr[81])
            &&& rr[116] == clamp_w(rr[115], p.bd, 6)
            &&& rr[117] == add_w(rr[46], rr[86])
            &&& rr[118] == clamp_w(rr[117], p.bd, 6)
            &&& rr[119] == sub_w(rr[46], rr[86])
            &&& rr[120] == clamp_w(rr[119], p.bd, 6)
            &&& rr[121] == add_w(rr[51], rr[91])
            &&& rr[122] == clamp_w(rr[121], p.bd, 6)
            &&& rr[123] == sub_w(rr[51], rr[91])
            &&& rr[124] == clamp_w(rr[123], p.bd, 6)
            &&& rr[125] == add_w(rr[56], rr[96])
            &&& rr[126] == clamp_w(rr[125], p.bd, 6)
            &&& rr[127] == sub_w(rr[56], rr[96])
            &&& rr[128] == clamp_w(rr[127], p.bd, 6)
            &&& rr[129] == mul_w(rr[100], spec_cospi(p.bit, 8))
            &&& rr[130] == mul_w(rr[104], spec_cospi(p.bit, 56))
            &&& rr[131] == add_w(rr[129], rr[130])
            &&& rr[132] == add_w(rr[131], spec_rounding(p))
            &&& rr[133] == rr[132] >> p.bit
            &&& rr[134] == mul_w(rr[100], spec_cospi(p.bit, 56))
            &&& rr[135] == mul_w(rr[104], spec_cospi(p.bit, 8))
            &&& rr[136] == sub_w(rr[134], rr[135])
        }),
{
    reveal(IADST16_COL_OPS);
    let ops = IADST16_COL_OPS@;
    let r0 = input.push(0);
    lemma_run_ops_len(ops, 296, r0, p);
    reveal(add_w);
    reveal(sub_w);
    reveal(mul_w);
    reveal(clamp_w);
    lemma_run_ops_step(ops, 296, r0, p, 80);
    lemma_run_ops_step(ops, 296, r0, p, 81);
    lemma_run_ops_step(ops, 296, r0, p, 82);
    lemma_run_ops_step(ops, 296, r0, p, 83);
    lemma_run_ops_step(ops, 296, r0, p, 84);
    lemma_run_ops_step(ops, 296, r0, p, 85);
    lemma_run_ops_step(ops, 296, r0, p, 86);
    lemma_run_ops_step(ops, 296, r0, p, 87);
    lemma_run_ops_step(ops, 296, r0, p, 88);
    lemma_run_ops_step(ops, 296, r0, p, 89);
    lemma_run_ops_step(ops, 296, r0, p, 90);
    lemma_run_ops_step(ops, 296, r0, p, 91);
    lemma_run_ops_step(ops, 296, r0, p, 92);
    lemma_run_ops_step(ops, 296, r0, p, 93);
    lemma_run_ops_step(ops, 296, r0, p, 94);
    lemma_run_ops_step(ops, 296, r0, p, 95);
    lemma_run_ops_step(ops, 296, r0, p, 96);
    lemma_run_ops_step(ops, 296, r0, p, 97);
    lemma_run_ops_step(ops, 296, r0, p, 98);
    lemma_run_ops_step(ops, 296, r0, p, 99);
    lemma_run_ops_step(ops, 296, r0, p, 100);
    lemma_run_ops_step(ops, 296, r0, p, 101);
    lemma_run_ops_step(ops, 296, r0, p, 102);
    lemma_run_ops_step(ops, 296, r0, p, 103);
    lemma_run_ops_step(ops, 296, r0, p, 104);
    lemma_run_ops_step(ops, 296, r0, p, 105);
    lemma_run_ops_step(ops, 296, r0, p, 106);
    lemma_run_ops_step(ops, 296, r0, p, 107);
    lemma_run_ops_step(ops, 296, r0, p, 108);
    lemma_run_ops_step(ops, 296, r0, p, 109);
    lemma_run_ops_step(ops, 296, r0, p, 110);
    lemma_run_ops_step(ops, 296, r0, p, 111);
    lemma_run_ops_step(ops, 296, r0, p, 112);
    lemma_run_ops_step(ops, 296, r0, p, 113);
    lemma_run_ops_step(ops, 296, r0, p, 114);
    lemma_run_ops_step(ops, 296, r0, p, 115);
    lemma_run_ops_step(ops, 296, r0, p, 116);
    lemma_run_ops_step(ops, 296, r0, p, 117);
    lemma_run_ops_step(ops, 296, r0, p, 118);
    lemma_run_ops_step(ops, 296, r0, p, 119);
}

proof fn lemma_iadst16_col_regs_3(input: Seq<i32>, p: ButterflyParams)
    requires
        params_ok(p),
        input.len() == 16,
    ensures
        ({
            let rr = run_ops(IADST16_COL_OPS@, 296, input.push(0), p);
            &&& rr[137] == add_w(rr[136], spec_rounding(p))
            &&& rr[138] == rr[137] >> p.bit
            &&& rr[139] == mul_w(rr[108], spec_cospi(p.bit, 40))
            &&& rr[140] == mul_w(rr[112], spec_cospi(p.bit, 24))
            &&& rr[141] == add_w(rr[139], rr[140])
            &&& rr[142] == add_w(rr[141], spec_rounding(p))
            &&& rr[143] == rr[142] >> p.bit
            &&& rr[144] == mul_w(rr[108], spec_cospi(p.bit, 24))
            &&& rr[145] == mul_w(rr[112], spec_cospi(p.bit, 40))
            &&& rr[146] == sub_w(rr[144], rr[145])
            &&& rr[147] == add_w(rr[146], spec_rounding(p))
            &&& rr[148] == rr[147] >> p.bit
            &&& rr[149] == mul_w(rr[116], sub_w(0, spec_cospi(p.bit, 56)))
            &&& rr[150] == mul_w(rr[120], spec_cospi(p.bit, 8))
            &&& rr[151] == add_w(rr[149], rr[150])
            &&& rr[152] == add_w(rr[151], spec_rounding(p))
            &&& rr[153] == rr[152] >> p.bit
            &&& rr[154] == mul_w(rr[116], spec_cospi(p.bit, 8))
            &&& rr[155] == mul_w(rr[120], sub_w(0, spec_cospi(p.bit, 56)))
            &&& rr[156] == sub_w(rr[154], rr[155])
            &&& rr[157] == add_w(rr[156], spec_rounding(p))
            &&& rr[158] == rr[157] >> p.bit
            &&& rr[159] == mul_w(rr[124], sub_w(0, spec_cospi(p.bit, 24)))
            &&& rr[160] == mul_w(rr[128], spec_cospi(p.bit, 40))
            &&& rr[161] == add_w(rr[159], rr[160])
            &&& rr[162] == add_w(rr[161], spec_rounding(p))
            &&& rr[163] == rr[162] >> p.bit
            &&& rr[164] == mul_w(rr[124], spec_cospi(p.bit, 40))
            &&& rr[165] == mul_w(rr[128], sub_w(0, spec_cospi(p.bit, 24)))
            &&& rr[166] == sub_w(rr[164], rr[165])
            &&& rr[167] == add_w(rr[166], spec_rounding(p))
            &&& rr[168] == rr[167] >> p.bit
            &&& rr[169] == add_w(rr[98], rr[114])
            &&& rr[170] == clamp_w(rr[169], p.bd, 6)
            &&& rr[171] == sub_w(rr[98], rr[114])
            &&& rr[172] == clamp_w(rr[171], p.bd, 6)
            &&& rr[173] == add_w(rr[102], rr[118])
            &&& rr[174] == clamp_w(rr[173], p.bd, 6)
            &&& rr[175] == sub_w(rr[102], rr[118])
            &&& rr[176] == clamp_w(rr[175], p.bd, 6)
        }),
{
    reveal(IADST16_COL_OPS);
    let ops = IADST16_COL_OPS@;
    let r0 = input.push(0);
    lemma_run_ops_len(ops, 296, r0, p);
    reveal(add_w);
    reveal(sub_w);
    reveal(mul_w);
    reveal(clamp_w);
    lemma_run_ops_step(ops, 296, r0, p, 120);
    lemma_run_ops_step(ops, 296, r0, p, 121);
    lemma_run_ops_step(ops, 296, r0, p, 122);
    lemma_run_ops_step(ops, 296, r0, p, 123);
    lemma_run_ops_step(ops, 296, r0, p, 124);
    lemma_run_ops_step(ops, 296, r0, p, 125);
    lemma_run_ops_step(ops, 296, r0, p, 126);
    lemma_run_ops_step(ops, 296, r0, p, 127);
    lemma_run_ops_step(ops, 296, r0, p, 128);
    lemma_run_ops_step(ops, 296, r0, p, 129);
    lemma_run_ops_step(ops, 296, r0, p, 130);
    lemma_run_ops_step(ops, 296, r0, p, 131);
    lemma_run_ops_step(ops, 296, r0, p, 132);
    lemma_run_ops_step(ops, 296, r0, p, 133);
    lemma_run_ops_step(ops, 296, r0, p, 134);
    lemma_run_ops_step(ops, 296, r0, p, 135);
    lemma_run_ops_step(ops, 296, r0, p, 136);
    lemma_run_ops_step(ops, 296, r0, p, 137);
    lemma_run_ops_step(ops, 296, r0, p, 138);
    lemma_run_ops_step(ops, 296, r0, p, 139);
    lemma_run_ops_step(ops, 296, r0, p, 140);
    lemma_run_ops_step(ops, 296, r0, p, 141);
    lemma_run_ops_step(ops, 296, r0, p, 142);
    lemma_run_ops_step(ops, 296, r0, p, 143);
    lemma_run_ops_step(ops, 296, r0, p, 144);
    lemma_run_ops_step(ops, 296, r0, p, 145);
    lemma_run_ops_step(ops, 296, r0, p, 146);
    lemma_run_ops_step(ops, 296, r0, p, 147);
    lemma_run_ops_step(ops, 296, r0, p, 148);
    lemma_run_ops_step(ops, 296, r0, p, 149);
    lemma_run_ops_step(ops, 296, r0, p, 150);
    lemma_run_ops_step(ops, 296, r0, p, 151);
    lemma_run_ops_step(ops, 296, r0, p, 152);
    lemma_run_ops_step(ops, 296, r0, p, 153);
    lemma_run_ops_step(ops, 296, r0, p, 154);
    lemma_run_ops_step(ops, 296, r0, p, 155);
    lemma_run_ops_step(ops, 296, r0, p, 156);
    lemma_run_ops_step(ops, 296, r0, p, 157);
    lemma_run_ops_step(ops, 296, r0, p, 158);
    lemma_run_ops_step(ops, 296, r0, p, 159);
}

proof fn lemma_iadst16_col_regs_4(input: Seq<i32>, p: ButterflyParams)
    requires
        params_ok(p),
        input.len() == 16,
    ensures
        ({
            let rr = run_ops(IADST16_COL_OPS@, 296, input.push(0), p);
            &&& rr[177] == add_w(rr[106], rr[122])
            &&& rr[178] == clamp_w(rr[177], p.bd, 6)
            &&& rr[179] == sub_w(rr[106], rr[122])
            &&& rr[180] == clamp_w(rr[179], p.bd, 6)
            &&& rr[181] == add_w(rr[110], rr[126])
            &&& rr[182] == clamp_w(rr[181], p.bd, 6)
            &&& rr[183] == sub_w(rr[110], rr[126])
            &&& rr[184] == clamp_w(rr[183], p.bd, 6)
            &&& rr[185] == add_w(rr[133], rr[153])
            &&& rr[186] == clamp_w(rr[185], p.bd, 6)
            &&& rr[187] == sub_w(rr[133], rr[153])
            &&& rr[188] == clamp_w(rr[187], p.bd, 6)
            &&& rr[189] == add_w(rr[138], rr[158])
            &&& rr[190] == clamp_w(rr[189], p.bd, 6)
            &&& rr[191] == sub_w(rr[138], rr[158])
            &&& rr[192] == clamp_w(rr[191], p.bd, 6)
            &&& rr[193] == add_w(rr[143], rr[163])
            &&& rr[194] == clamp_w(rr[193], p.bd, 6)
            &&& rr[195] == sub_w(rr[143], rr[163])
            &&& rr[196] == clamp_w(rr[195], p.bd, 6)
            &&& rr[197] == add_w(rr[148], rr[168])
            &&& rr[198] == clamp_w(rr[197], p.bd, 6)
            &&& rr[199] == sub_w(rr[148], rr[168])
            &&& rr[200] == clamp_w(rr[199], p.bd, 6)
            &&& rr[201] == mul_w(rr[172], spec_cospi(p.bit, 16))
            &&& rr[202] == mul_w(rr[176], spec_cospi(p.bit, 48))
            &&& rr[203] == add_w(rr[201], rr[202])
            &&& rr[204] == add_w(rr[203], spec_rounding(p))
            &&& rr[205] == rr[204] >> p.bit
            &&& rr[206] == mul_w(rr[172], spec_cospi(p.bit, 48))
            &&& rr[207] == mul_w(rr[176], spec_cospi(p.bit, 16))
            &&& rr[208] == sub_w(rr[206], rr[207])
            &&& rr[209] == add_w(rr[208], spec_rounding(p))
            &&& rr[210] == rr[209] >> p.bit
            &&& rr[211] == mul_w(rr[180], sub_w(0, spec_cospi(p.bit, 48)))
            &&& rr[212] == mul_w(rr[184], spec_cospi(p.bit, 16))
            &&& rr[213] == add_w(rr[211], rr[212])
            &&& rr[214] == add_w(rr[213], spec_rounding(p))
            &&& rr[215] == rr[214] >> p.bit
            &&& rr[216] == mul_w(rr[180], spec_cospi(p.bit, 16))
        }),
{
    reveal(IADST16_COL_OPS);
    let ops = IADST16_COL_OPS@;
    let r0 = input.push(0);
    lemma_run_ops_len(ops, 296, r0, p);
    reveal(add_w);
    reveal(sub_w);
    reveal(mul_w);
    reveal(clamp_w);
    lemma_run_ops_step(ops, 296, r0, p, 160);
    lemma_run_ops_step(ops, 296, r0, p, 161);
    lemma_run_ops_step(ops, 296, r0, p, 162);
    lemma_run_ops_step(ops, 296, r0, p, 163);
    lemma_run_ops_step(ops, 296, r0, p, 164);
    lemma_run_ops_step(ops, 296, r0, p, 165);
    lemma_run_ops_step(ops, 296, r0, p, 166);
    lemma_run_ops_step(ops, 296, r0, p, 167);
    lemma_run_ops_step(ops, 296, r0, p, 168);
    lemma_run_ops_step(ops, 296, r0, p, 169);
    lemma_run_ops_step(ops, 296, r0, p, 170);
    lemma_run_ops_step(ops, 296, r0, p, 171);
    lemma_run_ops_step(ops, 296, r0, p, 172);
    lemma_run_ops_step(ops, 296, r0, p, 173);
    lemma_run_ops_step(ops, 296, r0, p, 174);
    lemma_run_ops_step(ops, 296, r0, p, 175);
    lemma_run_ops_step(ops, 296, r0, p, 176);
    lemma_run_ops_step(ops, 296, r0, p, 177);
    lemma_run_ops_step(ops, 296, r0, p, 178);
    lemma_run_ops_step(ops, 296, r0, p, 179);
    lemma_run_ops_step(ops, 296, r0, p, 180);
    lemma_run_ops_step(ops, 296, r0, p, 181);
    lemma_run_ops_step(ops, 296, r0, p, 182);
    lemma_run_ops_step(ops, 296, r0, p, 183);
    lemma_run_ops_step(ops, 296, r0, p, 184);
    lemma_run_ops_step(ops, 296, r0, p, 185);
    lemma_run_ops_step(ops, 296, r0, p, 186);
    lemma_run_ops_step(ops, 296, r0, p, 187);
    lemma_run_ops_step(ops, 296, r0, p, 188);
    lemma_run_ops_step(ops, 296, r0, p, 189);
    lemma_run_ops_step(ops, 296, r0, p, 190);
    lemma_run_ops_step(ops, 296, r0, p, 191);
    lemma_run_ops_step(ops, 296, r0, p, 192);
    lemma_run_ops_step(ops, 296, r0, p, 193);
    lemma_run_ops_step(ops, 296, r0, p, 194);
    lemma_run_ops_step(ops, 296, r0, p, 195);
    lemma_run_ops_step(ops, 296, r0, p, 196);
    lemma_run_ops_step(ops, 296, r0, p, 197);
    lemma_run_ops_step(ops, 296, r0, p, 198);
    lemma_run_ops_step(ops, 296, r0, p, 199);
}

proof fn lemma_iadst16_col_regs_5(input: Seq<i32>, p: ButterflyParams)
    requires
        params_ok(p),
        input.len() == 16,
    ensures
        ({
            let rr = run_ops(IADST16_COL_OPS@, 296, input.push(0), p);
            &&& rr[217] == mul_w(rr[184], sub_w(0, spec_cospi(p.bit, 48)))
            &&& rr[218] == sub_w(rr[216], rr[217])
            &&& rr[219] == add_w(rr[218], spec_rounding(p))
            &&& rr[220] == rr[219] >> p.bit
            &&& rr[221] == mul_w(rr[188], spec_cospi(p.bit, 16))
            &&& rr[222] == mul_w(rr[192], spec_cospi(p.bit, 48))
            &&& rr[223] == add_w(rr[221], rr[222])
            &&& rr[224] == add_w(rr[223], spec_rounding(p))
            &&& rr[225] == rr[224] >> p.bit
            &&& rr[226] == mul_w(rr[188], spec_cospi(p.bit, 48))
            &&& rr[227] == mul_w(rr[192], spec_cospi(p.bit, 16))
            &&& rr[228] == sub_w(rr[226], rr[227])
            &&& rr[229] == add_w(rr[228], spec_rounding(p))
            &&& rr[230] == rr[229] >> p.bit
            &&& rr[231] == mul_w(rr[196], sub_w(0, spec_cospi(p.bit, 48)))
            &&& rr[232] == mul_w(rr[200], spec_cospi(p.bit, 16))
            &&& rr[233] == add_w(rr[231], rr[232])
            &&& rr[234] == add_w(rr[233], spec_rounding(p))
            &&& rr[235] == rr[234] >> p.bit
            &&& rr[236] == mul_w(rr[196], spec_cospi(p.bit, 16))
            &&& rr[237] == mul_w(rr[200], sub_w(0, spec_cospi(p.bit, 48)))
            &&& rr[238] == sub_w(rr[236], rr[237])
            &&& rr[239] == add_w(rr[238], spec_rounding(p))
            &&& rr[240] == rr[239] >> p.bit
            &&& rr[241] == add_w(rr[170], rr[178])
            &&& rr[242] == clamp_w(rr[241], p.bd, 6)
            &&& rr[243] == sub_w(rr[170], rr[178])
            &&& rr[244] == clamp_w(rr[243], p.bd, 6)
            &&& rr[245] == add_w(rr[174], rr[182])
            &&& rr[246] == clamp_w(rr[245], p.bd, 6)
            &&& rr[247] == sub_w(rr[174], rr[182])
            &&& rr[248] == clamp_w(rr[247], p.bd, 6)
            &&& rr[249] == add_w(rr[205], rr[215])
            &&& rr[250] == clamp_w(rr[249], p.bd, 6)
            &&& rr[251] == sub_w(rr[205], rr[215])
            &&& rr[252] == clamp_w(rr[251], p.bd, 6)
            &&& rr[253] == add_w(rr[210], rr[220])
            &&& rr[254] == clamp_w(rr[253], p.bd, 6)
            &&& rr[255] == sub_w(rr[210], rr[220])
            &&& rr[256] == clamp_w(rr[255], p.bd, 6)
        }),
{
    reveal(IADST16_COL_OPS);
    let ops = IADST16_COL_OPS@;
    let r0 = input.push(0);
    lemma_run_ops_len(ops, 296, r0, p);
    reveal(add_w);
    reveal(sub_w);
    reveal(mul_w);
    reveal(clamp_w);
    lemma_run_ops_step(ops, 296, r0, p, 200);
    lemma_run_ops_step(ops, 296, r0, p, 201);
    lemma_run_ops_step(ops, 296, r0, p, 202);
    lemma_run_ops_step(ops, 296, r0, p, 203);
    lemma_run_ops_step(ops, 296, r0, p, 204);
    lemma_run_ops_step(ops, 296, r0, p, 205);
    lemma_run_ops_step(ops, 296, r0, p, 206);
    lemma_run_ops_step(ops, 296, r0, p, 207);
    lemma_run_ops_step(ops, 296, r0, p, 208);
    lemma_run_ops_step(ops, 296, r0, p, 209);
    lemma_run_ops_step(ops, 296, r0, p, 210);
    lemma_run_ops_step(ops, 296, r0, p, 211);
    lemma_run_ops_step(ops, 296, r0, p, 212);
    lemma_run_ops_step(ops, 296, r0, p, 213);
    lemma_run_ops_step(ops, 296, r0, p, 214);
    lemma_run_ops_step(ops, 296, r0, p, 215);
    lemma_run_ops_step(ops, 296, r0, p, 216);
    lemma_run_ops_step(ops, 296, r0, p, 217);
    lemma_run_ops_step(ops, 296, r0, p, 218);
    lemma_run_ops_step(ops, 296, r0, p, 219);
    lemma_run_ops_step(ops, 296, r0, p, 220);
    lemma_run_ops_step(ops, 296, r0, p, 221);
    lemma_run_ops_step(ops, 296, r0, p, 222);
    lemma_run_ops_step(ops, 296, r0, p, 223);
    lemma_run_ops_step(ops, 296, r0, p, 224);
    lemma_run_ops_step(ops, 296, r0, p, 225);
    lemma_run_ops_step(ops, 296, r0, p, 226);
    lemma_run_ops_step(ops, 296, r0, p, 227);
    lemma_run_ops_step(ops, 296, r0, p, 228);
    lemma_run_ops_step(ops, 296, r0, p, 229);
    lemma_run_ops_step(ops, 296, r0, p, 230);
    lemma_run_ops_step(ops, 296, r0, p, 231);
    lemma_run_ops_step(ops, 296, r0, p, 232);
    lemma_run_ops_step(ops, 296, r0, p, 233);
    lemma_run_ops_step(ops, 296, r0, p, 234);
    lemma_run_ops_step(ops, 296, r0, p, 235);
    lemma_run_ops_step(ops, 296, r0, p, 236);
    lemma_run_ops_step(ops, 296, r0, p, 237);
    lemma_run_ops_step(ops, 296, r0, p, 238);
    lemma_run_ops_step(ops, 296, r0, p, 239);
}

proof fn lemma_iadst16_col_regs_6(input: Seq<i32>, p: ButterflyParams)
    requires
        params_ok(p),
        input.len() == 16,
    ensures
        ({
            let rr = run_ops(IADST16_COL_OPS@, 296, input.push(0), p);
            &&& rr[257] == add_w(rr[186], rr[194])
            &&& rr[258] == clamp_w(rr[257], p.bd, 6)
            &&& rr[259] == sub_w(rr[186], rr[194])
            &&& rr[260] == clamp_w(rr[259], p.bd, 6)
            &&& rr[261] == add_w(rr[190], rr[198])
            &&& rr[262] == clamp_w(rr[261], p.bd, 6)
            &&& rr[263] == sub_w(rr[190], rr[198])
            &&& rr[264] == clamp_w(rr[263], p.bd, 6)
            &&& rr[265] == add_w(rr[225], rr[235])
            &&& rr[266] == clamp_w(rr[265], p.bd, 6)
            &&& rr[267] == sub_w(rr[225], rr[235])
            &&& rr[268] == clamp_w(rr[267], p.bd, 6)
            &&& rr[269] == add_w(rr[230], rr[240])
            &&& rr[270] == clamp_w(rr[269], p.bd, 6)
            &&& rr[271] == sub_w(rr[230], rr[240])
            &&& rr[272] == clamp_w(rr[271], p.bd, 6)
            &&& rr[273] == mul_w(rr[244], spec_cospi(p.bit, 32))
            &&& rr[274] == mul_w(rr[248], spec_cospi(p.bit, 32))
            &&& rr[275] == add_w(rr[273], rr[274])
            &&& rr[276] == add_w(rr[275], spec_rounding(p))
            &&& rr[277] == rr[276] >> p.bit
            &&& rr[278] == sub_w(rr[273], rr[274])
            &&& rr[279] == add_w(rr[278], spec_rounding(p))
            &&& rr[280] == rr[279] >> p.bit
            &&& rr[281] == mul_w(rr[252], spec_cospi(p.bit, 32))
            &&& rr[282] == mul_w(rr[256], spec_cospi(p.bit, 32))
            &&& rr[283] == add_w(rr[281], rr[282])
            &&& rr[284] == add_w(rr[283], spec_rounding(p))
            &&& rr[285] == rr[284] >> p.bit
            &&& rr[286] == sub_w(rr[281], rr[282])
            &&& rr[287] == add_w(rr[286], spec_rounding(p))
            &&& rr[288] == rr[287] >> p.bit
            &&& rr[289] == mul_w(rr[260], spec_cospi(p.bit, 32))
            &&& rr[290] == mul_w(rr[264], spec_cospi(p.bit, 32))
            &&& rr[291] == add_w(rr[289], rr[290])
            &&& rr[292] == add_w(rr[291], spec_rounding(p))
            &&& rr[293] == rr[292] >> p.bit
            &&& rr[294] == sub_w(rr[289], rr[290])
            &&& rr[295] == add_w(rr[294], spec_rounding(p))
            &&& rr[296] == rr[295] >> p.bit
        }),
{
    reveal(IADST16_COL_OPS);
    let ops = IADST16_COL_OPS@;
    let r0 = input.push(0);
    lemma_run_ops_len(ops, 296, r0, p);
    reveal(add_w);
    reveal(sub_w);
    reveal(mul_w);
    reveal(clamp_w);
    lemma_run_ops_step(ops, 296, r0, p, 240);
    lemma_run_ops_step(ops, 296, r0, p, 241);
    lemma_run_ops_step(ops, 296, r0, p, 242);
    lemma_run_ops_step(ops, 296, r0, p, 243);
    lemma_run_ops_step(ops, 296, r0, p, 244);
    lemma_run_ops_step(ops, 296, r0, p, 245);
    lemma_run_ops_step(ops, 296, r0, p, 246);
    lemma_run_ops_step(ops, 296, r0, p, 247);
    lemma_run_ops_step(ops, 296, r0, p, 248);
    lemma_run_ops_step(ops, 296, r0, p, 249);
    lemma_run_ops_step(ops, 296, r0, p, 250);
    lemma_run_ops_step(ops, 296, r0, p, 251);
    lemma_run_ops_step(ops, 296, r0, p, 252);
    lemma_run_ops_step(ops, 296, r0, p, 253);
    lemma_run_ops_step(ops, 296, r0, p, 254);
    lemma_run_ops_step(ops, 296, r0, p, 255);
    lemma_run_ops_step(ops, 296, r0, p, 256);
    lemma_run_ops_step(ops, 296, r0, p, 257);
    lemma_run_ops_step(ops, 296, r0, p, 258);
    lemma_run_ops_step(ops, 296, r0, p, 259);
    lemma_run_ops_step(ops, 296, r0, p, 260);
    lemma_run_ops_step(ops, 296, r0, p, 261);
    lemma_run_ops_step(ops, 296, r0, p, 262);
    lemma_run_ops_step(ops, 296, r0, p, 263);
    lemma_run_ops_step(ops, 296, r0, p, 264);
    lemma_run_ops_step(ops, 296, r0, p, 265);
    lemma_run_ops_step(ops, 296, r0, p, 266);
    lemma_run_ops_step(ops, 296, r0, p, 267);
    lemma_run_ops_step(ops, 296, r0, p, 268);
    lemma_run_ops_step(ops, 296, r0, p, 269);
    lemma_run_ops_step(ops, 296, r0, p, 270);
    lemma_run_ops_step(ops, 296, r0, p, 271);
    lemma_run_ops_step(ops, 296, r0, p, 272);
    lemma_run_ops_step(ops, 296, r0, p, 273);
    lemma_run_ops_step(ops, 296, r0, p, 274);
    lemma_run_ops_step(ops, 296, r0, p, 275);
    lemma_run_ops_step(ops, 296, r0, p, 276);
    lemma_run_ops_step(ops, 296, r0, p, 277);
    lemma_run_ops_step(ops, 296, r0, p, 278);
    lemma_run_ops_step(ops, 296, r0, p, 279);
}

proof fn lemma_iadst16_col_regs_7(input: Seq<i32>, p: ButterflyParams)
    requires
        params_ok(p),
        input.len() == 16,
    ensures
        ({
            let rr = run_ops(IADST16_COL_OPS@, 296, input.push(0), p);
            &&& rr[297] == mul_w(rr[268], spec_cospi(p.bit, 32))
            &&& rr[298] == mul_w(rr[272], spec_cospi(p.bit, 32))
            &&& rr[299] == add_w(rr[297], rr[298])
            &&& rr[300] == add_w(rr[299], spec_rounding(p))
            &&& rr[301] == rr[300] >> p.bit
            &&& rr[302] == sub_w(rr[297], rr[298])
            &&& rr[303] == add_w(rr[302], spec_rounding(p))
            &&& rr[304] == rr[303] >> p.bit
            &&& rr[305] == sub_w(rr[16], rr[258])
            &&& rr[306] == sub_w(rr[16], rr[250])
            &&& rr[307] == sub_w(rr[16], rr[301])
            &&& rr[308] == sub_w(rr[16], rr[277])
            &&& rr[309] == sub_w(rr[16], rr[296])
            &&& rr[310] == sub_w(rr[16], rr[288])
            &&& rr[311] == sub_w(rr[16], rr[270])
            &&& rr[312] == sub_w(rr[16], rr[246])
        }),
{
    reveal(IADST16_COL_OPS);
    let ops = IADST16_COL_OPS@;
    let r0 = input.push(0);
    lemma_run_ops_len(ops, 296, r0, p);
    reveal(add_w);
    reveal(sub_w);
    reveal(mul_w);
    lemma_run_ops_step(ops, 296, r0, p, 280);
    lemma_run_ops_step(ops, 296, r0, p, 281);
    lemma_run_ops_step(ops, 296, r0, p, 282);
    lemma_run_ops_step(ops, 296, r0, p, 283);
    lemma_run_ops_step(ops, 296, r0, p, 284);
    lemma_run_ops_step(ops, 296, r0, p, 285);
    lemma_run_ops_step(ops, 296, r0, p, 286);
    lemma_run_ops_step(ops, 296, r0, p, 287);
    lemma_run_ops_step(ops, 296, r0, p, 288);
    lemma_run_ops_step(ops, 296, r0, p, 289);
    lemma_run_ops_step(ops, 296, r0, p, 290);
    lemma_run_ops_step(ops, 296, r0, p, 291);
    lemma_run_ops_step(ops, 296, r0, p, 292);
    lemma_run_ops_step(ops, 296, r0, p, 293);
    lemma_run_ops_step(ops, 296, r0, p, 294);
    lemma_run_ops_step(ops, 296, r0, p, 295);
}

/// The column pass of the 16-point inverse ADST computes its stages.
#[verifier::rlimit(100)]
pub proof fn law_iadst16_col_stages(input: Seq<i32>, p: ButterflyParams)
    requires
        params_ok(p),
        input.len() == 16,
    ensures
        kernel_output(TxfmKernel::Iadst16, true, input, p) == spec_iadst16_col(input, p),
{
    reveal(IADST16_COL_OUTS);
    let ops = IADST16_COL_OPS@;
    let r0 = input.push(0);
    lemma_run_ops_len(ops, 296, r0, p);
    let rr = run_ops(ops, 296, r0, p);
    assert forall|k: int| 0 <= k < 17 implies rr[k] == r0[k] by {
        lemma_run_ops_prefix(ops, 0, 296, r0, p, k);
    }
    lemma_iadst16_col_regs_0(input, p);
    lemma_iadst16_col_regs_1(input, p);
    lemma_iadst16_col_regs_2(input, p);
    lemma_iadst16_col_regs_3(input, p);
    lemma_iadst16_col_regs_4(input, p);
    lemma_iadst16_col_regs_5(input, p);
    lemma_iadst16_col_regs_6(input, p);
    lemma_iadst16_col_regs_7(input, p);
    assert(kernel_output(TxfmKernel::Iadst16, true, input, p) =~= spec_iadst16_col(input, p));
}

proof fn lemma_iadst16_row_regs_0(input: Seq<i32>, p: ButterflyParams)
    requires
        params_ok(p),
        input.len() == 16,
    ensures
        ({
            let rr = run_ops(IADST16_ROW_OPS@, 336, input.push(0), p);
            &&& rr[17] == mul_w(rr[15], spec_cospi(p.bit, 2))
            &&& rr[18] == mul_w(rr[0], spec_cospi(p.bit, 62))
            &&& rr[19] == add_w(rr[17], rr[18])
            &&& rr[20] == add_w(rr[19], spec_rounding(p))
            &&& rr[21] == rr[20] >> p.bit
            &&& rr[22] == mul_w(rr[15], spec_cospi(p.bit, 62))
            &&& rr[23] == mul_w(rr[0], spec_cospi(p.bit, 2))
            &&& rr[24] == sub_w(rr[22], rr[23])
            &&& rr[25] == add_w(rr[24], spec_rounding(p))
            &&& rr[26] == rr[25] >> p.bit
            &&& rr[27] == mul_w(rr[13], spec_cospi(p.bit, 10))
            &&& rr[28] == mul_w(rr[2], spec_cospi(p.bit, 54))
            &&& rr[29] == add_w(rr[27], rr[28])
            &&& rr[30] == add_w(rr[29], spec_rounding(p))
            &&& rr[31] == rr[30] >> p.bit
            &&& rr[32] == mul_w(rr[13], spec_cospi(p.bit, 54))
            &&& rr[33] == mul_w(rr[2], spec_cospi(p.bit, 10))
            &&& rr[34] == sub_w(rr[32], rr[33])
            &&& rr[35] == add_w(rr[34], spec_rounding(p))
            &&& rr[36] == rr[35] >> p.bit
            &&& rr[37] == mul_w(rr[11], spec_cospi(p.bit, 18))
            &&& rr[38] == mul_w(rr[4], spec_cospi(p.bit, 46))
            &&& rr[39] == add_w(rr[37], rr[38])
            &&& rr[40] == add_w(rr[39], spec_rounding(p))
            &&& rr[41] == rr[40] >> p.bit
            &&& rr[42] == mul_w(rr[11], spec_cospi(p.bit, 46))
            &&& rr[43] == mul_w(rr[4], spec_cospi(p.bit, 18))
            &&& rr[44] == sub_w(rr[42], rr[43])
            &&& rr[45] == add_w(rr[44], spec_rounding(p))
            &&& rr[46] == rr[45] >> p.bit
            &&& rr[47] == mul_w(rr[9], spec_cospi(p.bit, 26))
            &&& rr[48] == mul_w(rr[6], spec_cospi(p.bit, 38))
            &&& rr[49] == add_w(rr[47], rr[48])
            &&& rr[50] == add_w(rr[49], spec_rounding(p))
            &&& rr[51] == rr[50] >> p.bit
            &&& rr[52] == mul_w(rr[9], spec_cospi(p.bit, 38))
            &&& rr[53] == mul_w(rr[6], spec_cospi(p.bit, 26))
            &&& rr[54] == sub_w(rr[52], rr[53])
            &&& rr[55] == add_w(rr[54], spec_rounding(p))
            &&& rr[56] == rr[55] >> p.bit
        }),
{
    reveal(IADST16_ROW_OPS);
    let ops = IADST16_ROW_OPS@;
    let r0 = input.push(0);
    lemma_run_ops_len(ops, 336, r0, p);
    reveal(add_w);
    reveal(sub_w);
    reveal(mul_w);
    lemma_run_ops_step(ops, 336, r0, p, 0);
    lemma_run_ops_step(ops, 336, r0, p, 1);
    lemma_run_ops_step(ops, 336, r0, p, 2);
    lemma_run_ops_step(ops, 336, r0, p, 3);
    lemma_run_ops_step(ops, 336, r0, p, 4);
    lemma_run_ops_step(ops, 336, r0, p, 5);
    lemma_run_ops_step(ops, 336, r0, p, 6);
    lemma_run_ops_step(ops, 336, r0, p, 7);
    lemma_run_ops_step(ops, 336, r0, p, 8);
    lemma_run_ops_step(ops, 336, r0, p, 9);
    lemma_run_ops_step(ops, 336, r0, p, 10);
    lemma_run_ops_step(ops, 336, r0, p, 11);
    lemma_run_ops_step(ops, 336, r0, p, 12);
    lemma_run_ops_step(ops, 336, r0, p, 13);
    lemma_run_ops_step(ops, 336, r0, p, 14);
    lemma_run_ops_step(ops, 336, r0, p, 15);
    lemma_run_ops_step(ops, 336, r0, p, 16);
    lemma_run_ops_step(ops, 336, r0, p, 17);
    lemma_run_ops_step(ops, 336, r0, p, 18);
    lemma_run_ops_step(ops, 336, r0, p, 19);
    lemma_run_ops_step(ops, 336, r0, p, 20);
    lemma_run_ops_step(ops, 336, r0, p, 21);
    lemma_run_ops_step(ops, 336, r0, p, 22);
    lemma_run_ops_step(ops, 336, r0, p, 23);
    lemma_run_ops_step(ops, 336, r0, p, 24);
    lemma_run_ops_step(ops, 336, r0, p, 25);
    lemma_run_ops_step(ops, 336, r0, p, 26);
    lemma_run_ops_step(ops, 336, r0, p, 27);
    lemma_run_ops_step(ops, 336, r0, p, 28);
    lemma_run_ops_step(ops, 336, r0, p, 29);
    lemma_run_ops_step(ops, 336, r0, p, 30);
    lemma_run_ops_step(ops, 336, r0, p, 31);
    lemma_run_ops_step(ops, 336, r0, p, 32);
    lemma_run_ops_step(ops, 336, r0, p, 33);
    lemma_run_ops_step(ops, 336, r0, p, 34);
    lemma_run_ops_step(ops, 336, r0, p, 35);
    lemma_run_ops_step(ops, 336, r0, p, 36);
    lemma_run_ops_step(ops, 336, r0, p, 37);
    lemma_run_ops_step(ops, 336, r0, p, 38);
    lemma_run_ops_step(ops, 336, r0, p, 39);
}

proof fn lemma_iadst16_row_regs_1(input: Seq<i32>, p: ButterflyParams)
    requires
        params_ok(p),
        input.len() == 16,
    ensures
        ({
            let rr = run_ops(IADST16_ROW_OPS@, 336, input.push(0), p);
            &&& rr[57] == mul_w(rr[7], spec_cospi(p.bit, 34))
            &&& rr[58] == mul_w(rr[8], spec_cospi(p.bit, 30))
            &&& rr[59] == add_w(rr[57], rr[58])
            &&& rr[60] == add_w(rr[59], spec_rounding(p))
            &&& rr[61] == rr[60] >> p.bit
            &&& rr[62] == mul_w(rr[7], spec_cospi(p.bit, 30))
            &&& rr[63] == mul_w(rr[8], spec_cospi(p.bit, 34))
            &&& rr[64] == sub_w(rr[62], rr[63])
            &&& rr[65] == add_w(rr[64], spec_rounding(p))
            &&& rr[66] == rr[65] >> p.bit
            &&& rr[67] == mul_w(rr[5], spec_cospi(p.bit, 42))
            &&& rr[68] == mul_w(rr[10], spec_cospi(p.bit, 22))
            &&& rr[69] == add_w(rr[67], rr[68])
            &&& rr[70] == add_w(rr[69], spec_rounding(p))
            &&& rr[71] == rr[70] >> p.bit
            &&& rr[72] == mul_w(rr[5], spec_cospi(p.bit, 22))
            &&& rr[73] == mul_w(rr[10], spec_cospi(p.bit, 42))
            &&& rr[74] == sub_w(rr[72], rr[73])
            &&& rr[75] == add_w(rr[74], spec_rounding(p))
            &&& rr[76] == rr[75] >> p.bit
            &&& rr[77] == mul_w(rr[3], spec_cospi(p.bit, 50))
            &&& rr[78] == mul_w(rr[12], spec_cospi(p.bit, 14))
            &&& rr[79] == add_w(rr[77], rr[78])
            &&& rr[80] == add_w(rr[79], spec_rounding(p))
            &&& rr[81] == rr[80] >> p.bit
            &&& rr[82] == mul_w(rr[3], spec_cospi(p.bit, 14))
            &&& rr[83] == mul_w(rr[12], spec_cospi(p.bit, 50))
            &&& rr[84] == sub_w(rr[82], rr[83])
            &&& rr[85] == add_w(rr[84], spec_rounding(p))
            &&& rr[86] == rr[85] >> p.bit
            &&& rr[87] == mul_w(rr[1], spec_cospi(p.bit, 58))
            &&& rr[88] == mul_w(rr[14], spec_cospi(p.bit, 6))
            &&& rr[89] == add_w(rr[87], rr[88])
            &&& rr[90] == add_w(rr[89], spec_rounding(p))
            &&& rr[91] == rr[90] >> p.bit
            &&& rr[92] == mul_w(rr[1], spec_cospi(p.bit, 6))
            &&& rr[93] == mul_w(rr[14], spec_cospi(p.bit, 58))
            &&& rr[94] == sub_w(rr[92], rr[93])
            &&& rr[95] == add_w(rr[94], spec_rounding(p))
            &&& rr[96] == rr[95] >> p.bit
        }),
{
    reveal(IADST16_ROW_OPS);
    let ops = IADST16_ROW_OPS@;
    let r0 = input.push(0);
    lemma_run_ops_len(ops, 336, r0, p);
    reveal(add_w);
    reveal(sub_w);
    reveal(mul_w);
    lemma_run_ops_step(ops, 336, r0, p, 40);
    lemma_run_ops_step(ops, 336, r0, p, 41);
    lemma_run_ops_step(ops, 336, r0, p, 42);
    lemma_run_ops_step(ops, 336, r0, p, 43);
    lemma_run_ops_step(ops, 336, r0, p, 44);
    lemma_run_ops_step(ops, 336, r0, p, 45);
    lemma_run_ops_step(ops, 336, r0, p, 46);
    lemma_run_ops_step(ops, 336, r0, p, 47);
    lemma_run_ops_step(ops, 336, r0, p, 48);
    lemma_run_ops_step(ops, 336, r0, p, 49);
    lemma_run_ops_step(ops, 336, r0, p, 50);
    lemma_run_ops_step(ops, 336, r0, p, 51);
    lemma_run_ops_step(ops, 336, r0, p, 52);
    lemma_run_ops_step(ops, 336, r0, p, 53);
    lemma_run_ops_step(ops, 336, r0, p, 54);
    lemma_run_ops_step(ops, 336, r0, p, 55);
    lemma_run_ops_step(ops, 336, r0, p, 56);
    lemma_run_ops_step(ops, 336, r0, p, 57);
    lemma_run_ops_step(ops, 336, r0, p, 58);
    lemma_run_ops_step(ops, 336, r0, p, 59);
    lemma_run_ops_step(ops, 336, r0, p, 60);
    lemma_run_ops_step(ops, 336, r0, p, 61);
    lemma_run_ops_step(ops, 336, r0, p, 62);
    lemma_run_ops_step(ops, 336, r0, p, 63);
    lemma_run_ops_step(ops, 336, r0, p, 64);
    lemma_run_ops_step(ops, 336, r0, p, 65);
    lemma_run_ops_step(ops, 336, r0, p, 66);
    lemma_run_ops_step(ops, 336, r0, p, 67);
    lemma_run_ops_step(ops, 336, r0, p, 68);
    lemma_run_ops_step(ops, 336, r0, p, 69);
    lemma_run_ops_step(ops, 336, r0, p, 70);
    lemma_run_ops_step(ops, 336, r0, p, 71);
    lemma_run_ops_step(ops, 336, r0, p, 72);
    lemma_run_ops_step(ops, 336, r0, p, 73);
    lemma_run_ops_step(ops, 336, r0, p, 74);
    lemma_run_ops_step(ops, 336, r0, p, 75);
    lemma_run_ops_step(ops, 336, r0, p, 76);
    lemma_run_ops_step(ops, 336, r0, p, 77);
    lemma_run_ops_step(ops, 336, r0, p, 78);
    lemma_run_ops_step(ops, 336, r0, p, 79);
}

proof fn lemma_iadst16_row_regs_2(input: Seq<i32>, p: ButterflyParams)
    requires
        params_ok(p),
        input.len() == 16,
    ensures
        ({
            let rr = run_ops(IADST16_ROW_OPS@, 336, input.push(0), p);
            &&& rr[97] == add_w(rr[21], rr[61])
            &&& rr[98] == clamp_w(rr[97], p.bd, 8)
            &&& rr[99] == sub_w(rr[21], rr[61])
            &&& rr[100] == clamp_w(rr[99], p.bd, 8)
            &&& rr[101] == add_w(rr[26], rr[66])
            &&& rr[102] == clamp_w(rr[101], p.bd, 8)
            &&& rr[103] == sub_w(rr[26], rr[66])
            &&& rr[104] == clamp_w(rr[103], p.bd, 8)
            &&& rr[105] == add_w(rr[31], rr[71])
            &&& rr[106] == clamp_w(rr[105], p.bd, 8)
            &&& rr[107] == sub_w(rr[31], rr[71])
            &&& rr[108] == clamp_w(rr[107], p.bd, 8)
            &&& rr[109] == add_w(rr[36], rr[76])
            &&& rr[110] == clamp_w(rr[109], p.bd, 8)
            &&& rr[111] == sub_w(rr[36], rr[76])
            &&& rr[112] == clamp_w(rr[111], p.bd, 8)
            &&& rr[113] == add_w(rr[41], rr[81])
            &&& rr[114] == clamp_w(rr[113], p.bd, 8)
            &&& rr[115] == sub_w(rr[41], rr[81])
            &&& rr[116] == clamp_w(rr[115], p.bd, 8)
            &&& rr[117] == add_w(rr[46], rr[86])
            &&& rr[118] == clamp_w(rr[117], p.bd, 8)
            &&& rr[119] == sub_w(rr[46], rr[86])
            &&& rr[120] == clamp_w(rr[119], p.bd, 8)
            &&& rr[121] == add_w(rr[51], rr[91])
            &&& rr[122] == clamp_w(rr[121], p.bd, 8)
            &&& rr[123] == sub_w(rr[51], rr[91])
            &&& rr[124] == clamp_w(rr[123], p.bd, 8)
            &&& rr[125] == add_w(rr[56], rr[96])
            &&& rr[126] == clamp_w(rr[125], p.bd, 8)
            &&& rr[127] == sub_w(rr[56], rr[96])
            &&& rr[128] == clamp_w(rr[127], p.bd, 8)
            &&& rr[129] == mul_w(rr[100], spec_cospi(p.bit, 8))
            &&& rr[130] == mul_w(rr[104], spec_cospi(p.bit, 56))
            &&& rr[131] == add_w(rr[129], rr[130])
            &&& rr[132] == add_w(rr[131], spec_rounding(p))
            &&& rr[133] == rr[132] >> p.bit
            &&& rr[134] == mul_w(rr[100], spec_cospi(p.bit, 56))
            &&& rr[135] == mul_w(rr[104], spec_cospi(p.bit, 8))
            &&& rr[136] == sub_w(rr[134], rr[135])
        }),
{
    reveal(IADST16_ROW_OPS);
    let ops = IADST16_ROW_OPS@;
    let r0 = input.push(0);
    lemma_run_ops_len(ops, 336, r0, p);
    reveal(add_w);
    reveal(sub_w);
    reveal(mul_w);
    reveal(clamp_w);
    lemma_run_ops_step(ops, 336, r0, p, 80);
    lemma_run_ops_step(ops, 336, r0, p, 81);
    lemma_run_ops_step(ops, 336, r0, p, 82);
    lemma_run_ops_step(ops, 336, r0, p, 83);
    lemma_run_ops_step(ops, 336, r0, p, 84);
    lemma_run_ops_step(ops, 336, r0, p, 85);
    lemma_run_ops_step(ops, 336, r0, p, 86);
    lemma_run_ops_step(ops, 336, r0, p, 87);
    lemma_run_ops_step(ops, 336, r0, p, 88);
    lemma_run_ops_step(ops, 336, r0, p, 89);
    lemma_run_ops_step(ops, 336, r0, p, 90);
    lemma_run_ops_step(ops, 336, r0, p, 91);
    lemma_run_ops_step(ops, 336, r0, p, 92);
    lemma_run_ops_step(ops, 336, r0, p, 93);
    lemma_run_ops_step(ops, 336, r0, p, 94);
    lemma_run_ops_step(ops, 336, r0, p, 95);
    lemma_run_ops_step(ops, 336, r0, p, 96);
    lemma_run_ops_step(ops, 336, r0, p, 97);
    lemma_run_ops_step(ops, 336, r0, p, 98);
    lemma_run_ops_step(ops, 336, r0, p, 99);
    lemma_run_ops_step(ops, 336, r0, p, 100);
    lemma_run_ops_step(ops, 336, r0, p, 101);
    lemma_run_ops_step(ops, 336, r0, p, 102);
    lemma_run_ops_step(ops, 336, r0, p, 103);
    lemma_run_ops_step(ops, 336, r0, p, 104);
    lemma_run_ops_step(ops, 336, r0, p, 105);
    lemma_run_ops_step(ops, 336, r0, p, 106);
    lemma_run_ops_step(ops, 336, r0, p, 107);
    lemma_run_ops_step(ops, 336, r0, p, 108);
    lemma_run_ops_step(ops, 336, r0, p, 109);
    lemma_run_ops_step(ops, 336, r0, p, 110);
    lemma_run_ops_step(ops, 336, r0, p, 111);
    lemma_run_ops_step(ops, 336, r0, p, 112);
    lemma_run_ops_step(ops, 336, r0, p, 113);
    lemma_run_ops_step(ops, 336, r0, p, 114);
    lemma_run_ops_step(ops, 336, r0, p, 115);
    lemma_run_ops_step(ops, 336, r0, p, 116);
    lemma_run_ops_step(ops, 336, r0, p, 117);
    lemma_run_ops_step(ops, 336, r0, p, 118);
    lemma_run_ops_step(ops, 336, r0, p, 119);
}

proof fn lemma_iadst16_row_regs_3(input: Seq<i32>, p: ButterflyParams)
    requires
        params_ok(p),
        input.len() == 16,
    ensures
        ({
            let rr = run_ops(IADST16_ROW_OPS@, 336, input.push(0), p);
            &&& rr[137] == add_w(rr[136], spec_rounding(p))
            &&& rr[138] == rr[137] >> p.bit
            &&& rr[139] == mul_w(rr[108], spec_cospi(p.bit, 40))
            &&& rr[140] == mul_w(rr[112], spec_cospi(p.bit, 24))
            &&& rr[141] == add_w(rr[139], rr[140])
            &&& rr[142] == add_w(rr[141], spec_rounding(p))
            &&& rr[143] == rr[142] >> p.bit
            &&& rr[144] == mul_w(rr[108], spec_cospi(p.bit, 24))
            &&& rr[145] == mul_w(rr[112], spec_cospi(p.bit, 40))
            &&& rr[146] == sub_w(rr[144], rr[145])
            &&& rr[147] == add_w(rr[146], spec_rounding(p))
            &&& rr[148] == rr[147] >> p.bit
            &&& rr[149] == mul_w(rr[116], sub_w(0, spec_cospi(p.bit, 56)))
            &&& rr[150] == mul_w(rr[120], spec_cospi(p.bit, 8))
            &&& rr[151] == add_w(rr[149], rr[150])
            &&& rr[152] == add_w(rr[151], spec_rounding(p))
            &&& rr[153] == rr[152] >> p.bit
            &&& rr[154] == mul_w(rr[116], spec_cospi(p.bit, 8))
            &&& rr[155] == mul_w(rr[120], sub_w(0, spec_cospi(p.bit, 56)))
            &&& rr[156] == sub_w(rr[154], rr[155])
            &&& rr[157] == add_w(rr[156], spec_rounding(p))
            &&& rr[158] == rr[157] >> p.bit
            &&& rr[159] == mul_w(rr[124], sub_w(0, spec_cospi(p.bit, 24)))
            &&& rr[160] == mul_w(rr[128], spec_cospi(p.bit, 40))
            &&& rr[161] == add_w(rr[159], rr[160])
            &&& rr[162] == add_w(rr[161], spec_rounding(p))
            &&& rr[163] == rr[162] >> p.bit
            &&& rr[164] == mul_w(rr[124], spec_cospi(p.bit, 40))
            &&& rr[165] == mul_w(rr[128], sub_w(0, spec_cospi(p.bit, 24)))
            &&& rr[166] == sub_w(rr[164], rr[165])
            &&& rr[167] == add_w(rr[166], spec_rounding(p))
            &&& rr[168] == rr[167] >> p.bit
            &&& rr[169] == add_w(rr[98], rr[114])
            &&& rr[170] == clamp_w(rr[169], p.bd, 8)
            &&& rr[171] == sub_w(rr[98], rr[114])
            &&& rr[172] == clamp_w(rr[171], p.bd, 8)
            &&& rr[173] == add_w(rr[102], rr[118])
            &&& rr[174] == clamp_w(rr[173], p.bd, 8)
            &&& rr[175] == sub_w(rr[102], rr[118])
            &&& rr[176] == clamp_w(rr[175], p.bd, 8)
        }),
{
    reveal(IADST16_ROW_OPS);
    let ops = IADST16_ROW_OPS@;
    let r0 = input.push(0);
    lemma_run_ops_len(ops, 336, r0, p);
    reveal(add_w);
    reveal(sub_w);
    reveal(mul_w);
    reveal(clamp_w);
    lemma_run_ops_step(ops, 336, r0, p, 120);
    lemma_run_ops_step(ops, 336, r0, p, 121);
    lemma_run_ops_step(ops, 336, r0, p, 122);
    lemma_run_ops_step(ops, 336, r0, p, 123);
    lemma_run_ops_step(ops, 336, r0, p, 124);
    lemma_run_ops_step(ops, 336, r0, p, 125);
    lemma_run_ops_step(ops, 336, r0, p, 126);
    lemma_run_ops_step(ops, 336, r0, p, 127);
    lemma_run_ops_step(ops, 336, r0, p, 128);
    lemma_run_ops_step(ops, 336, r0, p, 129);
    lemma_run_ops_step(ops, 336, r0, p, 130);
    lemma_run_ops_step(ops, 336, r0, p, 131);
    lemma_run_ops_step(ops, 336, r0, p, 132);
    lemma_run_ops_step(ops, 336, r0, p, 133);
    lemma_run_ops_step(ops, 336, r0, p, 134);
    lemma_run_ops_step(ops, 336, r0, p, 135);
    lemma_run_ops_step(ops, 336, r0, p, 136);
    lemma_run_ops_step(ops, 336, r0, p, 137);
    lemma_run_ops_step(ops, 336, r0, p, 138);
    lemma_run_ops_step(ops, 336, r0, p, 139);
    lemma_run_ops_step(ops, 336, r0, p, 140);
    lemma_run_ops_step(ops, 336, r0, p, 141);
    lemma_run_ops_step(ops, 336, r0, p, 142);
    lemma_run_ops_step(ops, 336, r0, p, 143);
    lemma_run_ops_step(ops, 336, r0, p, 144);
    lemma_run_ops_step(ops, 336, r0, p, 145);
    lemma_run_ops_step(ops, 336, r0, p, 146);
    lemma_run_ops_step(ops, 336, r0, p, 147);
    lemma_run_ops_step(ops, 336, r0, p, 148);
    lemma_run_ops_step(ops, 336, r0, p, 149);
    lemma_run_ops_step(ops, 336, r0, p, 150);
    lemma_run_ops_step(ops, 336, r0, p, 151);
    lemma_run_ops_step(ops, 336, r0, p, 152);
    lemma_run_ops_step(ops, 336, r0, p, 153);
    lemma_run_ops_step(ops, 336, r0, p, 154);
    lemma_run_ops_step(ops, 336, r0, p, 155);
    lemma_run_ops_step(ops, 336, r0, p, 156);
    lemma_run_ops_step(ops, 336, r0, p, 157);
    lemma_run_ops_step(ops, 336, r0, p, 158);
    lemma_run_ops_step(ops, 336, r0, p, 159);
}

proof fn lemma_iadst16_row_regs_4(input: Seq<i32>, p: ButterflyParams)
    requires
        params_ok(p),
        input.len() == 16,
    ensures
        ({
            let rr = run_ops(IADST16_ROW_OPS@, 336, input.push(0), p);
            &&& rr[177] == add_w(rr[106], rr[122])
            &&& rr[178] == clamp_w(rr[177], p.bd, 8)
            &&& rr[179] == sub_w(rr[106], rr[122])
            &&& rr[180] == clamp_w(rr[179], p.bd, 8)
            &&& rr[181] == add_w(rr[110], rr[126])
            &&& rr[182] == clamp_w(rr[181], p.bd, 8)
            &&& rr[183] == sub_w(rr[110], rr[126])
            &&& rr[184] == clamp_w(rr[183], p.bd, 8)
            &&& rr[185] == add_w(rr[133], rr[153])
            &&& rr[186] == clamp_w(rr[185], p.bd, 8)
            &&& rr[187] == sub_w(rr[133], rr[153])
            &&& rr[188] == clamp_w(rr[187], p.bd, 8)
            &&& rr[189] == add_w(rr[138], rr[158])
            &&& rr[190] == clamp_w(rr[189], p.bd, 8)
            &&& rr[191] == sub_w(rr[138], rr[158])
            &&& rr[192] == clamp_w(rr[191], p.bd, 8)
            &&& rr[193] == add_w(rr[143], rr[163])
            &&& rr[194] == clamp_w(rr[193], p.bd, 8)
            &&& rr[195] == sub_w(rr[143], rr[163])
            &&& rr[196] == clamp_w(rr[195], p.bd, 8)
            &&& rr[197] == add_w(rr[148], rr[168])
            &&& rr[198] == clamp_w(rr[197], p.bd, 8)
            &&& rr[199] == sub_w(rr[148], rr[168])
            &&& rr[200] == clamp_w(rr[199], p.bd, 8)
            &&& rr[201] == mul_w(rr[172], spec_cospi(p.bit, 16))
            &&& rr[202] == mul_w(rr[176], spec_cospi(p.bit, 48))
            &&& rr[203] == add_w(rr[201], rr[202])
            &&& rr[204] == add_w(rr[203], spec_rounding(p))
            &&& rr[205] == rr[204] >> p.bit
            &&& rr[206] == mul_w(rr[172], spec_cospi(p.bit, 48))
            &&& rr[207] == mul_w(rr[176], spec_cospi(p.bit, 16))
            &&& rr[208] == sub_w(rr[206], rr[207])
            &&& rr[209] == add_w(rr[208], spec_rounding(p))
            &&& rr[210] == rr[209] >> p.bit
            &&& rr[211] == mul_w(rr[180], sub_w(0, spec_cospi(p.bit, 48)))
            &&& rr[212] == mul_w(rr[184], spec_cospi(p.bit, 16))
            &&& rr[213] == add_w(rr[211], rr[212])
            &&& rr[214] == add_w(rr[213], spec_rounding(p))
            &&& rr[215] == rr[214] >> p.bit
            &&& rr[216] == mul_w(rr[180], spec_cospi(p.bit, 16))
        }),
{
    reveal(IADST16_ROW_OPS);
    let ops = IADST16_ROW_OPS@;
    let r0 = input.push(0);
    lemma_run_ops_len(ops, 336, r0, p);
    reveal(add_w);
    reveal(sub_w);
    reveal(mul_w);
    reveal(clamp_w);
    lemma_run_ops_step(ops, 336, r0, p, 160);
    lemma_run_ops_step(ops, 336, r0, p, 161);
    lemma_run_ops_step(ops, 336, r0, p, 162);
    lemma_run_ops_step(ops, 336, r0, p, 163);
    lemma_run_ops_step(ops, 336, r0, p, 164);
    lemma_run_ops_step(ops, 336, r0, p, 165);
    lemma_run_ops_step(ops, 336, r0, p, 166);
    lemma_run_ops_step(ops, 336, r0, p, 167);
    lemma_run_ops_step(ops, 336, r0, p, 168);
    lemma_run_ops_step(ops, 336, r0, p, 169);
    lemma_run_ops_step(ops, 336, r0, p, 170);
    lemma_run_ops_step(ops, 336, r0, p, 171);
    lemma_run_ops_step(ops, 336, r0, p, 172);
    lemma_run_ops_step(ops, 336, r0, p, 173);
    lemma_run_ops_step(ops, 336, r0, p, 174);
    lemma_run_ops_step(ops, 336, r0, p, 175);
    lemma_run_ops_step(ops, 336, r0, p, 176);
    lemma_run_ops_step(ops, 336, r0, p, 177);
    lemma_run_ops_step(ops, 336, r0, p, 178);
    lemma_run_ops_step(ops, 336, r0, p, 179);
    lemma_run_ops_step(ops, 336, r0, p, 180);
    lemma_run_ops_step(ops, 336, r0, p, 181);
    lemma_run_ops_step(ops, 336, r0, p, 182);
    lemma_run_ops_step(ops, 336, r0, p, 183);
    lemma_run_ops_step(ops, 336, r0, p, 184);
    lemma_run_ops_step(ops, 336, r0, p, 185);
    lemma_run_ops_step(ops, 336, r0, p, 186);
    lemma_run_ops_step(ops, 336, r0, p, 187);
    lemma_run_ops_step(ops, 336, r0, p, 188);
    lemma_run_ops_step(ops, 336, r0, p, 189);
    lemma_run_ops_step(ops, 336, r0, p, 190);
    lemma_run_ops_step(ops, 336, r0, p, 191);
    lemma_run_ops_step(ops, 336, r0, p, 192);
    lemma_run_ops_step(ops, 336, r0, p, 193);
    lemma_run_ops_step(ops, 336, r0, p, 194);
    lemma_run_ops_step(ops, 336, r0, p, 195);
    lemma_run_ops_step(ops, 336, r0, p, 196);
    lemma_run_ops_step(ops, 336, r0, p, 197);
    lemma_run_ops_step(ops, 336, r0, p, 198);
    lemma_run_ops_step(ops, 336, r0, p, 199);
}

proof fn lemma_iadst16_row_regs_5(input: Seq<i32>, p: ButterflyParams)
    requires
        params_ok(p),
        input.len() == 16,
    ensures
        ({
            let rr = run_ops(IADST16_ROW_OPS@, 336, input.push(0), p);
            &&& rr[217] == mul_w(rr[184], sub_w(0, spec_cospi(p.bit, 48)))
            &&& rr[218] == sub_w(rr[216], rr[217])
            &&& rr[219] == add_w(rr[218], spec_rounding(p))
            &&& rr[220] == rr[219] >> p.bit
            &&& rr[221] == mul_w(rr[188], spec_cospi(p.bit, 16))
            &&& rr[222] == mul_w(rr[192], spec_cospi(p.bit, 48))
            &&& rr[223] == add_w(rr[221], rr[222])
            &&& rr[224] == add_w(rr[223], spec_rounding(p))
            &&& rr[225] == rr[224] >> p.bit
            &&& rr[226] == mul_w(rr[188], spec_cospi(p.bit, 48))
            &&& rr[227] == mul_w(rr[192], spec_cospi(p.bit, 16))
            &&& rr[228] == sub_w(rr[226], rr[227])
            &&& rr[229] == add_w(rr[228], spec_rounding(p))
            &&& rr[230] == rr[229] >> p.bit
            &&& rr[231] == mul_w(rr[196], sub_w(0, spec_cospi(p.bit, 48)))
            &&& rr[232] == mul_w(rr[200], spec_cospi(p.bit, 16))
            &&& rr[233] == add_w(rr[231], rr[232])
            &&& rr[234] == add_w(rr[233], spec_rounding(p))
            &&& rr[235] == rr[234] >> p.bit
            &&& rr[236] == mul_w(rr[196], spec_cospi(p.bit, 16))
            &&& rr[237] == mul_w(rr[200], sub_w(0, spec_cospi(p.bit, 48)))
            &&& rr[238] == sub_w(rr[236], rr[237])
            &&& rr[239] == add_w(rr[238], spec_rounding(p))
            &&& rr[240] == rr[239] >> p.bit
            &&& rr[241] == add_w(rr[170], rr[178])
            &&& rr[242] == clamp_w(rr[241], p.bd, 8)
            &&& rr[243] == sub_w(rr[170], rr[178])
            &&& rr[244] == clamp_w(rr[243], p.bd, 8)
            &&& rr[245] == add_w(rr[174], rr[182])
            &&& rr[246] == clamp_w(rr[245], p.bd, 8)
            &&& rr[247] == sub_w(rr[174], rr[182])
            &&& rr[248] == clamp_w(rr[247], p.bd, 8)
            &&& rr[249] == add_w(rr[205], rr[215])
            &&& rr[250] == clamp_w(rr[249], p.bd, 8)
            &&& rr[251] == sub_w(rr[205], rr[215])
            &&& rr[252] == clamp_w(rr[251], p.bd, 8)
            &&& rr[253] == add_w(rr[210], rr[220])
            &&& rr[254] == clamp_w(rr[253], p.bd, 8)
            &&& rr[255] == sub_w(rr[210], rr[220])
            &&& rr[256] == clamp_w(rr[255], p.bd, 8)
        }),
{
    reveal(IADST16_ROW_OPS);
    let ops = IADST16_ROW_OPS@;
    let r0 = input.push(0);
    lemma_run_ops_len(ops, 336, r0, p);
    reveal(add_w);
    reveal(sub_w);
    reveal(mul_w);
    reveal(clamp_w);
    lemma_run_ops_step(ops, 336, r0, p, 200);
    lemma_run_ops_step(ops, 336, r0, p, 201);
    lemma_run_ops_step(ops, 336, r0, p, 202);
    lemma_run_ops_step(ops, 336, r0, p, 203);
    lemma_run_ops_step(ops, 336, r0, p, 204);
    lemma_run_ops_step(ops, 336, r0, p, 205);
    lemma_run_ops_step(ops, 336, r0, p, 206);
    lemma_run_ops_step(ops, 336, r0, p, 207);
    lemma_run_ops_step(ops, 336, r0, p, 208);
    lemma_run_ops_step(ops, 336, r0, p, 209);
    lemma_run_ops_step(ops, 336, r0, p, 210);
    lemma_run_ops_step(ops, 336, r0, p, 211);
    lemma_run_ops_step(ops, 336, r0, p, 212);
    lemma_run_ops_step(ops, 336, r0, p, 213);
    lemma_run_ops_step(ops, 336, r0, p, 214);
    lemma_run_ops_step(ops, 336, r0, p, 215);
    lemma_run_ops_step(ops, 336, r0, p, 216);
    lemma_run_ops_step(ops, 336, r0, p, 217);
    lemma_run_ops_step(ops, 336, r0, p, 218);
    lemma_run_ops_step(ops, 336, r0, p, 219);
    lemma_run_ops_step(ops, 336, r0, p, 220);
    lemma_run_ops_step(ops, 336, r0, p, 221);
    lemma_run_ops_step(ops, 336, r0, p, 222);
    lemma_run_ops_step(ops, 336, r0, p, 223);
    lemma_run_ops_step(ops, 336, r0, p, 224);
    lemma_run_ops_step(ops, 336, r0, p, 225);
    lemma_run_ops_step(ops, 336, r0, p, 226);
    lemma_run_ops_step(ops, 336, r0, p, 227);
    lemma_run_ops_step(ops, 336, r0, p, 228);
    lemma_run_ops_step(ops, 336, r0, p, 229);
    lemma_run_ops_step(ops, 336, r0, p, 230);
    lemma_run_ops_step(ops, 336, r0, p, 231);
    lemma_run_ops_step(ops, 336, r0, p, 232);
    lemma_run_ops_step(ops, 336, r0, p, 233);
    lemma_run_ops_step(ops, 336, r0, p, 234);
    lemma_run_ops_step(ops, 336, r0, p, 235);
    lemma_run_ops_step(ops, 336, r0, p, 236);
    lemma_run_ops_step(ops, 336, r0, p, 237);
    lemma_run_ops_step(ops, 336, r0, p, 238);
    lemma_run_ops_step(ops, 336, r0, p, 239);
}

proof fn lemma_iadst16_row_regs_6(input: Seq<i32>, p: ButterflyParams)
    requires
        params_ok(p),
        input.len() == 16,
    ensures
        ({
            let rr = run_ops(IADST16_ROW_OPS@, 336, input.push(0), p);
            &&& rr[257] == add_w(rr[186], rr[194])
            &&& rr[258] == clamp_w(rr[257], p.bd, 8)
            &&& rr[259] == sub_w(rr[186], rr[194])
            &&& rr[260] == clamp_w(rr[259], p.bd, 8)
            &&& rr[261] == add_w(rr[190], rr[198])
            &&& rr[262] == clamp_w(rr[261], p.bd, 8)
            &&& rr[263] == sub_w(rr[190], rr[198])
            &&& rr[264] == clamp_w(rr[263], p.bd, 8)
            &&& rr[265] == add_w(rr[225], rr[235])
            &&& rr[266] == clamp_w(rr[265], p.bd, 8)
            &&& rr[267] == sub_w(rr[225], rr[235])
            &&& rr[268] == clamp_w(rr[267], p.bd, 8)
            &&& rr[269] == add_w(rr[230], rr[240])
            &&& rr[270] == clamp_w(rr[269], p.bd, 8)
            &&& rr[271] == sub_w(rr[230], rr[240])
            &&& rr[272] == clamp_w(rr[271], p.bd, 8)
            &&& rr[273] == mul_w(rr[244], spec_cospi(p.bit, 32))
            &&& rr[274] == mul_w(rr[248], spec_cospi(p.bit, 32))
            &&& rr[275] == add_w(rr[273], rr[274])
            &&& rr[276] == add_w(rr[275], spec_rounding(p))
            &&& rr[277] == rr[276] >> p.bit
            &&& rr[278] == sub_w(rr[273], rr[274])
            &&& rr[279] == add_w(rr[278], spec_rounding(p))
            &&& rr[280] == rr[279] >> p.bit
            &&& rr[281] == mul_w(rr[252], spec_cospi(p.bit, 32))
            &&& rr[282] == mul_w(rr[256], spec_cospi(p.bit, 32))
            &&& rr[283] == add_w(rr[281], rr[282])
            &&& rr[284] == add_w(rr[283], spec_rounding(p))
            &&& rr[285] == rr[284] >> p.bit
            &&& rr[286] == sub_w(rr[281], rr[282])
            &&& rr[287] == add_w(rr[286], spec_rounding(p))
            &&& rr[288] == rr[287] >> p.bit
            &&& rr[289] == mul_w(rr[260], spec_cospi(p.bit, 32))
            &&& rr[290] == mul_w(rr[264], spec_cospi(p.bit, 32))
            &&& rr[291] == add_w(rr[289], rr[290])
            &&& rr[292] == add_w(rr[291], spec_rounding(p))
            &&& rr[293] == rr[292] >> p.bit
            &&& rr[294] == sub_w(rr[289], rr[290])
            &&& rr[295] == add_w(rr[294], spec_rounding(p))
            &&& rr[296] == rr[295] >> p.bit
        }),
{
    reveal(IADST16_ROW_OPS);
    let ops = IADST16_ROW_OPS@;
    let r0 = input.push(0);
    lemma_run_ops_len(ops, 336, r0, p);
    reveal(add_w);
    reveal(sub_w);
    reveal(mul_w);
    reveal(clamp_w);
    lemma_run_ops_step(ops, 336, r0, p, 240);
    lemma_run_ops_step(ops, 336, r0, p, 241);
    lemma_run_ops_step(ops, 336, r0, p, 242);
    lemma_run_ops_step(ops, 336, r0, p, 243);
    lemma_run_ops_step(ops, 336, r0, p, 244);
    lemma_run_ops_step(ops, 336, r0, p, 245);
    lemma_run_ops_step(ops, 336, r0, p, 246);
    lemma_run_ops_step(ops, 336, r0, p, 247);
    lemma_run_ops_step(ops, 336, r0, p, 248);
    lemma_run_ops_step(ops, 336, r0, p, 249);
    lemma_run_ops_step(ops, 336, r0, p, 250);
    lemma_run_ops_step(ops, 336, r0, p, 251);
    lemma_run_ops_step(ops, 336, r0, p, 252);
    lemma_run_ops_step(ops, 336, r0, p, 253);
    lemma_run_ops_step(ops, 336, r0, p, 254);
    lemma_run_ops_step(ops, 336, r0, p, 255);
    lemma_run_ops_step(ops, 336, r0, p, 256);
    lemma_run_ops_step(ops, 336, r0, p, 257);
    lemma_run_ops_step(ops, 336, r0, p, 258);
    lemma_run_ops_step(ops, 336, r0, p, 259);
    lemma_run_ops_step(ops, 336, r0, p, 260);
    lemma_run_ops_step(ops, 336, r0, p, 261);
    lemma_run_ops_step(ops, 336, r0, p, 262);
    lemma_run_ops_step(ops, 336, r0, p, 263);
    lemma_run_ops_step(ops, 336, r0, p, 264);
    lemma_run_ops_step(ops, 336, r0, p, 265);
    lemma_run_ops_step(ops, 336, r0, p, 266);
    lemma_run_ops_step(ops, 336, r0, p, 267);
    lemma_run_ops_step(ops, 336, r0, p, 268);
    lemma_run_ops_step(ops, 336, r0, p, 269);
    lemma_run_ops_step(ops, 336, r0, p, 270);
    lemma_run_ops_step(ops, 336, r0, p, 271);
    lemma_run_ops_step(ops, 336, r0, p, 272);
    lemma_run_ops_step(ops, 336, r0, p, 273);
    lemma_run_ops_step(ops, 336, r0, p, 274);
    lemma_run_ops_step(ops, 336, r0, p, 275);
    lemma_run_ops_step(ops, 336, r0, p, 276);
    lemma_run_ops_step(ops, 336, r0, p, 277);
    lemma_run_ops_step(ops, 336, r0, p, 278);
    lemma_run_ops_step(ops, 336, r0, p, 279);
}

proof fn lemma_iadst16_row_regs_7(input: Seq<i32>, p: ButterflyParams)
    requires
        params_ok(p),
        input.len() == 16,
    ensures
        ({
            let rr = run_ops(IADST16_ROW_OPS@, 336, input.push(0), p);
            &&& rr[297] == mul_w(rr[268], spec_cospi(p.bit, 32))
            &&& rr[298] == mul_w(rr[272], spec_cospi(p.bit, 32))
            &&& rr[299] == add_w(rr[297], rr[298])
            &&& rr[300] == add_w(rr[299], spec_rounding(p))
            &&& rr[301] == rr[300] >> p.bit
            &&& rr[302] == sub_w(rr[297], rr[298])
            &&& rr[303] == add_w(rr[302], spec_rounding(p))
            &&& rr[304] == rr[303] >> p.bit
            &&& rr[305] == add_w(rr[242], spec_out_offset(p))
            &&& rr[306] == rr[305] >> p.out_shift
            &&& rr[307] == sub_w(spec_out_offset(p), rr[258])
            &&& rr[308] == rr[307] >> p.out_shift
            &&& rr[309] == clamp_w(rr[306], p.bd, 6)
            &&& rr[310] == clamp_w(rr[308], p.bd, 6)
            &&& rr[311] == add_w(rr[266], spec_out_offset(p))
            &&& rr[312] == rr[311] >> p.out_shift
            &&& rr[313] == sub_w(spec_out_offset(p), rr[250])
            &&& rr[314] == rr[313] >> p.out_shift
            &&& rr[315] == clamp_w(rr[312], p.bd, 6)
            &&& rr[316] == clamp_w(rr[314], p.bd, 6)
            &&& rr[317] == add_w(rr[285], spec_out_offset(p))
            &&& rr[318] == rr[317] >> p.out_shift
            &&& rr[319] == sub_w(spec_out_offset(p), rr[301])
            &&& rr[320] == rr[319] >> p.out_shift
            &&& rr[321] == clamp_w(rr[318], p.bd, 6)
            &&& rr[322] == clamp_w(rr[320], p.bd, 6)
            &&& rr[323] == add_w(rr[293], spec_out_offset(p))
            &&& rr[324] == rr[323] >> p.out_shift
            &&& rr[325] == sub_w(spec_out_offset(p), rr[277])
            &&& rr[326] == rr[325] >> p.out_shift
            &&& rr[327] == clamp_w(rr[324], p.bd, 6)
            &&& rr[328] == clamp_w(rr[326], p.bd, 6)
            &&& rr[329] == add_w(rr[280], spec_out_offset(p))
            &&& rr[330] == rr[329] >> p.out_shift
            &&& rr[331] == sub_w(spec_out_offset(p), rr[296])
            &&& rr[332] == rr[331] >> p.out_shift
            &&& rr[333] == clamp_w(rr[330], p.bd, 6)
            &&& rr[334] == clamp_w(rr[332], p.bd, 6)
            &&& rr[335] == add_w(rr[304], spec_out_offset(p))
            &&& rr[336] == rr[335] >> p.out_shift
        }),
{
    reveal(IADST16_ROW_OPS);
    let ops = IADST16_ROW_OPS@;
    let r0 = input.push(0);
    lemma_run_ops_len(ops, 336, r0, p);
    reveal(add_w);
    reveal(sub_w);
    reveal(mul_w);
    reveal(clamp_w);
    lemma_run_ops_step(ops, 336, r0, p, 280);
    lemma_run_ops_step(ops, 336, r0, p, 281);
    lemma_run_ops_step(ops, 336, r0, p, 282);
    lemma_run_ops_step(ops, 336, r0, p, 283);
    lemma_run_ops_step(ops, 336, r0, p, 284);
    lemma_run_ops_step(ops, 336, r0, p, 285);
    lemma_run_ops_step(ops, 336, r0, p, 286);
    lemma_run_ops_step(ops, 336, r0, p, 287);
    lemma_run_ops_step(ops, 336, r0, p, 288);
    lemma_run_ops_step(ops, 336, r0, p, 289);
    lemma_run_ops_step(ops, 336, r0, p, 290);
    lemma_run_ops_step(ops, 336, r0, p, 291);
    lemma_run_ops_step(ops, 336, r0, p, 292);
    lemma_run_ops_step(ops, 336, r0, p, 293);
    lemma_run_ops_step(ops, 336, r0, p, 294);
    lemma_run_ops_step(ops, 336, r0, p, 295);
    lemma_run_ops_step(ops, 336, r0, p, 296);
    lemma_run_ops_step(ops, 336, r0, p, 297);
    lemma_run_ops_step(ops, 336, r0, p, 298);
    lemma_run_ops_step(ops, 336, r0, p, 299);
    lemma_run_ops_step(ops, 336, r0, p, 300);
    lemma_run_ops_step(ops, 336, r0, p, 301);
    lemma_run_ops_step(ops, 336, r0, p, 302);
    lemma_run_ops_step(ops, 336, r0, p, 303);
    lemma_run_ops_step(ops, 336, r0, p, 304);
    lemma_run_ops_step(ops, 336, r0, p, 305);
    lemma_run_ops_step(ops, 336, r0, p, 306);
    lemma_run_ops_step(ops, 336, r0, p, 307);
    lemma_run_ops_step(ops, 336, r0, p, 308);
    lemma_run_ops_step(ops, 336, r0, p, 309);
    lemma_run_ops_step(ops, 336, r0, p, 310);
    lemma_run_ops_step(ops, 336, r0, p, 311);
    lemma_run_ops_step(ops, 336, r0, p, 312);
    lemma_run_ops_step(ops, 336, r0, p, 313);
    lemma_run_ops_step(ops, 336, r0, p, 314);
    lemma_run_ops_step(ops, 336, r0, p, 315);
    lemma_run_ops_step(ops, 336, r0, p, 316);
    lemma_run_ops_step(ops, 336, r0, p, 317);
    lemma_run_ops_step(ops, 336, r0, p, 318);
    lemma_run_ops_step(ops, 336, r0, p, 319);
}

proof fn lemma_iadst16_row_regs_8(input: Seq<i32>, p: ButterflyParams)
    requires
        params_ok(p),
        input.len() == 16,
    ensures
        ({
            let rr = run_ops(IADST16_ROW_OPS@, 336, input.push(0), p);
            &&& rr[337] == sub_w(spec_out_offset(p), rr[288])
            &&& rr[338] == rr[337] >> p.out_shift
            &&& rr[339] == clamp_w(rr[336], p.bd, 6)
            &&& rr[340] == clamp_w(rr[338], p.bd, 6)
            &&& rr[341] == add_w(rr[254], spec_out_offset(p))
            &&& rr[342] == rr[341] >> p.out_shift
            &&& rr[343] == sub_w(spec_out_offset(p), rr[270])
            &&& rr[344] == rr[343] >> p.out_shift
            &&& rr[345] == clamp_w(rr[342], p.bd, 6)
            &&& rr[346] == clamp_w(rr[344], p.bd, 6)
            &&& rr[347] == add_w(rr[262], spec_out_offset(p))
            &&& rr[348] == rr[347] >> p.out_shift
            &&& rr[349] == sub_w(spec_out_offset(p), rr[246])
            &&& rr[350] == rr[349] >> p.out_shift
            &&& rr[351] == clamp_w(rr[348], p.bd, 6)
            &&& rr[352] == clamp_w(rr[350], p.bd, 6)
        }),
{
    reveal(IADST16_ROW_OPS);
    let ops = IADST16_ROW_OPS@;
    let r0 = input.push(0);
    lemma_run_ops_len(ops, 336, r0, p);
    reveal(add_w);
    reveal(sub_w);
    reveal(clamp_w);
    lemma_run_ops_step(ops, 336, r0, p, 320);
    lemma_run_ops_step(ops, 336, r0, p, 321);
    lemma_run_ops_step(ops, 336, r0, p, 322);
    lemma_run_ops_step(ops, 336, r0, p, 323);
    lemma_run_ops_step(ops, 336, r0, p, 324);
    lemma_run_ops_step(ops, 336, r0, p, 325);
    lemma_run_ops_step(ops, 336, r0, p, 326);
    lemma_run_ops_step(ops, 336, r0, p, 327);
    lemma_run_ops_step(ops, 336, r0, p, 328);
    lemma_run_ops_step(ops, 336, r0, p, 329);
    lemma_run_ops_step(ops, 336, r0, p, 330);
    lemma_run_ops_step(ops, 336, r0, p, 331);
    lemma_run_ops_step(ops, 336, r0, p, 332);
    lemma_run_ops_step(ops, 336, r0, p, 333);
    lemma_run_ops_step(ops, 336, r0, p, 334);
    lemma_run_ops_step(ops, 336, r0, p, 335);
}

/// The row pass of the 16-point inverse ADST computes its stages.
#[verifier::rlimit(100)]
pub proof fn law_iadst16_row_stages(input: Seq<i32>, p: ButterflyParams)
    requires
        params_ok(p),
        input.len() == 16,
    ensures
        kernel_output(TxfmKernel::Iadst16, false, input, p) == spec_iadst16_row(input, p),
{
    reveal(IADST16_ROW_OUTS);
    let ops = IADST16_ROW_OPS@;
    let r0 = input.push(0);
    lemma_run_ops_len(ops, 336, r0, p);
    let rr = run_ops(ops, 336, r0, p);
    assert forall|k: int| 0 <= k < 17 implies rr[k] == r0[k] by {
        lemma_run_ops_prefix(ops, 0, 336, r0, p, k);
    }
    lemma_iadst16_row_regs_0(input, p);
    lemma_iadst16_row_regs_1(input, p);
    lemma_iadst16_row_regs_2(input, p);
    lemma_iadst16_row_regs_3(input, p);
    lemma_iadst16_row_regs_4(input, p);
    lemma_iadst16_row_regs_5(input, p);
    lemma_iadst16_row_regs_6(input, p);
    lemma_iadst16_row_regs_7(input, p);
    lemma_iadst16_row_regs_8(input, p);
    assert(kernel_output(TxfmKernel::Iadst16, false, input, p) =~= spec_iadst16_row(input, p));
}

/// The 16-point inverse ADST computes its stages.
pub proof fn law_iadst16_stages(input: Seq<i32>, do_cols: bool, p: ButterflyParams)
    requires
        params_ok(p),
        input.len() == 16,
    ensures
        kernel_output(TxfmKernel::Iadst16, do_cols, input, p) == spec_iadst16(input, do_cols, p),
{
    if do_cols {
        law_iadst16_col_stages(input, p);
    } else {
        law_iadst16_row_stages(input, p);
    }
}

} // verus!
