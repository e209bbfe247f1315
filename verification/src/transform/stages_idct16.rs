//! The 16-point inverse DCT, in full and reduced forms, stated stage by stage
//! (rotations by the cosine weights, clamped butterflies, rounding shifts),
//! with the proofs that the butterfly programs compute those stages.

use crate::transform::butterfly::{
    lemma_run_ops_len, lemma_run_ops_prefix, lemma_run_ops_step, params_ok, run_ops, spec_cospi,
    spec_out_offset, spec_rounding, ButterflyParams,
};
use crate::transform::stages::{
    add_w, clamp_w, lower_to_range, mul_w, raise_to_range, rotate_half, round_out, round_to_bit,
    sub_w,
};
use crate::transform::inverse::{kernel_output, TxfmKernel};
use crate::transform::programs::{
    IDCT16_COL_OPS, IDCT16_COL_OUTS, IDCT16_LOW8_COL_OPS, IDCT16_LOW8_COL_OUTS, IDCT16_LOW8_ROW_OPS, IDCT16_LOW8_ROW_OUTS, IDCT16_ROW_OPS, IDCT16_ROW_OUTS,
};
use vstd::prelude::*;

verus! {

/// The column pass of the 16-point inverse DCT of a lane whose coefficients past the first 8 are zero, stage by stage:
/// rotations by the cosine weights, butterflies clamped to the range of
/// `max(16, bd + 6)` bits.
pub open spec fn spec_idct16_low8_col(i: Seq<i32>, p: ButterflyParams) -> Seq<i32> {
    let u_1 = round_to_bit(mul_w(i[1], spec_cospi(p.bit, 4)), p);
    let u_2 = round_to_bit(mul_w(i[1], spec_cospi(p.bit, 60)), p);
    let u_3 = round_to_bit(mul_w(i[7], sub_w(0, spec_cospi(p.bit, 36))), p);
    let u_4 = round_to_bit(mul_w(i[7], spec_cospi(p.bit, 28)), p);
    let u_5 = round_to_bit(mul_w(i[5], spec_cospi(p.bit, 20)), p);
    let u_6 = round_to_bit(mul_w(i[5], spec_cospi(p.bit, 44)), p);
    let u_7 = round_to_bit(mul_w(i[3], sub_w(0, spec_cospi(p.bit, 52))), p);
    let u_8 = round_to_bit(mul_w(i[3], spec_cospi(p.bit, 12)), p);
    let u_9 = round_to_bit(mul_w(i[2], spec_cospi(p.bit, 8)), p);
    let u_10 = round_to_bit(mul_w(i[2], spec_cospi(p.bit, 56)), p);
    let u_11 = round_to_bit(mul_w(i[6], sub_w(0, spec_cospi(p.bit, 40))), p);
    let u_12 = round_to_bit(mul_w(i[6], spec_cospi(p.bit, 24)), p);
    let u_13 = clamp_w(add_w(u_2, u_3), p.bd, 6);
    let u_14 = clamp_w(sub_w(u_2, u_3), p.bd, 6);
    let u_15 = clamp_w(add_w(u_7, u_6), p.bd, 6);
    let u_16 = clamp_w(sub_w(u_7, u_6), p.bd, 6);
    let u_17 = clamp_w(add_w(u_8, u_5), p.bd, 6);
    let u_18 = clamp_w(sub_w(u_8, u_5), p.bd, 6);
    let u_19 = clamp_w(add_w(u_1, u_4), p.bd, 6);
    let u_20 = clamp_w(sub_w(u_1, u_4), p.bd, 6);
    let x_1 = mul_w(i[0], spec_cospi(p.bit, 32));
    let u_21 = add_w(x_1, spec_rounding(p));
    let u_22 = u_21 >> p.bit;
    let u_23 = round_to_bit(mul_w(i[4], spec_cospi(p.bit, 16)), p);
    let u_24 = round_to_bit(mul_w(i[4], spec_cospi(p.bit, 48)), p);
    let u_25 = clamp_w(add_w(u_10, u_11), p.bd, 6);
    let u_26 = clamp_w(sub_w(u_10, u_11), p.bd, 6);
    let u_27 = clamp_w(add_w(u_9, u_12), p.bd, 6);
    let u_28 = clamp_w(sub_w(u_9, u_12), p.bd, 6);
    let x_2 = rotate_half(u_14, sub_w(0, spec_cospi(p.bit, 16)), u_20, spec_cospi(p.bit, 48), p);
    let u_29 = rotate_half(u_14, spec_cospi(p.bit, 48), u_20, spec_cospi(p.bit, 16), p);
    let y_1 = rotate_half(u_16, sub_w(0, spec_cospi(p.bit, 48)), u_18, sub_w(0, spec_cospi(p.bit, 16)), p);
    let u_30 = rotate_half(u_16, sub_w(0, spec_cospi(p.bit, 16)), u_18, spec_cospi(p.bit, 48), p);
    let u_31 = clamp_w(add_w(u_22, u_23), p.bd, 6);
    let u_32 = clamp_w(sub_w(u_22, u_23), p.bd, 6);
    let u_33 = clamp_w(add_w(u_22, u_24), p.bd, 6);
    let u_34 = clamp_w(sub_w(u_22, u_24), p.bd, 6);
    let x_3 = mul_w(u_26, spec_cospi(p.bit, 32));
    let y_2 = mul_w(u_28, spec_cospi(p.bit, 32));
    let u_35 = sub_w(y_2, x_3);
    let u_36 = add_w(u_35, spec_rounding(p));
    let u_37 = u_36 >> p.bit;
    let u_38 = add_w(y_2, x_3);
    let u_39 = add_w(u_38, spec_rounding(p));
    let u_40 = u_39 >> p.bit;
    let u_41 = clamp_w(add_w(u_13, u_15), p.bd, 6);
    let u_42 = clamp_w(sub_w(u_13, u_15), p.bd, 6);
    let u_43 = clamp_w(add_w(x_2, y_1), p.bd, 6);
    let u_44 = clamp_w(sub_w(x_2, y_1), p.bd, 6);
    let u_45 = clamp_w(add_w(u_19, u_17), p.bd, 6);
    let u_46 = clamp_w(sub_w(u_19, u_17), p.bd, 6);
    let u_47 = clamp_w(add_w(u_29, u_30), p.bd, 6);
    let u_48 = clamp_w(sub_w(u_29, u_30), p.bd, 6);
    let u_49 = clamp_w(add_w(u_31, u_27), p.bd, 6);
    let u_50 = clamp_w(sub_w(u_31, u_27), p.bd, 6);
    let u_51 = clamp_w(add_w(u_33, u_40), p.bd, 6);
    let u_52 = clamp_w(sub_w(u_33, u_40), p.bd, 6);
    let u_53 = clamp_w(add_w(u_34, u_37), p.bd, 6);
    let u_54 = clamp_w(sub_w(u_34, u_37), p.bd, 6);
    let u_55 = clamp_w(add_w(u_32, u_25), p.bd, 6);
    let u_56 = clamp_w(sub_w(u_32, u_25), p.bd, 6);
    let x_4 = mul_w(u_44, spec_cospi(p.bit, 32));
    let y_3 = mul_w(u_48, spec_cospi(p.bit, 32));
    let u_57 = sub_w(y_3, x_4);
    let u_58 = add_w(u_57, spec_rounding(p));
    let u_59 = u_58 >> p.bit;
    let u_60 = add_w(x_4, y_3);
    let u_61 = add_w(u_60, spec_rounding(p));
    let u_62 = u_61 >> p.bit;
    let x_5 = mul_w(u_42, spec_cospi(p.bit, 32));
    let y_4 = mul_w(u_46, spec_cospi(p.bit, 32));
    let u_63 = sub_w(y_4, x_5);
    let u_64 = add_w(u_63, spec_rounding(p));
    let u_65 = u_64 >> p.bit;
    let u_66 = add_w(x_5, y_4);
    let u_67 = add_w(u_66, spec_rounding(p));
    let u_68 = u_67 >> p.bit;
    let output_1 = clamp_w(add_w(u_49, u_45), p.bd, 6);
    let output_2 = clamp_w(sub_w(u_49, u_45), p.bd, 6);
    let output_3 = clamp_w(add_w(u_51, u_47), p.bd, 6);
    let output_4 = clamp_w(sub_w(u_51, u_47), p.bd, 6);
    let output_5 = clamp_w(add_w(u_53, u_62), p.bd, 6);
    let output_6 = clamp_w(sub_w(u_53, u_62), p.bd, 6);
    let output_7 = clamp_w(add_w(u_55, u_68), p.bd, 6);
    let output_8 = clamp_w(sub_w(u_55, u_68), p.bd, 6);
    let output_9 = clamp_w(add_w(u_56, u_65), p.bd, 6);
    let output_10 = clamp_w(sub_w(u_56, u_65), p.bd, 6);
    let output_11 = clamp_w(add_w(u_54, u_59), p.bd, 6);
    let output_12 = clamp_w(sub_w(u_54, u_59), p.bd, 6);
    let output_13 = clamp_w(add_w(u_52, u_43), p.bd, 6);
    let output_14 = clamp_w(sub_w(u_52, u_43), p.bd, 6);
    let output_15 = clamp_w(add_w(u_50, u_41), p.bd, 6);
    let output_16 = clamp_w(sub_w(u_50, u_41), p.bd, 6);
    seq![output_1, output_3, output_5, output_7, output_9, output_11, output_13, output_15, output_16, output_14, output_12, output_10, output_8, output_6, output_4, output_2]
}

/// The row pass of the 16-point inverse DCT of a lane whose coefficients past the first 8 are zero, stage by stage:
/// rotations by the cosine weights, butterflies clamped to the range of
/// `max(16, bd + 8)` bits, then the outputs rounded down by the output shift and clamped to
/// the range of `max(16, bd + 6)` bits.
pub open spec fn spec_idct16_low8_row(i: Seq<i32>, p: ButterflyParams) -> Seq<i32> {
    let u_1 = round_to_bit(mul_w(i[1], spec_cospi(p.bit, 4)), p);
    let u_2 = round_to_bit(mul_w(i[1], spec_cospi(p.bit, 60)), p);
    let u_3 = round_to_bit(mul_w(i[7], sub_w(0, spec_cospi(p.bit, 36))), p);
    let u_4 = round_to_bit(mul_w(i[7], spec_cospi(p.bit, 28)), p);
    let u_5 = round_to_bit(mul_w(i[5], spec_cospi(p.bit, 20)), p);
    let u_6 = round_to_bit(mul_w(i[5], spec_cospi(p.bit, 44)), p);
    let u_7 = round_to_bit(mul_w(i[3], sub_w(0, spec_cospi(p.bit, 52))), p);
    let u_8 = round_to_bit(mul_w(i[3], spec_cospi(p.bit, 12)), p);
    let u_9 = round_to_bit(mul_w(i[2], spec_cospi(p.bit, 8)), p);
    let u_10 = round_to_bit(mul_w(i[2], spec_cospi(p.bit, 56)), p);
    let u_11 = round_to_bit(mul_w(i[6], sub_w(0, spec_cospi(p.bit, 40))), p);
    let u_12 = round_to_bit(mul_w(i[6], spec_cospi(p.bit, 24)), p);
    let u_13 = clamp_w(add_w(u_2, u_3), p.bd, 8);
    let u_14 = clamp_w(sub_w(u_2, u_3), p.bd, 8);
    let u_15 = clamp_w(add_w(u_7, u_6), p.bd, 8);
    let u_16 = clamp_w(sub_w(u_7, u_6), p.bd, 8);
    let u_17 = clamp_w(add_w(u_8, u_5), p.bd, 8);
    let u_18 = clamp_w(sub_w(u_8, u_5), p.bd, 8);
    let u_19 = clamp_w(add_w(u_1, u_4), p.bd, 8);
    let u_20 = clamp_w(sub_w(u_1, u_4), p.bd, 8);
    let x_1 = mul_w(i[0], spec_cospi(p.bit, 32));
    let u_21 = add_w(x_1, spec_rounding(p));
    let u_22 = u_21 >> p.bit;
    let u_23 = round_to_bit(mul_w(i[4], spec_cospi(p.bit, 16)), p);
    let u_24 = round_to_bit(mul_w(i[4], spec_cospi(p.bit, 48)), p);
    let u_25 = clamp_w(add_w(u_10, u_11), p.bd, 8);
    let u_26 = clamp_w(sub_w(u_10, u_11), p.bd, 8);
    let u_27 = clamp_w(add_w(u_9, u_12), p.bd, 8);
    let u_28 = clamp_w(sub_w(u_9, u_12), p.bd, 8);
    let x_2 = rotate_half(u_14, sub_w(0, spec_cospi(p.bit, 16)), u_20, spec_cospi(p.bit, 48), p);
    let u_29 = rotate_half(u_14, spec_cospi(p.bit, 48), u_20, spec_cospi(p.bit, 16), p);
    let y_1 = rotate_half(u_16, sub_w(0, spec_cospi(p.bit, 48)), u_18, sub_w(0, spec_cospi(p.bit, 16)), p);
    let u_30 = rotate_half(u_16, sub_w(0, spec_cospi(p.bit, 16)), u_18, spec_cospi(p.bit, 48), p);
    let u_31 = clamp_w(add_w(u_22, u_23), p.bd, 8);
    let u_32 = clamp_w(sub_w(u_22, u_23), p.bd, 8);
    let u_33 = clamp_w(add_w(u_22, u_24), p.bd, 8);
    let u_34 = clamp_w(sub_w(u_22, u_24), p.bd, 8);
    let x_3 = mul_w(u_26, spec_cospi(p.bit, 32));
    let y_2 = mul_w(u_28, spec_cospi(p.bit, 32));
    let u_35 = sub_w(y_2, x_3);
    let u_36 = add_w(u_35, spec_rounding(p));
    let u_37 = u_36 >> p.bit;
    let u_38 = add_w(y_2, x_3);
    let u_39 = add_w(u_38, spec_rounding(p));
    let u_40 = u_39 >> p.bit;
    let u_41 = clamp_w(add_w(u_13, u_15), p.bd, 8);
    let u_42 = clamp_w(sub_w(u_13, u_15), p.bd, 8);
    let u_43 = clamp_w(add_w(x_2, y_1), p.bd, 8);
    let u_44 = clamp_w(sub_w(x_2, y_1), p.bd, 8);
    let u_45 = clamp_w(add_w(u_19, u_17), p.bd, 8);
    let u_46 = clamp_w(sub_w(u_19, u_17), p.bd, 8);
    let u_47 = clamp_w(add_w(u_29, u_30), p.bd, 8);
    let u_48 = clamp_w(sub_w(u_29, u_30), p.bd, 8);
    let u_49 = clamp_w(add_w(u_31, u_27), p.bd, 8);
    let u_50 = clamp_w(sub_w(u_31, u_27), p.bd, 8);
    let u_51 = clamp_w(add_w(u_33, u_40), p.bd, 8);
    let u_52 = clamp_w(sub_w(u_33, u_40), p.bd, 8);
    let u_53 = clamp_w(add_w(u_34, u_37), p.bd, 8);
    let u_54 = clamp_w(sub_w(u_34, u_37), p.bd, 8);
    let u_55 = clamp_w(add_w(u_32, u_25), p.bd, 8);
    let u_56 = clamp_w(sub_w(u_32, u_25), p.bd, 8);
    let x_4 = mul_w(u_44, spec_cospi(p.bit, 32));
    let y_3 = mul_w(u_48, spec_cospi(p.bit, 32));
    let u_57 = sub_w(y_3, x_4);
    let u_58 = add_w(u_57, spec_rounding(p));
    let u_59 = u_58 >> p.bit;
    let u_60 = add_w(x_4, y_3);
    let u_61 = add_w(u_60, spec_rounding(p));
    let u_62 = u_61 >> p.bit;
    let x_5 = mul_w(u_42, spec_cospi(p.bit, 32));
    let y_4 = mul_w(u_46, spec_cospi(p.bit, 32));
    let u_63 = sub_w(y_4, x_5);
    let u_64 = add_w(u_63, spec_rounding(p));
    let u_65 = u_64 >> p.bit;
    let u_66 = add_w(x_5, y_4);
    let u_67 = add_w(u_66, spec_rounding(p));
    let u_68 = u_67 >> p.bit;
    let output_1 = clamp_w(add_w(u_49, u_45), p.bd, 8);
    let output_2 = clamp_w(sub_w(u_49, u_45), p.bd, 8);
    let output_3 = clamp_w(add_w(u_51, u_47), p.bd, 8);
    let output_4 = clamp_w(sub_w(u_51, u_47), p.bd, 8);
    let output_5 = clamp_w(add_w(u_53, u_62), p.bd, 8);
    let output_6 = clamp_w(sub_w(u_53, u_62), p.bd, 8);
    let output_7 = clamp_w(add_w(u_55, u_68), p.bd, 8);
    let output_8 = clamp_w(sub_w(u_55, u_68), p.bd, 8);
    let output_9 = clamp_w(add_w(u_56, u_65), p.bd, 8);
    let output_10 = clamp_w(sub_w(u_56, u_65), p.bd, 8);
    let output_11 = clamp_w(add_w(u_54, u_59), p.bd, 8);
    let output_12 = clamp_w(sub_w(u_54, u_59), p.bd, 8);
    let output_13 = clamp_w(add_w(u_52, u_43), p.bd, 8);
    let output_14 = clamp_w(sub_w(u_52, u_43), p.bd, 8);
    let output_15 = clamp_w(add_w(u_50, u_41), p.bd, 8);
    let output_16 = clamp_w(sub_w(u_50, u_41), p.bd, 8);
    let out_1 = round_out(output_1, p);
    let out_2 = round_out(output_3, p);
    let out_3 = round_out(output_5, p);
    let out_4 = round_out(output_7, p);
    let out_5 = round_out(output_9, p);
    let out_6 = round_out(output_11, p);
    let out_7 = round_out(output_13, p);
    let out_8 = round_out(output_15, p);
    let out_9 = round_out(output_16, p);
    let out_10 = round_out(output_14, p);
    let out_11 = round_out(output_12, p);
    let out_12 = round_out(output_10, p);
    let out_13 = round_out(output_8, p);
    let out_14 = round_out(output_6, p);
    let out_15 = round_out(output_4, p);
    let out_16 = round_out(output_2, p);
    let out_17 = clamp_w(out_1, p.bd, 6);
    let out_18 = clamp_w(out_2, p.bd, 6);
    let out_19 = clamp_w(out_3, p.bd, 6);
    let out_20 = clamp_w(out_4, p.bd, 6);
    let out_21 = clamp_w(out_5, p.bd, 6);
    let out_22 = clamp_w(out_6, p.bd, 6);
    let out_23 = clamp_w(out_7, p.bd, 6);
    let out_24 = clamp_w(out_8, p.bd, 6);
    let out_25 = clamp_w(out_9, p.bd, 6);
    let out_26 = clamp_w(out_10, p.bd, 6);
    let out_27 = clamp_w(out_11, p.bd, 6);
    let out_28 = clamp_w(out_12, p.bd, 6);
    let out_29 = clamp_w(out_13, p.bd, 6);
    let out_30 = clamp_w(out_14, p.bd, 6);
    let out_31 = clamp_w(out_15, p.bd, 6);
    let out_32 = clamp_w(out_16, p.bd, 6);
    seq![out_17, out_18, out_19, out_20, out_21, out_22, out_23, out_24, out_25, out_26, out_27, out_28, out_29, out_30, out_31, out_32]
}

/// The 16-point inverse DCT of a lane whose coefficients past the first 8 are zero: the column pass when `do_cols` holds, the row pass otherwise.
pub open spec fn spec_idct16_low8(i: Seq<i32>, do_cols: bool, p: ButterflyParams) -> Seq<i32> {
    if do_cols {
        spec_idct16_low8_col(i, p)
    } else {
        spec_idct16_low8_row(i, p)
    }
}

/// The column pass of the 16-point inverse DCT, stage by stage:
/// rotations by the cosine weights, butterflies clamped to the range of
/// `max(16, bd + 6)` bits.
pub open spec fn spec_idct16_col(i: Seq<i32>, p: ButterflyParams) -> Seq<i32> {
    let v_1 = rotate_half(i[1], spec_cospi(p.bit, 60), i[15], sub_w(0, spec_cospi(p.bit, 4)), p);
    let v_2 = rotate_half(i[9], spec_cospi(p.bit, 28), i[7], sub_w(0, spec_cospi(p.bit, 36)), p);
    let v_3 = rotate_half(i[5], spec_cospi(p.bit, 44), i[11], sub_w(0, spec_cospi(p.bit, 20)), p);
    let v_4 = rotate_half(i[13], spec_cospi(p.bit, 12), i[3], sub_w(0, spec_cospi(p.bit, 52)), p);
    let v_5 = rotate_half(i[13], spec_cospi(p.bit, 52), i[3], spec_cospi(p.bit, 12), p);
    let v_6 = rotate_half(i[5], spec_cospi(p.bit, 20), i[11], spec_cospi(p.bit, 44), p);
    let v_7 = rotate_half(i[9], spec_cospi(p.bit, 36), i[7], spec_cospi(p.bit, 28), p);
    let v_8 = rotate_half(i[1], spec_cospi(p.bit, 4), i[15], spec_cospi(p.bit, 60), p);
    let u_1 = rotate_half(i[2], spec_cospi(p.bit, 56), i[14], sub_w(0, spec_cospi(p.bit, 8)), p);
    let u_2 = rotate_half(i[10], spec_cospi(p.bit, 24), i[6], sub_w(0, spec_cospi(p.bit, 40)), p);
    let u_3 = rotate_half(i[10], spec_cospi(p.bit, 40), i[6], spec_cospi(p.bit, 24), p);
    let u_4 = rotate_half(i[2], spec_cospi(p.bit, 8), i[14], spec_cospi(p.bit, 56), p);
    let u_5 = clamp_w(add_w(v_1, v_2), p.bd, 6);
    let u_6 = clamp_w(sub_w(v_1, v_2), p.bd, 6);
    let u_7 = clamp_w(add_w(v_4, v_3), p.bd, 6);
    let u_8 = clamp_w(sub_w(v_4, v_3), p.bd, 6);
    let u_9 = clamp_w(add_w(v_5, v_6), p.bd, 6);
    let u_10 = clamp_w(sub_w(v_5, v_6), p.bd, 6);
    let u_11 = clamp_w(add_w(v_8, v_7), p.bd, 6);
    let u_12 = clamp_w(sub_w(v_8, v_7), p.bd, 6);
    let x_1 = mul_w(i[0], spec_cospi(p.bit, 32));
    let y_1 = mul_w(i[8], spec_cospi(p.bit, 32));
    let v_9 = add_w(x_1, y_1);
    let v_10 = add_w(v_9, spec_rounding(p));
    let v_11 = v_10 >> p.bit;
    let v_12 = sub_w(x_1, y_1);
    let v_13 = add_w(v_12, spec_rounding(p));
    let v_14 = v_13 >> p.bit;
    let v_15 = rotate_half(i[4], spec_cospi(p.bit, 48), i[12], sub_w(0, spec_cospi(p.bit, 16)), p);
    let v_16 = rotate_half(i[4], spec_cospi(p.bit, 16), i[12], spec_cospi(p.bit, 48), p);
    let v_17 = clamp_w(add_w(u_1, u_2), p.bd, 6);
    let v_18 = clamp_w(sub_w(u_1, u_2), p.bd, 6);
    let v_19 = clamp_w(add_w(u_4, u_3), p.bd, 6);
    let v_20 = clamp_w(sub_w(u_4, u_3), p.bd, 6);
    let v_21 = rotate_half(u_6, sub_w(0, spec_cospi(p.bit, 16)), u_12, spec_cospi(p.bit, 48), p);
    let v_22 = rotate_half(u_8, sub_w(0, spec_cospi(p.bit, 48)), u_10, sub_w(0, spec_cospi(p.bit, 16)), p);
    let v_23 = rotate_half(u_8, sub_w(0, spec_cospi(p.bit, 16)), u_10, spec_cospi(p.bit, 48), p);
    let v_24 = rotate_half(u_6, spec_cospi(p.bit, 48), u_12, spec_cospi(p.bit, 16), p);
    let u_13 = clamp_w(add_w(v_11, v_16), p.bd, 6);
    let u_14 = clamp_w(sub_w(v_11, v_16), p.bd, 6);
    let u_15 = clamp_w(add_w(v_14, v_15), p.bd, 6);
    let u_16 = clamp_w(sub_w(v_14, v_15), p.bd, 6);
    let x_2 = mul_w(v_18, spec_cospi(p.bit, 32));
    let y_2 = mul_w(v_20, spec_cospi(p.bit, 32));
    let u_17 = sub_w(y_2, x_2);
    let u_18 = add_w(u_17, spec_rounding(p));
    let u_19 = u_18 >> p.bit;
    let u_20 = add_w(y_2, x_2);
    let u_21 = add_w(u_20, spec_rounding(p));
    let u_22 = u_21 >> p.bit;
    let u_23 = clamp_w(add_w(u_5, u_7), p.bd, 6);
    let u_24 = clamp_w(sub_w(u_5, u_7), p.bd, 6);
    let u_25 = clamp_w(add_w(v_21, v_22), p.bd, 6);
    let u_26 = clamp_w(sub_w(v_21, v_22), p.bd, 6);
    let u_27 = clamp_w(add_w(u_11, u_9), p.bd, 6);
    let u_28 = clamp_w(sub_w(u_11, u_9), p.bd, 6);
    let u_29 = clamp_w(add_w(v_24, v_23), p.bd, 6);
    let u_30 = clamp_w(sub_w(v_24, v_23), p.bd, 6);
    let v_25 = clamp_w(add_w(u_13, v_19), p.bd, 6);
    let v_26 = clamp_w(sub_w(u_13, v_19), p.bd, 6);
    let v_27 = clamp_w(add_w(u_15, u_22), p.bd, 6);
    let v_28 = clamp_w(sub_w(u_15, u_22), p.bd, 6);
    let v_29 = clamp_w(add_w(u_16, u_19), p.bd, 6);
    let v_30 = clamp_w(sub_w(u_16, u_19), p.bd, 6);
    let v_31 = clamp_w(add_w(u_14, v_17), p.bd, 6);
    let v_32 = clamp_w(sub_w(u_14, v_17), p.bd, 6);
    let x_3 = mul_w(u_26, spec_cospi(p.bit, 32));
    let y_3 = mul_w(u_30, spec_cospi(p.bit, 32));
    let v_33 = sub_w(y_3, x_3);
    let v_34 = add_w(v_33, spec_rounding(p));
    let v_35 = v_34 >> p.bit;
    let v_36 = add_w(x_3, y_3);
    let v_37 = add_w(v_36, spec_rounding(p));
    let v_38 = v_37 >> p.bit;
    let x_4 = mul_w(u_24, spec_cospi(p.bit, 32));
    let y_4 = mul_w(u_28, spec_cospi(p.bit, 32));
    let v_39 = sub_w(y_4, x_4);
    let v_40 = add_w(v_39, spec_rounding(p));
    let v_41 = v_40 >> p.bit;
    let v_42 = add_w(x_4, y_4);
    let v_43 = add_w(v_42, spec_rounding(p));
    let v_44 = v_43 >> p.bit;
    let output_1 = clamp_w(add_w(v_25, u_27), p.bd, 6);
    let output_2 = clamp_w(sub_w(v_25, u_27), p.bd, 6);
    let output_3 = clamp_w(add_w(v_27, u_29), p.bd, 6);
    let output_4 = clamp_w(sub_w(v_27, u_29), p.bd, 6);
    let output_5 = clamp_w(add_w(v_29, v_38), p.bd, 6);
    let output_6 = clamp_w(sub_w(v_29, v_38), p.bd, 6);
    let output_7 = clamp_w(add_w(v_31, v_44), p.bd, 6);
    let output_8 = clamp_w(sub_w(v_31, v_44), p.bd, 6);
    let output_9 = clamp_w(add_w(v_32, v_41), p.bd, 6);
    let output_10 = clamp_w(sub_w(v_32, v_41), p.bd, 6);
    let output_11 = clamp_w(add_w(v_30, v_35), p.bd, 6);
    let output_12 = clamp_w(sub_w(v_30, v_35), p.bd, 6);
    let output_13 = clamp_w(add_w(v_28, u_25), p.bd, 6);
    let output_14 = clamp_w(sub_w(v_28, u_25), p.bd, 6);
    let output_15 = clamp_w(add_w(v_26, u_23), p.bd, 6);
    let output_16 = clamp_w(sub_w(v_26, u_23), p.bd, 6);
    seq![output_1, output_3, output_5, output_7, output_9, output_11, output_13, output_15, output_16, output_14, output_12, output_10, output_8, output_6, output_4, output_2]
}

/// The row pass of the 16-point inverse DCT, stage by stage:
/// rotations by the cosine weights, butterflies clamped to the range of
/// `max(16, bd + 8)` bits, then the outputs rounded down by the output shift and clamped to
/// the range of `max(16, bd + 6)` bits.
pub open spec fn spec_idct16_row(i: Seq<i32>, p: ButterflyParams) -> Seq<i32> {
    let v_1 = rotate_half(i[1], spec_cospi(p.bit, 60), i[15], sub_w(0, spec_cospi(p.bit, 4)), p);
    let v_2 = rotate_half(i[9], spec_cospi(p.bit, 28), i[7], sub_w(0, spec_cospi(p.bit, 36)), p);
    let v_3 = rotate_half(i[5], spec_cospi(p.bit, 44), i[11], sub_w(0, spec_cospi(p.bit, 20)), p);
    let v_4 = rotate_half(i[13], spec_cospi(p.bit, 12), i[3], sub_w(0, spec_cospi(p.bit, 52)), p);
    let v_5 = rotate_half(i[13], spec_cospi(p.bit, 52), i[3], spec_cospi(p.bit, 12), p);
    let v_6 = rotate_half(i[5], spec_cospi(p.bit, 20), i[11], spec_cospi(p.bit, 44), p);
    let v_7 = rotate_half(i[9], spec_cospi(p.bit, 36), i[7], spec_cospi(p.bit, 28), p);
    let v_8 = rotate_half(i[1], spec_cospi(p.bit, 4), i[15], spec_cospi(p.bit, 60), p);
    let u_1 = rotate_half(i[2], spec_cospi(p.bit, 56), i[14], sub_w(0, spec_cospi(p.bit, 8)), p);
    let u_2 = rotate_half(i[10], spec_cospi(p.bit, 24), i[6], sub_w(0, spec_cospi(p.bit, 40)), p);
    let u_3 = rotate_half(i[10], spec_cospi(p.bit, 40), i[6], spec_cospi(p.bit, 24), p);
    let u_4 = rotate_half(i[2], spec_cospi(p.bit, 8), i[14], spec_cospi(p.bit, 56), p);
    let u_5 = clamp_w(add_w(v_1, v_2), p.bd, 8);
    let u_6 = clamp_w(sub_w(v_1, v_2), p.bd, 8);
    let u_7 = clamp_w(add_w(v_4, v_3), p.bd, 8);
    let u_8 = clamp_w(sub_w(v_4, v_3), p.bd, 8);
    let u_9 = clamp_w(add_w(v_5, v_6), p.bd, 8);
    let u_10 = clamp_w(sub_w(v_5, v_6), p.bd, 8);
    let u_11 = clamp_w(add_w(v_8, v_7), p.bd, 8);
    let u_12 = clamp_w(sub_w(v_8, v_7), p.bd, 8);
    let x_1 = mul_w(i[0], spec_cospi(p.bit, 32));
    let y_1 = mul_w(i[8], spec_cospi(p.bit, 32));
    let v_9 = add_w(x_1, y_1);
    let v_10 = add_w(v_9, spec_rounding(p));
    let v_11 = v_10 >> p.bit;
    let v_12 = sub_w(x_1, y_1);
    let v_13 = add_w(v_12, spec_rounding(p));
    let v_14 = v_13 >> p.bit;
    let v_15 = rotate_half(i[4], spec_cospi(p.bit, 48), i[12], sub_w(0, spec_cospi(p.bit, 16)), p);
    let v_16 = rotate_half(i[4], spec_cospi(p.bit, 16), i[12], spec_cospi(p.bit, 48), p);
    let v_17 = clamp_w(add_w(u_1, u_2), p.bd, 8);
    let v_18 = clamp_w(sub_w(u_1, u_2), p.bd, 8);
    let v_19 = clamp_w(add_w(u_4, u_3), p.bd, 8);
    let v_20 = clamp_w(sub_w(u_4, u_3), p.bd, 8);
    let v_21 = rotate_half(u_6, sub_w(0, spec_cospi(p.bit, 16)), u_12, spec_cospi(p.bit, 48), p);
    let v_22 = rotate_half(u_8, sub_w(0, spec_cospi(p.bit, 48)), u_10, sub_w(0, spec_cospi(p.bit, 16)), p);
    let v_23 = rotate_half(u_8, sub_w(0, spec_cospi(p.bit, 16)), u_10, spec_cospi(p.bit, 48), p);
    let v_24 = rotate_half(u_6, spec_cospi(p.bit, 48), u_12, spec_cospi(p.bit, 16), p);
    let u_13 = clamp_w(add_w(v_11, v_16), p.bd, 8);
    let u_14 = clamp_w(sub_w(v_11, v_16), p.bd, 8);
    let u_15 = clamp_w(add_w(v_14, v_15), p.bd, 8);
    let u_16 = clamp_w(sub_w(v_14, v_15), p.bd, 8);
    let x_2 = mul_w(v_18, spec_cospi(p.bit, 32));
    let y_2 = mul_w(v_20, spec_cospi(p.bit, 32));
    let u_17 = sub_w(y_2, x_2);
    let u_18 = add_w(u_17, spec_rounding(p));
    let u_19 = u_18 >> p.bit;
    let u_20 = add_w(y_2, x_2);
    let u_21 = add_w(u_20, spec_rounding(p));
    let u_22 = u_21 >> p.bit;
    let u_23 = clamp_w(add_w(u_5, u_7), p.bd, 8);
    let u_24 = clamp_w(sub_w(u_5, u_7), p.bd, 8);
    let u_25 = clamp_w(add_w(v_21, v_22), p.bd, 8);
    let u_26 = clamp_w(sub_w(v_21, v_22), p.bd, 8);
    let u_27 = clamp_w(add_w(u_11, u_9), p.bd, 8);
    let u_28 = clamp_w(sub_w(u_11, u_9), p.bd, 8);
    let u_29 = clamp_w(add_w(v_24, v_23), p.bd, 8);
    let u_30 = clamp_w(sub_w(v_24, v_23), p.bd, 8);
    let v_25 = clamp_w(add_w(u_13, v_19), p.bd, 8);
    let v_26 = clamp_w(sub_w(u_13, v_19), p.bd, 8);
    let v_27 = clamp_w(add_w(u_15, u_22), p.bd, 8);
    let v_28 = clamp_w(sub_w(u_15, u_22), p.bd, 8);
    let v_29 = clamp_w(add_w(u_16, u_19), p.bd, 8);
    let v_30 = clamp_w(sub_w(u_16, u_19), p.bd, 8);
    let v_31 = clamp_w(add_w(u_14, v_17), p.bd, 8);
    let v_32 = clamp_w(sub_w(u_14, v_17), p.bd, 8);
    let x_3 = mul_w(u_26, spec_cospi(p.bit, 32));
    let y_3 = mul_w(u_30, spec_cospi(p.bit, 32));
    let v_33 = sub_w(y_3, x_3);
    let v_34 = add_w(v_33, spec_rounding(p));
    let v_35 = v_34 >> p.bit;
    let v_36 = add_w(x_3, y_3);
    let v_37 = add_w(v_36, spec_rounding(p));
    let v_38 = v_37 >> p.bit;
    let x_4 = mul_w(u_24, spec_cospi(p.bit, 32));
    let y_4 = mul_w(u_28, spec_cospi(p.bit, 32));
    let v_39 = sub_w(y_4, x_4);
    let v_40 = add_w(v_39, spec_rounding(p));
    let v_41 = v_40 >> p.bit;
    let v_42 = add_w(x_4, y_4);
    let v_43 = add_w(v_42, spec_rounding(p));
    let v_44 = v_43 >> p.bit;
    let output_1 = clamp_w(add_w(v_25, u_27), p.bd, 8);
    let output_2 = clamp_w(sub_w(v_25, u_27), p.bd, 8);
    let output_3 = clamp_w(add_w(v_27, u_29), p.bd, 8);
    let output_4 = clamp_w(sub_w(v_27, u_29), p.bd, 8);
    let output_5 = clamp_w(add_w(v_29, v_38), p.bd, 8);
    let output_6 = clamp_w(sub_w(v_29, v_38), p.bd, 8);
    let output_7 = clamp_w(add_w(v_31, v_44), p.bd, 8);
    let output_8 = clamp_w(sub_w(v_31, v_44), p.bd, 8);
    let output_9 = clamp_w(add_w(v_32, v_41), p.bd, 8);
    let output_10 = clamp_w(sub_w(v_32, v_41), p.bd, 8);
    let output_11 = clamp_w(add_w(v_30, v_35), p.bd, 8);
    let output_12 = clamp_w(sub_w(v_30, v_35), p.bd, 8);
    let output_13 = clamp_w(add_w(v_28, u_25), p.bd, 8);
    let output_14 = clamp_w(sub_w(v_28, u_25), p.bd, 8);
    let output_15 = clamp_w(add_w(v_26, u_23), p.bd, 8);
    let output_16 = clamp_w(sub_w(v_26, u_23), p.bd, 8);
    let out_1 = round_out(output_1, p);
    let out_2 = round_out(output_3, p);
    let out_3 = round_out(output_5, p);
    let out_4 = round_out(output_7, p);
    let out_5 = round_out(output_9, p);
    let out_6 = round_out(output_11, p);
    let out_7 = round_out(output_13, p);
    let out_8 = round_out(output_15, p);
    let out_9 = round_out(output_16, p);
    let out_10 = round_out(output_14, p);
    let out_11 = round_out(output_12, p);
    let out_12 = round_out(output_10, p);
    let out_13 = round_out(output_8, p);
    let out_14 = round_out(output_6, p);
    let out_15 = round_out(output_4, p);
    let out_16 = round_out(output_2, p);
    let out_17 = clamp_w(out_1, p.bd, 6);
    let out_18 = clamp_w(out_2, p.bd, 6);
    let out_19 = clamp_w(out_3, p.bd, 6);
    let out_20 = clamp_w(out_4, p.bd, 6);
    let out_21 = clamp_w(out_5, p.bd, 6);
    let out_22 = clamp_w(out_6, p.bd, 6);
    let out_23 = clamp_w(out_7, p.bd, 6);
    let out_24 = clamp_w(out_8, p.bd, 6);
    let out_25 = clamp_w(out_9, p.bd, 6);
    let out_26 = clamp_w(out_10, p.bd, 6);
    let out_27 = clamp_w(out_11, p.bd, 6);
    let out_28 = clamp_w(out_12, p.bd, 6);
    let out_29 = clamp_w(out_13, p.bd, 6);
    let out_30 = clamp_w(out_14, p.bd, 6);
    let out_31 = clamp_w(out_15, p.bd, 6);
    let out_32 = clamp_w(out_16, p.bd, 6);
    seq![out_17, out_18, out_19, out_20, out_21, out_22, out_23, out_24, out_25, out_26, out_27, out_28, out_29, out_30, out_31, out_32]
}

/// The 16-point inverse DCT: the column pass when `do_cols` holds, the row pass otherwise.
pub open spec fn spec_idct16(i: Seq<i32>, do_cols: bool, p: ButterflyParams) -> Seq<i32> {
    if do_cols {
        spec_idct16_col(i, p)
    } else {
        spec_idct16_row(i, p)
    }
}

proof fn lemma_idct16_low8_col_regs_0(input: Seq<i32>, p: ButterflyParams)
    requires
        params_ok(p),
        input.len() == 16,
    ensures
        ({
            let rr = run_ops(IDCT16_LOW8_COL_OPS@, 141, input.push(0), p);
            &&& rr[17] == round_to_bit(mul_w(rr[1], spec_cospi(p.bit, 4)), p)
            &&& rr[18] == round_to_bit(mul_w(rr[1], spec_cospi(p.bit, 60)), p)
            &&& rr[19] == round_to_bit(mul_w(rr[7], sub_w(0, spec_cospi(p.bit, 36))), p)
            &&& rr[20] == round_to_bit(mul_w(rr[7], spec_cospi(p.bit, 28)), p)
            &&& rr[21] == round_to_bit(mul_w(rr[5], spec_cospi(p.bit, 20)), p)
            &&& rr[22] == round_to_bit(mul_w(rr[5], spec_cospi(p.bit, 44)), p)
            &&& rr[23] == round_to_bit(mul_w(rr[3], sub_w(0, spec_cospi(p.bit, 52))), p)
            &&& rr[24] == round_to_bit(mul_w(rr[3], spec_cospi(p.bit, 12)), p)
            &&& rr[25] == round_to_bit(mul_w(rr[2], spec_cospi(p.bit, 8)), p)
            &&& rr[26] == round_to_bit(mul_w(rr[2], spec_cospi(p.bit, 56)), p)
            &&& rr[27] == round_to_bit(mul_w(rr[6], sub_w(0, spec_cospi(p.bit, 40))), p)
            &&& rr[28] == round_to_bit(mul_w(rr[6], spec_cospi(p.bit, 24)), p)
            &&& rr[29] == add_w(rr[18], rr[19])
            &&& rr[30] == clamp_w(rr[29], p.bd, 6)
            &&& rr[31] == sub_w(rr[18], rr[19])
            &&& rr[32] == clamp_w(rr[31], p.bd, 6)
            &&& rr[33] == add_w(rr[23], rr[22])
            &&& rr[34] == clamp_w(rr[33], p.bd, 6)
            &&& rr[35] == sub_w(rr[23], rr[22])
            &&& rr[36] == clamp_w(rr[35], p.bd, 6)
            &&& rr[37] == add_w(rr[24], rr[21])
            &&& rr[38] == clamp_w(rr[37], p.bd, 6)
            &&& rr[39] == sub_w(rr[24], rr[21])
            &&& rr[40] == clamp_w(rr[39], p.bd, 6)
            &&& rr[41] == add_w(rr[17], rr[20])
            &&& rr[42] == clamp_w(rr[41], p.bd, 6)
            &&& rr[43] == sub_w(rr[17], rr[20])
            &&& rr[44] == clamp_w(rr[43], p.bd, 6)
            &&& rr[45] == mul_w(rr[0], spec_cospi(p.bit, 32))
            &&& rr[46] == add_w(rr[45], spec_rounding(p))
            &&& rr[47] == rr[46] >> p.bit
            &&& rr[48] == round_to_bit(mul_w(rr[4], spec_cospi(p.bit, 16)), p)
            &&& rr[49] == round_to_bit(mul_w(rr[4], spec_cospi(p.bit, 48)), p)
            &&& rr[50] == add_w(rr[26], rr[27])
            &&& rr[51] == clamp_w(rr[50], p.bd, 6)
            &&& rr[52] == sub_w(rr[26], rr[27])
            &&& rr[53] == clamp_w(rr[52], p.bd, 6)
            &&& rr[54] == add_w(rr[25], rr[28])
            &&& rr[55] == clamp_w(rr[54], p.bd, 6)
            &&& rr[56] == sub_w(rr[25], rr[28])
        }),
{
    reveal(IDCT16_LOW8_COL_OPS);
    let ops = IDCT16_LOW8_COL_OPS@;
    let r0 = input.push(0);
    lemma_run_ops_len(ops, 141, r0, p);
    reveal(add_w);
    reveal(sub_w);
    reveal(mul_w);
    reveal(round_to_bit);
    reveal(clamp_w);
    lemma_run_ops_step(ops, 141, r0, p, 0);
    lemma_run_ops_step(ops, 141, r0, p, 1);
    lemma_run_ops_step(ops, 141, r0, p, 2);
    lemma_run_ops_step(ops, 141, r0, p, 3);
    lemma_run_ops_step(ops, 141, r0, p, 4);
    lemma_run_ops_step(ops, 141, r0, p, 5);
    lemma_run_ops_step(ops, 141, r0, p, 6);
    lemma_run_ops_step(ops, 141, r0, p, 7);
    lemma_run_ops_step(ops, 141, r0, p, 8);
    lemma_run_ops_step(ops, 141, r0, p, 9);
    lemma_run_ops_step(ops, 141, r0, p, 10);
    lemma_run_ops_step(ops, 141, r0, p, 11);
    lemma_run_ops_step(ops, 141, r0, p, 12);
    lemma_run_ops_step(ops, 141, r0, p, 13);
    lemma_run_ops_step(ops, 141, r0, p, 14);
    lemma_run_ops_step(ops, 141, r0, p, 15);
    lemma_run_ops_step(ops, 141, r0, p, 16);
    lemma_run_ops_step(ops, 141, r0, p, 17);
    lemma_run_ops_step(ops, 141, r0, p, 18);
    lemma_run_ops_step(ops, 141, r0, p, 19);
    lemma_run_ops_step(ops, 141, r0, p, 20);
    lemma_run_ops_step(ops, 141, r0, p, 21);
    lemma_run_ops_step(ops, 141, r0, p, 22);
    lemma_run_ops_step(ops, 141, r0, p, 23);
    lemma_run_ops_step(ops, 141, r0, p, 24);
    lemma_run_ops_step(ops, 141, r0, p, 25);
    lemma_run_ops_step(ops, 141, r0, p, 26);
    lemma_run_ops_step(ops, 141, r0, p, 27);
    lemma_run_ops_step(ops, 141, r0, p, 28);
    lemma_run_ops_step(ops, 141, r0, p, 29);
    lemma_run_ops_step(ops, 141, r0, p, 30);
    lemma_run_ops_step(ops, 141, r0, p, 31);
    lemma_run_ops_step(ops, 141, r0, p, 32);
    lemma_run_ops_step(ops, 141, r0, p, 33);
    lemma_run_ops_step(ops, 141, r0, p, 34);
    lemma_run_ops_step(ops, 141, r0, p, 35);
    lemma_run_ops_step(ops, 141, r0, p, 36);
    lemma_run_ops_step(ops, 141, r0, p, 37);
    lemma_run_ops_step(ops, 141, r0, p, 38);
    lemma_run_ops_step(ops, 141, r0, p, 39);
}

proof fn lemma_idct16_low8_col_regs_1(input: Seq<i32>, p: ButterflyParams)
    requires
        params_ok(p),
        input.len() == 16,
    ensures
        ({
            let rr = run_ops(IDCT16_LOW8_COL_OPS@, 141, input.push(0), p);
            &&& rr[57] == clamp_w(rr[56], p.bd, 6)
            &&& rr[58] == rotate_half(rr[32], sub_w(0, spec_cospi(p.bit, 16)), rr[44], spec_cospi(p.bit, 48), p)
            &&& rr[59] == rotate_half(rr[32], spec_cospi(p.bit, 48), rr[44], spec_cospi(p.bit, 16), p)
            &&& rr[60] == rotate_half(rr[36], sub_w(0, spec_cospi(p.bit, 48)), rr[40], sub_w(0, spec_cospi(p.bit, 16)), p)
            &&& rr[61] == rotate_half(rr[36], sub_w(0, spec_cospi(p.bit, 16)), rr[40], spec_cospi(p.bit, 48), p)
            &&& rr[62] == add_w(rr[47], rr[48])
            &&& rr[63] == clamp_w(rr[62], p.bd, 6)
            &&& rr[64] == sub_w(rr[47], rr[48])
            &&& rr[65] == clamp_w(rr[64], p.bd, 6)
            &&& rr[66] == add_w(rr[47], rr[49])
            &&& rr[67] == clamp_w(rr[66], p.bd, 6)
            &&& rr[68] == sub_w(rr[47], rr[49])
            &&& rr[69] == clamp_w(rr[68], p.bd, 6)
            &&& rr[70] == mul_w(rr[53], spec_cospi(p.bit, 32))
            &&& rr[71] == mul_w(rr[57], spec_cospi(p.bit, 32))
            &&& rr[72] == sub_w(rr[71], rr[70])
            &&& rr[73] == add_w(rr[72], spec_rounding(p))
            &&& rr[74] == rr[73] >> p.bit
            &&& rr[75] == add_w(rr[71], rr[70])
            &&& rr[76] == add_w(rr[75], spec_rounding(p))
            &&& rr[77] == rr[76] >> p.bit
            &&& rr[78] == add_w(rr[30], rr[34])
            &&& rr[79] == clamp_w(rr[78], p.bd, 6)
            &&& rr[80] == sub_w(rr[30], rr[34])
            &&& rr[81] == clamp_w(rr[80], p.bd, 6)
            &&& rr[82] == add_w(rr[58], rr[60])
            &&& rr[83] == clamp_w(rr[82], p.bd, 6)
            &&& rr[84] == sub_w(rr[58], rr[60])
            &&& rr[85] == clamp_w(rr[84], p.bd, 6)
            &&& rr[86] == add_w(rr[42], rr[38])
            &&& rr[87] == clamp_w(rr[86], p.bd, 6)
            &&& rr[88] == sub_w(rr[42], rr[38])
            &&& rr[89] == clamp_w(rr[88], p.bd, 6)
            &&& rr[90] == add_w(rr[59], rr[61])
            &&& rr[91] == clamp_w(rr[90], p.bd, 6)
            &&& rr[92] == sub_w(rr[59], rr[61])
            &&& rr[93] == clamp_w(rr[92], p.bd, 6)
            &&& rr[94] == add_w(rr[63], rr[55])
            &&& rr[95] == clamp_w(rr[94], p.bd, 6)
            &&& rr[96] == sub_w(rr[63], rr[55])
        }),
{
    reveal(IDCT16_LOW8_COL_OPS);
    let ops = IDCT16_LOW8_COL_OPS@;
    let r0 = input.push(0);
    lemma_run_ops_len(ops, 141, r0, p);
    reveal(add_w);
    reveal(sub_w);
    reveal(mul_w);
    reveal(rotate_half);
    reveal(clamp_w);
    lemma_run_ops_step(ops, 141, r0, p, 40);
    lemma_run_ops_step(ops, 141, r0, p, 41);
    lemma_run_ops_step(ops, 141, r0, p, 42);
    lemma_run_ops_step(ops, 141, r0, p, 43);
    lemma_run_ops_step(ops, 141, r0, p, 44);
    lemma_run_ops_step(ops, 141, r0, p, 45);
    lemma_run_ops_step(ops, 141, r0, p, 46);
    lemma_run_ops_step(ops, 141, r0, p, 47);
    lemma_run_ops_step(ops, 141, r0, p, 48);
    lemma_run_ops_step(ops, 141, r0, p, 49);
    lemma_run_ops_step(ops, 141, r0, p, 50);
    lemma_run_ops_step(ops, 141, r0, p, 51);
    lemma_run_ops_step(ops, 141, r0, p, 52);
    lemma_run_ops_step(ops, 141, r0, p, 53);
    lemma_run_ops_step(ops, 141, r0, p, 54);
    lemma_run_ops_step(ops, 141, r0, p, 55);
    lemma_run_ops_step(ops, 141, r0, p, 56);
    lemma_run_ops_step(ops, 141, r0, p, 57);
    lemma_run_ops_step(ops, 141, r0, p, 58);
    lemma_run_ops_step(ops, 141, r0, p, 59);
    lemma_run_ops_step(ops, 141, r0, p, 60);
    lemma_run_ops_step(ops, 141, r0, p, 61);
    lemma_run_ops_step(ops, 141, r0, p, 62);
    lemma_run_ops_step(ops, 141, r0, p, 63);
    lemma_run_ops_step(ops, 141, r0, p, 64);
    lemma_run_ops_step(ops, 141, r0, p, 65);
    lemma_run_ops_step(ops, 141, r0, p, 66);
    lemma_run_ops_step(ops, 141, r0, p, 67);
    lemma_run_ops_step(ops, 141, r0, p, 68);
    lemma_run_ops_step(ops, 141, r0, p, 69);
    lemma_run_ops_step(ops, 141, r0, p, 70);
    lemma_run_ops_step(ops, 141, r0, p, 71);
    lemma_run_ops_step(ops, 141, r0, p, 72);
    lemma_run_ops_step(ops, 141, r0, p, 73);
    lemma_run_ops_step(ops, 141, r0, p, 74);
    lemma_run_ops_step(ops, 141, r0, p, 75);
    lemma_run_ops_step(ops, 141, r0, p, 76);
    lemma_run_ops_step(ops, 141, r0, p, 77);
    lemma_run_ops_step(ops, 141, r0, p, 78);
    lemma_run_ops_step(ops, 141, r0, p, 79);
}

proof fn lemma_idct16_low8_col_regs_2(input: Seq<i32>, p: ButterflyParams)
    requires
        params_ok(p),
        input.len() == 16,
    ensures
        ({
            let rr = run_ops(IDCT16_LOW8_COL_OPS@, 141, input.push(0), p);
            &&& rr[97] == clamp_w(rr[96], p.bd, 6)
            &&& rr[98] == add_w(rr[67], rr[77])
            &&& rr[99] == clamp_w(rr[98], p.bd, 6)
            &&& rr[100] == sub_w(rr[67], rr[77])
            &&& rr[101] == clamp_w(rr[100], p.bd, 6)
            &&& rr[102] == add_w(rr[69], rr[74])
            &&& rr[103] == clamp_w(rr[102], p.bd, 6)
            &&& rr[104] == sub_w(rr[69], rr[74])
            &&& rr[105] == clamp_w(rr[104], p.bd, 6)
            &&& rr[106] == add_w(rr[65], rr[51])
            &&& rr[107] == clamp_w(rr[106], p.bd, 6)
            &&& rr[108] == sub_w(rr[65], rr[51])
            &&& rr[109] == clamp_w(rr[108], p.bd, 6)
            &&& rr[110] == mul_w(rr[85], spec_cospi(p.bit, 32))
            &&& rr[111] == mul_w(rr[93], spec_cospi(p.bit, 32))
            &&& rr[112] == sub_w(rr[111], rr[110])
            &&& rr[113] == add_w(rr[112], spec_rounding(p))
            &&& rr[114] == rr[113] >> p.bit
            &&& rr[115] == add_w(rr[110], rr[111])
            &&& rr[116] == add_w(rr[115], spec_rounding(p))
            &&& rr[117] == rr[116] >> p.bit
            &&& rr[118] == mul_w(rr[81], spec_cospi(p.bit, 32))
            &&& rr[119] == mul_w(rr[89], spec_cospi(p.bit, 32))
            &&& rr[120] == sub_w(rr[119], rr[118])
            &&& rr[121] == add_w(rr[120], spec_rounding(p))
            &&& rr[122] == rr[121] >> p.bit
            &&& rr[123] == add_w(rr[118], rr[119])
            &&& rr[124] == add_w(rr[123], spec_rounding(p))
            &&& rr[125] == rr[124] >> p.bit
            &&& rr[126] == add_w(rr[95], rr[87])
            &&& rr[127] == clamp_w(rr[126], p.bd, 6)
            &&& rr[128] == sub_w(rr[95], rr[87])
            &&& rr[129] == clamp_w(rr[128], p.bd, 6)
            &&& rr[130] == add_w(rr[99], rr[91])
            &&& rr[131] == clamp_w(rr[130], p.bd, 6)
            &&& rr[132] == sub_w(rr[99], rr[91])
            &&& rr[133] == clamp_w(rr[132], p.bd, 6)
            &&& rr[134] == add_w(rr[103], rr[117])
            &&& rr[135] == clamp_w(rr[134], p.bd, 6)
            &&& rr[136] == sub_w(rr[103], rr[117])
        }),
{
    reveal(IDCT16_LOW8_COL_OPS);
    let ops = IDCT16_LOW8_COL_OPS@;
    let r0 = input.push(0);
    lemma_run_ops_len(ops, 141, r0, p);
    reveal(add_w);
    reveal(sub_w);
    reveal(mul_w);
    reveal(clamp_w);
    lemma_run_ops_step(ops, 141, r0, p, 80);
    lemma_run_ops_step(ops, 141, r0, p, 81);
    lemma_run_ops_step(ops, 141, r0, p, 82);
    lemma_run_ops_step(ops, 141, r0, p, 83);
    lemma_run_ops_step(ops, 141, r0, p, 84);
    lemma_run_ops_step(ops, 141, r0, p, 85);
    lemma_run_ops_step(ops, 141, r0, p, 86);
    lemma_run_ops_step(ops, 141, r0, p, 87);
    lemma_run_ops_step(ops, 141, r0, p, 88);
    lemma_run_ops_step(ops, 141, r0, p, 89);
    lemma_run_ops_step(ops, 141, r0, p, 90);
    lemma_run_ops_step(ops, 141, r0, p, 91);
    lemma_run_ops_step(ops, 141, r0, p, 92);
    lemma_run_ops_step(ops, 141, r0, p, 93);
    lemma_run_ops_step(ops, 141, r0, p, 94);
    lemma_run_ops_step(ops, 141, r0, p, 95);
    lemma_run_ops_step(ops, 141, r0, p, 96);
    lemma_run_ops_step(ops, 141, r0, p, 97);
    lemma_run_ops_step(ops, 141, r0, p, 98);
    lemma_run_ops_step(ops, 141, r0, p, 99);
    lemma_run_ops_step(ops, 141, r0, p, 100);
    lemma_run_ops_step(ops, 141, r0, p, 101);
    lemma_run_ops_step(ops, 141, r0, p, 102);
    lemma_run_ops_step(ops, 141, r0, p, 103);
    lemma_run_ops_step(ops, 141, r0, p, 104);
    lemma_run_ops_step(ops, 141, r0, p, 105);
    lemma_run_ops_step(ops, 141, r0, p, 106);
    lemma_run_ops_step(ops, 141, r0, p, 107);
    lemma_run_ops_step(ops, 141, r0, p, 108);
    lemma_run_ops_step(ops, 141, r0, p, 109);
    lemma_run_ops_step(ops, 141, r0, p, 110);
    lemma_run_ops_step(ops, 141, r0, p, 111);
    lemma_run_ops_step(ops, 141, r0, p, 112);
    lemma_run_ops_step(ops, 141, r0, p, 113);
    lemma_run_ops_step(ops, 141, r0, p, 114);
    lemma_run_ops_step(ops, 141, r0, p, 115);
    lemma_run_ops_step(ops, 141, r0, p, 116);
    lemma_run_ops_step(ops, 141, r0, p, 117);
    lemma_run_ops_step(ops, 141, r0, p, 118);
    lemma_run_ops_step(ops, 141, r0, p, 119);
}

proof fn lemma_idct16_low8_col_regs_3(input: Seq<i32>, p: ButterflyParams)
    requires
        params_ok(p),
        input.len() == 16,
    ensures
        ({
            let rr = run_ops(IDCT16_LOW8_COL_OPS@, 141, input.push(0), p);
            &&& rr[137] == clamp_w(rr[136], p.bd, 6)
            &&& rr[138] == add_w(rr[107], rr[125])
            &&& rr[139] == clamp_w(rr[138], p.bd, 6)
            &&& rr[140] == sub_w(rr[107], rr[125])
            &&& rr[141] == clamp_w(rr[140], p.bd, 6)
            &&& rr[142] == add_w(rr[109], rr[122])
            &&& rr[143] == clamp_w(rr[142], p.bd, 6)
            &&& rr[144] == sub_w(rr[109], rr[122])
            &&& rr[145] == clamp_w(rr[144], p.bd, 6)
            &&& rr[146] == add_w(rr[105], rr[114])
            &&& rr[147] == clamp_w(rr[146], p.bd, 6)
            &&& rr[148] == sub_w(rr[105], rr[114])
            &&& rr[149] == clamp_w(rr[148], p.bd, 6)
            &&& rr[150] == add_w(rr[101], rr[83])
            &&& rr[151] == clamp_w(rr[150], p.bd, 6)
            &&& rr[152] == sub_w(rr[101], rr[83])
            &&& rr[153] == clamp_w(rr[152], p.bd, 6)
            &&& rr[154] == add_w(rr[97], rr[79])
            &&& rr[155] == clamp_w(rr[154], p.bd, 6)
            &&& rr[156] == sub_w(rr[97], rr[79])
            &&& rr[157] == clamp_w(rr[156], p.bd, 6)
        }),
{
    reveal(IDCT16_LOW8_COL_OPS);
    let ops = IDCT16_LOW8_COL_OPS@;
    let r0 = input.push(0);
    lemma_run_ops_len(ops, 141, r0, p);
    reveal(add_w);
    reveal(sub_w);
    reveal(clamp_w);
    lemma_run_ops_step(ops, 141, r0, p, 120);
    lemma_run_ops_step(ops, 141, r0, p, 121);
    lemma_run_ops_step(ops, 141, r0, p, 122);
    lemma_run_ops_step(ops, 141, r0, p, 123);
    lemma_run_ops_step(ops, 141, r0, p, 124);
    lemma_run_ops_step(ops, 141, r0, p, 125);
    lemma_run_ops_step(ops, 141, r0, p, 126);
    lemma_run_ops_step(ops, 141, r0, p, 127);
    lemma_run_ops_step(ops, 141, r0, p, 128);
    lemma_run_ops_step(ops, 141, r0, p, 129);
    lemma_run_ops_step(ops, 141, r0, p, 130);
    lemma_run_ops_step(ops, 141, r0, p, 131);
    lemma_run_ops_step(ops, 141, r0, p, 132);
    lemma_run_ops_step(ops, 141, r0, p, 133);
    lemma_run_ops_step(ops, 141, r0, p, 134);
    lemma_run_ops_step(ops, 141, r0, p, 135);
    lemma_run_ops_step(ops, 141, r0, p, 136);
    lemma_run_ops_step(ops, 141, r0, p, 137);
    lemma_run_ops_step(ops, 141, r0, p, 138);
    lemma_run_ops_step(ops, 141, r0, p, 139);
    lemma_run_ops_step(ops, 141, r0, p, 140);
}

/// The column pass of the 16-point inverse DCT of a lane whose coefficients past the first 8 are zero computes its stages.
#[verifier::rlimit(100)]
pub proof fn law_idct16_low8_col_stages(input: Seq<i32>, p: ButterflyParams)
    requires
        params_ok(p),
        input.len() == 16,
    ensures
        kernel_output(TxfmKernel::Idct16Low8, true, input, p) == spec_idct16_low8_col(input, p),
{
    reveal(IDCT16_LOW8_COL_OUTS);
    let ops = IDCT16_LOW8_COL_OPS@;
    let r0 = input.push(0);
    lemma_run_ops_len(ops, 141, r0, p);
    let rr = run_ops(ops, 141, r0, p);
    assert forall|k: int| 0 <= k < 17 implies rr[k] == r0[k] by {
        lemma_run_ops_prefix(ops, 0, 141, r0, p, k);
    }
    lemma_idct16_low8_col_regs_0(input, p);
    lemma_idct16_low8_col_regs_1(input, p);
    lemma_idct16_low8_col_regs_2(input, p);
    lemma_idct16_low8_col_regs_3(input, p);
    assert(kernel_output(TxfmKernel::Idct16Low8, true, input, p) =~= spec_idct16_low8_col(input, p));
}

proof fn lemma_idct16_low8_row_regs_0(input: Seq<i32>, p: ButterflyParams)
    requires
        params_ok(p),
        input.len() == 16,
    ensures
        ({
            let rr = run_ops(IDCT16_LOW8_ROW_OPS@, 173, input.push(0), p);
            &&& rr[17] == round_to_bit(mul_w(rr[1], spec_cospi(p.bit, 4)), p)
            &&& rr[18] == round_to_bit(mul_w(rr[1], spec_cospi(p.bit, 60)), p)
            &&& rr[19] == round_to_bit(mul_w(rr[7], sub_w(0, spec_cospi(p.bit, 36))), p)
            &&& rr[20] == round_to_bit(mul_w(rr[7], spec_cospi(p.bit, 28)), p)
            &&& rr[21] == round_to_bit(mul_w(rr[5], spec_cospi(p.bit, 20)), p)
            &&& rr[22] == round_to_bit(mul_w(rr[5], spec_cospi(p.bit, 44)), p)
            &&& rr[23] == round_to_bit(mul_w(rr[3], sub_w(0, spec_cospi(p.bit, 52))), p)
            &&& rr[24] == round_to_bit(mul_w(rr[3], spec_cospi(p.bit, 12)), p)
            &&& rr[25] == round_to_bit(mul_w(rr[2], spec_cospi(p.bit, 8)), p)
            &&& rr[26] == round_to_bit(mul_w(rr[2], spec_cospi(p.bit, 56)), p)
            &&& rr[27] == round_to_bit(mul_w(rr[6], sub_w(0, spec_cospi(p.bit, 40))), p)
            &&& rr[28] == round_to_bit(mul_w(rr[6], spec_cospi(p.bit, 24)), p)
            &&& rr[29] == add_w(rr[18], rr[19])
            &&& rr[30] == clamp_w(rr[29], p.bd, 8)
            &&& rr[31] == sub_w(rr[18], rr[19])
            &&& rr[32] == clamp_w(rr[31], p.bd, 8)
            &&& rr[33] == add_w(rr[23], rr[22])
            &&& rr[34] == clamp_w(rr[33], p.bd, 8)
            &&& rr[35] == sub_w(rr[23], rr[22])
            &&& rr[36] == clamp_w(rr[35], p.bd, 8)
            &&& rr[37] == add_w(rr[24], rr[21])
            &&& rr[38] == clamp_w(rr[37], p.bd, 8)
            &&& rr[39] == sub_w(rr[24], rr[21])
            &&& rr[40] == clamp_w(rr[39], p.bd, 8)
            &&& rr[41] == add_w(rr[17], rr[20])
            &&& rr[42] == clamp_w(rr[41], p.bd, 8)
            &&& rr[43] == sub_w(rr[17], rr[20])
            &&& rr[44] == clamp_w(rr[43], p.bd, 8)
            &&& rr[45] == mul_w(rr[0], spec_cospi(p.bit, 32))
            &&& rr[46] == add_w(rr[45], spec_rounding(p))
            &&& rr[47] == rr[46] >> p.bit
            &&& rr[48] == round_to_bit(mul_w(rr[4], spec_cospi(p.bit, 16)), p)
            &&& rr[49] == round_to_bit(mul_w(rr[4], spec_cospi(p.bit, 48)), p)
            &&& rr[50] == add_w(rr[26], rr[27])
            &&& rr[51] == clamp_w(rr[50], p.bd, 8)
            &&& rr[52] == sub_w(rr[26], rr[27])
            &&& rr[53] == clamp_w(rr[52], p.bd, 8)
            &&& rr[54] == add_w(rr[25], rr[28])
            &&& rr[55] == clamp_w(rr[54], p.bd, 8)
            &&& rr[56] == sub_w(rr[25], rr[28])
        }),
{
    reveal(IDCT16_LOW8_ROW_OPS);
    let ops = IDCT16_LOW8_ROW_OPS@;
    let r0 = input.push(0);
    lemma_run_ops_len(ops, 173, r0, p);
    reveal(add_w);
    reveal(sub_w);
    reveal(mul_w);
    reveal(round_to_bit);
    reveal(clamp_w);
    lemma_run_ops_step(ops, 173, r0, p, 0);
    lemma_run_ops_step(ops, 173, r0, p, 1);
    lemma_run_ops_step(ops, 173, r0, p, 2);
    lemma_run_ops_step(ops, 173, r0, p, 3);
    lemma_run_ops_step(ops, 173, r0, p, 4);
    lemma_run_ops_step(ops, 173, r0, p, 5);
    lemma_run_ops_step(ops, 173, r0, p, 6);
    lemma_run_ops_step(ops, 173, r0, p, 7);
    lemma_run_ops_step(ops, 173, r0, p, 8);
    lemma_run_ops_step(ops, 173, r0, p, 9);
    lemma_run_ops_step(ops, 173, r0, p, 10);
    lemma_run_ops_step(ops, 173, r0, p, 11);
    lemma_run_ops_step(ops, 173, r0, p, 12);
    lemma_run_ops_step(ops, 173, r0, p, 13);
    lemma_run_ops_step(ops, 173, r0, p, 14);
    lemma_run_ops_step(ops, 173, r0, p, 15);
    lemma_run_ops_step(ops, 173, r0, p, 16);
    lemma_run_ops_step(ops, 173, r0, p, 17);
    lemma_run_ops_step(ops, 173, r0, p, 18);
    lemma_run_ops_step(ops, 173, r0, p, 19);
    lemma_run_ops_step(ops, 173, r0, p, 20);
    lemma_run_ops_step(ops, 173, r0, p, 21);
    lemma_run_ops_step(ops, 173, r0, p, 22);
    lemma_run_ops_step(ops, 173, r0, p, 23);
    lemma_run_ops_step(ops, 173, r0, p, 24);
    lemma_run_ops_step(ops, 173, r0, p, 25);
    lemma_run_ops_step(ops, 173, r0, p, 26);
    lemma_run_ops_step(ops, 173, r0, p, 27);
    lemma_run_ops_step(ops, 173, r0, p, 28);
    lemma_run_ops_step(ops, 173, r0, p, 29);
    lemma_run_ops_step(ops, 173, r0, p, 30);
    lemma_run_ops_step(ops, 173, r0, p, 31);
    lemma_run_ops_step(ops, 173, r0, p, 32);
    lemma_run_ops_step(ops, 173, r0, p, 33);
    lemma_run_ops_step(ops, 173, r0, p, 34);
    lemma_run_ops_step(ops, 173, r0, p, 35);
    lemma_run_ops_step(ops, 173, r0, p, 36);
    lemma_run_ops_step(ops, 173, r0, p, 37);
    lemma_run_ops_step(ops, 173, r0, p, 38);
    lemma_run_ops_step(ops, 173, r0, p, 39);
}

proof fn lemma_idct16_low8_row_regs_1(input: Seq<i32>, p: ButterflyParams)
    requires
        params_ok(p),
        input.len() == 16,
    ensures
        ({
            let rr = run_ops(IDCT16_LOW8_ROW_OPS@, 173, input.push(0), p);
            &&& rr[57] == clamp_w(rr[56], p.bd, 8)
            &&& rr[58] == rotate_half(rr[32], sub_w(0, spec_cospi(p.bit, 16)), rr[44], spec_cospi(p.bit, 48), p)
            &&& rr[59] == rotate_half(rr[32], spec_cospi(p.bit, 48), rr[44], spec_cospi(p.bit, 16), p)
            &&& rr[60] == rotate_half(rr[36], sub_w(0, spec_cospi(p.bit, 48)), rr[40], sub_w(0, spec_cospi(p.bit, 16)), p)
            &&& rr[61] == rotate_half(rr[36], sub_w(0, spec_cospi(p.bit, 16)), rr[40], spec_cospi(p.bit, 48), p)
            &&& rr[62] == add_w(rr[47], rr[48])
            &&& rr[63] == clamp_w(rr[62], p.bd, 8)
            &&& rr[64] == sub_w(rr[47], rr[48])
            &&& rr[65] == clamp_w(rr[64], p.bd, 8)
            &&& rr[66] == add_w(rr[47], rr[49])
            &&& rr[67] == clamp_w(rr[66], p.bd, 8)
            &&& rr[68] == sub_w(rr[47], rr[49])
            &&& rr[69] == clamp_w(rr[68], p.bd, 8)
            &&& rr[70] == mul_w(rr[53], spec_cospi(p.bit, 32))
            &&& rr[71] == mul_w(rr[57], spec_cospi(p.bit, 32))
            &&& rr[72] == sub_w(rr[71], rr[70])
            &&& rr[73] == add_w(rr[72], spec_rounding(p))
            &&& rr[74] == rr[73] >> p.bit
            &&& rr[75] == add_w(rr[71], rr[70])
            &&& rr[76] == add_w(rr[75], spec_rounding(p))
            &&& rr[77] == rr[76] >> p.bit
            &&& rr[78] == add_w(rr[30], rr[34])
            &&& rr[79] == clamp_w(rr[78], p.bd, 8)
            &&& rr[80] == sub_w(rr[30], rr[34])
            &&& rr[81] == clamp_w(rr[80], p.bd, 8)
            &&& rr[82] == add_w(rr[58], rr[60])
            &&& rr[83] == clamp_w(rr[82], p.bd, 8)
            &&& rr[84] == sub_w(rr[58], rr[60])
            &&& rr[85] == clamp_w(rr[84], p.bd, 8)
            &&& rr[86] == add_w(rr[42], rr[38])
            &&& rr[87] == clamp_w(rr[86], p.bd, 8)
            &&& rr[88] == sub_w(rr[42], rr[38])
            &&& rr[89] == clamp_w(rr[88], p.bd, 8)
            &&& rr[90] == add_w(rr[59], rr[61])
            &&& rr[91] == clamp_w(rr[90], p.bd, 8)
            &&& rr[92] == sub_w(rr[59], rr[61])
            &&& rr[93] == clamp_w(rr[92], p.bd, 8)
            &&& rr[94] == add_w(rr[63], rr[55])
            &&& rr[95] == clamp_w(rr[94], p.bd, 8)
            &&& rr[96] == sub_w(rr[63], rr[55])
        }),
{
    reveal(IDCT16_LOW8_ROW_OPS);
    let ops = IDCT16_LOW8_ROW_OPS@;
    let r0 = input.push(0);
    lemma_run_ops_len(ops, 173, r0, p);
    reveal(add_w);
    reveal(sub_w);
    reveal(mul_w);
    reveal(rotate_half);
    reveal(clamp_w);
    lemma_run_ops_step(ops, 173, r0, p, 40);
    lemma_run_ops_step(ops, 173, r0, p, 41);
    lemma_run_ops_step(ops, 173, r0, p, 42);
    lemma_run_ops_step(ops, 173, r0, p, 43);
    lemma_run_ops_step(ops, 173, r0, p, 44);
    lemma_run_ops_step(ops, 173, r0, p, 45);
    lemma_run_ops_step(ops, 173, r0, p, 46);
    lemma_run_ops_step(ops, 173, r0, p, 47);
    lemma_run_ops_step(ops, 173, r0, p, 48);
    lemma_run_ops_step(ops, 173, r0, p, 49);
    lemma_run_ops_step(ops, 173, r0, p, 50);
    lemma_run_ops_step(ops, 173, r0, p, 51);
    lemma_run_ops_step(ops, 173, r0, p, 52);
    lemma_run_ops_step(ops, 173, r0, p, 53);
    lemma_run_ops_step(ops, 173, r0, p, 54);
    lemma_run_ops_step(ops, 173, r0, p, 55);
    lemma_run_ops_step(ops, 173, r0, p, 56);
    lemma_run_ops_step(ops, 173, r0, p, 57);
    lemma_run_ops_step(ops, 173, r0, p, 58);
    lemma_run_ops_step(ops, 173, r0, p, 59);
    lemma_run_ops_step(ops, 173, r0, p, 60);
    lemma_run_ops_step(ops, 173, r0, p, 61);
    lemma_run_ops_step(ops, 173, r0, p, 62);
    lemma_run_ops_step(ops, 173, r0, p, 63);
    lemma_run_ops_step(ops, 173, r0, p, 64);
    lemma_run_ops_step(ops, 173, r0, p, 65);
    lemma_run_ops_step(ops, 173, r0, p, 66);
    lemma_run_ops_step(ops, 173, r0, p, 67);
    lemma_run_ops_step(ops, 173, r0, p, 68);
    lemma_run_ops_step(ops, 173, r0, p, 69);
    lemma_run_ops_step(ops, 173, r0, p, 70);
    lemma_run_ops_step(ops, 173, r0, p, 71);
    lemma_run_ops_step(ops, 173, r0, p, 72);
    lemma_run_ops_step(ops, 173, r0, p, 73);
    lemma_run_ops_step(ops, 173, r0, p, 74);
    lemma_run_ops_step(ops, 173, r0, p, 75);
    lemma_run_ops_step(ops, 173, r0, p, 76);
    lemma_run_ops_step(ops, 173, r0, p, 77);
    lemma_run_ops_step(ops, 173, r0, p, 78);
    lemma_run_ops_step(ops, 173, r0, p, 79);
}

proof fn lemma_idct16_low8_row_regs_2(input: Seq<i32>, p: ButterflyParams)
    requires
        params_ok(p),
        input.len() == 16,
    ensures
        ({
            let rr = run_ops(IDCT16_LOW8_ROW_OPS@, 173, input.push(0), p);
            &&& rr[97] == clamp_w(rr[96], p.bd, 8)
            &&& rr[98] == add_w(rr[67], rr[77])
            &&& rr[99] == clamp_w(rr[98], p.bd, 8)
            &&& rr[100] == sub_w(rr[67], rr[77])
            &&& rr[101] == clamp_w(rr[100], p.bd, 8)
            &&& rr[102] == add_w(rr[69], rr[74])
            &&& rr[103] == clamp_w(rr[102], p.bd, 8)
            &&& rr[104] == sub_w(rr[69], rr[74])
            &&& rr[105] == clamp_w(rr[104], p.bd, 8)
            &&& rr[106] == add_w(rr[65], rr[51])
            &&& rr[107] == clamp_w(rr[106], p.bd, 8)
            &&& rr[108] == sub_w(rr[65], rr[51])
            &&& rr[109] == clamp_w(rr[108], p.bd, 8)
            &&& rr[110] == mul_w(rr[85], spec_cospi(p.bit, 32))
            &&& rr[111] == mul_w(rr[93], spec_cospi(p.bit, 32))
            &&& rr[112] == sub_w(rr[111], rr[110])
            &&& rr[113] == add_w(rr[112], spec_rounding(p))
            &&& rr[114] == rr[113] >> p.bit
            &&& rr[115] == add_w(rr[110], rr[111])
            &&& rr[116] == add_w(rr[115], spec_rounding(p))
            &&& rr[117] == rr[116] >> p.bit
            &&& rr[118] == mul_w(rr[81], spec_cospi(p.bit, 32))
            &&& rr[119] == mul_w(rr[89], spec_cospi(p.bit, 32))
            &&& rr[120] == sub_w(rr[119], rr[118])
            &&& rr[121] == add_w(rr[120], spec_rounding(p))
            &&& rr[122] == rr[121] >> p.bit
            &&& rr[123] == add_w(rr[118], rr[119])
            &&& rr[124] == add_w(rr[123], spec_rounding(p))
            &&& rr[125] == rr[124] >> p.bit
            &&& rr[126] == add_w(rr[95], rr[87])
            &&& rr[127] == clamp_w(rr[126], p.bd, 8)
            &&& rr[128] == sub_w(rr[95], rr[87])
            &&& rr[129] == clamp_w(rr[128], p.bd, 8)
            &&& rr[130] == add_w(rr[99], rr[91])
            &&& rr[131] == clamp_w(rr[130], p.bd, 8)
            &&& rr[132] == sub_w(rr[99], rr[91])
            &&& rr[133] == clamp_w(rr[132], p.bd, 8)
            &&& rr[134] == add_w(rr[103], rr[117])
            &&& rr[135] == clamp_w(rr[134], p.bd, 8)
            &&& rr[136] == sub_w(rr[103], rr[117])
        }),
{
    reveal(IDCT16_LOW8_ROW_OPS);
    let ops = IDCT16_LOW8_ROW_OPS@;
    let r0 = input.push(0);
    lemma_run_ops_len(ops, 173, r0, p);
    reveal(add_w);
    reveal(sub_w);
    reveal(mul_w);
    reveal(clamp_w);
    lemma_run_ops_step(ops, 173, r0, p, 80);
    lemma_run_ops_step(ops, 173, r0, p, 81);
    lemma_run_ops_step(ops, 173, r0, p, 82);
    lemma_run_ops_step(ops, 173, r0, p, 83);
    lemma_run_ops_step(ops, 173, r0, p, 84);
    lemma_run_ops_step(ops, 173, r0, p, 85);
    lemma_run_ops_step(ops, 173, r0, p, 86);
    lemma_run_ops_step(ops, 173, r0, p, 87);
    lemma_run_ops_step(ops, 173, r0, p, 88);
    lemma_run_ops_step(ops, 173, r0, p, 89);
    lemma_run_ops_step(ops, 173, r0, p, 90);
    lemma_run_ops_step(ops, 173, r0, p, 91);
    lemma_run_ops_step(ops, 173, r0, p, 92);
    lemma_run_ops_step(ops, 173, r0, p, 93);
    lemma_run_ops_step(ops, 173, r0, p, 94);
    lemma_run_ops_step(ops, 173, r0, p, 95);
    lemma_run_ops_step(ops, 173, r0, p, 96);
    lemma_run_ops_step(ops, 173, r0, p, 97);
    lemma_run_ops_step(ops, 173, r0, p, 98);
    lemma_run_ops_step(ops, 173, r0, p, 99);
    lemma_run_ops_step(ops, 173, r0, p, 100);
    lemma_run_ops_step(ops, 173, r0, p, 101);
    lemma_run_ops_step(ops, 173, r0, p, 102);
    lemma_run_ops_step(ops, 173, r0, p, 103);
    lemma_run_ops_step(ops, 173, r0, p, 104);
    lemma_run_ops_step(ops, 173, r0, p, 105);
    lemma_run_ops_step(ops, 173, r0, p, 106);
    lemma_run_ops_step(ops, 173, r0, p, 107);
    lemma_run_ops_step(ops, 173, r0, p, 108);
    lemma_run_ops_step(ops, 173, r0, p, 109);
    lemma_run_ops_step(ops, 173, r0, p, 110);
    lemma_run_ops_step(ops, 173, r0, p, 111);
    lemma_run_ops_step(ops, 173, r0, p, 112);
    lemma_run_ops_step(ops, 173, r0, p, 113);
    lemma_run_ops_step(ops, 173, r0, p, 114);
    lemma_run_ops_step(ops, 173, r0, p, 115);
    lemma_run_ops_step(ops, 173, r0, p, 116);
    lemma_run_ops_step(ops, 173, r0, p, 117);
    lemma_run_ops_step(ops, 173, r0, p, 118);
    lemma_run_ops_step(ops, 173, r0, p, 119);
}

proof fn lemma_idct16_low8_row_regs_3(input: Seq<i32>, p: ButterflyParams)
    requires
        params_ok(p),
        input.len() == 16,
    ensures
        ({
            let rr = run_ops(IDCT16_LOW8_ROW_OPS@, 173, input.push(0), p);
            &&& rr[137] == clamp_w(rr[136], p.bd, 8)
            &&& rr[138] == add_w(rr[107], rr[125])
            &&& rr[139] == clamp_w(rr[138], p.bd, 8)
            &&& rr[140] == sub_w(rr[107], rr[125])
            &&& rr[141] == clamp_w(rr[140], p.bd, 8)
            &&& rr[142] == add_w(rr[109], rr[122])
            &&& rr[143] == clamp_w(rr[142], p.bd, 8)
            &&& rr[144] == sub_w(rr[109], rr[122])
            &&& rr[145] == clamp_w(rr[144], p.bd, 8)
            &&& rr[146] == add_w(rr[105], rr[114])
            &&& rr[147] == clamp_w(rr[146], p.bd, 8)
            &&& rr[148] == sub_w(rr[105], rr[114])
            &&& rr[149] == clamp_w(rr[148], p.bd, 8)
            &&& rr[150] == add_w(rr[101], rr[83])
            &&& rr[151] == clamp_w(rr[150], p.bd, 8)
            &&& rr[152] == sub_w(rr[101], rr[83])
            &&& rr[153] == clamp_w(rr[152], p.bd, 8)
            &&& rr[154] == add_w(rr[97], rr[79])
            &&& rr[155] == clamp_w(rr[154], p.bd, 8)
            &&& rr[156] == sub_w(rr[97], rr[79])
            &&& rr[157] == clamp_w(rr[156], p.bd, 8)
            &&& rr[158] == round_out(rr[127], p)
            &&& rr[159] == round_out(rr[131], p)
            &&& rr[160] == round_out(rr[135], p)
            &&& rr[161] == round_out(rr[139], p)
            &&& rr[162] == round_out(rr[143], p)
            &&& rr[163] == round_out(rr[147], p)
            &&& rr[164] == round_out(rr[151], p)
            &&& rr[165] == round_out(rr[155], p)
            &&& rr[166] == round_out(rr[157], p)
            &&& rr[167] == round_out(rr[153], p)
            &&& rr[168] == round_out(rr[149], p)
            &&& rr[169] == round_out(rr[145], p)
            &&& rr[170] == round_out(rr[141], p)
            &&& rr[171] == round_out(rr[137], p)
            &&& rr[172] == round_out(rr[133], p)
            &&& rr[173] == round_out(rr[129], p)
            &&& rr[174] == clamp_w(rr[158], p.bd, 6)
            &&& rr[175] == clamp_w(rr[159], p.bd, 6)
            &&& rr[176] == clamp_w(rr[160], p.bd, 6)
        }),
{
    reveal(IDCT16_LOW8_ROW_OPS);
    let ops = IDCT16_LOW8_ROW_OPS@;
    let r0 = input.push(0);
    lemma_run_ops_len(ops, 173, r0, p);
    reveal(add_w);
    reveal(sub_w);
    reveal(clamp_w);
    reveal(round_out);
    lemma_run_ops_step(ops, 173, r0, p, 120);
    lemma_run_ops_step(ops, 173, r0, p, 121);
    lemma_run_ops_step(ops, 173, r0, p, 122);
    lemma_run_ops_step(ops, 173, r0, p, 123);
    lemma_run_ops_step(ops, 173, r0, p, 124);
    lemma_run_ops_step(ops, 173, r0, p, 125);
    lemma_run_ops_step(ops, 173, r0, p, 126);
    lemma_run_ops_step(ops, 173, r0, p, 127);
    lemma_run_ops_step(ops, 173, r0, p, 128);
    lemma_run_ops_step(ops, 173, r0, p, 129);
    lemma_run_ops_step(ops, 173, r0, p, 130);
    lemma_run_ops_step(ops, 173, r0, p, 131);
    lemma_run_ops_step(ops, 173, r0, p, 132);
    lemma_run_ops_step(ops, 173, r0, p, 133);
    lemma_run_ops_step(ops, 173, r0, p, 134);
    lemma_run_ops_step(ops, 173, r0, p, 135);
    lemma_run_ops_step(ops, 173, r0, p, 136);
    lemma_run_ops_step(ops, 173, r0, p, 137);
    lemma_run_ops_step(ops, 173, r0, p, 138);
    lemma_run_ops_step(ops, 173, r0, p, 139);
    lemma_run_ops_step(ops, 173, r0, p, 140);
    lemma_run_ops_step(ops, 173, r0, p, 141);
    lemma_run_ops_step(ops, 173, r0, p, 142);
    lemma_run_ops_step(ops, 173, r0, p, 143);
    lemma_run_ops_step(ops, 173, r0, p, 144);
    lemma_run_ops_step(ops, 173, r0, p, 145);
    lemma_run_ops_step(ops, 173, r0, p, 146);
    lemma_run_ops_step(ops, 173, r0, p, 147);
    lemma_run_ops_step(ops, 173, r0, p, 148);
    lemma_run_ops_step(ops, 173, r0, p, 149);
    lemma_run_ops_step(ops, 173, r0, p, 150);
    lemma_run_ops_step(ops, 173, r0, p, 151);
    lemma_run_ops_step(ops, 173, r0, p, 152);
    lemma_run_ops_step(ops, 173, r0, p, 153);
    lemma_run_ops_step(ops, 173, r0, p, 154);
    lemma_run_ops_step(ops, 173, r0, p, 155);
    lemma_run_ops_step(ops, 173, r0, p, 156);
    lemma_run_ops_step(ops, 173, r0, p, 157);
    lemma_run_ops_step(ops, 173, r0, p, 158);
    lemma_run_ops_step(ops, 173, r0, p, 159);
}

proof fn lemma_idct16_low8_row_regs_4(input: Seq<i32>, p: ButterflyParams)
    requires
        params_ok(p),
        input.len() == 16,
    ensures
        ({
            let rr = run_ops(IDCT16_LOW8_ROW_OPS@, 173, input.push(0), p);
            &&& rr[177] == clamp_w(rr[161], p.bd, 6)
            &&& rr[178] == clamp_w(rr[162], p.bd, 6)
            &&& rr[179] == clamp_w(rr[163], p.bd, 6)
            &&& rr[180] == clamp_w(rr[164], p.bd, 6)
            &&& rr[181] == clamp_w(rr[165], p.bd, 6)
            &&& rr[182] == clamp_w(rr[166], p.bd, 6)
            &&& rr[183] == clamp_w(rr[167], p.bd, 6)
            &&& rr[184] == clamp_w(rr[168], p.bd, 6)
            &&& rr[185] == clamp_w(rr[169], p.bd, 6)
            &&& rr[186] == clamp_w(rr[170], p.bd, 6)
            &&& rr[187] == clamp_w(rr[171], p.bd, 6)
            &&& rr[188] == clamp_w(rr[172], p.bd, 6)
            &&& rr[189] == clamp_w(rr[173], p.bd, 6)
        }),
{
    reveal(IDCT16_LOW8_ROW_OPS);
    let ops = IDCT16_LOW8_ROW_OPS@;
    let r0 = input.push(0);
    lemma_run_ops_len(ops, 173, r0, p);
    reveal(clamp_w);
    lemma_run_ops_step(ops, 173, r0, p, 160);
    lemma_run_ops_step(ops, 173, r0, p, 161);
    lemma_run_ops_step(ops, 173, r0, p, 162);
    lemma_run_ops_step(ops, 173, r0, p, 163);
    lemma_run_ops_step(ops, 173, r0, p, 164);
    lemma_run_ops_step(ops, 173, r0, p, 165);
    lemma_run_ops_step(ops, 173, r0, p, 166);
    lemma_run_ops_step(ops, 173, r0, p, 167);
    lemma_run_ops_step(ops, 173, r0, p, 168);
    lemma_run_ops_step(ops, 173, r0, p, 169);
    lemma_run_ops_step(ops, 173, r0, p, 170);
    lemma_run_ops_step(ops, 173, r0, p, 171);
    lemma_run_ops_step(ops, 173, r0, p, 172);
}

/// The row pass of the 16-point inverse DCT of a lane whose coefficients past the first 8 are zero computes its stages.
#[verifier::rlimit(100)]
pub proof fn law_idct16_low8_row_stages(input: Seq<i32>, p: ButterflyParams)
    requires
        params_ok(p),
        input.len() == 16,
    ensures
        kernel_output(TxfmKernel::Idct16Low8, false, input, p) == spec_idct16_low8_row(input, p),
{
    reveal(IDCT16_LOW8_ROW_OUTS);
    let ops = IDCT16_LOW8_ROW_OPS@;
    let r0 = input.push(0);
    lemma_run_ops_len(ops, 173, r0, p);
    let rr = run_ops(ops, 173, r0, p);
    assert forall|k: int| 0 <= k < 17 implies rr[k] == r0[k] by {
        lemma_run_ops_prefix(ops, 0, 173, r0, p, k);
    }
    lemma_idct16_low8_row_regs_0(input, p);
    lemma_idct16_low8_row_regs_1(input, p);
    lemma_idct16_low8_row_regs_2(input, p);
    lemma_idct16_low8_row_regs_3(input, p);
    lemma_idct16_low8_row_regs_4(input, p);
    assert(kernel_output(TxfmKernel::Idct16Low8, false, input, p) =~= spec_idct16_low8_row(input, p));
}

/// The 16-point inverse DCT of a lane whose coefficients past the first 8 are zero computes its stages.
pub proof fn law_idct16_low8_stages(input: Seq<i32>, do_cols: bool, p: ButterflyParams)
    requires
        params_ok(p),
        input.len() == 16,
    ensures
        kernel_output(TxfmKernel::Idct16Low8, do_cols, input, p) == spec_idct16_low8(input, do_cols, p),
{
    if do_cols {
        law_idct16_low8_col_stages(input, p);
    } else {
        law_idct16_low8_row_stages(input, p);
    }
}

proof fn lemma_idct16_col_regs_0(input: Seq<i32>, p: ButterflyParams)
    requires
        params_ok(p),
        input.len() == 16,
    ensures
        ({
            let rr = run_ops(IDCT16_COL_OPS@, 146, input.push(0), p);
            &&& rr[17] == rotate_half(rr[1], spec_cospi(p.bit, 60), rr[15], sub_w(0, spec_cospi(p.bit, 4)), p)
            &&& rr[18] == rotate_half(rr[9], spec_cospi(p.bit, 28), rr[7], sub_w(0, spec_cospi(p.bit, 36)), p)
            &&& rr[19] == rotate_half(rr[5], spec_cospi(p.bit, 44), rr[11], sub_w(0, spec_cospi(p.bit, 20)), p)
            &&& rr[20] == rotate_half(rr[13], spec_cospi(p.bit, 12), rr[3], sub_w(0, spec_cospi(p.bit, 52)), p)
            &&& rr[21] == rotate_half(rr[13], spec_cospi(p.bit, 52), rr[3], spec_cospi(p.bit, 12), p)
            &&& rr[22] == rotate_half(rr[5], spec_cospi(p.bit, 20), rr[11], spec_cospi(p.bit, 44), p)
            &&& rr[23] == rotate_half(rr[9], spec_cospi(p.bit, 36), rr[7], spec_cospi(p.bit, 28), p)
            &&& rr[24] == rotate_half(rr[1], spec_cospi(p.bit, 4), rr[15], spec_cospi(p.bit, 60), p)
            &&& rr[25] == rotate_half(rr[2], spec_cospi(p.bit, 56), rr[14], sub_w(0, spec_cospi(p.bit, 8)), p)
            &&& rr[26] == rotate_half(rr[10], spec_cospi(p.bit, 24), rr[6], sub_w(0, spec_cospi(p.bit, 40)), p)
            &&& rr[27] == rotate_half(rr[10], spec_cospi(p.bit, 40), rr[6], spec_cospi(p.bit, 24), p)
            &&& rr[28] == rotate_half(rr[2], spec_cospi(p.bit, 8), rr[14], spec_cospi(p.bit, 56), p)
            &&& rr[29] == add_w(rr[17], rr[18])
            &&& rr[30] == clamp_w(rr[29], p.bd, 6)
            &&& rr[31] == sub_w(rr[17], rr[18])
            &&& rr[32] == clamp_w(rr[31], p.bd, 6)
            &&& rr[33] == add_w(rr[20], rr[19])
            &&& rr[34] == clamp_w(rr[33], p.bd, 6)
            &&& rr[35] == sub_w(rr[20], rr[19])
            &&& rr[36] == clamp_w(rr[35], p.bd, 6)
            &&& rr[37] == add_w(rr[21], rr[22])
            &&& rr[38] == clamp_w(rr[37], p.bd, 6)
            &&& rr[39] == sub_w(rr[21], rr[22])
            &&& rr[40] == clamp_w(rr[39], p.bd, 6)
            &&& rr[41] == add_w(rr[24], rr[23])
            &&& rr[42] == clamp_w(rr[41], p.bd, 6)
            &&& rr[43] == sub_w(rr[24], rr[23])
            &&& rr[44] == clamp_w(rr[43], p.bd, 6)
            &&& rr[45] == mul_w(rr[0], spec_cospi(p.bit, 32))
            &&& rr[46] == mul_w(rr[8], spec_cospi(p.bit, 32))
            &&& rr[47] == add_w(rr[45], rr[46])
            &&& rr[48] == add_w(rr[47], spec_rounding(p))
            &&& rr[49] == rr[48] >> p.bit
            &&& rr[50] == sub_w(rr[45], rr[46])
            &&& rr[51] == add_w(rr[50], spec_rounding(p))
            &&& rr[52] == rr[51] >> p.bit
            &&& rr[53] == rotate_half(rr[4], spec_cospi(p.bit, 48), rr[12], sub_w(0, spec_cospi(p.bit, 16)), p)
            &&& rr[54] == rotate_half(rr[4], spec_cospi(p.bit, 16), rr[12], spec_cospi(p.bit, 48), p)
            &&& rr[55] == add_w(rr[25], rr[26])
            &&& rr[56] == clamp_w(rr[55], p.bd, 6)
        }),
{
    reveal(IDCT16_COL_OPS);
    let ops = IDCT16_COL_OPS@;
    let r0 = input.push(0);
    lemma_run_ops_len(ops, 146, r0, p);
    reveal(add_w);
    reveal(sub_w);
    reveal(mul_w);
    reveal(rotate_half);
    reveal(clamp_w);
    lemma_run_ops_step(ops, 146, r0, p, 0);
    lemma_run_ops_step(ops, 146, r0, p, 1);
    lemma_run_ops_step(ops, 146, r0, p, 2);
    lemma_run_ops_step(ops, 146, r0, p, 3);
    lemma_run_ops_step(ops, 146, r0, p, 4);
    lemma_run_ops_step(ops, 146, r0, p, 5);
    lemma_run_ops_step(ops, 146, r0, p, 6);
    lemma_run_ops_step(ops, 146, r0, p, 7);
    lemma_run_ops_step(ops, 146, r0, p, 8);
    lemma_run_ops_step(ops, 146, r0, p, 9);
    lemma_run_ops_step(ops, 146, r0, p, 10);
    lemma_run_ops_step(ops, 146, r0, p, 11);
    lemma_run_ops_step(ops, 146, r0, p, 12);
    lemma_run_ops_step(ops, 146, r0, p, 13);
    lemma_run_ops_step(ops, 146, r0, p, 14);
    lemma_run_ops_step(ops, 146, r0, p, 15);
    lemma_run_ops_step(ops, 146, r0, p, 16);
    lemma_run_ops_step(ops, 146, r0, p, 17);
    lemma_run_ops_step(ops, 146, r0, p, 18);
    lemma_run_ops_step(ops, 146, r0, p, 19);
    lemma_run_ops_step(ops, 146, r0, p, 20);
    lemma_run_ops_step(ops, 146, r0, p, 21);
    lemma_run_ops_step(ops, 146, r0, p, 22);
    lemma_run_ops_step(ops, 146, r0, p, 23);
    lemma_run_ops_step(ops, 146, r0, p, 24);
    lemma_run_ops_step(ops, 146, r0, p, 25);
    lemma_run_ops_step(ops, 146, r0, p, 26);
    lemma_run_ops_step(ops, 146, r0, p, 27);
    lemma_run_ops_step(ops, 146, r0, p, 28);
    lemma_run_ops_step(ops, 146, r0, p, 29);
    lemma_run_ops_step(ops, 146, r0, p, 30);
    lemma_run_ops_step(ops, 146, r0, p, 31);
    lemma_run_ops_step(ops, 146, r0, p, 32);
    lemma_run_ops_step(ops, 146, r0, p, 33);
    lemma_run_ops_step(ops, 146, r0, p, 34);
    lemma_run_ops_step(ops, 146, r0, p, 35);
    lemma_run_ops_step(ops, 146, r0, p, 36);
    lemma_run_ops_step(ops, 146, r0, p, 37);
    lemma_run_ops_step(ops, 146, r0, p, 38);
    lemma_run_ops_step(ops, 146, r0, p, 39);
}

proof fn lemma_idct16_col_regs_1(input: Seq<i32>, p: ButterflyParams)
    requires
        params_ok(p),
        input.len() == 16,
    ensures
        ({
            let rr = run_ops(IDCT16_COL_OPS@, 146, input.push(0), p);
            &&& rr[57] == sub_w(rr[25], rr[26])
            &&& rr[58] == clamp_w(rr[57], p.bd, 6)
            &&& rr[59] == add_w(rr[28], rr[27])
            &&& rr[60] == clamp_w(rr[59], p.bd, 6)
            &&& rr[61] == sub_w(rr[28], rr[27])
            &&& rr[62] == clamp_w(rr[61], p.bd, 6)
            &&& rr[63] == rotate_half(rr[32], sub_w(0, spec_cospi(p.bit, 16)), rr[44], spec_cospi(p.bit, 48), p)
            &&& rr[64] == rotate_half(rr[36], sub_w(0, spec_cospi(p.bit, 48)), rr[40], sub_w(0, spec_cospi(p.bit, 16)), p)
            &&& rr[65] == rotate_half(rr[36], sub_w(0, spec_cospi(p.bit, 16)), rr[40], spec_cospi(p.bit, 48), p)
            &&& rr[66] == rotate_half(rr[32], spec_cospi(p.bit, 48), rr[44], spec_cospi(p.bit, 16), p)
            &&& rr[67] == add_w(rr[49], rr[54])
            &&& rr[68] == clamp_w(rr[67], p.bd, 6)
            &&& rr[69] == sub_w(rr[49], rr[54])
            &&& rr[70] == clamp_w(rr[69], p.bd, 6)
            &&& rr[71] == add_w(rr[52], rr[53])
            &&& rr[72] == clamp_w(rr[71], p.bd, 6)
            &&& rr[73] == sub_w(rr[52], rr[53])
            &&& rr[74] == clamp_w(rr[73], p.bd, 6)
            &&& rr[75] == mul_w(rr[58], spec_cospi(p.bit, 32))
            &&& rr[76] == mul_w(rr[62], spec_cospi(p.bit, 32))
            &&& rr[77] == sub_w(rr[76], rr[75])
            &&& rr[78] == add_w(rr[77], spec_rounding(p))
            &&& rr[79] == rr[78] >> p.bit
            &&& rr[80] == add_w(rr[76], rr[75])
            &&& rr[81] == add_w(rr[80], spec_rounding(p))
            &&& rr[82] == rr[81] >> p.bit
            &&& rr[83] == add_w(rr[30], rr[34])
            &&& rr[84] == clamp_w(rr[83], p.bd, 6)
            &&& rr[85] == sub_w(rr[30], rr[34])
            &&& rr[86] == clamp_w(rr[85], p.bd, 6)
            &&& rr[87] == add_w(rr[63], rr[64])
            &&& rr[88] == clamp_w(rr[87], p.bd, 6)
            &&& rr[89] == sub_w(rr[63], rr[64])
            &&& rr[90] == clamp_w(rr[89], p.bd, 6)
            &&& rr[91] == add_w(rr[42], rr[38])
            &&& rr[92] == clamp_w(rr[91], p.bd, 6)
            &&& rr[93] == sub_w(rr[42], rr[38])
            &&& rr[94] == clamp_w(rr[93], p.bd, 6)
            &&& rr[95] == add_w(rr[66], rr[65])
            &&& rr[96] == clamp_w(rr[95], p.bd, 6)
        }),
{
    reveal(IDCT16_COL_OPS);
    let ops = IDCT16_COL_OPS@;
    let r0 = input.push(0);
    lemma_run_ops_len(ops, 146, r0, p);
    reveal(add_w);
    reveal(sub_w);
    reveal(mul_w);
    reveal(rotate_half);
    reveal(clamp_w);
    lemma_run_ops_step(ops, 146, r0, p, 40);
    lemma_run_ops_step(ops, 146, r0, p, 41);
    lemma_run_ops_step(ops, 146, r0, p, 42);
    lemma_run_ops_step(ops, 146, r0, p, 43);
    lemma_run_ops_step(ops, 146, r0, p, 44);
    lemma_run_ops_step(ops, 146, r0, p, 45);
    lemma_run_ops_step(ops, 146, r0, p, 46);
    lemma_run_ops_step(ops, 146, r0, p, 47);
    lemma_run_ops_step(ops, 146, r0, p, 48);
    lemma_run_ops_step(ops, 146, r0, p, 49);
    lemma_run_ops_step(ops, 146, r0, p, 50);
    lemma_run_ops_step(ops, 146, r0, p, 51);
    lemma_run_ops_step(ops, 146, r0, p, 52);
    lemma_run_ops_step(ops, 146, r0, p, 53);
    lemma_run_ops_step(ops, 146, r0, p, 54);
    lemma_run_ops_step(ops, 146, r0, p, 55);
    lemma_run_ops_step(ops, 146, r0, p, 56);
    lemma_run_ops_step(ops, 146, r0, p, 57);
    lemma_run_ops_step(ops, 146, r0, p, 58);
    lemma_run_ops_step(ops, 146, r0, p, 59);
    lemma_run_ops_step(ops, 146, r0, p, 60);
    lemma_run_ops_step(ops, 146, r0, p, 61);
    lemma_run_ops_step(ops, 146, r0, p, 62);
    lemma_run_ops_step(ops, 146, r0, p, 63);
    lemma_run_ops_step(ops, 146, r0, p, 64);
    lemma_run_ops_step(ops, 146, r0, p, 65);
    lemma_run_ops_step(ops, 146, r0, p, 66);
    lemma_run_ops_step(ops, 146, r0, p, 67);
    lemma_run_ops_step(ops, 146, r0, p, 68);
    lemma_run_ops_step(ops, 146, r0, p, 69);
    lemma_run_ops_step(ops, 146, r0, p, 70);
    lemma_run_ops_step(ops, 146, r0, p, 71);
    lemma_run_ops_step(ops, 146, r0, p, 72);
    lemma_run_ops_step(ops, 146, r0, p, 73);
    lemma_run_ops_step(ops, 146, r0, p, 74);
    lemma_run_ops_step(ops, 146, r0, p, 75);
    lemma_run_ops_step(ops, 146, r0, p, 76);
    lemma_run_ops_step(ops, 146, r0, p, 77);
    lemma_run_ops_step(ops, 146, r0, p, 78);
    lemma_run_ops_step(ops, 146, r0, p, 79);
}

proof fn lemma_idct16_col_regs_2(input: Seq<i32>, p: ButterflyParams)
    requires
        params_ok(p),
        input.len() == 16,
    ensures
        ({
            let rr = run_ops(IDCT16_COL_OPS@, 146, input.push(0), p);
            &&& rr[97] == sub_w(rr[66], rr[65])
            &&& rr[98] == clamp_w(rr[97], p.bd, 6)
            &&& rr[99] == add_w(rr[68], rr[60])
            &&& rr[100] == clamp_w(rr[99], p.bd, 6)
            &&& rr[101] == sub_w(rr[68], rr[60])
            &&& rr[102] == clamp_w(rr[101], p.bd, 6)
            &&& rr[103] == add_w(rr[72], rr[82])
            &&& rr[104] == clamp_w(rr[103], p.bd, 6)
            &&& rr[105] == sub_w(rr[72], rr[82])
            &&& rr[106] == clamp_w(rr[105], p.bd, 6)
            &&& rr[107] == add_w(rr[74], rr[79])
            &&& rr[108] == clamp_w(rr[107], p.bd, 6)
            &&& rr[109] == sub_w(rr[74], rr[79])
            &&& rr[110] == clamp_w(rr[109], p.bd, 6)
            &&& rr[111] == add_w(rr[70], rr[56])
            &&& rr[112] == clamp_w(rr[111], p.bd, 6)
            &&& rr[113] == sub_w(rr[70], rr[56])
            &&& rr[114] == clamp_w(rr[113], p.bd, 6)
            &&& rr[115] == mul_w(rr[90], spec_cospi(p.bit, 32))
            &&& rr[116] == mul_w(rr[98], spec_cospi(p.bit, 32))
            &&& rr[117] == sub_w(rr[116], rr[115])
            &&& rr[118] == add_w(rr[117], spec_rounding(p))
            &&& rr[119] == rr[118] >> p.bit
            &&& rr[120] == add_w(rr[115], rr[116])
            &&& rr[121] == add_w(rr[120], spec_rounding(p))
            &&& rr[122] == rr[121] >> p.bit
            &&& rr[123] == mul_w(rr[86], spec_cospi(p.bit, 32))
            &&& rr[124] == mul_w(rr[94], spec_cospi(p.bit, 32))
            &&& rr[125] == sub_w(rr[124], rr[123])
            &&& rr[126] == add_w(rr[125], spec_rounding(p))
            &&& rr[127] == rr[126] >> p.bit
            &&& rr[128] == add_w(rr[123], rr[124])
            &&& rr[129] == add_w(rr[128], spec_rounding(p))
            &&& rr[130] == rr[129] >> p.bit
            &&& rr[131] == add_w(rr[100], rr[92])
            &&& rr[132] == clamp_w(rr[131], p.bd, 6)
            &&& rr[133] == sub_w(rr[100], rr[92])
            &&& rr[134] == clamp_w(rr[133], p.bd, 6)
            &&& rr[135] == add_w(rr[104], rr[96])
            &&& rr[136] == clamp_w(rr[135], p.bd, 6)
        }),
{
    reveal(IDCT16_COL_OPS);
    let ops = IDCT16_COL_OPS@;
    let r0 = input.push(0);
    lemma_run_ops_len(ops, 146, r0, p);
    reveal(add_w);
    reveal(sub_w);
    reveal(mul_w);
    reveal(clamp_w);
    lemma_run_ops_step(ops, 146, r0, p, 80);
    lemma_run_ops_step(ops, 146, r0, p, 81);
    lemma_run_ops_step(ops, 146, r0, p, 82);
    lemma_run_ops_step(ops, 146, r0, p, 83);
    lemma_run_ops_step(ops, 146, r0, p, 84);
    lemma_run_ops_step(ops, 146, r0, p, 85);
    lemma_run_ops_step(ops, 146, r0, p, 86);
    lemma_run_ops_step(ops, 146, r0, p, 87);
    lemma_run_ops_step(ops, 146, r0, p, 88);
    lemma_run_ops_step(ops, 146, r0, p, 89);
    lemma_run_ops_step(ops, 146, r0, p, 90);
    lemma_run_ops_step(ops, 146, r0, p, 91);
    lemma_run_ops_step(ops, 146, r0, p, 92);
    lemma_run_ops_step(ops, 146, r0, p, 93);
    lemma_run_ops_step(ops, 146, r0, p, 94);
    lemma_run_ops_step(ops, 146, r0, p, 95);
    lemma_run_ops_step(ops, 146, r0, p, 96);
    lemma_run_ops_step(ops, 146, r0, p, 97);
    lemma_run_ops_step(ops, 146, r0, p, 98);
    lemma_run_ops_step(ops, 146, r0, p, 99);
    lemma_run_ops_step(ops, 146, r0, p, 100);
    lemma_run_ops_step(ops, 146, r0, p, 101);
    lemma_run_ops_step(ops, 146, r0, p, 102);
    lemma_run_ops_step(ops, 146, r0, p, 103);
    lemma_run_ops_step(ops, 146, r0, p, 104);
    lemma_run_ops_step(ops, 146, r0, p, 105);
    lemma_run_ops_step(ops, 146, r0, p, 106);
    lemma_run_ops_step(ops, 146, r0, p, 107);
    lemma_run_ops_step(ops, 146, r0, p, 108);
    lemma_run_ops_step(ops, 146, r0, p, 109);
    lemma_run_ops_step(ops, 146, r0, p, 110);
    lemma_run_ops_step(ops, 146, r0, p, 111);
    lemma_run_ops_step(ops, 146, r0, p, 112);
    lemma_run_ops_step(ops, 146, r0, p, 113);
    lemma_run_ops_step(ops, 146, r0, p, 114);
    lemma_run_ops_step(ops, 146, r0, p, 115);
    lemma_run_ops_step(ops, 146, r0, p, 116);
    lemma_run_ops_step(ops, 146, r0, p, 117);
    lemma_run_ops_step(ops, 146, r0, p, 118);
    lemma_run_ops_step(ops, 146, r0, p, 119);
}

proof fn lemma_idct16_col_regs_3(input: Seq<i32>, p: ButterflyParams)
    requires
        params_ok(p),
        input.len() == 16,
    ensures
        ({
            let rr = run_ops(IDCT16_COL_OPS@, 146, input.push(0), p);
            &&& rr[137] == sub_w(rr[104], rr[96])
            &&& rr[138] == clamp_w(rr[137], p.bd, 6)
            &&& rr[139] == add_w(rr[108], rr[122])
            &&& rr[140] == clamp_w(rr[139], p.bd, 6)
            &&& rr[141] == sub_w(rr[108], rr[122])
            &&& rr[142] == clamp_w(rr[141], p.bd, 6)
            &&& rr[143] == add_w(rr[112], rr[130])
            &&& rr[144] == clamp_w(rr[143], p.bd, 6)
            &&& rr[145] == sub_w(rr[112], rr[130])
            &&& rr[146] == clamp_w(rr[145], p.bd, 6)
            &&& rr[147] == add_w(rr[114], rr[127])
            &&& rr[148] == clamp_w(rr[147], p.bd, 6)
            &&& rr[149] == sub_w(rr[114], rr[127])
            &&& rr[150] == clamp_w(rr[149], p.bd, 6)
            &&& rr[151] == add_w(rr[110], rr[119])
            &&& rr[152] == clamp_w(rr[151], p.bd, 6)
            &&& rr[153] == sub_w(rr[110], rr[119])
            &&& rr[154] == clamp_w(rr[153], p.bd, 6)
            &&& rr[155] == add_w(rr[106], rr[88])
            &&& rr[156] == clamp_w(rr[155], p.bd, 6)
            &&& rr[157] == sub_w(rr[106], rr[88])
            &&& rr[158] == clamp_w(rr[157], p.bd, 6)
            &&& rr[159] == add_w(rr[102], rr[84])
            &&& rr[160] == clamp_w(rr[159], p.bd, 6)
            &&& rr[161] == sub_w(rr[102], rr[84])
            &&& rr[162] == clamp_w(rr[161], p.bd, 6)
        }),
{
    reveal(IDCT16_COL_OPS);
    let ops = IDCT16_COL_OPS@;
    let r0 = input.push(0);
    lemma_run_ops_len(ops, 146, r0, p);
    reveal(add_w);
    reveal(sub_w);
    reveal(clamp_w);
    lemma_run_ops_step(ops, 146, r0, p, 120);
    lemma_run_ops_step(ops, 146, r0, p, 121);
    lemma_run_ops_step(ops, 146, r0, p, 122);
    lemma_run_ops_step(ops, 146, r0, p, 123);
    lemma_run_ops_step(ops, 146, r0, p, 124);
    lemma_run_ops_step(ops, 146, r0, p, 125);
    lemma_run_ops_step(ops, 146, r0, p, 126);
    lemma_run_ops_step(ops, 146, r0, p, 127);
    lemma_run_ops_step(ops, 146, r0, p, 128);
    lemma_run_ops_step(ops, 146, r0, p, 129);
    lemma_run_ops_step(ops, 146, r0, p, 130);
    lemma_run_ops_step(ops, 146, r0, p, 131);
    lemma_run_ops_step(ops, 146, r0, p, 132);
    lemma_run_ops_step(ops, 146, r0, p, 133);
    lemma_run_ops_step(ops, 146, r0, p, 134);
    lemma_run_ops_step(ops, 146, r0, p, 135);
    lemma_run_ops_step(ops, 146, r0, p, 136);
    lemma_run_ops_step(ops, 146, r0, p, 137);
    lemma_run_ops_step(ops, 146, r0, p, 138);
    lemma_run_ops_step(ops, 146, r0, p, 139);
    lemma_run_ops_step(ops, 146, r0, p, 140);
    lemma_run_ops_step(ops, 146, r0, p, 141);
    lemma_run_ops_step(ops, 146, r0, p, 142);
    lemma_run_ops_step(ops, 146, r0, p, 143);
    lemma_run_ops_step(ops, 146, r0, p, 144);
    lemma_run_ops_step(ops, 146, r0, p, 145);
}

/// The column pass of the 16-point inverse DCT computes its stages.
#[verifier::rlimit(100)]
pub proof fn law_idct16_col_stages(input: Seq<i32>, p: ButterflyParams)
    requires
        params_ok(p),
        input.len() == 16,
    ensures
        kernel_output(TxfmKernel::Idct16, true, input, p) == spec_idct16_col(input, p),
{
    reveal(IDCT16_COL_OUTS);
    let ops = IDCT16_COL_OPS@;
    let r0 = input.push(0);
    lemma_run_ops_len(ops, 146, r0, p);
    let rr = run_ops(ops, 146, r0, p);
    assert forall|k: int| 0 <= k < 17 implies rr[k] == r0[k] by {
        lemma_run_ops_prefix(ops, 0, 146, r0, p, k);
    }
    lemma_idct16_col_regs_0(input, p);
    lemma_idct16_col_regs_1(input, p);
    lemma_idct16_col_regs_2(input, p);
    lemma_idct16_col_regs_3(input, p);
    assert(kernel_output(TxfmKernel::Idct16, true, input, p) =~= spec_idct16_col(input, p));
}

proof fn lemma_idct16_row_regs_0(input: Seq<i32>, p: ButterflyParams)
    requires
        params_ok(p),
        input.len() == 16,
    ensures
        ({
            let rr = run_ops(IDCT16_ROW_OPS@, 178, input.push(0), p);
            &&& rr[17] == rotate_half(rr[1], spec_cospi(p.bit, 60), rr[15], sub_w(0, spec_cospi(p.bit, 4)), p)
            &&& rr[18] == rotate_half(rr[9], spec_cospi(p.bit, 28), rr[7], sub_w(0, spec_cospi(p.bit, 36)), p)
            &&& rr[19] == rotate_half(rr[5], spec_cospi(p.bit, 44), rr[11], sub_w(0, spec_cospi(p.bit, 20)), p)
            &&& rr[20] == rotate_half(rr[13], spec_cospi(p.bit, 12), rr[3], sub_w(0, spec_cospi(p.bit, 52)), p)
            &&& rr[21] == rotate_half(rr[13], spec_cospi(p.bit, 52), rr[3], spec_cospi(p.bit, 12), p)
            &&& rr[22] == rotate_half(rr[5], spec_cospi(p.bit, 20), rr[11], spec_cospi(p.bit, 44), p)
            &&& rr[23] == rotate_half(rr[9], spec_cospi(p.bit, 36), rr[7], spec_cospi(p.bit, 28), p)
            &&& rr[24] == rotate_half(rr[1], spec_cospi(p.bit, 4), rr[15], spec_cospi(p.bit, 60), p)
            &&& rr[25] == rotate_half(rr[2], spec_cospi(p.bit, 56), rr[14], sub_w(0, spec_cospi(p.bit, 8)), p)
            &&& rr[26] == rotate_half(rr[10], spec_cospi(p.bit, 24), rr[6], sub_w(0, spec_cospi(p.bit, 40)), p)
            &&& rr[27] == rotate_half(rr[10], spec_cospi(p.bit, 40), rr[6], spec_cospi(p.bit, 24), p)
            &&& rr[28] == rotate_half(rr[2], spec_cospi(p.bit, 8), rr[14], spec_cospi(p.bit, 56), p)
            &&& rr[29] == add_w(rr[17], rr[18])
            &&& rr[30] == clamp_w(rr[29], p.bd, 8)
            &&& rr[31] == sub_w(rr[17], rr[18])
            &&& rr[32] == clamp_w(rr[31], p.bd, 8)
            &&& rr[33] == add_w(rr[20], rr[19])
            &&& rr[34] == clamp_w(rr[33], p.bd, 8)
            &&& rr[35] == sub_w(rr[20], rr[19])
            &&& rr[36] == clamp_w(rr[35], p.bd, 8)
            &&& rr[37] == add_w(rr[21], rr[22])
            &&& rr[38] == clamp_w(rr[37], p.bd, 8)
            &&& rr[39] == sub_w(rr[21], rr[22])
            &&& rr[40] == clamp_w(rr[39], p.bd, 8)
            &&& rr[41] == add_w(rr[24], rr[23])
            &&& rr[42] == clamp_w(rr[41], p.bd, 8)
            &&& rr[43] == sub_w(rr[24], rr[23])
            &&& rr[44] == clamp_w(rr[43], p.bd, 8)
            &&& rr[45] == mul_w(rr[0], spec_cospi(p.bit, 32))
            &&& rr[46] == mul_w(rr[8], spec_cospi(p.bit, 32))
            &&& rr[47] == add_w(rr[45], rr[46])
            &&& rr[48] == add_w(rr[47], spec_rounding(p))
            &&& rr[49] == rr[48] >> p.bit
            &&& rr[50] == sub_w(rr[45], rr[46])
            &&& rr[51] == add_w(rr[50], spec_rounding(p))
            &&& rr[52] == rr[51] >> p.bit
            &&& rr[53] == rotate_half(rr[4], spec_cospi(p.bit, 48), rr[12], sub_w(0, spec_cospi(p.bit, 16)), p)
            &&& rr[54] == rotate_half(rr[4], spec_cospi(p.bit, 16), rr[12], spec_cospi(p.bit, 48), p)
            &&& rr[55] == add_w(rr[25], rr[26])
            &&& rr[56] == clamp_w(rr[55], p.bd, 8)
        }),
{
    reveal(IDCT16_ROW_OPS);
    let ops = IDCT16_ROW_OPS@;
    let r0 = input.push(0);
    lemma_run_ops_len(ops, 178, r0, p);
    reveal(add_w);
    reveal(sub_w);
    reveal(mul_w);
    reveal(rotate_half);
    reveal(clamp_w);
    lemma_run_ops_step(ops, 178, r0, p, 0);
    lemma_run_ops_step(ops, 178, r0, p, 1);
    lemma_run_ops_step(ops, 178, r0, p, 2);
    lemma_run_ops_step(ops, 178, r0, p, 3);
    lemma_run_ops_step(ops, 178, r0, p, 4);
    lemma_run_ops_step(ops, 178, r0, p, 5);
    lemma_run_ops_step(ops, 178, r0, p, 6);
    lemma_run_ops_step(ops, 178, r0, p, 7);
    lemma_run_ops_step(ops, 178, r0, p, 8);
    lemma_run_ops_step(ops, 178, r0, p, 9);
    lemma_run_ops_step(ops, 178, r0, p, 10);
    lemma_run_ops_step(ops, 178, r0, p, 11);
    lemma_run_ops_step(ops, 178, r0, p, 12);
    lemma_run_ops_step(ops, 178, r0, p, 13);
    lemma_run_ops_step(ops, 178, r0, p, 14);
    lemma_run_ops_step(ops, 178, r0, p, 15);
    lemma_run_ops_step(ops, 178, r0, p, 16);
    lemma_run_ops_step(ops, 178, r0, p, 17);
    lemma_run_ops_step(ops, 178, r0, p, 18);
    lemma_run_ops_step(ops, 178, r0, p, 19);
    lemma_run_ops_step(ops, 178, r0, p, 20);
    lemma_run_ops_step(ops, 178, r0, p, 21);
    lemma_run_ops_step(ops, 178, r0, p, 22);
    lemma_run_ops_step(ops, 178, r0, p, 23);
    lemma_run_ops_step(ops, 178, r0, p, 24);
    lemma_run_ops_step(ops, 178, r0, p, 25);
    lemma_run_ops_step(ops, 178, r0, p, 26);
    lemma_run_ops_step(ops, 178, r0, p, 27);
    lemma_run_ops_step(ops, 178, r0, p, 28);
    lemma_run_ops_step(ops, 178, r0, p, 29);
    lemma_run_ops_step(ops, 178, r0, p, 30);
    lemma_run_ops_step(ops, 178, r0, p, 31);
    lemma_run_ops_step(ops, 178, r0, p, 32);
    lemma_run_ops_step(ops, 178, r0, p, 33);
    lemma_run_ops_step(ops, 178, r0, p, 34);
    lemma_run_ops_step(ops, 178, r0, p, 35);
    lemma_run_ops_step(ops, 178, r0, p, 36);
    lemma_run_ops_step(ops, 178, r0, p, 37);
    lemma_run_ops_step(ops, 178, r0, p, 38);
    lemma_run_ops_step(ops, 178, r0, p, 39);
}

proof fn lemma_idct16_row_regs_1(input: Seq<i32>, p: ButterflyParams)
    requires
        params_ok(p),
        input.len() == 16,
    ensures
        ({
            let rr = run_ops(IDCT16_ROW_OPS@, 178, input.push(0), p);
            &&& rr[57] == sub_w(rr[25], rr[26])
            &&& rr[58] == clamp_w(rr[57], p.bd, 8)
            &&& rr[59] == add_w(rr[28], rr[27])
            &&& rr[60] == clamp_w(rr[59], p.bd, 8)
            &&& rr[61] == sub_w(rr[28], rr[27])
            &&& rr[62] == clamp_w(rr[61], p.bd, 8)
            &&& rr[63] == rotate_half(rr[32], sub_w(0, spec_cospi(p.bit, 16)), rr[44], spec_cospi(p.bit, 48), p)
            &&& rr[64] == rotate_half(rr[36], sub_w(0, spec_cospi(p.bit, 48)), rr[40], sub_w(0, spec_cospi(p.bit, 16)), p)
            &&& rr[65] == rotate_half(rr[36], sub_w(0, spec_cospi(p.bit, 16)), rr[40], spec_cospi(p.bit, 48), p)
            &&& rr[66] == rotate_half(rr[32], spec_cospi(p.bit, 48), rr[44], spec_cospi(p.bit, 16), p)
            &&& rr[67] == add_w(rr[49], rr[54])
            &&& rr[68] == clamp_w(rr[67], p.bd, 8)
            &&& rr[69] == sub_w(rr[49], rr[54])
            &&& rr[70] == clamp_w(rr[69], p.bd, 8)
            &&& rr[71] == add_w(rr[52], rr[53])
            &&& rr[72] == clamp_w(rr[71], p.bd, 8)
            &&& rr[73] == sub_w(rr[52], rr[53])
            &&& rr[74] == clamp_w(rr[73], p.bd, 8)
            &&& rr[75] == mul_w(rr[58], spec_cospi(p.bit, 32))
            &&& rr[76] == mul_w(rr[62], spec_cospi(p.bit, 32))
            &&& rr[77] == sub_w(rr[76], rr[75])
            &&& rr[78] == add_w(rr[77], spec_rounding(p))
            &&& rr[79] == rr[78] >> p.bit
            &&& rr[80] == add_w(rr[76], rr[75])
            &&& rr[81] == add_w(rr[80], spec_rounding(p))
            &&& rr[82] == rr[81] >> p.bit
            &&& rr[83] == add_w(rr[30], rr[34])
            &&& rr[84] == clamp_w(rr[83], p.bd, 8)
            &&& rr[85] == sub_w(rr[30], rr[34])
            &&& rr[86] == clamp_w(rr[85], p.bd, 8)
            &&& rr[87] == add_w(rr[63], rr[64])
            &&& rr[88] == clamp_w(rr[87], p.bd, 8)
            &&& rr[89] == sub_w(rr[63], rr[64])
            &&& rr[90] == clamp_w(rr[89], p.bd, 8)
            &&& rr[91] == add_w(rr[42], rr[38])
            &&& rr[92] == clamp_w(rr[91], p.bd, 8)
            &&& rr[93] == sub_w(rr[42], rr[38])
            &&& rr[94] == clamp_w(rr[93], p.bd, 8)
            &&& rr[95] == add_w(rr[66], rr[65])
            &&& rr[96] == clamp_w(rr[95], p.bd, 8)
        }),
{
    reveal(IDCT16_ROW_OPS);
    let ops = IDCT16_ROW_OPS@;
    let r0 = input.push(0);
    lemma_run_ops_len(ops, 178, r0, p);
    reveal(add_w);
    reveal(sub_w);
    reveal(mul_w);
    reveal(rotate_half);
    reveal(clamp_w);
    lemma_run_ops_step(ops, 178, r0, p, 40);
    lemma_run_ops_step(ops, 178, r0, p, 41);
    lemma_run_ops_step(ops, 178, r0, p, 42);
    lemma_run_ops_step(ops, 178, r0, p, 43);
    lemma_run_ops_step(ops, 178, r0, p, 44);
    lemma_run_ops_step(ops, 178, r0, p, 45);
    lemma_run_ops_step(ops, 178, r0, p, 46);
    lemma_run_ops_step(ops, 178, r0, p, 47);
    lemma_run_ops_step(ops, 178, r0, p, 48);
    lemma_run_ops_step(ops, 178, r0, p, 49);
    lemma_run_ops_step(ops, 178, r0, p, 50);
    lemma_run_ops_step(ops, 178, r0, p, 51);
    lemma_run_ops_step(ops, 178, r0, p, 52);
    lemma_run_ops_step(ops, 178, r0, p, 53);
    lemma_run_ops_step(ops, 178, r0, p, 54);
    lemma_run_ops_step(ops, 178, r0, p, 55);
    lemma_run_ops_step(ops, 178, r0, p, 56);
    lemma_run_ops_step(ops, 178, r0, p, 57);
    lemma_run_ops_step(ops, 178, r0, p, 58);
    lemma_run_ops_step(ops, 178, r0, p, 59);
    lemma_run_ops_step(ops, 178, r0, p, 60);
    lemma_run_ops_step(ops, 178, r0, p, 61);
    lemma_run_ops_step(ops, 178, r0, p, 62);
    lemma_run_ops_step(ops, 178, r0, p, 63);
    lemma_run_ops_step(ops, 178, r0, p, 64);
    lemma_run_ops_step(ops, 178, r0, p, 65);
    lemma_run_ops_step(ops, 178, r0, p, 66);
    lemma_run_ops_step(ops, 178, r0, p, 67);
    lemma_run_ops_step(ops, 178, r0, p, 68);
    lemma_run_ops_step(ops, 178, r0, p, 69);
    lemma_run_ops_step(ops, 178, r0, p, 70);
    lemma_run_ops_step(ops, 178, r0, p, 71);
    lemma_run_ops_step(ops, 178, r0, p, 72);
    lemma_run_ops_step(ops, 178, r0, p, 73);
    lemma_run_ops_step(ops, 178, r0, p, 74);
    lemma_run_ops_step(ops, 178, r0, p, 75);
    lemma_run_ops_step(ops, 178, r0, p, 76);
    lemma_run_ops_step(ops, 178, r0, p, 77);
    lemma_run_ops_step(ops, 178, r0, p, 78);
    lemma_run_ops_step(ops, 178, r0, p, 79);
}

proof fn lemma_idct16_row_regs_2(input: Seq<i32>, p: ButterflyParams)
    requires
        params_ok(p),
        input.len() == 16,
    ensures
        ({
            let rr = run_ops(IDCT16_ROW_OPS@, 178, input.push(0), p);
            &&& rr[97] == sub_w(rr[66], rr[65])
            &&& rr[98] == clamp_w(rr[97], p.bd, 8)
            &&& rr[99] == add_w(rr[68], rr[60])
            &&& rr[100] == clamp_w(rr[99], p.bd, 8)
            &&& rr[101] == sub_w(rr[68], rr[60])
            &&& rr[102] == clamp_w(rr[101], p.bd, 8)
            &&& rr[103] == add_w(rr[72], rr[82])
            &&& rr[104] == clamp_w(rr[103], p.bd, 8)
            &&& rr[105] == sub_w(rr[72], rr[82])
            &&& rr[106] == clamp_w(rr[105], p.bd, 8)
            &&& rr[107] == add_w(rr[74], rr[79])
            &&& rr[108] == clamp_w(rr[107], p.bd, 8)
            &&& rr[109] == sub_w(rr[74], rr[79])
            &&& rr[110] == clamp_w(rr[109], p.bd, 8)
            &&& rr[111] == add_w(rr[70], rr[56])
            &&& rr[112] == clamp_w(rr[111], p.bd, 8)
            &&& rr[113] == sub_w(rr[70], rr[56])
            &&& rr[114] == clamp_w(rr[113], p.bd, 8)
            &&& rr[115] == mul_w(rr[90], spec_cospi(p.bit, 32))
            &&& rr[116] == mul_w(rr[98], spec_cospi(p.bit, 32))
            &&& rr[117] == sub_w(rr[116], rr[115])
            &&& rr[118] == add_w(rr[117], spec_rounding(p))
            &&& rr[119] == rr[118] >> p.bit
            &&& rr[120] == add_w(rr[115], rr[116])
            &&& rr[121] == add_w(rr[120], spec_rounding(p))
            &&& rr[122] == rr[121] >> p.bit
            &&& rr[123] == mul_w(rr[86], spec_cospi(p.bit, 32))
            &&& rr[124] == mul_w(rr[94], spec_cospi(p.bit, 32))
            &&& rr[125] == sub_w(rr[124], rr[123])
            &&& rr[126] == add_w(rr[125], spec_rounding(p))
            &&& rr[127] == rr[126] >> p.bit
            &&& rr[128] == add_w(rr[123], rr[124])
            &&& rr[129] == add_w(rr[128], spec_rounding(p))
            &&& rr[130] == rr[129] >> p.bit
            &&& rr[131] == add_w(rr[100], rr[92])
            &&& rr[132] == clamp_w(rr[131], p.bd, 8)
            &&& rr[133] == sub_w(rr[100], rr[92])
            &&& rr[134] == clamp_w(rr[133], p.bd, 8)
            &&& rr[135] == add_w(rr[104], rr[96])
            &&& rr[136] == clamp_w(rr[135], p.bd, 8)
        }),
{
    reveal(IDCT16_ROW_OPS);
    let ops = IDCT16_ROW_OPS@;
    let r0 = input.push(0);
    lemma_run_ops_len(ops, 178, r0, p);
    reveal(add_w);
    reveal(sub_w);
    reveal(mul_w);
    reveal(clamp_w);
    lemma_run_ops_step(ops, 178, r0, p, 80);
    lemma_run_ops_step(ops, 178, r0, p, 81);
    lemma_run_ops_step(ops, 178, r0, p, 82);
    lemma_run_ops_step(ops, 178, r0, p, 83);
    lemma_run_ops_step(ops, 178, r0, p, 84);
    lemma_run_ops_step(ops, 178, r0, p, 85);
    lemma_run_ops_step(ops, 178, r0, p, 86);
    lemma_run_ops_step(ops, 178, r0, p, 87);
    lemma_run_ops_step(ops, 178, r0, p, 88);
    lemma_run_ops_step(ops, 178, r0, p, 89);
    lemma_run_ops_step(ops, 178, r0, p, 90);
    lemma_run_ops_step(ops, 178, r0, p, 91);
    lemma_run_ops_step(ops, 178, r0, p, 92);
    lemma_run_ops_step(ops, 178, r0, p, 93);
    lemma_run_ops_step(ops, 178, r0, p, 94);
    lemma_run_ops_step(ops, 178, r0, p, 95);
    lemma_run_ops_step(ops, 178, r0, p, 96);
    lemma_run_ops_step(ops, 178, r0, p, 97);
    lemma_run_ops_step(ops, 178, r0, p, 98);
    lemma_run_ops_step(ops, 178, r0, p, 99);
    lemma_run_ops_step(ops, 178, r0, p, 100);
    lemma_run_ops_step(ops, 178, r0, p, 101);
    lemma_run_ops_step(ops, 178, r0, p, 102);
    lemma_run_ops_step(ops, 178, r0, p, 103);
    lemma_run_ops_step(ops, 178, r0, p, 104);
    lemma_run_ops_step(ops, 178, r0, p, 105);
    lemma_run_ops_step(ops, 178, r0, p, 106);
    lemma_run_ops_step(ops, 178, r0, p, 107);
    lemma_run_ops_step(ops, 178, r0, p, 108);
    lemma_run_ops_step(ops, 178, r0, p, 109);
    lemma_run_ops_step(ops, 178, r0, p, 110);
    lemma_run_ops_step(ops, 178, r0, p, 111);
    lemma_run_ops_step(ops, 178, r0, p, 112);
    lemma_run_ops_step(ops, 178, r0, p, 113);
    lemma_run_ops_step(ops, 178, r0, p, 114);
    lemma_run_ops_step(ops, 178, r0, p, 115);
    lemma_run_ops_step(ops, 178, r0, p, 116);
    lemma_run_ops_step(ops, 178, r0, p, 117);
    lemma_run_ops_step(ops, 178, r0, p, 118);
    lemma_run_ops_step(ops, 178, r0, p, 119);
}

proof fn lemma_idct16_row_regs_3(input: Seq<i32>, p: ButterflyParams)
    requires
        params_ok(p),
        input.len() == 16,
    ensures
        ({
            let rr = run_ops(IDCT16_ROW_OPS@, 178, input.push(0), p);
            &&& rr[137] == sub_w(rr[104], rr[96])
            &&& rr[138] == clamp_w(rr[137], p.bd, 8)
            &&& rr[139] == add_w(rr[108], rr[122])
            &&& rr[140] == clamp_w(rr[139], p.bd, 8)
            &&& rr[141] == sub_w(rr[108], rr[122])
            &&& rr[142] == clamp_w(rr[141], p.bd, 8)
            &&& rr[143] == add_w(rr[112], rr[130])
            &&& rr[144] == clamp_w(rr[143], p.bd, 8)
            &&& rr[145] == sub_w(rr[112], rr[130])
            &&& rr[146] == clamp_w(rr[145], p.bd, 8)
            &&& rr[147] == add_w(rr[114], rr[127])
            &&& rr[148] == clamp_w(rr[147], p.bd, 8)
            &&& rr[149] == sub_w(rr[114], rr[127])
            &&& rr[150] == clamp_w(rr[149], p.bd, 8)
            &&& rr[151] == add_w(rr[110], rr[119])
            &&& rr[152] == clamp_w(rr[151], p.bd, 8)
            &&& rr[153] == sub_w(rr[110], rr[119])
            &&& rr[154] == clamp_w(rr[153], p.bd, 8)
            &&& rr[155] == add_w(rr[106], rr[88])
            &&& rr[156] == clamp_w(rr[155], p.bd, 8)
            &&& rr[157] == sub_w(rr[106], rr[88])
            &&& rr[158] == clamp_w(rr[157], p.bd, 8)
            &&& rr[159] == add_w(rr[102], rr[84])
            &&& rr[160] == clamp_w(rr[159], p.bd, 8)
            &&& rr[161] == sub_w(rr[102], rr[84])
            &&& rr[162] == clamp_w(rr[161], p.bd, 8)
            &&& rr[163] == round_out(rr[132], p)
            &&& rr[164] == round_out(rr[136], p)
            &&& rr[165] == round_out(rr[140], p)
            &&& rr[166] == round_out(rr[144], p)
            &&& rr[167] == round_out(rr[148], p)
            &&& rr[168] == round_out(rr[152], p)
            &&& rr[169] == round_out(rr[156], p)
            &&& rr[170] == round_out(rr[160], p)
            &&& rr[171] == round_out(rr[162], p)
            &&& rr[172] == round_out(rr[158], p)
            &&& rr[173] == round_out(rr[154], p)
            &&& rr[174] == round_out(rr[150], p)
            &&& rr[175] == round_out(rr[146], p)
            &&& rr[176] == round_out(rr[142], p)
        }),
{
    reveal(IDCT16_ROW_OPS);
    let ops = IDCT16_ROW_OPS@;
    let r0 = input.push(0);
    lemma_run_ops_len(ops, 178, r0, p);
    reveal(add_w);
    reveal(sub_w);
    reveal(clamp_w);
    reveal(round_out);
    lemma_run_ops_step(ops, 178, r0, p, 120);
    lemma_run_ops_step(ops, 178, r0, p, 121);
    lemma_run_ops_step(ops, 178, r0, p, 122);
    lemma_run_ops_step(ops, 178, r0, p, 123);
    lemma_run_ops_step(ops, 178, r0, p, 124);
    lemma_run_ops_step(ops, 178, r0, p, 125);
    lemma_run_ops_step(ops, 178, r0, p, 126);
    lemma_run_ops_step(ops, 178, r0, p, 127);
    lemma_run_ops_step(ops, 178, r0, p, 128);
    lemma_run_ops_step(ops, 178, r0, p, 129);
    lemma_run_ops_step(ops, 178, r0, p, 130);
    lemma_run_ops_step(ops, 178, r0, p, 131);
    lemma_run_ops_step(ops, 178, r0, p, 132);
    lemma_run_ops_step(ops, 178, r0, p, 133);
    lemma_run_ops_step(ops, 178, r0, p, 134);
    lemma_run_ops_step(ops, 178, r0, p, 135);
    lemma_run_ops_step(ops, 178, r0, p, 136);
    lemma_run_ops_step(ops, 178, r0, p, 137);
    lemma_run_ops_step(ops, 178, r0, p, 138);
    lemma_run_ops_step(ops, 178, r0, p, 139);
    lemma_run_ops_step(ops, 178, r0, p, 140);
    lemma_run_ops_step(ops, 178, r0, p, 141);
    lemma_run_ops_step(ops, 178, r0, p, 142);
    lemma_run_ops_step(ops, 178, r0, p, 143);
    lemma_run_ops_step(ops, 178, r0, p, 144);
    lemma_run_ops_step(ops, 178, r0, p, 145);
    lemma_run_ops_step(ops, 178, r0, p, 146);
    lemma_run_ops_step(ops, 178, r0, p, 147);
    lemma_run_ops_step(ops, 178, r0, p, 148);
    lemma_run_ops_step(ops, 178, r0, p, 149);
    lemma_run_ops_step(ops, 178, r0, p, 150);
    lemma_run_ops_step(ops, 178, r0, p, 151);
    lemma_run_ops_step(ops, 178, r0, p, 152);
    lemma_run_ops_step(ops, 178, r0, p, 153);
    lemma_run_ops_step(ops, 178, r0, p, 154);
    lemma_run_ops_step(ops, 178, r0, p, 155);
    lemma_run_ops_step(ops, 178, r0, p, 156);
    lemma_run_ops_step(ops, 178, r0, p, 157);
    lemma_run_ops_step(ops, 178, r0, p, 158);
    lemma_run_ops_step(ops, 178, r0, p, 159);
}

proof fn lemma_idct16_row_regs_4(input: Seq<i32>, p: ButterflyParams)
    requires
        params_ok(p),
        input.len() == 16,
    ensures
        ({
            let rr = run_ops(IDCT16_ROW_OPS@, 178, input.push(0), p);
            &&& rr[177] == round_out(rr[138], p)
            &&& rr[178] == round_out(rr[134], p)
            &&& rr[179] == clamp_w(rr[163], p.bd, 6)
            &&& rr[180] == clamp_w(rr[164], p.bd, 6)
            &&& rr[181] == clamp_w(rr[165], p.bd, 6)
            &&& rr[182] == clamp_w(rr[166], p.bd, 6)
            &&& rr[183] == clamp_w(rr[167], p.bd, 6)
            &&& rr[184] == clamp_w(rr[168], p.bd, 6)
            &&& rr[185] == clamp_w(rr[169], p.bd, 6)
            &&& rr[186] == clamp_w(rr[170], p.bd, 6)
            &&& rr[187] == clamp_w(rr[171], p.bd, 6)
            &&& rr[188] == clamp_w(rr[172], p.bd, 6)
            &&& rr[189] == clamp_w(rr[173], p.bd, 6)
            &&& rr[190] == clamp_w(rr[174], p.bd, 6)
            &&& rr[191] == clamp_w(rr[175], p.bd, 6)
            &&& rr[192] == clamp_w(rr[176], p.bd, 6)
            &&& rr[193] == clamp_w(rr[177], p.bd, 6)
            &&& rr[194] == clamp_w(rr[178], p.bd, 6)
        }),
{
    reveal(IDCT16_ROW_OPS);
    let ops = IDCT16_ROW_OPS@;
    let r0 = input.push(0);
    lemma_run_ops_len(ops, 178, r0, p);
    reveal(clamp_w);
    reveal(round_out);
    lemma_run_ops_step(ops, 178, r0, p, 160);
    lemma_run_ops_step(ops, 178, r0, p, 161);
    lemma_run_ops_step(ops, 178, r0, p, 162);
    lemma_run_ops_step(ops, 178, r0, p, 163);
    lemma_run_ops_step(ops, 178, r0, p, 164);
    lemma_run_ops_step(ops, 178, r0, p, 165);
    lemma_run_ops_step(ops, 178, r0, p, 166);
    lemma_run_ops_step(ops, 178, r0, p, 167);
    lemma_run_ops_step(ops, 178, r0, p, 168);
    lemma_run_ops_step(ops, 178, r0, p, 169);
    lemma_run_ops_step(ops, 178, r0, p, 170);
    lemma_run_ops_step(ops, 178, r0, p, 171);
    lemma_run_ops_step(ops, 178, r0, p, 172);
    lemma_run_ops_step(ops, 178, r0, p, 173);
    lemma_run_ops_step(ops, 178, r0, p, 174);
    lemma_run_ops_step(ops, 178, r0, p, 175);
    lemma_run_ops_step(ops, 178, r0, p, 176);
    lemma_run_ops_step(ops, 178, r0, p, 177);
}

/// The row pass of the 16-point inverse DCT computes its stages.
#[verifier::rlimit(100)]
pub proof fn law_idct16_row_stages(input: Seq<i32>, p: ButterflyParams)
    requires
        params_ok(p),
        input.len() == 16,
    ensures
        kernel_output(TxfmKernel::Idct16, false, input, p) == spec_idct16_row(input, p),
{
    reveal(IDCT16_ROW_OUTS);
    let ops = IDCT16_ROW_OPS@;
    let r0 = input.push(0);
    lemma_run_ops_len(ops, 178, r0, p);
    let rr = run_ops(ops, 178, r0, p);
    assert forall|k: int| 0 <= k < 17 implies rr[k] == r0[k] by {
        lemma_run_ops_prefix(ops, 0, 178, r0, p, k);
    }
    lemma_idct16_row_regs_0(input, p);
    lemma_idct16_row_regs_1(input, p);
    lemma_idct16_row_regs_2(input, p);
    lemma_idct16_row_regs_3(input, p);
    lemma_idct16_row_regs_4(input, p);
    assert(kernel_output(TxfmKernel::Idct16, false, input, p) =~= spec_idct16_row(input, p));
}

/// The 16-point inverse DCT computes its stages.
pub proof fn law_idct16_stages(input: Seq<i32>, do_cols: bool, p: ButterflyParams)
    requires
        params_ok(p),
        input.len() == 16,
    ensures
        kernel_output(TxfmKernel::Idct16, do_cols, input, p) == spec_idct16(input, do_cols, p),
{
    if do_cols {
        law_idct16_col_stages(input, p);
    } else {
        law_idct16_row_stages(input, p);
    }
}

} // verus!
