//! The 32-point inverse DCT, stated stage by stage
//! (rotations by the cosine weights, clamped butterflies, rounding shifts),
//! with the proofs that the butterfly programs compute those stages.

use crate::transform::butterfly::{
    lemma_run_ops_len, lemma_run_ops_prefix, lemma_run_ops_step, params_ok, run_ops, spec_cospi,
    spec_out_offset, spec_rounding, ButterflyParams,
};
use crate::transform::stages::{
    add_w, clamp_w, lower_to_range, mul_w, raise_to_range, rotate_half, round_out, round_to_bit,
    sub_w,
};
use crate::transform::inverse::{kernel_output, TxfmKernel};
use crate::transform::programs::{
    IDCT32_COL_OPS, IDCT32_COL_OUTS, IDCT32_ROW_OPS, IDCT32_ROW_OUTS,
};
use vstd::prelude::*;

verus! {

/// The column pass of the 32-point inverse DCT, stage by stage:
/// rotations by the cosine weights, butterflies clamped to the range of
/// `max(16, bd + 6)` bits.
pub open spec fn spec_idct32_col(i: Seq<i32>, p: ButterflyParams) -> Seq<i32> {
    let bf0_1 = rotate_half(i[1], spec_cospi(p.bit, 62), i[31], sub_w(0, spec_cospi(p.bit, 2)), p);
    let bf0_2 = rotate_half(i[17], spec_cospi(p.bit, 30), i[15], sub_w(0, spec_cospi(p.bit, 34)), p);
    let bf0_3 = rotate_half(i[9], spec_cospi(p.bit, 46), i[23], sub_w(0, spec_cospi(p.bit, 18)), p);
    let bf0_4 = rotate_half(i[25], spec_cospi(p.bit, 14), i[7], sub_w(0, spec_cospi(p.bit, 50)), p);
    let bf0_5 = rotate_half(i[5], spec_cospi(p.bit, 54), i[27], sub_w(0, spec_cospi(p.bit, 10)), p);
    let bf0_6 = rotate_half(i[21], spec_cospi(p.bit, 22), i[11], sub_w(0, spec_cospi(p.bit, 42)), p);
    let bf0_7 = rotate_half(i[13], spec_cospi(p.bit, 38), i[19], sub_w(0, spec_cospi(p.bit, 26)), p);
    let bf0_8 = rotate_half(i[29], spec_cospi(p.bit, 6), i[3], sub_w(0, spec_cospi(p.bit, 58)), p);
    let bf0_9 = rotate_half(i[29], spec_cospi(p.bit, 58), i[3], spec_cospi(p.bit, 6), p);
    let bf0_10 = rotate_half(i[13], spec_cospi(p.bit, 26), i[19], spec_cospi(p.bit, 38), p);
    let bf0_11 = rotate_half(i[21], spec_cospi(p.bit, 42), i[11], spec_cospi(p.bit, 22), p);
    let bf0_12 = rotate_half(i[5], spec_cospi(p.bit, 10), i[27], spec_cospi(p.bit, 54), p);
    let bf0_13 = rotate_half(i[25], spec_cospi(p.bit, 50), i[7], spec_cospi(p.bit, 14), p);
    let bf0_14 = rotate_half(i[9], spec_cospi(p.bit, 18), i[23], spec_cospi(p.bit, 46), p);
    let bf0_15 = rotate_half(i[17], spec_cospi(p.bit, 34), i[15], spec_cospi(p.bit, 30), p);
    let bf0_16 = rotate_half(i[1], spec_cospi(p.bit, 2), i[31], spec_cospi(p.bit, 62), p);
    let bf1_1 = rotate_half(i[2], spec_cospi(p.bit, 60), i[30], sub_w(0, spec_cospi(p.bit, 4)), p);
    let bf1_2 = rotate_half(i[18], spec_cospi(p.bit, 28), i[14], sub_w(0, spec_cospi(p.bit, 36)), p);
    let bf1_3 = rotate_half(i[10], spec_cospi(p.bit, 44), i[22], sub_w(0, spec_cospi(p.bit, 20)), p);
    let bf1_4 = rotate_half(i[26], spec_cospi(p.bit, 12), i[6], sub_w(0, spec_cospi(p.bit, 52)), p);
    let bf1_5 = rotate_half(i[26], spec_cospi(p.bit, 52), i[6], spec_cospi(p.bit, 12), p);
    let bf1_6 = rotate_half(i[10], spec_cospi(p.bit, 20), i[22], spec_cospi(p.bit, 44), p);
    let bf1_7 = rotate_half(i[18], spec_cospi(p.bit, 36), i[14], spec_cospi(p.bit, 28), p);
    let bf1_8 = rotate_half(i[2], spec_cospi(p.bit, 4), i[30], spec_cospi(p.bit, 60), p);
    let bf1_9 = clamp_w(add_w(bf0_1, bf0_2), p.bd, 6);
    let bf1_10 = clamp_w(sub_w(bf0_1, bf0_2), p.bd, 6);
    let bf1_11 = clamp_w(add_w(bf0_4, bf0_3), p.bd, 6);
    let bf1_12 = clamp_w(sub_w(bf0_4, bf0_3), p.bd, 6);
    let bf1_13 = clamp_w(add_w(bf0_5, bf0_6), p.bd, 6);
    let bf1_14 = clamp_w(sub_w(bf0_5, bf0_6), p.bd, 6);
    let bf1_15 = clamp_w(add_w(bf0_8, bf0_7), p.bd, 6);
    let bf1_16 = clamp_w(sub_w(bf0_8, bf0_7), p.bd, 6);
    let bf1_17 = clamp_w(add_w(bf0_9, bf0_10), p.bd, 6);
    let bf1_18 = clamp_w(sub_w(bf0_9, bf0_10), p.bd, 6);
    let bf1_19 = clamp_w(add_w(bf0_12, bf0_11), p.bd, 6);
    let bf1_20 = clamp_w(sub_w(bf0_12, bf0_11), p.bd, 6);
    let bf1_21 = clamp_w(add_w(bf0_13, bf0_14), p.bd, 6);
    let bf1_22 = clamp_w(sub_w(bf0_13, bf0_14), p.bd, 6);
    let bf1_23 = clamp_w(add_w(bf0_16, bf0_15), p.bd, 6);
    let bf1_24 = clamp_w(sub_w(bf0_16, bf0_15), p.bd, 6);
    let bf0_17 = rotate_half(i[4], spec_cospi(p.bit, 56), i[28], sub_w(0, spec_cospi(p.bit, 8)), p);
    let bf0_18 = rotate_half(i[20], spec_cospi(p.bit, 24), i[12], sub_w(0, spec_cospi(p.bit, 40)), p);
    let bf0_19 = rotate_half(i[20], spec_cospi(p.bit, 40), i[12], spec_cospi(p.bit, 24), p);
    let bf0_20 = rotate_half(i[4], spec_cospi(p.bit, 8), i[28], spec_cospi(p.bit, 56), p);
    let bf0_21 = clamp_w(add_w(bf1_1, bf1_2), p.bd, 6);
    let bf0_22 = clamp_w(sub_w(bf1_1, bf1_2), p.bd, 6);
    let bf0_23 = clamp_w(add_w(bf1_4, bf1_3), p.bd, 6);
    let bf0_24 = clamp_w(sub_w(bf1_4, bf1_3), p.bd, 6);
    let bf0_25 = clamp_w(add_w(bf1_5, bf1_6), p.bd, 6);
    let bf0_26 = clamp_w(sub_w(bf1_5, bf1_6), p.bd, 6);
    let bf0_27 = clamp_w(add_w(bf1_8, bf1_7), p.bd, 6);
    let bf0_28 = clamp_w(sub_w(bf1_8, bf1_7), p.bd, 6);
    let bf0_29 = rotate_half(bf1_10, sub_w(0, spec_cospi(p.bit, 8)), bf1_24, spec_cospi(p.bit, 56), p);
    let bf0_30 = rotate_half(bf1_12, sub_w(0, spec_cospi(p.bit, 56)), bf1_22, sub_w(0, spec_cospi(p.bit, 8)), p);
    let bf0_31 = rotate_half(bf1_14, sub_w(0, spec_cospi(p.bit, 40)), bf1_20, spec_cospi(p.bit, 24), p);
    let bf0_32 = rotate_half(bf1_16, sub_w(0, spec_cospi(p.bit, 24)), bf1_18, sub_w(0, spec_cospi(p.bit, 40)), p);
    let bf0_33 = rotate_half(bf1_16, sub_w(0, spec_cospi(p.bit, 40)), bf1_18, spec_cospi(p.bit, 24), p);
    let bf0_34 = rotate_half(bf1_14, spec_cospi(p.bit, 24), bf1_20, spec_cospi(p.bit, 40), p);
    let bf0_35 = rotate_half(bf1_12, sub_w(0, spec_cospi(p.bit, 8)), bf1_22, spec_cospi(p.bit, 56), p);
    let bf0_36 = rotate_half(bf1_10, spec_cospi(p.bit, 56), bf1_24, spec_cospi(p.bit, 8), p);
    let bf1_25 = rotate_half(i[0], spec_cospi(p.bit, 32), i[16], spec_cospi(p.bit, 32), p);
    let bf1_26 = rotate_half(i[0], spec_cospi(p.bit, 32), i[16], sub_w(0, spec_cospi(p.bit, 32)), p);
    let bf1_27 = rotate_half(i[8], spec_cospi(p.bit, 48), i[24], sub_w(0, spec_cospi(p.bit, 16)), p);
    let bf1_28 = rotate_half(i[8], spec_cospi(p.bit, 16), i[24], spec_cospi(p.bit, 48), p);
    let bf1_29 = clamp_w(add_w(bf0_17, bf0_18), p.bd, 6);
    let bf1_30 = clamp_w(sub_w(bf0_17, bf0_18), p.bd, 6);
    let bf1_31 = clamp_w(add_w(bf0_20, bf0_19), p.bd, 6);
    let bf1_32 = clamp_w(sub_w(bf0_20, bf0_19), p.bd, 6);
    let bf1_33 = rotate_half(bf0_22, sub_w(0, spec_cospi(p.bit, 16)), bf0_28, spec_cospi(p.bit, 48), p);
    let bf1_34 = rotate_half(bf0_24, sub_w(0, spec_cospi(p.bit, 48)), bf0_26, sub_w(0, spec_cospi(p.bit, 16)), p);
    let bf1_35 = rotate_half(bf0_24, sub_w(0, spec_cospi(p.bit, 16)), bf0_26, spec_cospi(p.bit, 48), p);
    let bf1_36 = rotate_half(bf0_22, spec_cospi(p.bit, 48), bf0_28, spec_cospi(p.bit, 16), p);
    let bf1_37 = clamp_w(add_w(bf1_9, bf1_11), p.bd, 6);
    let bf1_38 = clamp_w(sub_w(bf1_9, bf1_11), p.bd, 6);
    let bf1_39 = clamp_w(add_w(bf0_29, bf0_30), p.bd, 6);
    let bf1_40 = clamp_w(sub_w(bf0_29, bf0_30), p.bd, 6);
    let bf1_41 = clamp_w(add_w(bf1_15, bf1_13), p.bd, 6);
    let bf1_42 = clamp_w(sub_w(bf1_15, bf1_13), p.bd, 6);
    let bf1_43 = clamp_w(add_w(bf0_32, bf0_31), p.bd, 6);
    let bf1_44 = clamp_w(sub_w(bf0_32, bf0_31), p.bd, 6);
    let bf1_45 = clamp_w(add_w(bf1_17, bf1_19), p.bd, 6);
    let bf1_46 = clamp_w(sub_w(bf1_17, bf1_19), p.bd, 6);
    let bf1_47 = clamp_w(add_w(bf0_33, bf0_34), p.bd, 6);
    let bf1_48 = clamp_w(sub_w(bf0_33, bf0_34), p.bd, 6);
    let bf1_49 = clamp_w(add_w(bf1_23, bf1_21), p.bd, 6);
    let bf1_50 = clamp_w(sub_w(bf1_23, bf1_21), p.bd, 6);
    let bf1_51 = clamp_w(add_w(bf0_36, bf0_35), p.bd, 6);
    let bf1_52 = clamp_w(sub_w(bf0_36, bf0_35), p.bd, 6);
    let bf0_37 = clamp_w(add_w(bf1_25, bf1_28), p.bd, 6);
    let bf0_38 = clamp_w(sub_w(bf1_25, bf1_28), p.bd, 6);
    let bf0_39 = clamp_w(add_w(bf1_26, bf1_27), p.bd, 6);
    let bf0_40 = clamp_w(sub_w(bf1_26, bf1_27), p.bd, 6);
    let bf0_41 = rotate_half(bf1_30, sub_w(0, spec_cospi(p.bit, 32)), bf1_32, spec_cospi(p.bit, 32), p);
    let bf0_42 = rotate_half(bf1_30, spec_cospi(p.bit, 32), bf1_32, spec_cospi(p.bit, 32), p);
    let bf0_43 = clamp_w(add_w(bf0_21, bf0_23), p.bd, 6);
    let bf0_44 = clamp_w(sub_w(bf0_21, bf0_23), p.bd, 6);
    let bf0_45 = clamp_w(add_w(bf1_33, bf1_34), p.bd, 6);
    let bf0_46 = clamp_w(sub_w(bf1_33, bf1_34), p.bd, 6);
    let bf0_47 = clamp_w(add_w(bf0_27, bf0_25), p.bd, 6);
    let bf0_48 = clamp_w(sub_w(bf0_27, bf0_25), p.bd, 6);
    let bf0_49 = clamp_w(add_w(bf1_36, bf1_35), p.bd, 6);
    let bf0_50 = clamp_w(sub_w(bf1_36, bf1_35), p.bd, 6);
    let bf0_51 = rotate_half(bf1_40, sub_w(0, spec_cospi(p.bit, 16)), bf1_52, spec_cospi(p.bit, 48), p);
    let bf0_52 = rotate_half(bf1_38, sub_w(0, spec_cospi(p.bit, 16)), bf1_50, spec_cospi(p.bit, 48), p);
    let bf0_53 = rotate_half(bf1_42, sub_w(0, spec_cospi(p.bit, 48)), bf1_46, sub_w(0, spec_cospi(p.bit, 16)), p);
    let bf0_54 = rotate_half(bf1_44, sub_w(0, spec_cospi(p.bit, 48)), bf1_48, sub_w(0, spec_cospi(p.bit, 16)), p);
    let bf0_55 = rotate_half(bf1_44, sub_w(0, spec_cospi(p.bit, 16)), bf1_48, spec_cospi(p.bit, 48), p);
    let bf0_56 = rotate_half(bf1_42, sub_w(0, spec_cospi(p.bit, 16)), bf1_46, spec_cospi(p.bit, 48), p);
    let bf0_57 = rotate_half(bf1_38, spec_cospi(p.bit, 48), bf1_50, spec_cospi(p.bit, 16), p);
    let bf0_58 = rotate_half(bf1_40, spec_cospi(p.bit, 48), bf1_52, spec_cospi(p.bit, 16), p);
    let bf1_53 = clamp_w(add_w(bf0_37, bf1_31), p.bd, 6);
    let bf1_54 = clamp_w(sub_w(bf0_37, bf1_31), p.bd, 6);
    let bf1_55 = clamp_w(add_w(bf0_39, bf0_42), p.bd, 6);
    let bf1_56 = clamp_w(sub_w(bf0_39, bf0_42), p.bd, 6);
    let bf1_57 = clamp_w(add_w(bf0_40, bf0_41), p.bd, 6);
    let bf1_58 = clamp_w(sub_w(bf0_40, bf0_41), p.bd, 6);
    let bf1_59 = clamp_w(add_w(bf0_38, bf1_29), p.bd, 6);
    let bf1_60 = clamp_w(sub_w(bf0_38, bf1_29), p.bd, 6);
    let bf1_61 = rotate_half(bf0_46, sub_w(0, spec_cospi(p.bit, 32)), bf0_50, spec_cospi(p.bit, 32), p);
    let bf1_62 = rotate_half(bf0_44, sub_w(0, spec_cospi(p.bit, 32)), bf0_48, spec_cospi(p.bit, 32), p);
    let bf1_63 = rotate_half(bf0_44, spec_cospi(p.bit, 32), bf0_48, spec_cospi(p.bit, 32), p);
    let bf1_64 = rotate_half(bf0_46, spec_cospi(p.bit, 32), bf0_50, spec_cospi(p.bit, 32), p);
    let bf1_65 = clamp_w(add_w(bf1_37, bf1_41), p.bd, 6);
    let bf1_66 = clamp_w(sub_w(bf1_37, bf1_41), p.bd, 6);
    let bf1_67 = clamp_w(add_w(bf1_39, bf1_43), p.bd, 6);
    let bf1_68 = clamp_w(sub_w(bf1_39, bf1_43), p.bd, 6);
    let bf1_69 = clamp_w(add_w(bf0_51, bf0_54), p.bd, 6);
    let bf1_70 = clamp_w(sub_w(bf0_51, bf0_54), p.bd, 6);
    let bf1_71 = clamp_w(add_w(bf0_52, bf0_53), p.bd, 6);
    let bf1_72 = clamp_w(sub_w(bf0_52, bf0_53), p.bd, 6);
    let bf1_73 = clamp_w(add_w(bf1_49, bf1_45), p.bd, 6);
    let bf1_74 = clamp_w(sub_w(bf1_49, bf1_45), p.bd, 6);
    let bf1_75 = clamp_w(add_w(bf1_51, bf1_47), p.bd, 6);
    let bf1_76 = clamp_w(sub_w(bf1_51, bf1_47), p.bd, 6);
    let bf1_77 = clamp_w(add_w(bf0_58, bf0_55), p.bd, 6);
    let bf1_78 = clamp_w(sub_w(bf0_58, bf0_55), p.bd, 6);
    let bf1_79 = clamp_w(add_w(bf0_57, bf0_56), p.bd, 6);
    let bf1_80 = clamp_w(sub_w(bf0_57, bf0_56), p.bd, 6);
    let bf0_59 = clamp_w(add_w(bf1_53, bf0_47), p.bd, 6);
    let bf0_60 = clamp_w(sub_w(bf1_53, bf0_47), p.bd, 6);
    let bf0_61 = clamp_w(add_w(bf1_55, bf0_49), p.bd, 6);
    let bf0_62 = clamp_w(sub_w(bf1_55, bf0_49), p.bd, 6);
    let bf0_63 = clamp_w(add_w(bf1_57, bf1_64), p.bd, 6);
    let bf0_64 = clamp_w(sub_w(bf1_57, bf1_64), p.bd, 6);
    let bf0_65 = clamp_w(add_w(bf1_59, bf1_63), p.bd, 6);
    let bf0_66 = clamp_w(sub_w(bf1_59, bf1_63), p.bd, 6);
    let bf0_67 = clamp_w(add_w(bf1_60, bf1_62), p.bd, 6);
    let bf0_68 = clamp_w(sub_w(bf1_60, bf1_62), p.bd, 6);
    let bf0_69 = clamp_w(add_w(bf1_58, bf1_61), p.bd, 6);
    let bf0_70 = clamp_w(sub_w(bf1_58, bf1_61), p.bd, 6);
    let bf0_71 = clamp_w(add_w(bf1_56, bf0_45), p.bd, 6);
    let bf0_72 = clamp_w(sub_w(bf1_56, bf0_45), p.bd, 6);
    let bf0_73 = clamp_w(add_w(bf1_54, bf0_43), p.bd, 6);
    let bf0_74 = clamp_w(sub_w(bf1_54, bf0_43), p.bd, 6);
    let bf0_75 = rotate_half(bf1_72, sub_w(0, spec_cospi(p.bit, 32)), bf1_80, spec_cospi(p.bit, 32), p);
    let bf0_76 = rotate_half(bf1_70, sub_w(0, spec_cospi(p.bit, 32)), bf1_78, spec_cospi(p.bit, 32), p);
    let bf0_77 = rotate_half(bf1_68, sub_w(0, spec_cospi(p.bit, 32)), bf1_76, spec_cospi(p.bit, 32), p);
    let bf0_78 = rotate_half(bf1_66, sub_w(0, spec_cospi(p.bit, 32)), bf1_74, spec_cospi(p.bit, 32), p);
    let bf0_79 = rotate_half(bf1_66, spec_cospi(p.bit, 32), bf1_74, spec_cospi(p.bit, 32), p);
    let bf0_80 = rotate_half(bf1_68, spec_cospi(p.bit, 32), bf1_76, spec_cospi(p.bit, 32), p);
    let bf0_81 = rotate_half(bf1_70, spec_cospi(p.bit, 32), bf1_78, spec_cospi(p.bit, 32), p);
    let bf0_82 = rotate_half(bf1_72, spec_cospi(p.bit, 32), bf1_80, spec_cospi(p.bit, 32), p);
    let output_1 = clamp_w(add_w(bf0_59, bf1_73), p.bd, 6);
    let output_2 = clamp_w(sub_w(bf0_59, bf1_73), p.bd, 6);
    let output_3 = clamp_w(add_w(bf0_61, bf1_75), p.bd, 6);
    let output_4 = clamp_w(sub_w(bf0_61, bf1_75), p.bd, 6);
    let output_5 = clamp_w(add_w(bf0_63, bf1_77), p.bd, 6);
    let output_6 = clamp_w(sub_w(bf0_63, bf1_77), p.bd, 6);
    let output_7 = clamp_w(add_w(bf0_65, bf1_79), p.bd, 6);
    let output_8 = clamp_w(sub_w(bf0_65, bf1_79), p.bd, 6);
    let output_9 = clamp_w(add_w(bf0_67, bf0_82), p.bd, 6);
    let output_10 = clamp_w(sub_w(bf0_67, bf0_82), p.bd, 6);
    let output_11 = clamp_w(add_w(bf0_69, bf0_81), p.bd, 6);
    let output_12 = clamp_w(sub_w(bf0_69, bf0_81), p.bd, 6);
    let output_13 = clamp_w(add_w(bf0_71, bf0_80), p.bd, 6);
    let output_14 = clamp_w(sub_w(bf0_71, bf0_80), p.bd, 6);
    let output_15 = clamp_w(add_w(bf0_73, bf0_79), p.bd, 6);
    let output_16 = clamp_w(sub_w(bf0_73, bf0_79), p.bd, 6);
    let output_17 = clamp_w(add_w(bf0_74, bf0_78), p.bd, 6);
    let output_18 = clamp_w(sub_w(bf0_74, bf0_78), p.bd, 6);
    let output_19 = clamp_w(add_w(bf0_72, bf0_77), p.bd, 6);
    let output_20 = clamp_w(sub_w(bf0_72, bf0_77), p.bd, 6);
    let output_21 = clamp_w(add_w(bf0_70, bf0_76), p.bd, 6);
    let output_22 = clamp_w(sub_w(bf0_70, bf0_76), p.bd, 6);
    let output_23 = clamp_w(add_w(bf0_68, bf0_75), p.bd, 6);
    let output_24 = clamp_w(sub_w(bf0_68, bf0_75), p.bd, 6);
    let output_25 = clamp_w(add_w(bf0_66, bf1_71), p.bd, 6);
    let output_26 = clamp_w(sub_w(bf0_66, bf1_71), p.bd, 6);
    let output_27 = clamp_w(add_w(bf0_64, bf1_69), p.bd, 6);
    let output_28 = clamp_w(sub_w(bf0_64, bf1_69), p.bd, 6);
    let output_29 = clamp_w(add_w(bf0_62, bf1_67), p.bd, 6);
    let output_30 = clamp_w(sub_w(bf0_62, bf1_67), p.bd, 6);
    let output_31 = clamp_w(add_w(bf0_60, bf1_65), p.bd, 6);
    let output_32 = clamp_w(sub_w(bf0_60, bf1_65), p.bd, 6);
    seq![output_1, output_3, output_5, output_7, output_9, output_11, output_13, output_15, output_17, output_19, output_21, output_23, output_25, output_27, output_29, output_31, output_32, output_30, output_28, output_26, output_24, output_22, output_20, output_18, output_16, output_14, output_12, output_10, output_8, output_6, output_4, output_2]
}

/// The row pass of the 32-point inverse DCT, stage by stage:
/// rotations by the cosine weights, butterflies clamped to the range of
/// `max(16, bd + 8)` bits, then the outputs rounded down by the output shift and clamped to
/// the range of `max(16, bd + 6)` bits.
pub open spec fn spec_idct32_row(i: Seq<i32>, p: ButterflyParams) -> Seq<i32> {
    let bf0_1 = rotate_half(i[1], spec_cospi(p.bit, 62), i[31], sub_w(0, spec_cospi(p.bit, 2)), p);
    let bf0_2 = rotate_half(i[17], spec_cospi(p.bit, 30), i[15], sub_w(0, spec_cospi(p.bit, 34)), p);
    let bf0_3 = rotate_half(i[9], spec_cospi(p.bit, 46), i[23], sub_w(0, spec_cospi(p.bit, 18)), p);
    let bf0_4 = rotate_half(i[25], spec_cospi(p.bit, 14), i[7], sub_w(0, spec_cospi(p.bit, 50)), p);
    let bf0_5 = rotate_half(i[5], spec_cospi(p.bit, 54), i[27], sub_w(0, spec_cospi(p.bit, 10)), p);
    let bf0_6 = rotate_half(i[21], spec_cospi(p.bit, 22), i[11], sub_w(0, spec_cospi(p.bit, 42)), p);
    let bf0_7 = rotate_half(i[13], spec_cospi(p.bit, 38), i[19], sub_w(0, spec_cospi(p.bit, 26)), p);
    let bf0_8 = rotate_half(i[29], spec_cospi(p.bit, 6), i[3], sub_w(0, spec_cospi(p.bit, 58)), p);
    let bf0_9 = rotate_half(i[29], spec_cospi(p.bit, 58), i[3], spec_cospi(p.bit, 6), p);
    let bf0_10 = rotate_half(i[13], spec_cospi(p.bit, 26), i[19], spec_cospi(p.bit, 38), p);
    let bf0_11 = rotate_half(i[21], spec_cospi(p.bit, 42), i[11], spec_cospi(p.bit, 22), p);
    let bf0_12 = rotate_half(i[5], spec_cospi(p.bit, 10), i[27], spec_cospi(p.bit, 54), p);
    let bf0_13 = rotate_half(i[25], spec_cospi(p.bit, 50), i[7], spec_cospi(p.bit, 14), p);
    let bf0_14 = rotate_half(i[9], spec_cospi(p.bit, 18), i[23], spec_cospi(p.bit, 46), p);
    let bf0_15 = rotate_half(i[17], spec_cospi(p.bit, 34), i[15], spec_cospi(p.bit, 30), p);
    let bf0_16 = rotate_half(i[1], spec_cospi(p.bit, 2), i[31], spec_cospi(p.bit, 62), p);
    let bf1_1 = rotate_half(i[2], spec_cospi(p.bit, 60), i[30], sub_w(0, spec_cospi(p.bit, 4)), p);
    let bf1_2 = rotate_half(i[18], spec_cospi(p.bit, 28), i[14], sub_w(0, spec_cospi(p.bit, 36)), p);
    let bf1_3 = rotate_half(i[10], spec_cospi(p.bit, 44), i[22], sub_w(0, spec_cospi(p.bit, 20)), p);
    let bf1_4 = rotate_half(i[26], spec_cospi(p.bit, 12), i[6], sub_w(0, spec_cospi(p.bit, 52)), p);
    let bf1_5 = rotate_half(i[26], spec_cospi(p.bit, 52), i[6], spec_cospi(p.bit, 12), p);
    let bf1_6 = rotate_half(i[10], spec_cospi(p.bit, 20), i[22], spec_cospi(p.bit, 44), p);
    let bf1_7 = rotate_half(i[18], spec_cospi(p.bit, 36), i[14], spec_cospi(p.bit, 28), p);
    let bf1_8 = rotate_half(i[2], spec_cospi(p.bit, 4), i[30], spec_cospi(p.bit, 60), p);
    let bf1_9 = clamp_w(add_w(bf0_1, bf0_2), p.bd, 8);
    let bf1_10 = clamp_w(sub_w(bf0_1, bf0_2), p.bd, 8);
    let bf1_11 = clamp_w(add_w(bf0_4, bf0_3), p.bd, 8);
    let bf1_12 = clamp_w(sub_w(bf0_4, bf0_3), p.bd, 8);
    let bf1_13 = clamp_w(add_w(bf0_5, bf0_6), p.bd, 8);
    let bf1_14 = clamp_w(sub_w(bf0_5, bf0_6), p.bd, 8);
    let bf1_15 = clamp_w(add_w(bf0_8, bf0_7), p.bd, 8);
    let bf1_16 = clamp_w(sub_w(bf0_8, bf0_7), p.bd, 8);
    let bf1_17 = clamp_w(add_w(bf0_9, bf0_10), p.bd, 8);
    let bf1_18 = clamp_w(sub_w(bf0_9, bf0_10), p.bd, 8);
    let bf1_19 = clamp_w(add_w(bf0_12, bf0_11), p.bd, 8);
    let bf1_20 = clamp_w(sub_w(bf0_12, bf0_11), p.bd, 8);
    let bf1_21 = clamp_w(add_w(bf0_13, bf0_14), p.bd, 8);
    let bf1_22 = clamp_w(sub_w(bf0_13, bf0_14), p.bd, 8);
    let bf1_23 = clamp_w(add_w(bf0_16, bf0_15), p.bd, 8);
    let bf1_24 = clamp_w(sub_w(bf0_16, bf0_15), p.bd, 8);
    let bf0_17 = rotate_half(i[4], spec_cospi(p.bit, 56), i[28], sub_w(0, spec_cospi(p.bit, 8)), p);
    let bf0_18 = rotate_half(i[20], spec_cospi(p.bit, 24), i[12], sub_w(0, spec_cospi(p.bit, 40)), p);
    let bf0_19 = rotate_half(i[20], spec_cospi(p.bit, 40), i[12], spec_cospi(p.bit, 24), p);
    let bf0_20 = rotate_half(i[4], spec_cospi(p.bit, 8), i[28], spec_cospi(p.bit, 56), p);
    let bf0_21 = clamp_w(add_w(bf1_1, bf1_2), p.bd, 8);
    let bf0_22 = clamp_w(sub_w(bf1_1, bf1_2), p.bd, 8);
    let bf0_23 = clamp_w(add_w(bf1_4, bf1_3), p.bd, 8);
    let bf0_24 = clamp_w(sub_w(bf1_4, bf1_3), p.bd, 8);
    let bf0_25 = clamp_w(add_w(bf1_5, bf1_6), p.bd, 8);
    let bf0_26 = clamp_w(sub_w(bf1_5, bf1_6), p.bd, 8);
    let bf0_27 = clamp_w(add_w(bf1_8, bf1_7), p.bd, 8);
    let bf0_28 = clamp_w(sub_w(bf1_8, bf1_7), p.bd, 8);
    let bf0_29 = rotate_half(bf1_10, sub_w(0, spec_cospi(p.bit, 8)), bf1_24, spec_cospi(p.bit, 56), p);
    let bf0_30 = rotate_half(bf1_12, sub_w(0, spec_cospi(p.bit, 56)), bf1_22, sub_w(0, spec_cospi(p.bit, 8)), p);
    let bf0_31 = rotate_half(bf1_14, sub_w(0, spec_cospi(p.bit, 40)), bf1_20, spec_cospi(p.bit, 24), p);
    let bf0_32 = rotate_half(bf1_16, sub_w(0, spec_cospi(p.bit, 24)), bf1_18, sub_w(0, spec_cospi(p.bit, 40)), p);
    let bf0_33 = rotate_half(bf1_16, sub_w(0, spec_cospi(p.bit, 40)), bf1_18, spec_cospi(p.bit, 24), p);
    let bf0_34 = rotate_half(bf1_14, spec_cospi(p.bit, 24), bf1_20, spec_cospi(p.bit, 40), p);
    let bf0_35 = rotate_half(bf1_12, sub_w(0, spec_cospi(p.bit, 8)), bf1_22, spec_cospi(p.bit, 56), p);
    let bf0_36 = rotate_half(bf1_10, spec_cospi(p.bit, 56), bf1_24, spec_cospi(p.bit, 8), p);
    let bf1_25 = rotate_half(i[0], spec_cospi(p.bit, 32), i[16], spec_cospi(p.bit, 32), p);
    let bf1_26 = rotate_half(i[0], spec_cospi(p.bit, 32), i[16], sub_w(0, spec_cospi(p.bit, 32)), p);
    let bf1_27 = rotate_half(i[8], spec_cospi(p.bit, 48), i[24], sub_w(0, spec_cospi(p.bit, 16)), p);
    let bf1_28 = rotate_half(i[8], spec_cospi(p.bit, 16), i[24], spec_cospi(p.bit, 48), p);
    let bf1_29 = clamp_w(add_w(bf0_17, bf0_18), p.bd, 8);
    let bf1_30 = clamp_w(sub_w(bf0_17, bf0_18), p.bd, 8);
    let bf1_31 = clamp_w(add_w(bf0_20, bf0_19), p.bd, 8);
    let bf1_32 = clamp_w(sub_w(bf0_20, bf0_19), p.bd, 8);
    let bf1_33 = rotate_half(bf0_22, sub_w(0, spec_cospi(p.bit, 16)), bf0_28, spec_cospi(p.bit, 48), p);
    let bf1_34 = rotate_half(bf0_24, sub_w(0, spec_cospi(p.bit, 48)), bf0_26, sub_w(0, spec_cospi(p.bit, 16)), p);
    let bf1_35 = rotate_half(bf0_24, sub_w(0, spec_cospi(p.bit, 16)), bf0_26, spec_cospi(p.bit, 48), p);
    let bf1_36 = rotate_half(bf0_22, spec_cospi(p.bit, 48), bf0_28, spec_cospi(p.bit, 16), p);
    let bf1_37 = clamp_w(add_w(bf1_9, bf1_11), p.bd, 8);
    let bf1_38 = clamp_w(sub_w(bf1_9, bf1_11), p.bd, 8);
    let bf1_39 = clamp_w(add_w(bf0_29, bf0_30), p.bd, 8);
    let bf1_40 = clamp_w(sub_w(bf0_29, bf0_30), p.bd, 8);
    let bf1_41 = clamp_w(add_w(bf1_15, bf1_13), p.bd, 8);
    let bf1_42 = clamp_w(sub_w(bf1_15, bf1_13), p.bd, 8);
    let bf1_43 = clamp_w(add_w(bf0_32, bf0_31), p.bd, 8);
    let bf1_44 = clamp_w(sub_w(bf0_32, bf0_31), p.bd, 8);
    let bf1_45 = clamp_w(add_w(bf1_17, bf1_19), p.bd, 8);
    let bf1_46 = clamp_w(sub_w(bf1_17, bf1_19), p.bd, 8);
    let bf1_47 = clamp_w(add_w(bf0_33, bf0_34), p.bd, 8);
    let bf1_48 = clamp_w(sub_w(bf0_33, bf0_34), p.bd, 8);
    let bf1_49 = clamp_w(add_w(bf1_23, bf1_21), p.bd, 8);
    let bf1_50 = clamp_w(sub_w(bf1_23, bf1_21), p.bd, 8);
    let bf1_51 = clamp_w(add_w(bf0_36, bf0_35), p.bd, 8);
    let bf1_52 = clamp_w(sub_w(bf0_36, bf0_35), p.bd, 8);
    let bf0_37 = clamp_w(add_w(bf1_25, bf1_28), p.bd, 8);
    let bf0_38 = clamp_w(sub_w(bf1_25, bf1_28), p.bd, 8);
    let bf0_39 = clamp_w(add_w(bf1_26, bf1_27), p.bd, 8);
    let bf0_40 = clamp_w(sub_w(bf1_26, bf1_27), p.bd, 8);
    let bf0_41 = rotate_half(bf1_30, sub_w(0, spec_cospi(p.bit, 32)), bf1_32, spec_cospi(p.bit, 32), p);
    let bf0_42 = rotate_half(bf1_30, spec_cospi(p.bit, 32), bf1_32, spec_cospi(p.bit, 32), p);
    let bf0_43 = clamp_w(add_w(bf0_21, bf0_23), p.bd, 8);
    let bf0_44 = clamp_w(sub_w(bf0_21, bf0_23), p.bd, 8);
    let bf0_45 = clamp_w(add_w(bf1_33, bf1_34), p.bd, 8);
    let bf0_46 = clamp_w(sub_w(bf1_33, bf1_34), p.bd, 8);
    let bf0_47 = clamp_w(add_w(bf0_27, bf0_25), p.bd, 8);
    let bf0_48 = clamp_w(sub_w(bf0_27, bf0_25), p.bd, 8);
    let bf0_49 = clamp_w(add_w(bf1_36, bf1_35), p.bd, 8);
    let bf0_50 = clamp_w(sub_w(bf1_36, bf1_35), p.bd, 8);
    let bf0_51 = rotate_half(bf1_40, sub_w(0, spec_cospi(p.bit, 16)), bf1_52, spec_cospi(p.bit, 48), p);
    let bf0_52 = rotate_half(bf1_38, sub_w(0, spec_cospi(p.bit, 16)), bf1_50, spec_cospi(p.bit, 48), p);
    let bf0_53 = rotate_half(bf1_42, sub_w(0, spec_cospi(p.bit, 48)), bf1_46, sub_w(0, spec_cospi(p.bit, 16)), p);
    let bf0_54 = rotate_half(bf1_44, sub_w(0, spec_cospi(p.bit, 48)), bf1_48, sub_w(0, spec_cospi(p.bit, 16)), p);
    let bf0_55 = rotate_half(bf1_44, sub_w(0, spec_cospi(p.bit, 16)), bf1_48, spec_cospi(p.bit, 48), p);
    let bf0_56 = rotate_half(bf1_42, sub_w(0, spec_cospi(p.bit, 16)), bf1_46, spec_cospi(p.bit, 48), p);
    let bf0_57 = rotate_half(bf1_38, spec_cospi(p.bit, 48), bf1_50, spec_cospi(p.bit, 16), p);
    let bf0_58 = rotate_half(bf1_40, spec_cospi(p.bit, 48), bf1_52, spec_cospi(p.bit, 16), p);
    let bf1_53 = clamp_w(add_w(bf0_37, bf1_31), p.bd, 8);
    let bf1_54 = clamp_w(sub_w(bf0_37, bf1_31), p.bd, 8);
    let bf1_55 = clamp_w(add_w(bf0_39, bf0_42), p.bd, 8);
    let bf1_56 = clamp_w(sub_w(bf0_39, bf0_42), p.bd, 8);
    let bf1_57 = clamp_w(add_w(bf0_40, bf0_41), p.bd, 8);
    let bf1_58 = clamp_w(sub_w(bf0_40, bf0_41), p.bd, 8);
    let bf1_59 = clamp_w(add_w(bf0_38, bf1_29), p.bd, 8);
    let bf1_60 = clamp_w(sub_w(bf0_38, bf1_29), p.bd, 8);
    let bf1_61 = rotate_half(bf0_46, sub_w(0, spec_cospi(p.bit, 32)), bf0_50, spec_cospi(p.bit, 32), p);
    let bf1_62 = rotate_half(bf0_44, sub_w(0, spec_cospi(p.bit, 32)), bf0_48, spec_cospi(p.bit, 32), p);
    let bf1_63 = rotate_half(bf0_44, spec_cospi(p.bit, 32), bf0_48, spec_cospi(p.bit, 32), p);
    let bf1_64 = rotate_half(bf0_46, spec_cospi(p.bit, 32), bf0_50, spec_cospi(p.bit, 32), p);
    let bf1_65 = clamp_w(add_w(bf1_37, bf1_41), p.bd, 8);
    let bf1_66 = clamp_w(sub_w(bf1_37, bf1_41), p.bd, 8);
    let bf1_67 = clamp_w(add_w(bf1_39, bf1_43), p.bd, 8);
    let bf1_68 = clamp_w(sub_w(bf1_39, bf1_43), p.bd, 8);
    let bf1_69 = clamp_w(add_w(bf0_51, bf0_54), p.bd, 8);
    let bf1_70 = clamp_w(sub_w(bf0_51, bf0_54), p.bd, 8);
    let bf1_71 = clamp_w(add_w(bf0_52, bf0_53), p.bd, 8);
    let bf1_72 = clamp_w(sub_w(bf0_52, bf0_53), p.bd, 8);
    let bf1_73 = clamp_w(add_w(bf1_49, bf1_45), p.bd, 8);
    let bf1_74 = clamp_w(sub_w(bf1_49, bf1_45), p.bd, 8);
    let bf1_75 = clamp_w(add_w(bf1_51, bf1_47), p.bd, 8);
    let bf1_76 = clamp_w(sub_w(bf1_51, bf1_47), p.bd, 8);
    let bf1_77 = clamp_w(add_w(bf0_58, bf0_55), p.bd, 8);
    let bf1_78 = clamp_w(sub_w(bf0_58, bf0_55), p.bd, 8);
    let bf1_79 = clamp_w(add_w(bf0_57, bf0_56), p.bd, 8);
    let bf1_80 = clamp_w(sub_w(bf0_57, bf0_56), p.bd, 8);
    let bf0_59 = clamp_w(add_w(bf1_53, bf0_47), p.bd, 8);
    let bf0_60 = clamp_w(sub_w(bf1_53, bf0_47), p.bd, 8);
    let bf0_61 = clamp_w(add_w(bf1_55, bf0_49), p.bd, 8);
    let bf0_62 = clamp_w(sub_w(bf1_55, bf0_49), p.bd, 8);
    let bf0_63 = clamp_w(add_w(bf1_57, bf1_64), p.bd, 8);
    let bf0_64 = clamp_w(sub_w(bf1_57, bf1_64), p.bd, 8);
    let bf0_65 = clamp_w(add_w(bf1_59, bf1_63), p.bd, 8);
    let bf0_66 = clamp_w(sub_w(bf1_59, bf1_63), p.bd, 8);
    let bf0_67 = clamp_w(add_w(bf1_60, bf1_62), p.bd, 8);
    let bf0_68 = clamp_w(sub_w(bf1_60, bf1_62), p.bd, 8);
    let bf0_69 = clamp_w(add_w(bf1_58, bf1_61), p.bd, 8);
    let bf0_70 = clamp_w(sub_w(bf1_58, bf1_61), p.bd, 8);
    let bf0_71 = clamp_w(add_w(bf1_56, bf0_45), p.bd, 8);
    let bf0_72 = clamp_w(sub_w(bf1_56, bf0_45), p.bd, 8);
    let bf0_73 = clamp_w(add_w(bf1_54, bf0_43), p.bd, 8);
    let bf0_74 = clamp_w(sub_w(bf1_54, bf0_43), p.bd, 8);
    let bf0_75 = rotate_half(bf1_72, sub_w(0, spec_cospi(p.bit, 32)), bf1_80, spec_cospi(p.bit, 32), p);
    let bf0_76 = rotate_half(bf1_70, sub_w(0, spec_cospi(p.bit, 32)), bf1_78, spec_cospi(p.bit, 32), p);
    let bf0_77 = rotate_half(bf1_68, sub_w(0, spec_cospi(p.bit, 32)), bf1_76, spec_cospi(p.bit, 32), p);
    let bf0_78 = rotate_half(bf1_66, sub_w(0, spec_cospi(p.bit, 32)), bf1_74, spec_cospi(p.bit, 32), p);
    let bf0_79 = rotate_half(bf1_66, spec_cospi(p.bit, 32), bf1_74, spec_cospi(p.bit, 32), p);
    let bf0_80 = rotate_half(bf1_68, spec_cospi(p.bit, 32), bf1_76, spec_cospi(p.bit, 32), p);
    let bf0_81 = rotate_half(bf1_70, spec_cospi(p.bit, 32), bf1_78, spec_cospi(p.bit, 32), p);
    let bf0_82 = rotate_half(bf1_72, spec_cospi(p.bit, 32), bf1_80, spec_cospi(p.bit, 32), p);
    let output_1 = clamp_w(add_w(bf0_59, bf1_73), p.bd, 8);
    let output_2 = clamp_w(sub_w(bf0_59, bf1_73), p.bd, 8);
    let output_3 = clamp_w(add_w(bf0_61, bf1_75), p.bd, 8);
    let output_4 = clamp_w(sub_w(bf0_61, bf1_75), p.bd, 8);
    let output_5 = clamp_w(add_w(bf0_63, bf1_77), p.bd, 8);
    let output_6 = clamp_w(sub_w(bf0_63, bf1_77), p.bd, 8);
    let output_7 = clamp_w(add_w(bf0_65, bf1_79), p.bd, 8);
    let output_8 = clamp_w(sub_w(bf0_65, bf1_79), p.bd, 8);
    let output_9 = clamp_w(add_w(bf0_67, bf0_82), p.bd, 8);
    let output_10 = clamp_w(sub_w(bf0_67, bf0_82), p.bd, 8);
    let output_11 = clamp_w(add_w(bf0_69, bf0_81), p.bd, 8);
    let output_12 = clamp_w(sub_w(bf0_69, bf0_81), p.bd, 8);
    let output_13 = clamp_w(add_w(bf0_71, bf0_80), p.bd, 8);
    let output_14 = clamp_w(sub_w(bf0_71, bf0_80), p.bd, 8);
    let output_15 = clamp_w(add_w(bf0_73, bf0_79), p.bd, 8);
    let output_16 = clamp_w(sub_w(bf0_73, bf0_79), p.bd, 8);
    let output_17 = clamp_w(add_w(bf0_74, bf0_78), p.bd, 8);
    let output_18 = clamp_w(sub_w(bf0_74, bf0_78), p.bd, 8);
    let output_19 = clamp_w(add_w(bf0_72, bf0_77), p.bd, 8);
    let output_20 = clamp_w(sub_w(bf0_72, bf0_77), p.bd, 8);
    let output_21 = clamp_w(add_w(bf0_70, bf0_76), p.bd, 8);
    let output_22 = clamp_w(sub_w(bf0_70, bf0_76), p.bd, 8);
    let output_23 = clamp_w(add_w(bf0_68, bf0_75), p.bd, 8);
    let output_24 = clamp_w(sub_w(bf0_68, bf0_75), p.bd, 8);
    let output_25 = clamp_w(add_w(bf0_66, bf1_71), p.bd, 8);
    let output_26 = clamp_w(sub_w(bf0_66, bf1_71), p.bd, 8);
    let output_27 = clamp_w(add_w(bf0_64, bf1_69), p.bd, 8);
    let output_28 = clamp_w(sub_w(bf0_64, bf1_69), p.bd, 8);
    let output_29 = clamp_w(add_w(bf0_62, bf1_67), p.bd, 8);
    let output_30 = clamp_w(sub_w(bf0_62, bf1_67), p.bd, 8);
    let output_31 = clamp_w(add_w(bf0_60, bf1_65), p.bd, 8);
    let output_32 = clamp_w(sub_w(bf0_60, bf1_65), p.bd, 8);
    let out_1 = round_out(output_1, p);
    let out_2 = round_out(output_3, p);
    let out_3 = round_out(output_5, p);
    let out_4 = round_out(output_7, p);
    let out_5 = round_out(output_9, p);
    let out_6 = round_out(output_11, p);
    let out_7 = round_out(output_13, p);
    let out_8 = round_out(output_15, p);
    let out_9 = round_out(output_17, p);
    let out_10 = round_out(output_19, p);
    let out_11 = round_out(output_21, p);
    let out_12 = round_out(output_23, p);
    let out_13 = round_out(output_25, p);
    let out_14 = round_out(output_27, p);
    let out_15 = round_out(output_29, p);
    let out_16 = round_out(output_31, p);
    let out_17 = round_out(output_32, p);
    let out_18 = round_out(output_30, p);
    let out_19 = round_out(output_28, p);
    let out_20 = round_out(output_26, p);
    let out_21 = round_out(output_24, p);
    let out_22 = round_out(output_22, p);
    let out_23 = round_out(output_20, p);
    let out_24 = round_out(output_18, p);
    let out_25 = round_out(output_16, p);
    let out_26 = round_out(output_14, p);
    let out_27 = round_out(output_12, p);
    let out_28 = round_out(output_10, p);
    let out_29 = round_out(output_8, p);
    let out_30 = round_out(output_6, p);
    let out_31 = round_out(output_4, p);
    let out_32 = round_out(output_2, p);
    let out_33 = clamp_w(out_1, p.bd, 6);
    let out_34 = clamp_w(out_2, p.bd, 6);
    let out_35 = clamp_w(out_3, p.bd, 6);
    let out_36 = clamp_w(out_4, p.bd, 6);
    let out_37 = clamp_w(out_5, p.bd, 6);
    let out_38 = clamp_w(out_6, p.bd, 6);
    let out_39 = clamp_w(out_7, p.bd, 6);
    let out_40 = clamp_w(out_8, p.bd, 6);
    let out_41 = clamp_w(out_9, p.bd, 6);
    let out_42 = clamp_w(out_10, p.bd, 6);
    let out_43 = clamp_w(out_11, p.bd, 6);
    let out_44 = clamp_w(out_12, p.bd, 6);
    let out_45 = clamp_w(out_13, p.bd, 6);
    let out_46 = clamp_w(out_14, p.bd, 6);
    let out_47 = clamp_w(out_15, p.bd, 6);
    let out_48 = clamp_w(out_16, p.bd, 6);
    let out_49 = clamp_w(out_17, p.bd, 6);
    let out_50 = clamp_w(out_18, p.bd, 6);
    let out_51 = clamp_w(out_19, p.bd, 6);
    let out_52 = clamp_w(out_20, p.bd, 6);
    let out_53 = clamp_w(out_21, p.bd, 6);
    let out_54 = clamp_w(out_22, p.bd, 6);
    let out_55 = clamp_w(out_23, p.bd, 6);
    let out_56 = clamp_w(out_24, p.bd, 6);
    let out_57 = clamp_w(out_25, p.bd, 6);
    let out_58 = clamp_w(out_26, p.bd, 6);
    let out_59 = clamp_w(out_27, p.bd, 6);
    let out_60 = clamp_w(out_28, p.bd, 6);
    let out_61 = clamp_w(out_29, p.bd, 6);
    let out_62 = clamp_w(out_30, p.bd, 6);
    let out_63 = clamp_w(out_31, p.bd, 6);
    let out_64 = clamp_w(out_32, p.bd, 6);
    seq![out_33, out_34, out_35, out_36, out_37, out_38, out_39, out_40, out_41, out_42, out_43, out_44, out_45, out_46, out_47, out_48, out_49, out_50, out_51, out_52, out_53, out_54, out_55, out_56, out_57, out_58, out_59, out_60, out_61, out_62, out_63, out_64]
}

/// The 32-point inverse DCT: the column pass when `do_cols` holds, the row pass otherwise.
pub open spec fn spec_idct32(i: Seq<i32>, do_cols: bool, p: ButterflyParams) -> Seq<i32> {
    if do_cols {
        spec_idct32_col(i, p)
    } else {
        spec_idct32_row(i, p)
    }
}

proof fn lemma_idct32_col_regs_0(input: Seq<i32>, p: ButterflyParams)
    requires
        params_ok(p),
        input.len() == 32,
    ensures
        ({
            let rr = run_ops(IDCT32_COL_OPS@, 322, input.push(0), p);
            &&& rr[33] == rotate_half(rr[1], spec_cospi(p.bit, 62), rr[31], sub_w(0, spec_cospi(p.bit, 2)), p)
            &&& rr[34] == rotate_half(rr[17], spec_cospi(p.bit, 30), rr[15], sub_w(0, spec_cospi(p.bit, 34)), p)
            &&& rr[35] == rotate_half(rr[9], spec_cospi(p.bit, 46), rr[23], sub_w(0, spec_cospi(p.bit, 18)), p)
            &&& rr[36] == rotate_half(rr[25], spec_cospi(p.bit, 14), rr[7], sub_w(0, spec_cospi(p.bit, 50)), p)
            &&& rr[37] == rotate_half(rr[5], spec_cospi(p.bit, 54), rr[27], sub_w(0, spec_cospi(p.bit, 10)), p)
            &&& rr[38] == rotate_half(rr[21], spec_cospi(p.bit, 22), rr[11], sub_w(0, spec_cospi(p.bit, 42)), p)
            &&& rr[39] == rotate_half(rr[13], spec_cospi(p.bit, 38), rr[19], sub_w(0, spec_cospi(p.bit, 26)), p)
            &&& rr[40] == rotate_half(rr[29], spec_cospi(p.bit, 6), rr[3], sub_w(0, spec_cospi(p.bit, 58)), p)
            &&& rr[41] == rotate_half(rr[29], spec_cospi(p.bit, 58), rr[3], spec_cospi(p.bit, 6), p)
            &&& rr[42] == rotate_half(rr[13], spec_cospi(p.bit, 26), rr[19], spec_cospi(p.bit, 38), p)
            &&& rr[43] == rotate_half(rr[21], spec_cospi(p.bit, 42), rr[11], spec_cospi(p.bit, 22), p)
            &&& rr[44] == rotate_half(rr[5], spec_cospi(p.bit, 10), rr[27], spec_cospi(p.bit, 54), p)
            &&& rr[45] == rotate_half(rr[25], spec_cospi(p.bit, 50), rr[7], spec_cospi(p.bit, 14), p)
            &&& rr[46] == rotate_half(rr[9], spec_cospi(p.bit, 18), rr[23], spec_cospi(p.bit, 46), p)
            &&& rr[47] == rotate_half(rr[17], spec_cospi(p.bit, 34), rr[15], spec_cospi(p.bit, 30), p)
            &&& rr[48] == rotate_half(rr[1], spec_cospi(p.bit, 2), rr[31], spec_cospi(p.bit, 62), p)
            &&& rr[49] == rotate_half(rr[2], spec_cospi(p.bit, 60), rr[30], sub_w(0, spec_cospi(p.bit, 4)), p)
            &&& rr[50] == rotate_half(rr[18], spec_cospi(p.bit, 28), rr[14], sub_w(0, spec_cospi(p.bit, 36)), p)
            &&& rr[51] == rotate_half(rr[10], spec_cospi(p.bit, 44), rr[22], sub_w(0, spec_cospi(p.bit, 20)), p)
            &&& rr[52] == rotate_half(rr[26], spec_cospi(p.bit, 12), rr[6], sub_w(0, spec_cospi(p.bit, 52)), p)
            &&& rr[53] == rotate_half(rr[26], spec_cospi(p.bit, 52), rr[6], spec_cospi(p.bit, 12), p)
            &&& rr[54] == rotate_half(rr[10], spec_cospi(p.bit, 20), rr[22], spec_cospi(p.bit, 44), p)
            &&& rr[55] == rotate_half(rr[18], spec_cospi(p.bit, 36), rr[14], spec_cospi(p.bit, 28), p)
            &&& rr[56] == rotate_half(rr[2], spec_cospi(p.bit, 4), rr[30], spec_cospi(p.bit, 60), p)
            &&& rr[57] == add_w(rr[33], rr[34])
            &&& rr[58] == clamp_w(rr[57], p.bd, 6)
            &&& rr[59] == sub_w(rr[33], rr[34])
            &&& rr[60] == clamp_w(rr[59], p.bd, 6)
            &&& rr[61] == add_w(rr[36], rr[35])
            &&& rr[62] == clamp_w(rr[61], p.bd, 6)
            &&& rr[63] == sub_w(rr[36], rr[35])
            &&& rr[64] == clamp_w(rr[63], p.bd, 6)
            &&& rr[65] == add_w(rr[37], rr[38])
            &&& rr[66] == clamp_w(rr[65], p.bd, 6)
            &&& rr[67] == sub_w(rr[37], rr[38])
            &&& rr[68] == clamp_w(rr[67], p.bd, 6)
            &&& rr[69] == add_w(rr[40], rr[39])
            &&& rr[70] == clamp_w(rr[69], p.bd, 6)
            &&& rr[71] == sub_w(rr[40], rr[39])
            &&& rr[72] == clamp_w(rr[71], p.bd, 6)
        }),
{
    reveal(IDCT32_COL_OPS);
    let ops = IDCT32_COL_OPS@;
    let r0 = input.push(0);
    lemma_run_ops_len(ops, 322, r0, p);
    reveal(add_w);
    reveal(sub_w);
    reveal(rotate_half);
    reveal(clamp_w);
    lemma_run_ops_step(ops, 322, r0, p, 0);
    lemma_run_ops_step(ops, 322, r0, p, 1);
    lemma_run_ops_step(ops, 322, r0, p, 2);
    lemma_run_ops_step(ops, 322, r0, p, 3);
    lemma_run_ops_step(ops, 322, r0, p, 4);
    lemma_run_ops_step(ops, 322, r0, p, 5);
    lemma_run_ops_step(ops, 322, r0, p, 6);
    lemma_run_ops_step(ops, 322, r0, p, 7);
    lemma_run_ops_step(ops, 322, r0, p, 8);
    lemma_run_ops_step(ops, 322, r0, p, 9);
    lemma_run_ops_step(ops, 322, r0, p, 10);
    lemma_run_ops_step(ops, 322, r0, p, 11);
    lemma_run_ops_step(ops, 322, r0, p, 12);
    lemma_run_ops_step(ops, 322, r0, p, 13);
    lemma_run_ops_step(ops, 322, r0, p, 14);
    lemma_run_ops_step(ops, 322, r0, p, 15);
    lemma_run_ops_step(ops, 322, r0, p, 16);
    lemma_run_ops_step(ops, 322, r0, p, 17);
    lemma_run_ops_step(ops, 322, r0, p, 18);
    lemma_run_ops_step(ops, 322, r0, p, 19);
    lemma_run_ops_step(ops, 322, r0, p, 20);
    lemma_run_ops_step(ops, 322, r0, p, 21);
    lemma_run_ops_step(ops, 322, r0, p, 22);
    lemma_run_ops_step(ops, 322, r0, p, 23);
    lemma_run_ops_step(ops, 322, r0, p, 24);
    lemma_run_ops_step(ops, 322, r0, p, 25);
    lemma_run_ops_step(ops, 322, r0, p, 26);
    lemma_run_ops_step(ops, 322, r0, p, 27);
    lemma_run_ops_step(ops, 322, r0, p, 28);
    lemma_run_ops_step(ops, 322, r0, p, 29);
    lemma_run_ops_step(ops, 322, r0, p, 30);
    lemma_run_ops_step(ops, 322, r0, p, 31);
    lemma_run_ops_step(ops, 322, r0, p, 32);
    lemma_run_ops_step(ops, 322, r0, p, 33);
    lemma_run_ops_step(ops, 322, r0, p, 34);
    lemma_run_ops_step(ops, 322, r0, p, 35);
    lemma_run_ops_step(ops, 322, r0, p, 36);
    lemma_run_ops_step(ops, 322, r0, p, 37);
    lemma_run_ops_step(ops, 322, r0, p, 38);
    lemma_run_ops_step(ops, 322, r0, p, 39);
}

proof fn lemma_idct32_col_regs_1(input: Seq<i32>, p: ButterflyParams)
    requires
        params_ok(p),
        input.len() == 32,
    ensures
        ({
            let rr = run_ops(IDCT32_COL_OPS@, 322, input.push(0), p);
            &&& rr[73] == add_w(rr[41], rr[42])
            &&& rr[74] == clamp_w(rr[73], p.bd, 6)
            &&& rr[75] == sub_w(rr[41], rr[42])
            &&& rr[76] == clamp_w(rr[75], p.bd, 6)
            &&& rr[77] == add_w(rr[44], rr[43])
            &&& rr[78] == clamp_w(rr[77], p.bd, 6)
            &&& rr[79] == sub_w(rr[44], rr[43])
            &&& rr[80] == clamp_w(rr[79], p.bd, 6)
            &&& rr[81] == add_w(rr[45], rr[46])
            &&& rr[82] == clamp_w(rr[81], p.bd, 6)
            &&& rr[83] == sub_w(rr[45], rr[46])
            &&& rr[84] == clamp_w(rr[83], p.bd, 6)
            &&& rr[85] == add_w(rr[48], rr[47])
            &&& rr[86] == clamp_w(rr[85], p.bd, 6)
            &&& rr[87] == sub_w(rr[48], rr[47])
            &&& rr[88] == clamp_w(rr[87], p.bd, 6)
            &&& rr[89] == rotate_half(rr[4], spec_cospi(p.bit, 56), rr[28], sub_w(0, spec_cospi(p.bit, 8)), p)
            &&& rr[90] == rotate_half(rr[20], spec_cospi(p.bit, 24), rr[12], sub_w(0, spec_cospi(p.bit, 40)), p)
            &&& rr[91] == rotate_half(rr[20], spec_cospi(p.bit, 40), rr[12], spec_cospi(p.bit, 24), p)
            &&& rr[92] == rotate_half(rr[4], spec_cospi(p.bit, 8), rr[28], spec_cospi(p.bit, 56), p)
            &&& rr[93] == add_w(rr[49], rr[50])
            &&& rr[94] == clamp_w(rr[93], p.bd, 6)
            &&& rr[95] == sub_w(rr[49], rr[50])
            &&& rr[96] == clamp_w(rr[95], p.bd, 6)
            &&& rr[97] == add_w(rr[52], rr[51])
            &&& rr[98] == clamp_w(rr[97], p.bd, 6)
            &&& rr[99] == sub_w(rr[52], rr[51])
            &&& rr[100] == clamp_w(rr[99], p.bd, 6)
            &&& rr[101] == add_w(rr[53], rr[54])
            &&& rr[102] == clamp_w(rr[101], p.bd, 6)
            &&& rr[103] == sub_w(rr[53], rr[54])
            &&& rr[104] == clamp_w(rr[103], p.bd, 6)
            &&& rr[105] == add_w(rr[56], rr[55])
            &&& rr[106] == clamp_w(rr[105], p.bd, 6)
            &&& rr[107] == sub_w(rr[56], rr[55])
            &&& rr[108] == clamp_w(rr[107], p.bd, 6)
            &&& rr[109] == rotate_half(rr[60], sub_w(0, spec_cospi(p.bit, 8)), rr[88], spec_cospi(p.bit, 56), p)
            &&& rr[110] == rotate_half(rr[64], sub_w(0, spec_cospi(p.bit, 56)), rr[84], sub_w(0, spec_cospi(p.bit, 8)), p)
            &&& rr[111] == rotate_half(rr[68], sub_w(0, spec_cospi(p.bit, 40)), rr[80], spec_cospi(p.bit, 24), p)
            &&& rr[112] == rotate_half(rr[72], sub_w(0, spec_cospi(p.bit, 24)), rr[76], sub_w(0, spec_cospi(p.bit, 40)), p)
        }),
{
    reveal(IDCT32_COL_OPS);
    let ops = IDCT32_COL_OPS@;
    let r0 = input.push(0);
    lemma_run_ops_len(ops, 322, r0, p);
    reveal(add_w);
    reveal(sub_w);
    reveal(rotate_half);
    reveal(clamp_w);
    lemma_run_ops_step(ops, 322, r0, p, 40);
    lemma_run_ops_step(ops, 322, r0, p, 41);
    lemma_run_ops_step(ops, 322, r0, p, 42);
    lemma_run_ops_step(ops, 322, r0, p, 43);
    lemma_run_ops_step(ops, 322, r0, p, 44);
    lemma_run_ops_step(ops, 322, r0, p, 45);
    lemma_run_ops_step(ops, 322, r0, p, 46);
    lemma_run_ops_step(ops, 322, r0, p, 47);
    lemma_run_ops_step(ops, 322, r0, p, 48);
    lemma_run_ops_step(ops, 322, r0, p, 49);
    lemma_run_ops_step(ops, 322, r0, p, 50);
    lemma_run_ops_step(ops, 322, r0, p, 51);
    lemma_run_ops_step(ops, 322, r0, p, 52);
    lemma_run_ops_step(ops, 322, r0, p, 53);
    lemma_run_ops_step(ops, 322, r0, p, 54);
    lemma_run_ops_step(ops, 322, r0, p, 55);
    lemma_run_ops_step(ops, 322, r0, p, 56);
    lemma_run_ops_step(ops, 322, r0, p, 57);
    lemma_run_ops_step(ops, 322, r0, p, 58);
    lemma_run_ops_step(ops, 322, r0, p, 59);
    lemma_run_ops_step(ops, 322, r0, p, 60);
    lemma_run_ops_step(ops, 322, r0, p, 61);
    lemma_run_ops_step(ops, 322, r0, p, 62);
    lemma_run_ops_step(ops, 322, r0, p, 63);
    lemma_run_ops_step(ops, 322, r0, p, 64);
    lemma_run_ops_step(ops, 322, r0, p, 65);
    lemma_run_ops_step(ops, 322, r0, p, 66);
    lemma_run_ops_step(ops, 322, r0, p, 67);
    lemma_run_ops_step(ops, 322, r0, p, 68);
    lemma_run_ops_step(ops, 322, r0, p, 69);
    lemma_run_ops_step(ops, 322, r0, p, 70);
    lemma_run_ops_step(ops, 322, r0, p, 71);
    lemma_run_ops_step(ops, 322, r0, p, 72);
    lemma_run_ops_step(ops, 322, r0, p, 73);
    lemma_run_ops_step(ops, 322, r0, p, 74);
    lemma_run_ops_step(ops, 322, r0, p, 75);
    lemma_run_ops_step(ops, 322, r0, p, 76);
    lemma_run_ops_step(ops, 322, r0, p, 77);
    lemma_run_ops_step(ops, 322, r0, p, 78);
    lemma_run_ops_step(ops, 322, r0, p, 79);
}

proof fn lemma_idct32_col_regs_2(input: Seq<i32>, p: ButterflyParams)
    requires
        params_ok(p),
        input.len() == 32,
    ensures
        ({
            let rr = run_ops(IDCT32_COL_OPS@, 322, input.push(0), p);
            &&& rr[113] == rotate_half(rr[72], sub_w(0, spec_cospi(p.bit, 40)), rr[76], spec_cospi(p.bit, 24), p)
            &&& rr[114] == rotate_half(rr[68], spec_cospi(p.bit, 24), rr[80], spec_cospi(p.bit, 40), p)
            &&& rr[115] == rotate_half(rr[64], sub_w(0, spec_cospi(p.bit, 8)), rr[84], spec_cospi(p.bit, 56), p)
            &&& rr[116] == rotate_half(rr[60], spec_cospi(p.bit, 56), rr[88], spec_cospi(p.bit, 8), p)
            &&& rr[117] == rotate_half(rr[0], spec_cospi(p.bit, 32), rr[16], spec_cospi(p.bit, 32), p)
            &&& rr[118] == rotate_half(rr[0], spec_cospi(p.bit, 32), rr[16], sub_w(0, spec_cospi(p.bit, 32)), p)
            &&& rr[119] == rotate_half(rr[8], spec_cospi(p.bit, 48), rr[24], sub_w(0, spec_cospi(p.bit, 16)), p)
            &&& rr[120] == rotate_half(rr[8], spec_cospi(p.bit, 16), rr[24], spec_cospi(p.bit, 48), p)
            &&& rr[121] == add_w(rr[89], rr[90])
            &&& rr[122] == clamp_w(rr[121], p.bd, 6)
            &&& rr[123] == sub_w(rr[89], rr[90])
            &&& rr[124] == clamp_w(rr[123], p.bd, 6)
            &&& rr[125] == add_w(rr[92], rr[91])
            &&& rr[126] == clamp_w(rr[125], p.bd, 6)
            &&& rr[127] == sub_w(rr[92], rr[91])
            &&& rr[128] == clamp_w(rr[127], p.bd, 6)
            &&& rr[129] == rotate_half(rr[96], sub_w(0, spec_cospi(p.bit, 16)), rr[108], spec_cospi(p.bit, 48), p)
            &&& rr[130] == rotate_half(rr[100], sub_w(0, spec_cospi(p.bit, 48)), rr[104], sub_w(0, spec_cospi(p.bit, 16)), p)
            &&& rr[131] == rotate_half(rr[100], sub_w(0, spec_cospi(p.bit, 16)), rr[104], spec_cospi(p.bit, 48), p)
            &&& rr[132] == rotate_half(rr[96], spec_cospi(p.bit, 48), rr[108], spec_cospi(p.bit, 16), p)
            &&& rr[133] == add_w(rr[58], rr[62])
            &&& rr[134] == clamp_w(rr[133], p.bd, 6)
            &&& rr[135] == sub_w(rr[58], rr[62])
            &&& rr[136] == clamp_w(rr[135], p.bd, 6)
            &&& rr[137] == add_w(rr[109], rr[110])
            &&& rr[138] == clamp_w(rr[137], p.bd, 6)
            &&& rr[139] == sub_w(rr[109], rr[110])
            &&& rr[140] == clamp_w(rr[139], p.bd, 6)
            &&& rr[141] == add_w(rr[70], rr[66])
            &&& rr[142] == clamp_w(rr[141], p.bd, 6)
            &&& rr[143] == sub_w(rr[70], rr[66])
            &&& rr[144] == clamp_w(rr[143], p.bd, 6)
            &&& rr[145] == add_w(rr[112], rr[111])
            &&& rr[146] == clamp_w(rr[145], p.bd, 6)
            &&& rr[147] == sub_w(rr[112], rr[111])
            &&& rr[148] == clamp_w(rr[147], p.bd, 6)
            &&& rr[149] == add_w(rr[74], rr[78])
            &&& rr[150] == clamp_w(rr[149], p.bd, 6)
            &&& rr[151] == sub_w(rr[74], rr[78])
            &&& rr[152] == clamp_w(rr[151], p.bd, 6)
        }),
{
    reveal(IDCT32_COL_OPS);
    let ops = IDCT32_COL_OPS@;
    let r0 = input.push(0);
    lemma_run_ops_len(ops, 322, r0, p);
    reveal(add_w);
    reveal(sub_w);
    reveal(rotate_half);
    reveal(clamp_w);
    lemma_run_ops_step(ops, 322, r0, p, 80);
    lemma_run_ops_step(ops, 322, r0, p, 81);
    lemma_run_ops_step(ops, 322, r0, p, 82);
    lemma_run_ops_step(ops, 322, r0, p, 83);
    lemma_run_ops_step(ops, 322, r0, p, 84);
    lemma_run_ops_step(ops, 322, r0, p, 85);
    lemma_run_ops_step(ops, 322, r0, p, 86);
    lemma_run_ops_step(ops, 322, r0, p, 87);
    lemma_run_ops_step(ops, 322, r0, p, 88);
    lemma_run_ops_step(ops, 322, r0, p, 89);
    lemma_run_ops_step(ops, 322, r0, p, 90);
    lemma_run_ops_step(ops, 322, r0, p, 91);
    lemma_run_ops_step(ops, 322, r0, p, 92);
    lemma_run_ops_step(ops, 322, r0, p, 93);
    lemma_run_ops_step(ops, 322, r0, p, 94);
    lemma_run_ops_step(ops, 322, r0, p, 95);
    lemma_run_ops_step(ops, 322, r0, p, 96);
    lemma_run_ops_step(ops, 322, r0, p, 97);
    lemma_run_ops_step(ops, 322, r0, p, 98);
    lemma_run_ops_step(ops, 322, r0, p, 99);
    lemma_run_ops_step(ops, 322, r0, p, 100);
    lemma_run_ops_step(ops, 322, r0, p, 101);
    lemma_run_ops_step(ops, 322, r0, p, 102);
    lemma_run_ops_step(ops, 322, r0, p, 103);
    lemma_run_ops_step(ops, 322, r0, p, 104);
    lemma_run_ops_step(ops, 322, r0, p, 105);
    lemma_run_ops_step(ops, 322, r0, p, 106);
    lemma_run_ops_step(ops, 322, r0, p, 107);
    lemma_run_ops_step(ops, 322, r0, p, 108);
    lemma_run_ops_step(ops, 322, r0, p, 109);
    lemma_run_ops_step(ops, 322, r0, p, 110);
    lemma_run_ops_step(ops, 322, r0, p, 111);
    lemma_run_ops_step(ops, 322, r0, p, 112);
    lemma_run_ops_step(ops, 322, r0, p, 113);
    lemma_run_ops_step(ops, 322, r0, p, 114);
    lemma_run_ops_step(ops, 322, r0, p, 115);
    lemma_run_ops_step(ops, 322, r0, p, 116);
    lemma_run_ops_step(ops, 322, r0, p, 117);
    lemma_run_ops_step(ops, 322, r0, p, 118);
    lemma_run_ops_step(ops, 322, r0, p, 119);
}

proof fn lemma_idct32_col_regs_3(input: Seq<i32>, p: ButterflyParams)
    requires
        params_ok(p),
        input.len() == 32,
    ensures
        ({
            let rr = run_ops(IDCT32_COL_OPS@, 322, input.push(0), p);
            &&& rr[153] == add_w(rr[113], rr[114])
            &&& rr[154] == clamp_w(rr[153], p.bd, 6)
            &&& rr[155] == sub_w(rr[113], rr[114])
            &&& rr[156] == clamp_w(rr[155], p.bd, 6)
            &&& rr[157] == add_w(rr[86], rr[82])
            &&& rr[158] == clamp_w(rr[157], p.bd, 6)
            &&& rr[159] == sub_w(rr[86], rr[82])
            &&& rr[160] == clamp_w(rr[159], p.bd, 6)
            &&& rr[161] == add_w(rr[116], rr[115])
            &&& rr[162] == clamp_w(rr[161], p.bd, 6)
            &&& rr[163] == sub_w(rr[116], rr[115])
            &&& rr[164] == clamp_w(rr[163], p.bd, 6)
            &&& rr[165] == add_w(rr[117], rr[120])
            &&& rr[166] == clamp_w(rr[165], p.bd, 6)
            &&& rr[167] == sub_w(rr[117], rr[120])
            &&& rr[168] == clamp_w(rr[167], p.bd, 6)
            &&& rr[169] == add_w(rr[118], rr[119])
            &&& rr[170] == clamp_w(rr[169], p.bd, 6)
            &&& rr[171] == sub_w(rr[118], rr[119])
            &&& rr[172] == clamp_w(rr[171], p.bd, 6)
            &&& rr[173] == rotate_half(rr[124], sub_w(0, spec_cospi(p.bit, 32)), rr[128], spec_cospi(p.bit, 32), p)
            &&& rr[174] == rotate_half(rr[124], spec_cospi(p.bit, 32), rr[128], spec_cospi(p.bit, 32), p)
            &&& rr[175] == add_w(rr[94], rr[98])
            &&& rr[176] == clamp_w(rr[175], p.bd, 6)
            &&& rr[177] == sub_w(rr[94], rr[98])
            &&& rr[178] == clamp_w(rr[177], p.bd, 6)
            &&& rr[179] == add_w(rr[129], rr[130])
            &&& rr[180] == clamp_w(rr[179], p.bd, 6)
            &&& rr[181] == sub_w(rr[129], rr[130])
            &&& rr[182] == clamp_w(rr[181], p.bd, 6)
            &&& rr[183] == add_w(rr[106], rr[102])
            &&& rr[184] == clamp_w(rr[183], p.bd, 6)
            &&& rr[185] == sub_w(rr[106], rr[102])
            &&& rr[186] == clamp_w(rr[185], p.bd, 6)
            &&& rr[187] == add_w(rr[132], rr[131])
            &&& rr[188] == clamp_w(rr[187], p.bd, 6)
            &&& rr[189] == sub_w(rr[132], rr[131])
            &&& rr[190] == clamp_w(rr[189], p.bd, 6)
            &&& rr[191] == rotate_half(rr[140], sub_w(0, spec_cospi(p.bit, 16)), rr[164], spec_cospi(p.bit, 48), p)
            &&& rr[192] == rotate_half(rr[136], sub_w(0, spec_cospi(p.bit, 16)), rr[160], spec_cospi(p.bit, 48), p)
        }),
{
    reveal(IDCT32_COL_OPS);
    let ops = IDCT32_COL_OPS@;
    let r0 = input.push(0);
    lemma_run_ops_len(ops, 322, r0, p);
    reveal(add_w);
    reveal(sub_w);
    reveal(rotate_half);
    reveal(clamp_w);
    lemma_run_ops_step(ops, 322, r0, p, 120);
    lemma_run_ops_step(ops, 322, r0, p, 121);
    lemma_run_ops_step(ops, 322, r0, p, 122);
    lemma_run_ops_step(ops, 322, r0, p, 123);
    lemma_run_ops_step(ops, 322, r0, p, 124);
    lemma_run_ops_step(ops, 322, r0, p, 125);
    lemma_run_ops_step(ops, 322, r0, p, 126);
    lemma_run_ops_step(ops, 322, r0, p, 127);
    lemma_run_ops_step(ops, 322, r0, p, 128);
    lemma_run_ops_step(ops, 322, r0, p, 129);
    lemma_run_ops_step(ops, 322, r0, p, 130);
    lemma_run_ops_step(ops, 322, r0, p, 131);
    lemma_run_ops_step(ops, 322, r0, p, 132);
    lemma_run_ops_step(ops, 322, r0, p, 133);
    lemma_run_ops_step(ops, 322, r0, p, 134);
    lemma_run_ops_step(ops, 322, r0, p, 135);
    lemma_run_ops_step(ops, 322, r0, p, 136);
    lemma_run_ops_step(ops, 322, r0, p, 137);
    lemma_run_ops_step(ops, 322, r0, p, 138);
    lemma_run_ops_step(ops, 322, r0, p, 139);
    lemma_run_ops_step(ops, 322, r0, p, 140);
    lemma_run_ops_step(ops, 322, r0, p, 141);
    lemma_run_ops_step(ops, 322, r0, p, 142);
    lemma_run_ops_step(ops, 322, r0, p, 143);
    lemma_run_ops_step(ops, 322, r0, p, 144);
    lemma_run_ops_step(ops, 322, r0, p, 145);
    lemma_run_ops_step(ops, 322, r0, p, 146);
    lemma_run_ops_step(ops, 322, r0, p, 147);
    lemma_run_ops_step(ops, 322, r0, p, 148);
    lemma_run_ops_step(ops, 322, r0, p, 149);
    lemma_run_ops_step(ops, 322, r0, p, 150);
    lemma_run_ops_step(ops, 322, r0, p, 151);
    lemma_run_ops_step(ops, 322, r0, p, 152);
    lemma_run_ops_step(ops, 322, r0, p, 153);
    lemma_run_ops_step(ops, 322, r0, p, 154);
    lemma_run_ops_step(ops, 322, r0, p, 155);
    lemma_run_ops_step(ops, 322, r0, p, 156);
    lemma_run_ops_step(ops, 322, r0, p, 157);
    lemma_run_ops_step(ops, 322, r0, p, 158);
    lemma_run_ops_step(ops, 322, r0, p, 159);
}

proof fn lemma_idct32_col_regs_4(input: Seq<i32>, p: ButterflyParams)
    requires
        params_ok(p),
        input.len() == 32,
    ensures
        ({
            let rr = run_ops(IDCT32_COL_OPS@, 322, input.push(0), p);
            &&& rr[193] == rotate_half(rr[144], sub_w(0, spec_cospi(p.bit, 48)), rr[152], sub_w(0, spec_cospi(p.bit, 16)), p)
            &&& rr[194] == rotate_half(rr[148], sub_w(0, spec_cospi(p.bit, 48)), rr[156], sub_w(0, spec_cospi(p.bit, 16)), p)
            &&& rr[195] == rotate_half(rr[148], sub_w(0, spec_cospi(p.bit, 16)), rr[156], spec_cospi(p.bit, 48), p)
            &&& rr[196] == rotate_half(rr[144], sub_w(0, spec_cospi(p.bit, 16)), rr[152], spec_cospi(p.bit, 48), p)
            &&& rr[197] == rotate_half(rr[136], spec_cospi(p.bit, 48), rr[160], spec_cospi(p.bit, 16), p)
            &&& rr[198] == rotate_half(rr[140], spec_cospi(p.bit, 48), rr[164], spec_cospi(p.bit, 16), p)
            &&& rr[199] == add_w(rr[166], rr[126])
            &&& rr[200] == clamp_w(rr[199], p.bd, 6)
            &&& rr[201] == sub_w(rr[166], rr[126])
            &&& rr[202] == clamp_w(rr[201], p.bd, 6)
            &&& rr[203] == add_w(rr[170], rr[174])
            &&& rr[204] == clamp_w(rr[203], p.bd, 6)
            &&& rr[205] == sub_w(rr[170], rr[174])
            &&& rr[206] == clamp_w(rr[205], p.bd, 6)
            &&& rr[207] == add_w(rr[172], rr[173])
            &&& rr[208] == clamp_w(rr[207], p.bd, 6)
            &&& rr[209] == sub_w(rr[172], rr[173])
            &&& rr[210] == clamp_w(rr[209], p.bd, 6)
            &&& rr[211] == add_w(rr[168], rr[122])
            &&& rr[212] == clamp_w(rr[211], p.bd, 6)
            &&& rr[213] == sub_w(rr[168], rr[122])
            &&& rr[214] == clamp_w(rr[213], p.bd, 6)
            &&& rr[215] == rotate_half(rr[182], sub_w(0, spec_cospi(p.bit, 32)), rr[190], spec_cospi(p.bit, 32), p)
            &&& rr[216] == rotate_half(rr[178], sub_w(0, spec_cospi(p.bit, 32)), rr[186], spec_cospi(p.bit, 32), p)
            &&& rr[217] == rotate_half(rr[178], spec_cospi(p.bit, 32), rr[186], spec_cospi(p.bit, 32), p)
            &&& rr[218] == rotate_half(rr[182], spec_cospi(p.bit, 32), rr[190], spec_cospi(p.bit, 32), p)
            &&& rr[219] == add_w(rr[134], rr[142])
            &&& rr[220] == clamp_w(rr[219], p.bd, 6)
            &&& rr[221] == sub_w(rr[134], rr[142])
            &&& rr[222] == clamp_w(rr[221], p.bd, 6)
            &&& rr[223] == add_w(rr[138], rr[146])
            &&& rr[224] == clamp_w(rr[223], p.bd, 6)
            &&& rr[225] == sub_w(rr[138], rr[146])
            &&& rr[226] == clamp_w(rr[225], p.bd, 6)
            &&& rr[227] == add_w(rr[191], rr[194])
            &&& rr[228] == clamp_w(rr[227], p.bd, 6)
            &&& rr[229] == sub_w(rr[191], rr[194])
            &&& rr[230] == clamp_w(rr[229], p.bd, 6)
            &&& rr[231] == add_w(rr[192], rr[193])
            &&& rr[232] == clamp_w(rr[231], p.bd, 6)
        }),
{
    reveal(IDCT32_COL_OPS);
    let ops = IDCT32_COL_OPS@;
    let r0 = input.push(0);
    lemma_run_ops_len(ops, 322, r0, p);
    reveal(add_w);
    reveal(sub_w);
    reveal(rotate_half);
    reveal(clamp_w);
    lemma_run_ops_step(ops, 322, r0, p, 160);
    lemma_run_ops_step(ops, 322, r0, p, 161);
    lemma_run_ops_step(ops, 322, r0, p, 162);
    lemma_run_ops_step(ops, 322, r0, p, 163);
    lemma_run_ops_step(ops, 322, r0, p, 164);
    lemma_run_ops_step(ops, 322, r0, p, 165);
    lemma_run_ops_step(ops, 322, r0, p, 166);
    lemma_run_ops_step(ops, 322, r0, p, 167);
    lemma_run_ops_step(ops, 322, r0, p, 168);
    lemma_run_ops_step(ops, 322, r0, p, 169);
    lemma_run_ops_step(ops, 322, r0, p, 170);
    lemma_run_ops_step(ops, 322, r0, p, 171);
    lemma_run_ops_step(ops, 322, r0, p, 172);
    lemma_run_ops_step(ops, 322, r0, p, 173);
    lemma_run_ops_step(ops, 322, r0, p, 174);
    lemma_run_ops_step(ops, 322, r0, p, 175);
    lemma_run_ops_step(ops, 322, r0, p, 176);
    lemma_run_ops_step(ops, 322, r0, p, 177);
    lemma_run_ops_step(ops, 322, r0, p, 178);
    lemma_run_ops_step(ops, 322, r0, p, 179);
    lemma_run_ops_step(ops, 322, r0, p, 180);
    lemma_run_ops_step(ops, 322, r0, p, 181);
    lemma_run_ops_step(ops, 322, r0, p, 182);
    lemma_run_ops_step(ops, 322, r0, p, 183);
    lemma_run_ops_step(ops, 322, r0, p, 184);
    lemma_run_ops_step(ops, 322, r0, p, 185);
    lemma_run_ops_step(ops, 322, r0, p, 186);
    lemma_run_ops_step(ops, 322, r0, p, 187);
    lemma_run_ops_step(ops, 322, r0, p, 188);
    lemma_run_ops_step(ops, 322, r0, p, 189);
    lemma_run_ops_step(ops, 322, r0, p, 190);
    lemma_run_ops_step(ops, 322, r0, p, 191);
    lemma_run_ops_step(ops, 322, r0, p, 192);
    lemma_run_ops_step(ops, 322, r0, p, 193);
    lemma_run_ops_step(ops, 322, r0, p, 194);
    lemma_run_ops_step(ops, 322, r0, p, 195);
    lemma_run_ops_step(ops, 322, r0, p, 196);
    lemma_run_ops_step(ops, 322, r0, p, 197);
    lemma_run_ops_step(ops, 322, r0, p, 198);
    lemma_run_ops_step(ops, 322, r0, p, 199);
}

proof fn lemma_idct32_col_regs_5(input: Seq<i32>, p: ButterflyParams)
    requires
        params_ok(p),
        input.len() == 32,
    ensures
        ({
            let rr = run_ops(IDCT32_COL_OPS@, 322, input.push(0), p);
            &&& rr[233] == sub_w(rr[192], rr[193])
            &&& rr[234] == clamp_w(rr[233], p.bd, 6)
            &&& rr[235] == add_w(rr[158], rr[150])
            &&& rr[236] == clamp_w(rr[235], p.bd, 6)
            &&& rr[237] == sub_w(rr[158], rr[150])
            &&& rr[238] == clamp_w(rr[237], p.bd, 6)
            &&& rr[239] == add_w(rr[162], rr[154])
            &&& rr[240] == clamp_w(rr[239], p.bd, 6)
            &&& rr[241] == sub_w(rr[162], rr[154])
            &&& rr[242] == clamp_w(rr[241], p.bd, 6)
            &&& rr[243] == add_w(rr[198], rr[195])
            &&& rr[244] == clamp_w(rr[243], p.bd, 6)
            &&& rr[245] == sub_w(rr[198], rr[195])
            &&& rr[246] == clamp_w(rr[245], p.bd, 6)
            &&& rr[247] == add_w(rr[197], rr[196])
            &&& rr[248] == clamp_w(rr[247], p.bd, 6)
            &&& rr[249] == sub_w(rr[197], rr[196])
            &&& rr[250] == clamp_w(rr[249], p.bd, 6)
            &&& rr[251] == add_w(rr[200], rr[184])
            &&& rr[252] == clamp_w(rr[251], p.bd, 6)
            &&& rr[253] == sub_w(rr[200], rr[184])
            &&& rr[254] == clamp_w(rr[253], p.bd, 6)
            &&& rr[255] == add_w(rr[204], rr[188])
            &&& rr[256] == clamp_w(rr[255], p.bd, 6)
            &&& rr[257] == sub_w(rr[204], rr[188])
            &&& rr[258] == clamp_w(rr[257], p.bd, 6)
            &&& rr[259] == add_w(rr[208], rr[218])
            &&& rr[260] == clamp_w(rr[259], p.bd, 6)
            &&& rr[261] == sub_w(rr[208], rr[218])
            &&& rr[262] == clamp_w(rr[261], p.bd, 6)
            &&& rr[263] == add_w(rr[212], rr[217])
            &&& rr[264] == clamp_w(rr[263], p.bd, 6)
            &&& rr[265] == sub_w(rr[212], rr[217])
            &&& rr[266] == clamp_w(rr[265], p.bd, 6)
            &&& rr[267] == add_w(rr[214], rr[216])
            &&& rr[268] == clamp_w(rr[267], p.bd, 6)
            &&& rr[269] == sub_w(rr[214], rr[216])
            &&& rr[270] == clamp_w(rr[269], p.bd, 6)
            &&& rr[271] == add_w(rr[210], rr[215])
            &&& rr[272] == clamp_w(rr[271], p.bd, 6)
        }),
{
    reveal(IDCT32_COL_OPS);
    let ops = IDCT32_COL_OPS@;
    let r0 = input.push(0);
    lemma_run_ops_len(ops, 322, r0, p);
    reveal(add_w);
    reveal(sub_w);
    reveal(clamp_w);
    lemma_run_ops_step(ops, 322, r0, p, 200);
    lemma_run_ops_step(ops, 322, r0, p, 201);
    lemma_run_ops_step(ops, 322, r0, p, 202);
    lemma_run_ops_step(ops, 322, r0, p, 203);
    lemma_run_ops_step(ops, 322, r0, p, 204);
    lemma_run_ops_step(ops, 322, r0, p, 205);
    lemma_run_ops_step(ops, 322, r0, p, 206);
    lemma_run_ops_step(ops, 322, r0, p, 207);
    lemma_run_ops_step(ops, 322, r0, p, 208);
    lemma_run_ops_step(ops, 322, r0, p, 209);
    lemma_run_ops_step(ops, 322, r0, p, 210);
    lemma_run_ops_step(ops, 322, r0, p, 211);
    lemma_run_ops_step(ops, 322, r0, p, 212);
    lemma_run_ops_step(ops, 322, r0, p, 213);
    lemma_run_ops_step(ops, 322, r0, p, 214);
    lemma_run_ops_step(ops, 322, r0, p, 215);
    lemma_run_ops_step(ops, 322, r0, p, 216);
    lemma_run_ops_step(ops, 322, r0, p, 217);
    lemma_run_ops_step(ops, 322, r0, p, 218);
    lemma_run_ops_step(ops, 322, r0, p, 219);
    lemma_run_ops_step(ops, 322, r0, p, 220);
    lemma_run_ops_step(ops, 322, r0, p, 221);
    lemma_run_ops_step(ops, 322, r0, p, 222);
    lemma_run_ops_step(ops, 322, r0, p, 223);
    lemma_run_ops_step(ops, 322, r0, p, 224);
    lemma_run_ops_step(ops, 322, r0, p, 225);
    lemma_run_ops_step(ops, 322, r0, p, 226);
    lemma_run_ops_step(ops, 322, r0, p, 227);
    lemma_run_ops_step(ops, 322, r0, p, 228);
    lemma_run_ops_step(ops, 322, r0, p, 229);
    lemma_run_ops_step(ops, 322, r0, p, 230);
    lemma_run_ops_step(ops, 322, r0, p, 231);
    lemma_run_ops_step(ops, 322, r0, p, 232);
    lemma_run_ops_step(ops, 322, r0, p, 233);
    lemma_run_ops_step(ops, 322, r0, p, 234);
    lemma_run_ops_step(ops, 322, r0, p, 235);
    lemma_run_ops_step(ops, 322, r0, p, 236);
    lemma_run_ops_step(ops, 322, r0, p, 237);
    lemma_run_ops_step(ops, 322, r0, p, 238);
    lemma_run_ops_step(ops, 322, r0, p, 239);
}

proof fn lemma_idct32_col_regs_6(input: Seq<i32>, p: ButterflyParams)
    requires
        params_ok(p),
        input.len() == 32,
    ensures
        ({
            let rr = run_ops(IDCT32_COL_OPS@, 322, input.push(0), p);
            &&& rr[273] == sub_w(rr[210], rr[215])
            &&& rr[274] == clamp_w(rr[273], p.bd, 6)
            &&& rr[275] == add_w(rr[206], rr[180])
            &&& rr[276] == clamp_w(rr[275], p.bd, 6)
            &&& rr[277] == sub_w(rr[206], rr[180])
            &&& rr[278] == clamp_w(rr[277], p.bd, 6)
            &&& rr[279] == add_w(rr[202], rr[176])
            &&& rr[280] == clamp_w(rr[279], p.bd, 6)
            &&& rr[281] == sub_w(rr[202], rr[176])
            &&& rr[282] == clamp_w(rr[281], p.bd, 6)
            &&& rr[283] == rotate_half(rr[234], sub_w(0, spec_cospi(p.bit, 32)), rr[250], spec_cospi(p.bit, 32), p)
            &&& rr[284] == rotate_half(rr[230], sub_w(0, spec_cospi(p.bit, 32)), rr[246], spec_cospi(p.bit, 32), p)
            &&& rr[285] == rotate_half(rr[226], sub_w(0, spec_cospi(p.bit, 32)), rr[242], spec_cospi(p.bit, 32), p)
            &&& rr[286] == rotate_half(rr[222], sub_w(0, spec_cospi(p.bit, 32)), rr[238], spec_cospi(p.bit, 32), p)
            &&& rr[287] == rotate_half(rr[222], spec_cospi(p.bit, 32), rr[238], spec_cospi(p.bit, 32), p)
            &&& rr[288] == rotate_half(rr[226], spec_cospi(p.bit, 32), rr[242], spec_cospi(p.bit, 32), p)
            &&& rr[289] == rotate_half(rr[230], spec_cospi(p.bit, 32), rr[246], spec_cospi(p.bit, 32), p)
            &&& rr[290] == rotate_half(rr[234], spec_cospi(p.bit, 32), rr[250], spec_cospi(p.bit, 32), p)
            &&& rr[291] == add_w(rr[252], rr[236])
            &&& rr[292] == clamp_w(rr[291], p.bd, 6)
            &&& rr[293] == sub_w(rr[252], rr[236])
            &&& rr[294] == clamp_w(rr[293], p.bd, 6)
            &&& rr[295] == add_w(rr[256], rr[240])
            &&& rr[296] == clamp_w(rr[295], p.bd, 6)
            &&& rr[297] == sub_w(rr[256], rr[240])
            &&& rr[298] == clamp_w(rr[297], p.bd, 6)
            &&& rr[299] == add_w(rr[260], rr[244])
            &&& rr[300] == clamp_w(rr[299], p.bd, 6)
            &&& rr[301] == sub_w(rr[260], rr[244])
            &&& rr[302] == clamp_w(rr[301], p.bd, 6)
            &&& rr[303] == add_w(rr[264], rr[248])
            &&& rr[304] == clamp_w(rr[303], p.bd, 6)
            &&& rr[305] == sub_w(rr[264], rr[248])
            &&& rr[306] == clamp_w(rr[305], p.bd, 6)
            &&& rr[307] == add_w(rr[268], rr[290])
            &&& rr[308] == clamp_w(rr[307], p.bd, 6)
            &&& rr[309] == sub_w(rr[268], rr[290])
            &&& rr[310] == clamp_w(rr[309], p.bd, 6)
            &&& rr[311] == add_w(rr[272], rr[289])
            &&& rr[312] == clamp_w(rr[311], p.bd, 6)
        }),
{
    reveal(IDCT32_COL_OPS);
    let ops = IDCT32_COL_OPS@;
    let r0 = input.push(0);
    lemma_run_ops_len(ops, 322, r0, p);
    reveal(add_w);
    reveal(sub_w);
    reveal(rotate_half);
    reveal(clamp_w);
    lemma_run_ops_step(ops, 322, r0, p, 240);
    lemma_run_ops_step(ops, 322, r0, p, 241);
    lemma_run_ops_step(ops, 322, r0, p, 242);
    lemma_run_ops_step(ops, 322, r0, p, 243);
    lemma_run_ops_step(ops, 322, r0, p, 244);
    lemma_run_ops_step(ops, 322, r0, p, 245);
    lemma_run_ops_step(ops, 322, r0, p, 246);
    lemma_run_ops_step(ops, 322, r0, p, 247);
    lemma_run_ops_step(ops, 322, r0, p, 248);
    lemma_run_ops_step(ops, 322, r0, p, 249);
    lemma_run_ops_step(ops, 322, r0, p, 250);
    lemma_run_ops_step(ops, 322, r0, p, 251);
    lemma_run_ops_step(ops, 322, r0, p, 252);
    lemma_run_ops_step(ops, 322, r0, p, 253);
    lemma_run_ops_step(ops, 322, r0, p, 254);
    lemma_run_ops_step(ops, 322, r0, p, 255);
    lemma_run_ops_step(ops, 322, r0, p, 256);
    lemma_run_ops_step(ops, 322, r0, p, 257);
    lemma_run_ops_step(ops, 322, r0, p, 258);
    lemma_run_ops_step(ops, 322, r0, p, 259);
    lemma_run_ops_step(ops, 322, r0, p, 260);
    lemma_run_ops_step(ops, 322, r0, p, 261);
    lemma_run_ops_step(ops, 322, r0, p, 262);
    lemma_run_ops_step(ops, 322, r0, p, 263);
    lemma_run_ops_step(ops, 322, r0, p, 264);
    lemma_run_ops_step(ops, 322, r0, p, 265);
    lemma_run_ops_step(ops, 322, r0, p, 266);
    lemma_run_ops_step(ops, 322, r0, p, 267);
    lemma_run_ops_step(ops, 322, r0, p, 268);
    lemma_run_ops_step(ops, 322, r0, p, 269);
    lemma_run_ops_step(ops, 322, r0, p, 270);
    lemma_run_ops_step(ops, 322, r0, p, 271);
    lemma_run_ops_step(ops, 322, r0, p, 272);
    lemma_run_ops_step(ops, 322, r0, p, 273);
    lemma_run_ops_step(ops, 322, r0, p, 274);
    lemma_run_ops_step(ops, 322, r0, p, 275);
    lemma_run_ops_step(ops, 322, r0, p, 276);
    lemma_run_ops_step(ops, 322, r0, p, 277);
    lemma_run_ops_step(ops, 322, r0, p, 278);
    lemma_run_ops_step(ops, 322, r0, p, 279);
}

proof fn lemma_idct32_col_regs_7(input: Seq<i32>, p: ButterflyParams)
    requires
        params_ok(p),
        input.len() == 32,
    ensures
        ({
            let rr = run_ops(IDCT32_COL_OPS@, 322, input.push(0), p);
            &&& rr[313] == sub_w(rr[272], rr[289])
            &&& rr[314] == clamp_w(rr[313], p.bd, 6)
            &&& rr[315] == add_w(rr[276], rr[288])
            &&& rr[316] == clamp_w(rr[315], p.bd, 6)
            &&& rr[317] == sub_w(rr[276], rr[288])
            &&& rr[318] == clamp_w(rr[317], p.bd, 6)
            &&& rr[319] == add_w(rr[280], rr[287])
            &&& rr[320] == clamp_w(rr[319], p.bd, 6)
            &&& rr[321] == sub_w(rr[280], rr[287])
            &&& rr[322] == clamp_w(rr[321], p.bd, 6)
            &&& rr[323] == add_w(rr[282], rr[286])
            &&& rr[324] == clamp_w(rr[323], p.bd, 6)
            &&& rr[325] == sub_w(rr[282], rr[286])
            &&& rr[326] == clamp_w(rr[325], p.bd, 6)
            &&& rr[327] == add_w(rr[278], rr[285])
            &&& rr[328] == clamp_w(rr[327], p.bd, 6)
            &&& rr[329] == sub_w(rr[278], rr[285])
            &&& rr[330] == clamp_w(rr[329], p.bd, 6)
            &&& rr[331] == add_w(rr[274], rr[284])
            &&& rr[332] == clamp_w(rr[331], p.bd, 6)
            &&& rr[333] == sub_w(rr[274], rr[284])
            &&& rr[334] == clamp_w(rr[333], p.bd, 6)
            &&& rr[335] == add_w(rr[270], rr[283])
            &&& rr[336] == clamp_w(rr[335], p.bd, 6)
            &&& rr[337] == sub_w(rr[270], rr[283])
            &&& rr[338] == clamp_w(rr[337], p.bd, 6)
            &&& rr[339] == add_w(rr[266], rr[232])
            &&& rr[340] == clamp_w(rr[339], p.bd, 6)
            &&& rr[341] == sub_w(rr[266], rr[232])
            &&& rr[342] == clamp_w(rr[341], p.bd, 6)
            &&& rr[343] == add_w(rr[262], rr[228])
            &&& rr[344] == clamp_w(rr[343], p.bd, 6)
            &&& rr[345] == sub_w(rr[262], rr[228])
            &&& rr[346] == clamp_w(rr[345], p.bd, 6)
            &&& rr[347] == add_w(rr[258], rr[224])
            &&& rr[348] == clamp_w(rr[347], p.bd, 6)
            &&& rr[349] == sub_w(rr[258], rr[224])
            &&& rr[350] == clamp_w(rr[349], p.bd, 6)
            &&& rr[351] == add_w(rr[254], rr[220])
            &&& rr[352] == clamp_w(rr[351], p.bd, 6)
        }),
{
    reveal(IDCT32_COL_OPS);
    let ops = IDCT32_COL_OPS@;
    let r0 = input.push(0);
    lemma_run_ops_len(ops, 322, r0, p);
    reveal(add_w);
    reveal(sub_w);
    reveal(clamp_w);
    lemma_run_ops_step(ops, 322, r0, p, 280);
    lemma_run_ops_step(ops, 322, r0, p, 281);
    lemma_run_ops_step(ops, 322, r0, p, 282);
    lemma_run_ops_step(ops, 322, r0, p, 283);
    lemma_run_ops_step(ops, 322, r0, p, 284);
    lemma_run_ops_step(ops, 322, r0, p, 285);
    lemma_run_ops_step(ops, 322, r0, p, 286);
    lemma_run_ops_step(ops, 322, r0, p, 287);
    lemma_run_ops_step(ops, 322, r0, p, 288);
    lemma_run_ops_step(ops, 322, r0, p, 289);
    lemma_run_ops_step(ops, 322, r0, p, 290);
    lemma_run_ops_step(ops, 322, r0, p, 291);
    lemma_run_ops_step(ops, 322, r0, p, 292);
    lemma_run_ops_step(ops, 322, r0, p, 293);
    lemma_run_ops_step(ops, 322, r0, p, 294);
    lemma_run_ops_step(ops, 322, r0, p, 295);
    lemma_run_ops_step(ops, 322, r0, p, 296);
    lemma_run_ops_step(ops, 322, r0, p, 297);
    lemma_run_ops_step(ops, 322, r0, p, 298);
    lemma_run_ops_step(ops, 322, r0, p, 299);
    lemma_run_ops_step(ops, 322, r0, p, 300);
    lemma_run_ops_step(ops, 322, r0, p, 301);
    lemma_run_ops_step(ops, 322, r0, p, 302);
    lemma_run_ops_step(ops, 322, r0, p, 303);
    lemma_run_ops_step(ops, 322, r0, p, 304);
    lemma_run_ops_step(ops, 322, r0, p, 305);
    lemma_run_ops_step(ops, 322, r0, p, 306);
    lemma_run_ops_step(ops, 322, r0, p, 307);
    lemma_run_ops_step(ops, 322, r0, p, 308);
    lemma_run_ops_step(ops, 322, r0, p, 309);
    lemma_run_ops_step(ops, 322, r0, p, 310);
    lemma_run_ops_step(ops, 322, r0, p, 311);
    lemma_run_ops_step(ops, 322, r0, p, 312);
    lemma_run_ops_step(ops, 322, r0, p, 313);
    lemma_run_ops_step(ops, 322, r0, p, 314);
    lemma_run_ops_step(ops, 322, r0, p, 315);
    lemma_run_ops_step(ops, 322, r0, p, 316);
    lemma_run_ops_step(ops, 322, r0, p, 317);
    lemma_run_ops_step(ops, 322, r0, p, 318);
    lemma_run_ops_step(ops, 322, r0, p, 319);
}

proof fn lemma_idct32_col_regs_8(input: Seq<i32>, p: ButterflyParams)
    requires
        params_ok(p),
        input.len() == 32,
    ensures
        ({
            let rr = run_ops(IDCT32_COL_OPS@, 322, input.push(0), p);
            &&& rr[353] == sub_w(rr[254], rr[220])
            &&& rr[354] == clamp_w(rr[353], p.bd, 6)
        }),
{
    reveal(IDCT32_COL_OPS);
    let ops = IDCT32_COL_OPS@;
    let r0 = input.push(0);
    lemma_run_ops_len(ops, 322, r0, p);
    reveal(sub_w);
    reveal(clamp_w);
    lemma_run_ops_step(ops, 322, r0, p, 320);
    lemma_run_ops_step(ops, 322, r0, p, 321);
}

/// The column pass of the 32-point inverse DCT computes its stages.
#[verifier::rlimit(100)]
pub proof fn law_idct32_col_stages(input: Seq<i32>, p: ButterflyParams)
    requires
        params_ok(p),
        input.len() == 32,
    ensures
        kernel_output(TxfmKernel::Idct32, true, input, p) == spec_idct32_col(input, p),
{
    reveal(IDCT32_COL_OUTS);
    let ops = IDCT32_COL_OPS@;
    let r0 = input.push(0);
    lemma_run_ops_len(ops, 322, r0, p);
    let rr = run_ops(ops, 322, r0, p);
    assert forall|k: int| 0 <= k < 33 implies rr[k] == r0[k] by {
        lemma_run_ops_prefix(ops, 0, 322, r0, p, k);
    }
    lemma_idct32_col_regs_0(input, p);
    lemma_idct32_col_regs_1(input, p);
    lemma_idct32_col_regs_2(input, p);
    lemma_idct32_col_regs_3(input, p);
    lemma_idct32_col_regs_4(input, p);
    lemma_idct32_col_regs_5(input, p);
    lemma_idct32_col_regs_6(input, p);
    lemma_idct32_col_regs_7(input, p);
    lemma_idct32_col_regs_8(input, p);
    assert(kernel_output(TxfmKernel::Idct32, true, input, p) =~= spec_idct32_col(input, p));
}

proof fn lemma_idct32_row_regs_0(input: Seq<i32>, p: ButterflyParams)
    requires
        params_ok(p),
        input.len() == 32,
    ensures
        ({
            let rr = run_ops(IDCT32_ROW_OPS@, 386, input.push(0), p);
            &&& rr[33] == rotate_half(rr[1], spec_cospi(p.bit, 62), rr[31], sub_w(0, spec_cospi(p.bit, 2)), p)
            &&& rr[34] == rotate_half(rr[17], spec_cospi(p.bit, 30), rr[15], sub_w(0, spec_cospi(p.bit, 34)), p)
            &&& rr[35] == rotate_half(rr[9], spec_cospi(p.bit, 46), rr[23], sub_w(0, spec_cospi(p.bit, 18)), p)
            &&& rr[36] == rotate_half(rr[25], spec_cospi(p.bit, 14), rr[7], sub_w(0, spec_cospi(p.bit, 50)), p)
            &&& rr[37] == rotate_half(rr[5], spec_cospi(p.bit, 54), rr[27], sub_w(0, spec_cospi(p.bit, 10)), p)
            &&& rr[38] == rotate_half(rr[21], spec_cospi(p.bit, 22), rr[11], sub_w(0, spec_cospi(p.bit, 42)), p)
            &&& rr[39] == rotate_half(rr[13], spec_cospi(p.bit, 38), rr[19], sub_w(0, spec_cospi(p.bit, 26)), p)
            &&& rr[40] == rotate_half(rr[29], spec_cospi(p.bit, 6), rr[3], sub_w(0, spec_cospi(p.bit, 58)), p)
            &&& rr[41] == rotate_half(rr[29], spec_cospi(p.bit, 58), rr[3], spec_cospi(p.bit, 6), p)
            &&& rr[42] == rotate_half(rr[13], spec_cospi(p.bit, 26), rr[19], spec_cospi(p.bit, 38), p)
            &&& rr[43] == rotate_half(rr[21], spec_cospi(p.bit, 42), rr[11], spec_cospi(p.bit, 22), p)
            &&& rr[44] == rotate_half(rr[5], spec_cospi(p.bit, 10), rr[27], spec_cospi(p.bit, 54), p)
            &&& rr[45] == rotate_half(rr[25], spec_cospi(p.bit, 50), rr[7], spec_cospi(p.bit, 14), p)
            &&& rr[46] == rotate_half(rr[9], spec_cospi(p.bit, 18), rr[23], spec_cospi(p.bit, 46), p)
            &&& rr[47] == rotate_half(rr[17], spec_cospi(p.bit, 34), rr[15], spec_cospi(p.bit, 30), p)
            &&& rr[48] == rotate_half(rr[1], spec_cospi(p.bit, 2), rr[31], spec_cospi(p.bit, 62), p)
            &&& rr[49] == rotate_half(rr[2], spec_cospi(p.bit, 60), rr[30], sub_w(0, spec_cospi(p.bit, 4)), p)
            &&& rr[50] == rotate_half(rr[18], spec_cospi(p.bit, 28), rr[14], sub_w(0, spec_cospi(p.bit, 36)), p)
            &&& rr[51] == rotate_half(rr[10], spec_cospi(p.bit, 44), rr[22], sub_w(0, spec_cospi(p.bit, 20)), p)
            &&& rr[52] == rotate_half(rr[26], spec_cospi(p.bit, 12), rr[6], sub_w(0, spec_cospi(p.bit, 52)), p)
            &&& rr[53] == rotate_half(rr[26], spec_cospi(p.bit, 52), rr[6], spec_cospi(p.bit, 12), p)
            &&& rr[54] == rotate_half(rr[10], spec_cospi(p.bit, 20), rr[22], spec_cospi(p.bit, 44), p)
            &&& rr[55] == rotate_half(rr[18], spec_cospi(p.bit, 36), rr[14], spec_cospi(p.bit, 28), p)
            &&& rr[56] == rotate_half(rr[2], spec_cospi(p.bit, 4), rr[30], spec_cospi(p.bit, 60), p)
            &&& rr[57] == add_w(rr[33], rr[34])
            &&& rr[58] == clamp_w(rr[57], p.bd, 8)
            &&& rr[59] == sub_w(rr[33], rr[34])
            &&& rr[60] == clamp_w(rr[59], p.bd, 8)
            &&& rr[61] == add_w(rr[36], rr[35])
            &&& rr[62] == clamp_w(rr[61], p.bd, 8)
            &&& rr[63] == sub_w(rr[36], rr[35])
            &&& rr[64] == clamp_w(rr[63], p.bd, 8)
            &&& rr[65] == add_w(rr[37], rr[38])
            &&& rr[66] == clamp_w(rr[65], p.bd, 8)
            &&& rr[67] == sub_w(rr[37], rr[38])
            &&& rr[68] == clamp_w(rr[67], p.bd, 8)
            &&& rr[69] == add_w(rr[40], rr[39])
            &&& rr[70] == clamp_w(rr[69], p.bd, 8)
            &&& rr[71] == sub_w(rr[40], rr[39])
            &&& rr[72] == clamp_w(rr[71], p.bd, 8)
        }),
{
    reveal(IDCT32_ROW_OPS);
    let ops = IDCT32_ROW_OPS@;
    let r0 = input.push(0);
    lemma_run_ops_len(ops, 386, r0, p);
    reveal(add_w);
    reveal(sub_w);
    reveal(rotate_half);
    reveal(clamp_w);
    lemma_run_ops_step(ops, 386, r0, p, 0);
    lemma_run_ops_step(ops, 386, r0, p, 1);
    lemma_run_ops_step(ops, 386, r0, p, 2);
    lemma_run_ops_step(ops, 386, r0, p, 3);
    lemma_run_ops_step(ops, 386, r0, p, 4);
    lemma_run_ops_step(ops, 386, r0, p, 5);
    lemma_run_ops_step(ops, 386, r0, p, 6);
    lemma_run_ops_step(ops, 386, r0, p, 7);
    lemma_run_ops_step(ops, 386, r0, p, 8);
    lemma_run_ops_step(ops, 386, r0, p, 9);
    lemma_run_ops_step(ops, 386, r0, p, 10);
    lemma_run_ops_step(ops, 386, r0, p, 11);
    lemma_run_ops_step(ops, 386, r0, p, 12);
    lemma_run_ops_step(ops, 386, r0, p, 13);
    lemma_run_ops_step(ops, 386, r0, p, 14);
    lemma_run_ops_step(ops, 386, r0, p, 15);
    lemma_run_ops_step(ops, 386, r0, p, 16);
    lemma_run_ops_step(ops, 386, r0, p, 17);
    lemma_run_ops_step(ops, 386, r0, p, 18);
    lemma_run_ops_step(ops, 386, r0, p, 19);
    lemma_run_ops_step(ops, 386, r0, p, 20);
    lemma_run_ops_step(ops, 386, r0, p, 21);
    lemma_run_ops_step(ops, 386, r0, p, 22);
    lemma_run_ops_step(ops, 386, r0, p, 23);
    lemma_run_ops_step(ops, 386, r0, p, 24);
    lemma_run_ops_step(ops, 386, r0, p, 25);
    lemma_run_ops_step(ops, 386, r0, p, 26);
    lemma_run_ops_step(ops, 386, r0, p, 27);
    lemma_run_ops_step(ops, 386, r0, p, 28);
    lemma_run_ops_step(ops, 386, r0, p, 29);
    lemma_run_ops_step(ops, 386, r0, p, 30);
    lemma_run_ops_step(ops, 386, r0, p, 31);
    lemma_run_ops_step(ops, 386, r0, p, 32);
    lemma_run_ops_step(ops, 386, r0, p, 33);
    lemma_run_ops_step(ops, 386, r0, p, 34);
    lemma_run_ops_step(ops, 386, r0, p, 35);
    lemma_run_ops_step(ops, 386, r0, p, 36);
    lemma_run_ops_step(ops, 386, r0, p, 37);
    lemma_run_ops_step(ops, 386, r0, p, 38);
    lemma_run_ops_step(ops, 386, r0, p, 39);
}

proof fn lemma_idct32_row_regs_1(input: Seq<i32>, p: ButterflyParams)
    requires
        params_ok(p),
        input.len() == 32,
    ensures
        ({
            let rr = run_ops(IDCT32_ROW_OPS@, 386, input.push(0), p);
            &&& rr[73] == add_w(rr[41], rr[42])
            &&& rr[74] == clamp_w(rr[73], p.bd, 8)
            &&& rr[75] == sub_w(rr[41], rr[42])
            &&& rr[76] == clamp_w(rr[75], p.bd, 8)
            &&& rr[77] == add_w(rr[44], rr[43])
            &&& rr[78] == clamp_w(rr[77], p.bd, 8)
            &&& rr[79] == sub_w(rr[44], rr[43])
            &&& rr[80] == clamp_w(rr[79], p.bd, 8)
            &&& rr[81] == add_w(rr[45], rr[46])
            &&& rr[82] == clamp_w(rr[81], p.bd, 8)
            &&& rr[83] == sub_w(rr[45], rr[46])
            &&& rr[84] == clamp_w(rr[83], p.bd, 8)
            &&& rr[85] == add_w(rr[48], rr[47])
            &&& rr[86] == clamp_w(rr[85], p.bd, 8)
            &&& rr[87] == sub_w(rr[48], rr[47])
            &&& rr[88] == clamp_w(rr[87], p.bd, 8)
            &&& rr[89] == rotate_half(rr[4], spec_cospi(p.bit, 56), rr[28], sub_w(0, spec_cospi(p.bit, 8)), p)
            &&& rr[90] == rotate_half(rr[20], spec_cospi(p.bit, 24), rr[12], sub_w(0, spec_cospi(p.bit, 40)), p)
            &&& rr[91] == rotate_half(rr[20], spec_cospi(p.bit, 40), rr[12], spec_cospi(p.bit, 24), p)
            &&& rr[92] == rotate_half(rr[4], spec_cospi(p.bit, 8), rr[28], spec_cospi(p.bit, 56), p)
            &&& rr[93] == add_w(rr[49], rr[50])
            &&& rr[94] == clamp_w(rr[93], p.bd, 8)
            &&& rr[95] == sub_w(rr[49], rr[50])
            &&& rr[96] == clamp_w(rr[95], p.bd, 8)
            &&& rr[97] == add_w(rr[52], rr[51])
            &&& rr[98] == clamp_w(rr[97], p.bd, 8)
            &&& rr[99] == sub_w(rr[52], rr[51])
            &&& rr[100] == clamp_w(rr[99], p.bd, 8)
            &&& rr[101] == add_w(rr[53], rr[54])
            &&& rr[102] == clamp_w(rr[101], p.bd, 8)
            &&& rr[103] == sub_w(rr[53], rr[54])
            &&& rr[104] == clamp_w(rr[103], p.bd, 8)
            &&& rr[105] == add_w(rr[56], rr[55])
            &&& rr[106] == clamp_w(rr[105], p.bd, 8)
            &&& rr[107] == sub_w(rr[56], rr[55])
            &&& rr[108] == clamp_w(rr[107], p.bd, 8)
            &&& rr[109] == rotate_half(rr[60], sub_w(0, spec_cospi(p.bit, 8)), rr[88], spec_cospi(p.bit, 56), p)
            &&& rr[110] == rotate_half(rr[64], sub_w(0, spec_cospi(p.bit, 56)), rr[84], sub_w(0, spec_cospi(p.bit, 8)), p)
            &&& rr[111] == rotate_half(rr[68], sub_w(0, spec_cospi(p.bit, 40)), rr[80], spec_cospi(p.bit, 24), p)
            &&& rr[112] == rotate_half(rr[72], sub_w(0, spec_cospi(p.bit, 24)), rr[76], sub_w(0, spec_cospi(p.bit, 40)), p)
        }),
{
    reveal(IDCT32_ROW_OPS);
    let ops = IDCT32_ROW_OPS@;
    let r0 = input.push(0);
    lemma_run_ops_len(ops, 386, r0, p);
    reveal(add_w);
    reveal(sub_w);
    reveal(rotate_half);
    reveal(clamp_w);
    lemma_run_ops_step(ops, 386, r0, p, 40);
    lemma_run_ops_step(ops, 386, r0, p, 41);
    lemma_run_ops_step(ops, 386, r0, p, 42);
    lemma_run_ops_step(ops, 386, r0, p, 43);
    lemma_run_ops_step(ops, 386, r0, p, 44);
    lemma_run_ops_step(ops, 386, r0, p, 45);
    lemma_run_ops_step(ops, 386, r0, p, 46);
    lemma_run_ops_step(ops, 386, r0, p, 47);
    lemma_run_ops_step(ops, 386, r0, p, 48);
    lemma_run_ops_step(ops, 386, r0, p, 49);
    lemma_run_ops_step(ops, 386, r0, p, 50);
    lemma_run_ops_step(ops, 386, r0, p, 51);
    lemma_run_ops_step(ops, 386, r0, p, 52);
    lemma_run_ops_step(ops, 386, r0, p, 53);
    lemma_run_ops_step(ops, 386, r0, p, 54);
    lemma_run_ops_step(ops, 386, r0, p, 55);
    lemma_run_ops_step(ops, 386, r0, p, 56);
    lemma_run_ops_step(ops, 386, r0, p, 57);
    lemma_run_ops_step(ops, 386, r0, p, 58);
    lemma_run_ops_step(ops, 386, r0, p, 59);
    lemma_run_ops_step(ops, 386, r0, p, 60);
    lemma_run_ops_step(ops, 386, r0, p, 61);
    lemma_run_ops_step(ops, 386, r0, p, 62);
    lemma_run_ops_step(ops, 386, r0, p, 63);
    lemma_run_ops_step(ops, 386, r0, p, 64);
    lemma_run_ops_step(ops, 386, r0, p, 65);
    lemma_run_ops_step(ops, 386, r0, p, 66);
    lemma_run_ops_step(ops, 386, r0, p, 67);
    lemma_run_ops_step(ops, 386, r0, p, 68);
    lemma_run_ops_step(ops, 386, r0, p, 69);
    lemma_run_ops_step(ops, 386, r0, p, 70);
    lemma_run_ops_step(ops, 386, r0, p, 71);
    lemma_run_ops_step(ops, 386, r0, p, 72);
    lemma_run_ops_step(ops, 386, r0, p, 73);
    lemma_run_ops_step(ops, 386, r0, p, 74);
    lemma_run_ops_step(ops, 386, r0, p, 75);
    lemma_run_ops_step(ops, 386, r0, p, 76);
    lemma_run_ops_step(ops, 386, r0, p, 77);
    lemma_run_ops_step(ops, 386, r0, p, 78);
    lemma_run_ops_step(ops, 386, r0, p, 79);
}

proof fn lemma_idct32_row_regs_2(input: Seq<i32>, p: ButterflyParams)
    requires
        params_ok(p),
        input.len() == 32,
    ensures
        ({
            let rr = run_ops(IDCT32_ROW_OPS@, 386, input.push(0), p);
            &&& rr[113] == rotate_half(rr[72], sub_w(0, spec_cospi(p.bit, 40)), rr[76], spec_cospi(p.bit, 24), p)
            &&& rr[114] == rotate_half(rr[68], spec_cospi(p.bit, 24), rr[80], spec_cospi(p.bit, 40), p)
            &&& rr[115] == rotate_half(rr[64], sub_w(0, spec_cospi(p.bit, 8)), rr[84], spec_cospi(p.bit, 56), p)
            &&& rr[116] == rotate_half(rr[60], spec_cospi(p.bit, 56), rr[88], spec_cospi(p.bit, 8), p)
            &&& rr[117] == rotate_half(rr[0], spec_cospi(p.bit, 32), rr[16], spec_cospi(p.bit, 32), p)
            &&& rr[118] == rotate_half(rr[0], spec_cospi(p.bit, 32), rr[16], sub_w(0, spec_cospi(p.bit, 32)), p)
            &&& rr[119] == rotate_half(rr[8], spec_cospi(p.bit, 48), rr[24], sub_w(0, spec_cospi(p.bit, 16)), p)
            &&& rr[120] == rotate_half(rr[8], spec_cospi(p.bit, 16), rr[24], spec_cospi(p.bit, 48), p)
            &&& rr[121] == add_w(rr[89], rr[90])
            &&& rr[122] == clamp_w(rr[121], p.bd, 8)
            &&& rr[123] == sub_w(rr[89], rr[90])
            &&& rr[124] == clamp_w(rr[123], p.bd, 8)
            &&& rr[125] == add_w(rr[92], rr[91])
            &&& rr[126] == clamp_w(rr[125], p.bd, 8)
            &&& rr[127] == sub_w(rr[92], rr[91])
            &&& rr[128] == clamp_w(rr[127], p.bd, 8)
            &&& rr[129] == rotate_half(rr[96], sub_w(0, spec_cospi(p.bit, 16)), rr[108], spec_cospi(p.bit, 48), p)
            &&& rr[130] == rotate_half(rr[100], sub_w(0, spec_cospi(p.bit, 48)), rr[104], sub_w(0, spec_cospi(p.bit, 16)), p)
            &&& rr[131] == rotate_half(rr[100], sub_w(0, spec_cospi(p.bit, 16)), rr[104], spec_cospi(p.bit, 48), p)
            &&& rr[132] == rotate_half(rr[96], spec_cospi(p.bit, 48), rr[108], spec_cospi(p.bit, 16), p)
            &&& rr[133] == add_w(rr[58], rr[62])
            &&& rr[134] == clamp_w(rr[133], p.bd, 8)
            &&& rr[135] == sub_w(rr[58], rr[62])
            &&& rr[136] == clamp_w(rr[135], p.bd, 8)
            &&& rr[137] == add_w(rr[109], rr[110])
            &&& rr[138] == clamp_w(rr[137], p.bd, 8)
            &&& rr[139] == sub_w(rr[109], rr[110])
            &&& rr[140] == clamp_w(rr[139], p.bd, 8)
            &&& rr[141] == add_w(rr[70], rr[66])
            &&& rr[142] == clamp_w(rr[141], p.bd, 8)
            &&& rr[143] == sub_w(rr[70], rr[66])
            &&& rr[144] == clamp_w(rr[143], p.bd, 8)
            &&& rr[145] == add_w(rr[112], rr[111])
            &&& rr[146] == clamp_w(rr[145], p.bd, 8)
            &&& rr[147] == sub_w(rr[112], rr[111])
            &&& rr[148] == clamp_w(rr[147], p.bd, 8)
            &&& rr[149] == add_w(rr[74], rr[78])
            &&& rr[150] == clamp_w(rr[149], p.bd, 8)
            &&& rr[151] == sub_w(rr[74], rr[78])
            &&& rr[152] == clamp_w(rr[151], p.bd, 8)
        }),
{
    reveal(IDCT32_ROW_OPS);
    let ops = IDCT32_ROW_OPS@;
    let r0 = input.push(0);
    lemma_run_ops_len(ops, 386, r0, p);
    reveal(add_w);
    reveal(sub_w);
    reveal(rotate_half);
    reveal(clamp_w);
    lemma_run_ops_step(ops, 386, r0, p, 80);
    lemma_run_ops_step(ops, 386, r0, p, 81);
    lemma_run_ops_step(ops, 386, r0, p, 82);
    lemma_run_ops_step(ops, 386, r0, p, 83);
    lemma_run_ops_step(ops, 386, r0, p, 84);
    lemma_run_ops_step(ops, 386, r0, p, 85);
    lemma_run_ops_step(ops, 386, r0, p, 86);
    lemma_run_ops_step(ops, 386, r0, p, 87);
    lemma_run_ops_step(ops, 386, r0, p, 88);
    lemma_run_ops_step(ops, 386, r0, p, 89);
    lemma_run_ops_step(ops, 386, r0, p, 90);
    lemma_run_ops_step(ops, 386, r0, p, 91);
    lemma_run_ops_step(ops, 386, r0, p, 92);
    lemma_run_ops_step(ops, 386, r0, p, 93);
    lemma_run_ops_step(ops, 386, r0, p, 94);
    lemma_run_ops_step(ops, 386, r0, p, 95);
    lemma_run_ops_step(ops, 386, r0, p, 96);
    lemma_run_ops_step(ops, 386, r0, p, 97);
    lemma_run_ops_step(ops, 386, r0, p, 98);
    lemma_run_ops_step(ops, 386, r0, p, 99);
    lemma_run_ops_step(ops, 386, r0, p, 100);
    lemma_run_ops_step(ops, 386, r0, p, 101);
    lemma_run_ops_step(ops, 386, r0, p, 102);
    lemma_run_ops_step(ops, 386, r0, p, 103);
    lemma_run_ops_step(ops, 386, r0, p, 104);
    lemma_run_ops_step(ops, 386, r0, p, 105);
    lemma_run_ops_step(ops, 386, r0, p, 106);
    lemma_run_ops_step(ops, 386, r0, p, 107);
    lemma_run_ops_step(ops, 386, r0, p, 108);
    lemma_run_ops_step(ops, 386, r0, p, 109);
    lemma_run_ops_step(ops, 386, r0, p, 110);
    lemma_run_ops_step(ops, 386, r0, p, 111);
    lemma_run_ops_step(ops, 386, r0, p, 112);
    lemma_run_ops_step(ops, 386, r0, p, 113);
    lemma_run_ops_step(ops, 386, r0, p, 114);
    lemma_run_ops_step(ops, 386, r0, p, 115);
    lemma_run_ops_step(ops, 386, r0, p, 116);
    lemma_run_ops_step(ops, 386, r0, p, 117);
    lemma_run_ops_step(ops, 386, r0, p, 118);
    lemma_run_ops_step(ops, 386, r0, p, 119);
}

proof fn lemma_idct32_row_regs_3(input: Seq<i32>, p: ButterflyParams)
    requires
        params_ok(p),
        input.len() == 32,
    ensures
        ({
            let rr = run_ops(IDCT32_ROW_OPS@, 386, input.push(0), p);
            &&& rr[153] == add_w(rr[113], rr[114])
            &&& rr[154] == clamp_w(rr[153], p.bd, 8)
            &&& rr[155] == sub_w(rr[113], rr[114])
            &&& rr[156] == clamp_w(rr[155], p.bd, 8)
            &&& rr[157] == add_w(rr[86], rr[82])
            &&& rr[158] == clamp_w(rr[157], p.bd, 8)
            &&& rr[159] == sub_w(rr[86], rr[82])
            &&& rr[160] == clamp_w(rr[159], p.bd, 8)
            &&& rr[161] == add_w(rr[116], rr[115])
            &&& rr[162] == clamp_w(rr[161], p.bd, 8)
            &&& rr[163] == sub_w(rr[116], rr[115])
            &&& rr[164] == clamp_w(rr[163], p.bd, 8)
            &&& rr[165] == add_w(rr[117], rr[120])
            &&& rr[166] == clamp_w(rr[165], p.bd, 8)
            &&& rr[167] == sub_w(rr[117], rr[120])
            &&& rr[168] == clamp_w(rr[167], p.bd, 8)
            &&& rr[169] == add_w(rr[118], rr[119])
            &&& rr[170] == clamp_w(rr[169], p.bd, 8)
            &&& rr[171] == sub_w(rr[118], rr[119])
            &&& rr[172] == clamp_w(rr[171], p.bd, 8)
            &&& rr[173] == rotate_half(rr[124], sub_w(0, spec_cospi(p.bit, 32)), rr[128], spec_cospi(p.bit, 32), p)
            &&& rr[174] == rotate_half(rr[124], spec_cospi(p.bit, 32), rr[128], spec_cospi(p.bit, 32), p)
            &&& rr[175] == add_w(rr[94], rr[98])
            &&& rr[176] == clamp_w(rr[175], p.bd, 8)
            &&& rr[177] == sub_w(rr[94], rr[98])
            &&& rr[178] == clamp_w(rr[177], p.bd, 8)
            &&& rr[179] == add_w(rr[129], rr[130])
            &&& rr[180] == clamp_w(rr[179], p.bd, 8)
            &&& rr[181] == sub_w(rr[129], rr[130])
            &&& rr[182] == clamp_w(rr[181], p.bd, 8)
            &&& rr[183] == add_w(rr[106], rr[102])
            &&& rr[184] == clamp_w(rr[183], p.bd, 8)
            &&& rr[185] == sub_w(rr[106], rr[102])
            &&& rr[186] == clamp_w(rr[185], p.bd, 8)
            &&& rr[187] == add_w(rr[132], rr[131])
            &&& rr[188] == clamp_w(rr[187], p.bd, 8)
            &&& rr[189] == sub_w(rr[132], rr[131])
            &&& rr[190] == clamp_w(rr[189], p.bd, 8)
            &&& rr[191] == rotate_half(rr[140], sub_w(0, spec_cospi(p.bit, 16)), rr[164], spec_cospi(p.bit, 48), p)
            &&& rr[192] == rotate_half(rr[136], sub_w(0, spec_cospi(p.bit, 16)), rr[160], spec_cospi(p.bit, 48), p)
        }),
{
    reveal(IDCT32_ROW_OPS);
    let ops = IDCT32_ROW_OPS@;
    let r0 = input.push(0);
    lemma_run_ops_len(ops, 386, r0, p);
    reveal(add_w);
    reveal(sub_w);
    reveal(rotate_half);
    reveal(clamp_w);
    lemma_run_ops_step(ops, 386, r0, p, 120);
    lemma_run_ops_step(ops, 386, r0, p, 121);
    lemma_run_ops_step(ops, 386, r0, p, 122);
    lemma_run_ops_step(ops, 386, r0, p, 123);
    lemma_run_ops_step(ops, 386, r0, p, 124);
    lemma_run_ops_step(ops, 386, r0, p, 125);
    lemma_run_ops_step(ops, 386, r0, p, 126);
    lemma_run_ops_step(ops, 386, r0, p, 127);
    lemma_run_ops_step(ops, 386, r0, p, 128);
    lemma_run_ops_step(ops, 386, r0, p, 129);
    lemma_run_ops_step(ops, 386, r0, p, 130);
    lemma_run_ops_step(ops, 386, r0, p, 131);
    lemma_run_ops_step(ops, 386, r0, p, 132);
    lemma_run_ops_step(ops, 386, r0, p, 133);
    lemma_run_ops_step(ops, 386, r0, p, 134);
    lemma_run_ops_step(ops, 386, r0, p, 135);
    lemma_run_ops_step(ops, 386, r0, p, 136);
    lemma_run_ops_step(ops, 386, r0, p, 137);
    lemma_run_ops_step(ops, 386, r0, p, 138);
    lemma_run_ops_step(ops, 386, r0, p, 139);
    lemma_run_ops_step(ops, 386, r0, p, 140);
    lemma_run_ops_step(ops, 386, r0, p, 141);
    lemma_run_ops_step(ops, 386, r0, p, 142);
    lemma_run_ops_step(ops, 386, r0, p, 143);
    lemma_run_ops_step(ops, 386, r0, p, 144);
    lemma_run_ops_step(ops, 386, r0, p, 145);
    lemma_run_ops_step(ops, 386, r0, p, 146);
    lemma_run_ops_step(ops, 386, r0, p, 147);
    lemma_run_ops_step(ops, 386, r0, p, 148);
    lemma_run_ops_step(ops, 386, r0, p, 149);
    lemma_run_ops_step(ops, 386, r0, p, 150);
    lemma_run_ops_step(ops, 386, r0, p, 151);
    lemma_run_ops_step(ops, 386, r0, p, 152);
    lemma_run_ops_step(ops, 386, r0, p, 153);
    lemma_run_ops_step(ops, 386, r0, p, 154);
    lemma_run_ops_step(ops, 386, r0, p, 155);
    lemma_run_ops_step(ops, 386, r0, p, 156);
    lemma_run_ops_step(ops, 386, r0, p, 157);
    lemma_run_ops_step(ops, 386, r0, p, 158);
    lemma_run_ops_step(ops, 386, r0, p, 159);
}

proof fn lemma_idct32_row_regs_4(input: Seq<i32>, p: ButterflyParams)
    requires
        params_ok(p),
        input.len() == 32,
    ensures
        ({
            let rr = run_ops(IDCT32_ROW_OPS@, 386, input.push(0), p);
            &&& rr[193] == rotate_half(rr[144], sub_w(0, spec_cospi(p.bit, 48)), rr[152], sub_w(0, spec_cospi(p.bit, 16)), p)
            &&& rr[194] == rotate_half(rr[148], sub_w(0, spec_cospi(p.bit, 48)), rr[156], sub_w(0, spec_cospi(p.bit, 16)), p)
            &&& rr[195] == rotate_half(rr[148], sub_w(0, spec_cospi(p.bit, 16)), rr[156], spec_cospi(p.bit, 48), p)
            &&& rr[196] == rotate_half(rr[144], sub_w(0, spec_cospi(p.bit, 16)), rr[152], spec_cospi(p.bit, 48), p)
            &&& rr[197] == rotate_half(rr[136], spec_cospi(p.bit, 48), rr[160], spec_cospi(p.bit, 16), p)
            &&& rr[198] == rotate_half(rr[140], spec_cospi(p.bit, 48), rr[164], spec_cospi(p.bit, 16), p)
            &&& rr[199] == add_w(rr[166], rr[126])
            &&& rr[200] == clamp_w(rr[199], p.bd, 8)
            &&& rr[201] == sub_w(rr[166], rr[126])
            &&& rr[202] == clamp_w(rr[201], p.bd, 8)
            &&& rr[203] == add_w(rr[170], rr[174])
            &&& rr[204] == clamp_w(rr[203], p.bd, 8)
            &&& rr[205] == sub_w(rr[170], rr[174])
            &&& rr[206] == clamp_w(rr[205], p.bd, 8)
            &&& rr[207] == add_w(rr[172], rr[173])
            &&& rr[208] == clamp_w(rr[207], p.bd, 8)
            &&& rr[209] == sub_w(rr[172], rr[173])
            &&& rr[210] == clamp_w(rr[209], p.bd, 8)
            &&& rr[211] == add_w(rr[168], rr[122])
            &&& rr[212] == clamp_w(rr[211], p.bd, 8)
            &&& rr[213] == sub_w(rr[168], rr[122])
            &&& rr[214] == clamp_w(rr[213], p.bd, 8)
            &&& rr[215] == rotate_half(rr[182], sub_w(0, spec_cospi(p.bit, 32)), rr[190], spec_cospi(p.bit, 32), p)
            &&& rr[216] == rotate_half(rr[178], sub_w(0, spec_cospi(p.bit, 32)), rr[186], spec_cospi(p.bit, 32), p)
            &&& rr[217] == rotate_half(rr[178], spec_cospi(p.bit, 32), rr[186], spec_cospi(p.bit, 32), p)
            &&& rr[218] == rotate_half(rr[182], spec_cospi(p.bit, 32), rr[190], spec_cospi(p.bit, 32), p)
            &&& rr[219] == add_w(rr[134], rr[142])
            &&& rr[220] == clamp_w(rr[219], p.bd, 8)
            &&& rr[221] == sub_w(rr[134], rr[142])
            &&& rr[222] == clamp_w(rr[221], p.bd, 8)
            &&& rr[223] == add_w(rr[138], rr[146])
            &&& rr[224] == clamp_w(rr[223], p.bd, 8)
            &&& rr[225] == sub_w(rr[138], rr[146])
            &&& rr[226] == clamp_w(rr[225], p.bd, 8)
            &&& rr[227] == add_w(rr[191], rr[194])
            &&& rr[228] == clamp_w(rr[227], p.bd, 8)
            &&& rr[229] == sub_w(rr[191], rr[194])
            &&& rr[230] == clamp_w(rr[229], p.bd, 8)
            &&& rr[231] == add_w(rr[192], rr[193])
            &&& rr[232] == clamp_w(rr[231], p.bd, 8)
        }),
{
    reveal(IDCT32_ROW_OPS);
    let ops = IDCT32_ROW_OPS@;
    let r0 = input.push(0);
    lemma_run_ops_len(ops, 386, r0, p);
    reveal(add_w);
    reveal(sub_w);
    reveal(rotate_half);
    reveal(clamp_w);
    lemma_run_ops_step(ops, 386, r0, p, 160);
    lemma_run_ops_step(ops, 386, r0, p, 161);
    lemma_run_ops_step(ops, 386, r0, p, 162);
    lemma_run_ops_step(ops, 386, r0, p, 163);
    lemma_run_ops_step(ops, 386, r0, p, 164);
    lemma_run_ops_step(ops, 386, r0, p, 165);
    lemma_run_ops_step(ops, 386, r0, p, 166);
    lemma_run_ops_step(ops, 386, r0, p, 167);
    lemma_run_ops_step(ops, 386, r0, p, 168);
    lemma_run_ops_step(ops, 386, r0, p, 169);
    lemma_run_ops_step(ops, 386, r0, p, 170);
    lemma_run_ops_step(ops, 386, r0, p, 171);
    lemma_run_ops_step(ops, 386, r0, p, 172);
    lemma_run_ops_step(ops, 386, r0, p, 173);
    lemma_run_ops_step(ops, 386, r0, p, 174);
    lemma_run_ops_step(ops, 386, r0, p, 175);
    lemma_run_ops_step(ops, 386, r0, p, 176);
    lemma_run_ops_step(ops, 386, r0, p, 177);
    lemma_run_ops_step(ops, 386, r0, p, 178);
    lemma_run_ops_step(ops, 386, r0, p, 179);
    lemma_run_ops_step(ops, 386, r0, p, 180);
    lemma_run_ops_step(ops, 386, r0, p, 181);
    lemma_run_ops_step(ops, 386, r0, p, 182);
    lemma_run_ops_step(ops, 386, r0, p, 183);
    lemma_run_ops_step(ops, 386, r0, p, 184);
    lemma_run_ops_step(ops, 386, r0, p, 185);
    lemma_run_ops_step(ops, 386, r0, p, 186);
    lemma_run_ops_step(ops, 386, r0, p, 187);
    lemma_run_ops_step(ops, 386, r0, p, 188);
    lemma_run_ops_step(ops, 386, r0, p, 189);
    lemma_run_ops_step(ops, 386, r0, p, 190);
    lemma_run_ops_step(ops, 386, r0, p, 191);
    lemma_run_ops_step(ops, 386, r0, p, 192);
    lemma_run_ops_step(ops, 386, r0, p, 193);
    lemma_run_ops_step(ops, 386, r0, p, 194);
    lemma_run_ops_step(ops, 386, r0, p, 195);
    lemma_run_ops_step(ops, 386, r0, p, 196);
    lemma_run_ops_step(ops, 386, r0, p, 197);
    lemma_run_ops_step(ops, 386, r0, p, 198);
    lemma_run_ops_step(ops, 386, r0, p, 199);
}

proof fn lemma_idct32_row_regs_5(input: Seq<i32>, p: ButterflyParams)
    requires
        params_ok(p),
        input.len() == 32,
    ensures
        ({
            let rr = run_ops(IDCT32_ROW_OPS@, 386, input.push(0), p);
            &&& rr[233] == sub_w(rr[192], rr[193])
            &&& rr[234] == clamp_w(rr[233], p.bd, 8)
            &&& rr[235] == add_w(rr[158], rr[150])
            &&& rr[236] == clamp_w(rr[235], p.bd, 8)
            &&& rr[237] == sub_w(rr[158], rr[150])
            &&& rr[238] == clamp_w(rr[237], p.bd, 8)
            &&& rr[239] == add_w(rr[162], rr[154])
            &&& rr[240] == clamp_w(rr[239], p.bd, 8)
            &&& rr[241] == sub_w(rr[162], rr[154])
            &&& rr[242] == clamp_w(rr[241], p.bd, 8)
            &&& rr[243] == add_w(rr[198], rr[195])
            &&& rr[244] == clamp_w(rr[243], p.bd, 8)
            &&& rr[245] == sub_w(rr[198], rr[195])
            &&& rr[246] == clamp_w(rr[245], p.bd, 8)
            &&& rr[247] == add_w(rr[197], rr[196])
            &&& rr[248] == clamp_w(rr[247], p.bd, 8)
            &&& rr[249] == sub_w(rr[197], rr[196])
            &&& rr[250] == clamp_w(rr[249], p.bd, 8)
            &&& rr[251] == add_w(rr[200], rr[184])
            &&& rr[252] == clamp_w(rr[251], p.bd, 8)
            &&& rr[253] == sub_w(rr[200], rr[184])
            &&& rr[254] == clamp_w(rr[253], p.bd, 8)
            &&& rr[255] == add_w(rr[204], rr[188])
            &&& rr[256] == clamp_w(rr[255], p.bd, 8)
            &&& rr[257] == sub_w(rr[204], rr[188])
            &&& rr[258] == clamp_w(rr[257], p.bd, 8)
            &&& rr[259] == add_w(rr[208], rr[218])
            &&& rr[260] == clamp_w(rr[259], p.bd, 8)
            &&& rr[261] == sub_w(rr[208], rr[218])
            &&& rr[262] == clamp_w(rr[261], p.bd, 8)
            &&& rr[263] == add_w(rr[212], rr[217])
            &&& rr[264] == clamp_w(rr[263], p.bd, 8)
            &&& rr[265] == sub_w(rr[212], rr[217])
            &&& rr[266] == clamp_w(rr[265], p.bd, 8)
            &&& rr[267] == add_w(rr[214], rr[216])
            &&& rr[268] == clamp_w(rr[267], p.bd, 8)
            &&& rr[269] == sub_w(rr[214], rr[216])
            &&& rr[270] == clamp_w(rr[269], p.bd, 8)
            &&& rr[271] == add_w(rr[210], rr[215])
            &&& rr[272] == clamp_w(rr[271], p.bd, 8)
        }),
{
    reveal(IDCT32_ROW_OPS);
    let ops = IDCT32_ROW_OPS@;
    let r0 = input.push(0);
    lemma_run_ops_len(ops, 386, r0, p);
    reveal(add_w);
    reveal(sub_w);
    reveal(clamp_w);
    lemma_run_ops_step(ops, 386, r0, p, 200);
    lemma_run_ops_step(ops, 386, r0, p, 201);
    lemma_run_ops_step(ops, 386, r0, p, 202);
    lemma_run_ops_step(ops, 386, r0, p, 203);
    lemma_run_ops_step(ops, 386, r0, p, 204);
    lemma_run_ops_step(ops, 386, r0, p, 205);
    lemma_run_ops_step(ops, 386, r0, p, 206);
    lemma_run_ops_step(ops, 386, r0, p, 207);
    lemma_run_ops_step(ops, 386, r0, p, 208);
    lemma_run_ops_step(ops, 386, r0, p, 209);
    lemma_run_ops_step(ops, 386, r0, p, 210);
    lemma_run_ops_step(ops, 386, r0, p, 211);
    lemma_run_ops_step(ops, 386, r0, p, 212);
    lemma_run_ops_step(ops, 386, r0, p, 213);
    lemma_run_ops_step(ops, 386, r0, p, 214);
    lemma_run_ops_step(ops, 386, r0, p, 215);
    lemma_run_ops_step(ops, 386, r0, p, 216);
    lemma_run_ops_step(ops, 386, r0, p, 217);
    lemma_run_ops_step(ops, 386, r0, p, 218);
    lemma_run_ops_step(ops, 386, r0, p, 219);
    lemma_run_ops_step(ops, 386, r0, p, 220);
    lemma_run_ops_step(ops, 386, r0, p, 221);
    lemma_run_ops_step(ops, 386, r0, p, 222);
    lemma_run_ops_step(ops, 386, r0, p, 223);
    lemma_run_ops_step(ops, 386, r0, p, 224);
    lemma_run_ops_step(ops, 386, r0, p, 225);
    lemma_run_ops_step(ops, 386, r0, p, 226);
    lemma_run_ops_step(ops, 386, r0, p, 227);
    lemma_run_ops_step(ops, 386, r0, p, 228);
    lemma_run_ops_step(ops, 386, r0, p, 229);
    lemma_run_ops_step(ops, 386, r0, p, 230);
    lemma_run_ops_step(ops, 386, r0, p, 231);
    lemma_run_ops_step(ops, 386, r0, p, 232);
    lemma_run_ops_step(ops, 386, r0, p, 233);
    lemma_run_ops_step(ops, 386, r0, p, 234);
    lemma_run_ops_step(ops, 386, r0, p, 235);
    lemma_run_ops_step(ops, 386, r0, p, 236);
    lemma_run_ops_step(ops, 386, r0, p, 237);
    lemma_run_ops_step(ops, 386, r0, p, 238);
    lemma_run_ops_step(ops, 386, r0, p, 239);
}

proof fn lemma_idct32_row_regs_6(input: Seq<i32>, p: ButterflyParams)
    requires
        params_ok(p),
        input.len() == 32,
    ensures
        ({
            let rr = run_ops(IDCT32_ROW_OPS@, 386, input.push(0), p);
            &&& rr[273] == sub_w(rr[210], rr[215])
            &&& rr[274] == clamp_w(rr[273], p.bd, 8)
            &&& rr[275] == add_w(rr[206], rr[180])
            &&& rr[276] == clamp_w(rr[275], p.bd, 8)
            &&& rr[277] == sub_w(rr[206], rr[180])
            &&& rr[278] == clamp_w(rr[277], p.bd, 8)
            &&& rr[279] == add_w(rr[202], rr[176])
            &&& rr[280] == clamp_w(rr[279], p.bd, 8)
            &&& rr[281] == sub_w(rr[202], rr[176])
            &&& rr[282] == clamp_w(rr[281], p.bd, 8)
            &&& rr[283] == rotate_half(rr[234], sub_w(0, spec_cospi(p.bit, 32)), rr[250], spec_cospi(p.bit, 32), p)
            &&& rr[284] == rotate_half(rr[230], sub_w(0, spec_cospi(p.bit, 32)), rr[246], spec_cospi(p.bit, 32), p)
            &&& rr[285] == rotate_half(rr[226], sub_w(0, spec_cospi(p.bit, 32)), rr[242], spec_cospi(p.bit, 32), p)
            &&& rr[286] == rotate_half(rr[222], sub_w(0, spec_cospi(p.bit, 32)), rr[238], spec_cospi(p.bit, 32), p)
            &&& rr[287] == rotate_half(rr[222], spec_cospi(p.bit, 32), rr[238], spec_cospi(p.bit, 32), p)
            &&& rr[288] == rotate_half(rr[226], spec_cospi(p.bit, 32), rr[242], spec_cospi(p.bit, 32), p)
            &&& rr[289] == rotate_half(rr[230], spec_cospi(p.bit, 32), rr[246], spec_cospi(p.bit, 32), p)
            &&& rr[290] == rotate_half(rr[234], spec_cospi(p.bit, 32), rr[250], spec_cospi(p.bit, 32), p)
            &&& rr[291] == add_w(rr[252], rr[236])
            &&& rr[292] == clamp_w(rr[291], p.bd, 8)
            &&& rr[293] == sub_w(rr[252], rr[236])
            &&& rr[294] == clamp_w(rr[293], p.bd, 8)
            &&& rr[295] == add_w(rr[256], rr[240])
            &&& rr[296] == clamp_w(rr[295], p.bd, 8)
            &&& rr[297] == sub_w(rr[256], rr[240])
            &&& rr[298] == clamp_w(rr[297], p.bd, 8)
            &&& rr[299] == add_w(rr[260], rr[244])
            &&& rr[300] == clamp_w(rr[299], p.bd, 8)
            &&& rr[301] == sub_w(rr[260], rr[244])
            &&& rr[302] == clamp_w(rr[301], p.bd, 8)
            &&& rr[303] == add_w(rr[264], rr[248])
            &&& rr[304] == clamp_w(rr[303], p.bd, 8)
            &&& rr[305] == sub_w(rr[264], rr[248])
            &&& rr[306] == clamp_w(rr[305], p.bd, 8)
            &&& rr[307] == add_w(rr[268], rr[290])
            &&& rr[308] == clamp_w(rr[307], p.bd, 8)
            &&& rr[309] == sub_w(rr[268], rr[290])
            &&& rr[310] == clamp_w(rr[309], p.bd, 8)
            &&& rr[311] == add_w(rr[272], rr[289])
            &&& rr[312] == clamp_w(rr[311], p.bd, 8)
        }),
{
    reveal(IDCT32_ROW_OPS);
    let ops = IDCT32_ROW_OPS@;
    let r0 = input.push(0);
    lemma_run_ops_len(ops, 386, r0, p);
    reveal(add_w);
    reveal(sub_w);
    reveal(rotate_half);
    reveal(clamp_w);
    lemma_run_ops_step(ops, 386, r0, p, 240);
    lemma_run_ops_step(ops, 386, r0, p, 241);
    lemma_run_ops_step(ops, 386, r0, p, 242);
    lemma_run_ops_step(ops, 386, r0, p, 243);
    lemma_run_ops_step(ops, 386, r0, p, 244);
    lemma_run_ops_step(ops, 386, r0, p, 245);
    lemma_run_ops_step(ops, 386, r0, p, 246);
    lemma_run_ops_step(ops, 386, r0, p, 247);
    lemma_run_ops_step(ops, 386, r0, p, 248);
    lemma_run_ops_step(ops, 386, r0, p, 249);
    lemma_run_ops_step(ops, 386, r0, p, 250);
    lemma_run_ops_step(ops, 386, r0, p, 251);
    lemma_run_ops_step(ops, 386, r0, p, 252);
    lemma_run_ops_step(ops, 386, r0, p, 253);
    lemma_run_ops_step(ops, 386, r0, p, 254);
    lemma_run_ops_step(ops, 386, r0, p, 255);
    lemma_run_ops_step(ops, 386, r0, p, 256);
    lemma_run_ops_step(ops, 386, r0, p, 257);
    lemma_run_ops_step(ops, 386, r0, p, 258);
    lemma_run_ops_step(ops, 386, r0, p, 259);
    lemma_run_ops_step(ops, 386, r0, p, 260);
    lemma_run_ops_step(ops, 386, r0, p, 261);
    lemma_run_ops_step(ops, 386, r0, p, 262);
    lemma_run_ops_step(ops, 386, r0, p, 263);
    lemma_run_ops_step(ops, 386, r0, p, 264);
    lemma_run_ops_step(ops, 386, r0, p, 265);
    lemma_run_ops_step(ops, 386, r0, p, 266);
    lemma_run_ops_step(ops, 386, r0, p, 267);
    lemma_run_ops_step(ops, 386, r0, p, 268);
    lemma_run_ops_step(ops, 386, r0, p, 269);
    lemma_run_ops_step(ops, 386, r0, p, 270);
    lemma_run_ops_step(ops, 386, r0, p, 271);
    lemma_run_ops_step(ops, 386, r0, p, 272);
    lemma_run_ops_step(ops, 386, r0, p, 273);
    lemma_run_ops_step(ops, 386, r0, p, 274);
    lemma_run_ops_step(ops, 386, r0, p, 275);
    lemma_run_ops_step(ops, 386, r0, p, 276);
    lemma_run_ops_step(ops, 386, r0, p, 277);
    lemma_run_ops_step(ops, 386, r0, p, 278);
    lemma_run_ops_step(ops, 386, r0, p, 279);
}

proof fn lemma_idct32_row_regs_7(input: Seq<i32>, p: ButterflyParams)
    requires
        params_ok(p),
        input.len() == 32,
    ensures
        ({
            let rr = run_ops(IDCT32_ROW_OPS@, 386, input.push(0), p);
            &&& rr[313] == sub_w(rr[272], rr[289])
            &&& rr[314] == clamp_w(rr[313], p.bd, 8)
            &&& rr[315] == add_w(rr[276], rr[288])
            &&& rr[316] == clamp_w(rr[315], p.bd, 8)
            &&& rr[317] == sub_w(rr[276], rr[288])
            &&& rr[318] == clamp_w(rr[317], p.bd, 8)
            &&& rr[319] == add_w(rr[280], rr[287])
            &&& rr[320] == clamp_w(rr[319], p.bd, 8)
            &&& rr[321] == sub_w(rr[280], rr[287])
            &&& rr[322] == clamp_w(rr[321], p.bd, 8)
            &&& rr[323] == add_w(rr[282], rr[286])
            &&& rr[324] == clamp_w(rr[323], p.bd, 8)
            &&& rr[325] == sub_w(rr[282], rr[286])
            &&& rr[326] == clamp_w(rr[325], p.bd, 8)
            &&& rr[327] == add_w(rr[278], rr[285])
            &&& rr[328] == clamp_w(rr[327], p.bd, 8)
            &&& rr[329] == sub_w(rr[278], rr[285])
            &&& rr[330] == clamp_w(rr[329], p.bd, 8)
            &&& rr[331] == add_w(rr[274], rr[284])
            &&& rr[332] == clamp_w(rr[331], p.bd, 8)
            &&& rr[333] == sub_w(rr[274], rr[284])
            &&& rr[334] == clamp_w(rr[333], p.bd, 8)
            &&& rr[335] == add_w(rr[270], rr[283])
            &&& rr[336] == clamp_w(rr[335], p.bd, 8)
            &&& rr[337] == sub_w(rr[270], rr[283])
            &&& rr[338] == clamp_w(rr[337], p.bd, 8)
            &&& rr[339] == add_w(rr[266], rr[232])
            &&& rr[340] == clamp_w(rr[339], p.bd, 8)
            &&& rr[341] == sub_w(rr[266], rr[232])
            &&& rr[342] == clamp_w(rr[341], p.bd, 8)
            &&& rr[343] == add_w(rr[262], rr[228])
            &&& rr[344] == clamp_w(rr[343], p.bd, 8)
            &&& rr[345] == sub_w(rr[262], rr[228])
            &&& rr[346] == clamp_w(rr[345], p.bd, 8)
            &&& rr[347] == add_w(rr[258], rr[224])
            &&& rr[348] == clamp_w(rr[347], p.bd, 8)
            &&& rr[349] == sub_w(rr[258], rr[224])
            &&& rr[350] == clamp_w(rr[349], p.bd, 8)
            &&& rr[351] == add_w(rr[254], rr[220])
            &&& rr[352] == clamp_w(rr[351], p.bd, 8)
        }),
{
    reveal(IDCT32_ROW_OPS);
    let ops = IDCT32_ROW_OPS@;
    let r0 = input.push(0);
    lemma_run_ops_len(ops, 386, r0, p);
    reveal(add_w);
    reveal(sub_w);
    reveal(clamp_w);
    lemma_run_ops_step(ops, 386, r0, p, 280);
    lemma_run_ops_step(ops, 386, r0, p, 281);
    lemma_run_ops_step(ops, 386, r0, p, 282);
    lemma_run_ops_step(ops, 386, r0, p, 283);
    lemma_run_ops_step(ops, 386, r0, p, 284);
    lemma_run_ops_step(ops, 386, r0, p, 285);
    lemma_run_ops_step(ops, 386, r0, p, 286);
    lemma_run_ops_step(ops, 386, r0, p, 287);
    lemma_run_ops_step(ops, 386, r0, p, 288);
    lemma_run_ops_step(ops, 386, r0, p, 289);
    lemma_run_ops_step(ops, 386, r0, p, 290);
    lemma_run_ops_step(ops, 386, r0, p, 291);
    lemma_run_ops_step(ops, 386, r0, p, 292);
    lemma_run_ops_step(ops, 386, r0, p, 293);
    lemma_run_ops_step(ops, 386, r0, p, 294);
    lemma_run_ops_step(ops, 386, r0, p, 295);
    lemma_run_ops_step(ops, 386, r0, p, 296);
    lemma_run_ops_step(ops, 386, r0, p, 297);
    lemma_run_ops_step(ops, 386, r0, p, 298);
    lemma_run_ops_step(ops, 386, r0, p, 299);
    lemma_run_ops_step(ops, 386, r0, p, 300);
    lemma_run_ops_step(ops, 386, r0, p, 301);
    lemma_run_ops_step(ops, 386, r0, p, 302);
    lemma_run_ops_step(ops, 386, r0, p, 303);
    lemma_run_ops_step(ops, 386, r0, p, 304);
    lemma_run_ops_step(ops, 386, r0, p, 305);
    lemma_run_ops_step(ops, 386, r0, p, 306);
    lemma_run_ops_step(ops, 386, r0, p, 307);
    lemma_run_ops_step(ops, 386, r0, p, 308);
    lemma_run_ops_step(ops, 386, r0, p, 309);
    lemma_run_ops_step(ops, 386, r0, p, 310);
    lemma_run_ops_step(ops, 386, r0, p, 311);
    lemma_run_ops_step(ops, 386, r0, p, 312);
    lemma_run_ops_step(ops, 386, r0, p, 313);
    lemma_run_ops_step(ops, 386, r0, p, 314);
    lemma_run_ops_step(ops, 386, r0, p, 315);
    lemma_run_ops_step(ops, 386, r0, p, 316);
    lemma_run_ops_step(ops, 386, r0, p, 317);
    lemma_run_ops_step(ops, 386, r0, p, 318);
    lemma_run_ops_step(ops, 386, r0, p, 319);
}

proof fn lemma_idct32_row_regs_8(input: Seq<i32>, p: ButterflyParams)
    requires
        params_ok(p),
        input.len() == 32,
    ensures
        ({
            let rr = run_ops(IDCT32_ROW_OPS@, 386, input.push(0), p);
            &&& rr[353] == sub_w(rr[254], rr[220])
            &&& rr[354] == clamp_w(rr[353], p.bd, 8)
            &&& rr[355] == round_out(rr[292], p)
            &&& rr[356] == round_out(rr[296], p)
            &&& rr[357] == round_out(rr[300], p)
            &&& rr[358] == round_out(rr[304], p)
            &&& rr[359] == round_out(rr[308], p)
            &&& rr[360] == round_out(rr[312], p)
            &&& rr[361] == round_out(rr[316], p)
            &&& rr[362] == round_out(rr[320], p)
            &&& rr[363] == round_out(rr[324], p)
            &&& rr[364] == round_out(rr[328], p)
            &&& rr[365] == round_out(rr[332], p)
            &&& rr[366] == round_out(rr[336], p)
            &&& rr[367] == round_out(rr[340], p)
            &&& rr[368] == round_out(rr[344], p)
            &&& rr[369] == round_out(rr[348], p)
            &&& rr[370] == round_out(rr[352], p)
            &&& rr[371] == round_out(rr[354], p)
            &&& rr[372] == round_out(rr[350], p)
            &&& rr[373] == round_out(rr[346], p)
            &&& rr[374] == round_out(rr[342], p)
            &&& rr[375] == round_out(rr[338], p)
            &&& rr[376] == round_out(rr[334], p)
            &&& rr[377] == round_out(rr[330], p)
            &&& rr[378] == round_out(rr[326], p)
            &&& rr[379] == round_out(rr[322], p)
            &&& rr[380] == round_out(rr[318], p)
            &&& rr[381] == round_out(rr[314], p)
            &&& rr[382] == round_out(rr[310], p)
            &&& rr[383] == round_out(rr[306], p)
            &&& rr[384] == round_out(rr[302], p)
            &&& rr[385] == round_out(rr[298], p)
            &&& rr[386] == round_out(rr[294], p)
            &&& rr[387] == clamp_w(rr[355], p.bd, 6)
            &&& rr[388] == clamp_w(rr[356], p.bd, 6)
            &&& rr[389] == clamp_w(rr[357], p.bd, 6)
            &&& rr[390] == clamp_w(rr[358], p.bd, 6)
            &&& rr[391] == clamp_w(rr[359], p.bd, 6)
            &&& rr[392] == clamp_w(rr[360], p.bd, 6)
        }),
{
    reveal(IDCT32_ROW_OPS);
    let ops = IDCT32_ROW_OPS@;
    let r0 = input.push(0);
    lemma_run_ops_len(ops, 386, r0, p);
    reveal(sub_w);
    reveal(clamp_w);
    reveal(round_out);
    lemma_run_ops_step(ops, 386, r0, p, 320);
    lemma_run_ops_step(ops, 386, r0, p, 321);
    lemma_run_ops_step(ops, 386, r0, p, 322);
    lemma_run_ops_step(ops, 386, r0, p, 323);
    lemma_run_ops_step(ops, 386, r0, p, 324);
    lemma_run_ops_step(ops, 386, r0, p, 325);
    lemma_run_ops_step(ops, 386, r0, p, 326);
    lemma_run_ops_step(ops, 386, r0, p, 327);
    lemma_run_ops_step(ops, 386, r0, p, 328);
    lemma_run_ops_step(ops, 386, r0, p, 329);
    lemma_run_ops_step(ops, 386, r0, p, 330);
    lemma_run_ops_step(ops, 386, r0, p, 331);
    lemma_run_ops_step(ops, 386, r0, p, 332);
    lemma_run_ops_step(ops, 386, r0, p, 333);
    lemma_run_ops_step(ops, 386, r0, p, 334);
    lemma_run_ops_step(ops, 386, r0, p, 335);
    lemma_run_ops_step(ops, 386, r0, p, 336);
    lemma_run_ops_step(ops, 386, r0, p, 337);
    lemma_run_ops_step(ops, 386, r0, p, 338);
    lemma_run_ops_step(ops, 386, r0, p, 339);
    lemma_run_ops_step(ops, 386, r0, p, 340);
    lemma_run_ops_step(ops, 386, r0, p, 341);
    lemma_run_ops_step(ops, 386, r0, p, 342);
    lemma_run_ops_step(ops, 386, r0, p, 343);
    lemma_run_ops_step(ops, 386, r0, p, 344);
    lemma_run_ops_step(ops, 386, r0, p, 345);
    lemma_run_ops_step(ops, 386, r0, p, 346);
    lemma_run_ops_step(ops, 386, r0, p, 347);
    lemma_run_ops_step(ops, 386, r0, p, 348);
    lemma_run_ops_step(ops, 386, r0, p, 349);
    lemma_run_ops_step(ops, 386, r0, p, 350);
    lemma_run_ops_step(ops, 386, r0, p, 351);
    lemma_run_ops_step(ops, 386, r0, p, 352);
    lemma_run_ops_step(ops, 386, r0, p, 353);
    lemma_run_ops_step(ops, 386, r0, p, 354);
    lemma_run_ops_step(ops, 386, r0, p, 355);
    lemma_run_ops_step(ops, 386, r0, p, 356);
    lemma_run_ops_step(ops, 386, r0, p, 357);
    lemma_run_ops_step(ops, 386, r0, p, 358);
    lemma_run_ops_step(ops, 386, r0, p, 359);
}

proof fn lemma_idct32_row_regs_9(input: Seq<i32>, p: ButterflyParams)
    requires
        params_ok(p),
        input.len() == 32,
    ensures
        ({
            let rr = run_ops(IDCT32_ROW_OPS@, 386, input.push(0), p);
            &&& rr[393] == clamp_w(rr[361], p.bd, 6)
            &&& rr[394] == clamp_w(rr[362], p.bd, 6)
            &&& rr[395] == clamp_w(rr[363], p.bd, 6)
            &&& rr[396] == clamp_w(rr[364], p.bd, 6)
            &&& rr[397] == clamp_w(rr[365], p.bd, 6)
            &&& rr[398] == clamp_w(rr[366], p.bd, 6)
            &&& rr[399] == clamp_w(rr[367], p.bd, 6)
            &&& rr[400] == clamp_w(rr[368], p.bd, 6)
            &&& rr[401] == clamp_w(rr[369], p.bd, 6)
            &&& rr[402] == clamp_w(rr[370], p.bd, 6)
            &&& rr[403] == clamp_w(rr[371], p.bd, 6)
            &&& rr[404] == clamp_w(rr[372], p.bd, 6)
            &&& rr[405] == clamp_w(rr[373], p.bd, 6)
            &&& rr[406] == clamp_w(rr[374], p.bd, 6)
            &&& rr[407] == clamp_w(rr[375], p.bd, 6)
            &&& rr[408] == clamp_w(rr[376], p.bd, 6)
            &&& rr[409] == clamp_w(rr[377], p.bd, 6)
            &&& rr[410] == clamp_w(rr[378], p.bd, 6)
            &&& rr[411] == clamp_w(rr[379], p.bd, 6)
            &&& rr[412] == clamp_w(rr[380], p.bd, 6)
            &&& rr[413] == clamp_w(rr[381], p.bd, 6)
            &&& rr[414] == clamp_w(rr[382], p.bd, 6)
            &&& rr[415] == clamp_w(rr[383], p.bd, 6)
            &&& rr[416] == clamp_w(rr[384], p.bd, 6)
            &&& rr[417] == clamp_w(rr[385], p.bd, 6)
            &&& rr[418] == clamp_w(rr[386], p.bd, 6)
        }),
{
    reveal(IDCT32_ROW_OPS);
    let ops = IDCT32_ROW_OPS@;
    let r0 = input.push(0);
    lemma_run_ops_len(ops, 386, r0, p);
    reveal(clamp_w);
    lemma_run_ops_step(ops, 386, r0, p, 360);
    lemma_run_ops_step(ops, 386, r0, p, 361);
    lemma_run_ops_step(ops, 386, r0, p, 362);
    lemma_run_ops_step(ops, 386, r0, p, 363);
    lemma_run_ops_step(ops, 386, r0, p, 364);
    lemma_run_ops_step(ops, 386, r0, p, 365);
    lemma_run_ops_step(ops, 386, r0, p, 366);
    lemma_run_ops_step(ops, 386, r0, p, 367);
    lemma_run_ops_step(ops, 386, r0, p, 368);
    lemma_run_ops_step(ops, 386, r0, p, 369);
    lemma_run_ops_step(ops, 386, r0, p, 370);
    lemma_run_ops_step(ops, 386, r0, p, 371);
    lemma_run_ops_step(ops, 386, r0, p, 372);
    lemma_run_ops_step(ops, 386, r0, p, 373);
    lemma_run_ops_step(ops, 386, r0, p, 374);
    lemma_run_ops_step(ops, 386, r0, p, 375);
    lemma_run_ops_step(ops, 386, r0, p, 376);
    lemma_run_ops_step(ops, 386, r0, p, 377);
    lemma_run_ops_step(ops, 386, r0, p, 378);
    lemma_run_ops_step(ops, 386, r0, p, 379);
    lemma_run_ops_step(ops, 386, r0, p, 380);
    lemma_run_ops_step(ops, 386, r0, p, 381);
    lemma_run_ops_step(ops, 386, r0, p, 382);
    lemma_run_ops_step(ops, 386, r0, p, 383);
    lemma_run_ops_step(ops, 386, r0, p, 384);
    lemma_run_ops_step(ops, 386, r0, p, 385);
}

/// The row pass of the 32-point inverse DCT computes its stages.
#[verifier::rlimit(100)]
pub proof fn law_idct32_row_stages(input: Seq<i32>, p: ButterflyParams)
    requires
        params_ok(p),
        input.len() == 32,
    ensures
        kernel_output(TxfmKernel::Idct32, false, input, p) == spec_idct32_row(input, p),
{
    reveal(IDCT32_ROW_OUTS);
    let ops = IDCT32_ROW_OPS@;
    let r0 = input.push(0);
    lemma_run_ops_len(ops, 386, r0, p);
    let rr = run_ops(ops, 386, r0, p);
    assert forall|k: int| 0 <= k < 33 implies rr[k] == r0[k] by {
        lemma_run_ops_prefix(ops, 0, 386, r0, p, k);
    }
    lemma_idct32_row_regs_0(input, p);
    lemma_idct32_row_regs_1(input, p);
    lemma_idct32_row_regs_2(input, p);
    lemma_idct32_row_regs_3(input, p);
    lemma_idct32_row_regs_4(input, p);
    lemma_idct32_row_regs_5(input, p);
    lemma_idct32_row_regs_6(input, p);
    lemma_idct32_row_regs_7(input, p);
    lemma_idct32_row_regs_8(input, p);
    lemma_idct32_row_regs_9(input, p);
    assert(kernel_output(TxfmKernel::Idct32, false, input, p) =~= spec_idct32_row(input, p));
}

/// The 32-point inverse DCT computes its stages.
pub proof fn law_idct32_stages(input: Seq<i32>, do_cols: bool, p: ButterflyParams)
    requires
        params_ok(p),
        input.len() == 32,
    ensures
        kernel_output(TxfmKernel::Idct32, do_cols, input, p) == spec_idct32(input, do_cols, p),
{
    if do_cols {
        law_idct32_col_stages(input, p);
    } else {
        law_idct32_row_stages(input, p);
    }
}

} // verus!
