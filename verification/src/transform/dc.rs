//! Inverse transforms stated directly by their stages: the 8-point inverse
//! DCT and ADST, and the inverse DCTs of lanes whose coefficients past the
//! first are zero.

use crate::transform::butterfly::{
    lemma_run_ops_len, lemma_run_ops_prefix, lemma_run_ops_step, spec_weight, clamp_to, lemma_range_bounds, params_ok, reg, run_ops, spec_cospi, spec_out_offset,
    spec_rounding, ButterflyParams,
};
use crate::transform::inverse::{kernel_ops, kernel_output, kernel_size, TxfmKernel};
use crate::transform::programs::{
    IADST8_COL_OPS, IADST8_COL_OUTS, IADST8_ROW_OPS, IADST8_ROW_OUTS, IDCT8_COL_OPS,
    IDCT8_COL_OUTS, IDCT8_ROW_OPS, IDCT8_ROW_OUTS,
    IDCT16_LOW1_COL_OPS, IDCT16_LOW1_COL_OUTS, IDCT16_LOW1_ROW_OPS, IDCT16_LOW1_ROW_OUTS,
    IDCT32_LOW1_COL_OPS, IDCT32_LOW1_COL_OUTS, IDCT32_LOW1_ROW_OPS, IDCT32_LOW1_ROW_OUTS,
    IDCT64_LOW1_COL_OPS, IDCT64_LOW1_COL_OUTS, IDCT64_LOW1_ROW_OPS, IDCT64_LOW1_ROW_OUTS,
    IDCT8_LOW1_COL_OPS, IDCT8_LOW1_COL_OUTS, IDCT8_LOW1_ROW_OPS, IDCT8_LOW1_ROW_OUTS,
};
use vstd::prelude::*;
use vstd::wrapping::i32_specs::{wrapping_add, wrapping_mul, wrapping_sub};

verus! {

/// The inverse DCT of a lane whose coefficients past the first are zero:
/// the first coefficient times `cos(pi / 4)` at the cosine precision,
/// rounded; for the row pass also rounded down by the output shift; then
/// clamped to the range of `max(16, bd + 6)` bits. Every sample gets this
/// value.
pub open spec fn spec_idct_dc(x0: i32, do_cols: bool, p: ButterflyParams) -> i32 {
    let h = wrapping_add(wrapping_mul(x0, spec_cospi(p.bit, 32)), spec_rounding(p)) >> p.bit;
    let s = if do_cols {
        h
    } else {
        wrapping_add(h, spec_out_offset(p)) >> p.out_shift
    };
    clamp_to(s, p.bd, 6)
}

/// Whether `k` is the inverse DCT of a lane whose coefficients past the
/// first are zero.
pub open spec fn is_idct_dc_kernel(k: TxfmKernel) -> bool {
    k == TxfmKernel::Idct8Low1 || k == TxfmKernel::Idct16Low1 || k == TxfmKernel::Idct32Low1 || k
        == TxfmKernel::Idct64Low1
}

/// The inverse DCTs of a lane whose coefficients past the first are zero
/// give every sample the value `spec_idct_dc` of the first coefficient.
pub proof fn law_idct_dc_kernels(k: TxfmKernel, do_cols: bool, input: Seq<i32>, p: ButterflyParams)
    requires
        is_idct_dc_kernel(k),
        params_ok(p),
        input.len() == kernel_size(k),
    ensures
        forall|i: int|
            0 <= i < input.len() ==> #[trigger] kernel_output(k, do_cols, input, p)[i]
                == spec_idct_dc(input[0], do_cols, p),
{
    reveal(IDCT8_LOW1_COL_OPS);
    reveal(IDCT8_LOW1_COL_OUTS);
    reveal(IDCT8_LOW1_ROW_OPS);
    reveal(IDCT8_LOW1_ROW_OUTS);
    reveal(IDCT16_LOW1_COL_OPS);
    reveal(IDCT16_LOW1_COL_OUTS);
    reveal(IDCT16_LOW1_ROW_OPS);
    reveal(IDCT16_LOW1_ROW_OUTS);
    reveal(IDCT32_LOW1_COL_OPS);
    reveal(IDCT32_LOW1_COL_OUTS);
    reveal(IDCT32_LOW1_ROW_OPS);
    reveal(IDCT32_LOW1_ROW_OUTS);
    reveal(IDCT64_LOW1_COL_OPS);
    reveal(IDCT64_LOW1_COL_OUTS);
    reveal(IDCT64_LOW1_ROW_OPS);
    reveal(IDCT64_LOW1_ROW_OUTS);
    reveal_with_fuel(run_ops, 8);
    lemma_range_bounds(p.bd, 6);
    let ops = kernel_ops(k, do_cols);
    let r0 = input.push(0);
    let regs = run_ops(ops, ops.len() / 4, r0, p);
    assert forall|i: int| 0 <= i < input.len() implies #[trigger] kernel_output(
        k,
        do_cols,
        input,
        p,
    )[i] == spec_idct_dc(input[0], do_cols, p) by {
        assert(reg(r0, 0) == input[0]);
    }
}


/// `v` plus the rounding offset of the cosine precision, shifted right by
/// that precision.
pub open spec fn round_bit(v: i32, p: ButterflyParams) -> i32 {
    wrapping_add(v, spec_rounding(p)) >> p.bit
}

/// `a * w0 + b * w1`, rounded and shifted by the cosine precision: one half
/// of a rotation.
pub open spec fn half_btf(a: i32, w0: i32, b: i32, w1: i32, p: ButterflyParams) -> i32 {
    round_bit(wrapping_add(wrapping_mul(a, w0), wrapping_mul(b, w1)), p)
}

/// `v` rounded and shifted right by the output shift of a row pass, when
/// that shift is not zero.
pub open spec fn round_shift_out(v: i32, p: ButterflyParams) -> i32 {
    if p.out_shift == 0 {
        v
    } else {
        wrapping_add(v, 1i32 << ((p.out_shift - 1) as u32)) >> p.out_shift
    }
}

/// The 8-point inverse DCT, stage by stage: rotations by the cosines of
/// `pi/16`, `3pi/16`, `pi/4` and `3pi/8`, and butterflies whose sums and
/// differences are clamped to the range of `max(16, bd + 6)` bits for the
/// column pass, `max(16, bd + 8)` bits for the row pass. The row pass then
/// rounds its outputs down by the output shift and clamps them to the range
/// of `max(16, bd + 6)` bits.
pub open spec fn spec_idct8(i: Seq<i32>, do_cols: bool, p: ButterflyParams) -> Seq<i32> {
    let c = |k: int| spec_cospi(p.bit, k);
    let m = |k: int| wrapping_sub(0, spec_cospi(p.bit, k));
    let code: i32 = if do_cols {
        6
    } else {
        8
    };
    let cl = |v: i32| clamp_to(v, p.bd, code);
    // stage 2
    let u4 = half_btf(i[1], c(56), i[7], m(8), p);
    let u7 = half_btf(i[1], c(8), i[7], c(56), p);
    let u5 = half_btf(i[5], c(24), i[3], m(40), p);
    let u6 = half_btf(i[5], c(40), i[3], c(24), p);
    // stage 3
    let x = wrapping_mul(i[0], c(32));
    let y = wrapping_mul(i[4], c(32));
    let v0 = round_bit(wrapping_add(x, y), p);
    let v1 = round_bit(wrapping_sub(x, y), p);
    let v2 = half_btf(i[2], c(48), i[6], m(16), p);
    let v3 = half_btf(i[2], c(16), i[6], c(48), p);
    let v4 = cl(wrapping_add(u4, u5));
    let v5 = cl(wrapping_sub(u4, u5));
    let v7 = cl(wrapping_add(u7, u6));
    let v6 = cl(wrapping_sub(u7, u6));
    // stage 4
    let a0 = cl(wrapping_add(v0, v3));
    let a3 = cl(wrapping_sub(v0, v3));
    let a1 = cl(wrapping_add(v1, v2));
    let a2 = cl(wrapping_sub(v1, v2));
    let x2 = wrapping_mul(v5, c(32));
    let y2 = wrapping_mul(v6, c(32));
    let a6 = round_bit(wrapping_add(y2, x2), p);
    let a5 = round_bit(wrapping_sub(y2, x2), p);
    // stage 5
    let o = seq![
        cl(wrapping_add(a0, v7)),
        cl(wrapping_add(a1, a6)),
        cl(wrapping_add(a2, a5)),
        cl(wrapping_add(a3, v4)),
        cl(wrapping_sub(a3, v4)),
        cl(wrapping_sub(a2, a5)),
        cl(wrapping_sub(a1, a6)),
        cl(wrapping_sub(a0, v7)),
    ];
    if do_cols {
        o
    } else {
        o.map_values(|v: i32| clamp_to(round_shift_out(v, p), p.bd, 6))
    }
}

/// Both passes of the 8-point inverse DCT compute their stages.
#[verifier::rlimit(100)]
pub proof fn law_idct8_stages(input: Seq<i32>, do_cols: bool, p: ButterflyParams)
    requires
        params_ok(p),
        input.len() == 8,
    ensures
        kernel_output(TxfmKernel::Idct8, do_cols, input, p) == spec_idct8(input, do_cols, p),
{
    reveal(IDCT8_COL_OPS);
    reveal(IDCT8_COL_OUTS);
    reveal(IDCT8_ROW_OPS);
    reveal(IDCT8_ROW_OUTS);
    let r0 = input.push(0);
    if do_cols {
        let ops = IDCT8_COL_OPS@;
        assert(ops.len() == 312);
        lemma_run_ops_len(ops, 78, r0, p);
        let rr = run_ops(ops, 78, r0, p);
        assert forall|k: int| 0 <= k < 8 implies rr[k] == input[k] by {
            lemma_run_ops_prefix(ops, 0, 78, r0, p, k);
        }
        assert(rr[9] == wrapping_mul(rr[1], spec_weight(p.bit, 56))) by {
            lemma_run_ops_step(ops, 78, r0, p, 0);
        }
        assert(rr[10] == wrapping_mul(rr[7], spec_weight(p.bit, 72))) by {
            lemma_run_ops_step(ops, 78, r0, p, 1);
        }
        assert(rr[11] == wrapping_add(rr[9], rr[10])) by {
            lemma_run_ops_step(ops, 78, r0, p, 2);
        }
        assert(rr[12] == wrapping_add(rr[11], spec_rounding(p))) by {
            lemma_run_ops_step(ops, 78, r0, p, 3);
        }
        assert(rr[13] == rr[12] >> p.bit) by {
            lemma_run_ops_step(ops, 78, r0, p, 4);
        }
        assert(rr[14] == wrapping_mul(rr[1], spec_weight(p.bit, 8))) by {
            lemma_run_ops_step(ops, 78, r0, p, 5);
        }
        assert(rr[15] == wrapping_mul(rr[7], spec_weight(p.bit, 56))) by {
            lemma_run_ops_step(ops, 78, r0, p, 6);
        }
        assert(rr[16] == wrapping_add(rr[14], rr[15])) by {
            lemma_run_ops_step(ops, 78, r0, p, 7);
        }
        assert(rr[17] == wrapping_add(rr[16], spec_rounding(p))) by {
            lemma_run_ops_step(ops, 78, r0, p, 8);
        }
        assert(rr[18] == rr[17] >> p.bit) by {
            lemma_run_ops_step(ops, 78, r0, p, 9);
        }
        assert(rr[19] == wrapping_mul(rr[5], spec_weight(p.bit, 24))) by {
            lemma_run_ops_step(ops, 78, r0, p, 10);
        }
        assert(rr[20] == wrapping_mul(rr[3], spec_weight(p.bit, 104))) by {
            lemma_run_ops_step(ops, 78, r0, p, 11);
        }
        assert(rr[21] == wrapping_add(rr[19], rr[20])) by {
            lemma_run_ops_step(ops, 78, r0, p, 12);
        }
        assert(rr[22] == wrapping_add(rr[21], spec_rounding(p))) by {
            lemma_run_ops_step(ops, 78, r0, p, 13);
        }
        assert(rr[23] == rr[22] >> p.bit) by {
            lemma_run_ops_step(ops, 78, r0, p, 14);
        }
        assert(rr[24] == wrapping_mul(rr[5], spec_weight(p.bit, 40))) by {
            lemma_run_ops_step(ops, 78, r0, p, 15);
        }
        assert(rr[25] == wrapping_mul(rr[3], spec_weight(p.bit, 24))) by {
            lemma_run_ops_step(ops, 78, r0, p, 16);
        }
        assert(rr[26] == wrapping_add(rr[24], rr[25])) by {
            lemma_run_ops_step(ops, 78, r0, p, 17);
        }
        assert(rr[27] == wrapping_add(rr[26], spec_rounding(p))) by {
            lemma_run_ops_step(ops, 78, r0, p, 18);
        }
        assert(rr[28] == rr[27] >> p.bit) by {
            lemma_run_ops_step(ops, 78, r0, p, 19);
        }
        assert(rr[29] == wrapping_mul(rr[0], spec_weight(p.bit, 32))) by {
            lemma_run_ops_step(ops, 78, r0, p, 20);
        }
        assert(rr[30] == wrapping_mul(rr[4], spec_weight(p.bit, 32))) by {
            lemma_run_ops_step(ops, 78, r0, p, 21);
        }
        assert(rr[31] == wrapping_add(rr[29], rr[30])) by {
            lemma_run_ops_step(ops, 78, r0, p, 22);
        }
        assert(rr[32] == wrapping_add(rr[31], spec_rounding(p))) by {
            lemma_run_ops_step(ops, 78, r0, p, 23);
        }
        assert(rr[33] == rr[32] >> p.bit) by {
            lemma_run_ops_step(ops, 78, r0, p, 24);
        }
        assert(rr[34] == wrapping_sub(rr[29], rr[30])) by {
            lemma_run_ops_step(ops, 78, r0, p, 25);
        }
        assert(rr[35] == wrapping_add(rr[34], spec_rounding(p))) by {
            lemma_run_ops_step(ops, 78, r0, p, 26);
        }
        assert(rr[36] == rr[35] >> p.bit) by {
            lemma_run_ops_step(ops, 78, r0, p, 27);
        }
        assert(rr[37] == wrapping_mul(rr[2], spec_weight(p.bit, 48))) by {
            lemma_run_ops_step(ops, 78, r0, p, 28);
        }
        assert(rr[38] == wrapping_mul(rr[6], spec_weight(p.bit, 80))) by {
            lemma_run_ops_step(ops, 78, r0, p, 29);
        }
        assert(rr[39] == wrapping_add(rr[37], rr[38])) by {
            lemma_run_ops_step(ops, 78, r0, p, 30);
        }
        assert(rr[40] == wrapping_add(rr[39], spec_rounding(p))) by {
            lemma_run_ops_step(ops, 78, r0, p, 31);
        }
        assert(rr[41] == rr[40] >> p.bit) by {
            lemma_run_ops_step(ops, 78, r0, p, 32);
        }
        assert(rr[42] == wrapping_mul(rr[2], spec_weight(p.bit, 16))) by {
            lemma_run_ops_step(ops, 78, r0, p, 33);
        }
        assert(rr[43] == wrapping_mul(rr[6], spec_weight(p.bit, 48))) by {
            lemma_run_ops_step(ops, 78, r0, p, 34);
        }
        assert(rr[44] == wrapping_add(rr[42], rr[43])) by {
            lemma_run_ops_step(ops, 78, r0, p, 35);
        }
        assert(rr[45] == wrapping_add(rr[44], spec_rounding(p))) by {
            lemma_run_ops_step(ops, 78, r0, p, 36);
        }
        assert(rr[46] == rr[45] >> p.bit) by {
            lemma_run_ops_step(ops, 78, r0, p, 37);
        }
        assert(rr[47] == wrapping_add(rr[13], rr[23])) by {
            lemma_run_ops_step(ops, 78, r0, p, 38);
        }
        assert(rr[48] == clamp_to(rr[47], p.bd, 6)) by {
            lemma_run_ops_step(ops, 78, r0, p, 39);
        }
        assert(rr[49] == wrapping_sub(rr[13], rr[23])) by {
            lemma_run_ops_step(ops, 78, r0, p, 40);
        }
        assert(rr[50] == clamp_to(rr[49], p.bd, 6)) by {
            lemma_run_ops_step(ops, 78, r0, p, 41);
        }
        assert(rr[51] == wrapping_add(rr[18], rr[28])) by {
            lemma_run_ops_step(ops, 78, r0, p, 42);
        }
        assert(rr[52] == clamp_to(rr[51], p.bd, 6)) by {
            lemma_run_ops_step(ops, 78, r0, p, 43);
        }
        assert(rr[53] == wrapping_sub(rr[18], rr[28])) by {
            lemma_run_ops_step(ops, 78, r0, p, 44);
        }
        assert(rr[54] == clamp_to(rr[53], p.bd, 6)) by {
            lemma_run_ops_step(ops, 78, r0, p, 45);
        }
        assert(rr[55] == wrapping_add(rr[33], rr[46])) by {
            lemma_run_ops_step(ops, 78, r0, p, 46);
        }
        assert(rr[56] == clamp_to(rr[55], p.bd, 6)) by {
            lemma_run_ops_step(ops, 78, r0, p, 47);
        }
        assert(rr[57] == wrapping_sub(rr[33], rr[46])) by {
            lemma_run_ops_step(ops, 78, r0, p, 48);
        }
        assert(rr[58] == clamp_to(rr[57], p.bd, 6)) by {
            lemma_run_ops_step(ops, 78, r0, p, 49);
        }
        assert(rr[59] == wrapping_add(rr[36], rr[41])) by {
            lemma_run_ops_step(ops, 78, r0, p, 50);
        }
        assert(rr[60] == clamp_to(rr[59], p.bd, 6)) by {
            lemma_run_ops_step(ops, 78, r0, p, 51);
        }
        assert(rr[61] == wrapping_sub(rr[36], rr[41])) by {
            lemma_run_ops_step(ops, 78, r0, p, 52);
        }
        assert(rr[62] == clamp_to(rr[61], p.bd, 6)) by {
            lemma_run_ops_step(ops, 78, r0, p, 53);
        }
        assert(rr[63] == wrapping_mul(rr[50], spec_weight(p.bit, 32))) by {
            lemma_run_ops_step(ops, 78, r0, p, 54);
        }
        assert(rr[64] == wrapping_mul(rr[54], spec_weight(p.bit, 32))) by {
            lemma_run_ops_step(ops, 78, r0, p, 55);
        }
        assert(rr[65] == wrapping_add(rr[64], rr[63])) by {
            lemma_run_ops_step(ops, 78, r0, p, 56);
        }
        assert(rr[66] == wrapping_add(rr[65], spec_rounding(p))) by {
            lemma_run_ops_step(ops, 78, r0, p, 57);
        }
        assert(rr[67] == rr[66] >> p.bit) by {
            lemma_run_ops_step(ops, 78, r0, p, 58);
        }
        assert(rr[68] == wrapping_sub(rr[64], rr[63])) by {
            lemma_run_ops_step(ops, 78, r0, p, 59);
        }
        assert(rr[69] == wrapping_add(rr[68], spec_rounding(p))) by {
            lemma_run_ops_step(ops, 78, r0, p, 60);
        }
        assert(rr[70] == rr[69] >> p.bit) by {
            lemma_run_ops_step(ops, 78, r0, p, 61);
        }
        assert(rr[71] == wrapping_add(rr[56], rr[52])) by {
            lemma_run_ops_step(ops, 78, r0, p, 62);
        }
        assert(rr[72] == clamp_to(rr[71], p.bd, 6)) by {
            lemma_run_ops_step(ops, 78, r0, p, 63);
        }
        assert(rr[73] == wrapping_sub(rr[56], rr[52])) by {
            lemma_run_ops_step(ops, 78, r0, p, 64);
        }
        assert(rr[74] == clamp_to(rr[73], p.bd, 6)) by {
            lemma_run_ops_step(ops, 78, r0, p, 65);
        }
        assert(rr[75] == wrapping_add(rr[60], rr[67])) by {
            lemma_run_ops_step(ops, 78, r0, p, 66);
        }
        assert(rr[76] == clamp_to(rr[75], p.bd, 6)) by {
            lemma_run_ops_step(ops, 78, r0, p, 67);
        }
        assert(rr[77] == wrapping_sub(rr[60], rr[67])) by {
            lemma_run_ops_step(ops, 78, r0, p, 68);
        }
        assert(rr[78] == clamp_to(rr[77], p.bd, 6)) by {
            lemma_run_ops_step(ops, 78, r0, p, 69);
        }
        assert(rr[79] == wrapping_add(rr[62], rr[70])) by {
            lemma_run_ops_step(ops, 78, r0, p, 70);
        }
        assert(rr[80] == clamp_to(rr[79], p.bd, 6)) by {
            lemma_run_ops_step(ops, 78, r0, p, 71);
        }
        assert(rr[81] == wrapping_sub(rr[62], rr[70])) by {
            lemma_run_ops_step(ops, 78, r0, p, 72);
        }
        assert(rr[82] == clamp_to(rr[81], p.bd, 6)) by {
            lemma_run_ops_step(ops, 78, r0, p, 73);
        }
        assert(rr[83] == wrapping_add(rr[58], rr[48])) by {
            lemma_run_ops_step(ops, 78, r0, p, 74);
        }
        assert(rr[84] == clamp_to(rr[83], p.bd, 6)) by {
            lemma_run_ops_step(ops, 78, r0, p, 75);
        }
        assert(rr[85] == wrapping_sub(rr[58], rr[48])) by {
            lemma_run_ops_step(ops, 78, r0, p, 76);
        }
        assert(rr[86] == clamp_to(rr[85], p.bd, 6)) by {
            lemma_run_ops_step(ops, 78, r0, p, 77);
        }
        assert(kernel_output(TxfmKernel::Idct8, do_cols, input, p) =~= spec_idct8(input, do_cols, p));
    } else {
        let ops = IDCT8_ROW_OPS@;
        assert(ops.len() == 376);
        lemma_run_ops_len(ops, 94, r0, p);
        let rr = run_ops(ops, 94, r0, p);
        assert forall|k: int| 0 <= k < 8 implies rr[k] == input[k] by {
            lemma_run_ops_prefix(ops, 0, 94, r0, p, k);
        }
        assert(rr[9] == wrapping_mul(rr[1], spec_weight(p.bit, 56))) by {
            lemma_run_ops_step(ops, 94, r0, p, 0);
        }
        assert(rr[10] == wrapping_mul(rr[7], spec_weight(p.bit, 72))) by {
            lemma_run_ops_step(ops, 94, r0, p, 1);
        }
        assert(rr[11] == wrapping_add(rr[9], rr[10])) by {
            lemma_run_ops_step(ops, 94, r0, p, 2);
        }
        assert(rr[12] == wrapping_add(rr[11], spec_rounding(p))) by {
            lemma_run_ops_step(ops, 94, r0, p, 3);
        }
        assert(rr[13] == rr[12] >> p.bit) by {
            lemma_run_ops_step(ops, 94, r0, p, 4);
        }
        assert(rr[14] == wrapping_mul(rr[1], spec_weight(p.bit, 8))) by {
            lemma_run_ops_step(ops, 94, r0, p, 5);
        }
        assert(rr[15] == wrapping_mul(rr[7], spec_weight(p.bit, 56))) by {
            lemma_run_ops_step(ops, 94, r0, p, 6);
        }
        assert(rr[16] == wrapping_add(rr[14], rr[15])) by {
            lemma_run_ops_step(ops, 94, r0, p, 7);
        }
        assert(rr[17] == wrapping_add(rr[16], spec_rounding(p))) by {
            lemma_run_ops_step(ops, 94, r0, p, 8);
        }
        assert(rr[18] == rr[17] >> p.bit) by {
            lemma_run_ops_step(ops, 94, r0, p, 9);
        }
        assert(rr[19] == wrapping_mul(rr[5], spec_weight(p.bit, 24))) by {
            lemma_run_ops_step(ops, 94, r0, p, 10);
        }
        assert(rr[20] == wrapping_mul(rr[3], spec_weight(p.bit, 104))) by {
            lemma_run_ops_step(ops, 94, r0, p, 11);
        }
        assert(rr[21] == wrapping_add(rr[19], rr[20])) by {
            lemma_run_ops_step(ops, 94, r0, p, 12);
        }
        assert(rr[22] == wrapping_add(rr[21], spec_rounding(p))) by {
            lemma_run_ops_step(ops, 94, r0, p, 13);
        }
        assert(rr[23] == rr[22] >> p.bit) by {
            lemma_run_ops_step(ops, 94, r0, p, 14);
        }
        assert(rr[24] == wrapping_mul(rr[5], spec_weight(p.bit, 40))) by {
            lemma_run_ops_step(ops, 94, r0, p, 15);
        }
        assert(rr[25] == wrapping_mul(rr[3], spec_weight(p.bit, 24))) by {
            lemma_run_ops_step(ops, 94, r0, p, 16);
        }
        assert(rr[26] == wrapping_add(rr[24], rr[25])) by {
            lemma_run_ops_step(ops, 94, r0, p, 17);
        }
        assert(rr[27] == wrapping_add(rr[26], spec_rounding(p))) by {
            lemma_run_ops_step(ops, 94, r0, p, 18);
        }
        assert(rr[28] == rr[27] >> p.bit) by {
            lemma_run_ops_step(ops, 94, r0, p, 19);
        }
        assert(rr[29] == wrapping_mul(rr[0], spec_weight(p.bit, 32))) by {
            lemma_run_ops_step(ops, 94, r0, p, 20);
        }
        assert(rr[30] == wrapping_mul(rr[4], spec_weight(p.bit, 32))) by {
            lemma_run_ops_step(ops, 94, r0, p, 21);
        }
        assert(rr[31] == wrapping_add(rr[29], rr[30])) by {
            lemma_run_ops_step(ops, 94, r0, p, 22);
        }
        assert(rr[32] == wrapping_add(rr[31], spec_rounding(p))) by {
            lemma_run_ops_step(ops, 94, r0, p, 23);
        }
        assert(rr[33] == rr[32] >> p.bit) by {
            lemma_run_ops_step(ops, 94, r0, p, 24);
        }
        assert(rr[34] == wrapping_sub(rr[29], rr[30])) by {
            lemma_run_ops_step(ops, 94, r0, p, 25);
        }
        assert(rr[35] == wrapping_add(rr[34], spec_rounding(p))) by {
            lemma_run_ops_step(ops, 94, r0, p, 26);
        }
        assert(rr[36] == rr[35] >> p.bit) by {
            lemma_run_ops_step(ops, 94, r0, p, 27);
        }
        assert(rr[37] == wrapping_mul(rr[2], spec_weight(p.bit, 48))) by {
            lemma_run_ops_step(ops, 94, r0, p, 28);
        }
        assert(rr[38] == wrapping_mul(rr[6], spec_weight(p.bit, 80))) by {
            lemma_run_ops_step(ops, 94, r0, p, 29);
        }
        assert(rr[39] == wrapping_add(rr[37], rr[38])) by {
            lemma_run_ops_step(ops, 94, r0, p, 30);
        }
        assert(rr[40] == wrapping_add(rr[39], spec_rounding(p))) by {
            lemma_run_ops_step(ops, 94, r0, p, 31);
        }
        assert(rr[41] == rr[40] >> p.bit) by {
            lemma_run_ops_step(ops, 94, r0, p, 32);
        }
        assert(rr[42] == wrapping_mul(rr[2], spec_weight(p.bit, 16))) by {
            lemma_run_ops_step(ops, 94, r0, p, 33);
        }
        assert(rr[43] == wrapping_mul(rr[6], spec_weight(p.bit, 48))) by {
            lemma_run_ops_step(ops, 94, r0, p, 34);
        }
        assert(rr[44] == wrapping_add(rr[42], rr[43])) by {
            lemma_run_ops_step(ops, 94, r0, p, 35);
        }
        assert(rr[45] == wrapping_add(rr[44], spec_rounding(p))) by {
            lemma_run_ops_step(ops, 94, r0, p, 36);
        }
        assert(rr[46] == rr[45] >> p.bit) by {
            lemma_run_ops_step(ops, 94, r0, p, 37);
        }
        assert(rr[47] == wrapping_add(rr[13], rr[23])) by {
            lemma_run_ops_step(ops, 94, r0, p, 38);
        }
        assert(rr[48] == clamp_to(rr[47], p.bd, 8)) by {
            lemma_run_ops_step(ops, 94, r0, p, 39);
        }
        assert(rr[49] == wrapping_sub(rr[13], rr[23])) by {
            lemma_run_ops_step(ops, 94, r0, p, 40);
        }
        assert(rr[50] == clamp_to(rr[49], p.bd, 8)) by {
            lemma_run_ops_step(ops, 94, r0, p, 41);
        }
        assert(rr[51] == wrapping_add(rr[18], rr[28])) by {
            lemma_run_ops_step(ops, 94, r0, p, 42);
        }
        assert(rr[52] == clamp_to(rr[51], p.bd, 8)) by {
            lemma_run_ops_step(ops, 94, r0, p, 43);
        }
        assert(rr[53] == wrapping_sub(rr[18], rr[28])) by {
            lemma_run_ops_step(ops, 94, r0, p, 44);
        }
        assert(rr[54] == clamp_to(rr[53], p.bd, 8)) by {
            lemma_run_ops_step(ops, 94, r0, p, 45);
        }
        assert(rr[55] == wrapping_add(rr[33], rr[46])) by {
            lemma_run_ops_step(ops, 94, r0, p, 46);
        }
        assert(rr[56] == clamp_to(rr[55], p.bd, 8)) by {
            lemma_run_ops_step(ops, 94, r0, p, 47);
        }
        assert(rr[57] == wrapping_sub(rr[33], rr[46])) by {
            lemma_run_ops_step(ops, 94, r0, p, 48);
        }
        assert(rr[58] == clamp_to(rr[57], p.bd, 8)) by {
            lemma_run_ops_step(ops, 94, r0, p, 49);
        }
        assert(rr[59] == wrapping_add(rr[36], rr[41])) by {
            lemma_run_ops_step(ops, 94, r0, p, 50);
        }
        assert(rr[60] == clamp_to(rr[59], p.bd, 8)) by {
            lemma_run_ops_step(ops, 94, r0, p, 51);
        }
        assert(rr[61] == wrapping_sub(rr[36], rr[41])) by {
            lemma_run_ops_step(ops, 94, r0, p, 52);
        }
        assert(rr[62] == clamp_to(rr[61], p.bd, 8)) by {
            lemma_run_ops_step(ops, 94, r0, p, 53);
        }
        assert(rr[63] == wrapping_mul(rr[50], spec_weight(p.bit, 32))) by {
            lemma_run_ops_step(ops, 94, r0, p, 54);
        }
        assert(rr[64] == wrapping_mul(rr[54], spec_weight(p.bit, 32))) by {
            lemma_run_ops_step(ops, 94, r0, p, 55);
        }
        assert(rr[65] == wrapping_add(rr[64], rr[63])) by {
            lemma_run_ops_step(ops, 94, r0, p, 56);
        }
        assert(rr[66] == wrapping_add(rr[65], spec_rounding(p))) by {
            lemma_run_ops_step(ops, 94, r0, p, 57);
        }
        assert(rr[67] == rr[66] >> p.bit) by {
            lemma_run_ops_step(ops, 94, r0, p, 58);
        }
        assert(rr[68] == wrapping_sub(rr[64], rr[63])) by {
            lemma_run_ops_step(ops, 94, r0, p, 59);
        }
        assert(rr[69] == wrapping_add(rr[68], spec_rounding(p))) by {
            lemma_run_ops_step(ops, 94, r0, p, 60);
        }
        assert(rr[70] == rr[69] >> p.bit) by {
            lemma_run_ops_step(ops, 94, r0, p, 61);
        }
        assert(rr[71] == wrapping_add(rr[56], rr[52])) by {
            lemma_run_ops_step(ops, 94, r0, p, 62);
        }
        assert(rr[72] == clamp_to(rr[71], p.bd, 8)) by {
            lemma_run_ops_step(ops, 94, r0, p, 63);
        }
        assert(rr[73] == wrapping_sub(rr[56], rr[52])) by {
            lemma_run_ops_step(ops, 94, r0, p, 64);
        }
        assert(rr[74] == clamp_to(rr[73], p.bd, 8)) by {
            lemma_run_ops_step(ops, 94, r0, p, 65);
        }
        assert(rr[75] == wrapping_add(rr[60], rr[67])) by {
            lemma_run_ops_step(ops, 94, r0, p, 66);
        }
        assert(rr[76] == clamp_to(rr[75], p.bd, 8)) by {
            lemma_run_ops_step(ops, 94, r0, p, 67);
        }
        assert(rr[77] == wrapping_sub(rr[60], rr[67])) by {
            lemma_run_ops_step(ops, 94, r0, p, 68);
        }
        assert(rr[78] == clamp_to(rr[77], p.bd, 8)) by {
            lemma_run_ops_step(ops, 94, r0, p, 69);
        }
        assert(rr[79] == wrapping_add(rr[62], rr[70])) by {
            lemma_run_ops_step(ops, 94, r0, p, 70);
        }
        assert(rr[80] == clamp_to(rr[79], p.bd, 8)) by {
            lemma_run_ops_step(ops, 94, r0, p, 71);
        }
        assert(rr[81] == wrapping_sub(rr[62], rr[70])) by {
            lemma_run_ops_step(ops, 94, r0, p, 72);
        }
        assert(rr[82] == clamp_to(rr[81], p.bd, 8)) by {
            lemma_run_ops_step(ops, 94, r0, p, 73);
        }
        assert(rr[83] == wrapping_add(rr[58], rr[48])) by {
            lemma_run_ops_step(ops, 94, r0, p, 74);
        }
        assert(rr[84] == clamp_to(rr[83], p.bd, 8)) by {
            lemma_run_ops_step(ops, 94, r0, p, 75);
        }
        assert(rr[85] == wrapping_sub(rr[58], rr[48])) by {
            lemma_run_ops_step(ops, 94, r0, p, 76);
        }
        assert(rr[86] == clamp_to(rr[85], p.bd, 8)) by {
            lemma_run_ops_step(ops, 94, r0, p, 77);
        }
        assert(rr[87] == round_shift_out(rr[72], p)) by {
            lemma_run_ops_step(ops, 94, r0, p, 78);
        }
        assert(rr[88] == round_shift_out(rr[76], p)) by {
            lemma_run_ops_step(ops, 94, r0, p, 79);
        }
        assert(rr[89] == round_shift_out(rr[80], p)) by {
            lemma_run_ops_step(ops, 94, r0, p, 80);
        }
        assert(rr[90] == round_shift_out(rr[84], p)) by {
            lemma_run_ops_step(ops, 94, r0, p, 81);
        }
        assert(rr[91] == round_shift_out(rr[86], p)) by {
            lemma_run_ops_step(ops, 94, r0, p, 82);
        }
        assert(rr[92] == round_shift_out(rr[82], p)) by {
            lemma_run_ops_step(ops, 94, r0, p, 83);
        }
        assert(rr[93] == round_shift_out(rr[78], p)) by {
            lemma_run_ops_step(ops, 94, r0, p, 84);
        }
        assert(rr[94] == round_shift_out(rr[74], p)) by {
            lemma_run_ops_step(ops, 94, r0, p, 85);
        }
        assert(rr[95] == clamp_to(rr[87], p.bd, 6)) by {
            lemma_run_ops_step(ops, 94, r0, p, 86);
        }
        assert(rr[96] == clamp_to(rr[88], p.bd, 6)) by {
            lemma_run_ops_step(ops, 94, r0, p, 87);
        }
        assert(rr[97] == clamp_to(rr[89], p.bd, 6)) by {
            lemma_run_ops_step(ops, 94, r0, p, 88);
        }
        assert(rr[98] == clamp_to(rr[90], p.bd, 6)) by {
            lemma_run_ops_step(ops, 94, r0, p, 89);
        }
        assert(rr[99] == clamp_to(rr[91], p.bd, 6)) by {
            lemma_run_ops_step(ops, 94, r0, p, 90);
        }
        assert(rr[100] == clamp_to(rr[92], p.bd, 6)) by {
            lemma_run_ops_step(ops, 94, r0, p, 91);
        }
        assert(rr[101] == clamp_to(rr[93], p.bd, 6)) by {
            lemma_run_ops_step(ops, 94, r0, p, 92);
        }
        assert(rr[102] == clamp_to(rr[94], p.bd, 6)) by {
            lemma_run_ops_step(ops, 94, r0, p, 93);
        }
        assert(kernel_output(TxfmKernel::Idct8, do_cols, input, p) =~= spec_idct8(input, do_cols, p));
    }
}


/// `a * w0 - b * w1`, rounded and shifted by the cosine precision.
pub open spec fn half_btf_sub(a: i32, w0: i32, b: i32, w1: i32, p: ButterflyParams) -> i32 {
    round_bit(wrapping_sub(wrapping_mul(a, w0), wrapping_mul(b, w1)), p)
}

/// The 8-point inverse ADST, stage by stage: four rotations of the input
/// pairs (7, 0), (5, 2), (3, 4) and (1, 6), butterflies clamped to the range
/// of `max(16, bd + 6)` bits for the column pass, `max(16, bd + 8)` bits for
/// the row pass, rotations by `3pi/8` and `pi/4`, and the output with every
/// other sample negated. The row pass rounds its outputs down by the output
/// shift (the negated ones from the offset down) and clamps them to the
/// range of `max(16, bd + 6)` bits.
pub open spec fn spec_iadst8(i: Seq<i32>, do_cols: bool, p: ButterflyParams) -> Seq<i32> {
    let c = |k: int| spec_cospi(p.bit, k);
    let m = |k: int| wrapping_sub(0, spec_cospi(p.bit, k));
    let code: i32 = if do_cols {
        6
    } else {
        8
    };
    let cl = |v: i32| clamp_to(v, p.bd, code);
    // stage 2
    let u0 = half_btf(i[7], c(4), i[0], c(60), p);
    let u1 = half_btf_sub(i[7], c(60), i[0], c(4), p);
    let u2 = half_btf(i[5], c(20), i[2], c(44), p);
    let u3 = half_btf_sub(i[5], c(44), i[2], c(20), p);
    let u4 = half_btf(i[3], c(36), i[4], c(28), p);
    let u5 = half_btf_sub(i[3], c(28), i[4], c(36), p);
    let u6 = half_btf(i[1], c(52), i[6], c(12), p);
    let u7 = half_btf_sub(i[1], c(12), i[6], c(52), p);
    // stage 3
    let v0 = cl(wrapping_add(u0, u4));
    let v4 = cl(wrapping_sub(u0, u4));
    let v1 = cl(wrapping_add(u1, u5));
    let v5 = cl(wrapping_sub(u1, u5));
    let v2 = cl(wrapping_add(u2, u6));
    let v6 = cl(wrapping_sub(u2, u6));
    let v3 = cl(wrapping_add(u3, u7));
    let v7 = cl(wrapping_sub(u3, u7));
    // stage 4
    let w4 = half_btf(v4, c(16), v5, c(48), p);
    let w5 = half_btf_sub(v4, c(48), v5, c(16), p);
    let w6 = half_btf(v6, m(48), v7, c(16), p);
    let w7 = half_btf_sub(v6, c(16), v7, m(48), p);
    // stage 5
    let x0 = cl(wrapping_add(v0, v2));
    let x2 = cl(wrapping_sub(v0, v2));
    let x1 = cl(wrapping_add(v1, v3));
    let x3 = cl(wrapping_sub(v1, v3));
    let x4 = cl(wrapping_add(w4, w6));
    let x6 = cl(wrapping_sub(w4, w6));
    let x5 = cl(wrapping_add(w5, w7));
    let x7 = cl(wrapping_sub(w5, w7));
    // stage 6
    let y2 = half_btf(x2, c(32), x3, c(32), p);
    let y3 = half_btf_sub(x2, c(32), x3, c(32), p);
    let y6 = half_btf(x6, c(32), x7, c(32), p);
    let y7 = half_btf_sub(x6, c(32), x7, c(32), p);
    // stage 7
    if do_cols {
        seq![
            x0,
            wrapping_sub(0, x4),
            y6,
            wrapping_sub(0, y2),
            y3,
            wrapping_sub(0, y7),
            x5,
            wrapping_sub(0, x1),
        ]
    } else {
        let pos = |v: i32| clamp_to(wrapping_add(v, spec_out_offset(p)) >> p.out_shift, p.bd, 6);
        let neg = |v: i32| clamp_to(wrapping_sub(spec_out_offset(p), v) >> p.out_shift, p.bd, 6);
        seq![pos(x0), neg(x4), pos(y6), neg(y2), pos(y3), neg(y7), pos(x5), neg(x1)]
    }
}

/// Both passes of the 8-point inverse ADST compute their stages.
#[verifier::rlimit(100)]
pub proof fn law_iadst8_stages(input: Seq<i32>, do_cols: bool, p: ButterflyParams)
    requires
        params_ok(p),
        input.len() == 8,
    ensures
        kernel_output(TxfmKernel::Iadst8, do_cols, input, p) == spec_iadst8(input, do_cols, p),
{
    reveal(IADST8_COL_OPS);
    reveal(IADST8_COL_OUTS);
    reveal(IADST8_ROW_OPS);
    reveal(IADST8_ROW_OUTS);
    let r0 = input.push(0);
    if do_cols {
        let ops = IADST8_COL_OPS@;
        lemma_run_ops_len(ops, 112, r0, p);
        let rr = run_ops(ops, 112, r0, p);
        assert forall|k: int| 0 <= k < 9 implies rr[k] == r0[k] by {
            lemma_run_ops_prefix(ops, 0, 112, r0, p, k);
        }
        assert(rr[9] == wrapping_mul(rr[7], spec_weight(p.bit, 4))) by {
            lemma_run_ops_step(ops, 112, r0, p, 0);
        }
        assert(rr[10] == wrapping_mul(rr[0], spec_weight(p.bit, 60))) by {
            lemma_run_ops_step(ops, 112, r0, p, 1);
        }
        assert(rr[11] == wrapping_add(rr[9], rr[10])) by {
            lemma_run_ops_step(ops, 112, r0, p, 2);
        }
        assert(rr[12] == wrapping_add(rr[11], spec_rounding(p))) by {
            lemma_run_ops_step(ops, 112, r0, p, 3);
        }
        assert(rr[13] == rr[12] >> p.bit) by {
            lemma_run_ops_step(ops, 112, r0, p, 4);
        }
        assert(rr[14] == wrapping_mul(rr[7], spec_weight(p.bit, 60))) by {
            lemma_run_ops_step(ops, 112, r0, p, 5);
        }
        assert(rr[15] == wrapping_mul(rr[0], spec_weight(p.bit, 4))) by {
            lemma_run_ops_step(ops, 112, r0, p, 6);
        }
        assert(rr[16] == wrapping_sub(rr[14], rr[15])) by {
            lemma_run_ops_step(ops, 112, r0, p, 7);
        }
        assert(rr[17] == wrapping_add(rr[16], spec_rounding(p))) by {
            lemma_run_ops_step(ops, 112, r0, p, 8);
        }
        assert(rr[18] == rr[17] >> p.bit) by {
            lemma_run_ops_step(ops, 112, r0, p, 9);
        }
        assert(rr[19] == wrapping_mul(rr[5], spec_weight(p.bit, 20))) by {
            lemma_run_ops_step(ops, 112, r0, p, 10);
        }
        assert(rr[20] == wrapping_mul(rr[2], spec_weight(p.bit, 44))) by {
            lemma_run_ops_step(ops, 112, r0, p, 11);
        }
        assert(rr[21] == wrapping_add(rr[19], rr[20])) by {
            lemma_run_ops_step(ops, 112, r0, p, 12);
        }
        assert(rr[22] == wrapping_add(rr[21], spec_rounding(p))) by {
            lemma_run_ops_step(ops, 112, r0, p, 13);
        }
        assert(rr[23] == rr[22] >> p.bit) by {
            lemma_run_ops_step(ops, 112, r0, p, 14);
        }
        assert(rr[24] == wrapping_mul(rr[5], spec_weight(p.bit, 44))) by {
            lemma_run_ops_step(ops, 112, r0, p, 15);
        }
        assert(rr[25] == wrapping_mul(rr[2], spec_weight(p.bit, 20))) by {
            lemma_run_ops_step(ops, 112, r0, p, 16);
        }
        assert(rr[26] == wrapping_sub(rr[24], rr[25])) by {
            lemma_run_ops_step(ops, 112, r0, p, 17);
        }
        assert(rr[27] == wrapping_add(rr[26], spec_rounding(p))) by {
            lemma_run_ops_step(ops, 112, r0, p, 18);
        }
        assert(rr[28] == rr[27] >> p.bit) by {
            lemma_run_ops_step(ops, 112, r0, p, 19);
        }
        assert(rr[29] == wrapping_mul(rr[3], spec_weight(p.bit, 36))) by {
            lemma_run_ops_step(ops, 112, r0, p, 20);
        }
        assert(rr[30] == wrapping_mul(rr[4], spec_weight(p.bit, 28))) by {
            lemma_run_ops_step(ops, 112, r0, p, 21);
        }
        assert(rr[31] == wrapping_add(rr[29], rr[30])) by {
            lemma_run_ops_step(ops, 112, r0, p, 22);
        }
        assert(rr[32] == wrapping_add(rr[31], spec_rounding(p))) by {
            lemma_run_ops_step(ops, 112, r0, p, 23);
        }
        assert(rr[33] == rr[32] >> p.bit) by {
            lemma_run_ops_step(ops, 112, r0, p, 24);
        }
        assert(rr[34] == wrapping_mul(rr[3], spec_weight(p.bit, 28))) by {
            lemma_run_ops_step(ops, 112, r0, p, 25);
        }
        assert(rr[35] == wrapping_mul(rr[4], spec_weight(p.bit, 36))) by {
            lemma_run_ops_step(ops, 112, r0, p, 26);
        }
        assert(rr[36] == wrapping_sub(rr[34], rr[35])) by {
            lemma_run_ops_step(ops, 112, r0, p, 27);
        }
        assert(rr[37] == wrapping_add(rr[36], spec_rounding(p))) by {
            lemma_run_ops_step(ops, 112, r0, p, 28);
        }
        assert(rr[38] == rr[37] >> p.bit) by {
            lemma_run_ops_step(ops, 112, r0, p, 29);
        }
        assert(rr[39] == wrapping_mul(rr[1], spec_weight(p.bit, 52))) by {
            lemma_run_ops_step(ops, 112, r0, p, 30);
        }
        assert(rr[40] == wrapping_mul(rr[6], spec_weight(p.bit, 12))) by {
            lemma_run_ops_step(ops, 112, r0, p, 31);
        }
        assert(rr[41] == wrapping_add(rr[39], rr[40])) by {
            lemma_run_ops_step(ops, 112, r0, p, 32);
        }
        assert(rr[42] == wrapping_add(rr[41], spec_rounding(p))) by {
            lemma_run_ops_step(ops, 112, r0, p, 33);
        }
        assert(rr[43] == rr[42] >> p.bit) by {
            lemma_run_ops_step(ops, 112, r0, p, 34);
        }
        assert(rr[44] == wrapping_mul(rr[1], spec_weight(p.bit, 12))) by {
            lemma_run_ops_step(ops, 112, r0, p, 35);
        }
        assert(rr[45] == wrapping_mul(rr[6], spec_weight(p.bit, 52))) by {
            lemma_run_ops_step(ops, 112, r0, p, 36);
        }
        assert(rr[46] == wrapping_sub(rr[44], rr[45])) by {
            lemma_run_ops_step(ops, 112, r0, p, 37);
        }
        assert(rr[47] == wrapping_add(rr[46], spec_rounding(p))) by {
            lemma_run_ops_step(ops, 112, r0, p, 38);
        }
        assert(rr[48] == rr[47] >> p.bit) by {
            lemma_run_ops_step(ops, 112, r0, p, 39);
        }
        assert(rr[49] == wrapping_add(rr[13], rr[33])) by {
            lemma_run_ops_step(ops, 112, r0, p, 40);
        }
        assert(rr[50] == clamp_to(rr[49], p.bd, 6)) by {
            lemma_run_ops_step(ops, 112, r0, p, 41);
        }
        assert(rr[51] == wrapping_sub(rr[13], rr[33])) by {
            lemma_run_ops_step(ops, 112, r0, p, 42);
        }
        assert(rr[52] == clamp_to(rr[51], p.bd, 6)) by {
            lemma_run_ops_step(ops, 112, r0, p, 43);
        }
        assert(rr[53] == wrapping_add(rr[18], rr[38])) by {
            lemma_run_ops_step(ops, 112, r0, p, 44);
        }
        assert(rr[54] == clamp_to(rr[53], p.bd, 6)) by {
            lemma_run_ops_step(ops, 112, r0, p, 45);
        }
        assert(rr[55] == wrapping_sub(rr[18], rr[38])) by {
            lemma_run_ops_step(ops, 112, r0, p, 46);
        }
        assert(rr[56] == clamp_to(rr[55], p.bd, 6)) by {
            lemma_run_ops_step(ops, 112, r0, p, 47);
        }
        assert(rr[57] == wrapping_add(rr[23], rr[43])) by {
            lemma_run_ops_step(ops, 112, r0, p, 48);
        }
        assert(rr[58] == clamp_to(rr[57], p.bd, 6)) by {
            lemma_run_ops_step(ops, 112, r0, p, 49);
        }
        assert(rr[59] == wrapping_sub(rr[23], rr[43])) by {
            lemma_run_ops_step(ops, 112, r0, p, 50);
        }
        assert(rr[60] == clamp_to(rr[59], p.bd, 6)) by {
            lemma_run_ops_step(ops, 112, r0, p, 51);
        }
        assert(rr[61] == wrapping_add(rr[28], rr[48])) by {
            lemma_run_ops_step(ops, 112, r0, p, 52);
        }
        assert(rr[62] == clamp_to(rr[61], p.bd, 6)) by {
            lemma_run_ops_step(ops, 112, r0, p, 53);
        }
        assert(rr[63] == wrapping_sub(rr[28], rr[48])) by {
            lemma_run_ops_step(ops, 112, r0, p, 54);
        }
        assert(rr[64] == clamp_to(rr[63], p.bd, 6)) by {
            lemma_run_ops_step(ops, 112, r0, p, 55);
        }
        assert(rr[65] == wrapping_mul(rr[52], spec_weight(p.bit, 16))) by {
            lemma_run_ops_step(ops, 112, r0, p, 56);
        }
        assert(rr[66] == wrapping_mul(rr[56], spec_weight(p.bit, 48))) by {
            lemma_run_ops_step(ops, 112, r0, p, 57);
        }
        assert(rr[67] == wrapping_add(rr[65], rr[66])) by {
            lemma_run_ops_step(ops, 112, r0, p, 58);
        }
        assert(rr[68] == wrapping_add(rr[67], spec_rounding(p))) by {
            lemma_run_ops_step(ops, 112, r0, p, 59);
        }
        assert(rr[69] == rr[68] >> p.bit) by {
            lemma_run_ops_step(ops, 112, r0, p, 60);
        }
        assert(rr[70] == wrapping_mul(rr[52], spec_weight(p.bit, 48))) by {
            lemma_run_ops_step(ops, 112, r0, p, 61);
        }
        assert(rr[71] == wrapping_mul(rr[56], spec_weight(p.bit, 16))) by {
            lemma_run_ops_step(ops, 112, r0, p, 62);
        }
        assert(rr[72] == wrapping_sub(rr[70], rr[71])) by {
            lemma_run_ops_step(ops, 112, r0, p, 63);
        }
        assert(rr[73] == wrapping_add(rr[72], spec_rounding(p))) by {
            lemma_run_ops_step(ops, 112, r0, p, 64);
        }
        assert(rr[74] == rr[73] >> p.bit) by {
            lemma_run_ops_step(ops, 112, r0, p, 65);
        }
        assert(rr[75] == wrapping_mul(rr[60], spec_weight(p.bit, 112))) by {
            lemma_run_ops_step(ops, 112, r0, p, 66);
        }
        assert(rr[76] == wrapping_mul(rr[64], spec_weight(p.bit, 16))) by {
            lemma_run_ops_step(ops, 112, r0, p, 67);
        }
        assert(rr[77] == wrapping_add(rr[75], rr[76])) by {
            lemma_run_ops_step(ops, 112, r0, p, 68);
        }
        assert(rr[78] == wrapping_add(rr[77], spec_rounding(p))) by {
            lemma_run_ops_step(ops, 112, r0, p, 69);
        }
        assert(rr[79] == rr[78] >> p.bit) by {
            lemma_run_ops_step(ops, 112, r0, p, 70);
        }
        assert(rr[80] == wrapping_mul(rr[60], spec_weight(p.bit, 16))) by {
            lemma_run_ops_step(ops, 112, r0, p, 71);
        }
        assert(rr[81] == wrapping_mul(rr[64], spec_weight(p.bit, 112))) by {
            lemma_run_ops_step(ops, 112, r0, p, 72);
        }
        assert(rr[82] == wrapping_sub(rr[80], rr[81])) by {
            lemma_run_ops_step(ops, 112, r0, p, 73);
        }
        assert(rr[83] == wrapping_add(rr[82], spec_rounding(p))) by {
            lemma_run_ops_step(ops, 112, r0, p, 74);
        }
        assert(rr[84] == rr[83] >> p.bit) by {
            lemma_run_ops_step(ops, 112, r0, p, 75);
        }
        assert(rr[85] == wrapping_add(rr[50], rr[58])) by {
            lemma_run_ops_step(ops, 112, r0, p, 76);
        }
        assert(rr[86] == clamp_to(rr[85], p.bd, 6)) by {
            lemma_run_ops_step(ops, 112, r0, p, 77);
        }
        assert(rr[87] == wrapping_sub(rr[50], rr[58])) by {
            lemma_run_ops_step(ops, 112, r0, p, 78);
        }
        assert(rr[88] == clamp_to(rr[87], p.bd, 6)) by {
            lemma_run_ops_step(ops, 112, r0, p, 79);
        }
        assert(rr[89] == wrapping_add(rr[54], rr[62])) by {
            lemma_run_ops_step(ops, 112, r0, p, 80);
        }
        assert(rr[90] == clamp_to(rr[89], p.bd, 6)) by {
            lemma_run_ops_step(ops, 112, r0, p, 81);
        }
        assert(rr[91] == wrapping_sub(rr[54], rr[62])) by {
            lemma_run_ops_step(ops, 112, r0, p, 82);
        }
        assert(rr[92] == clamp_to(rr[91], p.bd, 6)) by {
            lemma_run_ops_step(ops, 112, r0, p, 83);
        }
        assert(rr[93] == wrapping_add(rr[69], rr[79])) by {
            lemma_run_ops_step(ops, 112, r0, p, 84);
        }
        assert(rr[94] == clamp_to(rr[93], p.bd, 6)) by {
            lemma_run_ops_step(ops, 112, r0, p, 85);
        }
        assert(rr[95] == wrapping_sub(rr[69], rr[79])) by {
            lemma_run_ops_step(ops, 112, r0, p, 86);
        }
        assert(rr[96] == clamp_to(rr[95], p.bd, 6)) by {
            lemma_run_ops_step(ops, 112, r0, p, 87);
        }
        assert(rr[97] == wrapping_add(rr[74], rr[84])) by {
            lemma_run_ops_step(ops, 112, r0, p, 88);
        }
        assert(rr[98] == clamp_to(rr[97], p.bd, 6)) by {
            lemma_run_ops_step(ops, 112, r0, p, 89);
        }
        assert(rr[99] == wrapping_sub(rr[74], rr[84])) by {
            lemma_run_ops_step(ops, 112, r0, p, 90);
        }
        assert(rr[100] == clamp_to(rr[99], p.bd, 6)) by {
            lemma_run_ops_step(ops, 112, r0, p, 91);
        }
        assert(rr[101] == wrapping_mul(rr[88], spec_weight(p.bit, 32))) by {
            lemma_run_ops_step(ops, 112, r0, p, 92);
        }
        assert(rr[102] == wrapping_mul(rr[92], spec_weight(p.bit, 32))) by {
            lemma_run_ops_step(ops, 112, r0, p, 93);
        }
        assert(rr[103] == wrapping_add(rr[101], rr[102])) by {
            lemma_run_ops_step(ops, 112, r0, p, 94);
        }
        assert(rr[104] == wrapping_add(rr[103], spec_rounding(p))) by {
            lemma_run_ops_step(ops, 112, r0, p, 95);
        }
        assert(rr[105] == rr[104] >> p.bit) by {
            lemma_run_ops_step(ops, 112, r0, p, 96);
        }
        assert(rr[106] == wrapping_sub(rr[101], rr[102])) by {
            lemma_run_ops_step(ops, 112, r0, p, 97);
        }
        assert(rr[107] == wrapping_add(rr[106], spec_rounding(p))) by {
            lemma_run_ops_step(ops, 112, r0, p, 98);
        }
        assert(rr[108] == rr[107] >> p.bit) by {
            lemma_run_ops_step(ops, 112, r0, p, 99);
        }
        assert(rr[109] == wrapping_mul(rr[96], spec_weight(p.bit, 32))) by {
            lemma_run_ops_step(ops, 112, r0, p, 100);
        }
        assert(rr[110] == wrapping_mul(rr[100], spec_weight(p.bit, 32))) by {
            lemma_run_ops_step(ops, 112, r0, p, 101);
        }
        assert(rr[111] == wrapping_add(rr[109], rr[110])) by {
            lemma_run_ops_step(ops, 112, r0, p, 102);
        }
        assert(rr[112] == wrapping_add(rr[111], spec_rounding(p))) by {
            lemma_run_ops_step(ops, 112, r0, p, 103);
        }
        assert(rr[113] == rr[112] >> p.bit) by {
            lemma_run_ops_step(ops, 112, r0, p, 104);
        }
        assert(rr[114] == wrapping_sub(rr[109], rr[110])) by {
            lemma_run_ops_step(ops, 112, r0, p, 105);
        }
        assert(rr[115] == wrapping_add(rr[114], spec_rounding(p))) by {
            lemma_run_ops_step(ops, 112, r0, p, 106);
        }
        assert(rr[116] == rr[115] >> p.bit) by {
            lemma_run_ops_step(ops, 112, r0, p, 107);
        }
        assert(rr[117] == wrapping_sub(rr[8], rr[94])) by {
            lemma_run_ops_step(ops, 112, r0, p, 108);
        }
        assert(rr[118] == wrapping_sub(rr[8], rr[105])) by {
            lemma_run_ops_step(ops, 112, r0, p, 109);
        }
        assert(rr[119] == wrapping_sub(rr[8], rr[116])) by {
            lemma_run_ops_step(ops, 112, r0, p, 110);
        }
        assert(rr[120] == wrapping_sub(rr[8], rr[90])) by {
            lemma_run_ops_step(ops, 112, r0, p, 111);
        }
        assert(kernel_output(TxfmKernel::Iadst8, do_cols, input, p) =~= spec_iadst8(input, do_cols, p));
    } else {
        let ops = IADST8_ROW_OPS@;
        lemma_run_ops_len(ops, 132, r0, p);
        let rr = run_ops(ops, 132, r0, p);
        assert forall|k: int| 0 <= k < 9 implies rr[k] == r0[k] by {
            lemma_run_ops_prefix(ops, 0, 132, r0, p, k);
        }
        assert(rr[9] == wrapping_mul(rr[7], spec_weight(p.bit, 4))) by {
            lemma_run_ops_step(ops, 132, r0, p, 0);
        }
        assert(rr[10] == wrapping_mul(rr[0], spec_weight(p.bit, 60))) by {
            lemma_run_ops_step(ops, 132, r0, p, 1);
        }
        assert(rr[11] == wrapping_add(rr[9], rr[10])) by {
            lemma_run_ops_step(ops, 132, r0, p, 2);
        }
        assert(rr[12] == wrapping_add(rr[11], spec_rounding(p))) by {
            lemma_run_ops_step(ops, 132, r0, p, 3);
        }
        assert(rr[13] == rr[12] >> p.bit) by {
            lemma_run_ops_step(ops, 132, r0, p, 4);
        }
        assert(rr[14] == wrapping_mul(rr[7], spec_weight(p.bit, 60))) by {
            lemma_run_ops_step(ops, 132, r0, p, 5);
        }
        assert(rr[15] == wrapping_mul(rr[0], spec_weight(p.bit, 4))) by {
            lemma_run_ops_step(ops, 132, r0, p, 6);
        }
        assert(rr[16] == wrapping_sub(rr[14], rr[15])) by {
            lemma_run_ops_step(ops, 132, r0, p, 7);
        }
        assert(rr[17] == wrapping_add(rr[16], spec_rounding(p))) by {
            lemma_run_ops_step(ops, 132, r0, p, 8);
        }
        assert(rr[18] == rr[17] >> p.bit) by {
            lemma_run_ops_step(ops, 132, r0, p, 9);
        }
        assert(rr[19] == wrapping_mul(rr[5], spec_weight(p.bit, 20))) by {
            lemma_run_ops_step(ops, 132, r0, p, 10);
        }
        assert(rr[20] == wrapping_mul(rr[2], spec_weight(p.bit, 44))) by {
            lemma_run_ops_step(ops, 132, r0, p, 11);
        }
        assert(rr[21] == wrapping_add(rr[19], rr[20])) by {
            lemma_run_ops_step(ops, 132, r0, p, 12);
        }
        assert(rr[22] == wrapping_add(rr[21], spec_rounding(p))) by {
            lemma_run_ops_step(ops, 132, r0, p, 13);
        }
        assert(rr[23] == rr[22] >> p.bit) by {
            lemma_run_ops_step(ops, 132, r0, p, 14);
        }
        assert(rr[24] == wrapping_mul(rr[5], spec_weight(p.bit, 44))) by {
            lemma_run_ops_step(ops, 132, r0, p, 15);
        }
        assert(rr[25] == wrapping_mul(rr[2], spec_weight(p.bit, 20))) by {
            lemma_run_ops_step(ops, 132, r0, p, 16);
        }
        assert(rr[26] == wrapping_sub(rr[24], rr[25])) by {
            lemma_run_ops_step(ops, 132, r0, p, 17);
        }
        assert(rr[27] == wrapping_add(rr[26], spec_rounding(p))) by {
            lemma_run_ops_step(ops, 132, r0, p, 18);
        }
        assert(rr[28] == rr[27] >> p.bit) by {
            lemma_run_ops_step(ops, 132, r0, p, 19);
        }
        assert(rr[29] == wrapping_mul(rr[3], spec_weight(p.bit, 36))) by {
            lemma_run_ops_step(ops, 132, r0, p, 20);
        }
        assert(rr[30] == wrapping_mul(rr[4], spec_weight(p.bit, 28))) by {
            lemma_run_ops_step(ops, 132, r0, p, 21);
        }
        assert(rr[31] == wrapping_add(rr[29], rr[30])) by {
            lemma_run_ops_step(ops, 132, r0, p, 22);
        }
        assert(rr[32] == wrapping_add(rr[31], spec_rounding(p))) by {
            lemma_run_ops_step(ops, 132, r0, p, 23);
        }
        assert(rr[33] == rr[32] >> p.bit) by {
            lemma_run_ops_step(ops, 132, r0, p, 24);
        }
        assert(rr[34] == wrapping_mul(rr[3], spec_weight(p.bit, 28))) by {
            lemma_run_ops_step(ops, 132, r0, p, 25);
        }
        assert(rr[35] == wrapping_mul(rr[4], spec_weight(p.bit, 36))) by {
            lemma_run_ops_step(ops, 132, r0, p, 26);
        }
        assert(rr[36] == wrapping_sub(rr[34], rr[35])) by {
            lemma_run_ops_step(ops, 132, r0, p, 27);
        }
        assert(rr[37] == wrapping_add(rr[36], spec_rounding(p))) by {
            lemma_run_ops_step(ops, 132, r0, p, 28);
        }
        assert(rr[38] == rr[37] >> p.bit) by {
            lemma_run_ops_step(ops, 132, r0, p, 29);
        }
        assert(rr[39] == wrapping_mul(rr[1], spec_weight(p.bit, 52))) by {
            lemma_run_ops_step(ops, 132, r0, p, 30);
        }
        assert(rr[40] == wrapping_mul(rr[6], spec_weight(p.bit, 12))) by {
            lemma_run_ops_step(ops, 132, r0, p, 31);
        }
        assert(rr[41] == wrapping_add(rr[39], rr[40])) by {
            lemma_run_ops_step(ops, 132, r0, p, 32);
        }
        assert(rr[42] == wrapping_add(rr[41], spec_rounding(p))) by {
            lemma_run_ops_step(ops, 132, r0, p, 33);
        }
        assert(rr[43] == rr[42] >> p.bit) by {
            lemma_run_ops_step(ops, 132, r0, p, 34);
        }
        assert(rr[44] == wrapping_mul(rr[1], spec_weight(p.bit, 12))) by {
            lemma_run_ops_step(ops, 132, r0, p, 35);
        }
        assert(rr[45] == wrapping_mul(rr[6], spec_weight(p.bit, 52))) by {
            lemma_run_ops_step(ops, 132, r0, p, 36);
        }
        assert(rr[46] == wrapping_sub(rr[44], rr[45])) by {
            lemma_run_ops_step(ops, 132, r0, p, 37);
        }
        assert(rr[47] == wrapping_add(rr[46], spec_rounding(p))) by {
            lemma_run_ops_step(ops, 132, r0, p, 38);
        }
        assert(rr[48] == rr[47] >> p.bit) by {
            lemma_run_ops_step(ops, 132, r0, p, 39);
        }
        assert(rr[49] == wrapping_add(rr[13], rr[33])) by {
            lemma_run_ops_step(ops, 132, r0, p, 40);
        }
        assert(rr[50] == clamp_to(rr[49], p.bd, 8)) by {
            lemma_run_ops_step(ops, 132, r0, p, 41);
        }
        assert(rr[51] == wrapping_sub(rr[13], rr[33])) by {
            lemma_run_ops_step(ops, 132, r0, p, 42);
        }
        assert(rr[52] == clamp_to(rr[51], p.bd, 8)) by {
            lemma_run_ops_step(ops, 132, r0, p, 43);
        }
        assert(rr[53] == wrapping_add(rr[18], rr[38])) by {
            lemma_run_ops_step(ops, 132, r0, p, 44);
        }
        assert(rr[54] == clamp_to(rr[53], p.bd, 8)) by {
            lemma_run_ops_step(ops, 132, r0, p, 45);
        }
        assert(rr[55] == wrapping_sub(rr[18], rr[38])) by {
            lemma_run_ops_step(ops, 132, r0, p, 46);
        }
        assert(rr[56] == clamp_to(rr[55], p.bd, 8)) by {
            lemma_run_ops_step(ops, 132, r0, p, 47);
        }
        assert(rr[57] == wrapping_add(rr[23], rr[43])) by {
            lemma_run_ops_step(ops, 132, r0, p, 48);
        }
        assert(rr[58] == clamp_to(rr[57], p.bd, 8)) by {
            lemma_run_ops_step(ops, 132, r0, p, 49);
        }
        assert(rr[59] == wrapping_sub(rr[23], rr[43])) by {
            lemma_run_ops_step(ops, 132, r0, p, 50);
        }
        assert(rr[60] == clamp_to(rr[59], p.bd, 8)) by {
            lemma_run_ops_step(ops, 132, r0, p, 51);
        }
        assert(rr[61] == wrapping_add(rr[28], rr[48])) by {
            lemma_run_ops_step(ops, 132, r0, p, 52);
        }
        assert(rr[62] == clamp_to(rr[61], p.bd, 8)) by {
            lemma_run_ops_step(ops, 132, r0, p, 53);
        }
        assert(rr[63] == wrapping_sub(rr[28], rr[48])) by {
            lemma_run_ops_step(ops, 132, r0, p, 54);
        }
        assert(rr[64] == clamp_to(rr[63], p.bd, 8)) by {
            lemma_run_ops_step(ops, 132, r0, p, 55);
        }
        assert(rr[65] == wrapping_mul(rr[52], spec_weight(p.bit, 16))) by {
            lemma_run_ops_step(ops, 132, r0, p, 56);
        }
        assert(rr[66] == wrapping_mul(rr[56], spec_weight(p.bit, 48))) by {
            lemma_run_ops_step(ops, 132, r0, p, 57);
        }
        assert(rr[67] == wrapping_add(rr[65], rr[66])) by {
            lemma_run_ops_step(ops, 132, r0, p, 58);
        }
        assert(rr[68] == wrapping_add(rr[67], spec_rounding(p))) by {
            lemma_run_ops_step(ops, 132, r0, p, 59);
        }
        assert(rr[69] == rr[68] >> p.bit) by {
            lemma_run_ops_step(ops, 132, r0, p, 60);
        }
        assert(rr[70] == wrapping_mul(rr[52], spec_weight(p.bit, 48))) by {
            lemma_run_ops_step(ops, 132, r0, p, 61);
        }
        assert(rr[71] == wrapping_mul(rr[56], spec_weight(p.bit, 16))) by {
            lemma_run_ops_step(ops, 132, r0, p, 62);
        }
        assert(rr[72] == wrapping_sub(rr[70], rr[71])) by {
            lemma_run_ops_step(ops, 132, r0, p, 63);
        }
        assert(rr[73] == wrapping_add(rr[72], spec_rounding(p))) by {
            lemma_run_ops_step(ops, 132, r0, p, 64);
        }
        assert(rr[74] == rr[73] >> p.bit) by {
            lemma_run_ops_step(ops, 132, r0, p, 65);
        }
        assert(rr[75] == wrapping_mul(rr[60], spec_weight(p.bit, 112))) by {
            lemma_run_ops_step(ops, 132, r0, p, 66);
        }
        assert(rr[76] == wrapping_mul(rr[64], spec_weight(p.bit, 16))) by {
            lemma_run_ops_step(ops, 132, r0, p, 67);
        }
        assert(rr[77] == wrapping_add(rr[75], rr[76])) by {
            lemma_run_ops_step(ops, 132, r0, p, 68);
        }
        assert(rr[78] == wrapping_add(rr[77], spec_rounding(p))) by {
            lemma_run_ops_step(ops, 132, r0, p, 69);
        }
        assert(rr[79] == rr[78] >> p.bit) by {
            lemma_run_ops_step(ops, 132, r0, p, 70);
        }
        assert(rr[80] == wrapping_mul(rr[60], spec_weight(p.bit, 16))) by {
            lemma_run_ops_step(ops, 132, r0, p, 71);
        }
        assert(rr[81] == wrapping_mul(rr[64], spec_weight(p.bit, 112))) by {
            lemma_run_ops_step(ops, 132, r0, p, 72);
        }
        assert(rr[82] == wrapping_sub(rr[80], rr[81])) by {
            lemma_run_ops_step(ops, 132, r0, p, 73);
        }
        assert(rr[83] == wrapping_add(rr[82], spec_rounding(p))) by {
            lemma_run_ops_step(ops, 132, r0, p, 74);
        }
        assert(rr[84] == rr[83] >> p.bit) by {
            lemma_run_ops_step(ops, 132, r0, p, 75);
        }
        assert(rr[85] == wrapping_add(rr[50], rr[58])) by {
            lemma_run_ops_step(ops, 132, r0, p, 76);
        }
        assert(rr[86] == clamp_to(rr[85], p.bd, 8)) by {
            lemma_run_ops_step(ops, 132, r0, p, 77);
        }
        assert(rr[87] == wrapping_sub(rr[50], rr[58])) by {
            lemma_run_ops_step(ops, 132, r0, p, 78);
        }
        assert(rr[88] == clamp_to(rr[87], p.bd, 8)) by {
            lemma_run_ops_step(ops, 132, r0, p, 79);
        }
        assert(rr[89] == wrapping_add(rr[54], rr[62])) by {
            lemma_run_ops_step(ops, 132, r0, p, 80);
        }
        assert(rr[90] == clamp_to(rr[89], p.bd, 8)) by {
            lemma_run_ops_step(ops, 132, r0, p, 81);
        }
        assert(rr[91] == wrapping_sub(rr[54], rr[62])) by {
            lemma_run_ops_step(ops, 132, r0, p, 82);
        }
        assert(rr[92] == clamp_to(rr[91], p.bd, 8)) by {
            lemma_run_ops_step(ops, 132, r0, p, 83);
        }
        assert(rr[93] == wrapping_add(rr[69], rr[79])) by {
            lemma_run_ops_step(ops, 132, r0, p, 84);
        }
        assert(rr[94] == clamp_to(rr[93], p.bd, 8)) by {
            lemma_run_ops_step(ops, 132, r0, p, 85);
        }
        assert(rr[95] == wrapping_sub(rr[69], rr[79])) by {
            lemma_run_ops_step(ops, 132, r0, p, 86);
        }
        assert(rr[96] == clamp_to(rr[95], p.bd, 8)) by {
            lemma_run_ops_step(ops, 132, r0, p, 87);
        }
        assert(rr[97] == wrapping_add(rr[74], rr[84])) by {
            lemma_run_ops_step(ops, 132, r0, p, 88);
        }
        assert(rr[98] == clamp_to(rr[97], p.bd, 8)) by {
            lemma_run_ops_step(ops, 132, r0, p, 89);
        }
        assert(rr[99] == wrapping_sub(rr[74], rr[84])) by {
            lemma_run_ops_step(ops, 132, r0, p, 90);
        }
        assert(rr[100] == clamp_to(rr[99], p.bd, 8)) by {
            lemma_run_ops_step(ops, 132, r0, p, 91);
        }
        assert(rr[101] == wrapping_mul(rr[88], spec_weight(p.bit, 32))) by {
            lemma_run_ops_step(ops, 132, r0, p, 92);
        }
        assert(rr[102] == wrapping_mul(rr[92], spec_weight(p.bit, 32))) by {
            lemma_run_ops_step(ops, 132, r0, p, 93);
        }
        assert(rr[103] == wrapping_add(rr[101], rr[102])) by {
            lemma_run_ops_step(ops, 132, r0, p, 94);
        }
        assert(rr[104] == wrapping_add(rr[103], spec_rounding(p))) by {
            lemma_run_ops_step(ops, 132, r0, p, 95);
        }
        assert(rr[105] == rr[104] >> p.bit) by {
            lemma_run_ops_step(ops, 132, r0, p, 96);
        }
        assert(rr[106] == wrapping_sub(rr[101], rr[102])) by {
            lemma_run_ops_step(ops, 132, r0, p, 97);
        }
        assert(rr[107] == wrapping_add(rr[106], spec_rounding(p))) by {
            lemma_run_ops_step(ops, 132, r0, p, 98);
        }
        assert(rr[108] == rr[107] >> p.bit) by {
            lemma_run_ops_step(ops, 132, r0, p, 99);
        }
        assert(rr[109] == wrapping_mul(rr[96], spec_weight(p.bit, 32))) by {
            lemma_run_ops_step(ops, 132, r0, p, 100);
        }
        assert(rr[110] == wrapping_mul(rr[100], spec_weight(p.bit, 32))) by {
            lemma_run_ops_step(ops, 132, r0, p, 101);
        }
        assert(rr[111] == wrapping_add(rr[109], rr[110])) by {
            lemma_run_ops_step(ops, 132, r0, p, 102);
        }
        assert(rr[112] == wrapping_add(rr[111], spec_rounding(p))) by {
            lemma_run_ops_step(ops, 132, r0, p, 103);
        }
        assert(rr[113] == rr[112] >> p.bit) by {
            lemma_run_ops_step(ops, 132, r0, p, 104);
        }
        assert(rr[114] == wrapping_sub(rr[109], rr[110])) by {
            lemma_run_ops_step(ops, 132, r0, p, 105);
        }
        assert(rr[115] == wrapping_add(rr[114], spec_rounding(p))) by {
            lemma_run_ops_step(ops, 132, r0, p, 106);
        }
        assert(rr[116] == rr[115] >> p.bit) by {
            lemma_run_ops_step(ops, 132, r0, p, 107);
        }
        assert(rr[117] == wrapping_add(rr[86], spec_out_offset(p))) by {
            lemma_run_ops_step(ops, 132, r0, p, 108);
        }
        assert(rr[118] == rr[117] >> p.out_shift) by {
            lemma_run_ops_step(ops, 132, r0, p, 109);
        }
        assert(rr[119] == wrapping_sub(spec_out_offset(p), rr[94])) by {
            lemma_run_ops_step(ops, 132, r0, p, 110);
        }
        assert(rr[120] == rr[119] >> p.out_shift) by {
            lemma_run_ops_step(ops, 132, r0, p, 111);
        }
        assert(rr[121] == clamp_to(rr[118], p.bd, 6)) by {
            lemma_run_ops_step(ops, 132, r0, p, 112);
        }
        assert(rr[122] == clamp_to(rr[120], p.bd, 6)) by {
            lemma_run_ops_step(ops, 132, r0, p, 113);
        }
        assert(rr[123] == wrapping_add(rr[113], spec_out_offset(p))) by {
            lemma_run_ops_step(ops, 132, r0, p, 114);
        }
        assert(rr[124] == rr[123] >> p.out_shift) by {
            lemma_run_ops_step(ops, 132, r0, p, 115);
        }
        assert(rr[125] == wrapping_sub(spec_out_offset(p), rr[105])) by {
            lemma_run_ops_step(ops, 132, r0, p, 116);
        }
        assert(rr[126] == rr[125] >> p.out_shift) by {
            lemma_run_ops_step(ops, 132, r0, p, 117);
        }
        assert(rr[127] == clamp_to(rr[124], p.bd, 6)) by {
            lemma_run_ops_step(ops, 132, r0, p, 118);
        }
        assert(rr[128] == clamp_to(rr[126], p.bd, 6)) by {
            lemma_run_ops_step(ops, 132, r0, p, 119);
        }
        assert(rr[129] == wrapping_add(rr[108], spec_out_offset(p))) by {
            lemma_run_ops_step(ops, 132, r0, p, 120);
        }
        assert(rr[130] == rr[129] >> p.out_shift) by {
            lemma_run_ops_step(ops, 132, r0, p, 121);
        }
        assert(rr[131] == wrapping_sub(spec_out_offset(p), rr[116])) by {
            lemma_run_ops_step(ops, 132, r0, p, 122);
        }
        assert(rr[132] == rr[131] >> p.out_shift) by {
            lemma_run_ops_step(ops, 132, r0, p, 123);
        }
        assert(rr[133] == clamp_to(rr[130], p.bd, 6)) by {
            lemma_run_ops_step(ops, 132, r0, p, 124);
        }
        assert(rr[134] == clamp_to(rr[132], p.bd, 6)) by {
            lemma_run_ops_step(ops, 132, r0, p, 125);
        }
        assert(rr[135] == wrapping_add(rr[98], spec_out_offset(p))) by {
            lemma_run_ops_step(ops, 132, r0, p, 126);
        }
        assert(rr[136] == rr[135] >> p.out_shift) by {
            lemma_run_ops_step(ops, 132, r0, p, 127);
        }
        assert(rr[137] == wrapping_sub(spec_out_offset(p), rr[90])) by {
            lemma_run_ops_step(ops, 132, r0, p, 128);
        }
        assert(rr[138] == rr[137] >> p.out_shift) by {
            lemma_run_ops_step(ops, 132, r0, p, 129);
        }
        assert(rr[139] == clamp_to(rr[136], p.bd, 6)) by {
            lemma_run_ops_step(ops, 132, r0, p, 130);
        }
        assert(rr[140] == clamp_to(rr[138], p.bd, 6)) by {
            lemma_run_ops_step(ops, 132, r0, p, 131);
        }
        assert(kernel_output(TxfmKernel::Iadst8, do_cols, input, p) =~= spec_iadst8(input, do_cols, p));
    }
}

} // verus!
