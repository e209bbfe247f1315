//! Butterfly programs: the 1-D inverse transforms written as a list of
//! integer operations on 32-bit lanes, and the interpreter that runs them.
//!
//! A program works on a growing file of registers. The first registers hold
//! the input samples, the next one holds zero, and each operation appends
//! one register with its result. An operation is four integers: its code and
//! three operands (two register numbers and an immediate). A program comes
//! with the register numbers of its outputs.

use vstd::prelude::*;
use vstd::wrapping::i32_specs::{wrapping_add, wrapping_mul, wrapping_sub};

verus! {

/// The cosine tables of the transforms: row `n - 10` holds
/// `round(cos(k * pi / 128) * 2^n)` for `k` in `0..64`.
pub const COSPI_ARR_DATA: [[i32; 64]; 7] = [
    [
        1024, 1024, 1023, 1021, 1019, 1016, 1013, 1009, 1004, 999, 993, 987,
        980, 972, 964, 955, 946, 936, 926, 915, 903, 891, 878, 865,
        851, 837, 822, 807, 792, 775, 759, 742, 724, 706, 688, 669,
        650, 630, 610, 590, 569, 548, 526, 505, 483, 460, 438, 415,
        392, 369, 345, 321, 297, 273, 249, 224, 200, 175, 150, 125,
        100, 75, 50, 25,
    ],
    [
        2048, 2047, 2046, 2042, 2038, 2033, 2026, 2018, 2009, 1998, 1987, 1974,
        1960, 1945, 1928, 1911, 1892, 1872, 1851, 1829, 1806, 1782, 1757, 1730,
        1703, 1674, 1645, 1615, 1583, 1551, 1517, 1483, 1448, 1412, 1375, 1338,
        1299, 1260, 1220, 1179, 1138, 1096, 1053, 1009, 965, 921, 876, 830,
        784, 737, 690, 642, 595, 546, 498, 449, 400, 350, 301, 251,
        201, 151, 100, 50,
    ],
    [
        4096, 4095, 4091, 4085, 4076, 4065, 4052, 4036, 4017, 3996, 3973, 3948,
        3920, 3889, 3857, 3822, 3784, 3745, 3703, 3659, 3612, 3564, 3513, 3461,
        3406, 3349, 3290, 3229, 3166, 3102, 3035, 2967, 2896, 2824, 2751, 2675,
        2598, 2520, 2440, 2359, 2276, 2191, 2106, 2019, 1931, 1842, 1751, 1660,
        1567, 1474, 1380, 1285, 1189, 1092, 995, 897, 799, 700, 601, 501,
        401, 301, 201, 101,
    ],
    [
        8192, 8190, 8182, 8170, 8153, 8130, 8103, 8071, 8035, 7993, 7946, 7895,
        7839, 7779, 7713, 7643, 7568, 7489, 7405, 7317, 7225, 7128, 7027, 6921,
        6811, 6698, 6580, 6458, 6333, 6203, 6070, 5933, 5793, 5649, 5501, 5351,
        5197, 5040, 4880, 4717, 4551, 4383, 4212, 4038, 3862, 3683, 3503, 3320,
        3135, 2948, 2760, 2570, 2378, 2185, 1990, 1795, 1598, 1401, 1202, 1003,
        803, 603, 402, 201,
    ],
    [
        16384, 16379, 16364, 16340, 16305, 16261, 16207, 16143, 16069, 15986, 15893, 15791,
        15679, 15557, 15426, 15286, 15137, 14978, 14811, 14635, 14449, 14256, 14053, 13842,
        13623, 13395, 13160, 12916, 12665, 12406, 12140, 11866, 11585, 11297, 11003, 10702,
        10394, 10080, 9760, 9434, 9102, 8765, 8423, 8076, 7723, 7366, 7005, 6639,
        6270, 5897, 5520, 5139, 4756, 4370, 3981, 3590, 3196, 2801, 2404, 2006,
        1606, 1205, 804, 402,
    ],
    [
        32768, 32758, 32729, 32679, 32610, 32522, 32413, 32286, 32138, 31972, 31786, 31581,
        31357, 31114, 30853, 30572, 30274, 29957, 29622, 29269, 28899, 28511, 28106, 27684,
        27246, 26791, 26320, 25833, 25330, 24812, 24279, 23732, 23170, 22595, 22006, 21403,
        20788, 20160, 19520, 18868, 18205, 17531, 16846, 16151, 15447, 14733, 14010, 13279,
        12540, 11793, 11039, 10279, 9512, 8740, 7962, 7180, 6393, 5602, 4808, 4011,
        3212, 2411, 1608, 804,
    ],
    [
        65536, 65516, 65457, 65358, 65220, 65043, 64827, 64571, 64277, 63944, 63572, 63162,
        62714, 62228, 61705, 61145, 60547, 59914, 59244, 58538, 57798, 57022, 56212, 55368,
        54491, 53581, 52639, 51665, 50660, 49624, 48559, 47464, 46341, 45190, 44011, 42806,
        41576, 40320, 39040, 37736, 36410, 35062, 33692, 32303, 30893, 29466, 28020, 26558,
        25080, 23586, 22078, 20557, 19024, 17479, 15924, 14359, 12785, 11204, 9616, 8022,
        6424, 4821, 3216, 1608,
    ],
];

/// Multiplies a register by a cosine weight (immediate: the weight index,
/// plus 64 for the negated weight).
pub const OP_MUL: i32 = 1;
/// Adds two registers.
pub const OP_ADD: i32 = 2;
/// Subtracts the second register from the first.
pub const OP_SUB: i32 = 3;
/// Adds the rounding offset of the cosine precision.
pub const OP_ADD_ROUNDING: i32 = 4;
/// Shifts right by the cosine precision.
pub const OP_SHIFT_BIT: i32 = 5;
/// A rotation half: both registers times their weights (immediate: first
/// weight code plus 128 times the second), summed, rounded, shifted.
pub const OP_HALF_BTF: i32 = 6;
/// A rotation half with one term: the register times its weight, rounded,
/// shifted.
pub const OP_HALF_BTF_0: i32 = 7;
/// Raises a register to the lower end of a range (immediate: the range).
pub const OP_MAX_LO: i32 = 8;
/// Lowers a register to the upper end of a range (immediate: the range).
pub const OP_MIN_HI: i32 = 9;
/// Adds the rounding offset of the output shift.
pub const OP_ADD_OUT_OFFSET: i32 = 10;
/// Subtracts a register from the rounding offset of the output shift.
pub const OP_OUT_OFFSET_SUB: i32 = 11;
/// Shifts right by the output shift.
pub const OP_SHIFT_OUT: i32 = 12;
/// Rounds and shifts right by the output shift, when it is not zero.
pub const OP_ROUND_SHIFT_OUT: i32 = 13;
/// Clamps a register to a range (immediate: the range).
pub const OP_CLAMP: i32 = 14;

/// The settings a program runs with.
#[derive(Debug, Clone, Copy, PartialEq, Eq, Structural)]
pub struct ButterflyParams {
    /// Precision of the cosine weights, in bits: 10 to 16.
    pub bit: u32,
    /// Bit depth of the samples.
    pub bd: u32,
    /// Right shift applied to the outputs of a row transform.
    pub out_shift: u32,
}

/// The settings can be used: a cosine table exists for the precision and
/// every range and shift fits in 32 bits.
pub open spec fn params_ok(p: ButterflyParams) -> bool {
    10 <= p.bit <= 16 && p.bd <= 23 && p.out_shift <= 30
}

/// Cosine weight `k` at precision `bit`.
pub open spec fn spec_cospi(bit: u32, k: int) -> i32 {
    COSPI_ARR_DATA@[bit - 10]@[k]
}

/// The weight of immediate `c`: cosine `c % 64`, negated for `c >= 64`.
pub open spec fn spec_weight(bit: u32, c: int) -> i32 {
    if 64 <= c < 128 {
        wrapping_sub(0, spec_cospi(bit, c - 64))
    } else if 0 <= c < 64 {
        spec_cospi(bit, c)
    } else {
        0
    }
}

/// The bits a clamping range adds to the bit depth: 8 for immediate 8,
/// else 6.
pub open spec fn range_add(c: i32) -> int {
    if c == 8 {
        8
    } else {
        6
    }
}

/// Half of the size of a clamping range: `2^(r - 1)` for the range
/// `r = max(16, bd + range_add(c))` bits.
pub open spec fn range_half(bd: u32, c: i32) -> u32 {
    let r: int = if bd + range_add(c) > 16 {
        bd + range_add(c)
    } else {
        16
    };
    1u32 << ((r - 1) as u32)
}

/// The lower end of a clamping range.
pub open spec fn range_lo(bd: u32, add: i32) -> int {
    -(range_half(bd, add) as int)
}

/// The upper end of a clamping range.
pub open spec fn range_hi(bd: u32, add: i32) -> int {
    range_half(bd, add) - 1
}

/// `x` clamped to the range.
pub open spec fn clamp_to(x: i32, bd: u32, add: i32) -> i32 {
    if x < range_lo(bd, add) {
        range_lo(bd, add) as i32
    } else if x > range_hi(bd, add) {
        range_hi(bd, add) as i32
    } else {
        x
    }
}

/// The rounding offset of the cosine precision.
pub open spec fn spec_rounding(p: ButterflyParams) -> i32 {
    1i32 << ((p.bit - 1) as u32)
}

/// The rounding offset of the output shift: half of `2^out_shift`.
pub open spec fn spec_out_offset(p: ButterflyParams) -> i32 {
    (1i32 << p.out_shift) >> 1u32
}

/// The first weight code packed in the immediate of a rotation half.
pub open spec fn first_weight(c: i32) -> int {
    if c >= 0 {
        (c % 128) as int
    } else {
        -1
    }
}

/// The second weight code packed in the immediate of a rotation half.
pub open spec fn second_weight(c: i32) -> int {
    if c >= 0 {
        (c / 128) as int
    } else {
        -1
    }
}

/// What one operation yields from its operand values.
pub open spec fn op_value(code: i32, x: i32, y: i32, c: i32, p: ButterflyParams) -> i32 {
    if code == OP_MUL {
        wrapping_mul(x, spec_weight(p.bit, c as int))
    } else if code == OP_ADD {
        wrapping_add(x, y)
    } else if code == OP_SUB {
        wrapping_sub(x, y)
    } else if code == OP_ADD_ROUNDING {
        wrapping_add(x, spec_rounding(p))
    } else if code == OP_SHIFT_BIT {
        x >> p.bit
    } else if code == OP_HALF_BTF {
        wrapping_add(
            wrapping_add(
                wrapping_mul(x, spec_weight(p.bit, first_weight(c))),
                wrapping_mul(y, spec_weight(p.bit, second_weight(c))),
            ),
            spec_rounding(p),
        ) >> p.bit
    } else if code == OP_HALF_BTF_0 {
        wrapping_add(wrapping_mul(x, spec_weight(p.bit, c as int)), spec_rounding(p)) >> p.bit
    } else if code == OP_MAX_LO {
        if x < range_lo(p.bd, c) {
            range_lo(p.bd, c) as i32
        } else {
            x
        }
    } else if code == OP_MIN_HI {
        if x > range_hi(p.bd, c) {
            range_hi(p.bd, c) as i32
        } else {
            x
        }
    } else if code == OP_ADD_OUT_OFFSET {
        wrapping_add(x, spec_out_offset(p))
    } else if code == OP_OUT_OFFSET_SUB {
        wrapping_sub(spec_out_offset(p), x)
    } else if code == OP_SHIFT_OUT {
        x >> p.out_shift
    } else if code == OP_ROUND_SHIFT_OUT {
        if p.out_shift == 0 {
            x
        } else {
            wrapping_add(x, 1i32 << ((p.out_shift - 1) as u32)) >> p.out_shift
        }
    } else if code == OP_CLAMP {
        clamp_to(x, p.bd, c)
    } else {
        x
    }
}

/// Register `i`, or zero when there is no such register.
pub open spec fn reg(regs: Seq<i32>, i: i32) -> i32 {
    if 0 <= i < regs.len() {
        regs[i as int]
    } else {
        0
    }
}

/// The registers after the first `count` operations of `ops`.
pub open spec fn run_ops(ops: Seq<i32>, count: nat, regs: Seq<i32>, p: ButterflyParams) -> Seq<i32>
    decreases count,
{
    if count == 0 {
        regs
    } else {
        let r = run_ops(ops, (count - 1) as nat, regs, p);
        let i = 4 * (count - 1);
        r.push(op_value(ops[i], reg(r, ops[i + 1]), reg(r, ops[i + 2]), ops[i + 3], p))
    }
}

/// The outputs of program `ops` with output registers `outs` on `input`:
/// sample `k` becomes the register that `outs` names for it, or stays as
/// it is where `outs` names none.
pub open spec fn butterfly_output(
    ops: Seq<i32>,
    outs: Seq<i32>,
    input: Seq<i32>,
    p: ButterflyParams,
) -> Seq<i32> {
    let regs = run_ops(ops, ops.len() / 4, input.push(0), p);
    Seq::new(
        input.len(),
        |k: int|
            if k < outs.len() {
                reg(regs, outs[k])
            } else {
                input[k]
            },
    )
}

/// The cosine table for precision `n`.
pub fn cospi_arr(n: usize) -> (r: [i32; 64])
    requires
        10 <= n <= 16,
    ensures
        r@ == COSPI_ARR_DATA@[n - 10]@,
{
    COSPI_ARR_DATA[n - 10]
}

fn weight(cospi: &[i32; 64], c: i32) -> (r: i32)
    ensures
        r == (if 64 <= c < 128 {
            wrapping_sub(0, cospi@[c - 64])
        } else if 0 <= c < 64 {
            cospi@[c as int]
        } else {
            0
        }),
{
    if 64 <= c && c < 128 {
        0i32.wrapping_sub(cospi[(c - 64) as usize])
    } else if 0 <= c && c < 64 {
        cospi[c as usize]
    } else {
        0
    }
}

fn range_half_exec(bd: u32, c: i32) -> (r: u32)
    requires
        bd <= 23,
    ensures
        r == range_half(bd, c),
        r <= 0x4000_0000,
{
    let add: u32 = if c == 8 {
        8
    } else {
        6
    };
    let s: u32 = if bd + add > 16 {
        bd + add
    } else {
        16
    };
    let sh: u32 = s - 1;
    assert(1u32 << sh <= 0x4000_0000) by (bit_vector)
        requires
            15 <= sh <= 30,
    ;
    1u32 << sh
}

fn reg_exec(regs: &Vec<i32>, i: i32) -> (r: i32)
    ensures
        r == reg(regs@, i),
{
    if 0 <= i && (i as usize) < regs.len() {
        regs[i as usize]
    } else {
        0
    }
}

fn op_exec(code: i32, x: i32, y: i32, c: i32, p: ButterflyParams, cospi: &[i32; 64]) -> (r: i32)
    requires
        params_ok(p),
        cospi@ == COSPI_ARR_DATA@[p.bit - 10]@,
    ensures
        r == op_value(code, x, y, c, p),
{
    let rounding: i32 = 1i32 << (p.bit - 1);
    if code == OP_MUL {
        x.wrapping_mul(weight(cospi, c))
    } else if code == OP_ADD {
        x.wrapping_add(y)
    } else if code == OP_SUB {
        x.wrapping_sub(y)
    } else if code == OP_ADD_ROUNDING {
        x.wrapping_add(rounding)
    } else if code == OP_SHIFT_BIT {
        x >> p.bit
    } else if code == OP_HALF_BTF {
        let (c0, c1): (i32, i32) = if c >= 0 {
            (c % 128, c / 128)
        } else {
            (-1, -1)
        };
        let w0 = weight(cospi, c0);
        let w1 = weight(cospi, c1);
        x.wrapping_mul(w0).wrapping_add(y.wrapping_mul(w1)).wrapping_add(rounding) >> p.bit
    } else if code == OP_HALF_BTF_0 {
        x.wrapping_mul(weight(cospi, c)).wrapping_add(rounding) >> p.bit
    } else if code == OP_MAX_LO {
        let lo: i32 = -(range_half_exec(p.bd, c) as i32);
        if x < lo {
            lo
        } else {
            x
        }
    } else if code == OP_MIN_HI {
        let hi: i32 = range_half_exec(p.bd, c) as i32 - 1;
        if x > hi {
            hi
        } else {
            x
        }
    } else if code == OP_ADD_OUT_OFFSET {
        x.wrapping_add((1i32 << p.out_shift) >> 1u32)
    } else if code == OP_OUT_OFFSET_SUB {
        ((1i32 << p.out_shift) >> 1u32).wrapping_sub(x)
    } else if code == OP_SHIFT_OUT {
        x >> p.out_shift
    } else if code == OP_ROUND_SHIFT_OUT {
        if p.out_shift == 0 {
            x
        } else {
            x.wrapping_add(1i32 << (p.out_shift - 1)) >> p.out_shift
        }
    } else if code == OP_CLAMP {
        let half = range_half_exec(p.bd, c);
        let lo: i32 = -(half as i32);
        let hi: i32 = half as i32 - 1;
        if x < lo {
            lo
        } else if x > hi {
            hi
        } else {
            x
        }
    } else {
        x
    }
}

/// Runs program `ops` with output registers `outs` on the samples of
/// `data` and writes the outputs back to `data`.
pub fn run_butterfly(ops: &[i32], outs: &[i32], data: &mut [i32], p: ButterflyParams)
    requires
        params_ok(p),
    ensures
        final(data)@ == butterfly_output(ops@, outs@, old(data)@, p),
{
    let ghost input = data@;
    let cospi = cospi_arr(p.bit as usize);
    let n_ops = ops.len() / 4;
    let mut regs: Vec<i32> = Vec::new();
    let mut k: usize = 0;
    while k < data.len()
        invariant
            k <= data@.len(),
            data@ == input,
            regs@ == input.subrange(0, k as int),
        decreases data@.len() - k,
    {
        regs.push(data[k]);
        k = k + 1;
        proof {
            assert(regs@ =~= input.subrange(0, k as int));
        }
    }
    regs.push(0);
    proof {
        assert(regs@ =~= input.push(0));
    }
    let mut i: usize = 0;
    while i < n_ops
        invariant
            n_ops == ops@.len() / 4,
            i <= n_ops,
            params_ok(p),
            cospi@ == COSPI_ARR_DATA@[p.bit - 10]@,
            regs@ == run_ops(ops@, i as nat, input.push(0), p),
        decreases n_ops - i,
    {
        assert(4 * i + 3 < ops@.len()) by (nonlinear_arith)
            requires
                i < n_ops,
                n_ops == ops@.len() / 4,
        ;
        assert(ops@.len() == ops.len());
        let b = 4 * i;
        let code = ops[b];
        let x = reg_exec(&regs, ops[b + 1]);
        let y = reg_exec(&regs, ops[b + 2]);
        let v = op_exec(code, x, y, ops[b + 3], p, &cospi);
        regs.push(v);
        i = i + 1;
    }
    let mut j: usize = 0;
    while j < data.len()
        invariant
            j <= data@.len(),
            data@.len() == input.len(),
            regs@ == run_ops(ops@, (ops@.len() / 4) as nat, input.push(0), p),
            forall|m: int|
                0 <= m < j ==> #[trigger] data@[m] == (if m < outs@.len() {
                    reg(run_ops(ops@, (ops@.len() / 4) as nat, input.push(0), p), outs@[m])
                } else {
                    input[m]
                }),
            forall|m: int| j <= m < data@.len() ==> #[trigger] data@[m] == input[m],
        decreases data@.len() - j,
    {
        if j < outs.len() {
            let v = reg_exec(&regs, outs[j]);
            data[j] = v;
        }
        j = j + 1;
    }
    proof {
        assert(data@ =~= butterfly_output(ops@, outs@, input, p));
    }
}

/// Running more operations keeps the registers already there, and the
/// register that operation `j` appends holds its value on the registers
/// before it.
pub proof fn lemma_run_ops_register(ops: Seq<i32>, count: nat, regs: Seq<i32>, p: ButterflyParams, j: int)
    requires
        0 <= j < count,
        4 * count <= ops.len(),
    ensures
        run_ops(ops, count, regs, p).len() == regs.len() + count,
        run_ops(ops, count, regs, p)[regs.len() + j] == op_value(
            ops[4 * j],
            reg(run_ops(ops, j as nat, regs, p), ops[4 * j + 1]),
            reg(run_ops(ops, j as nat, regs, p), ops[4 * j + 2]),
            ops[4 * j + 3],
            p,
        ),
    decreases count,
{
    lemma_run_ops_len(ops, count, regs, p);
    if j < count - 1 {
        lemma_run_ops_register(ops, (count - 1) as nat, regs, p, j);
    }
}

/// Each operation appends one register.
pub proof fn lemma_run_ops_len(ops: Seq<i32>, count: nat, regs: Seq<i32>, p: ButterflyParams)
    ensures
        run_ops(ops, count, regs, p).len() == regs.len() + count,
    decreases count,
{
    if count > 0 {
        lemma_run_ops_len(ops, (count - 1) as nat, regs, p);
    }
}

/// Output `k` of program `ops` on `n` samples is the result of a clamp to
/// the range of code `c`, or of a raise to its lower end followed by a
/// lowering to its upper end.
pub open spec fn output_clamped(ops: Seq<i32>, outs: Seq<i32>, n: int, c: i32, k: int) -> bool {
    let j = outs[k] - (n + 1);
    &&& 0 <= j
    &&& 4 * j + 3 < ops.len()
    &&& ops[4 * j + 3] == c
    &&& (ops[4 * j] == OP_CLAMP || (ops[4 * j] == OP_MIN_HI && {
        let i = ops[4 * j + 1] - (n + 1);
        &&& 0 <= i < j
        &&& ops[4 * i] == OP_MAX_LO
        &&& ops[4 * i + 3] == c
    }))
}

/// The first `count` outputs of program `ops` on `n` samples are clamped
/// to the range of code `c`.
pub open spec fn outputs_clamped(ops: Seq<i32>, outs: Seq<i32>, n: int, c: i32, count: nat) -> bool
    decreases count,
{
    count == 0 || (outputs_clamped(ops, outs, n, c, (count - 1) as nat) && output_clamped(
        ops,
        outs,
        n,
        c,
        count - 1,
    ))
}

proof fn lemma_outputs_clamped(ops: Seq<i32>, outs: Seq<i32>, n: int, c: i32, count: nat, k: int)
    requires
        outputs_clamped(ops, outs, n, c, count),
        0 <= k < count,
    ensures
        output_clamped(ops, outs, n, c, k),
    decreases count,
{
    if k < count - 1 {
        lemma_outputs_clamped(ops, outs, n, c, (count - 1) as nat, k);
    }
}

/// A clamping range lies inside the 32-bit integers and holds zero.
pub proof fn lemma_range_bounds(bd: u32, c: i32)
    requires
        bd <= 23,
    ensures
        -0x4000_0000 <= range_lo(bd, c) < 0 <= range_hi(bd, c) < 0x4000_0000,
{
    let r: int = if bd + range_add(c) > 16 {
        bd + range_add(c)
    } else {
        16
    };
    let sh = (r - 1) as u32;
    assert(15 <= sh <= 30);
    assert(1u32 << sh <= 0x4000_0000 && 1u32 << sh >= 1) by (bit_vector)
        requires
            15 <= sh <= 30,
    ;
}

/// Where every output of a program is clamped to the range of code `c`,
/// every output sample lies in that range.
pub proof fn lemma_clamped_outputs_in_range(
    ops: Seq<i32>,
    outs: Seq<i32>,
    input: Seq<i32>,
    c: i32,
    p: ButterflyParams,
)
    requires
        params_ok(p),
        outs.len() == input.len(),
        outputs_clamped(ops, outs, input.len() as int, c, outs.len()),
    ensures
        forall|k: int|
            0 <= k < input.len() ==> range_lo(p.bd, c) <= #[trigger] butterfly_output(
                ops,
                outs,
                input,
                p,
            )[k] <= range_hi(p.bd, c),
{
    let n = input.len() as int;
    let r0 = input.push(0);
    let count = ops.len() / 4;
    lemma_range_bounds(p.bd, c);
    assert forall|k: int| 0 <= k < n implies range_lo(p.bd, c) <= #[trigger] butterfly_output(
        ops,
        outs,
        input,
        p,
    )[k] <= range_hi(p.bd, c) by {
        lemma_outputs_clamped(ops, outs, n, c, outs.len(), k);
        let j = outs[k] - (n + 1);
        assert(j < count);
        lemma_run_ops_register(ops, count, r0, p, j);
        let regs = run_ops(ops, count, r0, p);
        assert(reg(regs, outs[k]) == regs[r0.len() + j]);
        let x = reg(run_ops(ops, j as nat, r0, p), ops[4 * j + 1]);
        if ops[4 * j] == OP_MIN_HI {
            let i = ops[4 * j + 1] - (n + 1);
            lemma_run_ops_register(ops, j as nat, r0, p, i);
            assert(x == run_ops(ops, j as nat, r0, p)[r0.len() + i]);
        }
    }
}


/// Running more operations keeps the registers already there.
pub proof fn lemma_run_ops_prefix(ops: Seq<i32>, j: nat, count: nat, regs: Seq<i32>, p: ButterflyParams, a: int)
    requires
        j <= count,
        4 * count <= ops.len(),
        0 <= a < regs.len() + j,
    ensures
        run_ops(ops, count, regs, p)[a] == run_ops(ops, j, regs, p)[a],
    decreases count,
{
    lemma_run_ops_len(ops, count, regs, p);
    lemma_run_ops_len(ops, j, regs, p);
    if j < count {
        lemma_run_ops_len(ops, (count - 1) as nat, regs, p);
        lemma_run_ops_prefix(ops, j, (count - 1) as nat, regs, p, a);
    }
}

/// The register that operation `j` appends holds its value on the final
/// registers, when its operands are registers from before it.
pub proof fn lemma_run_ops_step(ops: Seq<i32>, count: nat, regs: Seq<i32>, p: ButterflyParams, j: int)
    requires
        0 <= j < count,
        4 * count <= ops.len(),
        ops[4 * j + 1] < regs.len() + j,
        ops[4 * j + 2] < regs.len() + j,
    ensures
        run_ops(ops, count, regs, p)[regs.len() + j] == op_value(
            ops[4 * j],
            reg(run_ops(ops, count, regs, p), ops[4 * j + 1]),
            reg(run_ops(ops, count, regs, p), ops[4 * j + 2]),
            ops[4 * j + 3],
            p,
        ),
{
    lemma_run_ops_register(ops, count, regs, p, j);
    lemma_run_ops_len(ops, count, regs, p);
    lemma_run_ops_len(ops, j as nat, regs, p);
    if 0 <= ops[4 * j + 1] {
        lemma_run_ops_prefix(ops, j as nat, count, regs, p, ops[4 * j + 1] as int);
    }
    if 0 <= ops[4 * j + 2] {
        lemma_run_ops_prefix(ops, j as nat, count, regs, p, ops[4 * j + 2] as int);
    }
}

} // verus!
