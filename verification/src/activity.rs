//! Activity masking: the variance of every 8x8 block of the luma plane.

use crate::frame::Plane;
use crate::math::{align_power_of_two_and_shift, spec_align_power_of_two_and_shift};
use crate::pixel::Pixel;
use vstd::prelude::*;

verus! {

/// The sum of the values of `s`.
pub open spec fn seq_sum(s: Seq<int>) -> int
    decreases s.len(),
{
    if s.len() == 0 {
        0
    } else {
        seq_sum(s.drop_last()) + s.last()
    }
}

/// The sum of the squares of the values of `s`.
pub open spec fn seq_sum_sq(s: Seq<int>) -> int
    decreases s.len(),
{
    if s.len() == 0 {
        0
    } else {
        seq_sum_sq(s.drop_last()) + s.last() * s.last()
    }
}

/// The 64 samples of the 8x8 block whose top left sample is at index
/// `origin` of `data`, rows `stride` apart, row after row.
pub open spec fn block_8x8<T: Pixel>(data: Seq<T>, origin: int, stride: int) -> Seq<int> {
    Seq::new(64, |i: int| data[origin + (i / 8) * stride + i % 8].spec_value())
}

/// The variance of 64 samples, scaled by 64: the sum of their squares less
/// the square of their sum divided by 64 with rounding.
pub open spec fn spec_variance_64(s: Seq<int>) -> int {
    seq_sum_sq(s) - (seq_sum(s) * seq_sum(s) + 32) / 64
}

proof fn lemma_sum_sq_deviation(s: Seq<int>, x: int)
    ensures
        seq_sum_sq(s) - 2 * x * seq_sum(s) + s.len() * x * x >= 0,
    decreases s.len(),
{
    if s.len() > 0 {
        let t = s.drop_last();
        let y = s.last();
        lemma_sum_sq_deviation(t, x);
        assert(seq_sum_sq(s) - 2 * x * seq_sum(s) + s.len() * x * x == (seq_sum_sq(t) - 2 * x
            * seq_sum(t) + t.len() * x * x) + (y - x) * (y - x)) by (nonlinear_arith)
            requires
                seq_sum_sq(s) == seq_sum_sq(t) + y * y,
                seq_sum(s) == seq_sum(t) + y,
                s.len() == t.len() + 1,
        ;
        assert((y - x) * (y - x) >= 0) by (nonlinear_arith);
    }
}

/// The square of a sum is at most the number of terms times the sum of
/// their squares.
proof fn lemma_sum_square_bound(s: Seq<int>)
    ensures
        seq_sum(s) * seq_sum(s) <= s.len() * seq_sum_sq(s),
    decreases s.len(),
{
    if s.len() > 0 {
        let t = s.drop_last();
        let y = s.last();
        lemma_sum_square_bound(t);
        lemma_sum_sq_deviation(t, y);
        assert(seq_sum(s) * seq_sum(s) <= s.len() * seq_sum_sq(s)) by (nonlinear_arith)
            requires
                seq_sum_sq(s) == seq_sum_sq(t) + y * y,
                seq_sum(s) == seq_sum(t) + y,
                s.len() == t.len() + 1,
                seq_sum(t) * seq_sum(t) <= t.len() * seq_sum_sq(t),
                seq_sum_sq(t) - 2 * y * seq_sum(t) + t.len() * y * y >= 0,
        ;
    }
}

pub(crate) proof fn lemma_sums_bounded(s: Seq<int>, m: int)
    requires
        m >= 0,
        forall|i: int| 0 <= i < s.len() ==> 0 <= #[trigger] s[i] <= m,
    ensures
        0 <= seq_sum(s) <= s.len() * m,
        0 <= seq_sum_sq(s) <= s.len() * m * m,
    decreases s.len(),
{
    if s.len() > 0 {
        let t = s.drop_last();
        let y = s.last();
        assert(forall|i: int| 0 <= i < t.len() ==> #[trigger] t[i] == s[i]);
        lemma_sums_bounded(t, m);
        assert(0 <= y * y <= m * m) by (nonlinear_arith)
            requires
                0 <= y <= m,
        ;
        assert(s.len() * m == t.len() * m + m) by (nonlinear_arith)
            requires
                s.len() == t.len() + 1,
        ;
        assert(s.len() * m * m == t.len() * m * m + m * m) by (nonlinear_arith)
            requires
                s.len() == t.len() + 1,
        ;
    }
}

/// The 8x8 block at `origin` lies inside `data` and its samples are 10-bit.
pub open spec fn block_8x8_readable<T: Pixel>(data: Seq<T>, origin: int, stride: int) -> bool {
    &&& origin >= 0
    &&& stride >= 8
    &&& origin + 7 * stride + 8 <= data.len()
    &&& forall|i: int| 0 <= i < 64 ==> 0 <= #[trigger] block_8x8(data, origin, stride)[i] < 1024
}

pub(crate) proof fn lemma_block_index(origin: int, stride: int, i: int)
    requires
        origin >= 0,
        stride >= 8,
        0 <= i < 64,
    ensures
        origin <= origin + (i / 8) * stride + i % 8 <= origin + 7 * stride + 7,
        0 <= i % 8 < 8,
        (i / 8) * stride <= 7 * stride,
{
    assert(0 <= i / 8 < 8);
    assert(0 <= (i / 8) * stride <= 7 * stride) by (nonlinear_arith)
        requires
            0 <= i / 8 < 8,
            stride >= 8,
    ;
}

/// The variance of the 8x8 block at index `origin` of `data`, rows
/// `stride` apart, scaled by 64.
pub fn variance_8x8<T: Pixel>(data: &[T], origin: usize, stride: usize) -> (r: u32)
    requires
        block_8x8_readable(data@, origin as int, stride as int),
    ensures
        r as int == spec_variance_64(block_8x8(data@, origin as int, stride as int)),
{
    let ghost block = block_8x8(data@, origin as int, stride as int);
    let mut sum_s: u32 = 0;
    let mut sum_s2: u32 = 0;
    let mut i: usize = 0;
    proof {
        assert forall|k: int| 0 <= k < 64 implies 0 <= #[trigger] block[k] < 1024 by {
            assert(0 <= block_8x8(data@, origin as int, stride as int)[k] < 1024);
        }
        assert(block.take(0) =~= Seq::<int>::empty());
    }
    while i < 64
        invariant
            i <= 64,
            block == block_8x8(data@, origin as int, stride as int),
            block_8x8_readable(data@, origin as int, stride as int),
            forall|k: int| 0 <= k < 64 ==> 0 <= #[trigger] block[k] < 1024,
            sum_s as int == seq_sum(block.take(i as int)),
            sum_s2 as int == seq_sum_sq(block.take(i as int)),
        decreases 64 - i,
    {
        proof {
            assert(block.take(i as int + 1).drop_last() =~= block.take(i as int));
            lemma_sums_bounded(block.take(i as int + 1), 1023);
            lemma_block_index(origin as int, stride as int, i as int);
            assert(data@.len() == data.len());
        }
        let pos = origin + (i / 8) * stride + i % 8;
        let v = data[pos].to_u32();
        proof {
            assert(v as int == block[i as int]);
            assert(v * v <= 1023 * 1023) by (nonlinear_arith)
                requires
                    v <= 1023,
            ;
        }
        sum_s = sum_s + v;
        sum_s2 = sum_s2 + v * v;
        i = i + 1;
    }
    proof {
        assert(block.take(64) =~= block);
        lemma_sums_bounded(block, 1023);
        lemma_sum_square_bound(block);
        assert(sum_s * sum_s <= 65472 * 65472) by (nonlinear_arith)
            requires
                sum_s <= 65472,
        ;
        assert((sum_s * sum_s + 32) / 64 <= sum_s2) by (nonlinear_arith)
            requires
                sum_s * sum_s <= 64 * sum_s2,
        ;
    }
    let t: u32 = sum_s * sum_s + 32;
    assert(t >> 6u32 == t / 64) by (bit_vector);
    sum_s2 - (t >> 6u32)
}

/// The variances of the 8x8 blocks of a luma plane.
#[derive(Debug, Clone)]
pub struct ActivityMask {
    /// One variance per 8x8 block, row after row of blocks.
    pub variances: Vec<u32>,
    /// Width of the plane that is masked.
    pub width: usize,
    /// Height of the plane that is masked.
    pub height: usize,
}

/// The index in the samples of a plane of the top left sample of 8x8 block
/// (`bx`, `by`) of its visible area.
pub open spec fn block_origin<T: Pixel>(plane: &Plane<T>, bx: int, by: int) -> int {
    (plane.cfg.yorigin + 8 * by) * plane.cfg.stride + plane.cfg.xorigin + 8 * bx
}

/// The 8x8 blocks covering the visible area of the plane, its width and
/// height rounded up to a multiple of 8, lie inside its samples, and those
/// samples are 10-bit.
pub open spec fn activity_readable<T: Pixel>(plane: &Plane<T>) -> bool {
    let wb = spec_align_power_of_two_and_shift(plane.cfg.width as nat, 3);
    let hb = spec_align_power_of_two_and_shift(plane.cfg.height as nat, 3);
    &&& plane.wf()
    &&& plane.cfg.width + 7 <= usize::MAX
    &&& plane.cfg.height + 7 <= usize::MAX
    &&& plane.cfg.xorigin + 8 * wb <= plane.cfg.stride
    &&& plane.cfg.yorigin + 8 * hb <= plane.cfg.alloc_height
    &&& forall|i: int|
        0 <= i < plane.data@.len() ==> 0 <= (#[trigger] plane.data@[i]).spec_value() < 1024
}

impl ActivityMask {
    /// The variance of every 8x8 block of a luma plane, the plane's width
    /// and height padded to a multiple of 8.
    pub fn from_plane<T: Pixel>(luma_plane: &Plane<T>) -> (m: ActivityMask)
        requires
            activity_readable(luma_plane),
        ensures
            m.width == luma_plane.cfg.width,
            m.height == luma_plane.cfg.height,
            ({
                let wb = spec_align_power_of_two_and_shift(luma_plane.cfg.width as nat, 3);
                let hb = spec_align_power_of_two_and_shift(luma_plane.cfg.height as nat, 3);
                &&& m.variances@.len() == wb * hb
                &&& forall|by: int, bx: int|
                    0 <= by < hb && 0 <= bx < wb ==> #[trigger] m.variances@[by * wb + bx]
                        == spec_variance_64(
                        block_8x8(
                            luma_plane.data@,
                            block_origin(luma_plane, bx, by),
                            luma_plane.cfg.stride as int,
                        ),
                    )
            }),
    {
        let width = luma_plane.cfg.width;
        let height = luma_plane.cfg.height;
        proof {
            vstd::arithmetic::power2::lemma2_to64();
        }
        let w_in_imp_b = align_power_of_two_and_shift(width, 3);
        let h_in_imp_b = align_power_of_two_and_shift(height, 3);
        let stride = luma_plane.cfg.stride;
        let ghost wb = w_in_imp_b as int;
        let ghost hb = h_in_imp_b as int;
        let ghost sh = luma_plane.cfg.alloc_height as int;
        let mut variances: Vec<u32> = Vec::new();
        let mut y: usize = 0;
        while y < h_in_imp_b
            invariant
                activity_readable(luma_plane),
                wb == spec_align_power_of_two_and_shift(width as nat, 3),
                hb == spec_align_power_of_two_and_shift(height as nat, 3),
                width == luma_plane.cfg.width,
                height == luma_plane.cfg.height,
                w_in_imp_b == wb,
                h_in_imp_b == hb,
                stride == luma_plane.cfg.stride,
                sh == luma_plane.cfg.alloc_height,
                y <= hb,
                variances@.len() == y * wb,
                forall|by: int, bx: int|
                    0 <= by < y && 0 <= bx < wb ==> #[trigger] variances@[by * wb + bx]
                        == spec_variance_64(
                        block_8x8(luma_plane.data@, block_origin(luma_plane, bx, by), stride as int),
                    ),
            decreases hb - y,
        {
            let mut x: usize = 0;
            while x < w_in_imp_b
                invariant
                    activity_readable(luma_plane),
                    wb == spec_align_power_of_two_and_shift(width as nat, 3),
                    hb == spec_align_power_of_two_and_shift(height as nat, 3),
                    width == luma_plane.cfg.width,
                    height == luma_plane.cfg.height,
                    w_in_imp_b == wb,
                    h_in_imp_b == hb,
                    stride == luma_plane.cfg.stride,
                    sh == luma_plane.cfg.alloc_height,
                    y < hb,
                    x <= wb,
                    variances@.len() == y * wb + x,
                    forall|by: int, bx: int|
                        0 <= by < y && 0 <= bx < wb ==> #[trigger] variances@[by * wb + bx]
                            == spec_variance_64(
                            block_8x8(
                                luma_plane.data@,
                                block_origin(luma_plane, bx, by),
                                stride as int,
                            ),
                        ),
                    forall|bx: int|
                        0 <= bx < x ==> #[trigger] variances@[y * wb + bx] == spec_variance_64(
                            block_8x8(
                                luma_plane.data@,
                                block_origin(luma_plane, bx, y as int),
                                stride as int,
                            ),
                        ),
                decreases wb - x,
            {
                let ghost origin = block_origin(luma_plane, x as int, y as int);
                proof {
                    let xo = luma_plane.cfg.xorigin as int;
                    let yo = luma_plane.cfg.yorigin as int;
                    assert(yo + 8 * y + 8 <= sh);
                    assert(xo + 8 * x + 8 <= stride);
                    assert((yo + 8 * y + 7) * stride + stride <= sh * stride) by (nonlinear_arith)
                        requires
                            yo + 8 * y + 8 <= sh,
                            stride >= 0,
                    ;
                    assert(origin + 7 * stride + 8 <= (yo + 8 * y + 7) * stride + stride)
                        by (nonlinear_arith)
                        requires
                            origin == (yo + 8 * y) * stride + xo + 8 * x,
                            xo + 8 * x + 8 <= stride,
                    ;
                    assert(sh * stride == luma_plane.data@.len()) by (nonlinear_arith)
                        requires
                            luma_plane.data@.len() == stride * sh,
                    ;
                    assert(origin >= 0) by (nonlinear_arith)
                        requires
                            origin == (yo + 8 * y) * stride + xo + 8 * x,
                            yo >= 0,
                            stride >= 0,
                            xo >= 0,
                            y >= 0,
                            x >= 0,
                    ;
                    assert forall|i: int| 0 <= i < 64 implies 0 <= #[trigger] block_8x8(
                        luma_plane.data@,
                        origin,
                        stride as int,
                    )[i] < 1024 by {
                        assert(0 <= i / 8 < 8 && 0 <= i % 8 < 8);
                        assert((i / 8) * stride <= 7 * stride) by (nonlinear_arith)
                            requires
                                0 <= i / 8 < 8,
                                stride >= 0,
                        ;
                        assert((i / 8) * stride >= 0) by (nonlinear_arith)
                            requires
                                0 <= i / 8,
                                stride >= 0,
                        ;
                        let idx = origin + (i / 8) * stride + i % 8;
                        assert(0 <= idx < luma_plane.data@.len());
                        assert(0 <= luma_plane.data@[idx].spec_value() < 1024);
                    }
                    assert(stride >= 8);
                    assert(luma_plane.data@.len() == luma_plane.data.len());
                }
                let o = ((luma_plane.cfg.yorigin + 8 * y) * stride) + luma_plane.cfg.xorigin + 8 * x;
                assert(o == origin);
                let v = variance_8x8(luma_plane.data.as_slice(), o, stride);
                variances.push(v);
                proof {
                    assert(y * wb + x + 1 == y * wb + (x + 1));
                    assert forall|by: int, bx: int|
                        0 <= by < y && 0 <= bx < wb implies #[trigger] variances@[by * wb + bx]
                        == spec_variance_64(
                        block_8x8(luma_plane.data@, block_origin(luma_plane, bx, by), stride as int),
                    ) by {
                        assert(by * wb + bx < y * wb) by (nonlinear_arith)
                            requires
                                0 <= by < y,
                                0 <= bx < wb,
                        ;
                    }
                }
                x = x + 1;
            }
            proof {
                assert forall|by: int, bx: int|
                    0 <= by < y + 1 && 0 <= bx < wb implies #[trigger] variances@[by * wb + bx]
                    == spec_variance_64(
                    block_8x8(luma_plane.data@, block_origin(luma_plane, bx, by), stride as int),
                ) by {
                    if by == y {
                        assert(variances@[y * wb + bx] == spec_variance_64(
                            block_8x8(luma_plane.data@, block_origin(luma_plane, bx, by), stride as int),
                        ));
                    }
                }
                assert((y + 1) * wb == y * wb + wb) by (nonlinear_arith);
            }
            y = y + 1;
        }
        proof {
            assert(hb * wb == wb * hb) by (nonlinear_arith);
        }
        ActivityMask { variances, width, height }
    }
}

} // verus!
