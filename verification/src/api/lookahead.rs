//! Decisions taken from the lookahead about the frames of a pyramid.

use crate::activity::{block_8x8, block_origin, lemma_block_index, lemma_sums_bounded, seq_sum};
use crate::frame::Plane;
use crate::pixel::Pixel;
use vstd::prelude::*;

verus! {

/// Where a frame stands in its re-ordering pyramid.
#[derive(Debug, Clone, Copy, PartialEq, Eq, Structural)]
pub struct PyramidDecision {
    /// The input frame that this output frame codes or shows.
    pub input_frameno: u64,
    /// The output frame number.
    pub output_frameno: u64,
    /// Index of the output frame in its group.
    pub index_in_group: u64,
    /// Level in the pyramid; 0 is the top.
    pub level: u64,
    /// Whether the frame is shown.
    pub show_frame: bool,
    /// Whether the frame shows a frame coded before as a hidden frame.
    pub show_existing_frame: bool,
    /// A slot kept only to preserve the output frame count: it stands for a
    /// frame past the end of the group's input and is not coded.
    pub placeholder_frame: bool,
}

/// The planes hold `w` by `h` importance blocks of 8x8 samples inside their
/// allocated area, and their samples are 12-bit.
pub open spec fn importance_blocks_readable<T: Pixel>(plane: &Plane<T>, w: usize, h: usize) -> bool {
    &&& plane.wf()
    &&& plane.cfg.xorigin + 8 * w <= plane.cfg.stride
    &&& plane.cfg.yorigin + 8 * h <= plane.cfg.alloc_height
    &&& forall|i: int|
        0 <= i < plane.data@.len() ==> 0 <= (#[trigger] plane.data@[i]).spec_value() < 4096
}

/// The mean sample of importance block (`bx`, `by`), rounded.
pub open spec fn importance_block_mean<T: Pixel>(plane: &Plane<T>, bx: int, by: int) -> int {
    (seq_sum(block_8x8(plane.data@, block_origin(plane, bx, by), plane.cfg.stride as int)) + 32) / 64
}

/// How far the mean of importance block (`bx`, `by`) moved between the
/// reference plane and the plane.
pub open spec fn importance_block_cost<T: Pixel>(
    org: &Plane<T>,
    rf: &Plane<T>,
    bx: int,
    by: int,
) -> int {
    let d = importance_block_mean(org, bx, by) - importance_block_mean(rf, bx, by);
    if d >= 0 {
        d
    } else {
        -d
    }
}

/// The costs of the first `n` importance blocks, `w` to a row, summed.
pub open spec fn importance_cost_total<T: Pixel>(org: &Plane<T>, rf: &Plane<T>, w: int, n: nat) -> int
    decreases n,
{
    if n == 0 {
        0
    } else {
        importance_cost_total(org, rf, w, (n - 1) as nat) + importance_block_cost(
            org,
            rf,
            (n - 1) % w,
            (n - 1) / w,
        )
    }
}

/// The sum of the 64 samples of importance block (`bx`, `by`).
fn importance_block_sum<T: Pixel>(plane: &Plane<T>, w: usize, h: usize, bx: usize, by: usize) -> (r:
    u64)
    requires
        importance_blocks_readable(plane, w, h),
        bx < w,
        by < h,
    ensures
        r == seq_sum(block_8x8(plane.data@, block_origin(plane, bx as int, by as int), plane.cfg.stride as int)),
        r <= 64 * 4095,
{
    let stride = plane.cfg.stride;
    let ghost origin = block_origin(plane, bx as int, by as int);
    let ghost block = block_8x8(plane.data@, origin, stride as int);
    let ghost sh = plane.cfg.alloc_height as int;
    proof {
        let xo = plane.cfg.xorigin as int;
        let yo = plane.cfg.yorigin as int;
        assert(8 * by + 8 <= 8 * h);
        assert(8 * bx + 8 <= 8 * w);
        assert((yo + 8 * by + 7) * stride + stride <= sh * stride) by (nonlinear_arith)
            requires
                yo + 8 * by + 8 <= sh,
                stride >= 0,
        ;
        assert(origin + 7 * stride + 8 <= (yo + 8 * by + 7) * stride + stride) by (nonlinear_arith)
            requires
                origin == (yo + 8 * by) * stride + xo + 8 * bx,
                xo + 8 * bx + 8 <= stride,
        ;
        assert(sh * stride == plane.data@.len()) by (nonlinear_arith)
            requires
                plane.data@.len() == stride * sh,
        ;
        assert(origin >= 0) by (nonlinear_arith)
            requires
                origin == (yo + 8 * by) * stride + xo + 8 * bx,
                yo >= 0,
                stride >= 0,
                xo >= 0,
                by >= 0,
                bx >= 0,
        ;
        assert(plane.data@.len() == plane.data.len());
        assert(stride >= 8);
        assert forall|k: int| 0 <= k < 64 implies 0 <= #[trigger] block[k] < 4096 by {
            lemma_block_index(origin, stride as int, k);
            assert(0 <= plane.data@[origin + (k / 8) * stride + k % 8].spec_value() < 4096);
        }
        assert(block.take(0) =~= Seq::<int>::empty());
    }
    let o = (plane.cfg.yorigin + 8 * by) * stride + plane.cfg.xorigin + 8 * bx;
    let mut sum: u64 = 0;
    let mut i: usize = 0;
    while i < 64
        invariant
            i <= 64,
            o == origin,
            origin >= 0,
            stride >= 8,
            origin + 7 * stride + 8 <= plane.data@.len(),
            plane.data@.len() == plane.data.len(),
            stride == plane.cfg.stride,
            block == block_8x8(plane.data@, origin, stride as int),
            forall|k: int| 0 <= k < 64 ==> 0 <= #[trigger] block[k] < 4096,
            sum as int == seq_sum(block.take(i as int)),
        decreases 64 - i,
    {
        proof {
            assert(block.take(i as int + 1).drop_last() =~= block.take(i as int));
            lemma_sums_bounded(block.take(i as int + 1), 4095);
            lemma_block_index(origin, stride as int, i as int);
        }
        let v = plane.data[o + (i / 8) * stride + i % 8].to_u32();
        proof {
            assert(v as int == block[i as int]);
        }
        sum = sum + v as u64;
        i = i + 1;
    }
    proof {
        assert(block.take(64) =~= block);
        lemma_sums_bounded(block, 4095);
    }
    sum
}

/// The total cost of the importance blocks of a frame against a reference
/// frame: for each of the `w_in_imp_b` by `h_in_imp_b` blocks of 8x8 luma
/// samples, how far its rounded mean sample moved, summed. The estimate of
/// the block difference is this total divided by the number of blocks.
pub fn importance_block_difference<T: Pixel>(
    plane_org: &Plane<T>,
    plane_ref: &Plane<T>,
    w_in_imp_b: usize,
    h_in_imp_b: usize,
) -> (r: u64)
    requires
        importance_blocks_readable(plane_org, w_in_imp_b, h_in_imp_b),
        importance_blocks_readable(plane_ref, w_in_imp_b, h_in_imp_b),
        w_in_imp_b * h_in_imp_b * 4095 <= u64::MAX,
    ensures
        r == importance_cost_total(
            plane_org,
            plane_ref,
            w_in_imp_b as int,
            (w_in_imp_b * h_in_imp_b) as nat,
        ),
{
    let ghost w = w_in_imp_b as int;
    let ghost sh = plane_org.cfg.alloc_height as int;
    proof {
        assert(8 * w_in_imp_b * (8 * h_in_imp_b) <= plane_org.cfg.stride * sh) by (nonlinear_arith)
            requires
                8 * w_in_imp_b <= plane_org.cfg.stride,
                8 * h_in_imp_b <= sh,
        ;
        assert(plane_org.data@.len() == plane_org.data.len());
        assert(w_in_imp_b * h_in_imp_b * 64 == 8 * w_in_imp_b * (8 * h_in_imp_b)) by (nonlinear_arith);
    }
    let mut total: u64 = 0;
    let mut y: usize = 0;
    while y < h_in_imp_b
        invariant
            importance_blocks_readable(plane_org, w_in_imp_b, h_in_imp_b),
            importance_blocks_readable(plane_ref, w_in_imp_b, h_in_imp_b),
            w == w_in_imp_b,
            y <= h_in_imp_b,
            w_in_imp_b * h_in_imp_b * 64 <= usize::MAX,
            w_in_imp_b * h_in_imp_b * 4095 <= u64::MAX,
            total == importance_cost_total(plane_org, plane_ref, w, (y * w) as nat),
            total <= y * w * 4095,
        decreases h_in_imp_b - y,
    {
        let mut x: usize = 0;
        while x < w_in_imp_b
            invariant
                importance_blocks_readable(plane_org, w_in_imp_b, h_in_imp_b),
                importance_blocks_readable(plane_ref, w_in_imp_b, h_in_imp_b),
                w == w_in_imp_b,
                y < h_in_imp_b,
                x <= w_in_imp_b,
                w_in_imp_b * h_in_imp_b * 64 <= usize::MAX,
                w_in_imp_b * h_in_imp_b * 4095 <= u64::MAX,
                total == importance_cost_total(plane_org, plane_ref, w, (y * w + x) as nat),
                total <= (y * w + x) * 4095,
            decreases w_in_imp_b - x,
        {
            let so = importance_block_sum(plane_org, w_in_imp_b, h_in_imp_b, x, y);
            let sr = importance_block_sum(plane_ref, w_in_imp_b, h_in_imp_b, x, y);
            let mo = (so + 32) / 64;
            let mr = (sr + 32) / 64;
            let d = if mo >= mr {
                mo - mr
            } else {
                mr - mo
            };
            proof {
                let n = y * w + x;
                assert(n % w == x && n / w == y) by (nonlinear_arith)
                    requires
                        n == y * w + x,
                        0 <= x < w,
                        y >= 0,
                ;
                assert(y * w + x + 1 <= w * h_in_imp_b) by (nonlinear_arith)
                    requires
                        y < h_in_imp_b,
                        x < w,
                ;
                assert((y * w + x + 1) * 4095 <= w_in_imp_b * h_in_imp_b * 4095) by (nonlinear_arith)
                    requires
                        y * w + x + 1 <= w * h_in_imp_b,
                        w == w_in_imp_b,
                ;
            }
            total = total + d;
            x = x + 1;
        }
        proof {
            assert(y * w + w == (y + 1) * w) by (nonlinear_arith);
        }
        y = y + 1;
    }
    proof {
        assert(y * w == w_in_imp_b * h_in_imp_b) by (nonlinear_arith)
            requires
                y == h_in_imp_b,
                w == w_in_imp_b,
        ;
    }
    total
}

/// Motion vectors of the lookahead count eighths of a sample.
pub const IMP_BLOCK_MV_UNITS_PER_PIXEL: i64 = 8;

/// The side of an importance block, 8 samples, in motion vector units.
pub const IMP_BLOCK_SIZE_IN_MV_UNITS: i64 = 8 * IMP_BLOCK_MV_UNITS_PER_PIXEL;

/// The area of an importance block in squared motion vector units.
#[verifier::nonlinear]
pub const IMP_BLOCK_AREA_IN_MV_UNITS: i64 = IMP_BLOCK_SIZE_IN_MV_UNITS * IMP_BLOCK_SIZE_IN_MV_UNITS;

/// One of the four importance blocks that a block displaced to
/// (`rx`, `ry`) motion vector units overlaps, as (column, row, area of the
/// overlap in squared motion vector units); `k` counts them in the order
/// top-left, top-right, bottom-left, bottom-right. The top-left one is the
/// block that holds the displaced block's top-left corner.
pub open spec fn overlap_corner(rx: int, ry: int, k: int) -> (int, int, int) {
    let col = rx / 64;
    let row = ry / 64;
    let dx = rx - col * 64;
    let dy = ry - row * 64;
    let right = k % 2 == 1;
    let bottom = k >= 2;
    (
        if right {
            col + 1
        } else {
            col
        },
        if bottom {
            row + 1
        } else {
            row
        },
        (if right {
            dx
        } else {
            64 - dx
        }) * (if bottom {
            dy
        } else {
            64 - dy
        }),
    )
}

/// The overlap `c`, as (index in the row-major grid, area), where its block
/// lies inside a grid of `w` by `h` importance blocks; nothing otherwise.
pub open spec fn keep_in_grid(c: (int, int, int), w: int, h: int) -> Seq<(usize, i64)> {
    if 0 <= c.0 < w && 0 <= c.1 < h {
        seq![((c.1 * w + c.0) as usize, c.2 as i64)]
    } else {
        Seq::empty()
    }
}

/// The importance blocks of a `w` by `h` grid onto which a block displaced
/// to (`rx`, `ry`) propagates its importance, with the areas of overlap, in
/// the order top-left, top-right, bottom-left, bottom-right.
pub open spec fn propagation_targets(rx: int, ry: int, w: int, h: int) -> Seq<(usize, i64)> {
    keep_in_grid(overlap_corner(rx, ry, 0), w, h) + keep_in_grid(overlap_corner(rx, ry, 1), w, h)
        + keep_in_grid(overlap_corner(rx, ry, 2), w, h) + keep_in_grid(
        overlap_corner(rx, ry, 3),
        w,
        h,
    )
}

/// `r` divided by the side of an importance block, rounded down.
fn floor_div_block(r: i64) -> (q: i64)
    ensures
        q == r as int / 64,
{
    if r >= 0 {
        r / IMP_BLOCK_SIZE_IN_MV_UNITS
    } else {
        let n: i64 = -(r + 1);
        let a: i64 = n / IMP_BLOCK_SIZE_IN_MV_UNITS;
        proof {
            let b = n % 64;
            assert(n == 64 * a + b && 0 <= b < 64);
            assert(r == 64 * (-a - 1) + (63 - b));
            vstd::arithmetic::div_mod::lemma_fundamental_div_mod_converse(
                r as int,
                64,
                -a - 1,
                63 - b,
            );
        }
        -a - 1
    }
}

/// Appends the overlap (`col`, `row`, `area`) to `targets` as (index, area)
/// where its block lies inside the `w` by `h` grid.
fn push_in_grid(targets: &mut Vec<(usize, i64)>, col: i64, row: i64, area: i64, w: usize, h: usize)
    requires
        w * h <= usize::MAX,
    ensures
        final(targets)@ == old(targets)@ + keep_in_grid((col as int, row as int, area as int), w as int, h as int),
{
    if col >= 0 && row >= 0 && (col as u64) < (w as u64) && (row as u64) < (h as u64) {
        let x = col as usize;
        let y = row as usize;
        proof {
            assert(y * w + x < w * h) by (nonlinear_arith)
                requires
                    x < w,
                    y < h,
            ;
        }
        targets.push((y * w + x, area));
    }
    proof {
        let c = (col as int, row as int, area as int);
        if 0 <= c.0 < w && 0 <= c.1 < h {
        } else {
            assert(old(targets)@ + keep_in_grid(c, w as int, h as int) =~= old(targets)@);
        }
    }
}

/// Where the importance of a block goes in its reference frame: the block
/// the motion search matched, whose top-left corner is at (`reference_x`,
/// `reference_y`) motion vector units, overlaps up to four importance blocks
/// of the reference frame's `w_in_imp_b` by `h_in_imp_b` grid. For each of
/// them inside the grid, in the order top-left, top-right, bottom-left,
/// bottom-right, the result holds its index and the area of the overlap;
/// each receives that area's share, out of `IMP_BLOCK_AREA_IN_MV_UNITS`, of
/// the importance propagated.
pub fn importance_propagation_targets(
    reference_x: i64,
    reference_y: i64,
    w_in_imp_b: usize,
    h_in_imp_b: usize,
) -> (r: Vec<(usize, i64)>)
    requires
        i64::MIN + 63 <= reference_x <= i64::MAX - 64,
        i64::MIN + 63 <= reference_y <= i64::MAX - 64,
        w_in_imp_b * h_in_imp_b <= usize::MAX,
    ensures
        r@ == propagation_targets(
            reference_x as int,
            reference_y as int,
            w_in_imp_b as int,
            h_in_imp_b as int,
        ),
{
    let col = floor_div_block(reference_x);
    let row = floor_div_block(reference_y);
    proof {
        vstd::arithmetic::div_mod::lemma_fundamental_div_mod(reference_x as int, 64);
        vstd::arithmetic::div_mod::lemma_fundamental_div_mod(reference_y as int, 64);
    }
    let dx = reference_x - col * IMP_BLOCK_SIZE_IN_MV_UNITS;
    let dy = reference_y - row * IMP_BLOCK_SIZE_IN_MV_UNITS;
    let ghost rx = reference_x as int;
    let ghost ry = reference_y as int;
    let ghost w = w_in_imp_b as int;
    let ghost h = h_in_imp_b as int;
    proof {
        assert(0 <= dx < 64 && 0 <= dy < 64);
        assert(0 <= (64 - dx) * (64 - dy) <= 4096) by (nonlinear_arith)
            requires
                0 <= dx < 64,
                0 <= dy < 64,
        ;
        assert(0 <= dx * (64 - dy) <= 4096) by (nonlinear_arith)
            requires
                0 <= dx < 64,
                0 <= dy < 64,
        ;
        assert(0 <= (64 - dx) * dy <= 4096) by (nonlinear_arith)
            requires
                0 <= dx < 64,
                0 <= dy < 64,
        ;
        assert(0 <= dx * dy <= 4096) by (nonlinear_arith)
            requires
                0 <= dx < 64,
                0 <= dy < 64,
        ;
    }
    let mut targets: Vec<(usize, i64)> = Vec::new();
    push_in_grid(&mut targets, col, row, (IMP_BLOCK_SIZE_IN_MV_UNITS - dx) * (IMP_BLOCK_SIZE_IN_MV_UNITS - dy), w_in_imp_b, h_in_imp_b);
    push_in_grid(&mut targets, col + 1, row, dx * (IMP_BLOCK_SIZE_IN_MV_UNITS - dy), w_in_imp_b, h_in_imp_b);
    push_in_grid(&mut targets, col, row + 1, (IMP_BLOCK_SIZE_IN_MV_UNITS - dx) * dy, w_in_imp_b, h_in_imp_b);
    push_in_grid(&mut targets, col + 1, row + 1, dx * dy, w_in_imp_b, h_in_imp_b);
    proof {
        assert(overlap_corner(rx, ry, 0) == (col as int, row as int, (64 - dx) * (64 - dy)));
        assert(overlap_corner(rx, ry, 1) == (col + 1, row as int, dx * (64 - dy)));
        assert(overlap_corner(rx, ry, 2) == (col as int, row + 1, (64 - dx) * dy));
        assert(overlap_corner(rx, ry, 3) == (col + 1, row + 1, dx * dy));
        assert(targets@ =~= propagation_targets(rx, ry, w, h));
    }
    targets
}

} // verus!
