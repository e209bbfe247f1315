//! Planes and frames: geometry and allocation.

use crate::math::{pow2_usize, align_power_of_two, floor_log2, lemma_round_up, round_up, spec_align_power_of_two, spec_floor_log2};
use crate::pixel::{spec_chroma_dimensions, spec_decimation, ChromaSampling, Pixel};
use vstd::arithmetic::power2::pow2;
use vstd::prelude::*;

verus! {

/// Stride alignment of a plane, as a power of two in bytes.
pub const STRIDE_ALIGNMENT_LOG2: usize = 6;

/// The layout of a plane in memory.
#[derive(Debug, Clone, Copy, PartialEq, Eq, Structural)]
pub struct PlaneConfig {
    /// Distance in samples between the starts of two rows.
    pub stride: usize,
    /// Number of allocated rows.
    pub alloc_height: usize,
    /// Width of the visible area.
    pub width: usize,
    /// Height of the visible area.
    pub height: usize,
    /// Horizontal decimation.
    pub xdec: usize,
    /// Vertical decimation.
    pub ydec: usize,
    /// Requested padding left and right.
    pub xpad: usize,
    /// Requested padding above and below.
    pub ypad: usize,
    /// Column of the first visible sample.
    pub xorigin: usize,
    /// Row of the first visible sample.
    pub yorigin: usize,
}

/// The element alignment of a stride, as a power of two, for samples of
/// `type_size` bytes.
pub open spec fn spec_stride_align_log2(type_size: int) -> nat {
    (STRIDE_ALIGNMENT_LOG2 + 1 - type_size) as nat
}

/// The layout `PlaneConfig::new` computes, over unbounded integers.
pub open spec fn spec_xorigin(xpad: int, type_size: int) -> int {
    round_up(xpad, pow2(spec_stride_align_log2(type_size)) as int)
}

/// The stride `PlaneConfig::new` computes.
pub open spec fn spec_stride(width: int, xpad: int, type_size: int) -> int {
    round_up(
        spec_xorigin(xpad, type_size) + width + xpad,
        pow2(spec_stride_align_log2(type_size)) as int,
    )
}

/// A plane of these dimensions can be laid out in memory.
pub open spec fn plane_fits(width: int, height: int, xpad: int, ypad: int, type_size: int) -> bool {
    &&& 0 <= width && 0 <= height && 0 <= xpad && 0 <= ypad
    &&& spec_stride(width, xpad, type_size) + 64 <= usize::MAX
    &&& height + 2 * ypad <= usize::MAX
    &&& spec_stride(width, xpad, type_size) * (height + 2 * ypad) <= usize::MAX
}

impl PlaneConfig {
    /// The layout has the geometry that `new` gives it.
    pub open spec fn is_layout_of(
        &self,
        width: usize,
        height: usize,
        xdec: usize,
        ydec: usize,
        xpad: usize,
        ypad: usize,
        type_size: usize,
    ) -> bool {
        &&& self.width == width
        &&& self.height == height
        &&& self.xdec == xdec
        &&& self.ydec == ydec
        &&& self.xpad == xpad
        &&& self.ypad == ypad
        &&& self.xorigin == spec_xorigin(xpad as int, type_size as int)
        &&& self.yorigin == ypad
        &&& self.stride == spec_stride(width as int, xpad as int, type_size as int)
        &&& self.alloc_height == height + 2 * ypad
    }

    /// The layout of a plane of `width` by `height` visible samples with the
    /// given padding: the visible area starts at an aligned column, and rows
    /// are a multiple of 64 bytes apart.
    pub fn new(
        width: usize,
        height: usize,
        xdec: usize,
        ydec: usize,
        xpad: usize,
        ypad: usize,
        type_size: usize,
    ) -> (r: PlaneConfig)
        requires
            type_size == 1 || type_size == 2,
            plane_fits(width as int, height as int, xpad as int, ypad as int, type_size as int),
        ensures
            r.is_layout_of(width, height, xdec, ydec, xpad, ypad, type_size),
            r.xorigin >= xpad,
            r.stride >= r.xorigin + width + xpad,
            r.stride * r.alloc_height <= usize::MAX,
    {
        let a = STRIDE_ALIGNMENT_LOG2 + 1 - type_size;
        proof {
            vstd::arithmetic::power2::lemma2_to64();
            vstd::arithmetic::power2::lemma_pow2_pos(a as nat);
            lemma_round_up(xpad as int, pow2(a as nat) as int);
            lemma_round_up(
                spec_xorigin(xpad as int, type_size as int) + width + xpad,
                pow2(a as nat) as int,
            );
        }
        let xorigin = align_power_of_two(xpad, a);
        let yorigin = ypad;
        let stride = align_power_of_two(xorigin + width + xpad, a);
        let alloc_height = yorigin + height + ypad;
        PlaneConfig {
            stride,
            alloc_height,
            width,
            height,
            xdec,
            ydec,
            xpad,
            ypad,
            xorigin,
            yorigin,
        }
    }
}

/// One plane of a frame: its layout and its samples, row after row.
#[derive(Debug, Clone)]
pub struct Plane<T: Pixel> {
    /// The samples, `cfg.stride * cfg.alloc_height` of them.
    pub data: Vec<T>,
    /// The layout.
    pub cfg: PlaneConfig,
}

impl<T: Pixel> Plane<T> {
    /// The sample buffer matches the layout.
    pub open spec fn wf(&self) -> bool {
        self.data@.len() == self.cfg.stride * self.cfg.alloc_height
    }

    /// A plane of the given dimensions and padding with every sample zero.
    pub fn new(
        width: usize,
        height: usize,
        xdec: usize,
        ydec: usize,
        xpad: usize,
        ypad: usize,
    ) -> (p: Plane<T>)
        requires
            plane_fits(width as int, height as int, xpad as int, ypad as int, T::spec_size()),
        ensures
            p.wf(),
            p.cfg.is_layout_of(width, height, xdec, ydec, xpad, ypad, T::spec_size() as usize),
            forall|i: int| 0 <= i < p.data@.len() ==> (#[trigger] p.data@[i]).spec_value() == 0,
    {
        let cfg = PlaneConfig::new(width, height, xdec, ydec, xpad, ypad, T::size());
        let len = cfg.stride * cfg.alloc_height;
        let mut data: Vec<T> = Vec::with_capacity(len);
        let mut i: usize = 0;
        while i < len
            invariant
                i <= len,
                data@.len() == i,
                forall|j: int| 0 <= j < i ==> (#[trigger] data@[j]).spec_value() == 0,
            decreases len - i,
        {
            data.push(T::zero());
            i = i + 1;
        }
        Plane { data, cfg }
    }
}

/// One video frame.
#[derive(Debug, Clone)]
pub struct Frame<T: Pixel> {
    /// The planes: luma, then the two chroma planes.
    pub planes: [Plane<T>; 3],
}

/// The width or height `x` rounded up to a multiple of 8.
pub open spec fn spec_luma_dim(x: usize) -> int {
    spec_align_power_of_two(x as nat, 3)
}

/// The padding of a plane of extent `dim` whose stride is aligned to
/// `2^shift`, and at least `min_padding`.
pub open spec fn spec_padding(dim: int, shift: nat, min_padding: usize) -> int {
    let aligned = round_up(dim, pow2(shift) as int);
    if aligned - dim >= min_padding {
        aligned - dim
    } else {
        min_padding as int
    }
}

/// The dimensions of the chroma planes for a frame of the given size.
pub open spec fn spec_frame_chroma_dims(width: usize, height: usize, cs: ChromaSampling) -> (usize, usize) {
    spec_chroma_dimensions(cs, spec_luma_dim(width) as usize, spec_luma_dim(height) as usize)
}

/// Frames of this size, superblock size and padding can be allocated.
pub open spec fn frame_fits(
    width: usize,
    height: usize,
    cs: ChromaSampling,
    superblock_size: usize,
    min_padding: usize,
    type_size: int,
) -> bool {
    let shift = spec_floor_log2(superblock_size as nat);
    let lw = spec_luma_dim(width);
    let lh = spec_luma_dim(height);
    let (cw, ch) = spec_frame_chroma_dims(width, height, cs);
    &&& superblock_size > 0
    &&& width + 7 <= usize::MAX && height + 7 <= usize::MAX
    &&& lw + pow2(shift) - 1 <= usize::MAX && lh + pow2(shift) - 1 <= usize::MAX
    &&& cw + pow2(shift) - 1 <= usize::MAX && ch + pow2(shift) - 1 <= usize::MAX
    &&& plane_fits(
        lw,
        lh,
        spec_padding(lw, shift, min_padding),
        spec_padding(lh, shift, min_padding),
        type_size,
    )
    &&& plane_fits(
        cw as int,
        ch as int,
        spec_padding(cw as int, shift, min_padding),
        spec_padding(ch as int, shift, min_padding),
        type_size,
    )
}

impl<T: Pixel> Frame<T> {
    /// All planes match their layout.
    pub open spec fn wf(&self) -> bool {
        &&& self.planes[0].wf()
        &&& self.planes[1].wf()
        &&& self.planes[2].wf()
    }

    /// Creates a new frame with the given parameters, allocating data for the
    /// planes. The luma plane is the frame size rounded up to a multiple of 8;
    /// each plane is padded at least up to a multiple of the superblock size,
    /// and by at least `min_padding`. Every sample is zero, so the two chroma
    /// planes, which share a layout, are alike.
    pub fn new_with_padding(
        width: usize,
        height: usize,
        chroma_sampling: ChromaSampling,
        superblock_size: usize,
        min_padding: usize,
    ) -> (f: Frame<T>)
        requires
            frame_fits(width, height, chroma_sampling, superblock_size, min_padding, T::spec_size()),
        ensures
            f.wf(),
            ({
                let shift = spec_floor_log2(superblock_size as nat);
                let lw = spec_luma_dim(width);
                let lh = spec_luma_dim(height);
                let (cw, ch) = spec_frame_chroma_dims(width, height, chroma_sampling);
                let (dx, dy) = match spec_decimation(chroma_sampling) {
                    Some(d) => d,
                    None => (0usize, 0usize),
                };
                &&& f.planes[0].cfg.is_layout_of(
                    lw as usize,
                    lh as usize,
                    0,
                    0,
                    spec_padding(lw, shift, min_padding) as usize,
                    spec_padding(lh, shift, min_padding) as usize,
                    T::spec_size() as usize,
                )
                &&& f.planes[1].cfg.is_layout_of(
                    cw,
                    ch,
                    dx,
                    dy,
                    spec_padding(cw as int, shift, min_padding) as usize,
                    spec_padding(ch as int, shift, min_padding) as usize,
                    T::spec_size() as usize,
                )
                &&& f.planes[2].cfg == f.planes[1].cfg
            }),
            forall|p: int, i: int|
                0 <= p < 3 && 0 <= i < f.planes[p].data@.len() ==> (
                #[trigger] f.planes[p].data@[i]).spec_value() == 0,
    {
        proof {
            vstd::arithmetic::power2::lemma2_to64();
            lemma_round_up(width as int, 8);
            lemma_round_up(height as int, 8);
        }
        let luma_width = align_power_of_two(width, 3);
        let luma_height = align_power_of_two(height, 3);
        let padding_shift = floor_log2(superblock_size);
        proof {
            vstd::arithmetic::power2::lemma_pow2_pos(padding_shift as nat);
            lemma_round_up(luma_width as int, pow2(padding_shift as nat) as int);
            lemma_round_up(luma_height as int, pow2(padding_shift as nat) as int);
        }
        let luma_x_stride = align_power_of_two(luma_width, padding_shift);
        let luma_y_stride = align_power_of_two(luma_height, padding_shift);

        let (chroma_decimation_x, chroma_decimation_y) = match chroma_sampling.get_decimation() {
            Some(d) => d,
            None => (0, 0),
        };
        let (chroma_width, chroma_height) = chroma_sampling.get_chroma_dimensions(
            luma_width,
            luma_height,
        );
        proof {
            lemma_round_up(chroma_width as int, pow2(padding_shift as nat) as int);
            lemma_round_up(chroma_height as int, pow2(padding_shift as nat) as int);
        }
        let chroma_x_stride = align_power_of_two(chroma_width, padding_shift);
        let chroma_y_stride = align_power_of_two(chroma_height, padding_shift);

        let luma_xpad = max_usize(luma_x_stride - luma_width, min_padding);
        let luma_ypad = max_usize(luma_y_stride - luma_height, min_padding);
        let chroma_xpad = max_usize(chroma_x_stride - chroma_width, min_padding);
        let chroma_ypad = max_usize(chroma_y_stride - chroma_height, min_padding);

        Frame {
            planes: [
                Plane::new(luma_width, luma_height, 0, 0, luma_xpad, luma_ypad),
                Plane::new(
                    chroma_width,
                    chroma_height,
                    chroma_decimation_x,
                    chroma_decimation_y,
                    chroma_xpad,
                    chroma_ypad,
                ),
                Plane::new(
                    chroma_width,
                    chroma_height,
                    chroma_decimation_x,
                    chroma_decimation_y,
                    chroma_xpad,
                    chroma_ypad,
                ),
            ],
        }
    }
}

/// The larger of two values.
pub fn max_usize(a: usize, b: usize) -> (r: usize)
    ensures
        r == (if a >= b { a } else { b }),
{
    if a >= b {
        a
    } else {
        b
    }
}

/// `round_up(x, m)` computed in 128 bits.
fn round_up_u128(x: u128, m: u128) -> (r: u128)
    requires
        m > 0,
        x + m <= 0x1_0000_0000_0000_0000_0000,
    ensures
        r == round_up(x as int, m as int),
{
    proof {
        lemma_round_up(x as int, m as int);
    }
    (x + (m - 1)) / m * m
}

/// Whether a plane fits, computed in 128 bits.
fn plane_fits_check(width: u128, height: u128, xpad: u128, ypad: u128, type_size: usize) -> (r: bool)
    requires
        type_size == 1 || type_size == 2,
        width < 0x1_0000_0000_0000_0000,
        height < 0x1_0000_0000_0000_0000,
        xpad < 0x1_0000_0000_0000_0000,
        ypad < 0x1_0000_0000_0000_0000,
    ensures
        r == plane_fits(width as int, height as int, xpad as int, ypad as int, type_size as int),
{
    let a = STRIDE_ALIGNMENT_LOG2 + 1 - type_size;
    proof {
        vstd::arithmetic::power2::lemma2_to64();
    }
    let m: u128 = if a == 6 { 64 } else { 32 };
    proof {
        lemma_round_up(xpad as int, m as int);
    }
    let xorigin = round_up_u128(xpad, m);
    proof {
        lemma_round_up(xorigin + width + xpad, m as int);
    }
    let stride = round_up_u128(xorigin + width + xpad, m);
    let rows = height + 2 * ypad;
    let max = usize::MAX as u128;
    if stride + 64 > max || rows > max {
        return false;
    }
    proof {
        vstd::arithmetic::mul::lemma_mul_upper_bound(stride as int, max as int, rows as int, max as int);
        assert((max as int) * (max as int) <= 0xffff_ffff_ffff_ffffint * 0xffff_ffff_ffff_ffffint)
            by (nonlinear_arith)
            requires
                max <= 0xffff_ffff_ffff_ffffu128,
        ;
        assert(0xffff_ffff_ffff_ffffint * 0xffff_ffff_ffff_ffffint <= u128::MAX);
    }
    stride * rows <= max
}

/// The padding of a plane of extent `dim` whose stride is aligned to `m`.
fn padding_u128(dim: u128, m: u128, min_padding: usize, shift: Ghost<nat>) -> (r: u128)
    requires
        m == pow2(shift@),
        0 < m < 0x1_0000_0000_0000_0000,
        dim < 0x1_0000_0000_0000_0000,
    ensures
        r == spec_padding(dim as int, shift@, min_padding),
        r < 0x1_0000_0000_0000_0000,
{
    proof {
        lemma_round_up(dim as int, m as int);
    }
    let aligned = round_up_u128(dim, m);
    if aligned - dim >= min_padding as u128 {
        aligned - dim
    } else {
        min_padding as u128
    }
}

/// Whether frames of this size, superblock size and padding can be
/// allocated.
pub fn frame_fits_check(
    width: usize,
    height: usize,
    cs: ChromaSampling,
    superblock_size: usize,
    min_padding: usize,
    type_size: usize,
) -> (r: bool)
    requires
        type_size == 1 || type_size == 2,
    ensures
        r == frame_fits(width, height, cs, superblock_size, min_padding, type_size as int),
{
    if superblock_size == 0 || width > usize::MAX - 7 || height > usize::MAX - 7 {
        return false;
    }
    let shift = floor_log2(superblock_size);
    let m = pow2_usize(shift);
    proof {
        vstd::arithmetic::power2::lemma2_to64();
        lemma_round_up(width as int, 8);
        lemma_round_up(height as int, 8);
    }
    let lw = align_power_of_two(width, 3);
    let lh = align_power_of_two(height, 3);
    let (cw, ch) = cs.get_chroma_dimensions(lw, lh);
    let m128 = m as u128;
    let max = usize::MAX as u128;
    if lw as u128 + m128 - 1 > max || lh as u128 + m128 - 1 > max || cw as u128 + m128 - 1 > max
        || ch as u128 + m128 - 1 > max {
        return false;
    }
    let lxpad = padding_u128(lw as u128, m128, min_padding, Ghost(shift as nat));
    let lypad = padding_u128(lh as u128, m128, min_padding, Ghost(shift as nat));
    let cxpad = padding_u128(cw as u128, m128, min_padding, Ghost(shift as nat));
    let cypad = padding_u128(ch as u128, m128, min_padding, Ghost(shift as nat));
    plane_fits_check(lw as u128, lh as u128, lxpad, lypad, type_size) && plane_fits_check(
        cw as u128,
        ch as u128,
        cxpad,
        cypad,
        type_size,
    )
}

} // verus!
