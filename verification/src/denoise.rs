//! The block layout of the frequency-domain denoiser and the bookkeeping of
//! which frames it filters when.

use crate::api::frame_queue::FrameQueue;
use crate::api::status::EncoderStatus;
use crate::frame::Frame;
use crate::pixel::{spec_decimation, ChromaSampling, Pixel};
use vstd::prelude::*;

verus! {

/// Side of the square blocks that are transformed.
pub const BLOCK_DIMENSION: usize = 32;

/// Overlap of neighbouring blocks.
pub const BLOCK_OVERLAP: usize = BLOCK_DIMENSION / 3;

/// Distance between the starts of neighbouring blocks.
pub const BLOCK_INTERVAL: usize = BLOCK_DIMENSION - BLOCK_OVERLAP;

/// Number of frames filtered together.
pub const TEMPORAL_SIZE: usize = 3;

/// The number of blocks along a side of `len` samples subsampled by
/// `dec`: enough overlapping blocks to cover it, and one more at each end.
pub open spec fn spec_block_count(len: usize, dec: usize) -> int {
    ((len >> dec) - BLOCK_OVERLAP + (BLOCK_INTERVAL - 1)) / (BLOCK_INTERVAL as int) + 2
}

/// The subsampling of plane `plane_idx`: none for luma.
pub open spec fn plane_decimation(plane_idx: usize, cs: ChromaSampling) -> (usize, usize) {
    if plane_idx > 0 {
        match spec_decimation(cs) {
            Some(d) => d,
            None => (0, 0),
        }
    } else {
        (0, 0)
    }
}

/// The block layout of one plane of `width` by `height` luma samples fits
/// the plane and its buffer sizes fit in memory.
pub open spec fn transform_fits(
    plane_idx: usize,
    width: usize,
    height: usize,
    cs: ChromaSampling,
    pixel_size: int,
) -> bool {
    let dec = plane_decimation(plane_idx, cs);
    let nx = spec_block_count(width, dec.0);
    let ny = spec_block_count(height, dec.1);
    let cover_width = nx * BLOCK_INTERVAL + BLOCK_OVERLAP;
    let cover_height = ny * BLOCK_INTERVAL + BLOCK_OVERLAP;
    &&& dec.0 < 64 && dec.1 < 64
    &&& BLOCK_OVERLAP <= (width >> dec.0) <= usize::MAX - BLOCK_INTERVAL
    &&& BLOCK_OVERLAP <= (height >> dec.1) <= usize::MAX - BLOCK_INTERVAL
    &&& 1 <= pixel_size <= 2
    &&& cover_height * (((cover_width + 7) / 8) * 8 * pixel_size) <= usize::MAX
    &&& BLOCK_DIMENSION * BLOCK_DIMENSION * nx * ny <= usize::MAX
}

/// The block layout of the frequency transform of one plane.
#[derive(Debug, Clone)]
pub struct FftTransform {
    /// The plane: 0 for luma.
    pub plane_idx: usize,
    /// Blocks per row, one extra at each end.
    pub n_overlap_x: usize,
    /// Blocks per column, one extra at each end.
    pub n_overlap_y: usize,
    /// Width of the mirrored border.
    pub mirror_w: usize,
    /// Height of the mirrored border.
    pub mirror_h: usize,
    /// Width of the area the blocks cover.
    pub cover_width: usize,
    /// Height of the area the blocks cover.
    pub cover_height: usize,
    /// Bytes per row of the covered area, a multiple of 8 samples.
    pub cover_pitch: usize,
    /// The covered area.
    pub cover_buf: Vec<u8>,
    /// Real input values of all blocks.
    pub in_size: usize,
    /// Complex outputs per row of a block.
    pub out_width: usize,
    /// Complex outputs per row of a block, rounded up to even.
    pub out_pitch_elems: usize,
    /// Complex outputs of all blocks.
    pub out_size: usize,
    /// The number of blocks.
    pub block_count: usize,
}

impl FftTransform {
    /// The layout for plane `plane_idx` of a `width` by `height` frame with
    /// samples of type `T`.
    pub fn new<T: Pixel>(
        plane_idx: usize,
        width: usize,
        height: usize,
        chroma_sampling: ChromaSampling,
    ) -> (t: FftTransform)
        requires
            transform_fits(plane_idx, width, height, chroma_sampling, T::spec_size()),
            plane_idx > 0 ==> chroma_sampling != ChromaSampling::Cs400,
        ensures
            ({
                let dec = plane_decimation(plane_idx, chroma_sampling);
                let nx = spec_block_count(width, dec.0);
                let ny = spec_block_count(height, dec.1);
                &&& t.plane_idx == plane_idx
                &&& t.n_overlap_x == nx
                &&& t.n_overlap_y == ny
                &&& t.mirror_w == BLOCK_INTERVAL && t.mirror_h == BLOCK_INTERVAL
                &&& t.cover_width == nx * BLOCK_INTERVAL + BLOCK_OVERLAP
                &&& t.cover_height == ny * BLOCK_INTERVAL + BLOCK_OVERLAP
                &&& t.cover_pitch == ((t.cover_width + 7) / 8) * 8 * T::spec_size()
                &&& t.cover_buf@.len() == t.cover_height * t.cover_pitch
                &&& forall|i: int| 0 <= i < t.cover_buf@.len() ==> #[trigger] t.cover_buf@[i] == 0
                &&& t.in_size == BLOCK_DIMENSION * BLOCK_DIMENSION * nx * ny
                &&& t.out_width == BLOCK_DIMENSION / 2 + 1
                &&& t.out_pitch_elems == (t.out_width + 1) / 2 * 2
                &&& t.out_size == t.out_pitch_elems * BLOCK_DIMENSION * nx * ny
                &&& t.block_count == nx * ny
            }),
    {
        let dec: (usize, usize) = if plane_idx > 0 {
            match chroma_sampling.get_decimation() {
                Some(d) => d,
                None => (0, 0),
            }
        } else {
            (0, 0)
        };
        let n_overlap_x = ((width >> dec.0) - BLOCK_OVERLAP + (BLOCK_INTERVAL - 1)) / BLOCK_INTERVAL
            + 2;
        let n_overlap_y = ((height >> dec.1) - BLOCK_OVERLAP + (BLOCK_INTERVAL - 1))
            / BLOCK_INTERVAL + 2;
        let ghost nx = n_overlap_x as int;
        let ghost ny = n_overlap_y as int;
        proof {
            assert(BLOCK_DIMENSION * BLOCK_DIMENSION * nx * ny == 1024 * (nx * ny))
                by (nonlinear_arith);
            assert(nx * ny >= 0) by (nonlinear_arith)
                requires
                    nx >= 0,
                    ny >= 0,
            ;
            assert(nx * BLOCK_INTERVAL <= 1024 * (nx * ny)) by (nonlinear_arith)
                requires
                    nx >= 2,
                    ny >= 2,
            ;
            assert(ny * BLOCK_INTERVAL <= 1024 * (nx * ny)) by (nonlinear_arith)
                requires
                    nx >= 2,
                    ny >= 2,
            ;
        }
        let block_count = n_overlap_x * n_overlap_y;
        let cover_width = n_overlap_x * BLOCK_INTERVAL + BLOCK_OVERLAP;
        let cover_height = n_overlap_y * BLOCK_INTERVAL + BLOCK_OVERLAP;
        let ghost cw = cover_width as int;
        let ghost px = T::spec_size();
        proof {
            assert(((cw + 7) / 8) * 8 <= cw + 7);
            assert(((cw + 7) / 8) * 8 * px <= (cw + 7) * 2) by (nonlinear_arith)
                requires
                    ((cw + 7) / 8) * 8 <= cw + 7,
                    1 <= px <= 2,
                    cw >= 0,
            ;
            assert(((cw + 7) / 8) * 8 * px >= 0) by (nonlinear_arith)
                requires
                    cw >= 0,
                    px >= 1,
            ;
            assert(cover_height >= 1);
            assert(((cw + 7) / 8) * 8 * px <= cover_height * (((cw + 7) / 8) * 8 * px))
                by (nonlinear_arith)
                requires
                    cover_height >= 1,
                    ((cw + 7) / 8) * 8 * px >= 0,
            ;
        }
        let cover_pitch = ((cover_width + 7) / 8) * 8 * T::size();
        let cover_len = cover_height * cover_pitch;
        let mut cover_buf: Vec<u8> = Vec::new();
        let mut i: usize = 0;
        while i < cover_len
            invariant
                i <= cover_len,
                cover_buf@.len() == i,
                forall|k: int| 0 <= k < i ==> #[trigger] cover_buf@[k] == 0,
            decreases cover_len - i,
        {
            cover_buf.push(0);
            i = i + 1;
        }
        let in_size = BLOCK_DIMENSION * BLOCK_DIMENSION * block_count;
        let out_width = BLOCK_DIMENSION / 2 + 1;
        let out_pitch_elems = ((out_width + 1) / 2) * 2;
        proof {
            assert(out_pitch_elems * BLOCK_DIMENSION * nx * ny == 576 * (nx * ny))
                by (nonlinear_arith)
                requires
                    out_pitch_elems == 18,
            ;
        }
        let out_size = out_pitch_elems * BLOCK_DIMENSION * block_count;
        proof {
            assert(BLOCK_DIMENSION * BLOCK_DIMENSION * block_count == BLOCK_DIMENSION
                * BLOCK_DIMENSION * nx * ny) by (nonlinear_arith)
                requires
                    block_count == nx * ny,
            ;
            assert(out_pitch_elems * BLOCK_DIMENSION * block_count == out_pitch_elems
                * BLOCK_DIMENSION * nx * ny) by (nonlinear_arith)
                requires
                    block_count == nx * ny,
            ;
        }
        FftTransform {
            plane_idx,
            n_overlap_x,
            n_overlap_y,
            mirror_w: BLOCK_INTERVAL,
            mirror_h: BLOCK_INTERVAL,
            cover_width,
            cover_height,
            cover_pitch,
            cover_buf,
            in_size,
            out_width,
            out_pitch_elems,
            out_size,
            block_count,
        }
    }
}

/// The number of planes of a frame: one for monochrome, else three.
pub open spec fn spec_num_planes(cs: ChromaSampling) -> usize {
    if cs == ChromaSampling::Cs400 {
        1
    } else {
        3
    }
}

/// Whether `frame_q` has an entry, a frame or the end of the input, for
/// input frame `frameno`.
pub open spec fn entry_queued<T: Pixel>(frame_q: &FrameQueue<T>, frameno: int) -> bool {
    frame_q.start() <= frameno < frame_q.start() + frame_q.presence().len()
}

/// A temporal denoiser: it filters each frame together with the frame
/// before it and the frame after it.
#[derive(Debug, Clone)]
pub struct FftDenoiser<T: Pixel> {
    /// The chroma subsampling of the frames.
    chroma_sampling: ChromaSampling,
    /// The unfiltered previous frame.
    previous_frame: Option<Frame<T>>,
    /// The input frame number of the next frame to filter.
    pub cur_frameno: u64,
}

impl<T: Pixel> FftDenoiser<T> {
    /// The chroma subsampling of the frames the denoiser filters.
    pub closed spec fn sampling(&self) -> ChromaSampling {
        self.chroma_sampling
    }

    /// The input frame number of the next frame to filter.
    pub closed spec fn next_frameno(&self) -> u64 {
        self.cur_frameno
    }

    /// Whether the denoiser holds the unfiltered frame before the next frame
    /// to filter.
    pub closed spec fn holds_previous_frame(&self) -> bool {
        self.previous_frame is Some
    }

    /// A denoiser for frames of `width` by `height` with samples of type `T`
    /// and bit depth `bit_depth`: 8 bits at most in `u8` samples, more in
    /// `u16` samples. It sets up the block layout of each plane and starts
    /// before the first frame, with no previous frame.
    pub fn new(width: usize, height: usize, bit_depth: u8, chroma_sampling: ChromaSampling) -> (d:
        FftDenoiser<T>)
        requires
            T::spec_size() == 1 ==> bit_depth <= 8,
            T::spec_size() != 1 ==> bit_depth > 8,
            forall|p: usize|
                p < spec_num_planes(chroma_sampling) ==> #[trigger] transform_fits(
                    p,
                    width,
                    height,
                    chroma_sampling,
                    T::spec_size(),
                ),
        ensures
            d.sampling() == chroma_sampling,
            !d.holds_previous_frame(),
            d.next_frameno() == 0,
    {
        let num_planes: usize = if chroma_sampling == ChromaSampling::Cs400 {
            1
        } else {
            3
        };
        let mut plane: usize = 0;
        while plane < num_planes
            invariant
                num_planes == spec_num_planes(chroma_sampling),
                plane <= num_planes,
                forall|p: usize|
                    p < spec_num_planes(chroma_sampling) ==> #[trigger] transform_fits(
                        p,
                        width,
                        height,
                        chroma_sampling,
                        T::spec_size(),
                    ),
            decreases num_planes - plane,
        {
            let _transform = FftTransform::new::<T>(plane, width, height, chroma_sampling);
            plane = plane + 1;
        }
        FftDenoiser { chroma_sampling, previous_frame: None, cur_frameno: 0 }
    }

    /// Takes the next frame to filter from the queue. The temporal filter
    /// needs the unfiltered previous frame and an entry for the frame after
    /// the current one in the queue (holding a frame, or marking the end of
    /// the input); without them it answers `NeedMoreData` and changes
    /// nothing. The filter itself is not implemented, and the calls that
    /// would run it, with both neighbours at hand, are left out.
    pub fn filter_frame(&mut self, frame_q: &FrameQueue<T>) -> (r: Result<Frame<T>, EncoderStatus>)
        requires
            old(self).holds_previous_frame() ==> old(self).next_frameno() < u64::MAX
                && !entry_queued(frame_q, old(self).next_frameno() + 1),
        ensures
            r == Err::<Frame<T>, EncoderStatus>(EncoderStatus::NeedMoreData),
            *final(self) == *old(self),
    {
        if self.previous_frame.is_none() {
            return Err(EncoderStatus::NeedMoreData);
        }
        let next = self.cur_frameno + 1;
        match frame_q.get(&next) {
            None => Err(EncoderStatus::NeedMoreData),
            Some(_) => {
                proof {
                    assert(false);
                }
                Err(EncoderStatus::Failure)
            },
        }
    }
}

} // verus!
