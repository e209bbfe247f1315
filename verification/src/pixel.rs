//! Pixel types and chroma subsampling.

use vstd::prelude::*;

verus! {

/// A sample type of a plane: `u8` for 8-bit video, `u16` for high bit depth.
pub trait Pixel: Copy + Sized {
    /// The sample as an integer.
    spec fn spec_value(&self) -> int;

    /// The largest value the type can hold.
    spec fn spec_max() -> int;

    /// Size of the type in bytes.
    spec fn spec_size() -> int;

    /// The sample of value zero.
    fn zero() -> (r: Self)
        ensures
            r.spec_value() == 0,
    ;

    /// The sample as a `u32`.
    fn to_u32(&self) -> (r: u32)
        ensures
            r as int == self.spec_value(),
            0 <= r <= Self::spec_max(),
    ;

    /// A sample of the given value.
    fn from_u16(v: u16) -> (r: Self)
        requires
            v <= Self::spec_max(),
        ensures
            r.spec_value() == v,
    ;

    /// Size of the type in bytes.
    fn size() -> (r: usize)
        ensures
            r == Self::spec_size(),
            r == 1 || r == 2,
    ;
}

impl Pixel for u8 {
    open spec fn spec_value(&self) -> int {
        *self as int
    }

    open spec fn spec_max() -> int {
        255
    }

    open spec fn spec_size() -> int {
        1
    }

    fn zero() -> (r: Self) {
        0
    }

    fn to_u32(&self) -> (r: u32) {
        *self as u32
    }

    fn from_u16(v: u16) -> (r: Self) {
        v as u8
    }

    fn size() -> (r: usize) {
        1
    }
}

impl Pixel for u16 {
    open spec fn spec_value(&self) -> int {
        *self as int
    }

    open spec fn spec_max() -> int {
        65535
    }

    open spec fn spec_size() -> int {
        2
    }

    fn zero() -> (r: Self) {
        0
    }

    fn to_u32(&self) -> (r: u32) {
        *self as u32
    }

    fn from_u16(v: u16) -> (r: Self) {
        v
    }

    fn size() -> (r: usize) {
        2
    }
}

/// Chroma subsampling format.
#[derive(Debug, Clone, Copy, PartialEq, Eq, Structural)]
pub enum ChromaSampling {
    /// Both vertically and horizontally subsampled.
    Cs420,
    /// Horizontally subsampled.
    Cs422,
    /// Not subsampled.
    Cs444,
    /// Monochrome.
    Cs400,
}

/// Position of the chroma samples relative to the luma samples.
#[derive(Debug, Clone, Copy, PartialEq, Eq, Structural)]
pub enum ChromaSamplePosition {
    /// The source video transfer function is not signaled.
    Unknown,
    /// Horizontally co-located with the (0, 0) luma sample, between two vertical samples.
    Vertical,
    /// Co-located with the (0, 0) luma sample.
    Colocated,
}

/// Range of the sample values.
#[derive(Debug, Clone, Copy, PartialEq, Eq, Structural)]
pub enum PixelRange {
    /// Studio swing: 16..=235 for 8-bit luma.
    Limited,
    /// Full swing: 0..=255 for 8-bit luma.
    Full,
}

/// The decimation of the chroma planes, `None` for monochrome.
pub open spec fn spec_decimation(cs: ChromaSampling) -> Option<(usize, usize)> {
    match cs {
        ChromaSampling::Cs420 => Some((1, 1)),
        ChromaSampling::Cs422 => Some((1, 0)),
        ChromaSampling::Cs444 => Some((0, 0)),
        ChromaSampling::Cs400 => None,
    }
}

/// The chroma plane size for a luma plane of `w` by `h`.
pub open spec fn spec_chroma_dimensions(cs: ChromaSampling, w: usize, h: usize) -> (usize, usize) {
    match spec_decimation(cs) {
        Some((sx, sy)) => (((w + sx) / pow2_small(sx)) as usize, ((h + sy) / pow2_small(sy)) as usize),
        None => (0, 0),
    }
}

/// `2^d` for a decimation `d` of 0 or 1.
pub open spec fn pow2_small(d: usize) -> int {
    if d == 0 { 1 } else { 2 }
}

/// The chroma planes of 4:4:4 video are as large as the luma plane, those
/// of 4:2:2 video half as wide (rounding up), those of 4:2:0 video half as
/// wide and half as high, and monochrome video has none.
pub proof fn law_chroma_dimensions_by_sampling(cs: ChromaSampling, w: usize, h: usize)
    requires
        w < usize::MAX,
        h < usize::MAX,
    ensures
        ({
            let (cw, ch) = spec_chroma_dimensions(cs, w, h);
            &&& cs == ChromaSampling::Cs444 ==> cw == w && ch == h
            &&& cs == ChromaSampling::Cs422 ==> w <= 2 * cw <= w + 1 && ch == h
            &&& cs == ChromaSampling::Cs420 ==> w <= 2 * cw <= w + 1 && h <= 2 * ch <= h + 1
            &&& cs == ChromaSampling::Cs400 ==> cw == 0 && ch == 0
            &&& cw <= w && ch <= h
        }),
{
}

impl ChromaSampling {
    /// The horizontal and vertical decimation of the chroma planes, or `None`
    /// for monochrome video.
    pub fn get_decimation(self) -> (r: Option<(usize, usize)>)
        ensures
            r == spec_decimation(self),
    {
        match self {
            ChromaSampling::Cs420 => Some((1, 1)),
            ChromaSampling::Cs422 => Some((1, 0)),
            ChromaSampling::Cs444 => Some((0, 0)),
            ChromaSampling::Cs400 => None,
        }
    }

    /// The dimensions of a chroma plane for a luma plane of the given size:
    /// each subsampled direction is halved, rounding up; monochrome has none.
    pub fn get_chroma_dimensions(self, luma_width: usize, luma_height: usize) -> (r: (usize, usize))
        requires
            luma_width < usize::MAX,
            luma_height < usize::MAX,
        ensures
            r == spec_chroma_dimensions(self, luma_width, luma_height),
    {
        match self.get_decimation() {
            Some((ss_x, ss_y)) => {
                let div_x: usize = if ss_x == 0 { 1 } else { 2 };
                let div_y: usize = if ss_y == 0 { 1 } else { 2 };
                ((luma_width + ss_x) / div_x, (luma_height + ss_y) / div_y)
            },
            None => (0, 0),
        }
    }
}

} // verus!
