//! What a y4m input stream says about its video: sample format, bit depth,
//! aspect ratio and time base.

use crate::api::config::Rational;
use crate::pixel::{spec_decimation, ChromaSamplePosition, ChromaSampling};
use vstd::prelude::*;

verus! {

/// The sample formats of a y4m stream.
#[derive(Debug, Clone, Copy, PartialEq, Eq, Structural)]
pub enum Y4mColorspace {
    /// Grayscale only, 8-bit.
    Cmono,
    /// Grayscale only, 12-bit.
    Cmono12,
    /// 4:2:0 with coincident chroma planes, 8-bit.
    C420,
    /// 4:2:0 with coincident chroma planes, 10-bit.
    C420p10,
    /// 4:2:0 with coincident chroma planes, 12-bit.
    C420p12,
    /// 4:2:0 with biaxially-displaced chroma planes, 8-bit.
    C420jpeg,
    /// 4:2:0 with vertically-displaced chroma planes, 8-bit.
    C420paldv,
    /// 4:2:0 as in MPEG-2, 8-bit.
    C420mpeg2,
    /// 4:2:2, 8-bit.
    C422,
    /// 4:2:2, 10-bit.
    C422p10,
    /// 4:2:2, 12-bit.
    C422p12,
    /// 4:4:4, 8-bit.
    C444,
    /// 4:4:4, 10-bit.
    C444p10,
    /// 4:4:4, 12-bit.
    C444p12,
}

/// The chroma subsampling and chroma sample position of a y4m format.
pub open spec fn spec_map_y4m_color_space(c: Y4mColorspace) -> (ChromaSampling, ChromaSamplePosition) {
    match c {
        Y4mColorspace::Cmono | Y4mColorspace::Cmono12 => (
            ChromaSampling::Cs400,
            ChromaSamplePosition::Unknown,
        ),
        Y4mColorspace::C420jpeg | Y4mColorspace::C420paldv => (
            ChromaSampling::Cs420,
            ChromaSamplePosition::Unknown,
        ),
        Y4mColorspace::C420mpeg2 => (ChromaSampling::Cs420, ChromaSamplePosition::Vertical),
        Y4mColorspace::C420 | Y4mColorspace::C420p10 | Y4mColorspace::C420p12 => (
            ChromaSampling::Cs420,
            ChromaSamplePosition::Colocated,
        ),
        Y4mColorspace::C422 | Y4mColorspace::C422p10 | Y4mColorspace::C422p12 => (
            ChromaSampling::Cs422,
            ChromaSamplePosition::Colocated,
        ),
        Y4mColorspace::C444 | Y4mColorspace::C444p10 | Y4mColorspace::C444p12 => (
            ChromaSampling::Cs444,
            ChromaSamplePosition::Colocated,
        ),
    }
}

/// The chroma subsampling and chroma sample position of a y4m format:
/// monochrome has no chroma; the JPEG and PAL DV layouts leave the
/// position unsaid, MPEG-2 places chroma vertically between luma rows, the
/// others on the top left luma sample.
pub fn map_y4m_color_space(color_space: Y4mColorspace) -> (r: (ChromaSampling, ChromaSamplePosition))
    ensures
        r == spec_map_y4m_color_space(color_space),
{
    match color_space {
        Y4mColorspace::Cmono | Y4mColorspace::Cmono12 => (
            ChromaSampling::Cs400,
            ChromaSamplePosition::Unknown,
        ),
        Y4mColorspace::C420jpeg | Y4mColorspace::C420paldv => (
            ChromaSampling::Cs420,
            ChromaSamplePosition::Unknown,
        ),
        Y4mColorspace::C420mpeg2 => (ChromaSampling::Cs420, ChromaSamplePosition::Vertical),
        Y4mColorspace::C420 | Y4mColorspace::C420p10 | Y4mColorspace::C420p12 => (
            ChromaSampling::Cs420,
            ChromaSamplePosition::Colocated,
        ),
        Y4mColorspace::C422 | Y4mColorspace::C422p10 | Y4mColorspace::C422p12 => (
            ChromaSampling::Cs422,
            ChromaSamplePosition::Colocated,
        ),
        Y4mColorspace::C444 | Y4mColorspace::C444p10 | Y4mColorspace::C444p12 => (
            ChromaSampling::Cs444,
            ChromaSamplePosition::Colocated,
        ),
    }
}

/// A y4m format's chroma subsampling agrees with its name: the 4:4:4
/// formats keep chroma planes at full size, the 4:2:2 formats halve them
/// horizontally, the 4:2:0 formats halve them in both directions, and the
/// monochrome formats have none.
pub proof fn law_y4m_chroma_sampling_follows_format_name(c: Y4mColorspace)
    ensures
        (c is C444 || c is C444p10 || c is C444p12) <==> spec_map_y4m_color_space(c).0
            == ChromaSampling::Cs444,
        (c is C422 || c is C422p10 || c is C422p12) <==> spec_map_y4m_color_space(c).0
            == ChromaSampling::Cs422,
        (c is C420 || c is C420p10 || c is C420p12 || c is C420jpeg || c is C420paldv
            || c is C420mpeg2) <==> spec_map_y4m_color_space(c).0 == ChromaSampling::Cs420,
        (c is Cmono || c is Cmono12) <==> spec_map_y4m_color_space(c).0 == ChromaSampling::Cs400,
        (c is C444 || c is C444p10 || c is C444p12) ==> spec_decimation(
            spec_map_y4m_color_space(c).0,
        ) == Some((0usize, 0usize)),
        (c is C422 || c is C422p10 || c is C422p12) ==> spec_decimation(
            spec_map_y4m_color_space(c).0,
        ) == Some((1usize, 0usize)),
        (c is Cmono || c is Cmono12) <==> spec_decimation(spec_map_y4m_color_space(c).0) is None,
        !(c is Cmono || c is Cmono12 || c is C444 || c is C444p10 || c is C444p12 || c is C422
            || c is C422p10 || c is C422p12) ==> spec_decimation(spec_map_y4m_color_space(c).0)
            == Some((1usize, 1usize)),
{
}


/// The bit depth of a y4m format.
pub open spec fn spec_y4m_bit_depth(c: Y4mColorspace) -> usize {
    match c {
        Y4mColorspace::C420p10 | Y4mColorspace::C422p10 | Y4mColorspace::C444p10 => 10,
        Y4mColorspace::Cmono12 | Y4mColorspace::C420p12 | Y4mColorspace::C422p12
        | Y4mColorspace::C444p12 => 12,
        _ => 8,
    }
}

/// The bit depth of a y4m format: 10 for the `p10` formats, 12 for the
/// `p12` formats and `Cmono12`, 8 for the others.
pub fn y4m_bit_depth(c: Y4mColorspace) -> (r: usize)
    ensures
        r == spec_y4m_bit_depth(c),
{
    match c {
        Y4mColorspace::C420p10 | Y4mColorspace::C422p10 | Y4mColorspace::C444p10 => 10,
        Y4mColorspace::Cmono12 | Y4mColorspace::C420p12 | Y4mColorspace::C422p12
        | Y4mColorspace::C444p12 => 12,
        _ => 8,
    }
}

/// A y4m format's bit depth agrees with its name: 10 bits for the `p10`
/// formats, 12 bits for the `p12` formats and 12-bit monochrome, 8 bits for
/// the others; the same subsampling comes at each of its bit depths.
pub proof fn law_y4m_bit_depth_follows_format_name(c: Y4mColorspace)
    ensures
        (c is C420p10 || c is C422p10 || c is C444p10) <==> spec_y4m_bit_depth(c) == 10,
        (c is C420p12 || c is C422p12 || c is C444p12 || c is Cmono12) <==> spec_y4m_bit_depth(c)
            == 12,
        spec_y4m_bit_depth(c) == 8 || spec_y4m_bit_depth(c) == 10 || spec_y4m_bit_depth(c) == 12,
        spec_map_y4m_color_space(Y4mColorspace::C420p10) == spec_map_y4m_color_space(Y4mColorspace::C420),
        spec_map_y4m_color_space(Y4mColorspace::C420p12) == spec_map_y4m_color_space(Y4mColorspace::C420),
        spec_map_y4m_color_space(Y4mColorspace::C422p10) == spec_map_y4m_color_space(Y4mColorspace::C422),
        spec_map_y4m_color_space(Y4mColorspace::C422p12) == spec_map_y4m_color_space(Y4mColorspace::C422),
        spec_map_y4m_color_space(Y4mColorspace::C444p10) == spec_map_y4m_color_space(Y4mColorspace::C444),
        spec_map_y4m_color_space(Y4mColorspace::C444p12) == spec_map_y4m_color_space(Y4mColorspace::C444),
        spec_map_y4m_color_space(Y4mColorspace::Cmono12) == spec_map_y4m_color_space(Y4mColorspace::Cmono),
{
}

/// What the encoder needs to know of an input video.
#[derive(Debug, Clone, Copy, PartialEq, Eq, Structural)]
pub struct VideoDetails {
    /// Width in samples.
    pub width: usize,
    /// Height in samples.
    pub height: usize,
    /// Shape of a sample.
    pub sample_aspect_ratio: Rational,
    /// Bits per sample.
    pub bit_depth: usize,
    /// Chroma subsampling.
    pub chroma_sampling: ChromaSampling,
    /// Position of the chroma samples.
    pub chroma_sample_position: ChromaSamplePosition,
    /// Duration of a frame in seconds: the inverse of the frame rate.
    pub time_base: Rational,
}

/// The details of a y4m stream of the given size, sample aspect ratio,
/// format and frame rate: an aspect ratio of `0:0` means square samples,
/// and the time base is the frame rate turned over.
pub fn video_details(
    width: usize,
    height: usize,
    aspect_num: usize,
    aspect_den: usize,
    color_space: Y4mColorspace,
    framerate_num: usize,
    framerate_den: usize,
) -> (d: VideoDetails)
    ensures
        d.width == width,
        d.height == height,
        d.sample_aspect_ratio == (if aspect_num == 0 && aspect_den == 0 {
            Rational { num: 1, den: 1 }
        } else {
            Rational { num: aspect_num as u64, den: aspect_den as u64 }
        }),
        d.bit_depth == spec_y4m_bit_depth(color_space),
        (d.chroma_sampling, d.chroma_sample_position) == spec_map_y4m_color_space(color_space),
        d.time_base == (Rational { num: framerate_den as u64, den: framerate_num as u64 }),
{
    let bit_depth = y4m_bit_depth(color_space);
    let (chroma_sampling, chroma_sample_position) = map_y4m_color_space(color_space);
    let time_base = Rational::new(framerate_den as u64, framerate_num as u64);
    let sample_aspect_ratio = if aspect_num == 0 && aspect_den == 0 {
        Rational::new(1, 1)
    } else {
        Rational::new(aspect_num as u64, aspect_den as u64)
    };
    VideoDetails {
        width,
        height,
        sample_aspect_ratio,
        bit_depth,
        chroma_sampling,
        chroma_sample_position,
        time_base,
    }
}

} // verus!
