//! Encoder configuration and its validation.

use crate::pixel::{ChromaSamplePosition, ChromaSampling, PixelRange};
use vstd::prelude::*;

verus! {

/// The largest number of frames the rate-distortion lookahead may use.
pub const MAX_RDO_LOOKAHEAD_FRAMES: usize = 40;

/// The largest accepted maximum keyframe interval.
pub const MAX_MAX_KEY_FRAME_INTERVAL: u64 = 0x7fff_ffff;

/// The largest accepted frame width or height.
pub const MAX_FRAME_DIMENSION: usize = 65536;

/// The largest accepted number of tile columns or rows.
pub const MAX_TILE_COLS_ROWS: usize = 64;

/// The largest accepted total number of tiles.
pub const MAX_TILES: usize = 4096;

/// A rational number: the time base of the stream.
#[derive(Debug, Clone, Copy, PartialEq, Eq, Structural)]
pub struct Rational {
    /// Numerator.
    pub num: u64,
    /// Denominator.
    pub den: u64,
}

impl Rational {
    /// The rational number `num / den`.
    pub fn new(num: u64, den: u64) -> (r: Rational)
        ensures
            r.num == num,
            r.den == den,
    {
        Rational { num, den }
    }
}

/// How scene changes are looked for.
#[derive(Debug, Clone, Copy, PartialEq, Eq, Structural)]
pub enum SceneDetectionSpeed {
    /// Fast scene detection on downscaled frames.
    Fast,
    /// Scene detection on full frames.
    Standard,
    /// Keyframes only at the configured intervals.
    Off,
}

/// Speed and quality trade-offs that matter to frame scheduling.
#[derive(Debug, Clone, Copy, PartialEq, Eq, Structural)]
pub struct SpeedSettings {
    /// Whether P-frames may use several references.
    pub multiref: bool,
    /// Number of frames read ahead for rate-distortion decisions.
    pub rdo_lookahead_frames: usize,
    /// How scene changes are found.
    pub scene_detection_mode: SceneDetectionSpeed,
}

/// The lookahead length of a speed preset.
pub open spec fn spec_preset_rdo_lookahead(speed: usize) -> usize {
    if speed <= 1 {
        40
    } else if speed <= 5 {
        30
    } else if speed <= 8 {
        20
    } else {
        10
    }
}

impl SpeedSettings {
    /// The settings of a speed preset: 0 is the slowest, 10 the fastest.
    pub fn from_preset(speed: usize) -> (s: SpeedSettings)
        ensures
            s.multiref == (speed <= 3),
            s.rdo_lookahead_frames == spec_preset_rdo_lookahead(speed),
            s.scene_detection_mode == (if speed >= 10 {
                SceneDetectionSpeed::Fast
            } else {
                SceneDetectionSpeed::Standard
            }),
    {
        let rdo_lookahead_frames: usize = if speed <= 1 {
            40
        } else if speed <= 5 {
            30
        } else if speed <= 8 {
            20
        } else {
            10
        };
        SpeedSettings {
            multiref: speed <= 3,
            rdo_lookahead_frames,
            scene_detection_mode: if speed >= 10 {
                SceneDetectionSpeed::Fast
            } else {
                SceneDetectionSpeed::Standard
            },
        }
    }
}

/// Encoder settings.
#[derive(Debug, Clone, Copy, PartialEq, Eq, Structural)]
pub struct EncoderConfig {
    /// Width of the frames in pixels.
    pub width: usize,
    /// Height of the frames in pixels.
    pub height: usize,
    /// Bit depth.
    pub bit_depth: usize,
    /// Chroma subsampling.
    pub chroma_sampling: ChromaSampling,
    /// Chroma sample position.
    pub chroma_sample_position: ChromaSamplePosition,
    /// Pixel value range.
    pub pixel_range: PixelRange,
    /// The time base of the stream.
    pub time_base: Rational,
    /// The minimum interval between two keyframes.
    pub min_key_frame_interval: u64,
    /// The maximum interval between two keyframes.
    pub max_key_frame_interval: u64,
    /// The number of temporal units of the rate control buffer.
    pub reservoir_frame_delay: Option<i32>,
    /// Whether frame re-ordering is disabled.
    pub low_latency: bool,
    /// The base quantizer.
    pub quantizer: usize,
    /// The minimum quantizer.
    pub min_quantizer: u8,
    /// The target bitrate, 0 for constant quantizer.
    pub bitrate: i32,
    /// Whether error resilient mode is on.
    pub error_resilient: bool,
    /// Interval between switch frames, 0 for none.
    pub switch_frame_interval: u64,
    /// Number of tile columns.
    pub tile_cols: usize,
    /// Number of tile rows.
    pub tile_rows: usize,
    /// Total number of tiles.
    pub tiles: usize,
    /// Speed settings.
    pub speed_settings: SpeedSettings,
}

/// Why a configuration is refused.
#[derive(Debug, Clone, Copy, PartialEq, Eq, Structural)]
pub enum InvalidConfig {
    /// The width is zero or too large.
    InvalidWidth,
    /// The height is zero or too large.
    InvalidHeight,
    /// The bit depth is not 8, 10 or 12.
    InvalidBitDepth,
    /// The quantizer is not in 1..=255.
    InvalidQuantizer,
    /// The time base numerator is zero.
    InvalidFrameRateNum,
    /// The time base denominator is zero.
    InvalidFrameRateDen,
    /// The maximum keyframe interval is too large.
    InvalidMaxKeyFrameInterval,
    /// The minimum keyframe interval exceeds the maximum.
    InvalidMinKeyFrameInterval,
    /// The reservoir frame delay is outside 12..=131072.
    InvalidReservoirFrameDelay,
    /// Too many tile columns.
    InvalidTileCols,
    /// Too many tile rows.
    InvalidTileRows,
    /// Too many tiles.
    InvalidTiles,
    /// The lookahead is zero or larger than 40 frames.
    InvalidRdoLookaheadFrames,
    /// Switch frames need low latency mode.
    SwitchFrameRequiresLowLatency,
}

/// The first reason why `c` is refused, if any.
pub open spec fn spec_validate(c: EncoderConfig) -> Result<(), InvalidConfig> {
    if c.width == 0 || c.width > MAX_FRAME_DIMENSION {
        Err(InvalidConfig::InvalidWidth)
    } else if c.height == 0 || c.height > MAX_FRAME_DIMENSION {
        Err(InvalidConfig::InvalidHeight)
    } else if c.bit_depth != 8 && c.bit_depth != 10 && c.bit_depth != 12 {
        Err(InvalidConfig::InvalidBitDepth)
    } else if c.quantizer == 0 || c.quantizer > 255 {
        Err(InvalidConfig::InvalidQuantizer)
    } else if c.time_base.num == 0 {
        Err(InvalidConfig::InvalidFrameRateNum)
    } else if c.time_base.den == 0 {
        Err(InvalidConfig::InvalidFrameRateDen)
    } else if c.max_key_frame_interval > MAX_MAX_KEY_FRAME_INTERVAL {
        Err(InvalidConfig::InvalidMaxKeyFrameInterval)
    } else if c.min_key_frame_interval > c.max_key_frame_interval {
        Err(InvalidConfig::InvalidMinKeyFrameInterval)
    } else if c.reservoir_frame_delay is Some && (c.reservoir_frame_delay->0 < 12
        || c.reservoir_frame_delay->0 > 131072) {
        Err(InvalidConfig::InvalidReservoirFrameDelay)
    } else if c.tile_cols > MAX_TILE_COLS_ROWS {
        Err(InvalidConfig::InvalidTileCols)
    } else if c.tile_rows > MAX_TILE_COLS_ROWS {
        Err(InvalidConfig::InvalidTileRows)
    } else if c.tiles > MAX_TILES {
        Err(InvalidConfig::InvalidTiles)
    } else if c.speed_settings.rdo_lookahead_frames == 0
        || c.speed_settings.rdo_lookahead_frames > MAX_RDO_LOOKAHEAD_FRAMES {
        Err(InvalidConfig::InvalidRdoLookaheadFrames)
    } else if c.switch_frame_interval > 0 && !c.low_latency {
        Err(InvalidConfig::SwitchFrameRequiresLowLatency)
    } else {
        Ok(())
    }
}

/// A configuration the encoder accepts.
pub open spec fn config_valid(c: EncoderConfig) -> bool {
    spec_validate(c) is Ok
}

/// A configuration is accepted exactly when every setting is in its range,
/// and a refusal names a setting that is out of its range.
pub proof fn law_validate_accepts_settings_in_range(c: EncoderConfig)
    ensures
        config_valid(c) <==> {
            &&& 0 < c.width <= MAX_FRAME_DIMENSION
            &&& 0 < c.height <= MAX_FRAME_DIMENSION
            &&& (c.bit_depth == 8 || c.bit_depth == 10 || c.bit_depth == 12)
            &&& 1 <= c.quantizer <= 255
            &&& c.time_base.num != 0 && c.time_base.den != 0
            &&& c.min_key_frame_interval <= c.max_key_frame_interval <= MAX_MAX_KEY_FRAME_INTERVAL
            &&& (c.reservoir_frame_delay matches Some(d) ==> 12 <= d <= 131072)
            &&& c.tile_cols <= MAX_TILE_COLS_ROWS && c.tile_rows <= MAX_TILE_COLS_ROWS
            &&& c.tiles <= MAX_TILES
            &&& 1 <= c.speed_settings.rdo_lookahead_frames <= MAX_RDO_LOOKAHEAD_FRAMES
            &&& (c.switch_frame_interval > 0 ==> c.low_latency)
        },
        spec_validate(c) == Err::<(), InvalidConfig>(InvalidConfig::InvalidWidth) ==> c.width == 0
            || c.width > MAX_FRAME_DIMENSION,
        spec_validate(c) == Err::<(), InvalidConfig>(InvalidConfig::InvalidHeight) ==> c.height == 0
            || c.height > MAX_FRAME_DIMENSION,
        spec_validate(c) == Err::<(), InvalidConfig>(InvalidConfig::InvalidBitDepth) ==> c.bit_depth
            != 8 && c.bit_depth != 10 && c.bit_depth != 12,
        spec_validate(c) == Err::<(), InvalidConfig>(InvalidConfig::InvalidQuantizer) ==> c.quantizer
            == 0 || c.quantizer > 255,
        spec_validate(c) == Err::<(), InvalidConfig>(InvalidConfig::InvalidMinKeyFrameInterval)
            ==> c.min_key_frame_interval > c.max_key_frame_interval,
        spec_validate(c) == Err::<(), InvalidConfig>(InvalidConfig::SwitchFrameRequiresLowLatency)
            ==> c.switch_frame_interval > 0 && !c.low_latency,
{
}

/// The configuration of speed preset `speed`: 640x480 8-bit 4:2:0 video at
/// 30 frames per second, keyframes every 12 to 240 frames, quantizer 100,
/// re-ordering on, and the speed settings of the preset.
pub open spec fn spec_preset_config(speed: usize) -> EncoderConfig {
    EncoderConfig {
        width: 640,
        height: 480,
        bit_depth: 8,
        chroma_sampling: ChromaSampling::Cs420,
        chroma_sample_position: ChromaSamplePosition::Unknown,
        pixel_range: PixelRange::Limited,
        time_base: Rational { num: 1, den: 30 },
        min_key_frame_interval: 12,
        max_key_frame_interval: 240,
        reservoir_frame_delay: None,
        low_latency: false,
        quantizer: 100,
        min_quantizer: 0,
        bitrate: 0,
        error_resilient: false,
        switch_frame_interval: 0,
        tile_cols: 0,
        tile_rows: 0,
        tiles: 0,
        speed_settings: SpeedSettings {
            multiref: speed <= 3,
            rdo_lookahead_frames: spec_preset_rdo_lookahead(speed),
            scene_detection_mode: if speed >= 10 {
                SceneDetectionSpeed::Fast
            } else {
                SceneDetectionSpeed::Standard
            },
        },
    }
}

impl EncoderConfig {
    /// The default configuration with the settings of a speed preset.
    pub fn with_speed_preset(speed: usize) -> (c: EncoderConfig)
        ensures
            c == spec_preset_config(speed),
            c.width == 640,
            c.height == 480,
            c.bit_depth == 8,
            c.chroma_sampling == ChromaSampling::Cs420,
            c.time_base == (Rational { num: 1, den: 30 }),
            c.min_key_frame_interval == 12,
            c.max_key_frame_interval == 240,
            c.reservoir_frame_delay is None,
            !c.low_latency,
            c.quantizer == 100,
            c.min_quantizer == 0,
            c.bitrate == 0,
            !c.error_resilient,
            c.switch_frame_interval == 0,
            c.tile_cols == 0 && c.tile_rows == 0 && c.tiles == 0,
            c.speed_settings.multiref == (speed <= 3),
            c.speed_settings.rdo_lookahead_frames == spec_preset_rdo_lookahead(speed),
            c.speed_settings.scene_detection_mode == (if speed >= 10 {
                SceneDetectionSpeed::Fast
            } else {
                SceneDetectionSpeed::Standard
            }),
            config_valid(c),
    {
        EncoderConfig {
            width: 640,
            height: 480,
            bit_depth: 8,
            chroma_sampling: ChromaSampling::Cs420,
            chroma_sample_position: ChromaSamplePosition::Unknown,
            pixel_range: PixelRange::Limited,
            time_base: Rational { num: 1, den: 30 },
            min_key_frame_interval: 12,
            max_key_frame_interval: 240,
            reservoir_frame_delay: None,
            low_latency: false,
            quantizer: 100,
            min_quantizer: 0,
            bitrate: 0,
            error_resilient: false,
            switch_frame_interval: 0,
            tile_cols: 0,
            tile_rows: 0,
            tiles: 0,
            speed_settings: SpeedSettings::from_preset(speed),
        }
    }

    /// Whether P-frames may use several references: always with re-ordering,
    /// otherwise as the speed settings say.
    pub fn multiref(&self) -> (r: bool)
        ensures
            r == (!self.low_latency || self.speed_settings.multiref),
    {
        !self.low_latency || self.speed_settings.multiref
    }

    /// Checks the configuration; `Ok` exactly when it is accepted, otherwise
    /// the first failed check.
    pub fn validate(&self) -> (r: Result<(), InvalidConfig>)
        ensures
            r == spec_validate(*self),
    {
        if self.width == 0 || self.width > MAX_FRAME_DIMENSION {
            Err(InvalidConfig::InvalidWidth)
        } else if self.height == 0 || self.height > MAX_FRAME_DIMENSION {
            Err(InvalidConfig::InvalidHeight)
        } else if self.bit_depth != 8 && self.bit_depth != 10 && self.bit_depth != 12 {
            Err(InvalidConfig::InvalidBitDepth)
        } else if self.quantizer == 0 || self.quantizer > 255 {
            Err(InvalidConfig::InvalidQuantizer)
        } else if self.time_base.num == 0 {
            Err(InvalidConfig::InvalidFrameRateNum)
        } else if self.time_base.den == 0 {
            Err(InvalidConfig::InvalidFrameRateDen)
        } else if self.max_key_frame_interval > MAX_MAX_KEY_FRAME_INTERVAL {
            Err(InvalidConfig::InvalidMaxKeyFrameInterval)
        } else if self.min_key_frame_interval > self.max_key_frame_interval {
            Err(InvalidConfig::InvalidMinKeyFrameInterval)
        } else if match self.reservoir_frame_delay {
            Some(d) => d < 12 || d > 131072,
            None => false,
        } {
            Err(InvalidConfig::InvalidReservoirFrameDelay)
        } else if self.tile_cols > MAX_TILE_COLS_ROWS {
            Err(InvalidConfig::InvalidTileCols)
        } else if self.tile_rows > MAX_TILE_COLS_ROWS {
            Err(InvalidConfig::InvalidTileRows)
        } else if self.tiles > MAX_TILES {
            Err(InvalidConfig::InvalidTiles)
        } else if self.speed_settings.rdo_lookahead_frames == 0
            || self.speed_settings.rdo_lookahead_frames > MAX_RDO_LOOKAHEAD_FRAMES {
            Err(InvalidConfig::InvalidRdoLookaheadFrames)
        } else if self.switch_frame_interval > 0 && !self.low_latency {
            Err(InvalidConfig::SwitchFrameRequiresLowLatency)
        } else {
            Ok(())
        }
    }
}

impl Default for EncoderConfig {
    /// The configuration of speed preset 6.
    fn default() -> (c: EncoderConfig)
        ensures
            c == spec_preset_config(6),
            c.width == 640,
            c.height == 480,
            c.bit_depth == 8,
            c.max_key_frame_interval == 240,
            c.min_key_frame_interval == 12,
            c.quantizer == 100,
            !c.low_latency,
            c.speed_settings.rdo_lookahead_frames == 20,
            !c.speed_settings.multiref,
            c.speed_settings.scene_detection_mode == SceneDetectionSpeed::Standard,
            config_valid(c),
    {
        EncoderConfig::with_speed_preset(6)
    }
}

} // verus!
