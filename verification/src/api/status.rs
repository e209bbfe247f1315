//! Values exchanged with the user of an encoding context.

use crate::api::frame_info::FrameType;
use vstd::prelude::*;

verus! {

/// Why a context did not accept a frame or hand out a packet.
#[derive(Debug, Clone, Copy, PartialEq, Eq, Structural)]
pub enum EncoderStatus {
    /// The encoder needs more input frames before it can go on.
    NeedMoreData,
    /// No more frames are accepted: the input was flushed.
    EnoughData,
    /// All frames up to the limit were handed out.
    LimitReached,
    /// A frame was coded but produced no packet: it is hidden or a
    /// placeholder; ask again.
    Encoded,
    /// An internal failure.
    Failure,
    /// The rate control is not ready.
    NotReady,
}

/// A value the user attaches to an input frame and gets back with its packet.
#[derive(Debug, Clone, Copy, PartialEq, Eq, Structural)]
pub struct Opaque {
    /// The attached value.
    pub value: u64,
}

impl Opaque {
    /// Wraps a value.
    pub fn new(value: u64) -> (r: Opaque)
        ensures
            r.value == value,
    {
        Opaque { value }
    }
}

/// Whether the user forces the frame type of an input frame.
#[derive(Debug, Clone, Copy, PartialEq, Eq, Structural)]
pub enum FrameTypeOverride {
    /// The encoder decides.
    No,
    /// The frame is a keyframe.
    Key,
}

/// Settings that come with one input frame.
#[derive(Debug, Clone, Copy, PartialEq, Eq, Structural)]
pub struct FrameParameters {
    /// Forced frame type.
    pub frame_type_override: FrameTypeOverride,
    /// A value handed back with the frame's packet.
    pub opaque: Option<Opaque>,
}

/// The output for one shown frame.
#[derive(Debug, Clone, Copy, PartialEq, Eq, Structural)]
pub struct Packet {
    /// The input frame that the packet shows.
    pub input_frameno: u64,
    /// The kind of frame coded.
    pub frame_type: FrameType,
    /// The value attached to the input frame, if any.
    pub opaque: Option<Opaque>,
}

} // verus!
