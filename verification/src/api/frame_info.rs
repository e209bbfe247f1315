//! The per-frame decisions that frame scheduling makes.

use crate::api::inter_config::InterConfig;
use crate::api::lookahead::PyramidDecision;
use vstd::prelude::*;

verus! {

/// The kind of a coded frame.
#[allow(non_camel_case_types)]
#[derive(Debug, Clone, Copy, PartialEq, Eq, Structural)]
pub enum FrameType {
    /// A keyframe: coded without references, resets the GOP.
    KEY,
    /// An inter frame.
    INTER,
    /// An intra frame that does not reset the GOP.
    INTRA_ONLY,
    /// A switch frame: an inter frame at which a decoder may switch streams.
    SWITCH,
}

/// What frame scheduling decides about one output frame.
#[derive(Debug, Clone, Copy, PartialEq, Eq, Structural)]
pub struct FrameInvariants {
    /// The input frame coded or shown.
    pub input_frameno: u64,
    /// The output frame number.
    pub output_frameno: u64,
    /// The frame kind.
    pub frame_type: FrameType,
    /// Whether the frame is shown.
    pub show_frame: bool,
    /// Whether the frame only shows an already coded frame.
    pub show_existing_frame: bool,
    /// Index of the frame in its re-ordering group.
    pub idx_in_group_output: u64,
    /// Level in the re-ordering pyramid.
    pub pyramid_level: u64,
}

/// The keyframe that starts a GOP at the given input and output frame.
pub open spec fn spec_key_frame(input_frameno: u64, output_frameno: u64) -> FrameInvariants {
    FrameInvariants {
        input_frameno,
        output_frameno,
        frame_type: FrameType::KEY,
        show_frame: true,
        show_existing_frame: false,
        idx_in_group_output: 0,
        pyramid_level: 0,
    }
}

/// The kind of an inter frame: a switch frame every `switch_frame_interval`
/// output frames after the keyframe, otherwise a plain inter frame.
pub open spec fn spec_inter_frame_type(
    inter_cfg: InterConfig,
    output_frameno: u64,
    keyframe_output_frameno: u64,
) -> FrameType {
    if inter_cfg.switch_frame_interval > 0 && (output_frameno - keyframe_output_frameno)
        % (inter_cfg.switch_frame_interval as int) == 0 {
        FrameType::SWITCH
    } else {
        FrameType::INTER
    }
}

/// The inter frame that a pyramid decision describes.
pub open spec fn spec_inter_frame(
    pd: PyramidDecision,
    inter_cfg: InterConfig,
    keyframe_output_frameno: u64,
) -> FrameInvariants {
    FrameInvariants {
        input_frameno: pd.input_frameno,
        output_frameno: pd.output_frameno,
        frame_type: spec_inter_frame_type(inter_cfg, pd.output_frameno, keyframe_output_frameno),
        show_frame: pd.show_frame,
        show_existing_frame: pd.show_existing_frame,
        idx_in_group_output: pd.index_in_group,
        pyramid_level: pd.level,
    }
}

impl FrameInvariants {
    /// A keyframe at the given input and output frame numbers.
    pub fn new_key_frame(input_frameno: u64, output_frameno: u64) -> (fi: FrameInvariants)
        ensures
            fi == spec_key_frame(input_frameno, output_frameno),
    {
        FrameInvariants {
            input_frameno,
            output_frameno,
            frame_type: FrameType::KEY,
            show_frame: true,
            show_existing_frame: false,
            idx_in_group_output: 0,
            pyramid_level: 0,
        }
    }

    /// The inter frame described by a pyramid decision, in the GOP of the
    /// keyframe output as `keyframe_output_frameno`.
    pub fn new_inter_frame(
        pd: PyramidDecision,
        inter_cfg: &InterConfig,
        keyframe_output_frameno: u64,
    ) -> (fi: FrameInvariants)
        requires
            pd.output_frameno >= keyframe_output_frameno,
        ensures
            fi == spec_inter_frame(pd, *inter_cfg, keyframe_output_frameno),
    {
        let frame_type = if inter_cfg.switch_frame_interval > 0 && (pd.output_frameno
            - keyframe_output_frameno) % inter_cfg.switch_frame_interval == 0 {
            FrameType::SWITCH
        } else {
            FrameType::INTER
        };
        FrameInvariants {
            input_frameno: pd.input_frameno,
            output_frameno: pd.output_frameno,
            frame_type,
            show_frame: pd.show_frame,
            show_existing_frame: pd.show_existing_frame,
            idx_in_group_output: pd.index_in_group,
            pyramid_level: pd.level,
        }
    }
}

} // verus!
