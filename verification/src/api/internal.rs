//! The encoding context behind the public interface: it queues input frames,
//! places keyframes, builds frame groups and hands out packets.

use crate::api::config::{config_valid, EncoderConfig, SceneDetectionSpeed};
use crate::api::frame_info::FrameInvariants;
use crate::api::frame_queue::{keeps_tail, lemma_keeps_tail_refl, FrameQueue};
use crate::api::inter_config::{pos_to_lvl, InterConfig};
use crate::api::lookahead::PyramidDecision;
use crate::api::schedule::{
    find_in_group, find_key, first_greater, first_greater_from, group_of, initial_view, lemma_pyramid_prefix,
    opaque_insert, opaque_remove, pyramid_entry, pyramid_raw_input, set_insert, spec_analyze_next_frame,
    spec_pyramid, ContextView, COUNTER_LIMIT,
};
use crate::api::status::{EncoderStatus, FrameParameters, FrameTypeOverride, Opaque, Packet};
use crate::frame::Frame;
use crate::pixel::Pixel;
use vstd::arithmetic::power2::pow2;
use vstd::prelude::*;

verus! {

/// Decides where GOPs start, by the keyframe intervals alone: no frame
/// content is examined for scene cuts, and the scene detection mode is
/// kept but not read.
#[derive(Debug, Clone, Copy, PartialEq, Eq, Structural)]
pub struct SceneChangeDetector {
    /// How many frames past a frame the decision waits for.
    pub lookahead_offset: u64,
    /// The minimum keyframe interval.
    pub min_key_frame_interval: u64,
    /// The maximum keyframe interval.
    pub max_key_frame_interval: u64,
    /// How scene cuts are looked for.
    pub scene_detection_mode: SceneDetectionSpeed,
}

impl SceneChangeDetector {
    /// A detector for the given settings; the decision waits for five frames
    /// past a frame when the lookahead distance allows it.
    pub fn new(config: &EncoderConfig, lookahead_distance: u64) -> (d: SceneChangeDetector)
        ensures
            d.lookahead_offset == (if lookahead_distance >= 5 { 5u64 } else { 0u64 }),
            d.min_key_frame_interval == config.min_key_frame_interval,
            d.max_key_frame_interval == config.max_key_frame_interval,
            d.scene_detection_mode == config.speed_settings.scene_detection_mode,
    {
        SceneChangeDetector {
            lookahead_offset: if lookahead_distance >= 5 { 5 } else { 0 },
            min_key_frame_interval: config.min_key_frame_interval,
            max_key_frame_interval: config.max_key_frame_interval,
            scene_detection_mode: config.speed_settings.scene_detection_mode,
        }
    }

    /// Whether input frame `input_frameno` starts a new GOP, given the number
    /// of lookahead frames at hand and the previous keyframe: only when the
    /// lookahead reaches past the decision delay and the maximum keyframe
    /// interval has run out. No scene-cut analysis is done.
    pub fn analyze_next_frame(
        &self,
        frame_set_len: u64,
        input_frameno: u64,
        previous_keyframe: u64,
    ) -> (r: bool)
        requires
            previous_keyframe <= input_frameno,
        ensures
            r == spec_analyze_next_frame(
                self.lookahead_offset,
                self.min_key_frame_interval,
                self.max_key_frame_interval,
                frame_set_len as nat,
                input_frameno,
                previous_keyframe,
            ),
    {
        let distance = input_frameno - previous_keyframe;
        if frame_set_len <= self.lookahead_offset {
            return false;
        }
        if distance < self.min_key_frame_interval {
            return false;
        }
        distance >= self.max_key_frame_interval
    }
}

/// Whether `v` holds `x`.
pub fn vec_contains(v: &Vec<u64>, x: u64) -> (r: bool)
    ensures
        r == v@.contains(x),
{
    let mut i: usize = 0;
    while i < v.len()
        invariant
            i <= v@.len(),
            forall|j: int| 0 <= j < i ==> v@[j] != x,
        decreases v@.len() - i,
    {
        if v[i] == x {
            return true;
        }
        i = i + 1;
    }
    false
}

/// The first element of `v` above `x`.
pub fn vec_first_greater(v: &Vec<u64>, x: u64) -> (r: Option<u64>)
    ensures
        r == first_greater(v@, x),
{
    let mut i: usize = 0;
    while i < v.len()
        invariant
            i <= v@.len(),
            first_greater(v@, x) == first_greater_from(v@, x, i as int),
        decreases v@.len() - i,
    {
        if v[i] > x {
            return Some(v[i]);
        }
        i = i + 1;
    }
    None
}

/// The position of the first entry of key `k`, or the length.
fn opaque_position(q: &Vec<(u64, Opaque)>, k: u64) -> (r: usize)
    ensures
        r == find_key(q@, k, 0),
{
    let mut i: usize = 0;
    while i < q.len()
        invariant
            i <= q@.len(),
            find_key(q@, k, 0) == find_key(q@, k, i as int),
        decreases q@.len() - i,
    {
        if q[i].0 == k {
            return i;
        }
        i = i + 1;
    }
    i
}

proof fn lemma_find_key_bound(q: Seq<(u64, Opaque)>, k: u64, i: int)
    requires
        0 <= i,
    ensures
        find_key(q, k, i) <= q.len(),
        find_key(q, k, i) < q.len() ==> q[find_key(q, k, i)].0 == k,
    decreases q.len() - i,
{
    if i < q.len() && q[i].0 != k {
        lemma_find_key_bound(q, k, i + 1);
    }
}

/// The encoding context: frame queue, keyframe placement and frame groups.
pub struct ContextInner<T: Pixel> {
    /// The encoder settings.
    pub config: EncoderConfig,
    /// Re-ordering options.
    pub inter_cfg: InterConfig,
    /// The number of input frames read.
    pub frame_count: u64,
    /// The number of output frames written.
    pub frames_processed: u64,
    /// The maximum number of frames to encode.
    pub limit: Option<u64>,
    /// The next input frame number to be processed.
    pub input_frameno: u64,
    /// The next output frame number to be processed.
    pub output_frameno: u64,
    /// The next input frame number where a new frame group is built.
    pub next_group_start_input_frameno: u64,
    /// The output frame number that starts the next frame group.
    pub next_group_start_output_frameno: u64,
    /// The current or most recent keyframe.
    pub current_keyframe: FrameInvariants,
    /// The frames of the current group. Placeholder frames are `None` and are
    /// skipped in coding; they keep the output frame count.
    pub current_frame_group: Vec<Option<FrameInvariants>>,
    /// Input frames by input frame number.
    pub frame_q: FrameQueue<T>,
    /// Values handed back to the user, by input frame number.
    pub opaque_q: Vec<(u64, Opaque)>,
    /// Places keyframes.
    pub keyframe_detector: SceneChangeDetector,
    /// The next frame to be checked for a scene cut.
    pub next_keyframe_detector_frame: u64,
    /// The input frame numbers of the keyframes of this encode, ascending.
    pub keyframes: Vec<u64>,
    /// The input frame numbers the user forced to be keyframes, ascending.
    pub keyframes_forced: Vec<u64>,
}

impl<T: Pixel> View for ContextInner<T> {
    type V = ContextView;

    open spec fn view(&self) -> ContextView {
        ContextView {
            config: self.config,
            inter_cfg: self.inter_cfg,
            frame_count: self.frame_count,
            frames_processed: self.frames_processed,
            limit: self.limit,
            input_frameno: self.input_frameno,
            output_frameno: self.output_frameno,
            next_group_start_input_frameno: self.next_group_start_input_frameno,
            next_group_start_output_frameno: self.next_group_start_output_frameno,
            current_keyframe: self.current_keyframe,
            current_frame_group: self.current_frame_group@,
            queue_start: self.frame_q.start(),
            queue: self.frame_q.presence(),
            keyframes: self.keyframes@,
            keyframes_forced: self.keyframes_forced@,
            next_keyframe_detector_frame: self.next_keyframe_detector_frame,
            lookahead_offset: self.keyframe_detector.lookahead_offset,
            opaque_q: self.opaque_q@,
        }
    }
}

impl<T: Pixel> ContextInner<T> {
    /// The invariant of the context.
    pub open spec fn wf(&self) -> bool {
        &&& self@.wf()
        &&& self.frame_q.wf()
        &&& self.keyframe_detector.min_key_frame_interval == self.config.min_key_frame_interval
        &&& self.keyframe_detector.max_key_frame_interval == self.config.max_key_frame_interval
    }

    /// A context for a valid configuration: frame 0 is a keyframe, no frame
    /// is read yet.
    pub fn new(enc: &EncoderConfig) -> (r: ContextInner<T>)
        requires
            config_valid(*enc),
        ensures
            r.wf(),
            r@ == initial_view(*enc, r.inter_cfg),
            r.inter_cfg.reorder == !enc.low_latency,
    {
        let inter_cfg = InterConfig::new(enc);
        let lookahead_distance = inter_cfg.keyframe_lookahead_distance();
        let keyframe_detector = SceneChangeDetector::new(enc, lookahead_distance);
        let mut keyframes: Vec<u64> = Vec::new();
        keyframes.push(0);
        let r = ContextInner {
            config: *enc,
            inter_cfg,
            frame_count: 0,
            frames_processed: 0,
            limit: None,
            input_frameno: 0,
            output_frameno: 0,
            next_group_start_input_frameno: 0,
            next_group_start_output_frameno: 0,
            current_keyframe: FrameInvariants::new_key_frame(0, 0),
            current_frame_group: Vec::new(),
            frame_q: FrameQueue::new(0),
            opaque_q: Vec::new(),
            keyframe_detector,
            next_keyframe_detector_frame: 1,
            keyframes,
            keyframes_forced: Vec::new(),
        };
        proof {
            assert(r@.keyframes =~= seq![0u64]);
            assert(r@ =~= initial_view(*enc, r.inter_cfg));
        }
        r
    }

    /// Whether every counter is far below the 64-bit limit.
    pub fn counters_in_range(&self) -> (r: bool)
        requires
            self.wf(),
        ensures
            r == self@.in_range(),
    {
        self.frame_count < COUNTER_LIMIT && self.frames_processed < COUNTER_LIMIT
            && self.input_frameno < COUNTER_LIMIT && self.output_frameno < COUNTER_LIMIT
            && self.next_group_start_input_frameno < COUNTER_LIMIT
            && self.next_group_start_output_frameno < COUNTER_LIMIT
            && self.next_keyframe_detector_frame < COUNTER_LIMIT && self.queue_start() < COUNTER_LIMIT
    }

    fn queue_start(&self) -> (r: u64)
        requires
            self.frame_q.wf(),
        ensures
            r == self.frame_q.start(),
    {
        self.frame_q.start_key()
    }

    /// The last key of the frame queue, or 0.
    fn lookahead_end(&self) -> (r: u64)
        requires
            self.frame_q.wf(),
        ensures
            r == self@.lookahead_end(),
    {
        match self.frame_q.last_key() {
            Some(k) => k,
            None => 0,
        }
    }

    /// Whether the end of the input was sent.
    pub fn is_flushing(&self) -> (r: bool)
        ensures
            r == self@.is_flushing(),
    {
        self.frame_q.ends_with_marker()
    }

    /// Whether `frame_count` frames reach the frame limit.
    pub fn at_frame_limit(&self, frame_count: u64) -> (r: bool)
        ensures
            r == self@.at_frame_limit(frame_count),
    {
        match self.limit {
            Some(limit) => frame_count >= limit,
            None => false,
        }
    }

    /// Whether more frames need to be read into the frame queue for the
    /// lookahead to be full.
    pub fn needs_more_lookahead(&self) -> (r: bool)
        requires
            self.wf(),
            self@.in_range(),
        ensures
            r == self@.needs_more_lookahead(),
    {
        let lookahead_end = self.lookahead_end();
        let frames_needed = self.input_frameno
            + self.config.speed_settings.rdo_lookahead_frames as u64;
        lookahead_end < frames_needed && !self.at_frame_limit(lookahead_end) && !self.is_flushing()
    }

    /// Whether the next frame can be checked for a scene cut.
    pub fn can_compute_scenechange(&self) -> (r: bool)
        requires
            self.wf(),
            self.next_keyframe_detector_frame <= COUNTER_LIMIT + 1,
        ensures
            r == self@.can_compute_scenechange(),
    {
        let lookahead_end = self.lookahead_end();
        let frames_needed = self.next_keyframe_detector_frame
            + self.keyframe_detector.lookahead_offset + 1;
        self.next_keyframe_detector_frame < self.frame_count && (lookahead_end >= frames_needed
            || self.at_frame_limit(lookahead_end) || self.is_flushing())
    }

    /// Whether every frame up to the limit was handed out.
    pub fn done_processing(&self) -> (r: bool)
        ensures
            r == self@.done_processing(),
    {
        match self.limit {
            Some(limit) => self.frames_processed == limit,
            None => false,
        }
    }

    /// Checks the next frame for a scene cut, given the number of lookahead
    /// frames at hand from the frame before it on, and records it as a
    /// keyframe if the user forced it or the intervals call for one.
    pub fn compute_keyframe_placement(&mut self, lookahead_frames: u64)
        requires
            old(self).wf(),
            old(self).next_keyframe_detector_frame < old(self).frame_count,
            old(self).frame_count <= COUNTER_LIMIT,
        ensures
            final(self).wf(),
            final(self)@ == old(self)@.place_keyframe(lookahead_frames as nat),
            final(self).frame_q == old(self).frame_q,
            final(self).config == old(self).config,
            final(self).limit == old(self).limit,
    {
        let n = self.next_keyframe_detector_frame;
        let last_keyframe = self.keyframes[self.keyframes.len() - 1];
        proof {
            assert(self@.keyframes.last() == last_keyframe);
        }
        if vec_contains(&self.keyframes_forced, n) || self.keyframe_detector.analyze_next_frame(
            lookahead_frames,
            n,
            last_keyframe,
        ) {
            self.keyframes.push(n);
        }
        self.next_keyframe_detector_frame = n + 1;
    }

    /// Checks frames for scene cuts as long as the lookahead allows.
    fn run_keyframe_detection(&mut self)
        requires
            old(self).wf(),
            old(self).frame_count <= COUNTER_LIMIT,
            old(self).next_keyframe_detector_frame <= old(self).frame_count + 1,
        ensures
            final(self).wf(),
            final(self)@ == old(self)@.scenechange_loop(),
            final(self).frame_q == old(self).frame_q,
            final(self).config == old(self).config,
            final(self).limit == old(self).limit,
    {
        while self.can_compute_scenechange()
            invariant
                self.wf(),
                self.frame_count <= COUNTER_LIMIT,
                self.next_keyframe_detector_frame <= self.frame_count + 1,
                self@.scenechange_loop() == old(self)@.scenechange_loop(),
                self.frame_q == old(self).frame_q,
                self.config == old(self).config,
                self.limit == old(self).limit,
            decreases self.frame_count - self.next_keyframe_detector_frame,
        {
            let n_frames = self.frame_q.count_frames_from(self.next_keyframe_detector_frame - 1);
            self.compute_keyframe_placement(n_frames);
        }
    }

    /// Accepts an input frame, or with `None` the end of the input, with
    /// optional per-frame parameters, then places keyframes as far as the
    /// lookahead allows.
    pub fn send_frame(&mut self, frame: Option<Frame<T>>, params: Option<FrameParameters>) -> (r:
        Result<(), EncoderStatus>)
        requires
            old(self).wf(),
            old(self)@.in_range(),
        ensures
            final(self).wf(),
            final(self)@ == old(self)@.send_frame(frame is Some, params),
            final(self).frame_q.start() <= old(self).frame_count < final(self).frame_q.start()
                + final(self).frame_q.entries().len(),
            final(self).frame_q.entries()[old(self).frame_count - final(self).frame_q.start()]
                == frame,
            forall|k: int|
                final(self).frame_q.start() <= k < final(self).frame_q.start()
                    + final(self).frame_q.entries().len() && k != old(self).frame_count
                    ==> #[trigger] final(self).frame_q.entries()[k - final(self).frame_q.start()]
                    == old(self).frame_q.entries()[k - old(self).frame_q.start()],
            final(self).config == old(self).config,
            final(self).limit == old(self).limit,
            r is Ok,
    {
        let input_frameno = self.frame_count;
        let ghost has = frame is Some;
        self.frame_q.insert(input_frameno, frame);
        if !self.is_flushing() {
            self.frame_count = self.frame_count + 1;
        }
        let ghost v2 = self@;
        match params {
            Some(p) => {
                if p.frame_type_override == FrameTypeOverride::Key {
                    if !vec_contains(&self.keyframes_forced, input_frameno) {
                        self.keyframes_forced.push(input_frameno);
                    }
                }
                match p.opaque {
                    Some(op) => {
                        let i = opaque_position(&self.opaque_q, input_frameno);
                        proof {
                            lemma_find_key_bound(self.opaque_q@, input_frameno, 0);
                        }
                        if i < self.opaque_q.len() {
                            self.opaque_q[i] = (input_frameno, op);
                        } else {
                            self.opaque_q.push((input_frameno, op));
                        }
                    },
                    None => {},
                }
            },
            None => {},
        }
        proof {
            assert(self@ =~= match params {
                Some(p) => ContextView {
                    keyframes_forced: if p.frame_type_override == FrameTypeOverride::Key {
                        set_insert(v2.keyframes_forced, input_frameno)
                    } else {
                        v2.keyframes_forced
                    },
                    opaque_q: match p.opaque {
                        Some(o) => opaque_insert(v2.opaque_q, input_frameno, o),
                        None => v2.opaque_q,
                    },
                    ..v2
                },
                None => v2,
            });
        }
        self.run_keyframe_detection();
        Ok(())
    }

    /// The frame coded as the current output frame: the keyframe, or the
    /// first frame of the group with that output frame number.
    pub fn get_current_fi(&self) -> (r: Option<FrameInvariants>)
        ensures
            r == self@.current_fi(),
    {
        if self.output_frameno == self.current_keyframe.output_frameno {
            return Some(self.current_keyframe);
        }
        let mut i: usize = 0;
        while i < self.current_frame_group.len()
            invariant
                i <= self.current_frame_group@.len(),
                self.output_frameno != self.current_keyframe.output_frameno,
                find_in_group(self.current_frame_group@, self.output_frameno, 0) == find_in_group(
                    self.current_frame_group@,
                    self.output_frameno,
                    i as int,
                ),
            decreases self.current_frame_group@.len() - i,
        {
            match self.current_frame_group[i] {
                Some(fi) => {
                    if fi.output_frameno == self.output_frameno {
                        proof {
                            assert(self.current_frame_group@[i as int] == Some(fi));
                            assert(find_in_group(self.current_frame_group@, self.output_frameno, i as int)
                                == Some(fi));
                            assert(self@.current_fi() == Some(fi));
                        }
                        return Some(fi);
                    }
                },
                None => {},
            }
            i = i + 1;
        }
        None
    }

    /// Decides the shape of the next pyramid: for each output position, the
    /// input frame it codes or shows, its level, and whether it is shown,
    /// shows an already coded frame, or is a placeholder past the group's
    /// last input frame. Moves the start of the next group past it.
    pub fn decide_pyramid_shape(
        &mut self,
        ideal_input_width: u64,
        real_input_width: u64,
        output_width: u64,
        max_pyramid_depth: u64,
    ) -> (r: Vec<PyramidDecision>)
        requires
            old(self).wf(),
            old(self)@.in_range(),
            ideal_input_width == (if old(self).config.low_latency { 1u64 } else { 4u64 }),
            max_pyramid_depth == (if old(self).config.low_latency { 0u64 } else { 2u64 }),
            output_width == ideal_input_width + max_pyramid_depth,
            1 <= real_input_width <= ideal_input_width,
            !old(self)@.at_frame_limit(old(self).input_frameno),
        ensures
            final(self).wf(),
            ({
                let last = old(self)@.pyramid_last_input(real_input_width);
                &&& r@ == spec_pyramid(
                    old(self).input_frameno,
                    last,
                    ideal_input_width,
                    max_pyramid_depth,
                    old(self).next_group_start_output_frameno,
                    output_width as nat,
                )
                &&& final(self)@ == ContextView {
                    next_group_start_input_frameno: (last + 1) as u64,
                    next_group_start_output_frameno: (old(self).next_group_start_output_frameno
                        + output_width) as u64,
                    ..old(self)@
                }
                &&& old(self).input_frameno <= last <= old(self).input_frameno + ideal_input_width
                    - 1
            }),
            final(self).frame_q == old(self).frame_q,
    {
        let first_input_frame = self.input_frameno;
        let bound = match vec_first_greater(&self.keyframes, first_input_frame) {
            Some(k) => k,
            None => match self.limit {
                Some(l) => l,
                None => u64::MAX,
            },
        };
        proof {
            lemma_first_greater_is_greater(self.keyframes@, first_input_frame, 0);
        }
        let last_input_frame = (if bound <= first_input_frame + real_input_width {
            bound
        } else {
            first_input_frame + real_input_width
        }) - 1;
        let out_start = self.next_group_start_output_frameno;
        let mut pyramid: Vec<PyramidDecision> = Vec::new();
        let mut index: u64 = 0;
        while index < output_width
            invariant
                index <= output_width,
                out_start + output_width < u64::MAX,
                first_input_frame < COUNTER_LIMIT,
                ideal_input_width == 1 || ideal_input_width == 4,
                max_pyramid_depth == 0 || (max_pyramid_depth == 2 && ideal_input_width == 4),
                output_width == ideal_input_width + max_pyramid_depth,
                pyramid@ == spec_pyramid(
                    first_input_frame,
                    last_input_frame as int,
                    ideal_input_width,
                    max_pyramid_depth,
                    out_start,
                    index as nat,
                ),
            decreases output_width - index,
        {
            let offset = if index < max_pyramid_depth {
                proof {
                    vstd::bits::lemma_u64_shr_is_div(ideal_input_width, index);
                    vstd::arithmetic::power2::lemma2_to64();
                    assert(ideal_input_width == 4);
                    if index == 0 {
                        assert(pow2(0) == 1);
                    } else {
                        assert(index == 1);
                        assert(pow2(1) == 2);
                    }
                    assert(ideal_input_width as int / (pow2(index as nat) as int) >= 2);
                }
                ideal_input_width >> index
            } else {
                index - max_pyramid_depth + 1
            };
            assert(offset >= 1);
            let input_frameno = offset + first_input_frame - 1;
            proof {
                assert(input_frameno == pyramid_raw_input(
                    first_input_frame,
                    ideal_input_width,
                    max_pyramid_depth,
                    index,
                ));
            }
            let mut show_existing_frame = false;
            let mut j: usize = 0;
            while j < pyramid.len()
                invariant
                    j <= pyramid@.len(),
                    show_existing_frame == exists|k: int|
                        0 <= k < j && (#[trigger] pyramid@[k]).input_frameno == input_frameno
                            && !pyramid@[k].placeholder_frame,
                decreases pyramid@.len() - j,
            {
                if pyramid[j].input_frameno == input_frameno && !pyramid[j].placeholder_frame {
                    show_existing_frame = true;
                }
                j = j + 1;
            }
            let prev_input = if pyramid.len() > 0 {
                pyramid[pyramid.len() - 1].input_frameno
            } else {
                first_input_frame
            };
            let level = if index < max_pyramid_depth {
                index
            } else {
                pos_to_lvl(index - max_pyramid_depth + 1, max_pyramid_depth)
            };
            let pd = PyramidDecision {
                input_frameno: if input_frameno <= last_input_frame {
                    input_frameno
                } else {
                    prev_input
                },
                output_frameno: out_start + index,
                index_in_group: index,
                level,
                show_frame: index >= max_pyramid_depth,
                show_existing_frame,
                placeholder_frame: input_frameno > last_input_frame,
            };
            proof {
                assert(pd == pyramid_entry(
                    pyramid@,
                    first_input_frame,
                    last_input_frame as int,
                    ideal_input_width,
                    max_pyramid_depth,
                    out_start,
                    index,
                ));
            }
            pyramid.push(pd);
            index = index + 1;
        }
        self.next_group_start_input_frameno = last_input_frame + 1;
        self.next_group_start_output_frameno = out_start + output_width;
        pyramid
    }

    /// Builds the frame invariants of the next group of frames: a lone
    /// keyframe if the group starts at one, otherwise a re-ordering pyramid
    /// that stops before the next keyframe.
    pub fn compute_frame_invariants_group(&mut self)
        requires
            old(self).wf(),
            old(self)@.in_range(),
            old(self).next_group_start_input_frameno == old(self).input_frameno,
            !old(self)@.at_frame_limit(old(self).input_frameno),
        ensures
            final(self).wf(),
            final(self)@ == old(self)@.compute_frame_invariants_group(),
            final(self).frame_q == old(self).frame_q,
    {
        let ngs_in = self.next_group_start_input_frameno;
        let ngs_out = self.next_group_start_output_frameno;
        if vec_contains(&self.keyframes, ngs_in) {
            self.current_keyframe = FrameInvariants::new_key_frame(ngs_in, ngs_out);
            self.next_group_start_input_frameno = ngs_in + 1;
            self.next_group_start_output_frameno = ngs_out + 1;
            self.current_frame_group = Vec::new();
            proof {
                assert(self@ =~= old(self)@.compute_frame_invariants_group());
            }
            return;
        }
        let pyramid_depth: u64 = if self.config.low_latency { 0 } else { 2 };
        let ideal_input_width: u64 = 1u64 << pyramid_depth;
        proof {
            assert(1u64 << 0u64 == 1) by (bit_vector);
            assert(1u64 << 2u64 == 4) by (bit_vector);
        }
        let next_keyframe = match vec_first_greater(&self.keyframes, self.input_frameno) {
            Some(k) => k,
            None => u64::MAX,
        };
        proof {
            lemma_first_greater_is_greater(self.keyframes@, self.input_frameno, 0);
        }
        let gap = next_keyframe - self.input_frameno;
        let real_input_width = if ideal_input_width <= gap {
            ideal_input_width
        } else {
            gap
        };
        let pyramid_output_width = ideal_input_width + pyramid_depth;
        let kf_out = self.current_keyframe.output_frameno;
        let ghost old_view = self@;
        let pyramid = self.decide_pyramid_shape(
            ideal_input_width,
            real_input_width,
            pyramid_output_width,
            pyramid_depth,
        );
        let ghost last = old_view.pyramid_last_input(real_input_width);
        proof {
            lemma_pyramid_prefix(
                old_view.input_frameno,
                last,
                ideal_input_width,
                pyramid_depth,
                ngs_out,
                pyramid_output_width as nat,
            );
        }
        let mut frame_group: Vec<Option<FrameInvariants>> = Vec::new();
        let mut i: usize = 0;
        while i < pyramid.len()
            invariant
                i <= pyramid@.len(),
                pyramid@.len() == pyramid_output_width,
                kf_out <= ngs_out,
                forall|k: int| 0 <= k < pyramid@.len() ==> (#[trigger] pyramid@[k]).output_frameno == ngs_out + k,
                frame_group@ == group_of(pyramid@.subrange(0, i as int), self.inter_cfg, kf_out),
            decreases pyramid@.len() - i,
        {
            let pd = pyramid[i];
            if pd.placeholder_frame {
                frame_group.push(None);
            } else {
                frame_group.push(Some(FrameInvariants::new_inter_frame(pd, &self.inter_cfg, kf_out)));
            }
            proof {
                assert(pyramid@.subrange(0, i + 1).drop_last() =~= pyramid@.subrange(0, i as int));
                assert(frame_group@ =~= group_of(pyramid@.subrange(0, i + 1), self.inter_cfg, kf_out));
            }
            i = i + 1;
        }
        proof {
            assert(pyramid@.subrange(0, pyramid@.len() as int) =~= pyramid@);
        }
        self.current_frame_group = frame_group;
        proof {
            assert(self@ =~= old_view.compute_frame_invariants_group());
        }
    }

    fn finalize_packet(&mut self, input_frameno: u64, frame_type: crate::api::frame_info::FrameType) -> (r:
        Result<Packet, EncoderStatus>)
        requires
            old(self).frames_processed < u64::MAX,
        ensures
            final(self).frames_processed == old(self).frames_processed + 1,
            final(self)@ == (ContextView {
                frames_processed: (old(self).frames_processed + 1) as u64,
                ..old(self)@
            }),
            r == Ok::<Packet, EncoderStatus>(Packet { input_frameno, frame_type, opaque: None }),
            final(self).frame_q == old(self).frame_q,
            final(self).config == old(self).config,
            final(self).keyframe_detector == old(self).keyframe_detector,
    {
        self.frames_processed = self.frames_processed + 1;
        Ok(Packet { input_frameno, frame_type, opaque: None })
    }

    /// Codes the current output frame. A placeholder or a hidden frame yields
    /// `Encoded`; a frame whose input is not there yet yields `NeedMoreData`;
    /// a shown frame yields its packet.
    pub fn encode_packet(&mut self) -> (r: Result<Packet, EncoderStatus>)
        requires
            old(self).wf(),
            old(self).output_frameno < u64::MAX,
            old(self).frames_processed < u64::MAX,
        ensures
            final(self).wf(),
            (final(self)@, r) == old(self)@.encode_packet(),
            final(self).frame_q == old(self).frame_q,
    {
        match self.get_current_fi() {
            None => {
                self.output_frameno = self.output_frameno + 1;
                Err(EncoderStatus::Encoded)
            },
            Some(fi) => {
                if fi.show_existing_frame {
                    self.output_frameno = self.output_frameno + 1;
                    return self.finalize_packet(fi.input_frameno, fi.frame_type);
                }
                if self.frame_q.has_frame(fi.input_frameno) {
                    self.output_frameno = self.output_frameno + 1;
                    if fi.show_frame {
                        self.finalize_packet(fi.input_frameno, fi.frame_type)
                    } else {
                        Err(EncoderStatus::Encoded)
                    }
                } else {
                    Err(EncoderStatus::NeedMoreData)
                }
            },
        }
    }

    /// Releases the frames no longer needed once input frame
    /// `cur_input_frameno` was shown: it and the frame before it stay, all
    /// earlier ones go. This keeps memory use proportional to the lookahead.
    pub fn garbage_collect(&mut self, cur_input_frameno: u64)
        requires
            old(self).wf(),
        ensures
            final(self).wf(),
            final(self)@ == old(self)@.garbage_collect(cur_input_frameno),
            keeps_tail(&final(self).frame_q, &old(self).frame_q),
    {
        let frame_to_keep = cur_input_frameno.saturating_sub(1);
        if frame_to_keep == 0 {
            proof {
                lemma_keeps_tail_refl(&self.frame_q);
            }
            return;
        }
        self.frame_q.remove_before(frame_to_keep);
    }

    /// Removes and returns the value attached to input frame `input_frameno`.
    fn take_opaque(&mut self, input_frameno: u64) -> (r: Option<Opaque>)
        ensures
            (final(self).opaque_q@, r) == opaque_remove(old(self).opaque_q@, input_frameno),
            final(self).config == old(self).config,
            final(self).inter_cfg == old(self).inter_cfg,
            final(self).frame_count == old(self).frame_count,
            final(self).frames_processed == old(self).frames_processed,
            final(self).limit == old(self).limit,
            final(self).input_frameno == old(self).input_frameno,
            final(self).output_frameno == old(self).output_frameno,
            final(self).next_group_start_input_frameno == old(self).next_group_start_input_frameno,
            final(self).next_group_start_output_frameno == old(self).next_group_start_output_frameno,
            final(self).current_keyframe == old(self).current_keyframe,
            final(self).current_frame_group == old(self).current_frame_group,
            final(self).frame_q == old(self).frame_q,
            final(self).keyframe_detector == old(self).keyframe_detector,
            final(self).next_keyframe_detector_frame == old(self).next_keyframe_detector_frame,
            final(self).keyframes == old(self).keyframes,
            final(self).keyframes_forced == old(self).keyframes_forced,
    {
        let i = opaque_position(&self.opaque_q, input_frameno);
        proof {
            lemma_find_key_bound(self.opaque_q@, input_frameno, 0);
        }
        if i < self.opaque_q.len() {
            let (_, op) = self.opaque_q.remove(i);
            Some(op)
        } else {
            None
        }
    }

    /// Hands out the next packet, or says why there is none: the limit was
    /// reached, the lookahead needs more frames, or the frame coded was not
    /// shown. Builds the next frame group when the previous one is done, and
    /// releases frames no longer needed.
    pub fn receive_packet(&mut self) -> (r: Result<Packet, EncoderStatus>)
        requires
            old(self).wf(),
            old(self)@.in_range(),
        ensures
            final(self).wf(),
            (final(self)@, r) == old(self)@.receive_packet(),
            keeps_tail(&final(self).frame_q, &old(self).frame_q),
            r is Err ==> final(self).frame_q == old(self).frame_q,
            final(self).config == old(self).config,
            final(self).limit == old(self).limit,
    {
        proof {
            lemma_keeps_tail_refl(&self.frame_q);
        }
        if self.done_processing() {
            return Err(EncoderStatus::LimitReached);
        }
        if self.needs_more_lookahead() {
            return Err(EncoderStatus::NeedMoreData);
        }
        if self.at_frame_limit(self.input_frameno) {
            return Err(EncoderStatus::LimitReached);
        }
        if self.next_group_start_input_frameno == self.input_frameno
            && self.next_group_start_output_frameno == self.output_frameno {
            self.compute_frame_invariants_group();
        }
        let ghost v1 = self@;
        let ret = self.encode_packet();
        match ret {
            Ok(pkt) => {
                self.garbage_collect(pkt.input_frameno);
                let opaque = self.take_opaque(pkt.input_frameno);
                self.input_frameno = self.input_frameno + 1;
                Ok(Packet { opaque, ..pkt })
            },
            Err(e) => Err(e),
        }
    }
}

/// The first element above `x` is above `x` and an element of the sequence.
pub proof fn lemma_first_greater_is_greater(s: Seq<u64>, x: u64, i: int)
    requires
        0 <= i,
    ensures
        first_greater_from(s, x, i) matches Some(k) ==> k > x && s.contains(k),
    decreases s.len() - i,
{
    if i < s.len() && s[i] <= x {
        lemma_first_greater_is_greater(s, x, i + 1);
    }
}

} // verus!
