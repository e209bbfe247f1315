//! The frame scheduling state machine: what an encoding context does with the
//! frames sent to it and when it hands out packets, over unbounded
//! mathematical values.

use crate::api::config::{config_valid, EncoderConfig};
use crate::api::frame_info::{spec_inter_frame, spec_key_frame, FrameInvariants};
use crate::api::frame_queue::queue_frames_from;
use crate::api::inter_config::{spec_pos_to_lvl, InterConfig};
use crate::api::lookahead::PyramidDecision;
use crate::api::status::{EncoderStatus, FrameParameters, FrameTypeOverride, Opaque, Packet};
use vstd::arithmetic::power2::pow2;
use vstd::prelude::*;

verus! {

/// Frame counters stay below this bound; beyond it a context refuses to go on.
pub const COUNTER_LIMIT: u64 = 0x1000_0000_0000_0000;

/// The state of an encoding context as frame scheduling sees it.
pub ghost struct ContextView {
    /// The encoder settings.
    pub config: EncoderConfig,
    /// The re-ordering options derived from them.
    pub inter_cfg: InterConfig,
    /// The number of input frames read.
    pub frame_count: u64,
    /// The number of packets handed out.
    pub frames_processed: u64,
    /// The number of frames to encode, once known.
    pub limit: Option<u64>,
    /// The next input frame to be shown.
    pub input_frameno: u64,
    /// The next output frame to be coded.
    pub output_frameno: u64,
    /// The input frame at which the next frame group starts.
    pub next_group_start_input_frameno: u64,
    /// The output frame at which the next frame group starts.
    pub next_group_start_output_frameno: u64,
    /// The current or most recent keyframe.
    pub current_keyframe: FrameInvariants,
    /// The frames of the current group; `None` for placeholders.
    pub current_frame_group: Seq<Option<FrameInvariants>>,
    /// The key of the first entry of the frame queue.
    pub queue_start: u64,
    /// For each entry of the frame queue, whether it holds a frame (the last
    /// entry may instead mark the end of the input).
    pub queue: Seq<bool>,
    /// The input frames that start a GOP, ascending.
    pub keyframes: Seq<u64>,
    /// The input frames the user forced to be keyframes, ascending.
    pub keyframes_forced: Seq<u64>,
    /// The next input frame to be checked for a scene cut.
    pub next_keyframe_detector_frame: u64,
    /// How many frames past a frame the scene cut decision waits for.
    pub lookahead_offset: u64,
    /// Values to hand back with the packets, by input frame.
    pub opaque_q: Seq<(u64, Opaque)>,
}

/// Whether `s` is strictly ascending.
pub open spec fn ascending(s: Seq<u64>) -> bool {
    forall|i: int, j: int| 0 <= i < j < s.len() ==> s[i] < s[j]
}

/// `s` with `k` added, unless it is there already.
pub open spec fn set_insert(s: Seq<u64>, k: u64) -> Seq<u64> {
    if s.contains(k) {
        s
    } else {
        s.push(k)
    }
}

/// The index of the first entry of key `k` at or after `i`, or `q.len()`.
pub open spec fn find_key(q: Seq<(u64, Opaque)>, k: u64, i: int) -> int
    decreases q.len() - i,
{
    if i < 0 || i >= q.len() {
        q.len() as int
    } else if q[i].0 == k {
        i
    } else {
        find_key(q, k, i + 1)
    }
}

/// `q` with the value of key `k` set to `o`.
pub open spec fn opaque_insert(q: Seq<(u64, Opaque)>, k: u64, o: Opaque) -> Seq<(u64, Opaque)> {
    let i = find_key(q, k, 0);
    if i < q.len() {
        q.update(i, (k, o))
    } else {
        q.push((k, o))
    }
}

/// `q` without key `k`, and the value it had.
pub open spec fn opaque_remove(q: Seq<(u64, Opaque)>, k: u64) -> (Seq<(u64, Opaque)>, Option<Opaque>) {
    let i = find_key(q, k, 0);
    if i < q.len() {
        (q.remove(i), Some(q[i].1))
    } else {
        (q, None)
    }
}

/// The first element of `s`, from index `i` on, above `x`.
pub open spec fn first_greater_from(s: Seq<u64>, x: u64, i: int) -> Option<u64>
    decreases s.len() - i,
{
    if i < 0 || i >= s.len() {
        None
    } else if s[i] > x {
        Some(s[i])
    } else {
        first_greater_from(s, x, i + 1)
    }
}

/// The first element of `s` above `x`.
pub open spec fn first_greater(s: Seq<u64>, x: u64) -> Option<u64> {
    first_greater_from(s, x, 0)
}

/// Whether a frame starts a new GOP judging by the keyframe intervals alone:
/// never within the last `offset` frames of the lookahead, never closer than
/// the minimum interval to the previous keyframe, always at the maximum.
pub open spec fn spec_analyze_next_frame(
    lookahead_offset: u64,
    min_key_frame_interval: u64,
    max_key_frame_interval: u64,
    frame_set_len: nat,
    input_frameno: u64,
    previous_keyframe: u64,
) -> bool {
    let distance = input_frameno - previous_keyframe;
    if frame_set_len <= lookahead_offset {
        false
    } else if distance < min_key_frame_interval {
        false
    } else {
        distance >= max_key_frame_interval
    }
}

/// The input frame of the output frame at `index` of a group starting after
/// input frame `first - 1`, before placeholders are replaced.
pub open spec fn pyramid_raw_input(first: u64, ideal: u64, depth: u64, index: u64) -> int {
    (if index < depth {
        ideal as int / (pow2(index as nat) as int)
    } else {
        index - depth + 1
    }) + first - 1
}

/// The decision for the output frame at `index`, given those before it.
pub open spec fn pyramid_entry(
    prev: Seq<PyramidDecision>,
    first: u64,
    last: int,
    ideal: u64,
    depth: u64,
    out_start: u64,
    index: u64,
) -> PyramidDecision {
    let raw = pyramid_raw_input(first, ideal, depth, index);
    PyramidDecision {
        input_frameno: if raw <= last {
            raw as u64
        } else if prev.len() > 0 {
            prev.last().input_frameno
        } else {
            first
        },
        output_frameno: (out_start + index) as u64,
        index_in_group: index,
        level: if index < depth {
            index
        } else {
            spec_pos_to_lvl((index - depth + 1) as nat, depth as nat) as u64
        },
        show_frame: index >= depth,
        show_existing_frame: exists|j: int|
            0 <= j < prev.len() && (#[trigger] prev[j]).input_frameno == raw
                && !prev[j].placeholder_frame,
        placeholder_frame: raw > last,
    }
}

/// The first `n` decisions of a pyramid whose input frames run from `first`
/// to `last`.
pub open spec fn spec_pyramid(
    first: u64,
    last: int,
    ideal: u64,
    depth: u64,
    out_start: u64,
    n: nat,
) -> Seq<PyramidDecision>
    decreases n,
{
    if n == 0 {
        seq![]
    } else {
        let prev = spec_pyramid(first, last, ideal, depth, out_start, (n - 1) as nat);
        prev.push(pyramid_entry(prev, first, last, ideal, depth, out_start, (n - 1) as u64))
    }
}

/// Each decision of a pyramid is the entry built from the decisions before
/// it, and takes the output frame number and index of its position.
pub proof fn lemma_pyramid_prefix(
    first: u64,
    last: int,
    ideal: u64,
    depth: u64,
    out_start: u64,
    n: nat,
)
    requires
        out_start + n <= u64::MAX,
    ensures
        spec_pyramid(first, last, ideal, depth, out_start, n).len() == n,
        forall|i: int|
            0 <= i < n ==> #[trigger] spec_pyramid(first, last, ideal, depth, out_start, n)[i]
                == pyramid_entry(
                spec_pyramid(first, last, ideal, depth, out_start, i as nat),
                first,
                last,
                ideal,
                depth,
                out_start,
                i as u64,
            ),
        forall|i: int|
            0 <= i < n ==> (#[trigger] spec_pyramid(first, last, ideal, depth, out_start, n)[i]).output_frameno
                == out_start + i && spec_pyramid(first, last, ideal, depth, out_start, n)[i].index_in_group == i,
    decreases n,
{
    if n > 0 {
        lemma_pyramid_prefix(first, last, ideal, depth, out_start, (n - 1) as nat);
    }
}

/// The frame group of a pyramid: placeholders become `None`.
pub open spec fn group_of(
    p: Seq<PyramidDecision>,
    inter_cfg: InterConfig,
    keyframe_output_frameno: u64,
) -> Seq<Option<FrameInvariants>> {
    p.map_values(
        |pd: PyramidDecision|
            if pd.placeholder_frame {
                None
            } else {
                Some(spec_inter_frame(pd, inter_cfg, keyframe_output_frameno))
            },
    )
}

/// The first frame of `g`, from index `i` on, output as `out`.
pub open spec fn find_in_group(g: Seq<Option<FrameInvariants>>, out: u64, i: int) -> Option<
    FrameInvariants,
>
    decreases g.len() - i,
{
    if i < 0 || i >= g.len() {
        None
    } else {
        match g[i] {
            Some(fi) => if fi.output_frameno == out {
                Some(fi)
            } else {
                find_in_group(g, out, i + 1)
            },
            None => find_in_group(g, out, i + 1),
        }
    }
}

/// The state of a new context.
pub open spec fn initial_view(config: EncoderConfig, inter_cfg: InterConfig) -> ContextView {
    ContextView {
        config,
        inter_cfg,
        frame_count: 0,
        frames_processed: 0,
        limit: None,
        input_frameno: 0,
        output_frameno: 0,
        next_group_start_input_frameno: 0,
        next_group_start_output_frameno: 0,
        current_keyframe: spec_key_frame(0, 0),
        current_frame_group: seq![],
        queue_start: 0,
        queue: seq![],
        keyframes: seq![0u64],
        keyframes_forced: seq![],
        next_keyframe_detector_frame: 1,
        lookahead_offset: if config.low_latency { 0 } else { 5 },
        opaque_q: seq![],
    }
}

impl ContextView {
    /// The invariant of a context.
    pub open spec fn wf(self) -> bool {
        &&& config_valid(self.config)
        &&& self.inter_cfg.wf()
        &&& self.inter_cfg.reorder == !self.config.low_latency
        &&& self.inter_cfg.switch_frame_interval == self.config.switch_frame_interval
        &&& self.lookahead_offset == (if self.config.low_latency { 0u64 } else { 5u64 })
        &&& (self.queue.len() > 0 ==> self.queue_start + self.queue.len() == self.frame_count + (
        if self.is_flushing() {
            1int
        } else {
            0int
        }))
        &&& (self.queue.len() == 0 ==> self.queue_start <= self.frame_count + 1)
        &&& forall|i: int| 0 <= i < self.queue.len() - 1 ==> #[trigger] self.queue[i]
        &&& self.keyframes.len() > 0
        &&& self.keyframes[0] == 0
        &&& ascending(self.keyframes)
        &&& forall|i: int|
            0 <= i < self.keyframes.len() ==> #[trigger] self.keyframes[i]
                < self.next_keyframe_detector_frame
        &&& 1 <= self.next_keyframe_detector_frame <= self.frame_count + 1
        &&& ascending(self.keyframes_forced)
        &&& forall|i: int|
            0 <= i < self.keyframes_forced.len() ==> #[trigger] self.keyframes_forced[i]
                <= self.frame_count
        &&& (self.limit matches Some(l) ==> l <= self.frame_count)
        &&& self.current_keyframe.output_frameno <= self.next_group_start_output_frameno
    }

    /// Every counter is far below the 64-bit limit.
    pub open spec fn in_range(self) -> bool {
        &&& self.frame_count < COUNTER_LIMIT
        &&& self.frames_processed < COUNTER_LIMIT
        &&& self.input_frameno < COUNTER_LIMIT
        &&& self.output_frameno < COUNTER_LIMIT
        &&& self.next_group_start_input_frameno < COUNTER_LIMIT
        &&& self.next_group_start_output_frameno < COUNTER_LIMIT
        &&& self.next_keyframe_detector_frame < COUNTER_LIMIT
        &&& self.queue_start < COUNTER_LIMIT
    }

    /// The last key of the frame queue, or 0.
    pub open spec fn lookahead_end(self) -> u64 {
        if self.queue.len() == 0 {
            0
        } else {
            (self.queue_start + self.queue.len() - 1) as u64
        }
    }

    /// The input was flushed: the last entry of the queue marks its end.
    pub open spec fn is_flushing(self) -> bool {
        self.queue.len() > 0 && !self.queue.last()
    }

    /// Whether `n` frames reach the frame limit.
    pub open spec fn at_frame_limit(self, n: u64) -> bool {
        match self.limit {
            Some(l) => n >= l,
            None => false,
        }
    }

    /// More frames must be read before the lookahead is full.
    pub open spec fn needs_more_lookahead(self) -> bool {
        &&& self.lookahead_end() < self.input_frameno + self.config.speed_settings.rdo_lookahead_frames
        &&& !self.at_frame_limit(self.lookahead_end())
        &&& !self.is_flushing()
    }

    /// The next frame can be checked for a scene cut.
    pub open spec fn can_compute_scenechange(self) -> bool {
        &&& self.next_keyframe_detector_frame < self.frame_count
        &&& (self.lookahead_end() >= self.next_keyframe_detector_frame + self.lookahead_offset + 1
            || self.at_frame_limit(self.lookahead_end()) || self.is_flushing())
    }

    /// Every frame up to the limit was handed out.
    pub open spec fn done_processing(self) -> bool {
        self.limit == Some(self.frames_processed)
    }

    /// The queue holds a frame under key `k`.
    pub open spec fn has_frame(self, k: u64) -> bool {
        &&& self.queue_start <= k < self.queue_start + self.queue.len()
        &&& self.queue[k - self.queue_start]
    }

    /// Checks the next frame for a scene cut, with `lookahead_frames` frames
    /// from the one before it on at hand, and advances the detector.
    pub open spec fn place_keyframe(self, lookahead_frames: nat) -> ContextView {
        let n = self.next_keyframe_detector_frame;
        let is_kf = self.keyframes_forced.contains(n) || spec_analyze_next_frame(
            self.lookahead_offset,
            self.config.min_key_frame_interval,
            self.config.max_key_frame_interval,
            lookahead_frames,
            n,
            self.keyframes.last(),
        );
        ContextView {
            keyframes: if is_kf {
                self.keyframes.push(n)
            } else {
                self.keyframes
            },
            next_keyframe_detector_frame: (n + 1) as u64,
            ..self
        }
    }

    /// Checks the next frame for a scene cut with the frames of the queue.
    pub open spec fn keyframe_placement_step(self) -> ContextView {
        self.place_keyframe(
            queue_frames_from(
                self.queue_start,
                self.queue,
                (self.next_keyframe_detector_frame - 1) as u64,
            ),
        )
    }

    /// Checks frames for scene cuts as long as the lookahead allows.
    pub open spec fn scenechange_loop(self) -> ContextView
        decreases self.frame_count - self.next_keyframe_detector_frame,
    {
        if self.can_compute_scenechange() {
            self.keyframe_placement_step().scenechange_loop()
        } else {
            self
        }
    }

    /// Accepts an input frame (or, with `has_frame` false, the end of input).
    pub open spec fn send_frame(self, has_frame: bool, params: Option<FrameParameters>) -> ContextView {
        let key = self.frame_count;
        let v1 = if self.queue.len() == 0 {
            ContextView { queue_start: key, queue: seq![has_frame], ..self }
        } else if key + 1 == self.queue_start + self.queue.len() {
            ContextView { queue: self.queue.update(self.queue.len() - 1, has_frame), ..self }
        } else {
            ContextView { queue: self.queue.push(has_frame), ..self }
        };
        let v2 = if !v1.is_flushing() {
            ContextView { frame_count: (key + 1) as u64, ..v1 }
        } else {
            v1
        };
        let v3 = match params {
            Some(p) => ContextView {
                keyframes_forced: if p.frame_type_override == FrameTypeOverride::Key {
                    set_insert(v2.keyframes_forced, key)
                } else {
                    v2.keyframes_forced
                },
                opaque_q: match p.opaque {
                    Some(o) => opaque_insert(v2.opaque_q, key, o),
                    None => v2.opaque_q,
                },
                ..v2
            },
            None => v2,
        };
        v3.scenechange_loop()
    }

    /// The last input frame of the next group.
    pub open spec fn pyramid_last_input(self, real_input_width: u64) -> int {
        let first = self.input_frameno;
        let bound: int = match first_greater(self.keyframes, first) {
            Some(k) => k as int,
            None => match self.limit {
                Some(l) => l as int,
                None => u64::MAX as int,
            },
        };
        (if bound <= first + real_input_width {
            bound
        } else {
            first + real_input_width
        }) - 1
    }

    /// The number of input frames in the next group.
    pub open spec fn real_input_width(self) -> u64 {
        let ideal: u64 = if self.config.low_latency { 1 } else { 4 };
        let next_kf: int = match first_greater(self.keyframes, self.input_frameno) {
            Some(k) => k as int,
            None => u64::MAX as int,
        };
        if ideal <= next_kf - self.input_frameno {
            ideal
        } else {
            (next_kf - self.input_frameno) as u64
        }
    }

    /// Builds the next frame group: a lone keyframe, or a pyramid.
    pub open spec fn compute_frame_invariants_group(self) -> ContextView {
        let ngs_in = self.next_group_start_input_frameno;
        let ngs_out = self.next_group_start_output_frameno;
        if self.keyframes.contains(ngs_in) {
            ContextView {
                current_keyframe: spec_key_frame(ngs_in, ngs_out),
                next_group_start_input_frameno: (ngs_in + 1) as u64,
                next_group_start_output_frameno: (ngs_out + 1) as u64,
                current_frame_group: seq![],
                ..self
            }
        } else {
            let depth: u64 = if self.config.low_latency { 0 } else { 2 };
            let ideal: u64 = if self.config.low_latency { 1 } else { 4 };
            let width = ideal + depth;
            let last = self.pyramid_last_input(self.real_input_width());
            let pyramid = spec_pyramid(self.input_frameno, last, ideal, depth, ngs_out, width as nat);
            ContextView {
                next_group_start_input_frameno: (last + 1) as u64,
                next_group_start_output_frameno: (ngs_out + width) as u64,
                current_frame_group: group_of(
                    pyramid,
                    self.inter_cfg,
                    self.current_keyframe.output_frameno,
                ),
                ..self
            }
        }
    }

    /// The frame to be coded as output frame `output_frameno`.
    pub open spec fn current_fi(self) -> Option<FrameInvariants> {
        if self.output_frameno == self.current_keyframe.output_frameno {
            Some(self.current_keyframe)
        } else {
            find_in_group(self.current_frame_group, self.output_frameno, 0)
        }
    }

    /// Codes the current output frame.
    pub open spec fn encode_packet(self) -> (ContextView, Result<Packet, EncoderStatus>) {
        match self.current_fi() {
            None => (
                ContextView { output_frameno: (self.output_frameno + 1) as u64, ..self },
                Err(EncoderStatus::Encoded),
            ),
            Some(fi) => {
                let pkt = Packet {
                    input_frameno: fi.input_frameno,
                    frame_type: fi.frame_type,
                    opaque: None,
                };
                if fi.show_existing_frame || (self.has_frame(fi.input_frameno) && fi.show_frame) {
                    (
                        ContextView {
                            output_frameno: (self.output_frameno + 1) as u64,
                            frames_processed: (self.frames_processed + 1) as u64,
                            ..self
                        },
                        Ok(pkt),
                    )
                } else if self.has_frame(fi.input_frameno) {
                    (
                        ContextView { output_frameno: (self.output_frameno + 1) as u64, ..self },
                        Err(EncoderStatus::Encoded),
                    )
                } else {
                    (self, Err(EncoderStatus::NeedMoreData))
                }
            },
        }
    }

    /// Releases the frames no longer needed once input frame `cur` was shown:
    /// all before `cur - 1`.
    pub open spec fn garbage_collect(self, cur: u64) -> ContextView {
        let keep: u64 = if cur == 0 { 0 } else { (cur - 1) as u64 };
        if keep == 0 {
            self
        } else {
            let s = self.queue_start;
            let len = self.queue.len();
            let new_start = if keep <= s {
                s as int
            } else if keep >= s + len {
                s + len
            } else {
                keep as int
            };
            ContextView {
                queue_start: new_start as u64,
                queue: self.queue.subrange(new_start - s, len as int),
                ..self
            }
        }
    }

    /// Hands out the next packet, or says why there is none.
    pub open spec fn receive_packet(self) -> (ContextView, Result<Packet, EncoderStatus>) {
        if self.done_processing() {
            (self, Err(EncoderStatus::LimitReached))
        } else if self.needs_more_lookahead() {
            (self, Err(EncoderStatus::NeedMoreData))
        } else if self.at_frame_limit(self.input_frameno) {
            (self, Err(EncoderStatus::LimitReached))
        } else {
            let v1 = if self.next_group_start_input_frameno == self.input_frameno
                && self.next_group_start_output_frameno == self.output_frameno {
                self.compute_frame_invariants_group()
            } else {
                self
            };
            let (v2, r) = v1.encode_packet();
            match r {
                Ok(p) => {
                    let v3 = v2.garbage_collect(p.input_frameno);
                    let (q, o) = opaque_remove(v3.opaque_q, p.input_frameno);
                    (
                        ContextView {
                            opaque_q: q,
                            input_frameno: (v3.input_frameno + 1) as u64,
                            ..v3
                        },
                        Ok(Packet { opaque: o, ..p }),
                    )
                },
                Err(e) => (v2, Err(e)),
            }
        }
    }
}

} // verus!
