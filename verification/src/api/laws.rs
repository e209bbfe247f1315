//! Properties of frame scheduling that hold across calls: the order in which
//! a frame group shows its frames, what a packet reports, which frames stay
//! queued, where user values and forced keyframes end up, how importance
//! spreads over the blocks of a reference frame.

use crate::api::frame_info::FrameInvariants;
use crate::api::lookahead::{overlap_corner, propagation_targets, IMP_BLOCK_AREA_IN_MV_UNITS};
use crate::api::schedule::{
    find_key, opaque_insert, opaque_remove, set_insert, spec_pyramid, ContextView,
};
use crate::api::status::{EncoderStatus, FrameParameters, Opaque, Packet};
use vstd::arithmetic::power2::{lemma2_to64, pow2};
use vstd::prelude::*;

verus! {

/// The value attached to input frame `k` in `q`, if any.
pub open spec fn opaque_lookup(q: Seq<(u64, Opaque)>, k: u64) -> Option<Opaque> {
    opaque_remove(q, k).1
}

/// No input frame has two values attached in `q`.
pub open spec fn keys_unique(q: Seq<(u64, Opaque)>) -> bool {
    forall|i: int, j: int| 0 <= i < j < q.len() ==> #[trigger] q[i].0 != #[trigger] q[j].0
}

/// Every frame that the user forced to be a keyframe and that the keyframe
/// detector already looked at is a keyframe.
pub open spec fn forced_keyframes_placed(v: ContextView) -> bool {
    forall|k: u64|
        #[trigger] v.keyframes_forced.contains(k) && k < v.next_keyframe_detector_frame
            ==> v.keyframes.contains(k)
}

/// The keyframe detector never looks at a frame that was not sent yet.
pub open spec fn detector_behind_input(v: ContextView) -> bool {
    v.next_keyframe_detector_frame <= v.frame_count || v.next_keyframe_detector_frame == 1
}

/// In a full frame group of the reordering pyramid (two levels over four
/// input frames) the group first codes its last and its second input frame,
/// hidden, then shows its four input frames one after the other: the two
/// coded early are shown again as existing frames, the other two are coded
/// when shown. Frames thus come out in input order.
pub proof fn law_full_pyramid_shows_in_input_order(first: u64, last: int, out_start: u64)
    requires
        last >= first + 3,
        first + 3 <= u64::MAX,
        out_start + 6 <= u64::MAX,
    ensures
        ({
            let p = spec_pyramid(first, last, 4, 2, out_start, 6);
            &&& p.len() == 6
            &&& p[0].input_frameno == first + 3 && !p[0].show_frame
            &&& p[1].input_frameno == first + 1 && !p[1].show_frame
            &&& forall|i: int|
                2 <= i < 6 ==> (#[trigger] p[i]).input_frameno == first + i - 2 && p[i].show_frame
            &&& forall|i: int| 0 <= i < 6 ==> !(#[trigger] p[i]).placeholder_frame
            &&& !p[2].show_existing_frame && p[3].show_existing_frame
            &&& !p[4].show_existing_frame && p[5].show_existing_frame
        }),
{
    lemma2_to64();
    reveal_with_fuel(spec_pyramid, 7);
    let p = spec_pyramid(first, last, 4, 2, out_start, 6);
    let p1 = spec_pyramid(first, last, 4, 2, out_start, 1);
    let p2 = spec_pyramid(first, last, 4, 2, out_start, 2);
    let p3 = spec_pyramid(first, last, 4, 2, out_start, 3);
    let p4 = spec_pyramid(first, last, 4, 2, out_start, 4);
    let p5 = spec_pyramid(first, last, 4, 2, out_start, 5);
    assert(pow2(0) == 1 && pow2(1) == 2);
    assert(p1[0].input_frameno == first + 3);
    assert(p2[1].input_frameno == first + 1);
    assert(p3[2].input_frameno == first);
    assert(p4[3].input_frameno == first + 1);
    assert(p4[1] == p2[1]);
    assert(p5[4].input_frameno == first + 2);
    assert(p[5].input_frameno == first + 3);
    assert(p5[0] == p1[0]);
    assert(!p[2].show_existing_frame) by {
        assert(p2.len() == 2);
        assert(forall|j: int| 0 <= j < 2 ==> (#[trigger] p2[j]).input_frameno != first);
    }
    assert(!p[4].show_existing_frame) by {
        assert(p4.len() == 4);
        assert(p4[0] == p1[0] && p4[1] == p2[1] && p4[2] == p3[2]);
        assert(forall|j: int| 0 <= j < 4 ==> (#[trigger] p4[j]).input_frameno != first + 2);
    }
}

/// Without reordering a frame group is a single input frame, coded and
/// shown at once.
pub proof fn law_low_latency_group_shows_its_frame(first: u64, last: int, out_start: u64)
    requires
        last >= first,
        out_start + 1 <= u64::MAX,
    ensures
        ({
            let p = spec_pyramid(first, last, 1, 0, out_start, 1);
            &&& p.len() == 1
            &&& p[0].input_frameno == first
            &&& p[0].show_frame
            &&& !p[0].show_existing_frame
            &&& !p[0].placeholder_frame
        }),
{
    reveal_with_fuel(spec_pyramid, 2);
}

/// A packet is handed out exactly when one more frame is shown: on `Ok`
/// both the shown-frame and the packet counters step by one, on an error
/// neither moves.
pub proof fn law_receive_packet_counts(v: ContextView)
    requires
        v.wf(),
        v.in_range(),
    ensures
        ({
            let (w, r) = v.receive_packet();
            &&& r is Ok ==> w.input_frameno == v.input_frameno + 1 && w.frames_processed
                == v.frames_processed + 1
            &&& r is Err ==> w.input_frameno == v.input_frameno && w.frames_processed
                == v.frames_processed
            &&& w.frame_count == v.frame_count
            &&& w.keyframes == v.keyframes
            &&& (forced_keyframes_placed(v) ==> forced_keyframes_placed(w))
            &&& (detector_behind_input(v) ==> detector_behind_input(w))
        }),
{
}

/// A packet is handed out only once the lookahead is full: it holds the
/// configured number of frames past the frame about to be shown, or the
/// input reached its end or its frame limit.
pub proof fn law_packet_only_with_full_lookahead(v: ContextView)
    requires
        v.wf(),
        v.in_range(),
    ensures
        v.receive_packet().1 is Ok ==> v.lookahead_end() >= v.input_frameno
            + v.config.speed_settings.rdo_lookahead_frames || v.at_frame_limit(v.lookahead_end())
            || v.is_flushing(),
{
}

/// After input frame `cur` was shown, the frame queue holds no frame before
/// `cur - 1` and still holds every frame from `cur - 1` on that it held.
pub proof fn law_garbage_collect_keeps_recent_frames(v: ContextView, cur: u64, k: u64)
    ensures
        k + 1 < cur ==> !v.garbage_collect(cur).has_frame(k),
        k + 1 >= cur ==> (v.garbage_collect(cur).has_frame(k) == v.has_frame(k)),
{
    if cur >= 2 {
        let w = v.garbage_collect(cur);
        let s = v.queue_start;
        if w.queue_start <= k < w.queue_start + w.queue.len() {
            assert(w.queue[k - w.queue_start] == v.queue[k - s]);
        }
    }
}

proof fn lemma_find_key_range(q: Seq<(u64, Opaque)>, k: u64, i: int)
    requires
        0 <= i <= q.len(),
    ensures
        i <= find_key(q, k, i) <= q.len(),
        find_key(q, k, i) < q.len() ==> q[find_key(q, k, i)].0 == k,
        forall|j: int| i <= j < find_key(q, k, i) ==> #[trigger] q[j].0 != k,
    decreases q.len() - i,
{
    if i < q.len() && q[i].0 != k {
        lemma_find_key_range(q, k, i + 1);
    }
}

/// `find_key` is the first index holding key `k`.
proof fn lemma_find_key_first(q: Seq<(u64, Opaque)>, k: u64, f: int)
    requires
        0 <= f <= q.len(),
        f < q.len() ==> q[f].0 == k,
        forall|j: int| 0 <= j < f ==> #[trigger] q[j].0 != k,
    ensures
        find_key(q, k, 0) == f,
{
    lemma_find_key_range(q, k, 0);
    let g = find_key(q, k, 0);
    if g < f {
        assert(q[g].0 == k);
    } else if f < g {
        assert(q[f].0 != k);
    }
}

/// Reading back a value attached to a frame gives that value; attaching a
/// value to one frame leaves what the other frames read back unchanged.
pub proof fn law_opaque_read_after_write(q: Seq<(u64, Opaque)>, k: u64, o: Opaque, j: u64)
    ensures
        opaque_lookup(opaque_insert(q, k, o), j) == (if j == k {
            Some(o)
        } else {
            opaque_lookup(q, j)
        }),
{
    lemma_find_key_range(q, k, 0);
    lemma_find_key_range(q, j, 0);
    let i = find_key(q, k, 0);
    let q2 = opaque_insert(q, k, o);
    let f = find_key(q, j, 0);
    if j == k {
        if i < q.len() {
            lemma_find_key_first(q2, k, i);
        } else {
            lemma_find_key_first(q2, k, q.len() as int);
        }
    } else {
        if i < q.len() {
            if f < q.len() {
                assert(f != i);
                lemma_find_key_first(q2, j, f);
            } else {
                assert forall|m: int| 0 <= m < q2.len() implies #[trigger] q2[m].0 != j by {
                    if m != i {
                        assert(q2[m] == q[m]);
                    }
                }
                lemma_find_key_first(q2, j, q2.len() as int);
            }
        } else {
            if f < q.len() {
                lemma_find_key_first(q2, j, f);
            } else {
                assert forall|m: int| 0 <= m < q2.len() implies #[trigger] q2[m].0 != j by {
                    if m < q.len() {
                        assert(q2[m] == q[m]);
                    }
                }
                lemma_find_key_first(q2, j, q2.len() as int);
            }
        }
    }
}

/// Attaching values keeps at most one value per frame.
pub proof fn law_opaque_insert_keeps_keys_unique(q: Seq<(u64, Opaque)>, k: u64, o: Opaque)
    requires
        keys_unique(q),
    ensures
        keys_unique(opaque_insert(q, k, o)),
{
    lemma_find_key_range(q, k, 0);
    let i = find_key(q, k, 0);
    let q2 = opaque_insert(q, k, o);
    assert forall|a: int, b: int| 0 <= a < b < q2.len() implies #[trigger] q2[a].0
        != #[trigger] q2[b].0 by {
        if i >= q.len() && b == q.len() {
            assert(q2[a] == q[a]);
        }
    }
}

/// Once the value of a frame is taken, no value is left for that frame,
/// and the other frames keep theirs.
pub proof fn law_opaque_taken_once(q: Seq<(u64, Opaque)>, k: u64, j: u64)
    requires
        keys_unique(q),
    ensures
        keys_unique(opaque_remove(q, k).0),
        opaque_lookup(opaque_remove(q, k).0, j) == (if j == k {
            None
        } else {
            opaque_lookup(q, j)
        }),
{
    lemma_find_key_range(q, k, 0);
    lemma_find_key_range(q, j, 0);
    let i = find_key(q, k, 0);
    let q2 = opaque_remove(q, k).0;
    if i < q.len() {
        assert forall|a: int, b: int| 0 <= a < b < q2.len() implies #[trigger] q2[a].0
            != #[trigger] q2[b].0 by {
            let a1 = if a < i {
                a
            } else {
                a + 1
            };
            let b1 = if b < i {
                b
            } else {
                b + 1
            };
            assert(q2[a] == q[a1] && q2[b] == q[b1]);
        }
        let f = find_key(q, j, 0);
        if j == k {
            assert forall|m: int| 0 <= m < q2.len() implies #[trigger] q2[m].0 != j by {
                let m1 = if m < i {
                    m
                } else {
                    m + 1
                };
                assert(q2[m] == q[m1]);
                assert(m1 != i);
            }
            lemma_find_key_first(q2, j, q2.len() as int);
        } else if f < q.len() {
            let g = if f < i {
                f
            } else {
                f - 1
            };
            assert(f != i);
            assert(q2[g] == q[f]);
            assert forall|m: int| 0 <= m < g implies #[trigger] q2[m].0 != j by {
                let m1 = if m < i {
                    m
                } else {
                    m + 1
                };
                assert(q2[m] == q[m1]);
            }
            lemma_find_key_first(q2, j, g);
        } else {
            assert forall|m: int| 0 <= m < q2.len() implies #[trigger] q2[m].0 != j by {
                let m1 = if m < i {
                    m
                } else {
                    m + 1
                };
                assert(q2[m] == q[m1]);
            }
            lemma_find_key_first(q2, j, q2.len() as int);
        }
    }
}

/// The scene-cut checks of `scenechange_loop` change nothing but the
/// keyframes and the detector position; they keep earlier keyframes, keep
/// the detector behind the input, and place every forced keyframe they
/// look at.
proof fn lemma_scenechange_loop(v: ContextView)
    ensures
        ({
            let w = v.scenechange_loop();
            &&& w == ContextView {
                keyframes: w.keyframes,
                next_keyframe_detector_frame: w.next_keyframe_detector_frame,
                ..v
            }
            &&& w.next_keyframe_detector_frame >= v.next_keyframe_detector_frame
            &&& (detector_behind_input(v) ==> detector_behind_input(w))
            &&& forall|k: u64| #[trigger] v.keyframes.contains(k) ==> w.keyframes.contains(k)
            &&& (forced_keyframes_placed(v) ==> forced_keyframes_placed(w))
        }),
    decreases v.frame_count - v.next_keyframe_detector_frame,
{
    if v.can_compute_scenechange() {
        let u = v.keyframe_placement_step();
        let n = v.next_keyframe_detector_frame;
        assert forall|k: u64| #[trigger] v.keyframes.contains(k) implies u.keyframes.contains(k) by {
            let i = choose|i: int| 0 <= i < v.keyframes.len() && v.keyframes[i] == k;
            assert(u.keyframes[i] == k);
        }
        if forced_keyframes_placed(v) {
            assert forall|k: u64|
                #[trigger] u.keyframes_forced.contains(k) && k < u.next_keyframe_detector_frame
                    implies u.keyframes.contains(k) by {
                if k == n {
                    assert(u.keyframes[u.keyframes.len() - 1] == n);
                } else {
                    assert(v.keyframes.contains(k));
                }
            }
        }
        lemma_scenechange_loop(u);
    }
}

/// Input frame 0 is looked at by nobody but is a keyframe; a new context
/// starts with the detector behind the input and no forced keyframe.
pub proof fn law_new_context_keyframe_invariants(v: ContextView)
    requires
        v.keyframes == seq![0u64],
        v.keyframes_forced == Seq::<u64>::empty(),
        v.next_keyframe_detector_frame == 1,
    ensures
        forced_keyframes_placed(v),
        detector_behind_input(v),
{
}

/// Sending a frame keeps every keyframe placed before, and every frame the
/// user forced to be a keyframe becomes one once the detector reaches it.
pub proof fn law_send_frame_places_forced_keyframes(
    v: ContextView,
    has_frame: bool,
    params: Option<FrameParameters>,
)
    requires
        v.wf(),
        v.in_range(),
        forced_keyframes_placed(v),
        detector_behind_input(v),
    ensures
        ({
            let w = v.send_frame(has_frame, params);
            &&& forced_keyframes_placed(w)
            &&& detector_behind_input(w)
            &&& forall|k: u64| #[trigger] v.keyframes.contains(k) ==> w.keyframes.contains(k)
            &&& w.input_frameno == v.input_frameno
            &&& w.frames_processed == v.frames_processed
        }),
{
    let key = v.frame_count;
    let v1 = if v.queue.len() == 0 {
        ContextView { queue_start: key, queue: seq![has_frame], ..v }
    } else if key + 1 == v.queue_start + v.queue.len() {
        ContextView { queue: v.queue.update(v.queue.len() - 1, has_frame), ..v }
    } else {
        ContextView { queue: v.queue.push(has_frame), ..v }
    };
    let v2 = if !v1.is_flushing() {
        ContextView { frame_count: (key + 1) as u64, ..v1 }
    } else {
        v1
    };
    let v3 = match params {
        Some(p) => ContextView {
            keyframes_forced: if p.frame_type_override
                == crate::api::status::FrameTypeOverride::Key {
                set_insert(v2.keyframes_forced, key)
            } else {
                v2.keyframes_forced
            },
            opaque_q: match p.opaque {
                Some(o) => opaque_insert(v2.opaque_q, key, o),
                None => v2.opaque_q,
            },
            ..v2
        },
        None => v2,
    };
    assert(v.send_frame(has_frame, params) == v3.scenechange_loop());
    assert(v.keyframes[0] == 0);
    assert(v.keyframes.contains(0));
    assert forall|k: u64|
        #[trigger] v3.keyframes_forced.contains(k) && k < v3.next_keyframe_detector_frame
            implies v3.keyframes.contains(k) by {
        if !v.keyframes_forced.contains(k) {
            let i = choose|i: int|
                0 <= i < v3.keyframes_forced.len() && v3.keyframes_forced[i] == k;
            assert(k == key);
        }
    }
    lemma_scenechange_loop(v3);
}

/// Sending a frame with a value attached attaches it to that frame: the
/// value is what the frame reads back afterwards.
pub proof fn law_send_frame_attaches_opaque(
    v: ContextView,
    has_frame: bool,
    p: FrameParameters,
    o: Opaque,
)
    requires
        v.wf(),
        v.in_range(),
        p.opaque == Some(o),
    ensures
        opaque_lookup(v.send_frame(has_frame, Some(p)).opaque_q, v.frame_count) == Some(o),
{
    let key = v.frame_count;
    let v1 = if v.queue.len() == 0 {
        ContextView { queue_start: key, queue: seq![has_frame], ..v }
    } else if key + 1 == v.queue_start + v.queue.len() {
        ContextView { queue: v.queue.update(v.queue.len() - 1, has_frame), ..v }
    } else {
        ContextView { queue: v.queue.push(has_frame), ..v }
    };
    let v2 = if !v1.is_flushing() {
        ContextView { frame_count: (key + 1) as u64, ..v1 }
    } else {
        v1
    };
    let v3 = ContextView {
        keyframes_forced: if p.frame_type_override == crate::api::status::FrameTypeOverride::Key {
            set_insert(v2.keyframes_forced, key)
        } else {
            v2.keyframes_forced
        },
        opaque_q: opaque_insert(v2.opaque_q, key, o),
        ..v2
    };
    assert(v.send_frame(has_frame, Some(p)) == v3.scenechange_loop());
    lemma_scenechange_loop(v3);
    law_opaque_read_after_write(v.opaque_q, key, o, key);
}

/// Sending a frame keeps at most one value attached per frame.
pub proof fn law_send_frame_keeps_opaque_keys_unique(
    v: ContextView,
    has_frame: bool,
    params: Option<FrameParameters>,
)
    requires
        v.wf(),
        v.in_range(),
        keys_unique(v.opaque_q),
    ensures
        keys_unique(v.send_frame(has_frame, params).opaque_q),
{
    let key = v.frame_count;
    let v1 = if v.queue.len() == 0 {
        ContextView { queue_start: key, queue: seq![has_frame], ..v }
    } else if key + 1 == v.queue_start + v.queue.len() {
        ContextView { queue: v.queue.update(v.queue.len() - 1, has_frame), ..v }
    } else {
        ContextView { queue: v.queue.push(has_frame), ..v }
    };
    let v2 = if !v1.is_flushing() {
        ContextView { frame_count: (key + 1) as u64, ..v1 }
    } else {
        v1
    };
    let v3 = match params {
        Some(p) => ContextView {
            keyframes_forced: if p.frame_type_override
                == crate::api::status::FrameTypeOverride::Key {
                set_insert(v2.keyframes_forced, key)
            } else {
                v2.keyframes_forced
            },
            opaque_q: match p.opaque {
                Some(o) => opaque_insert(v2.opaque_q, key, o),
                None => v2.opaque_q,
            },
            ..v2
        },
        None => v2,
    };
    assert(v.send_frame(has_frame, params) == v3.scenechange_loop());
    lemma_scenechange_loop(v3);
    if let Some(p) = params {
        if let Some(o) = p.opaque {
            law_opaque_insert_keeps_keys_unique(v.opaque_q, key, o);
        }
    }
}

/// A packet carries the value attached to the frame it shows, and that
/// value is handed out once: afterwards the frame has none left.
pub proof fn law_packet_carries_opaque(v: ContextView)
    requires
        v.wf(),
        v.in_range(),
        keys_unique(v.opaque_q),
    ensures
        ({
            let (w, r) = v.receive_packet();
            &&& keys_unique(w.opaque_q)
            &&& r matches Ok(p) ==> p.opaque == opaque_lookup(v.opaque_q, p.input_frameno)
                && opaque_lookup(w.opaque_q, p.input_frameno) is None
        }),
{
    let (w, r) = v.receive_packet();
    if let Ok(p) = r {
        law_opaque_taken_once(v.opaque_q, p.input_frameno, p.input_frameno);
    }
}

/// A block passes its importance on to the importance blocks that its match
/// in the reference frame overlaps, without loss or gain: of the four blocks
/// that a block displaced to (`rx`, `ry`) motion vector units overlaps, the
/// first holds the displaced block's top-left corner, each overlap covers
/// between none and all of a block, and together they cover exactly one
/// block's area. Where all four lie inside the `w` by `h` grid, all four
/// receive a share, and the shares add up to the whole.
pub proof fn law_propagation_shares_add_up(rx: int, ry: int, w: int, h: int)
    ensures
        overlap_corner(rx, ry, 0).0 * 64 <= rx < overlap_corner(rx, ry, 0).0 * 64 + 64,
        overlap_corner(rx, ry, 0).1 * 64 <= ry < overlap_corner(rx, ry, 0).1 * 64 + 64,
        forall|k: int|
            0 <= k < 4 ==> 0 <= #[trigger] overlap_corner(rx, ry, k).2 <= IMP_BLOCK_AREA_IN_MV_UNITS,
        overlap_corner(rx, ry, 0).2 + overlap_corner(rx, ry, 1).2 + overlap_corner(rx, ry, 2).2
            + overlap_corner(rx, ry, 3).2 == IMP_BLOCK_AREA_IN_MV_UNITS,
        0 <= rx / 64 && rx / 64 + 1 < w && 0 <= ry / 64 && ry / 64 + 1 < h ==> {
            let t = propagation_targets(rx, ry, w, h);
            &&& t.len() == 4
            &&& t[0].1 + t[1].1 + t[2].1 + t[3].1 == IMP_BLOCK_AREA_IN_MV_UNITS
        },
{
    let dx = rx - (rx / 64) * 64;
    let dy = ry - (ry / 64) * 64;
    vstd::arithmetic::div_mod::lemma_fundamental_div_mod(rx, 64);
    vstd::arithmetic::div_mod::lemma_fundamental_div_mod(ry, 64);
    assert(0 <= dx < 64 && 0 <= dy < 64);
    assert((64 - dx) * (64 - dy) + dx * (64 - dy) + (64 - dx) * dy + dx * dy == 4096)
        by (nonlinear_arith);
    assert(0 <= (64 - dx) * (64 - dy) <= 4096) by (nonlinear_arith)
        requires
            0 <= dx < 64,
            0 <= dy < 64,
    ;
    assert(0 <= dx * (64 - dy) <= 4096) by (nonlinear_arith)
        requires
            0 <= dx < 64,
            0 <= dy < 64,
    ;
    assert(0 <= (64 - dx) * dy <= 4096) by (nonlinear_arith)
        requires
            0 <= dx < 64,
            0 <= dy < 64,
    ;
    assert(0 <= dx * dy <= 4096) by (nonlinear_arith)
        requires
            0 <= dx < 64,
            0 <= dy < 64,
    ;
    assert(overlap_corner(rx, ry, 0).2 == (64 - dx) * (64 - dy));
    assert(overlap_corner(rx, ry, 1).2 == dx * (64 - dy));
    assert(overlap_corner(rx, ry, 2).2 == (64 - dx) * dy);
    assert(overlap_corner(rx, ry, 3).2 == dx * dy);
}

} // verus!
