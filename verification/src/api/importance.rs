//! Which frames the lookahead looks at: where the next GOP starts, and the
//! frames (with the frames they may reference) whose block importances are
//! propagated back to the frame about to be coded.

use crate::api::internal::{
    lemma_first_greater_is_greater, vec_contains, vec_first_greater, ContextInner,
};
use crate::api::schedule::{ascending, first_greater, first_greater_from, ContextView};
use crate::pixel::Pixel;
use vstd::prelude::*;

verus! {

/// The input frame at which the GOP that starts at `start` ends: the next
/// keyframe after it, but no further than the maximum keyframe interval
/// and, unless `ignore_limit`, than the frame limit.
pub open spec fn spec_next_keyframe_input_frameno(
    v: ContextView,
    start: u64,
    ignore_limit: bool,
) -> u64 {
    let by_interval = (start + v.config.max_key_frame_interval) as u64;
    let next_limit = match v.limit {
        Some(l) => if !ignore_limit && l < by_interval {
            l
        } else {
            by_interval
        },
        None => by_interval,
    };
    match first_greater(v.keyframes, start) {
        Some(d) => if d < next_limit {
            d
        } else {
            next_limit
        },
        None => next_limit,
    }
}

/// In an ascending sequence, the first element above `x` from index `i` on
/// is the least such element, and where there is none, no element from `i`
/// on is above `x`.
proof fn lemma_first_greater_is_least(s: Seq<u64>, x: u64, i: int)
    requires
        0 <= i,
        ascending(s),
    ensures
        forall|j: int|
            i <= j < s.len() && #[trigger] s[j] > x ==> (first_greater_from(s, x, i) matches Some(k)
                && k <= s[j]),
    decreases s.len() - i,
{
    if i < s.len() && s[i] <= x {
        lemma_first_greater_is_least(s, x, i + 1);
    }
}

/// The GOP that starts at `start` ends at the nearest of three bounds: the
/// first keyframe after `start`, `start` plus the maximum keyframe interval,
/// and (unless `ignore_limit`) the frame limit; no keyframe lies after
/// `start` and before that end.
pub proof fn law_next_keyframe_is_nearest_bound(v: ContextView, start: u64, ignore_limit: bool)
    requires
        ascending(v.keyframes),
        start + v.config.max_key_frame_interval <= u64::MAX,
    ensures
        ({
            let r = spec_next_keyframe_input_frameno(v, start, ignore_limit);
            &&& r <= start + v.config.max_key_frame_interval
            &&& !ignore_limit ==> (v.limit matches Some(l) ==> r <= l)
            &&& forall|i: int| 0 <= i < v.keyframes.len() && #[trigger] v.keyframes[i] > start ==> r
                <= v.keyframes[i]
            &&& r == start + v.config.max_key_frame_interval || (!ignore_limit && v.limit == Some(r))
                || (r > start && v.keyframes.contains(r))
        }),
{
    lemma_first_greater_is_least(v.keyframes, start, 0);
    lemma_first_greater_is_greater(v.keyframes, start, 0);
}

/// The last keyframe before input frame `x` among the first `n` keyframes,
/// or 0.
pub open spec fn last_keyframe_before(keyframes: Seq<u64>, x: u64, n: nat) -> u64
    decreases n,
{
    if n == 0 || n > keyframes.len() {
        0
    } else if keyframes[n - 1] < x {
        keyframes[n - 1]
    } else {
        last_keyframe_before(keyframes, x, (n - 1) as nat)
    }
}

/// The first input frame whose block importances matter for the frame
/// about to be shown: two frames back, but not before the current GOP.
pub open spec fn importance_start(v: ContextView) -> u64 {
    let two_back: u64 = if v.input_frameno >= 2 {
        (v.input_frameno - 2) as u64
    } else {
        0
    };
    let kf = last_keyframe_before(v.keyframes, v.input_frameno, v.keyframes.len());
    if two_back > kf {
        two_back
    } else {
        kf
    }
}

/// The queued frames from key `k` on that take part in the propagation,
/// ascending: the frames held, up to the first keyframe after the frame
/// about to be shown.
pub open spec fn importance_keys(v: ContextView, k: int) -> Seq<u64>
    decreases v.queue_start + v.queue.len() - k,
{
    if k >= v.queue_start + v.queue.len() || k < 0 {
        seq![]
    } else if k < v.queue_start {
        importance_keys(v, v.queue_start as int)
    } else if !v.queue[k - v.queue_start] {
        importance_keys(v, k + 1)
    } else if k > v.input_frameno && v.keyframes.contains(k as u64) {
        seq![]
    } else {
        seq![k as u64].add(importance_keys(v, k + 1))
    }
}

/// The frames that take part in the propagation of block importances.
pub open spec fn spec_importance_frame_set(v: ContextView) -> Seq<u64> {
    importance_keys(v, importance_start(v) as int)
}

/// The frames that frame `f` of the propagation may reference: the frame
/// after it and the two before it, when they are held in the queue and not
/// past the last frame of the propagation.
pub open spec fn spec_importance_refs(v: ContextView, f: u64, last: u64) -> Seq<u64> {
    let after = (f + 1) as u64;
    let r1 = if f + 1 <= last && f + 1 <= u64::MAX && v.has_frame(after) {
        seq![after]
    } else {
        seq![]
    };
    let r2 = if f >= 1 && v.has_frame((f - 1) as u64) {
        seq![(f - 1) as u64]
    } else {
        seq![]
    };
    let r3 = if f >= 2 && v.has_frame((f - 2) as u64) {
        seq![(f - 2) as u64]
    } else {
        seq![]
    };
    r1 + r2 + r3
}

/// Entry `j` of the reference lists of the propagation over `fs`: the
/// frame `j` places from the end of `fs`, after the frame about to be
/// shown, with the frames it may reference.
pub open spec fn importance_ref_entry(v: ContextView, fs: Seq<u64>, j: int, e: (u64, Vec<u64>)) -> bool {
    let f = fs[fs.len() - 1 - j];
    &&& e.0 == f
    &&& f > v.input_frameno
    &&& e.1@ == spec_importance_refs(v, f, fs.last())
}

impl<T: Pixel> ContextInner<T> {
    /// The input frame at which the GOP starting at `gop_input_frameno_start`
    /// ends: the next keyframe after it, but no further than the maximum
    /// keyframe interval and, unless `ignore_limit`, than the frame limit.
    pub fn next_keyframe_input_frameno(&self, gop_input_frameno_start: u64, ignore_limit: bool) -> (r:
        u64)
        requires
            gop_input_frameno_start + self.config.max_key_frame_interval <= u64::MAX,
        ensures
            r == spec_next_keyframe_input_frameno(self@, gop_input_frameno_start, ignore_limit),
            r <= gop_input_frameno_start + self.config.max_key_frame_interval,
    {
        let next_detected = vec_first_greater(&self.keyframes, gop_input_frameno_start);
        let mut next_limit = gop_input_frameno_start + self.config.max_key_frame_interval;
        if !ignore_limit {
            if let Some(l) = self.limit {
                if l < next_limit {
                    next_limit = l;
                }
            }
        }
        match next_detected {
            None => next_limit,
            Some(d) => if d < next_limit {
                d
            } else {
                next_limit
            },
        }
    }

    fn last_keyframe_before_exec(&self, x: u64) -> (r: u64)
        ensures
            r == last_keyframe_before(self.keyframes@, x, self.keyframes@.len()),
    {
        let mut n: usize = self.keyframes.len();
        while n > 0
            invariant
                n <= self.keyframes@.len(),
                last_keyframe_before(self.keyframes@, x, self.keyframes@.len())
                    == last_keyframe_before(self.keyframes@, x, n as nat),
            decreases n,
        {
            if self.keyframes[n - 1] < x {
                return self.keyframes[n - 1];
            }
            n = n - 1;
        }
        0
    }

    /// The input frames whose block importances are propagated back to the
    /// frame about to be shown, ascending: the frames held in the queue from
    /// two frames back (but not before the current GOP) up to the first
    /// keyframe after the frame about to be shown.
    pub fn importance_frame_set(&self) -> (r: Vec<u64>)
        requires
            self.wf(),
            self@.in_range(),
        ensures
            r@ == spec_importance_frame_set(self@),
    {
        let two_back = self.input_frameno.saturating_sub(2);
        let kf = self.last_keyframe_before_exec(self.input_frameno);
        let start = if two_back > kf {
            two_back
        } else {
            kf
        };
        let ghost v = self@;
        let qs = self.frame_q.start_key();
        let qlen = self.frame_q.len() as u64;
        let qend = qs + qlen;
        let mut k: u64 = if start < qs {
            qs
        } else {
            start
        };
        let mut out: Vec<u64> = Vec::new();
        proof {
            if start < qs && start < qend {
                assert(importance_keys(v, start as int) == importance_keys(v, qs as int));
            }
        }
        while k < qend
            invariant
                v == self@,
                self.wf(),
                qs == v.queue_start,
                qend == v.queue_start + v.queue.len(),
                qs <= k,
                k <= qend || (k == start && qend <= k),
                out@ + importance_keys(v, k as int) == spec_importance_frame_set(v),
            decreases qend - k,
        {
            if self.frame_q.has_frame(k) {
                if k > self.input_frameno && vec_contains(&self.keyframes, k) {
                    proof {
                        assert(importance_keys(v, k as int) == Seq::<u64>::empty());
                        assert(out@ + Seq::<u64>::empty() =~= out@);
                    }
                    return out;
                }
                proof {
                    assert(out@.push(k) + importance_keys(v, k + 1) =~= out@ + importance_keys(
                        v,
                        k as int,
                    ));
                }
                out.push(k);
            }
            k = k + 1;
        }
        proof {
            assert(importance_keys(v, k as int) == Seq::<u64>::empty());
            assert(out@ + Seq::<u64>::empty() =~= out@);
        }
        out
    }

    /// For each frame of `frame_set` after the frame about to be shown,
    /// from the last one back, the frames it may reference: the frame after
    /// it and the two before it, when held in the queue and not past the
    /// last frame of the set.
    pub fn importance_ref_frames(&self, frame_set: &Vec<u64>) -> (r: Vec<(u64, Vec<u64>)>)
        requires
            self.wf(),
            frame_set@.len() > 0,
        ensures
            r@.len() <= frame_set@.len(),
            forall|i: int|
                0 <= i < r@.len() ==> importance_ref_entry(self@, frame_set@, i, #[trigger] r@[i]),
            r@.len() < frame_set@.len() ==> frame_set@[frame_set@.len() - 1 - r@.len()]
                <= self.input_frameno,
    {
        let last = frame_set[frame_set.len() - 1];
        let mut out: Vec<(u64, Vec<u64>)> = Vec::new();
        let mut i: usize = 0;
        while i < frame_set.len()
            invariant
                self.wf(),
                last == frame_set@.last(),
                frame_set@.len() > 0,
                i <= frame_set@.len(),
                out@.len() == i,
                forall|j: int|
                    0 <= j < i ==> importance_ref_entry(self@, frame_set@, j, #[trigger] out@[j]),
            decreases frame_set@.len() - i,
        {
            let f = frame_set[frame_set.len() - 1 - i];
            if f <= self.input_frameno {
                return out;
            }
            let mut refs: Vec<u64> = Vec::new();
            if f < u64::MAX && f + 1 <= last && self.frame_q.has_frame(f + 1) {
                refs.push(f + 1);
            }
            if f >= 1 && self.frame_q.has_frame(f - 1) {
                refs.push(f - 1);
            }
            if f >= 2 && self.frame_q.has_frame(f - 2) {
                refs.push(f - 2);
            }
            proof {
                let v = self@;
                let after = (f + 1) as u64;
                let r1 = if f + 1 <= last && f + 1 <= u64::MAX && v.has_frame(after) {
                    seq![after]
                } else {
                    seq![]
                };
                let r2 = if f >= 1 && v.has_frame((f - 1) as u64) {
                    seq![(f - 1) as u64]
                } else {
                    seq![]
                };
                let r3 = if f >= 2 && v.has_frame((f - 2) as u64) {
                    seq![(f - 2) as u64]
                } else {
                    seq![]
                };
                assert(refs@ =~= r1 + r2 + r3);
            }
            let ghost before = out@;
            out.push((f, refs));
            proof {
                assert(out@[i as int] == (f, refs));
                assert forall|j: int| 0 <= j < i + 1 implies importance_ref_entry(
                    self@,
                    frame_set@,
                    j,
                    #[trigger] out@[j],
                ) by {
                    if j < i {
                        assert(out@[j] == before[j]);
                    }
                }
            }
            i = i + 1;
        }
        out
    }
}

} // verus!
