//! The queue of input frames waiting to be coded, keyed by input frame number.

use crate::frame::Frame;
use crate::pixel::Pixel;
use vstd::prelude::*;

verus! {

/// Input frames by input frame number. The keys are consecutive: frames are
/// appended at the end and released from the front. An entry of `None` marks
/// the end of the input.
pub struct FrameQueue<T: Pixel> {
    start: u64,
    frames: Vec<Option<Frame<T>>>,
}

/// For each entry from the first key on: whether it holds a frame.
pub open spec fn presence_of<T: Pixel>(frames: Seq<Option<Frame<T>>>) -> Seq<bool> {
    frames.map_values(|f: Option<Frame<T>>| f is Some)
}

/// Number of `true` entries.
pub open spec fn count_true(s: Seq<bool>) -> nat
    decreases s.len(),
{
    if s.len() == 0 {
        0
    } else {
        count_true(s.drop_last()) + (if s.last() { 1nat } else { 0nat })
    }
}

/// In a queue whose first key is `start`, the number of entries from key
/// `key` on that hold a frame.
pub open spec fn queue_frames_from(start: u64, presence: Seq<bool>, key: u64) -> nat {
    let from = if key <= start {
        0
    } else if key - start >= presence.len() {
        presence.len() as int
    } else {
        key - start
    };
    count_true(presence.subrange(from, presence.len() as int))
}

proof fn lemma_count_true_bound(s: Seq<bool>)
    ensures
        count_true(s) <= s.len(),
    decreases s.len(),
{
    if s.len() > 0 {
        lemma_count_true_bound(s.drop_last());
    }
}

/// `q` holds the entries of `p` from its first key on, unchanged: at most
/// entries at the front were released.
pub open spec fn keeps_tail<T: Pixel>(q: &FrameQueue<T>, p: &FrameQueue<T>) -> bool {
    &&& p.start() <= q.start() <= p.start() + p.entries().len()
    &&& q.entries() == p.entries().subrange(q.start() - p.start(), p.entries().len() as int)
}

/// A queue keeps all of its own entries.
pub proof fn lemma_keeps_tail_refl<T: Pixel>(q: &FrameQueue<T>)
    ensures
        keeps_tail(q, q),
{
    assert(q.entries().subrange(0, q.entries().len() as int) =~= q.entries());
}

impl<T: Pixel> FrameQueue<T> {
    /// The first key.
    pub closed spec fn start(&self) -> u64 {
        self.start
    }

    /// The entries, from the first key on: a frame, or `None` for the end of
    /// the input.
    pub closed spec fn entries(&self) -> Seq<Option<Frame<T>>> {
        self.frames@
    }

    /// Whether each entry holds a frame, from the first key on.
    pub open spec fn presence(&self) -> Seq<bool> {
        presence_of(self.entries())
    }

    /// Keys fit in 64 bits.
    pub closed spec fn wf(&self) -> bool {
        self.start + self.frames@.len() <= u64::MAX
    }

    /// The number of entries from key `key` on that hold a frame.
    pub open spec fn frames_from(&self, key: u64) -> nat {
        queue_frames_from(self.start(), self.presence(), key)
    }

    /// An empty queue whose first key will be `start`.
    pub fn new(start: u64) -> (q: FrameQueue<T>)
        ensures
            q.wf(),
            q.start() == start,
            q.entries() == Seq::<Option<Frame<T>>>::empty(),
            q.presence() == Seq::<bool>::empty(),
    {
        FrameQueue { start, frames: Vec::new() }
    }

    /// The first key.
    pub fn start_key(&self) -> (r: u64)
        ensures
            r == self.start(),
    {
        self.start
    }

    /// The number of entries.
    pub fn len(&self) -> (r: usize)
        ensures
            r == self.presence().len(),
    {
        self.frames.len()
    }

    /// The entry of key `key`, if the queue has one.
    pub fn get(&self, key: &u64) -> (r: Option<&Option<Frame<T>>>)
        ensures
            r is Some <==> self.start() <= *key < self.start() + self.presence().len(),
            r is Some ==> (r->0 is Some) == self.presence()[*key - self.start()],
            r is Some ==> *r->0 == self.entries()[*key - self.start()],
    {
        if *key >= self.start && *key - self.start < self.frames.len() as u64 {
            let i = (*key - self.start) as usize;
            Some(&self.frames[i])
        } else {
            None
        }
    }

    /// Whether the entry of key `key` holds a frame.
    pub fn has_frame(&self, key: u64) -> (r: bool)
        ensures
            r == (self.start() <= key < self.start() + self.presence().len()
                && self.presence()[key - self.start()]),
    {
        match self.get(&key) {
            Some(Some(_)) => true,
            _ => false,
        }
    }

    /// The last key, if any.
    pub fn last_key(&self) -> (r: Option<u64>)
        requires
            self.wf(),
        ensures
            self.presence().len() == 0 ==> r is None,
            self.presence().len() > 0 ==> r == Some((self.start() + self.presence().len() - 1) as u64),
    {
        if self.frames.len() == 0 {
            None
        } else {
            Some(self.start + (self.frames.len() - 1) as u64)
        }
    }

    /// Whether the last entry marks the end of the input.
    pub fn ends_with_marker(&self) -> (r: bool)
        ensures
            r == (self.presence().len() > 0 && !self.presence().last()),
    {
        let n = self.frames.len();
        if n == 0 {
            false
        } else {
            self.frames[n - 1].is_none()
        }
    }

    /// Appends an entry after the last key.
    pub fn push(&mut self, frame: Option<Frame<T>>)
        requires
            old(self).wf(),
            old(self).start() + old(self).presence().len() < u64::MAX,
        ensures
            final(self).wf(),
            final(self).start() == old(self).start(),
            final(self).presence() == old(self).presence().push(frame is Some),
            final(self).entries() == old(self).entries().push(frame),
    {
        self.frames.push(frame);
        proof {
            assert(presence_of(self.frames@) =~= presence_of(old(self).frames@).push(frame is Some));
        }
    }

    /// Enters `frame` under key `key`, which is the last key or the one after
    /// it; into an empty queue, under any key.
    pub fn insert(&mut self, key: u64, frame: Option<Frame<T>>)
        requires
            old(self).wf(),
            key < u64::MAX,
            old(self).presence().len() > 0 ==> (key == old(self).start() + old(self).presence().len()
                || key + 1 == old(self).start() + old(self).presence().len()),
        ensures
            final(self).wf(),
            ({
                let s = old(self).start();
                let p = old(self).presence();
                if p.len() == 0 {
                    final(self).start() == key && final(self).presence() == seq![frame is Some]
                } else if key + 1 == s + p.len() {
                    final(self).start() == s && final(self).presence() == p.update(p.len() - 1, frame is Some)
                } else {
                    final(self).start() == s && final(self).presence() == p.push(frame is Some)
                }
            }),
            ({
                let s = old(self).start();
                let e = old(self).entries();
                if e.len() == 0 {
                    final(self).entries() == seq![frame]
                } else if key + 1 == s + e.len() {
                    final(self).entries() == e.update(e.len() - 1, frame)
                } else {
                    final(self).entries() == e.push(frame)
                }
            }),
            final(self).start() <= key < final(self).start() + final(self).entries().len(),
            final(self).entries()[key - final(self).start()] == frame,
            forall|k: int|
                final(self).start() <= k < final(self).start() + final(self).entries().len() && k
                    != key ==> #[trigger] final(self).entries()[k - final(self).start()] == old(
                    self,
                ).entries()[k - old(self).start()],
    {
        if self.frames.len() == 0 {
            self.start = key;
            self.push(frame);
            proof {
                assert(self.presence() =~= seq![frame is Some]);
                assert(self.entries() =~= seq![frame]);
            }
        } else if key - self.start == (self.frames.len() - 1) as u64 {
            self.set_last(frame);
        } else {
            self.push(frame);
        }
    }

    /// Replaces the last entry.
    pub fn set_last(&mut self, frame: Option<Frame<T>>)
        requires
            old(self).wf(),
            old(self).presence().len() > 0,
        ensures
            final(self).wf(),
            final(self).start() == old(self).start(),
            final(self).presence() == old(self).presence().update(
                old(self).presence().len() - 1,
                frame is Some,
            ),
            final(self).entries() == old(self).entries().update(old(self).entries().len() - 1, frame),
    {
        let n = self.frames.len();
        let is_some = frame.is_some();
        self.frames[n - 1] = frame;
        proof {
            assert(presence_of(self.frames@) =~= presence_of(old(self).frames@).update(
                n - 1,
                is_some,
            ));
        }
    }

    /// Releases every entry whose key is below `key`.
    pub fn remove_before(&mut self, key: u64)
        requires
            old(self).wf(),
        ensures
            final(self).wf(),
            ({
                let old_start = old(self).start();
                let old_len = old(self).presence().len();
                let new_start = if key <= old_start {
                    old_start as int
                } else if key >= old_start + old_len {
                    old_start + old_len
                } else {
                    key as int
                };
                &&& final(self).start() == new_start
                &&& final(self).presence() == old(self).presence().subrange(
                    new_start - old_start,
                    old_len as int,
                )
            }),
            keeps_tail(final(self), old(self)),
    {
        let ghost old_frames = self.frames@;
        let ghost old_start = self.start;
        while self.start < key && self.frames.len() > 0
            invariant
                self.wf(),
                old_start <= self.start,
                self.start - old_start <= old_frames.len(),
                self.frames@ == old_frames.subrange(self.start - old_start, old_frames.len() as int),
                self.start > old_start ==> self.start <= key,
            decreases self.frames@.len(),
        {
            self.frames.remove(0);
            self.start = self.start + 1;
        }
        proof {
            assert(presence_of(self.frames@) =~= presence_of(old_frames).subrange(
                self.start - old_start,
                old_frames.len() as int,
            ));
        }
    }

    /// The number of entries from key `key` on that hold a frame.
    pub fn count_frames_from(&self, key: u64) -> (r: u64)
        requires
            self.wf(),
        ensures
            r == self.frames_from(key),
    {
        let n = self.frames.len();
        let from: usize = if key <= self.start {
            0
        } else if key - self.start >= n as u64 {
            n
        } else {
            (key - self.start) as usize
        };
        let mut count: u64 = 0;
        let mut i: usize = n;
        proof {
            lemma_count_true_bound(self.presence().subrange(from as int, n as int));
        }
        while i > from
            invariant
                from <= i <= n,
                n == self.frames@.len(),
                count + count_true(self.presence().subrange(from as int, i as int))
                    == count_true(self.presence().subrange(from as int, n as int)),
                count <= n - i,
            decreases i,
        {
            let ghost s = self.presence().subrange(from as int, i as int);
            assert(s.drop_last() =~= self.presence().subrange(from as int, i - 1));
            if self.frames[i - 1].is_some() {
                count = count + 1;
            }
            i = i - 1;
        }
        count
    }
}

} // verus!
