//! The bounded frame queue: a fixed-capacity FIFO of frames, the one
//! synchronization structure shared between interrupt context and the
//! polling task. Enqueue on a full queue is rejected (the newest frame is
//! the one dropped); dequeue on an empty queue reports "no data". Neither
//! ever blocks.
//!
//! The queue's view is the sequence of the contents of its frames, oldest
//! first. The spec functions `spec_enqueue` and `spec_dequeue` state the
//! transitions once, the executable operations are proved against them,
//! and the queue laws below are proved of them.

use crate::frame::DataFrame;
use std::collections::VecDeque;
use vstd::prelude::*;

verus! {

/// Fixed-capacity FIFO of owned frames.
pub struct FrameQueue {
    cap: usize,
    items: VecDeque<DataFrame>,
}

/// What an enqueue does to a queue's view: append the frame when there is
/// room, leave the queue exactly as it was when it is full.
pub open spec fn spec_enqueue(s: Seq<Seq<u8>>, cap: nat, frame: Seq<u8>) -> Seq<Seq<u8>> {
    if s.len() < cap {
        s.push(frame)
    } else {
        s
    }
}

/// What a dequeue leaves behind: the tail of the view when the queue is
/// non-empty, the (empty) view itself otherwise.
pub open spec fn spec_dequeue(s: Seq<Seq<u8>>) -> Seq<Seq<u8>> {
    if s.len() > 0 {
        s.drop_first()
    } else {
        s
    }
}

impl View for FrameQueue {
    type V = Seq<Seq<u8>>;

    closed spec fn view(&self) -> Seq<Seq<u8>> {
        self.items@.map(|i: int, f: DataFrame| f@)
    }
}

impl FrameQueue {
    /// The queue invariant: never more frames than the capacity, and every
    /// held frame well-formed.
    pub closed spec fn wf(&self) -> bool {
        &&& self.items@.len() <= self.cap
        &&& forall|i: int| 0 <= i < self.items@.len() ==> (#[trigger] self.items@[i]).wf()
    }

    /// The fixed capacity the queue was created with.
    pub closed spec fn capacity(&self) -> nat {
        self.cap as nat
    }

    /// The invariant bounds the occupancy: a well-formed queue never
    /// holds more frames than its capacity.
    pub proof fn lemma_size_bounded(&self)
        requires
            self.wf(),
        ensures
            self@.len() <= self.capacity(),
    {
    }

    /// An empty queue of the given capacity.
    pub fn new(cap: usize) -> (r: FrameQueue)
        ensures
            r.wf(),
            r.capacity() == cap,
            r@ == Seq::<Seq<u8>>::empty(),
    {
        let r = FrameQueue { cap, items: VecDeque::new() };
        proof {
            assert(r@ =~= Seq::<Seq<u8>>::empty());
        }
        r
    }

    /// Number of frames currently queued.
    pub fn size(&self) -> (r: usize)
        requires
            self.wf(),
        ensures
            r == self@.len(),
    {
        self.items.len()
    }

    /// Whether the queue holds as many frames as it can.
    pub fn is_full(&self) -> (r: bool)
        requires
            self.wf(),
        ensures
            r == (self@.len() == self.capacity()),
    {
        self.items.len() == self.cap
    }

    /// Whether the queue holds no frame.
    pub fn is_empty(&self) -> (r: bool)
        requires
            self.wf(),
        ensures
            r == (self@.len() == 0),
    {
        self.items.len() == 0
    }

    /// Append a frame at the back. Succeeds exactly when the queue is not
    /// full; on a full queue the frame is discarded and the queue is left
    /// untouched. Constant-time and non-blocking either way.
    pub fn enqueue(&mut self, frame: DataFrame) -> (r: bool)
        requires
            old(self).wf(),
            frame.wf(),
        ensures
            final(self).wf(),
            final(self).capacity() == old(self).capacity(),
            r == (old(self)@.len() < old(self).capacity()),
            final(self)@ == spec_enqueue(old(self)@, old(self).capacity(), frame@),
    {
        if self.items.len() < self.cap {
            self.items.push_back(frame);
            proof {
                assert(self@ =~= spec_enqueue(old(self)@, old(self).capacity(), frame@));
            }
            true
        } else {
            false
        }
    }

    /// Remove and return the oldest frame, or report that the queue is
    /// empty. Constant-time and non-blocking.
    pub fn dequeue(&mut self) -> (r: Option<DataFrame>)
        requires
            old(self).wf(),
        ensures
            final(self).wf(),
            final(self).capacity() == old(self).capacity(),
            final(self)@ == spec_dequeue(old(self)@),
            match r {
                Some(frame) => {
                    &&& old(self)@.len() > 0
                    &&& frame.wf()
                    &&& frame@ == old(self)@[0]
                },
                None => old(self)@.len() == 0,
            },
    {
        let r = self.items.pop_front();
        proof {
            assert(self@ =~= spec_dequeue(old(self)@));
        }
        r
    }
}

/// The capacity bound is an invariant: however a queue was filled, its
/// view never exceeds its capacity, and one more enqueue keeps it so.
pub proof fn lemma_enqueue_bounded(s: Seq<Seq<u8>>, cap: nat, frame: Seq<u8>)
    requires
        s.len() <= cap,
    ensures
        spec_enqueue(s, cap, frame).len() <= cap,
{
}

/// No loss under non-saturating load: when the queue has room, an enqueue
/// keeps every queued frame, in order, and adds the new one at the back.
pub proof fn lemma_enqueue_no_loss(s: Seq<Seq<u8>>, cap: nat, frame: Seq<u8>)
    requires
        s.len() < cap,
    ensures
        spec_enqueue(s, cap, frame) == s.push(frame),
        spec_enqueue(s, cap, frame).len() == s.len() + 1,
        forall|i: int| 0 <= i < s.len() ==> spec_enqueue(s, cap, frame)[i] == s[i],
        spec_enqueue(s, cap, frame)[s.len() as int] == frame,
{
}

/// Saturation drop policy: an enqueue on a full queue drops the newest
/// frame and leaves the queued frames exactly as they were.
pub proof fn lemma_enqueue_saturated(s: Seq<Seq<u8>>, cap: nat, frame: Seq<u8>)
    requires
        s.len() == cap,
    ensures
        spec_enqueue(s, cap, frame) == s,
{
}

/// FIFO order: a dequeue yields the oldest frame, and every other frame
/// moves up one place with its order kept.
pub proof fn lemma_dequeue_fifo(s: Seq<Seq<u8>>)
    requires
        s.len() > 0,
    ensures
        spec_dequeue(s).len() == s.len() - 1,
        forall|i: int| 0 <= i < s.len() - 1 ==> spec_dequeue(s)[i] == s[i + 1],
{
}

/// The order in which repeated dequeues yield a queue's frames: the
/// oldest first, then whatever draining the rest yields.
pub open spec fn drain_order(s: Seq<Seq<u8>>) -> Seq<Seq<u8>>
    decreases s.len(),
{
    if s.len() == 0 {
        Seq::<Seq<u8>>::empty()
    } else {
        seq![s[0]] + drain_order(spec_dequeue(s))
    }
}

/// FIFO through and through: draining a queue by repeated dequeues yields
/// exactly its frames, in the exact order they were enqueued.
pub proof fn lemma_drain_order(s: Seq<Seq<u8>>)
    ensures
        drain_order(s) == s,
    decreases s.len(),
{
    if s.len() == 0 {
        assert(drain_order(s) =~= s);
    } else {
        lemma_drain_order(spec_dequeue(s));
        assert(drain_order(s) =~= s);
    }
}

} // verus!
