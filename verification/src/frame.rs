//! Frame storage: an owned, fixed-capacity byte buffer plus a logical
//! length. The buffer is as large as the link MTU allows; bytes beyond the
//! logical length carry no meaning. A frame's view is the sequence of its
//! first `len` bytes.

use vstd::prelude::*;
use vstd::slice::{slice_index_get, slice_subrange};

verus! {

/// Size of every frame buffer: the largest link-layer packet the driver
/// can deliver or accept.
pub const FRAME_CAPACITY: usize = 1536;

/// One link-layer packet: a buffer of exactly `FRAME_CAPACITY` bytes, of
/// which the first `len` are the packet's content.
pub struct DataFrame {
    len: usize,
    data: Vec<u8>,
}

impl View for DataFrame {
    type V = Seq<u8>;

    closed spec fn view(&self) -> Seq<u8> {
        self.data@.take(self.len as int)
    }
}

impl DataFrame {
    /// The storage invariant: the buffer is full-sized and the logical
    /// length never exceeds it.
    pub closed spec fn wf(&self) -> bool {
        &&& self.data@.len() == FRAME_CAPACITY
        &&& self.len <= FRAME_CAPACITY
    }

    /// A well-formed frame never holds more than `FRAME_CAPACITY` bytes.
    pub proof fn lemma_len_bounded(&self)
        requires
            self.wf(),
        ensures
            self@.len() <= FRAME_CAPACITY,
    {
    }

    /// An empty frame: zeroed buffer, logical length zero.
    pub fn new() -> (r: DataFrame)
        ensures
            r.wf(),
            r@ == Seq::<u8>::empty(),
    {
        let mut data: Vec<u8> = Vec::new();
        let mut i: usize = 0;
        while i < FRAME_CAPACITY
            invariant
                i <= FRAME_CAPACITY,
                data@.len() == i,
            decreases FRAME_CAPACITY - i,
        {
            data.push(0u8);
            i = i + 1;
        }
        let r = DataFrame { len: 0, data };
        proof {
            assert(r@ =~= Seq::<u8>::empty());
        }
        r
    }

    /// Copy a byte slice into a fresh frame. The slice must fit the
    /// fixed-size buffer; the driver and the stack both respect the MTU,
    /// so a longer slice is a contract violation, not a runtime case.
    pub fn from_bytes(bytes: &[u8]) -> (r: DataFrame)
        requires
            bytes@.len() <= FRAME_CAPACITY,
        ensures
            r.wf(),
            r@ == bytes@,
    {
        let mut frame = DataFrame::new();
        let n = bytes.len();
        let mut i: usize = 0;
        while i < n
            invariant
                i <= n,
                n == bytes@.len(),
                n <= FRAME_CAPACITY,
                frame.data@.len() == FRAME_CAPACITY,
                forall|j: int| 0 <= j < i ==> frame.data@[j] == bytes@[j],
            decreases n - i,
        {
            let b = *slice_index_get(bytes, i);
            frame.data.set(i, b);
            i = i + 1;
        }
        frame.len = n;
        proof {
            assert(frame@ =~= bytes@);
        }
        frame
    }

    /// The packet's content: the first `len` bytes of the buffer.
    pub fn slice(&self) -> (r: &[u8])
        requires
            self.wf(),
        ensures
            r@ == self@,
    {
        slice_subrange(self.data.as_slice(), 0, self.len)
    }

    /// The logical length of the packet.
    pub fn len(&self) -> (r: usize)
        requires
            self.wf(),
        ensures
            r == self@.len(),
    {
        self.len
    }
}

} // verus!
