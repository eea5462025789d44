//! The network device adapter and the driver callback logic.
//!
//! `WifiDevice` owns the two bounded frame queues (one per direction) and
//! the wake cell. The stack-facing polling surface (`receive`, `transmit`,
//! `capabilities`, and the waker-registering variants) and the
//! driver-facing callback logic (`recv_cb`, `send_data_if_needed`) all
//! operate on it, and every operation that touches a queue demands a
//! critical-section token as proof of exclusion.
//!
//! Nothing here blocks or allocates on the hot path: backpressure is
//! expressed as "no operation available this poll", and a full receive
//! queue rejects the newest frame back to the driver.

use crate::frame::{DataFrame, FRAME_CAPACITY};
use crate::queue::{spec_dequeue, spec_enqueue, FrameQueue};
use crate::wake::WakeCell;
use vstd::prelude::*;

verus! {

/// Capacity of each direction's frame queue.
pub const QUEUE_CAPACITY: usize = 3;

/// Maximum transmission unit reported to the stack: the link-layer frame
/// size without the checksum.
pub const MTU: usize = 1514;

/// Errors surfaced to callers of the driver-facing operations: an opaque
/// non-zero driver status code, propagated unchanged, or a clock
/// configuration the radio cannot run with.
#[derive(Debug, Clone, Copy, PartialEq, Eq, Structural)]
pub enum WifiError {
    General(i32),
    WrongClockConfig,
}

/// Map a driver status code to a result: zero is success, any other code
/// is an opaque driver error carried through unchanged.
pub fn status_to_result(status: i32) -> (r: Result<(), WifiError>)
    ensures
        (r is Ok) == (status == 0),
        status != 0 ==> r == Err::<(), WifiError>(WifiError::General(status)),
{
    if status == 0 {
        Ok(())
    } else {
        Err(WifiError::General(status))
    }
}

/// What the device reports of itself to the polling stack.
pub struct Capabilities {
    pub max_transmission_unit: usize,
    pub max_burst_size: Option<usize>,
}

/// Link state reported to a polling consumer.
#[derive(Debug, Clone, Copy, PartialEq, Eq, Structural)]
pub enum LinkState {
    Down,
    Up,
}

/// Claim on one queued receive frame; consuming it dequeues exactly one
/// frame. Obtained only from a poll that saw the receive queue non-empty.
#[derive(Debug, Default)]
pub struct WifiRxToken {}

/// Claim on one transmit slot; consuming it queues exactly one frame.
#[derive(Debug, Default)]
pub struct WifiTxToken {}

/// The device: both bounded frame queues and the wake cell, owned in one
/// place and injected wherever the adapter or the driver callbacks run.
pub struct WifiDevice {
    rx: FrameQueue,
    tx: FrameQueue,
    waker: WakeCell,
}

impl WifiDevice {
    /// Contents of the receive queue (driver to stack), oldest first.
    pub closed spec fn rx_frames(&self) -> Seq<Seq<u8>> {
        self.rx@
    }

    /// Contents of the transmit queue (stack to driver), oldest first.
    pub closed spec fn tx_frames(&self) -> Seq<Seq<u8>> {
        self.tx@
    }

    /// The waker currently registered with the wake bridge, if any.
    pub closed spec fn waker_registered(&self) -> Option<core::task::Waker> {
        self.waker.registered()
    }

    /// Both queues well-formed and of the fixed capacity.
    pub closed spec fn wf(&self) -> bool {
        &&& self.rx.wf()
        &&& self.tx.wf()
        &&& self.rx.capacity() == QUEUE_CAPACITY as nat
        &&& self.tx.capacity() == QUEUE_CAPACITY as nat
    }

    /// A fresh device: both queues empty, no waker registered.
    pub fn new() -> (r: WifiDevice)
        ensures
            r.wf(),
            r.rx_frames() == Seq::<Seq<u8>>::empty(),
            r.tx_frames() == Seq::<Seq<u8>>::empty(),
            r.waker_registered() is None,
    {
        WifiDevice {
            rx: FrameQueue::new(QUEUE_CAPACITY),
            tx: FrameQueue::new(QUEUE_CAPACITY),
            waker: WakeCell::new(),
        }
    }

    /// Poll for a receivable frame: a token pair comes back exactly when
    /// the receive queue is non-empty. Nothing is dequeued yet; the
    /// receive token does that when consumed.
    pub fn receive(&self, _cs: critical_section::CriticalSection<'_>) -> (r: Option<
        (WifiRxToken, WifiTxToken),
    >)
        requires
            self.wf(),
        ensures
            (r is Some) == (self.rx_frames().len() > 0),
    {
        if !self.rx.is_empty() {
            Some((WifiRxToken {}, WifiTxToken {}))
        } else {
            None
        }
    }

    /// Ask for a transmit token. In the synchronous polling personality a
    /// token is always handed out; whether the transmit queue has room is
    /// settled when the token is consumed.
    pub fn transmit(&self) -> (r: Option<WifiTxToken>)
        ensures
            r is Some,
    {
        Some(WifiTxToken {})
    }

    /// Whether the transmit queue is full this instant.
    pub fn tx_full(&self, _cs: critical_section::CriticalSection<'_>) -> (r: bool)
        requires
            self.wf(),
        ensures
            r == (self.tx_frames().len() == QUEUE_CAPACITY as nat),
    {
        self.tx.is_full()
    }

    /// The waker-registering receive poll: register the caller's waker
    /// (replacing any earlier claim), then hand out a token pair exactly
    /// when a frame is waiting and the transmit queue has room. The
    /// queues themselves are untouched.
    pub fn poll_receive(
        &mut self,
        _cs: critical_section::CriticalSection<'_>,
        w: core::task::Waker,
    ) -> (r: Option<(WifiRxToken, WifiTxToken)>)
        requires
            old(self).wf(),
        ensures
            final(self).wf(),
            final(self).rx_frames() == old(self).rx_frames(),
            final(self).tx_frames() == old(self).tx_frames(),
            final(self).waker_registered() == Some(w),
            (r is Some) == (old(self).rx_frames().len() > 0 && old(self).tx_frames().len()
                < QUEUE_CAPACITY as nat),
    {
        proof {
            self.rx.lemma_size_bounded();
            self.tx.lemma_size_bounded();
        }
        self.waker.register(w);
        if !self.rx.is_empty() && !self.tx.is_full() {
            Some((WifiRxToken {}, WifiTxToken {}))
        } else {
            None
        }
    }

    /// The waker-registering transmit poll: register the caller's waker
    /// (replacing any earlier claim), then hand out a transmit token
    /// exactly when the transmit queue has room.
    pub fn poll_transmit(
        &mut self,
        _cs: critical_section::CriticalSection<'_>,
        w: core::task::Waker,
    ) -> (r: Option<WifiTxToken>)
        requires
            old(self).wf(),
        ensures
            final(self).wf(),
            final(self).rx_frames() == old(self).rx_frames(),
            final(self).tx_frames() == old(self).tx_frames(),
            final(self).waker_registered() == Some(w),
            (r is Some) == (old(self).tx_frames().len() < QUEUE_CAPACITY as nat),
    {
        proof {
            self.tx.lemma_size_bounded();
        }
        self.waker.register(w);
        if !self.tx.is_full() {
            Some(WifiTxToken {})
        } else {
            None
        }
    }

    /// Device capabilities: the configured link MTU and a burst size of
    /// one, reflecting the single-frame-at-a-time queue discipline. Never
    /// depends on queue occupancy.
    pub fn capabilities(&self) -> (r: Capabilities)
        ensures
            r.max_transmission_unit == MTU,
            r.max_burst_size == Some(1usize),
    {
        Capabilities { max_transmission_unit: MTU, max_burst_size: Some(1) }
    }

    /// Link state as reported to a cooperative consumer.
    pub fn link_state(&self) -> (r: LinkState)
        ensures
            r == LinkState::Up,
    {
        LinkState::Up
    }

    /// The station's hardware address as handed to the stack.
    pub fn ethernet_address(&self) -> (r: [u8; 6])
        ensures
            r@ == seq![0x7Cu8, 0xDFu8, 0xA1u8, 0x86u8, 0xD8u8, 0x9Cu8],
    {
        let r: [u8; 6] = [0x7C, 0xDF, 0xA1, 0x86, 0xD8, 0x9C];
        proof {
            assert(r@ =~= seq![0x7Cu8, 0xDFu8, 0xA1u8, 0x86u8, 0xD8u8, 0x9Cu8]);
        }
        r
    }
}

impl WifiRxToken {
    /// Consume the token: dequeue and return the oldest received frame.
    /// If another consumer drained the queue since the poll, that is "no
    /// frame", never a fault. The transmit queue and the wake cell are
    /// untouched.
    pub fn consume(self, dev: &mut WifiDevice, _cs: critical_section::CriticalSection<'_>) -> (r:
        Option<DataFrame>)
        requires
            old(dev).wf(),
        ensures
            final(dev).wf(),
            final(dev).rx_frames() == spec_dequeue(old(dev).rx_frames()),
            final(dev).tx_frames() == old(dev).tx_frames(),
            final(dev).waker_registered() == old(dev).waker_registered(),
            match r {
                Some(frame) => {
                    &&& old(dev).rx_frames().len() > 0
                    &&& frame.wf()
                    &&& frame@ == old(dev).rx_frames()[0]
                },
                None => old(dev).rx_frames().len() == 0,
            },
    {
        dev.rx.dequeue()
    }
}

impl WifiTxToken {
    /// Consume the token: queue one outbound frame holding exactly the
    /// given payload. Succeeds exactly when the transmit queue has room;
    /// on a full queue the frame is dropped and the queue kept as it was.
    /// The caller follows up with `send_data_if_needed` to drain the
    /// queue to the driver.
    pub fn consume(
        self,
        dev: &mut WifiDevice,
        _cs: critical_section::CriticalSection<'_>,
        payload: &[u8],
    ) -> (r: bool)
        requires
            old(dev).wf(),
            payload@.len() <= FRAME_CAPACITY,
        ensures
            final(dev).wf(),
            r == (old(dev).tx_frames().len() < QUEUE_CAPACITY as nat),
            final(dev).tx_frames() == spec_enqueue(
                old(dev).tx_frames(),
                QUEUE_CAPACITY as nat,
                payload@,
            ),
            final(dev).rx_frames() == old(dev).rx_frames(),
            final(dev).waker_registered() == old(dev).waker_registered(),
    {
        let frame = DataFrame::from_bytes(payload);
        dev.tx.enqueue(frame)
    }
}

/// The receive callback logic, run in driver/interrupt context: accept
/// the delivered bytes into the receive queue, or reject them when it is
/// full. Returns the driver's binary code: 0 accepts (the driver's buffer
/// is then released and, on success, the wake cell is signalled), 1
/// rejects — the deliberate drop-newest backpressure policy. The caller
/// owns the driver's buffer lifecycle on both outcomes.
pub fn recv_cb(
    dev: &mut WifiDevice,
    _cs: critical_section::CriticalSection<'_>,
    buffer: &[u8],
) -> (status: i32)
    requires
        old(dev).wf(),
        buffer@.len() <= FRAME_CAPACITY,
    ensures
        final(dev).wf(),
        status == 0 || status == 1,
        (status == 0) == (old(dev).rx_frames().len() < QUEUE_CAPACITY as nat),
        final(dev).rx_frames() == spec_enqueue(
            old(dev).rx_frames(),
            QUEUE_CAPACITY as nat,
            buffer@,
        ),
        final(dev).tx_frames() == old(dev).tx_frames(),
        final(dev).waker_registered() == old(dev).waker_registered(),
{
    proof {
        dev.rx.lemma_size_bounded();
    }
    if !dev.rx.is_full() {
        let frame = DataFrame::from_bytes(buffer);
        dev.rx.enqueue(frame);
        dev.waker.notify();
        0
    } else {
        1
    }
}

/// Contents of a sequence of frames, frame by frame.
pub open spec fn frames_content(s: Seq<DataFrame>) -> Seq<Seq<u8>> {
    s.map(|i: int, f: DataFrame| f@)
}

/// The transmit drain: empty the transmit queue in FIFO order and hand
/// the frames back for the driver's synchronous send call, one at a time.
/// The dequeues happen under the caller's critical section; the driver
/// calls themselves must not, so the frames are returned rather than
/// sent from here. Freed capacity is signalled to the wake cell.
pub fn send_data_if_needed(dev: &mut WifiDevice, _cs: critical_section::CriticalSection<'_>) -> (r:
    Vec<DataFrame>)
    requires
        old(dev).wf(),
    ensures
        final(dev).wf(),
        frames_content(r@) == old(dev).tx_frames(),
        forall|i: int| 0 <= i < r@.len() ==> (#[trigger] r@[i]).wf(),
        final(dev).tx_frames() == Seq::<Seq<u8>>::empty(),
        final(dev).rx_frames() == old(dev).rx_frames(),
        final(dev).waker_registered() == old(dev).waker_registered(),
{
    dev.waker.notify();
    let mut out: Vec<DataFrame> = Vec::new();
    while !dev.tx.is_empty()
        invariant
            dev.tx.wf(),
            dev.tx.capacity() == old(dev).tx.capacity(),
            dev.rx == old(dev).rx,
            dev.waker == old(dev).waker,
            forall|i: int| 0 <= i < out@.len() ==> (#[trigger] out@[i]).wf(),
            frames_content(out@) + dev.tx@ == old(dev).tx@,
        decreases dev.tx@.len(),
    {
        let frame = dev.tx.dequeue().unwrap();
        out.push(frame);
        proof {
            assert(frames_content(out@) + dev.tx@ =~= old(dev).tx@);
        }
    }
    proof {
        assert(frames_content(out@) =~= old(dev).tx@);
        assert(dev.tx@ =~= Seq::<Seq<u8>>::empty());
    }
    out
}

} // verus!
