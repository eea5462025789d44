//! The wake bridge: a single-slot waker registration cell. A cooperative
//! consumer registers its waker here before suspending; any queue change
//! that could unblock it (a frame arriving on the receive queue, transmit
//! capacity freed by a drain) notifies the registered waker. Registering a
//! second waker replaces the first silently: only one task may await the
//! device at a time. No notification is queued up; a woken consumer always
//! re-polls the queues directly.

use vstd::prelude::*;

verus! {

/// Declares `core::task::Waker` so that a cell of the library can own one.
/// The value is opaque here; only the trusted call below touches it.
#[verifier::external_type_specification]
#[verifier::external_body]
pub struct ExWaker(core::task::Waker);

/// Relies on `core::task::Waker::wake_by_ref`: schedules the task the
/// waker belongs to for resumption, doing no other work. Nothing about
/// queue state is claimed of it.
#[verifier::external_body]
fn wake_waker(w: &core::task::Waker) {
    w.wake_by_ref()
}

/// Single-slot waker cell.
pub struct WakeCell {
    slot: Option<core::task::Waker>,
}

impl WakeCell {
    /// The waker currently holding the claim on this cell, if any.
    pub closed spec fn registered(&self) -> Option<core::task::Waker> {
        self.slot
    }

    /// A cell with no claim on it.
    pub fn new() -> (r: WakeCell)
        ensures
            r.registered() is None,
    {
        WakeCell { slot: None }
    }

    /// Register a waker, replacing whatever waker was registered before.
    /// The previous holder loses its claim and will not be notified.
    pub fn register(&mut self, w: core::task::Waker)
        ensures
            final(self).registered() == Some(w),
    {
        self.slot = Some(w);
    }

    /// Notify the registered waker, if there is one, exactly once; the
    /// registration is kept, so the consumer need not re-register before
    /// its next poll. Returns whether a waker was there to notify.
    pub fn notify(&self) -> (woke: bool)
        ensures
            woke == (self.registered() is Some),
    {
        match &self.slot {
            Some(w) => {
                wake_waker(w);
                true
            },
            None => false,
        }
    }
}

} // verus!
