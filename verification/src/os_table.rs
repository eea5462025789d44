//! The OS adapter table: the fixed table of capability slots the driver
//! expects of an RTOS (semaphores, mutexes, queues, event groups, tasks,
//! timers, heap, logging, persisted key-value storage). The host fills a
//! builder, one slot per primitive, with its own handlers — here an
//! opaque nonzero handle, the handler's address on the target — and the
//! build step checks once, at construction time, that every required
//! slot is present. Unsupported optional slots are mapped to an explicit
//! "unsupported" handler, never to null. The built table is an immutable
//! snapshot: it has no setters, is populated once, and is handed to the
//! driver for the process's lifetime.

use vstd::prelude::*;

verus! {

/// One primitive slot of the driver's expected RTOS surface. The slots
/// up to `LogWrite` are required; the persisted-storage slots may be
/// left out and are then stubbed.
#[derive(Debug, Clone, Copy, PartialEq, Eq, Structural)]
pub enum OsPrimitive {
    SemaphoreCreate,
    SemaphoreDelete,
    SemaphoreTake,
    SemaphoreGive,
    MutexCreate,
    MutexDelete,
    MutexLock,
    MutexUnlock,
    QueueCreate,
    QueueDelete,
    QueueSend,
    QueueReceive,
    EventGroupCreate,
    EventGroupDelete,
    EventGroupSetBits,
    EventGroupClearBits,
    EventGroupWaitBits,
    TaskCreate,
    TaskDelete,
    TimerArm,
    TimerDisarm,
    TimerSetCallback,
    TimerDone,
    Malloc,
    Free,
    LogWrite,
    NvsGet,
    NvsSet,
}

/// Number of slots in the table.
pub const NUM_SLOTS: usize = 28;

/// The first `NUM_REQUIRED` slots must be populated for a build to
/// succeed; the rest may be stubbed.
pub const NUM_REQUIRED: usize = 26;

/// Each primitive's fixed place in the table. The required primitives
/// come first.
pub open spec fn slot_index_spec(p: OsPrimitive) -> int {
    match p {
        OsPrimitive::SemaphoreCreate => 0,
        OsPrimitive::SemaphoreDelete => 1,
        OsPrimitive::SemaphoreTake => 2,
        OsPrimitive::SemaphoreGive => 3,
        OsPrimitive::MutexCreate => 4,
        OsPrimitive::MutexDelete => 5,
        OsPrimitive::MutexLock => 6,
        OsPrimitive::MutexUnlock => 7,
        OsPrimitive::QueueCreate => 8,
        OsPrimitive::QueueDelete => 9,
        OsPrimitive::QueueSend => 10,
        OsPrimitive::QueueReceive => 11,
        OsPrimitive::EventGroupCreate => 12,
        OsPrimitive::EventGroupDelete => 13,
        OsPrimitive::EventGroupSetBits => 14,
        OsPrimitive::EventGroupClearBits => 15,
        OsPrimitive::EventGroupWaitBits => 16,
        OsPrimitive::TaskCreate => 17,
        OsPrimitive::TaskDelete => 18,
        OsPrimitive::TimerArm => 19,
        OsPrimitive::TimerDisarm => 20,
        OsPrimitive::TimerSetCallback => 21,
        OsPrimitive::TimerDone => 22,
        OsPrimitive::Malloc => 23,
        OsPrimitive::Free => 24,
        OsPrimitive::LogWrite => 25,
        OsPrimitive::NvsGet => 26,
        OsPrimitive::NvsSet => 27,
    }
}

/// Whether the driver cannot run without the slot.
pub open spec fn required(p: OsPrimitive) -> bool {
    slot_index_spec(p) < NUM_REQUIRED
}

impl OsPrimitive {
    /// The slot's place in the table.
    pub fn slot_index(self) -> (r: usize)
        ensures
            r == slot_index_spec(self),
            r < NUM_SLOTS,
    {
        match self {
            OsPrimitive::SemaphoreCreate => 0,
            OsPrimitive::SemaphoreDelete => 1,
            OsPrimitive::SemaphoreTake => 2,
            OsPrimitive::SemaphoreGive => 3,
            OsPrimitive::MutexCreate => 4,
            OsPrimitive::MutexDelete => 5,
            OsPrimitive::MutexLock => 6,
            OsPrimitive::MutexUnlock => 7,
            OsPrimitive::QueueCreate => 8,
            OsPrimitive::QueueDelete => 9,
            OsPrimitive::QueueSend => 10,
            OsPrimitive::QueueReceive => 11,
            OsPrimitive::EventGroupCreate => 12,
            OsPrimitive::EventGroupDelete => 13,
            OsPrimitive::EventGroupSetBits => 14,
            OsPrimitive::EventGroupClearBits => 15,
            OsPrimitive::EventGroupWaitBits => 16,
            OsPrimitive::TaskCreate => 17,
            OsPrimitive::TaskDelete => 18,
            OsPrimitive::TimerArm => 19,
            OsPrimitive::TimerDisarm => 20,
            OsPrimitive::TimerSetCallback => 21,
            OsPrimitive::TimerDone => 22,
            OsPrimitive::Malloc => 23,
            OsPrimitive::Free => 24,
            OsPrimitive::LogWrite => 25,
            OsPrimitive::NvsGet => 26,
            OsPrimitive::NvsSet => 27,
        }
    }
}

/// The required primitive that sits at a given required slot.
fn primitive_at(i: usize) -> (p: OsPrimitive)
    requires
        i < NUM_REQUIRED,
    ensures
        slot_index_spec(p) == i,
{
    if i == 0 {
        OsPrimitive::SemaphoreCreate
    } else if i == 1 {
        OsPrimitive::SemaphoreDelete
    } else if i == 2 {
        OsPrimitive::SemaphoreTake
    } else if i == 3 {
        OsPrimitive::SemaphoreGive
    } else if i == 4 {
        OsPrimitive::MutexCreate
    } else if i == 5 {
        OsPrimitive::MutexDelete
    } else if i == 6 {
        OsPrimitive::MutexLock
    } else if i == 7 {
        OsPrimitive::MutexUnlock
    } else if i == 8 {
        OsPrimitive::QueueCreate
    } else if i == 9 {
        OsPrimitive::QueueDelete
    } else if i == 10 {
        OsPrimitive::QueueSend
    } else if i == 11 {
        OsPrimitive::QueueReceive
    } else if i == 12 {
        OsPrimitive::EventGroupCreate
    } else if i == 13 {
        OsPrimitive::EventGroupDelete
    } else if i == 14 {
        OsPrimitive::EventGroupSetBits
    } else if i == 15 {
        OsPrimitive::EventGroupClearBits
    } else if i == 16 {
        OsPrimitive::EventGroupWaitBits
    } else if i == 17 {
        OsPrimitive::TaskCreate
    } else if i == 18 {
        OsPrimitive::TaskDelete
    } else if i == 19 {
        OsPrimitive::TimerArm
    } else if i == 20 {
        OsPrimitive::TimerDisarm
    } else if i == 21 {
        OsPrimitive::TimerSetCallback
    } else if i == 22 {
        OsPrimitive::TimerDone
    } else if i == 23 {
        OsPrimitive::Malloc
    } else if i == 24 {
        OsPrimitive::Free
    } else {
        OsPrimitive::LogWrite
    }
}

/// The builder: the host's handler for each slot, still incomplete. A
/// handler is an opaque nonzero handle (on the target, the handler's
/// address); null never stands for anything.
pub struct OsAdapterBuilder {
    slots: Vec<Option<usize>>,
}

impl View for OsAdapterBuilder {
    type V = Seq<Option<usize>>;

    closed spec fn view(&self) -> Seq<Option<usize>> {
        self.slots@
    }
}

impl OsAdapterBuilder {
    /// Every populated slot nonzero, one place per slot.
    pub closed spec fn wf(&self) -> bool {
        &&& self.slots@.len() == NUM_SLOTS
        &&& forall|i: int|
            0 <= i < NUM_SLOTS ==> ((#[trigger] self.slots@[i]) matches Some(h) ==> h != 0)
    }

    /// A builder with every slot unpopulated.
    pub fn new() -> (r: OsAdapterBuilder)
        ensures
            r.wf(),
            r@.len() == NUM_SLOTS,
            forall|i: int| 0 <= i < NUM_SLOTS ==> (#[trigger] r@[i]) is None,
    {
        let mut slots: Vec<Option<usize>> = Vec::new();
        let mut i: usize = 0;
        while i < NUM_SLOTS
            invariant
                i <= NUM_SLOTS,
                slots@.len() == i,
                forall|j: int| 0 <= j < i ==> (#[trigger] slots@[j]) is None,
            decreases NUM_SLOTS - i,
        {
            slots.push(None);
            i = i + 1;
        }
        OsAdapterBuilder { slots }
    }

    /// Populate one slot with the host's handler, replacing whatever the
    /// slot held. A handler is never null.
    pub fn set(&mut self, p: OsPrimitive, handler: usize)
        requires
            old(self).wf(),
            handler != 0,
        ensures
            final(self).wf(),
            final(self)@ == old(self)@.update(slot_index_spec(p), Some(handler)),
    {
        let i = p.slot_index();
        self.slots.set(i, Some(handler));
    }

    /// Assemble the immutable table. Succeeds exactly when every
    /// required slot is populated; otherwise the first missing required
    /// primitive is named. Optional slots left unpopulated are mapped to
    /// the explicit `unsupported` handler.
    pub fn build(&self, unsupported: usize) -> (r: Result<OsAdapterTable, OsPrimitive>)
        requires
            self.wf(),
            unsupported != 0,
        ensures
            (r is Ok) == (forall|i: int| 0 <= i < NUM_REQUIRED ==> (#[trigger] self@[i]) is Some),
            r matches Ok(table) ==> {
                &&& table.wf()
                &&& forall|i: int|
                    0 <= i < NUM_SLOTS ==> #[trigger] table@[i] == (match self@[i] {
                        Some(h) => h,
                        None => unsupported,
                    })
            },
            r matches Err(missing) ==> {
                &&& required(missing)
                &&& self@[slot_index_spec(missing)] is None
            },
    {
        let mut i: usize = 0;
        while i < NUM_REQUIRED
            invariant
                i <= NUM_REQUIRED,
                self.wf(),
                forall|j: int| 0 <= j < i ==> (#[trigger] self@[j]) is Some,
            decreases NUM_REQUIRED - i,
        {
            if self.slots[i].is_none() {
                return Err(primitive_at(i));
            }
            i = i + 1;
        }
        let mut filled: Vec<usize> = Vec::new();
        let mut k: usize = 0;
        while k < NUM_SLOTS
            invariant
                k <= NUM_SLOTS,
                self.wf(),
                unsupported != 0,
                filled@.len() == k,
                forall|j: int|
                    0 <= j < k ==> #[trigger] filled@[j] == (match self@[j] {
                        Some(h) => h,
                        None => unsupported,
                    }),
            decreases NUM_SLOTS - k,
        {
            let entry = match self.slots[k] {
                Some(h) => h,
                None => unsupported,
            };
            filled.push(entry);
            k = k + 1;
        }
        Ok(OsAdapterTable { slots: filled })
    }
}

/// The immutable capability table: one nonzero handler per slot, fixed
/// from construction until the end of the process. It offers lookups and
/// nothing that mutates.
pub struct OsAdapterTable {
    slots: Vec<usize>,
}

impl View for OsAdapterTable {
    type V = Seq<usize>;

    closed spec fn view(&self) -> Seq<usize> {
        self.slots@
    }
}

impl OsAdapterTable {
    /// Full and free of null handlers.
    pub closed spec fn wf(&self) -> bool {
        &&& self.slots@.len() == NUM_SLOTS
        &&& forall|i: int| 0 <= i < NUM_SLOTS ==> (#[trigger] self.slots@[i]) != 0
    }

    /// The handler installed for a primitive; never null.
    pub fn get(&self, p: OsPrimitive) -> (r: usize)
        requires
            self.wf(),
        ensures
            r == self@[slot_index_spec(p)],
            r != 0,
    {
        let i = p.slot_index();
        self.slots[i]
    }
}

} // verus!
