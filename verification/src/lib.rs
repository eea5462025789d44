//! Packet-exchange bridge between an interrupt-driven radio driver and a
//! poll-driven network stack.
//!
//! The core is a pair of bounded frame queues that decouple the driver's
//! interrupt-context packet delivery from the stack's cooperative
//! consumption, together with the device adapter and the driver callback
//! logic that operate on them. Every queue access is guarded by the one
//! global critical section; a token of it is demanded as proof of exclusion.

pub mod critical;
pub mod device;
pub mod diag;
pub mod frame;
pub mod os_table;
pub mod queue;
pub mod wake;
