//! Session tracking and offline-sync engine.
//!
//! The crate models the local store of a work-session tracking agent: the
//! session state machine with its single-active-session invariant, idle-gap
//! bookkeeping, a durable outbox of evidence awaiting upload, and the
//! state machine of the synchronization cycle against a remote service.
//! Clock readings, fresh identifiers and random delays come from the host
//! through a handful of trusted wrappers; everything that decides or
//! computes is verified.

pub mod clock;
pub mod idle;
pub mod manager;
mod externals;
pub mod duration;
pub mod models;
pub mod sched;
pub mod store;
pub mod sync;
pub mod tray;
