//! The core of a small typed actor runtime, written without I/O.
//!
//! An actor is driven by a manage routine: a state machine that is told what
//! happened (a hook returned, an entry arrived, a handler finished) and
//! answers with what has to happen next. The host awaits; this crate decides.

pub mod address;
pub mod broadcast;
pub mod chan;
pub mod context;
pub mod drop_notice;
pub mod lemmas;
pub mod lifecycle;
pub mod mailbox;
pub mod manager;
pub mod message;
pub mod refcount;
pub mod stream;
pub mod sync;
pub mod timer;
pub mod watchdog;
