//! The lifecycle of an actor: running, asked to stop, stopped.

use vstd::prelude::*;

verus! {

/// What an actor answers when it is asked whether it wants to stop.
#[derive(Clone, Copy, Debug, PartialEq, Eq, Structural)]
pub enum KeepRunning {
    /// Keep running: the stop request is withdrawn.
    Yes,
    /// Stop this actor; other actors on the same address go on.
    StopSelf,
    /// Stop every actor on the address.
    StopAll,
}

/// The lifecycle state that a context carries.
#[derive(Clone, Copy, Debug, PartialEq, Eq, Structural)]
pub enum RunningState {
    Running,
    Stopping,
    Stopped,
}

} // verus!
