//! Attaching a stream to an address: every item of the stream is sent to the
//! actor, until the stream ends, the actor is gone, or a handler answers that
//! it wants no more.
//!
//! The host waits for the next item and for the end of the actor at once, and
//! for the handler's answer to each item; what follows is decided here.

use crate::address::Disconnected;
use crate::lifecycle::KeepRunning;
use vstd::prelude::*;

verus! {

/// What the loop of an attached stream is told.
#[derive(Clone, Copy, Debug, PartialEq, Eq, Structural)]
pub enum StreamEvent {
    /// The stream has an item.
    Item,
    /// The stream has ended.
    Ended,
    /// The actor has stopped.
    ActorStopped,
    /// The handler of the last item has returned this answer.
    Answered(KeepRunning),
    /// The last item did not reach a handler.
    Refused(Disconnected),
}

/// What the loop of an attached stream does next.
#[derive(Clone, Copy, Debug, PartialEq, Eq, Structural)]
pub enum StreamAction {
    /// Wait for the next item, or for the end of the actor.
    Wait,
    /// Send the item and wait for the handler's answer.
    Send,
    /// Leave the loop.
    Detach,
}

/// The loop goes on while items come and every handler answers `Yes`. It ends
/// at once when the actor has stopped.
pub open spec fn attached(event: StreamEvent) -> StreamAction {
    match event {
        StreamEvent::Item => StreamAction::Send,
        StreamEvent::Answered(KeepRunning::Yes) => StreamAction::Wait,
        _ => StreamAction::Detach,
    }
}

/// Decides what the loop of an attached stream does next.
pub fn attach_stream(event: StreamEvent) -> (action: StreamAction)
    ensures
        action == attached(event),
{
    match event {
        StreamEvent::Item => StreamAction::Send,
        StreamEvent::Answered(KeepRunning::Yes) => StreamAction::Wait,
        _ => StreamAction::Detach,
    }
}

} // verus!
