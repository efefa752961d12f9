//! The broadcast channel of an address: a `barrage` channel of
//! `BroadcastMessage`s, of which every actor on the address has a receiving
//! end of its own. The entries travel in boxes.
//!
//! The channel is shared with other threads, so the contracts say only what
//! holds of every outcome of a call. The library sends into the channel and
//! hands its ends on; it never takes from it. A look into a queue that races
//! with a send can fail inside `barrage`, so the look is the host's: the host
//! looks, and `entry_of` says what the look amounts to.

use crate::message::BroadcastMessage;
use vstd::prelude::*;

verus! {

/// The sending end of the broadcast channel.
#[verifier::external_body]
#[verifier::reject_recursive_types(B)]
pub struct Broadcaster<B: Clone> {
    pub inner: barrage::Sender<Box<BroadcastMessage<B>>>,
}

/// A receiving end with a queue of its own: it gets a copy of every entry
/// that is sent after it was made.
#[verifier::external_body]
#[verifier::reject_recursive_types(B)]
pub struct BroadcastInbox<B: Clone> {
    pub inner: barrage::Receiver<Box<BroadcastMessage<B>>>,
}

/// A receiving end whose queue its clones share: of them, one gets each entry.
#[verifier::external_body]
#[verifier::reject_recursive_types(B)]
pub struct BroadcastReceiver<B: Clone> {
    pub inner: barrage::SharedReceiver<Box<BroadcastMessage<B>>>,
}

/// `barrage::unbounded` makes a broadcast channel without a limit and hands
/// out its sending end and a first receiving end.
#[verifier::external_body]
pub(crate) fn broadcast_channel<B: Clone>() -> (Broadcaster<B>, BroadcastInbox<B>) {
    let (sender, receiver) = barrage::unbounded();
    (Broadcaster { inner: sender }, BroadcastInbox { inner: receiver })
}

impl<B: Clone> Broadcaster<B> {
    /// `Sender::send` hands a copy of the entry to every receiving queue, or
    /// gives the entry back when no receiver is left. The channel has no limit,
    /// so the call does not wait.
    #[verifier::external_body]
    pub(crate) fn send(&self, entry: BroadcastMessage<B>) -> (result: Result<
        (),
        BroadcastMessage<B>,
    >)
        ensures
            result matches Err(back) ==> back == entry,
    {
        match self.inner.send(Box::new(entry)) {
            Ok(()) => Ok(()),
            Err(barrage::SendError(back)) => Err(*back),
        }
    }

    /// `Sender::clone` is one more sending end of the same channel: it holds
    /// a pointer to what the original points to, and nothing else, so the
    /// clone is the end it was made from.
    #[verifier::external_body]
    pub(crate) fn duplicate(&self) -> (copy: Broadcaster<B>)
        ensures
            copy == *self,
    {
        Broadcaster { inner: self.inner.clone() }
    }
}

impl<B: Clone> BroadcastInbox<B> {
    /// `Receiver::into_shared` turns the receiving end into one whose clones
    /// share its queue.
    #[verifier::external_body]
    pub(crate) fn into_shared(self) -> BroadcastReceiver<B> {
        BroadcastReceiver { inner: self.inner.into_shared() }
    }
}

impl<B: Clone> BroadcastReceiver<B> {
    /// `SharedReceiver::clone` is one more receiving end on the same queue.
    #[verifier::external_body]
    pub(crate) fn duplicate(&self) -> BroadcastReceiver<B> {
        BroadcastReceiver { inner: self.inner.clone() }
    }

    /// `SharedReceiver::upgrade` gives the receiving end a new queue of its
    /// own on the same channel.
    #[verifier::external_body]
    pub(crate) fn upgrade(self) -> BroadcastInbox<B> {
        BroadcastInbox { inner: self.inner.upgrade() }
    }
}

/// What one look into the broadcast queue amounts to for the manage loop: a
/// closed channel counts as the order to shut down.
pub open spec fn polled_entry<B>(
    polled: Result<Option<BroadcastMessage<B>>, ()>,
) -> Option<BroadcastMessage<B>> {
    match polled {
        Ok(entry) => entry,
        Err(_) => Some(BroadcastMessage::Shutdown),
    }
}

/// Turns the outcome of one look into the broadcast queue into what the
/// manage loop is told.
pub fn entry_of<B>(polled: Result<Option<BroadcastMessage<B>>, ()>) -> (entry: Option<
    BroadcastMessage<B>,
>)
    ensures
        entry == polled_entry(polled),
{
    match polled {
        Ok(entry) => entry,
        Err(_) => Some(BroadcastMessage::Shutdown),
    }
}

} // verus!
