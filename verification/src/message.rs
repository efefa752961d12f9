//! What travels through the two channels of an address.

use vstd::prelude::*;

verus! {

/// An entry of the mailbox: an envelope, or the mark that the last strong
/// address was dropped.
#[derive(Debug)]
pub enum AddressMessage<E> {
    Message(E),
    LastAddress,
}

/// An entry of the broadcast channel: an envelope that every actor on the
/// address gets a copy of, or the order to shut down.
#[derive(Debug)]
pub enum BroadcastMessage<B> {
    Message(B),
    Shutdown,
}

impl<B: Clone> Clone for BroadcastMessage<B> {
    fn clone(&self) -> (copy: Self)
        ensures
            copy is Shutdown <==> self is Shutdown,
    {
        match self {
            BroadcastMessage::Message(envelope) => BroadcastMessage::Message(envelope.clone()),
            BroadcastMessage::Shutdown => BroadcastMessage::Shutdown,
        }
    }
}

/// An entry taken from either channel.
#[derive(Debug)]
pub enum Incoming<E, B> {
    Broadcast(BroadcastMessage<B>),
    Address(AddressMessage<E>),
}

/// What a wait on both channels of an address came back with: the channel
/// that answered first, and its entry, or `None` where the channel failed.
#[derive(Debug)]
pub enum Awaited<E, B> {
    Address(Option<AddressMessage<E>>),
    Broadcast(Option<BroadcastMessage<B>>),
}

impl<E, B> Incoming<E, B> {
    /// The entry that a wait amounts to for the manage loop: the entry that
    /// arrived, and the order to shut down where a channel failed.
    pub open spec fn of(awaited: Awaited<E, B>) -> Incoming<E, B> {
        match awaited {
            Awaited::Address(Some(entry)) => Incoming::Address(entry),
            Awaited::Broadcast(Some(entry)) => Incoming::Broadcast(entry),
            _ => Incoming::Broadcast(BroadcastMessage::Shutdown),
        }
    }

    /// Turns what a wait on both channels came back with into an entry for
    /// the manage loop.
    pub fn awaited(awaited: Awaited<E, B>) -> (entry: Incoming<E, B>)
        ensures
            entry == Self::of(awaited),
    {
        match awaited {
            Awaited::Address(Some(entry)) => Incoming::Address(entry),
            Awaited::Broadcast(Some(entry)) => Incoming::Broadcast(entry),
            _ => Incoming::Broadcast(BroadcastMessage::Shutdown),
        }
    }
}

} // verus!
