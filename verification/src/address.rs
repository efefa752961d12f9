//! Addresses: the handles through which envelopes reach an actor.

use crate::drop_notice::DropNotice;
use crate::mailbox;
use crate::message::AddressMessage;
use crate::refcount::RefCount;
use crate::refcount::Strong;
use crate::refcount::Weak;
use std::sync::Mutex;
use vstd::prelude::*;

verus! {

/// The actor is gone: its mailbox takes no more envelopes.
#[derive(Clone, Copy, Debug, PartialEq, Eq, Structural)]
pub struct Disconnected;

/// Why an envelope was not queued.
#[derive(Debug)]
pub enum SendFailure<E> {
    /// The mailbox is bounded and full. The envelope comes back, to be sent
    /// again when there is room.
    Full(E),
    /// The actor is gone.
    Disconnected,
}

/// A strong address: it keeps the actor alive, from the moment it is made
/// until it is dropped.
#[verifier::reject_recursive_types(E)]
pub struct Address<E> {
    sender: flume::Sender<AddressMessage<E>>,
    ref_counter: Strong,
    /// Fires when every actor on the address is gone.
    stopped: DropNotice,
}

/// A weak address: it reaches the actor while a strong address keeps it
/// alive.
#[verifier::reject_recursive_types(E)]
pub struct WeakAddress<E> {
    sender: flume::Sender<AddressMessage<E>>,
    ref_counter: Weak,
    /// Fires when every actor on the address is gone.
    stopped: DropNotice,
}

/// What an attempt to queue an envelope amounts to: queued, refused for want
/// of room with the envelope given back, or refused because the actor is gone.
pub open spec fn queued<E>(attempt: Result<(), flume::TrySendError<AddressMessage<E>>>) -> Result<
    (),
    SendFailure<E>,
> {
    match attempt {
        Ok(()) => Ok(()),
        Err(flume::TrySendError::Full(AddressMessage::Message(envelope))) => Err(
            SendFailure::Full(envelope),
        ),
        Err(_) => Err(SendFailure::Disconnected),
    }
}

/// Turns the mailbox's answer to an attempt to queue an envelope into the
/// address's answer.
pub fn send_outcome<E>(attempt: Result<(), flume::TrySendError<AddressMessage<E>>>) -> (outcome:
    Result<(), SendFailure<E>>)
    ensures
        outcome == queued(attempt),
{
    match attempt {
        Ok(()) => Ok(()),
        Err(flume::TrySendError::Full(AddressMessage::Message(envelope))) => Err(
            SendFailure::Full(envelope),
        ),
        Err(_) => Err(SendFailure::Disconnected),
    }
}

/// What a send amounts to for which a host has waited until there was room:
/// the envelope was queued, or the actor is gone.
pub open spec fn delivery<E>(sent: Result<(), flume::SendError<AddressMessage<E>>>) -> Result<
    (),
    Disconnected,
> {
    match sent {
        Ok(()) => Ok(()),
        Err(_) => Err(Disconnected),
    }
}

/// Turns the mailbox's answer to a send for which a host has waited into the
/// address's answer.
pub fn delivered<E>(sent: Result<(), flume::SendError<AddressMessage<E>>>) -> (outcome: Result<
    (),
    Disconnected,
>)
    ensures
        outcome == delivery(sent),
{
    match sent {
        Ok(()) => Ok(()),
        Err(_) => Err(Disconnected),
    }
}

/// An actor can be reached while its mailbox has a receiver and its record
/// lets it: for a strong address, while the record is connected; for a weak
/// one, while the record is upgradable.
pub open spec fn reachable(closed: bool, admitted: bool) -> bool {
    !closed && admitted
}

/// Decides whether an actor can be reached, given whether its mailbox has
/// lost its receivers and whether its record lets it.
pub fn is_reachable(closed: bool, admitted: bool) -> (reached: bool)
    ensures
        reached == reachable(closed, admitted),
{
    !closed && admitted
}

impl<E> Address<E> {
    /// The sending end of the mailbox that the address holds.
    pub closed spec fn outbox(&self) -> flume::Sender<AddressMessage<E>> {
        self.sender
    }

    /// The lock of the record that the address is counted in.
    pub closed spec fn record(&self) -> Mutex<RefCount> {
        self.ref_counter.record()
    }

    /// Whether the address is still counted as a strong address.
    pub closed spec fn counted(&self) -> bool {
        self.ref_counter.counted()
    }

    /// The receiving end on which the end of the actors is noticed.
    pub closed spec fn notice(&self) -> flume::Receiver<()> {
        self.stopped.end()
    }

    /// Whether the address is on the mailbox, the record and the notice of
    /// the given weak address.
    pub open spec fn shares(&self, weak: WeakAddress<E>) -> bool {
        &&& self.outbox() == weak.outbox()
        &&& self.record() == weak.record()
        &&& self.notice() == weak.notice()
    }

    /// The address made of a sending end of the mailbox, a strong handle and
    /// the notice of the end of the actors.
    pub(crate) fn from_parts(
        sender: flume::Sender<AddressMessage<E>>,
        ref_counter: Strong,
        stopped: DropNotice,
    ) -> (address: Self)
        ensures
            address.outbox() == sender,
            address.record() == ref_counter.record(),
            address.counted() == ref_counter.counted(),
            address.notice() == stopped.end(),
    {
        Address { sender, ref_counter, stopped }
    }

    /// Whether the actor can still be reached: its mailbox has a receiver and
    /// it was not disconnected.
    pub fn is_connected(&self) -> bool {
        let closed = self.sender.is_disconnected();
        let connected = self.ref_counter.is_connected();
        is_reachable(closed, connected)
    }

    /// Queues the envelope without waiting. A full mailbox gives the envelope
    /// back: the sender tries again once an entry was taken out.
    pub fn send(&self, envelope: E) -> (outcome: Result<(), SendFailure<E>>)
        ensures
            outcome matches Err(SendFailure::Full(back)) ==> back == envelope,
    {
        if self.is_connected() {
            send_outcome(mailbox::try_queue(&self.sender, AddressMessage::Message(envelope)))
        } else {
            Err(SendFailure::Disconnected)
        }
    }

    /// Queues the envelope and does not wait, neither for the handler nor for
    /// room: a full mailbox gives the envelope back, and a host that wants it
    /// delivered waits for room with it.
    pub fn do_send(&self, envelope: E) -> (outcome: Result<(), SendFailure<E>>)
        ensures
            outcome matches Err(SendFailure::Full(back)) ==> back == envelope,
    {
        self.send(envelope)
    }

    /// The sending end of the mailbox, for a host that waits for room in it.
    pub fn mailbox(&self) -> (mailbox: &flume::Sender<AddressMessage<E>>)
        ensures
            *mailbox == self.outbox(),
    {
        &self.sender
    }

    /// Whether every actor on the address is gone, however that came about.
    /// A host that waits for the end of the actors waits on the notice.
    pub fn join(&self) -> bool {
        self.stopped.fired()
    }

    /// The notice that fires when every actor on the address is gone.
    pub fn disconnect_notice(&self) -> (notice: DropNotice)
        ensures
            notice.end() == self.notice(),
    {
        self.stopped.clone()
    }

    /// A weak address of the same actor: it is on the same mailbox, the same
    /// record and the same notice.
    pub fn downgrade(&self) -> (weak: WeakAddress<E>)
        ensures
            self.shares(weak),
    {
        WeakAddress {
            sender: self.sender.clone(),
            ref_counter: self.ref_counter.downgrade(),
            stopped: self.stopped.clone(),
        }
    }

    /// Gives the address up, if that was not done before. The last strong
    /// address to go leaves the mark `LastAddress` in the mailbox, if the
    /// mailbox has room for it. Nothing waits for room: where the mailbox is
    /// full the mark is left out, and the actor finds out that it is orphaned
    /// when it has emptied its mailbox and looks before it waits again.
    fn let_go(&mut self) -> (last: bool)
        ensures
            !old(self).counted() ==> !last,
            !final(self).counted(),
            final(self).outbox() == old(self).outbox(),
            final(self).record() == old(self).record(),
            final(self).notice() == old(self).notice(),
        opens_invariants none
        no_unwind
    {
        let last = self.ref_counter.release();
        if last {
            let _ = mailbox::try_queue(&self.sender, AddressMessage::LastAddress);
        }
        last
    }

    /// Gives the address up, as dropping it does, and says whether it was the
    /// last strong address of the actor. The last one leaves its mark in the
    /// mailbox where there is room; a full mailbox is not waited for.
    pub fn release(self) -> (last: bool)
        ensures
            !self.counted() ==> !last,
    {
        let mut address = self;
        address.let_go()
    }
}

impl<E> Drop for Address<E> {
    /// An address that is dropped is given up: the last strong address to go
    /// leaves the mark `LastAddress` in the mailbox, if there is room.
    fn drop(&mut self)
        opens_invariants none
        no_unwind
    {
        self.let_go();
    }
}

impl<E> Clone for Address<E> {
    /// One more strong address of the same actor: it is counted, and it is on
    /// the same mailbox, the same record and the same notice.
    fn clone(&self) -> (copy: Self)
        ensures
            copy.counted(),
            copy.outbox() == self.outbox(),
            copy.record() == self.record(),
            copy.notice() == self.notice(),
    {
        Address {
            sender: self.sender.clone(),
            ref_counter: self.ref_counter.clone(),
            stopped: self.stopped.clone(),
        }
    }
}

impl<E> WeakAddress<E> {
    /// The sending end of the mailbox that the address holds.
    pub closed spec fn outbox(&self) -> flume::Sender<AddressMessage<E>> {
        self.sender
    }

    /// The lock of the record that the address looks into.
    pub closed spec fn record(&self) -> Mutex<RefCount> {
        self.ref_counter.record()
    }

    /// The receiving end on which the end of the actors is noticed.
    pub closed spec fn notice(&self) -> flume::Receiver<()> {
        self.stopped.end()
    }

    /// Whether the actor can still be reached through a strong address.
    pub fn is_connected(&self) -> bool {
        let closed = self.sender.is_disconnected();
        let upgradable = self.ref_counter.is_connected();
        is_reachable(closed, upgradable)
    }

    /// A strong address, if one still exists and the actor was not
    /// disconnected. It is counted, and it is on the same mailbox, the same
    /// record and the same notice.
    pub fn upgrade(&self) -> (address: Option<Address<E>>)
        ensures
            address matches Some(strong) ==> strong.counted() && strong.shares(*self),
    {
        match self.ref_counter.upgrade() {
            Some(ref_counter) => Some(
                Address { sender: self.sender.clone(), ref_counter, stopped: self.stopped.clone() },
            ),
            None => None,
        }
    }

    /// Queues the envelope and does not wait, neither for the handler nor for
    /// room: a full mailbox gives the envelope back, and a host that wants it
    /// delivered waits for room with it.
    pub fn do_send(&self, envelope: E) -> (outcome: Result<(), SendFailure<E>>)
        ensures
            outcome matches Err(SendFailure::Full(back)) ==> back == envelope,
    {
        if self.is_connected() {
            send_outcome(mailbox::try_queue(&self.sender, AddressMessage::Message(envelope)))
        } else {
            Err(SendFailure::Disconnected)
        }
    }

    /// The sending end of the mailbox, for a host that waits for room in it.
    pub fn mailbox(&self) -> (mailbox: &flume::Sender<AddressMessage<E>>)
        ensures
            *mailbox == self.outbox(),
    {
        &self.sender
    }

    /// Whether every actor on the address is gone, however that came about.
    /// A host that waits for the end of the actors waits on the notice.
    pub fn join(&self) -> bool {
        self.stopped.fired()
    }

    /// The notice that fires when every actor on the address is gone.
    pub fn disconnect_notice(&self) -> (notice: DropNotice)
        ensures
            notice.end() == self.notice(),
    {
        self.stopped.clone()
    }
}

impl<E> Clone for WeakAddress<E> {
    /// One more weak address of the same actor: it is on the same mailbox,
    /// the same record and the same notice.
    fn clone(&self) -> (copy: Self)
        ensures
            copy.outbox() == self.outbox(),
            copy.record() == self.record(),
            copy.notice() == self.notice(),
    {
        WeakAddress {
            sender: self.sender.clone(),
            ref_counter: self.ref_counter.clone(),
            stopped: self.stopped.clone(),
        }
    }
}

} // verus!
