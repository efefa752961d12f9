//! The mailbox of an address: a `flume` channel of `AddressMessage`s.
//!
//! A channel is shared with other threads: what a call finds in it depends on
//! what they did. The contracts below therefore say only what holds of every
//! outcome of a call.

use crate::message::AddressMessage;
use crate::message::BroadcastMessage;
use crate::message::Incoming;
use vstd::prelude::*;

verus! {

/// `flume::Sender`: a sending end of a channel, of which the verifier sees
/// nothing.
#[verifier::external_type_specification]
#[verifier::external_body]
#[verifier::reject_recursive_types(T)]
pub struct ExSender<T>(flume::Sender<T>);

/// `flume::Receiver`: a receiving end of a channel, of which the verifier
/// sees nothing.
#[verifier::external_type_specification]
#[verifier::external_body]
#[verifier::reject_recursive_types(T)]
pub struct ExReceiver<T>(flume::Receiver<T>);

/// `flume::TrySendError`: why a message was not queued at once, with the
/// message.
#[verifier::external_type_specification]
#[verifier::reject_recursive_types(T)]
pub struct ExTrySendError<T>(flume::TrySendError<T>);

/// `flume::SendError`: the message that no receiver is left for.
#[verifier::external_type_specification]
#[verifier::reject_recursive_types(T)]
pub struct ExSendError<T>(flume::SendError<T>);

/// `flume::TryRecvError`: why no message was taken at once.
#[verifier::external_type_specification]
pub struct ExTryRecvError(flume::TryRecvError);

/// `flume::unbounded` makes a channel without a limit and hands out its two
/// ends. Nothing is claimed of them.
pub assume_specification<T>[ flume::unbounded::<T> ]() -> (flume::Sender<T>, flume::Receiver<T>)
;

/// `flume::bounded` makes a channel that holds at most `cap` messages and
/// hands out its two ends. Nothing is claimed of them. A receive lets one
/// message more than `cap` into the queue, so the largest `usize` is left
/// out: with it that sum would overflow.
pub assume_specification<T>[ flume::bounded::<T> ](cap: usize) -> (
    flume::Sender<T>,
    flume::Receiver<T>,
)
    requires
        cap < usize::MAX,
;

/// `Sender::try_send` queues the message or gives it back at once: in `Full`
/// when the channel is bounded and full, in `Disconnected` when no receiver is
/// left. The message that comes back is the one that was handed in. The call
/// neither waits nor panics.
#[verifier::external_body]
pub(crate) fn try_queue<T>(sender: &flume::Sender<T>, msg: T) -> (result: Result<
    (),
    flume::TrySendError<T>,
>)
    ensures
        result matches Err(flume::TrySendError::Full(back)) ==> back == msg,
        result matches Err(flume::TrySendError::Disconnected(back)) ==> back == msg,
    opens_invariants none
    no_unwind
{
    sender.try_send(msg)
}

/// `Sender::is_disconnected` says whether every receiver of the channel was
/// dropped at the moment of the call. Nothing is claimed of the answer.
pub assume_specification<T>[ flume::Sender::<T>::is_disconnected ](
    sender: &flume::Sender<T>,
) -> bool
;

/// `Sender::clone` is one more sending end of the same channel: it holds a
/// pointer to what the original points to, and nothing else. An end is taken
/// for what it points to, so the clone is the end it was made from.
pub assume_specification<T>[ <flume::Sender<T> as Clone>::clone ](
    sender: &flume::Sender<T>,
) -> (copy: flume::Sender<T>)
    ensures
        copy == *sender,
;

/// `Receiver::clone` is one more receiving end of the same channel: it holds
/// a pointer to what the original points to, and nothing else. An end is taken
/// for what it points to, so the clone is the end it was made from.
pub assume_specification<T>[ <flume::Receiver<T> as Clone>::clone ](
    receiver: &flume::Receiver<T>,
) -> (copy: flume::Receiver<T>)
    ensures
        copy == *receiver,
;

/// `Receiver::is_disconnected` says whether every sender of the channel was
/// dropped at the moment of the call. Nothing is claimed of the answer.
pub assume_specification<T>[ flume::Receiver::<T>::is_disconnected ](
    receiver: &flume::Receiver<T>,
) -> bool
;

/// `Receiver::is_empty` says whether no message waits in the channel at the
/// moment of the call. Nothing is claimed of the answer.
pub assume_specification<T>[ flume::Receiver::<T>::is_empty ](receiver: &flume::Receiver<T>) -> bool
;

/// `Receiver::try_recv` takes the oldest message if one is waiting. Nothing is
/// claimed of what it finds.
pub assume_specification<T>[ flume::Receiver::<T>::try_recv ](
    receiver: &flume::Receiver<T>,
) -> Result<T, flume::TryRecvError>
;

/// `Receiver::drain` takes every message that waits in the channel; the
/// messages are dropped here.
#[verifier::external_body]
pub(crate) fn discard_waiting<T>(receiver: &flume::Receiver<T>) {
    drop(receiver.drain());
}

/// What one attempt to take from the mailbox amounts to for the manage loop:
/// the entry, nothing when the mailbox was empty, and a shutdown when the
/// mailbox is closed.
pub open spec fn taken_entry<E, B>(taken: Result<AddressMessage<E>, flume::TryRecvError>) -> Option<
    Incoming<E, B>,
> {
    match taken {
        Ok(entry) => Some(Incoming::Address(entry)),
        Err(flume::TryRecvError::Empty) => None,
        Err(flume::TryRecvError::Disconnected) => Some(
            Incoming::Broadcast(BroadcastMessage::Shutdown),
        ),
    }
}

/// Turns the outcome of one attempt to take from the mailbox into an entry for
/// the manage loop.
pub fn entry_of<E, B>(taken: Result<AddressMessage<E>, flume::TryRecvError>) -> (entry: Option<
    Incoming<E, B>,
>)
    ensures
        entry == taken_entry::<E, B>(taken),
{
    match taken {
        Ok(entry) => Some(Incoming::Address(entry)),
        Err(flume::TryRecvError::Empty) => None,
        Err(flume::TryRecvError::Disconnected) => Some(
            Incoming::Broadcast(BroadcastMessage::Shutdown),
        ),
    }
}

} // verus!
