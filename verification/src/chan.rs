//! A channel without a limit: a queue under a lock, and a notifier that wakes
//! the receiver when a value is queued.
//!
//! All ends of a channel share one queue, so what a call finds in it depends
//! on the other ends. The queue itself is a `VecDeque`: a value goes in at the
//! back and comes out at the front, so values are received in the order in
//! which they were sent.

use crate::sync::lock;
use crate::sync::locked;
use std::collections::VecDeque;
use std::sync::Arc;
use std::sync::Mutex;
use tokio::sync::Notify;
use vstd::prelude::*;

verus! {

/// `tokio::sync::Notify`: a notifier, of which the verifier sees nothing.
#[verifier::external_type_specification]
#[verifier::external_body]
pub struct ExNotify(Notify);

/// `Notify::new` makes a notifier that holds no permit.
pub assume_specification[ Notify::new ]() -> Notify
;

/// `Notify::notify_one` wakes one task that waits on the notifier; when none
/// waits, the notifier keeps one permit for the next task that does.
pub assume_specification[ Notify::notify_one ](notifier: &Notify)
;

/// What the ends of a channel share.
#[verifier::reject_recursive_types(T)]
pub struct ChannelInner<T> {
    values: Mutex<VecDeque<T>>,
    notify: Notify,
}

/// One end of a channel. Every end can send and receive.
#[verifier::reject_recursive_types(T)]
pub struct Channel<T>(Arc<ChannelInner<T>>);

/// The queue after a value was sent.
pub open spec fn after_send<T>(queue: Seq<T>, value: T) -> Seq<T> {
    queue.push(value)
}

/// The value that is received from a queue, if it holds one.
pub open spec fn received<T>(queue: Seq<T>) -> Option<T> {
    if queue.len() > 0 {
        Some(queue[0])
    } else {
        None
    }
}

/// The queue after a value was received from it.
pub open spec fn after_recv<T>(queue: Seq<T>) -> Seq<T> {
    if queue.len() > 0 {
        queue.skip(1)
    } else {
        queue
    }
}

/// Puts a value at the back of the queue.
pub fn enqueue<T>(queue: &mut VecDeque<T>, value: T)
    ensures
        final(queue)@ == after_send(old(queue)@, value),
{
    queue.push_back(value);
}

/// Takes the value at the front of the queue, if there is one.
pub fn dequeue<T>(queue: &mut VecDeque<T>) -> (value: Option<T>)
    ensures
        value == received(old(queue)@),
        final(queue)@ == after_recv(old(queue)@),
{
    queue.pop_front()
}

/// Values are received in the order in which they were sent: what is sent
/// into a queue comes out after everything that the queue held before, and
/// before everything that is sent later.
pub proof fn lemma_first_in_first_out<T>(queue: Seq<T>, value: T)
    ensures
        queue.len() > 0 ==> received(after_send(queue, value)) == received(queue),
        queue.len() > 0 ==> after_recv(after_send(queue, value)) == after_send(
            after_recv(queue),
            value,
        ),
        queue.len() == 0 ==> received(after_send(queue, value)) == Some(value),
        queue.len() == 0 ==> after_recv(after_send(queue, value)) == queue,
{
}

impl<T> ChannelInner<T> {
    /// The notifier that the ends of the channel share.
    pub closed spec fn waker(&self) -> Notify {
        self.notify
    }

    /// Queues the value and notifies the receiver.
    pub fn send(&self, value: T) {
        {
            let mut guard = lock(&self.values);
            enqueue(locked(&mut guard), value);
        }
        // Notify the consumer a value is available
        self.notify.notify_one();
    }

    /// Takes the oldest value of the queue, if the queue holds one. Where it
    /// holds none, the receiver waits on the notifier and asks again.
    pub fn recv(&self) -> Option<T> {
        let mut guard = lock(&self.values);
        dequeue(locked(&mut guard))
    }

    /// The notifier on which a receiver waits for a value to be queued.
    pub fn notifier(&self) -> (notifier: &Notify)
        ensures
            *notifier == self.waker(),
    {
        &self.notify
    }
}

impl<T> Channel<T> {
    /// What this end shares with the other ends of its channel.
    pub closed spec fn inner(&self) -> ChannelInner<T> {
        *self.0
    }

    /// Queues the value and notifies the receiver.
    pub fn send(&self, value: T) {
        self.0.send(value)
    }

    /// Takes the oldest value of the queue, if the queue holds one. Where it
    /// holds none, the receiver waits on the notifier and asks again.
    pub fn recv(&self) -> Option<T> {
        self.0.recv()
    }

    /// The notifier on which a receiver waits for a value to be queued.
    pub fn notifier(&self) -> (notifier: &Notify)
        ensures
            *notifier == self.inner().waker(),
    {
        self.0.notifier()
    }
}

impl<T> Clone for Channel<T> {
    /// One more end of the same channel: it shares what the original shares.
    fn clone(&self) -> (copy: Self)
        ensures
            copy.inner() == self.inner(),
    {
        Channel(self.0.clone())
    }
}

/// A new channel without a limit, by two of its ends: the two share one queue
/// and one notifier.
pub fn unbounded_channel<T>() -> (ends: (Channel<T>, Channel<T>))
    ensures
        ends.0.inner() == ends.1.inner(),
{
    let c = Channel(
        Arc::new(ChannelInner { values: Mutex::new(VecDeque::new()), notify: Notify::new() }),
    );
    (c.clone(), c)
}

} // verus!
