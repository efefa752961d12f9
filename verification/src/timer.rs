//! Timed notifications: an envelope for the actor itself after a delay, or at
//! every interval.
//!
//! A timer waits for its delay and for the end of the context at once. The
//! host does the waiting; the timer decides what follows.

use crate::address::Address;
use crate::address::Disconnected;
use crate::address::SendFailure;
use crate::address::WeakAddress;
use crate::context::ActorShutdown;
use crate::context::Context;
use crate::drop_notice::DropNotice;
use crate::message::AddressMessage;
use crate::refcount::RefCount;
use std::sync::Mutex;
use std::time::Duration;
use vstd::prelude::*;

verus! {

/// What ended a timer's wait.
#[derive(Clone, Copy, Debug, PartialEq, Eq, Structural)]
pub enum Wake {
    /// The delay is over.
    Elapsed,
    /// The context was dropped first.
    ContextDropped,
}

/// What a timer does next.
#[derive(Clone, Copy, Debug, PartialEq, Eq, Structural)]
pub enum TimerAction {
    /// Wait for the delay, or for the end of the context.
    Wait,
    /// Hand the timer the envelope to send.
    Deliver,
    /// The timer is over.
    Finish,
}

/// A timed notification in progress.
#[verifier::reject_recursive_types(E)]
pub struct Timer<E> {
    address: WeakAddress<E>,
    /// Fires when the context is dropped.
    stopped: DropNotice,
    period: Duration,
    repeats: bool,
}

impl<E> Timer<E> {
    /// Whether the timer notifies at every interval, not once.
    pub closed spec fn repeating(&self) -> bool {
        self.repeats
    }

    /// The delay before each notification.
    pub closed spec fn delay(&self) -> Duration {
        self.period
    }

    /// The notice of the context's end that the timer holds.
    pub closed spec fn notice(&self) -> DropNotice {
        self.stopped
    }

    /// The sending end of the mailbox into which the timer sends.
    pub closed spec fn outbox(&self) -> flume::Sender<AddressMessage<E>> {
        self.address.outbox()
    }

    /// The lock of the record that tells the timer whether the actor can
    /// still be reached.
    pub closed spec fn record(&self) -> Mutex<RefCount> {
        self.address.record()
    }

    /// What follows an attempt to queue the notification: what follows the
    /// send where the mailbox took the envelope or the actor is gone, and the
    /// envelope back where the mailbox is full.
    pub open spec fn attempted(self, attempt: Result<(), SendFailure<E>>) -> Result<
        TimerAction,
        E,
    > {
        match attempt {
            Ok(()) => Ok(self.sent(Ok(()))),
            Err(SendFailure::Full(envelope)) => Err(envelope),
            Err(SendFailure::Disconnected) => Ok(self.sent(Err(Disconnected))),
        }
    }

    /// What a look at the notice amounts to: the context was dropped, or
    /// nothing has ended the wait.
    pub open spec fn noticed(fired: bool) -> Option<Wake> {
        if fired {
            Some(Wake::ContextDropped)
        } else {
            None
        }
    }

    /// What follows a wait: the notification when the delay is over, the end
    /// of the timer when the context was dropped first.
    pub open spec fn woken(wake: Wake) -> TimerAction {
        match wake {
            Wake::Elapsed => TimerAction::Deliver,
            Wake::ContextDropped => TimerAction::Finish,
        }
    }

    /// What follows a notification: a timer that repeats waits again while
    /// the actor takes its envelopes; every other timer is over.
    pub open spec fn sent(self, outcome: Result<(), Disconnected>) -> TimerAction {
        if self.repeating() && outcome is Ok {
            TimerAction::Wait
        } else {
            TimerAction::Finish
        }
    }

    /// The timer for an address of the actor, if there is one, that ends on
    /// the notice `stopped`.
    pub fn for_address(
        address: Result<Address<E>, ActorShutdown>,
        stopped: DropNotice,
        period: Duration,
        repeats: bool,
    ) -> (timer: Result<Timer<E>, ActorShutdown>)
        ensures
            timer is Ok <==> address is Ok,
            timer matches Ok(made) ==> made.repeating() == repeats && made.delay() == period
                && made.notice() == stopped,
            timer matches Ok(made) ==> made.outbox() == address.unwrap().outbox() && made.record()
                == address.unwrap().record(),
    {
        match address {
            Ok(strong) => {
                Ok(Timer { address: strong.downgrade(), stopped, period, repeats })
            },
            Err(shutdown) => Err(shutdown),
        }
    }

    /// Whether the timer notifies at every interval, not once.
    pub fn repeats(&self) -> (repeats: bool)
        ensures
            repeats == self.repeating(),
    {
        self.repeats
    }

    /// The delay before each notification.
    pub fn period(&self) -> (period: &Duration)
        ensures
            *period == self.delay(),
    {
        &self.period
    }

    /// The notice of the context's end, for a host that waits on it.
    pub fn stopped(&self) -> (stopped: &DropNotice)
        ensures
            *stopped == self.notice(),
    {
        &self.stopped
    }

    /// Decides what a look at the notice amounts to.
    pub fn woken_by(fired: bool) -> (wake: Option<Wake>)
        ensures
            wake == Self::noticed(fired),
    {
        if fired {
            Some(Wake::ContextDropped)
        } else {
            None
        }
    }

    /// What ended a wait that was woken without the delay being over, if
    /// anything did: the end of the context, never the delay.
    pub fn cancelled(&self) -> (wake: Option<Wake>)
        ensures
            wake is Some ==> wake == Some(Wake::ContextDropped),
    {
        Self::woken_by(self.stopped.fired())
    }

    /// Decides what follows a wait.
    pub fn wake(&self, wake: Wake) -> (action: TimerAction)
        ensures
            action == Self::woken(wake),
    {
        match wake {
            Wake::Elapsed => TimerAction::Deliver,
            Wake::ContextDropped => TimerAction::Finish,
        }
    }

    /// Decides what follows a notification, given how the send went.
    pub fn after_send(&self, outcome: Result<(), Disconnected>) -> (action: TimerAction)
        ensures
            action == self.sent(outcome),
    {
        match outcome {
            Ok(()) => if self.repeats {
                TimerAction::Wait
            } else {
                TimerAction::Finish
            },
            Err(_) => TimerAction::Finish,
        }
    }

    /// Decides what follows an attempt to queue the notification. From a full
    /// mailbox the envelope comes back, for the host to wait for room with it
    /// and to tell `after_send` how that went.
    pub fn after_attempt(&self, attempt: Result<(), SendFailure<E>>) -> (outcome: Result<
        TimerAction,
        E,
    >)
        ensures
            outcome == self.attempted(attempt),
    {
        match attempt {
            Ok(()) => Ok(self.after_send(Ok(()))),
            Err(SendFailure::Full(envelope)) => Err(envelope),
            Err(SendFailure::Disconnected) => Ok(self.after_send(Err(Disconnected))),
        }
    }

    /// Sends the envelope to the actor without waiting and decides what
    /// follows. A send that fails because the actor is gone ends the timer
    /// silently; from a full mailbox the envelope comes back.
    pub fn notify(&self, envelope: E) -> (outcome: Result<TimerAction, E>)
        ensures
            outcome matches Err(back) ==> back == envelope,
            outcome matches Ok(action) ==> action is Wait || action is Finish,
            outcome matches Ok(action) ==> (action is Wait ==> self.repeating()),
    {
        self.after_attempt(self.address.do_send(envelope))
    }

    /// The address through which the timer sends, for a host that waits for
    /// room in the mailbox.
    pub fn address(&self) -> (address: &WeakAddress<E>)
        ensures
            address.outbox() == self.outbox(),
            address.record() == self.record(),
    {
        &self.address
    }
}

impl<E, B: Clone> Context<E, B> {
    /// Notify the actor with an envelope after a certain duration has
    /// elapsed. This does not take priority over other messages.
    pub fn notify_after(&mut self, duration: Duration) -> (timer: Result<Timer<E>, ActorShutdown>)
        ensures
            timer matches Ok(made) ==> !made.repeating() && made.delay() == duration,
            timer matches Ok(made) ==> made.outbox() == old(self).outbox() && made.record() == old(
                self,
            ).record() && made.notice().end() == old(self).drop_end(),
            *final(self) == *old(self),
    {
        Timer::for_address(self.address(), self.drop_notice(), duration, false)
    }

    /// Notify the actor with an envelope every interval until it is stopped,
    /// either directly with `Context::stop` or for a lack of strong
    /// addresses. This does not take priority over other messages.
    pub fn notify_interval(&mut self, duration: Duration) -> (timer: Result<
        Timer<E>,
        ActorShutdown,
    >)
        ensures
            timer matches Ok(made) ==> made.repeating() && made.delay() == duration,
            timer matches Ok(made) ==> made.outbox() == old(self).outbox() && made.record() == old(
                self,
            ).record() && made.notice().end() == old(self).drop_end(),
            *final(self) == *old(self),
    {
        Timer::for_address(self.address(), self.drop_notice(), duration, true)
    }
}

} // verus!
