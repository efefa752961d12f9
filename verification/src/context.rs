//! The context of an actor: what the actor sees of its own management.

use crate::address::Address;
use crate::broadcast;
use crate::broadcast::BroadcastReceiver;
use crate::broadcast::Broadcaster;
use crate::drop_notice::DropNotice;
use crate::drop_notice::DropNotifier;
use crate::lifecycle::RunningState;
use crate::mailbox;
use crate::manager::machine_of;
use crate::manager::Action;
use crate::manager::ActorManager;
use crate::manager::Machine;
use crate::manager::Next;
use crate::manager::Routine;
use crate::message::AddressMessage;
use crate::message::BroadcastMessage;
use crate::message::Incoming;
use crate::refcount::RefCount;
use crate::refcount::Strong;
use crate::refcount::Weak;
use std::sync::Arc;
use std::sync::Mutex;
use vstd::prelude::*;

verus! {

/// The operation failed because the actor is being shut down.
#[derive(Clone, Copy, Debug, PartialEq, Eq, Structural)]
pub struct ActorShutdown;

impl ActorShutdown {
    /// The error in words.
    pub fn to_string(&self) -> (text: String)
        ensures
            text@ == "Actor is shutting down"@,
    {
        "Actor is shutting down".to_owned()
    }
}

/// `Context` is used to control how the actor is managed and to get the
/// actor's address from inside of a message handler.
///
/// `E` is the type of the envelopes that travel through the mailbox and wait
/// as self notifications; `B` is the type of the envelopes that are broadcast.
#[verifier::reject_recursive_types(E)]
#[verifier::reject_recursive_types(B)]
pub struct Context<E, B: Clone> {
    /// The lifecycle state. `stop` moves it to `Stopping`, as a flag for the
    /// manage routine to ask the actor whether it wants to stop.
    running: RunningState,
    /// Kept to make new addresses.
    sender: flume::Sender<AddressMessage<E>>,
    /// Kept to notify all actors on the address.
    broadcaster: Broadcaster<B>,
    /// Kept to see how many strong addresses exist.
    ref_counter: Weak,
    /// Notifications that wait for immediate handling. The last one pushed is
    /// the first one handled.
    self_notifications: Vec<E>,
    receiver: flume::Receiver<AddressMessage<E>>,
    broadcast_receiver: BroadcastReceiver<B>,
    /// Shared between all contexts on the same address: its notices fire
    /// when the last of them is dropped.
    shared_drop_notifier: Arc<DropNotifier>,
    /// Its notices fire when this context is dropped. Timers take one, to end
    /// as soon as the context does.
    drop_notifier: DropNotifier,
    /// The limit that the mailbox was made with, if it has one.
    limit: Option<usize>,
}

/// The limit of a mailbox that is asked for with the given capacity: the
/// capacity, but for the largest one, which no queue reaches and which
/// therefore is no limit.
pub open spec fn limit(message_cap: Option<usize>) -> Option<usize> {
    match message_cap {
        Some(cap) => if cap < usize::MAX {
            Some(cap)
        } else {
            None
        },
        None => None,
    }
}

/// An actor is orphaned when no strong address is left and nothing waits in
/// its mailbox.
pub open spec fn orphan(count: usize, empty: bool) -> bool {
    count == 0 && empty
}

/// Decides whether an actor is orphaned, given the number of its strong
/// addresses and whether its mailbox is empty.
pub fn is_orphaned(count: usize, empty: bool) -> (orphaned: bool)
    ensures
        orphaned == orphan(count, empty),
{
    count == 0 && empty
}

/// What an actor that has begun to wait is handed in place of the mark of the
/// last address that found no room: the mark, if the actor is orphaned.
pub open spec fn made_up<E>(orphaned: bool) -> Option<AddressMessage<E>> {
    if orphaned {
        Some(AddressMessage::LastAddress)
    } else {
        None
    }
}

/// Decides what an actor that has begun to wait is handed, given whether it
/// is orphaned.
pub fn mark_for<E>(orphaned: bool) -> (mark: Option<AddressMessage<E>>)
    ensures
        mark == made_up::<E>(orphaned),
{
    if orphaned {
        Some(AddressMessage::LastAddress)
    } else {
        None
    }
}

/// A lookout for an actor that waits: it sees whether the actor is orphaned,
/// without the context at hand.
#[verifier::reject_recursive_types(E)]
pub struct Lookout<E> {
    ref_counter: Weak,
    receiver: flume::Receiver<AddressMessage<E>>,
}

impl<E> Lookout<E> {
    /// The lock of the record that the lookout looks into.
    pub closed spec fn record(&self) -> Mutex<RefCount> {
        self.ref_counter.record()
    }

    /// The receiving end of the mailbox that the lookout looks into.
    pub closed spec fn inbox(&self) -> flume::Receiver<AddressMessage<E>> {
        self.receiver
    }

    /// Whether the actor is orphaned at the moment of the call: no strong
    /// address is left, and nothing waits in the mailbox.
    pub fn orphaned(&self) -> bool {
        let count = self.ref_counter.strong_count();
        let empty = self.receiver.is_empty();
        is_orphaned(count, empty)
    }

    /// The mark of the last address, if the actor is orphaned. A host asks
    /// for it once its wait for an entry has begun: a mark that found no room
    /// before is made up for, and one that comes later finds the actor
    /// waiting.
    pub fn missed(&self) -> (mark: Option<AddressMessage<E>>)
        ensures
            mark is Some ==> mark == Some(AddressMessage::<E>::LastAddress),
    {
        mark_for(self.orphaned())
    }
}

/// Decides the limit of a mailbox that is asked for with the given capacity.
pub fn limit_of(message_cap: Option<usize>) -> (limit: Option<usize>)
    ensures
        limit == self::limit(message_cap),
{
    match message_cap {
        Some(cap) => if cap < usize::MAX {
            Some(cap)
        } else {
            None
        },
        None => None,
    }
}

impl<E, B: Clone> Context<E, B> {
    /// The lifecycle state.
    pub closed spec fn running(&self) -> RunningState {
        self.running
    }

    /// The self notifications that wait, oldest first.
    pub closed spec fn notifications(&self) -> Seq<E> {
        self.self_notifications@
    }

    /// The receiving end of the mailbox that the context holds.
    pub closed spec fn inbox(&self) -> flume::Receiver<AddressMessage<E>> {
        self.receiver
    }

    /// The receiving end of the broadcast channel that the context holds.
    pub closed spec fn broadcast_inbox(&self) -> BroadcastReceiver<B> {
        self.broadcast_receiver
    }

    /// The sending end of the mailbox that the context holds.
    pub closed spec fn outbox(&self) -> flume::Sender<AddressMessage<E>> {
        self.sender
    }

    /// The limit that the mailbox was made with, if it has one.
    pub closed spec fn capacity(&self) -> Option<usize> {
        self.limit
    }

    /// The sending end of the broadcast channel that the context holds.
    pub closed spec fn broadcast_outbox(&self) -> Broadcaster<B> {
        self.broadcaster
    }

    /// The lock of the record in which the addresses of the actor are
    /// counted.
    pub closed spec fn record(&self) -> Mutex<RefCount> {
        self.ref_counter.record()
    }

    /// The receiving end on which the end of all actors on the address is
    /// noticed.
    pub closed spec fn notice(&self) -> flume::Receiver<()> {
        self.shared_drop_notifier.end()
    }

    /// The receiving end on which the end of this context is noticed.
    pub closed spec fn drop_end(&self) -> flume::Receiver<()> {
        self.drop_notifier.end()
    }

    /// Whether the context holds the ends, the record and the notices that
    /// the other holds: the two are on the same mailbox and broadcast queue,
    /// count in the same record and fire the same notices.
    pub open spec fn same_ends(&self, other: Self) -> bool {
        &&& self.outbox() == other.outbox()
        &&& self.inbox() == other.inbox()
        &&& self.broadcast_outbox() == other.broadcast_outbox()
        &&& self.broadcast_inbox() == other.broadcast_inbox()
        &&& self.record() == other.record()
        &&& self.notice() == other.notice()
        &&& self.drop_end() == other.drop_end()
        &&& self.capacity() == other.capacity()
    }

    /// Whether the address is one of this context's actor: it is on the
    /// context's mailbox, record and notice.
    pub open spec fn reached_by(&self, address: Address<E>) -> bool {
        &&& address.outbox() == self.outbox()
        &&& address.record() == self.record()
        &&& address.notice() == self.notice()
    }

    /// Creates a new actor context with a given mailbox capacity, returning an
    /// address to the actor and the context. More actors can be attached to
    /// the address before any has started. Without a capacity, and with the
    /// largest one that there is, the mailbox has no limit.
    pub fn new(message_cap: Option<usize>) -> (made: (Address<E>, Self))
        ensures
            made.1.running() is Running,
            made.1.notifications() == Seq::<E>::empty(),
            made.0.counted(),
            made.1.reached_by(made.0),
            made.1.capacity() == limit(message_cap),
    {
        let limit = limit_of(message_cap);
        let (sender, receiver) = match limit {
            Some(cap) => flume::bounded(cap),
            None => flume::unbounded(),
        };
        let (broadcaster, broadcast_rx) = broadcast::broadcast_channel();
        let shared_drop_notifier = Arc::new(DropNotifier::new());
        let strong = Strong::new();
        let weak = strong.downgrade();
        let addr = Address::from_parts(sender.clone(), strong, shared_drop_notifier.subscribe());
        let context = Context {
            running: RunningState::Running,
            sender,
            broadcaster,
            ref_counter: weak,
            self_notifications: Vec::new(),
            receiver,
            broadcast_receiver: broadcast_rx.into_shared(),
            shared_drop_notifier,
            drop_notifier: DropNotifier::new(),
            limit,
        };
        (addr, context)
    }

    /// The context of one more actor on the same address. The two actors take
    /// from one mailbox, so that no envelope is handled by both, and each gets
    /// a copy of every broadcast.
    pub fn attach(&mut self) -> (attached: Self)
        ensures
            attached.running() is Running,
            attached.notifications() == Seq::<E>::empty(),
            attached.outbox() == old(self).outbox(),
            attached.inbox() == old(self).inbox(),
            attached.broadcast_outbox() == old(self).broadcast_outbox(),
            attached.record() == old(self).record(),
            attached.notice() == old(self).notice(),
            attached.capacity() == old(self).capacity(),
            *final(self) == *old(self),
    {
        let broadcast_receiver = self.broadcast_receiver.duplicate().upgrade().into_shared();
        Context {
            running: RunningState::Running,
            sender: self.sender.clone(),
            broadcaster: self.broadcaster.duplicate(),
            ref_counter: self.ref_counter.clone(),
            self_notifications: Vec::new(),
            receiver: self.receiver.clone(),
            broadcast_receiver,
            shared_drop_notifier: self.shared_drop_notifier.clone(),
            drop_notifier: DropNotifier::new(),
            limit: self.limit,
        }
    }

    /// Stop the actor as soon as it has finished processing the current
    /// message: the manage routine will ask the actor whether it wants to.
    pub fn stop(&mut self)
        ensures
            final(self).same_ends(*old(self)),
            final(self).running() is Stopping,
            final(self).notifications() == old(self).notifications(),
    {
        self.running = RunningState::Stopping;
    }

    /// The address that a strong handle makes with this context's mailbox, or
    /// `ActorShutdown` where there is none.
    fn address_from(&self, upgraded: Option<Strong>) -> (address: Result<
        Address<E>,
        ActorShutdown,
    >)
        ensures
            address is Ok <==> upgraded is Some,
            address matches Ok(made) ==> {
                &&& made.outbox() == self.outbox()
                &&& made.notice() == self.notice()
                &&& made.record() == upgraded.unwrap().record()
                &&& made.counted() == upgraded.unwrap().counted()
            },
    {
        match upgraded {
            Some(strong) => Ok(
                Address::from_parts(
                    self.sender.clone(),
                    strong,
                    self.shared_drop_notifier.subscribe(),
                ),
            ),
            None => Err(ActorShutdown),
        }
    }

    /// Get an address to the current actor if there are still external
    /// addresses to the actor. The address is counted, and it is on the
    /// context's mailbox, record and notice.
    pub fn address(&self) -> (address: Result<Address<E>, ActorShutdown>)
        ensures
            address matches Ok(made) ==> made.counted() && self.reached_by(made),
    {
        self.address_from(self.ref_counter.upgrade())
    }

    /// Stop all actors on this address: the address is disconnected for good,
    /// every actor is told to shut down, and what waits in the mailbox is
    /// dropped.
    pub fn stop_all(&mut self)
        ensures
            *final(self) == *old(self),
    {
        self.ref_counter.mark_disconnected();
        let _ = self.broadcaster.send(BroadcastMessage::Shutdown);
        mailbox::discard_waiting(&self.receiver);
    }

    /// Notify this actor with an envelope that is handled before any other
    /// entry of the mailbox or of the broadcast channel. Of several
    /// notifications that wait, the last one queued is handled first.
    pub fn notify(&mut self, envelope: E)
        ensures
            final(self).same_ends(*old(self)),
            final(self).notifications() == old(self).notifications().push(envelope),
            final(self).running() == old(self).running(),
    {
        self.self_notifications.push(envelope);
    }

    /// Notify all actors on this address with an envelope. Each gets a copy.
    /// This does not take priority over other entries.
    pub fn notify_all(&mut self, envelope: B)
        ensures
            *final(self) == *old(self),
    {
        let _ = self.broadcaster.send(BroadcastMessage::Message(envelope));
    }

    /// Takes the self notification that is handled next, if one waits.
    pub fn handle_self_notification(&mut self) -> (notification: Option<E>)
        ensures
            final(self).same_ends(*old(self)),
            final(self).running() == old(self).running(),
            old(self).notifications().len() == 0 ==> notification is None,
            old(self).notifications().len() == 0 ==> final(self).notifications() == old(
                self,
            ).notifications(),
            old(self).notifications().len() > 0 ==> notification == Some(
                old(self).notifications().last(),
            ),
            old(self).notifications().len() > 0 ==> final(self).notifications() == old(
                self,
            ).notifications().drop_last(),
    {
        self.self_notifications.pop()
    }

    /// The lifecycle state.
    pub fn state(&self) -> (state: RunningState)
        ensures
            state == self.running(),
    {
        self.running
    }

    /// Whether a self notification waits.
    pub fn has_notifications(&self) -> (waiting: bool)
        ensures
            waiting == (self.notifications().len() > 0),
    {
        self.self_notifications.len() > 0
    }

    /// Sets the lifecycle state.
    pub(crate) fn set_state(&mut self, state: RunningState)
        ensures
            final(self).same_ends(*old(self)),
            final(self).running() == state,
            final(self).notifications() == old(self).notifications(),
    {
        self.running = state;
    }

    /// Takes one entry without waiting, if one is there: the broadcast that
    /// the host has found in the broadcast queue, else the oldest entry of
    /// the mailbox.
    pub fn recv_once(&self, polled: Option<BroadcastMessage<B>>) -> (entry: Option<Incoming<E, B>>)
        ensures
            polled matches Some(broadcast) ==> entry == Some(
                Incoming::<E, B>::Broadcast(broadcast),
            ),
    {
        match polled {
            Some(broadcast) => Some(Incoming::Broadcast(broadcast)),
            None => mailbox::entry_of(self.receiver.try_recv()),
        }
    }

    /// A lookout on the record and the mailbox of this context, for a host
    /// that waits for an entry.
    pub fn lookout(&self) -> (lookout: Lookout<E>)
        ensures
            lookout.record() == self.record(),
            lookout.inbox() == self.inbox(),
    {
        Lookout { ref_counter: self.ref_counter.clone(), receiver: self.receiver.clone() }
    }

    /// Whether the actor is orphaned at the moment of the call: no strong
    /// address is left, and nothing waits in the mailbox. No envelope can
    /// reach such an actor any more.
    pub fn orphaned(&self) -> bool {
        let count = self.ref_counter.strong_count();
        let empty = self.receiver.is_empty();
        is_orphaned(count, empty)
    }

    /// Begins a routine on this context.
    fn begin(&mut self, routine: Routine) -> (begun: (ActorManager<E, B>, Action<E, B>))
        ensures
            final(self).same_ends(*old(self)),
            machine_of(begun.0, *final(self)) == Machine::<E, B>::begin(
                routine,
                old(self).running(),
                old(self).notifications(),
            ).machine,
            Next::Await(begun.1) == Machine::<E, B>::begin(
                routine,
                old(self).running(),
                old(self).notifications(),
            ).next,
    {
        let (manager, next) = ActorManager::begin(routine, self);
        match next {
            Next::Await(action) => (manager, action),
            Next::Perform(_) => {
                proof {
                    assert(false);
                }
                (manager, Action::Done)
            },
        }
    }

    /// Run the actor's main loop on this context: the manager that is
    /// returned handles the entries of the mailbox and of the broadcast
    /// channel, from the actor's `started` hook, which the host is asked to
    /// run first, to its `stopped` hook.
    pub fn run(&mut self) -> (begun: (ActorManager<E, B>, Action<E, B>))
        ensures
            final(self).same_ends(*old(self)),
            machine_of(begun.0, *final(self)) == Machine::<E, B>::begin(
                Routine::Run,
                old(self).running(),
                old(self).notifications(),
            ).machine,
            begun.1 is Started,
    {
        self.begin(Routine::Run)
    }

    /// Yields to the manager to handle one message: a self notification if
    /// one waits, else the next entry that arrives. The manager that is
    /// returned is done after that.
    pub fn yield_once(&mut self) -> (begun: (ActorManager<E, B>, Action<E, B>))
        ensures
            final(self).same_ends(*old(self)),
            machine_of(begun.0, *final(self)) == Machine::<E, B>::begin(
                Routine::YieldOnce,
                old(self).running(),
                old(self).notifications(),
            ).machine,
            Next::Await(begun.1) == Machine::<E, B>::begin(
                Routine::YieldOnce,
                old(self).running(),
                old(self).notifications(),
            ).next,
    {
        self.begin(Routine::YieldOnce)
    }

    /// Handle any incoming messages for the actor while a future of the
    /// actor's own runs. The self notifications that wait are handled first.
    /// Where the manager asks for an entry, the host waits for the entry and
    /// for the future at once, and drops the manager when the future is done.
    pub fn handle_while(&mut self) -> (begun: (ActorManager<E, B>, Action<E, B>))
        ensures
            final(self).same_ends(*old(self)),
            machine_of(begun.0, *final(self)) == Machine::<E, B>::begin(
                Routine::HandleWhile,
                old(self).running(),
                old(self).notifications(),
            ).machine,
            Next::Await(begun.1) == Machine::<E, B>::begin(
                Routine::HandleWhile,
                old(self).running(),
                old(self).notifications(),
            ).next,
    {
        self.begin(Routine::HandleWhile)
    }

    /// The limit that the mailbox was made with, if it has one.
    pub fn message_cap(&self) -> (limit: Option<usize>)
        ensures
            limit == self.capacity(),
    {
        self.limit
    }

    /// The number of strong addresses at the moment of the call.
    pub fn strong_count(&self) -> usize {
        self.ref_counter.strong_count()
    }

    /// A notice that fires when this context is dropped.
    pub fn drop_notice(&self) -> (notice: DropNotice)
        ensures
            notice.end() == self.drop_end(),
    {
        self.drop_notifier.subscribe()
    }

    /// The receiving end of the mailbox, for a host that waits on it.
    pub fn mailbox(&self) -> (mailbox: &flume::Receiver<AddressMessage<E>>)
        ensures
            *mailbox == self.inbox(),
    {
        &self.receiver
    }

    /// This actor's receiving end of the broadcast channel, for a host that
    /// waits on it.
    pub fn broadcasts(&self) -> (broadcasts: &BroadcastReceiver<B>)
        ensures
            *broadcasts == self.broadcast_inbox(),
    {
        &self.broadcast_receiver
    }
}

} // verus!
