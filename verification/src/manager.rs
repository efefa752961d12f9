//! The manage routine of an actor, as a state machine.
//!
//! A routine is told what happened and answers with what has to happen next.
//! What it asks of the host is an `Action`: run a hook, wait for an entry,
//! look into the broadcast queue, run a handler. What it can do itself is an
//! `Effect`: count the strong addresses, look whether the actor is orphaned,
//! stop all actors. `ActorManager::step` is the routine proper and touches no
//! channel; `ActorManager::manage` performs the effects between two actions.

use crate::address::Address;
use crate::context::limit;
use crate::context::Context;
use crate::lifecycle::KeepRunning;
use crate::lifecycle::RunningState;
use crate::message::AddressMessage;
use crate::message::BroadcastMessage;
use crate::message::Incoming;
use vstd::prelude::*;

verus! {

/// The three routines that manage an actor.
#[derive(Clone, Copy, Debug, PartialEq, Eq, Structural)]
pub enum Routine {
    /// The life of an actor, from its `started` hook to its `stopped` hook.
    Run,
    /// Entries are handled while a future of the actor's own is awaited.
    HandleWhile,
    /// One self notification is handled if one waits, else one entry.
    YieldOnce,
}

/// Where a routine stands: what it waits to be told.
#[derive(Clone, Copy, Debug, PartialEq, Eq, Structural)]
pub enum Phase {
    /// The `started` hook runs.
    Starting,
    /// The `stopping` hook runs, right after the `started` hook.
    StartArbitration,
    /// The broadcast queue is looked into, before the first entry is awaited.
    StartPoll,
    /// It is looked whether the actor is orphaned, before an entry is awaited.
    Looking,
    /// An entry is awaited.
    Receiving,
    /// The broadcast queue is looked into, after an entry has arrived.
    ReceivePoll,
    /// The strong addresses are counted.
    Counting,
    /// All actors on the address are stopped.
    StoppingAll,
    /// The handler of an entry runs.
    HandlingEntry,
    /// The handler of a self notification runs.
    HandlingNote,
    /// The `stopping` hook runs.
    Arbitrating,
    /// The routine is over.
    Finished,
}

/// What a routine does between two actions, without waiting.
#[derive(Clone, Copy, Debug, PartialEq, Eq, Structural)]
pub enum Effect {
    /// Count the strong addresses; answered by `Event::StrongCount`.
    CountStrong,
    /// Look whether the actor is orphaned: whether no strong address is left
    /// and nothing waits in the mailbox; answered by `Event::Orphaned`.
    Look,
    /// Stop all actors on the address; answered by `Event::StoppedAll`.
    StopAll,
}

/// What a routine asks of its host.
#[derive(Debug)]
pub enum Action<E, B> {
    /// Run the actor's `started` hook; then tell `Event::Started`.
    Started,
    /// Wait for an entry of the mailbox or of the broadcast channel; then tell
    /// `Event::Received`.
    Receive,
    /// Look into the broadcast queue without waiting; then tell
    /// `Event::Polled` with what was found.
    Poll,
    /// Run the handler of this envelope; then tell `Event::Handled`.
    Handle(E),
    /// Run the handler of this broadcast envelope; then tell `Event::Handled`.
    HandleBroadcast(B),
    /// Run the actor's `stopping` hook; then tell `Event::Stopping` with its
    /// answer.
    Stopping,
    /// Run the actor's `stopped` hook. The routine is over.
    Stopped,
    /// The routine is over; the actor goes on.
    Done,
}

/// What a routine does next.
#[derive(Debug)]
pub enum Next<E, B> {
    Perform(Effect),
    Await(Action<E, B>),
}

/// What a routine is told.
#[derive(Debug)]
pub enum Event<E, B> {
    /// The `started` hook has returned.
    Started,
    /// An entry has arrived.
    Received(Incoming<E, B>),
    /// The handler has returned.
    Handled,
    /// The `stopping` hook has returned this answer.
    Stopping(KeepRunning),
    /// The look into the broadcast queue found this.
    Polled(Option<BroadcastMessage<B>>),
    /// So many strong addresses exist.
    StrongCount(usize),
    /// Whether the actor is orphaned.
    Orphaned(bool),
    /// All actors on the address were stopped.
    StoppedAll,
}

/// A routine together with what it reads and writes of its context.
pub struct Machine<E, B> {
    pub routine: Routine,
    pub phase: Phase,
    /// Whether self notifications are taken and handled.
    pub drain: bool,
    /// The entry that waits while a broadcast is handled before it.
    pub deferred: Option<Incoming<E, B>>,
    pub running: RunningState,
    /// The self notifications that wait, oldest first.
    pub notifications: Seq<E>,
}

/// A machine after a step, and what the step asks for.
pub struct Outcome<E, B> {
    pub machine: Machine<E, B>,
    pub next: Next<E, B>,
}

impl<E, B> Outcome<E, B> {
    /// Where the step asks for the effect, the machine is told what the
    /// effect found.
    pub open spec fn answered(self, effect: Effect, found: Event<E, B>) -> Outcome<E, B> {
        if self.next == Next::<E, B>::Perform(effect) {
            match self.machine.step(found) {
                Some(outcome) => outcome,
                None => self,
            }
        } else {
            self
        }
    }

    /// The effects that the step asks for are performed, one after the
    /// other, until the host is asked again: `count` strong addresses are
    /// counted, and the actor is found orphaned or not.
    pub open spec fn concluded(self, count: usize, orphaned: bool) -> Outcome<E, B> {
        self.answered(Effect::CountStrong, Event::StrongCount(count)).answered(
            Effect::Look,
            Event::Orphaned(orphaned),
        ).answered(Effect::StopAll, Event::StoppedAll)
    }
}

impl<E, B> Machine<E, B> {
    /// Whether the event is what the machine waits for.
    pub open spec fn expects(self, event: Event<E, B>) -> bool {
        match self.phase {
            Phase::Starting => event is Started,
            Phase::StartArbitration => event is Stopping,
            Phase::StartPoll => event is Polled,
            Phase::Looking => event is Orphaned,
            Phase::Receiving => event is Received,
            Phase::ReceivePoll => event is Polled,
            Phase::Counting => event is StrongCount,
            Phase::StoppingAll => event is StoppedAll,
            Phase::HandlingEntry => event is Handled,
            Phase::HandlingNote => event is Handled,
            Phase::Arbitrating => event is Stopping,
            Phase::Finished => false,
        }
    }

    /// The machine in another phase, asking for `next`.
    pub open spec fn go(self, phase: Phase, next: Next<E, B>) -> Outcome<E, B> {
        Outcome { machine: Machine { phase, ..self }, next }
    }

    /// The routine ends: `run` asks for the `stopped` hook, the others are
    /// done. An entry that still waited is dropped.
    pub open spec fn finish(self) -> Outcome<E, B> {
        Machine { deferred: None, ..self }.go(
            Phase::Finished,
            Next::Await(
                if self.routine is Run {
                    Action::Stopped
                } else {
                    Action::Done
                },
            ),
        )
    }

    /// The actor is stopped, and the routine ends.
    pub open spec fn halt(self) -> Outcome<E, B> {
        Machine { running: RunningState::Stopped, ..self }.finish()
    }

    /// Whether a self notification is taken next. Only `yield_once` can leave
    /// one waiting.
    pub open spec fn takes_note(self) -> bool {
        self.notifications.len() > 0 && (self.drain || !(self.routine is YieldOnce))
    }

    /// The last self notification queued is handled.
    pub open spec fn handle_note(self) -> Outcome<E, B> {
        Machine { notifications: self.notifications.drop_last(), ..self }.go(
            Phase::HandlingNote,
            Next::Await(Action::Handle(self.notifications.last())),
        )
    }

    /// One entry is dealt with: an envelope goes to its handler, the order to
    /// shut down stops the actor, and the mark of the last address has the
    /// strong addresses counted.
    pub open spec fn tick(self, entry: Incoming<E, B>) -> Outcome<E, B> {
        match entry {
            Incoming::Broadcast(BroadcastMessage::Message(envelope)) => self.go(
                Phase::HandlingEntry,
                Next::Await(Action::HandleBroadcast(envelope)),
            ),
            Incoming::Broadcast(BroadcastMessage::Shutdown) => self.halt(),
            Incoming::Address(AddressMessage::Message(envelope)) => self.go(
                Phase::HandlingEntry,
                Next::Await(Action::Handle(envelope)),
            ),
            Incoming::Address(AddressMessage::LastAddress) => self.go(
                Phase::Counting,
                Next::Perform(Effect::CountStrong),
            ),
        }
    }

    /// Nothing is left of the entry that was dealt with: the entry that
    /// waited behind a broadcast is next; without one, `yield_once` is done
    /// and the other routines look whether the actor is orphaned before they
    /// wait for the next entry.
    pub open spec fn resume(self) -> Outcome<E, B> {
        match self.deferred {
            Some(entry) => Machine { deferred: None, ..self }.tick(entry),
            None => if self.routine is YieldOnce {
                self.finish()
            } else {
                self.go(Phase::Looking, Next::Perform(Effect::Look))
            },
        }
    }

    /// The actor is not orphaned: a running actor with no self notification
    /// left waits for the next entry.
    pub open spec fn wait(self) -> Outcome<E, B> {
        if self.routine is YieldOnce {
            self.finish()
        } else if self.running is Running && self.notifications.len() == 0 {
            self.go(Phase::Receiving, Next::Await(Action::Receive))
        } else {
            self.check_running()
        }
    }

    /// The lifecycle is consulted. A running actor goes on, with the self
    /// notifications first; one that was asked to stop is asked whether it
    /// wants to; for a stopped one the routine ends.
    pub open spec fn check_running(self) -> Outcome<E, B> {
        match self.running {
            RunningState::Running => if self.takes_note() {
                self.handle_note()
            } else {
                self.resume()
            },
            RunningState::Stopping => self.go(Phase::Arbitrating, Next::Await(Action::Stopping)),
            RunningState::Stopped => self.finish(),
        }
    }

    /// After the handler of an entry: its self notifications are handled
    /// before the lifecycle is consulted.
    pub open spec fn handle_self_notifications(self) -> Outcome<E, B> {
        if self.takes_note() {
            self.handle_note()
        } else {
            self.check_running()
        }
    }

    /// All actors on the address are to be stopped.
    pub open spec fn stop_all(self) -> Outcome<E, B> {
        self.go(Phase::StoppingAll, Next::Perform(Effect::StopAll))
    }

    /// The broadcast queue is to be looked into before the first entry is
    /// awaited.
    pub open spec fn first_poll(self) -> Outcome<E, B> {
        self.go(Phase::StartPoll, Next::Await(Action::Poll))
    }

    /// The step on an event that the machine waits for, while the actor is
    /// not stopped.
    pub open spec fn react(self, event: Event<E, B>) -> Outcome<E, B> {
        match event {
            Event::Started => if self.running is Running {
                self.first_poll()
            } else {
                self.go(Phase::StartArbitration, Next::Await(Action::Stopping))
            },
            Event::Stopping(KeepRunning::Yes) => {
                let running = Machine { running: RunningState::Running, ..self };
                if self.phase is StartArbitration {
                    running.first_poll()
                } else {
                    running.check_running()
                }
            },
            Event::Stopping(KeepRunning::StopSelf) => self.halt(),
            Event::Stopping(KeepRunning::StopAll) => self.stop_all(),
            Event::Received(entry) => if self.routine is YieldOnce {
                Machine { drain: true, ..self }.tick(entry)
            } else {
                Machine { deferred: Some(entry), ..self }.go(
                    Phase::ReceivePoll,
                    Next::Await(Action::Poll),
                )
            },
            Event::Polled(Some(entry)) => self.tick(Incoming::Broadcast(entry)),
            Event::Polled(None) => if self.deferred is Some {
                self.resume()
            } else {
                self.check_running()
            },
            Event::StrongCount(count) => if count == 0 {
                self.stop_all()
            } else {
                Machine { deferred: None, ..self }.handle_self_notifications()
            },
            Event::Orphaned(orphaned) => if orphaned {
                self.stop_all()
            } else {
                self.wait()
            },
            Event::StoppedAll => self.halt(),
            Event::Handled => if self.phase is HandlingEntry {
                self.handle_self_notifications()
            } else {
                self.check_running()
            },
        }
    }

    /// One step of the machine. An event that the machine does not wait for
    /// is refused. Once the actor is stopped, the routine ends on whatever
    /// comes next.
    pub open spec fn step(self, event: Event<E, B>) -> Option<Outcome<E, B>> {
        if !self.expects(event) {
            None
        } else if self.running is Stopped {
            Some(self.finish())
        } else {
            Some(self.react(event))
        }
    }

    /// The first step of a routine on a context in the given state.
    pub open spec fn begin(routine: Routine, running: RunningState, notifications: Seq<E>) -> Outcome<
        E,
        B,
    > {
        let fresh = Machine {
            routine,
            phase: Phase::Starting,
            drain: !(routine is YieldOnce) || notifications.len() == 0,
            deferred: None,
            running,
            notifications,
        };
        if routine is Run {
            fresh.go(Phase::Starting, Next::Await(Action::Started))
        } else if running is Stopped {
            fresh.finish()
        } else if notifications.len() > 0 {
            fresh.handle_note()
        } else {
            fresh.go(Phase::Receiving, Next::Await(Action::Receive))
        }
    }

    /// What holds of a machine that waits on an action of its host.
    pub open spec fn awaits(self, action: Action<E, B>) -> bool {
        match action {
            Action::Started => self.phase is Starting,
            Action::Receive => self.phase is Receiving && self.notifications.len() == 0
                && !(self.running is Stopped),
            Action::Poll => (self.phase is StartPoll || self.phase is ReceivePoll) && !(
            self.running is Stopped),
            Action::Handle(_) => (self.phase is HandlingEntry || self.phase is HandlingNote) && !(
            self.running is Stopped),
            Action::HandleBroadcast(_) => self.phase is HandlingEntry && !(self.running is Stopped),
            Action::Stopping => (self.phase is Arbitrating || self.phase is StartArbitration)
                && self.running is Stopping,
            Action::Stopped => self.phase is Finished && self.routine is Run,
            Action::Done => self.phase is Finished && !(self.routine is Run),
        }
    }

    /// The event that answers an effect.
    pub open spec fn answers(effect: Effect, event: Event<E, B>) -> bool {
        match effect {
            Effect::CountStrong => event is StrongCount,
            Effect::Look => event is Orphaned,
            Effect::StopAll => event is StoppedAll,
        }
    }

    /// How many effects can still follow before the host is asked again.
    pub open spec fn effects_left(next: Next<E, B>) -> nat {
        match next {
            Next::Perform(Effect::CountStrong) => 3,
            Next::Perform(Effect::Look) => 2,
            Next::Perform(Effect::StopAll) => 1,
            Next::Await(_) => 0,
        }
    }

    /// What holds of a machine after any step: a stopped actor's routine is
    /// over, and what the machine waits on fits its state.
    pub open spec fn settled(self, next: Next<E, B>) -> bool {
        &&& self.running is Stopped ==> self.phase is Finished
        &&& next matches Next::Await(action) ==> self.awaits(action)
        &&& next matches Next::Perform(Effect::Look) ==> self.phase is Looking
        &&& next matches Next::Perform(Effect::CountStrong) ==> self.phase is Counting
        &&& next matches Next::Perform(Effect::StopAll) ==> self.phase is StoppingAll
    }
}

/// The manager of an actor: one routine in progress.
pub struct ActorManager<E, B> {
    routine: Routine,
    phase: Phase,
    drain: bool,
    deferred: Option<Incoming<E, B>>,
}

/// The machine that a manager and its context make: the routine, and what it
/// reads and writes of the context. The channel ends, the record and the
/// notices of the context are no part of it: no step changes them, as every
/// step says with `same_ends`.
pub open spec fn machine_of<E, B: Clone>(manager: ActorManager<E, B>, ctx: Context<E, B>) -> Machine<
    E,
    B,
> {
    Machine {
        routine: manager.kind(),
        phase: manager.stage(),
        drain: manager.drains(),
        deferred: manager.deferred(),
        running: ctx.running(),
        notifications: ctx.notifications(),
    }
}

impl<E, B: Clone> ActorManager<E, B> {
    /// The routine that this manager runs.
    pub closed spec fn kind(self) -> Routine {
        self.routine
    }

    /// Where the routine stands.
    pub closed spec fn stage(self) -> Phase {
        self.phase
    }

    /// Whether the routine takes self notifications.
    pub closed spec fn drains(self) -> bool {
        self.drain
    }

    /// The entry that waits while a broadcast is handled before it.
    pub closed spec fn deferred(self) -> Option<Incoming<E, B>> {
        self.deferred
    }

    /// The routine that this manager runs.
    pub fn routine(&self) -> (routine: Routine)
        ensures
            routine == self.kind(),
    {
        self.routine
    }

    /// Where the routine stands.
    pub fn phase(&self) -> (phase: Phase)
        ensures
            phase == self.stage(),
    {
        self.phase
    }

    /// Whether the routine is over.
    pub fn is_finished(&self) -> (finished: bool)
        ensures
            finished == (self.stage() is Finished),
    {
        match self.phase {
            Phase::Finished => true,
            _ => false,
        }
    }

    fn expects(&self, event: &Event<E, B>) -> (expected: bool)
        ensures
            forall|ctx: Context<E, B>|
                expected == (#[trigger] machine_of(*self, ctx)).expects(*event),
    {
        match self.phase {
            Phase::Starting => match event {
                Event::Started => true,
                _ => false,
            },
            Phase::StartArbitration | Phase::Arbitrating => match event {
                Event::Stopping(_) => true,
                _ => false,
            },
            Phase::StartPoll | Phase::ReceivePoll => match event {
                Event::Polled(_) => true,
                _ => false,
            },
            Phase::Looking => match event {
                Event::Orphaned(_) => true,
                _ => false,
            },
            Phase::Receiving => match event {
                Event::Received(_) => true,
                _ => false,
            },
            Phase::Counting => match event {
                Event::StrongCount(_) => true,
                _ => false,
            },
            Phase::StoppingAll => match event {
                Event::StoppedAll => true,
                _ => false,
            },
            Phase::HandlingEntry | Phase::HandlingNote => match event {
                Event::Handled => true,
                _ => false,
            },
            Phase::Finished => false,
        }
    }

    fn finish(&mut self, ctx: &Context<E, B>) -> (next: Next<E, B>)
        ensures
            machine_of(*final(self), *ctx) == machine_of(*old(self), *ctx).finish().machine,
            next == machine_of(*old(self), *ctx).finish().next,
    {
        self.deferred = None;
        self.phase = Phase::Finished;
        match self.routine {
            Routine::Run => Next::Await(Action::Stopped),
            _ => Next::Await(Action::Done),
        }
    }

    fn halt(&mut self, ctx: &mut Context<E, B>) -> (next: Next<E, B>)
        ensures
            final(ctx).same_ends(*old(ctx)),
            machine_of(*final(self), *final(ctx)) == machine_of(*old(self), *old(ctx)).halt().machine,
            next == machine_of(*old(self), *old(ctx)).halt().next,
    {
        ctx.set_state(RunningState::Stopped);
        self.finish(&*ctx)
    }

    /// Handle one entry, as far as it goes without waiting.
    fn tick(&mut self, ctx: &mut Context<E, B>, entry: Incoming<E, B>) -> (next: Next<E, B>)
        ensures
            final(ctx).same_ends(*old(ctx)),
            machine_of(*final(self), *final(ctx)) == machine_of(*old(self), *old(ctx)).tick(
                entry,
            ).machine,
            next == machine_of(*old(self), *old(ctx)).tick(entry).next,
    {
        match entry {
            Incoming::Broadcast(BroadcastMessage::Message(envelope)) => {
                self.phase = Phase::HandlingEntry;
                Next::Await(Action::HandleBroadcast(envelope))
            },
            Incoming::Broadcast(BroadcastMessage::Shutdown) => self.halt(ctx),
            Incoming::Address(AddressMessage::Message(envelope)) => {
                self.phase = Phase::HandlingEntry;
                Next::Await(Action::Handle(envelope))
            },
            Incoming::Address(AddressMessage::LastAddress) => {
                self.phase = Phase::Counting;
                Next::Perform(Effect::CountStrong)
            },
        }
    }

    fn resume(&mut self, ctx: &mut Context<E, B>) -> (next: Next<E, B>)
        ensures
            final(ctx).same_ends(*old(ctx)),
            machine_of(*final(self), *final(ctx)) == machine_of(*old(self), *old(ctx)).resume().machine,
            next == machine_of(*old(self), *old(ctx)).resume().next,
    {
        match self.deferred.take() {
            Some(entry) => self.tick(ctx, entry),
            None => match self.routine {
                Routine::YieldOnce => self.finish(&*ctx),
                _ => {
                    self.phase = Phase::Looking;
                    Next::Perform(Effect::Look)
                },
            },
        }
    }

    fn takes_note(&self, ctx: &Context<E, B>) -> (takes: bool)
        ensures
            takes == machine_of(*self, *ctx).takes_note(),
    {
        let kept_waiting = match self.routine {
            Routine::YieldOnce => !self.drain,
            _ => false,
        };
        ctx.has_notifications() && !kept_waiting
    }

    /// Handles a single self notification.
    fn handle_self_notification(&mut self, ctx: &mut Context<E, B>) -> (next: Next<E, B>)
        requires
            old(ctx).notifications().len() > 0,
        ensures
            final(ctx).same_ends(*old(ctx)),
            machine_of(*final(self), *final(ctx)) == machine_of(
                *old(self),
                *old(ctx),
            ).handle_note().machine,
            next == machine_of(*old(self), *old(ctx)).handle_note().next,
    {
        self.phase = Phase::HandlingNote;
        match ctx.handle_self_notification() {
            Some(envelope) => Next::Await(Action::Handle(envelope)),
            None => Next::Await(Action::Receive),
        }
    }

    /// Check if the context is still set to running.
    fn check_running(&mut self, ctx: &mut Context<E, B>) -> (next: Next<E, B>)
        ensures
            final(ctx).same_ends(*old(ctx)),
            machine_of(*final(self), *final(ctx)) == machine_of(
                *old(self),
                *old(ctx),
            ).check_running().machine,
            next == machine_of(*old(self), *old(ctx)).check_running().next,
    {
        match ctx.state() {
            RunningState::Running => if self.takes_note(&*ctx) {
                self.handle_self_notification(ctx)
            } else {
                self.resume(ctx)
            },
            RunningState::Stopping => {
                self.phase = Phase::Arbitrating;
                Next::Await(Action::Stopping)
            },
            RunningState::Stopped => self.finish(&*ctx),
        }
    }

    /// The actor is not orphaned: wait for the next entry, if the actor runs
    /// and no self notification is left.
    fn wait(&mut self, ctx: &mut Context<E, B>) -> (next: Next<E, B>)
        ensures
            final(ctx).same_ends(*old(ctx)),
            machine_of(*final(self), *final(ctx)) == machine_of(*old(self), *old(ctx)).wait().machine,
            next == machine_of(*old(self), *old(ctx)).wait().next,
    {
        match self.routine {
            Routine::YieldOnce => self.finish(&*ctx),
            _ => {
                let running = match ctx.state() {
                    RunningState::Running => true,
                    _ => false,
                };
                if running && !ctx.has_notifications() {
                    self.phase = Phase::Receiving;
                    Next::Await(Action::Receive)
                } else {
                    self.check_running(ctx)
                }
            },
        }
    }

    /// Handle the self notifications, then consult the lifecycle.
    fn handle_self_notifications(&mut self, ctx: &mut Context<E, B>) -> (next: Next<E, B>)
        ensures
            final(ctx).same_ends(*old(ctx)),
            machine_of(*final(self), *final(ctx)) == machine_of(
                *old(self),
                *old(ctx),
            ).handle_self_notifications().machine,
            next == machine_of(*old(self), *old(ctx)).handle_self_notifications().next,
    {
        if self.takes_note(&*ctx) {
            self.handle_self_notification(ctx)
        } else {
            self.check_running(ctx)
        }
    }

    fn react(&mut self, ctx: &mut Context<E, B>, event: Event<E, B>) -> (next: Next<E, B>)
        ensures
            final(ctx).same_ends(*old(ctx)),
            machine_of(*final(self), *final(ctx)) == machine_of(*old(self), *old(ctx)).react(
                event,
            ).machine,
            next == machine_of(*old(self), *old(ctx)).react(event).next,
    {
        match event {
            Event::Started => match ctx.state() {
                RunningState::Running => {
                    self.phase = Phase::StartPoll;
                    Next::Await(Action::Poll)
                },
                _ => {
                    self.phase = Phase::StartArbitration;
                    Next::Await(Action::Stopping)
                },
            },
            Event::Stopping(KeepRunning::Yes) => {
                ctx.set_state(RunningState::Running);
                match self.phase {
                    Phase::StartArbitration => {
                        self.phase = Phase::StartPoll;
                        Next::Await(Action::Poll)
                    },
                    _ => self.check_running(ctx),
                }
            },
            Event::Stopping(KeepRunning::StopSelf) => self.halt(ctx),
            Event::Stopping(KeepRunning::StopAll) => {
                self.phase = Phase::StoppingAll;
                Next::Perform(Effect::StopAll)
            },
            Event::Received(entry) => match self.routine {
                Routine::YieldOnce => {
                    self.drain = true;
                    self.tick(ctx, entry)
                },
                _ => {
                    self.deferred = Some(entry);
                    self.phase = Phase::ReceivePoll;
                    Next::Await(Action::Poll)
                },
            },
            Event::Polled(Some(entry)) => self.tick(ctx, Incoming::Broadcast(entry)),
            Event::Polled(None) => if self.deferred.is_some() {
                self.resume(ctx)
            } else {
                self.check_running(ctx)
            },
            Event::StrongCount(count) => if count == 0 {
                self.phase = Phase::StoppingAll;
                Next::Perform(Effect::StopAll)
            } else {
                self.deferred = None;
                self.handle_self_notifications(ctx)
            },
            Event::Orphaned(orphaned) => if orphaned {
                self.phase = Phase::StoppingAll;
                Next::Perform(Effect::StopAll)
            } else {
                self.wait(ctx)
            },
            Event::StoppedAll => self.halt(ctx),
            Event::Handled => match self.phase {
                Phase::HandlingEntry => self.handle_self_notifications(ctx),
                _ => self.check_running(ctx),
            },
        }
    }

    /// One step of the routine: the answer to one event. The context's
    /// lifecycle state and self notifications are read and written; no
    /// channel is touched. An event that the routine does not wait for is
    /// refused with `None` and changes nothing.
    pub fn step(&mut self, ctx: &mut Context<E, B>, event: Event<E, B>) -> (next: Option<Next<E, B>>)
        ensures
            final(ctx).same_ends(*old(ctx)),
            match machine_of(*old(self), *old(ctx)).step(event) {
                Some(outcome) => next == Some(outcome.next) && machine_of(
                    *final(self),
                    *final(ctx),
                ) == outcome.machine,
                None => next is None && machine_of(*final(self), *final(ctx)) == machine_of(
                    *old(self),
                    *old(ctx),
                ),
            },
    {
        if !self.expects(&event) {
            None
        } else {
            match ctx.state() {
                RunningState::Stopped => Some(self.finish(&*ctx)),
                _ => Some(self.react(ctx, event)),
            }
        }
    }

    /// The first step of a routine on this context.
    pub(crate) fn begin(routine: Routine, ctx: &mut Context<E, B>) -> (begun: (Self, Next<E, B>))
        ensures
            final(ctx).same_ends(*old(ctx)),
            machine_of(begun.0, *final(ctx)) == Machine::<E, B>::begin(
                routine,
                old(ctx).running(),
                old(ctx).notifications(),
            ).machine,
            begun.1 == Machine::<E, B>::begin(
                routine,
                old(ctx).running(),
                old(ctx).notifications(),
            ).next,
    {
        let drain = match routine {
            Routine::YieldOnce => !ctx.has_notifications(),
            _ => true,
        };
        let mut manager = ActorManager { routine, phase: Phase::Starting, drain, deferred: None };
        let next = match routine {
            Routine::Run => Next::Await(Action::Started),
            _ => match ctx.state() {
                RunningState::Stopped => manager.finish(&*ctx),
                _ => if ctx.has_notifications() {
                    manager.handle_self_notification(ctx)
                } else {
                    manager.phase = Phase::Receiving;
                    Next::Await(Action::Receive)
                },
            },
        };
        (manager, next)
    }

    /// Makes an address, its context and the manager of the actor's main
    /// loop, ready to run: the host is asked to run the `started` hook. The
    /// address is counted, and it is on the mailbox, the record and the notice
    /// of the context.
    pub fn start(message_cap: Option<usize>) -> (made: (
        Address<E>,
        Context<E, B>,
        ActorManager<E, B>,
        Action<E, B>,
    ))
        ensures
            machine_of(made.2, made.1) == Machine::<E, B>::begin(
                Routine::Run,
                RunningState::Running,
                Seq::<E>::empty(),
            ).machine,
            made.3 is Started,
            made.0.counted(),
            made.1.reached_by(made.0),
            made.1.capacity() == limit(message_cap),
    {
        let (address, mut ctx) = Context::new(message_cap);
        let (manager, action) = ctx.run();
        (address, ctx, manager, action)
    }

    /// Performs an effect on the context and says what it found.
    fn perform(ctx: &mut Context<E, B>, effect: Effect) -> (event: Event<E, B>)
        ensures
            final(ctx).same_ends(*old(ctx)),
            Machine::<E, B>::answers(effect, event),
            final(ctx).running() == old(ctx).running(),
            final(ctx).notifications() == old(ctx).notifications(),
    {
        match effect {
            Effect::CountStrong => Event::StrongCount(ctx.strong_count()),
            Effect::Look => Event::Orphaned(ctx.orphaned()),
            Effect::StopAll => {
                ctx.stop_all();
                Event::StoppedAll
            },
        }
    }

    /// Performs the effect if it is what the routine asks for next, and has
    /// the routine answer what was found. The finding is handed out in ghost
    /// form.
    fn answer(&mut self, ctx: &mut Context<E, B>, next: Next<E, B>, effect: Effect) -> (then: (
        Next<E, B>,
        Ghost<Event<E, B>>,
    ))
        requires
            machine_of(*old(self), *old(ctx)).settled(next),
        ensures
            final(ctx).same_ends(*old(ctx)),
            Machine::<E, B>::answers(effect, then.1@),
            (Outcome { machine: machine_of(*final(self), *final(ctx)), next: then.0 }) == (Outcome {
                machine: machine_of(*old(self), *old(ctx)),
                next,
            }).answered(effect, then.1@),
            machine_of(*final(self), *final(ctx)).settled(then.0),
            then.0 != Next::<E, B>::Perform(effect),
            Machine::<E, B>::effects_left(then.0) <= Machine::<E, B>::effects_left(next),
    {
        let asked = match &next {
            Next::Perform(Effect::CountStrong) => effect == Effect::CountStrong,
            Next::Perform(Effect::Look) => effect == Effect::Look,
            Next::Perform(Effect::StopAll) => effect == Effect::StopAll,
            Next::Await(_) => false,
        };
        if asked {
            let found = Self::perform(ctx, effect);
            let ghost finding = found;
            proof {
                lemma_step_settles(machine_of(*self, *ctx), found);
                lemma_effects_run_out(machine_of(*self, *ctx), effect, found);
            }
            match self.step(ctx, found) {
                Some(then) => (then, Ghost(finding)),
                None => {
                    proof {
                        assert(false);
                    }
                    (next, Ghost(finding))
                },
            }
        } else {
            let ghost finding = match effect {
                Effect::CountStrong => Event::StrongCount(0),
                Effect::Look => Event::Orphaned(false),
                Effect::StopAll => Event::StoppedAll,
            };
            (next, Ghost(finding))
        }
    }

    /// The answer to one event, with the effects performed that the routine
    /// asks for on the way: the strong addresses are counted, it is looked
    /// whether the actor is orphaned, and all actors are stopped as `step`
    /// orders it, until the routine asks its host again. An event that the
    /// routine does not wait for is refused with `None` and changes nothing.
    ///
    /// How many strong addresses are counted and whether the actor is found
    /// orphaned is decided by the other holders of the record and the
    /// mailbox, so the contract says that the answer is what `step` gives for
    /// some count and some finding; where `step` asks for neither, the answer
    /// is that of `step`.
    pub fn manage(&mut self, ctx: &mut Context<E, B>, event: Event<E, B>) -> (action: Option<
        Action<E, B>,
    >)
        ensures
            final(ctx).same_ends(*old(ctx)),
            action is Some <==> machine_of(*old(self), *old(ctx)).expects(event),
            action is None ==> machine_of(*final(self), *final(ctx)) == machine_of(
                *old(self),
                *old(ctx),
            ),
            action matches Some(asked) ==> machine_of(*final(self), *final(ctx)).settled(
                Next::Await(asked),
            ),
            action matches Some(asked) ==> exists|count: usize, orphaned: bool|
                (Outcome { machine: machine_of(*final(self), *final(ctx)), next: Next::Await(asked) })
                    == #[trigger] machine_of(*old(self), *old(ctx)).step(event).unwrap().concluded(
                    count,
                    orphaned,
                ),
    {
        let ghost begun = machine_of(*self, *ctx).step(event);
        proof {
            lemma_step_settles(machine_of(*self, *ctx), event);
        }
        let first = match self.step(ctx, event) {
            Some(next) => next,
            None => {
                return None;
            },
        };
        let (second, Ghost(counted)) = self.answer(ctx, first, Effect::CountStrong);
        let (third, Ghost(looked)) = self.answer(ctx, second, Effect::Look);
        let (last, Ghost(stopped)) = self.answer(ctx, third, Effect::StopAll);
        match last {
            Next::Await(asked) => {
                proof {
                    let count = counted->StrongCount_0;
                    let orphaned = looked->Orphaned_0;
                    assert((Outcome { machine: machine_of(*self, *ctx), next: Next::Await(asked) })
                        == begun.unwrap().concluded(count, orphaned));
                }
                Some(asked)
            },
            Next::Perform(_) => {
                proof {
                    assert(false);
                }
                None
            },
        }
    }
}

/// After any step, a stopped actor's routine is over and the machine's state
/// fits what it waits on: no handler is asked for once the actor is stopped,
/// an entry is awaited only by a running actor with no self notification
/// left, and the `stopping` hook is asked for only in the state `Stopping`.
pub proof fn lemma_step_settles<E, B>(machine: Machine<E, B>, event: Event<E, B>)
    ensures
        machine.step(event) matches Some(outcome) ==> outcome.machine.settled(outcome.next),
        machine.step(event) matches Some(outcome) ==> (outcome.next matches Next::Await(
            Action::Receive,
        ) ==> outcome.machine.running is Running),
{
}

/// The effects between two actions come in one order: a count of the strong
/// addresses, a look for whether the actor is orphaned, the stop of all
/// actors. So after at most three effects the host is asked again.
pub proof fn lemma_effects_run_out<E, B>(machine: Machine<E, B>, effect: Effect, found: Event<E, B>)
    requires
        Machine::<E, B>::answers(effect, found),
    ensures
        machine.step(found) matches Some(outcome) ==> Machine::<E, B>::effects_left(outcome.next)
            < Machine::<E, B>::effects_left(Next::Perform(effect)),
{
}

} // verus!
