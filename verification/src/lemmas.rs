//! What the manage routine guarantees, stated over `Machine::step`.

use crate::lifecycle::KeepRunning;
use crate::lifecycle::RunningState;
use crate::manager::Action;
use crate::manager::Effect;
use crate::manager::Event;
use crate::manager::Machine;
use crate::manager::Next;
use crate::manager::Outcome;
use crate::manager::Phase;
use crate::message::AddressMessage;
use crate::message::BroadcastMessage;
use crate::message::Incoming;
use vstd::prelude::*;

verus! {

/// The main loop at rest: it waits for an entry, the actor runs, and neither
/// a self notification nor an entry waits.
pub open spec fn idle<E, B>(machine: Machine<E, B>) -> bool {
    &&& machine.routine is Run
    &&& machine.phase is Receiving
    &&& machine.deferred is None
    &&& machine.running is Running
    &&& machine.notifications.len() == 0
}

/// The envelope that a step hands to a handler, if it hands one.
pub open spec fn handed<E, B>(next: Next<E, B>) -> Seq<E> {
    match next {
        Next::Await(Action::Handle(envelope)) => seq![envelope],
        _ => Seq::empty(),
    }
}

/// A machine and the envelopes that were handed to handlers on the way to it.
pub struct Served<E, B> {
    pub machine: Machine<E, B>,
    pub handled: Seq<E>,
}

/// One envelope arrives from the mailbox while nothing is broadcast, its
/// handler leaves the context as it is, and the actor is not orphaned.
pub open spec fn serve_one<E, B>(machine: Machine<E, B>, envelope: E) -> Served<E, B> {
    let arrived = machine.step(
        Event::Received(Incoming::Address(AddressMessage::Message(envelope))),
    ).unwrap();
    let polled = arrived.machine.step(Event::Polled(None)).unwrap();
    let returned = polled.machine.step(Event::Handled).unwrap();
    let looked = returned.machine.step(Event::Orphaned(false)).unwrap();
    Served {
        machine: looked.machine,
        handled: handed(arrived.next) + handed(polled.next) + handed(returned.next) + handed(
            looked.next,
        ),
    }
}

/// The envelopes arrive one after the other, each as in `serve_one`.
pub open spec fn serve<E, B>(machine: Machine<E, B>, envelopes: Seq<E>) -> Served<E, B>
    decreases envelopes.len(),
{
    if envelopes.len() == 0 {
        Served { machine, handled: Seq::empty() }
    } else {
        let first = serve_one(machine, envelopes[0]);
        let rest = serve(first.machine, envelopes.skip(1));
        Served { machine: rest.machine, handled: first.handled + rest.handled }
    }
}

/// Delivery in sequence: of any number of envelopes that arrive one after the
/// other at a running actor, each is handed to a handler exactly once, in the
/// order of arrival, and the main loop is at rest again afterwards. So an
/// actor that counts its messages has counted as many as were sent.
pub proof fn lemma_sequential_delivery<E, B>(machine: Machine<E, B>, envelopes: Seq<E>)
    requires
        idle(machine),
    ensures
        serve(machine, envelopes).handled == envelopes,
        serve(machine, envelopes).machine == machine,
    decreases envelopes.len(),
{
    if envelopes.len() > 0 {
        let first = serve_one(machine, envelopes[0]);
        assert(first.machine == machine);
        assert(first.handled == seq![envelopes[0]]);
        lemma_sequential_delivery(machine, envelopes.skip(1));
        assert(seq![envelopes[0]] + envelopes.skip(1) == envelopes);
    }
}

/// The last address: when the mark of the last strong address arrives and no
/// strong address exists at that moment, the main loop stops all actors on
/// the address and asks for the `stopped` hook, without asking the actor
/// whether it wants to stop.
pub proof fn lemma_last_address_stops<E, B>(machine: Machine<E, B>)
    requires
        idle(machine),
    ensures
        ({
            let arrived = machine.step(
                Event::Received(Incoming::Address(AddressMessage::LastAddress)),
            ).unwrap();
            let polled = arrived.machine.step(Event::Polled(None)).unwrap();
            let counted = polled.machine.step(Event::StrongCount(0)).unwrap();
            let stopped = counted.machine.step(Event::StoppedAll).unwrap();
            &&& arrived.next == Next::<E, B>::Await(Action::Poll)
            &&& polled.next == Next::<E, B>::Perform(Effect::CountStrong)
            &&& counted.next == Next::<E, B>::Perform(Effect::StopAll)
            &&& stopped.next == Next::<E, B>::Await(Action::Stopped)
            &&& stopped.machine.running is Stopped
            &&& stopped.machine.phase is Finished
        }),
{
}

/// The mark of the last address is a hint: while a strong address exists at
/// the moment the mark is seen, the mark is ignored; the main loop looks
/// whether the actor is orphaned, and is at rest again if it is not.
pub proof fn lemma_last_address_ignored<E, B>(machine: Machine<E, B>, count: usize)
    requires
        idle(machine),
        count > 0,
    ensures
        ({
            let arrived = machine.step(
                Event::Received(Incoming::Address(AddressMessage::LastAddress)),
            ).unwrap();
            let polled = arrived.machine.step(Event::Polled(None)).unwrap();
            let counted = polled.machine.step(Event::StrongCount(count)).unwrap();
            let looked = counted.machine.step(Event::Orphaned(false)).unwrap();
            &&& counted.next == Next::<E, B>::Perform(Effect::Look)
            &&& looked.next == Next::<E, B>::Await(Action::Receive)
            &&& looked.machine == machine
        }),
{
}

/// The mark of the last address has all actors stopped if and only if no
/// strong address exists when the count is taken; otherwise the main loop
/// goes on.
pub proof fn lemma_count_decides<E, B>(machine: Machine<E, B>, count: usize)
    requires
        machine.phase is Counting,
        !(machine.running is Stopped),
    ensures
        machine.step(Event::StrongCount(count)).unwrap().next == Next::<E, B>::Perform(
            Effect::StopAll,
        ) <==> count == 0,
        count > 0 && machine.routine is Run ==> !(machine.step(
            Event::StrongCount(count),
        ).unwrap().machine.phase is Finished),
{
}

/// A finished routine takes no event: the `stopped` hook is asked for once.
pub proof fn lemma_finished_is_final<E, B>(machine: Machine<E, B>, event: Event<E, B>)
    requires
        machine.phase is Finished,
    ensures
        machine.step(event) is None,
{
}

/// The routine asks for the `stopped` hook in the very step in which it
/// finishes, and only the main loop asks for it.
pub proof fn lemma_stopped_ends_run<E, B>(machine: Machine<E, B>, event: Event<E, B>)
    ensures
        machine.step(event) matches Some(outcome) ==> (outcome.machine.phase is Finished <==> (
        outcome.next == Next::<E, B>::Await(Action::Stopped) || outcome.next == Next::<
            E,
            B,
        >::Await(Action::Done))),
        machine.step(event) matches Some(outcome) ==> (outcome.next == Next::<E, B>::Await(
            Action::Stopped,
        ) ==> machine.routine is Run),
{
}

/// A stop request: when a handler has called `stop`, the actor is asked
/// whether it wants to stop once the handler has returned and the self
/// notifications of the handler are dealt with.
pub proof fn lemma_stop_asks_the_actor<E, B>(machine: Machine<E, B>)
    requires
        machine.phase is HandlingEntry || machine.phase is HandlingNote,
        machine.running is Stopping,
        machine.notifications.len() == 0,
    ensures
        machine.step(Event::Handled).unwrap().next == Next::<E, B>::Await(Action::Stopping),
        machine.step(Event::Handled).unwrap().machine.phase is Arbitrating,
{
}

/// `StopAll`: the routine stops all actors on the address before it ends, and
/// it ends with the actor stopped.
pub proof fn lemma_stop_all_stops_everyone<E, B>(machine: Machine<E, B>)
    requires
        machine.phase is Arbitrating || machine.phase is StartArbitration,
        !(machine.running is Stopped),
    ensures
        ({
            let answered = machine.step(Event::Stopping(KeepRunning::StopAll)).unwrap();
            let stopped = answered.machine.step(Event::StoppedAll).unwrap();
            &&& answered.next == Next::<E, B>::Perform(Effect::StopAll)
            &&& stopped.machine.running is Stopped
            &&& stopped.machine.phase is Finished
            &&& stopped.next == machine.finish().next
        }),
{
}

/// `StopSelf`: the routine ends with the actor stopped, and the other actors
/// on the address are left alone.
pub proof fn lemma_stop_self_stops_one<E, B>(machine: Machine<E, B>)
    requires
        machine.phase is Arbitrating || machine.phase is StartArbitration,
        !(machine.running is Stopped),
    ensures
        ({
            let answered = machine.step(Event::Stopping(KeepRunning::StopSelf)).unwrap();
            &&& answered.next == machine.finish().next
            &&& answered.machine.running is Stopped
            &&& answered.machine.phase is Finished
        }),
{
}

/// `Yes`: the actor runs again. With nothing waiting, and the actor not
/// orphaned, the main loop is at rest.
pub proof fn lemma_keep_running_resumes<E, B>(machine: Machine<E, B>)
    requires
        machine.routine is Run,
        machine.phase is Arbitrating,
        machine.running is Stopping,
        machine.deferred is None,
        machine.notifications.len() == 0,
    ensures
        ({
            let answered = machine.step(Event::Stopping(KeepRunning::Yes)).unwrap();
            let looked = answered.machine.step(Event::Orphaned(false)).unwrap();
            &&& answered.next == Next::<E, B>::Perform(Effect::Look)
            &&& answered.machine.running is Running
            &&& looked.next == Next::<E, B>::Await(Action::Receive)
            &&& idle(looked.machine)
        }),
{
}

/// An orphaned actor stops: when the main loop is about to wait and finds
/// that no strong address is left and nothing waits in the mailbox, it stops
/// all actors on the address and asks for the `stopped` hook, as it does on
/// the mark of the last address. So an actor whose last address went while
/// its mailbox had no room for the mark stops once the mailbox is empty.
pub proof fn lemma_orphan_stops<E, B>(machine: Machine<E, B>)
    requires
        machine.routine is Run,
        machine.phase is HandlingEntry || machine.phase is HandlingNote,
        machine.running is Running,
        machine.deferred is None,
        machine.notifications.len() == 0,
    ensures
        ({
            let returned = machine.step(Event::Handled).unwrap();
            let looked = returned.machine.step(Event::Orphaned(true)).unwrap();
            let stopped = looked.machine.step(Event::StoppedAll).unwrap();
            &&& returned.next == Next::<E, B>::Perform(Effect::Look)
            &&& looked.next == Next::<E, B>::Perform(Effect::StopAll)
            &&& stopped.next == Next::<E, B>::Await(Action::Stopped)
            &&& stopped.machine.running is Stopped
            &&& stopped.machine.phase is Finished
        }),
{
}

/// The look comes before every wait: the main loop asks for the next entry
/// only in answer to the finding that the actor is not orphaned.
pub proof fn lemma_look_before_wait<E, B>(machine: Machine<E, B>, event: Event<E, B>)
    ensures
        machine.step(event) matches Some(outcome) ==> (outcome.next == Next::<E, B>::Await(
            Action::Receive,
        ) ==> event == Event::<E, B>::Orphaned(false) && machine.phase is Looking),
{
}

/// The order to shut down ends the routine with the actor stopped, wherever
/// it is found: as the entry that arrived, or in the look into the broadcast
/// queue.
pub proof fn lemma_shutdown_stops<E, B>(machine: Machine<E, B>, entry: Incoming<E, B>)
    requires
        idle(machine),
    ensures
        ({
            let arrived = machine.step(
                Event::Received(Incoming::Broadcast(BroadcastMessage::Shutdown)),
            ).unwrap();
            let polled = arrived.machine.step(Event::Polled(None)).unwrap();
            &&& polled.machine.running is Stopped
            &&& polled.next == Next::<E, B>::Await(Action::Stopped)
        }),
        ({
            let arrived = machine.step(Event::Received(entry)).unwrap();
            let polled = arrived.machine.step(
                Event::Polled(Some(BroadcastMessage::Shutdown)),
            ).unwrap();
            &&& polled.machine.running is Stopped
            &&& polled.next == Next::<E, B>::Await(Action::Stopped)
        }),
{
}

/// Broadcasts are not starved: a broadcast that waits when an envelope
/// arrives from the mailbox is handled before that envelope, and the envelope
/// right after it.
pub proof fn lemma_broadcast_goes_first<E, B>(machine: Machine<E, B>, envelope: E, broadcast: B)
    requires
        idle(machine),
    ensures
        ({
            let arrived = machine.step(
                Event::Received(Incoming::Address(AddressMessage::Message(envelope))),
            ).unwrap();
            let polled = arrived.machine.step(
                Event::Polled(Some(BroadcastMessage::Message(broadcast))),
            ).unwrap();
            let returned = polled.machine.step(Event::Handled).unwrap();
            let finished = returned.machine.step(Event::Handled).unwrap();
            let looked = finished.machine.step(Event::Orphaned(false)).unwrap();
            &&& arrived.next == Next::<E, B>::Await(Action::Poll)
            &&& polled.next == Next::<E, B>::Await(Action::HandleBroadcast(broadcast))
            &&& returned.next == Next::<E, B>::Await(Action::Handle(envelope))
            &&& finished.next == Next::<E, B>::Perform(Effect::Look)
            &&& looked.next == Next::<E, B>::Await(Action::Receive)
            &&& looked.machine == machine
        }),
{
}

/// Self notifications go first: while the actor runs and a self notification
/// waits, the step after a handler hands the notification that was queued
/// last to its handler, and no entry is awaited.
pub proof fn lemma_notifications_go_first<E, B>(machine: Machine<E, B>)
    requires
        machine.phase is HandlingEntry || machine.phase is HandlingNote,
        machine.running is Running,
        machine.takes_note(),
    ensures
        machine.step(Event::Handled).unwrap().next == Next::<E, B>::Await(
            Action::Handle(machine.notifications.last()),
        ),
        machine.step(Event::Handled).unwrap().machine.notifications
            == machine.notifications.drop_last(),
{
}

/// A routine never takes a handler's place: the lifecycle state is written
/// only by the answers to a stop request, by an order to shut down and by the
/// stop of all actors. Every other step leaves it as it is.
pub proof fn lemma_state_changes<E, B>(machine: Machine<E, B>, event: Event<E, B>)
    ensures
        machine.step(event) matches Some(outcome) ==> (outcome.machine.running
            == machine.running || event is Stopping || event is StoppedAll || (
        outcome.machine.running is Stopped && outcome.machine.phase is Finished)),
{
}

/// What `Phase` a step leaves behind depends on the routine only through its
/// end: a nested routine that finishes is done, the main loop is stopped.
pub proof fn lemma_finish_by_routine<E, B>(machine: Machine<E, B>)
    ensures
        machine.finish().next == Next::<E, B>::Await(Action::Stopped) <==> machine.routine is Run,
        machine.finish().machine.phase == Phase::Finished,
        machine.finish().machine.running == machine.running,
        machine.halt().machine.running == RunningState::Stopped,
{
}

/// One handler at a time: while a handler runs, the routine takes nothing
/// but the news that the handler has returned, so it asks for no second
/// handler and for no hook meanwhile.
pub proof fn lemma_one_handler_at_a_time<E, B>(machine: Machine<E, B>, event: Event<E, B>)
    requires
        machine.phase is HandlingEntry || machine.phase is HandlingNote,
        !(event is Handled),
    ensures
        machine.step(event) is None,
{
}

/// Once the actor is stopped, whatever the routine is told next ends it: no
/// handler and no hook but `stopped` is asked for.
pub proof fn lemma_stopped_actor_finishes<E, B>(machine: Machine<E, B>, event: Event<E, B>)
    requires
        machine.running is Stopped,
        machine.expects(event),
    ensures
        machine.step(event) == Some(machine.finish()),
{
}

/// What a routine is told, together with the state in which the hooks and
/// handlers that ran before have left the context.
pub struct Told<E, B> {
    pub running: RunningState,
    pub notifications: Seq<E>,
    pub event: Event<E, B>,
}

/// The step of a machine whose context was left in the state that comes with
/// the event.
pub open spec fn hear<E, B>(machine: Machine<E, B>, told: Told<E, B>) -> Option<Outcome<E, B>> {
    Machine { running: told.running, notifications: told.notifications, ..machine }.step(
        told.event,
    )
}

/// What a machine asks for, in order, when it is told one thing after the
/// other. What it refuses changes nothing and is left out.
pub open spec fn play<E, B>(machine: Machine<E, B>, heard: Seq<Told<E, B>>) -> Seq<Next<E, B>>
    decreases heard.len(),
{
    if heard.len() == 0 {
        Seq::empty()
    } else {
        match hear(machine, heard[0]) {
            Some(outcome) => seq![outcome.next] + play(outcome.machine, heard.skip(1)),
            None => play(machine, heard.skip(1)),
        }
    }
}

/// Whether a step ends its routine.
pub open spec fn ends<E, B>(next: Next<E, B>) -> bool {
    next matches Next::Await(Action::Stopped) || next matches Next::Await(Action::Done)
}

/// A finished routine asks for nothing more, whatever it is told.
pub proof fn lemma_finished_is_silent<E, B>(machine: Machine<E, B>, heard: Seq<Told<E, B>>)
    requires
        machine.phase is Finished,
    ensures
        play(machine, heard).len() == 0,
    decreases heard.len(),
{
    if heard.len() > 0 {
        lemma_finished_is_silent(machine, heard.skip(1));
    }
}

/// The end comes once, and last: whatever a routine is told, and whatever the
/// hooks and handlers do to the context in between, the `stopped` hook is
/// asked for at most once, and nothing is asked for after it.
pub proof fn lemma_end_comes_last<E, B>(machine: Machine<E, B>, heard: Seq<Told<E, B>>)
    ensures
        forall|i: int|
            0 <= i < play(machine, heard).len() && ends(#[trigger] play(machine, heard)[i]) ==> i
                == play(machine, heard).len() - 1,
    decreases heard.len(),
{
    if heard.len() > 0 {
        let rest = heard.skip(1);
        match hear(machine, heard[0]) {
            Some(outcome) => {
                let tuned = Machine {
                    running: heard[0].running,
                    notifications: heard[0].notifications,
                    ..machine
                };
                lemma_end_comes_last(outcome.machine, rest);
                if ends(outcome.next) {
                    lemma_stopped_ends_run(tuned, heard[0].event);
                    lemma_finished_is_silent(outcome.machine, rest);
                }
                let later = play(outcome.machine, rest);
                assert(play(machine, heard) == seq![outcome.next] + later);
                assert forall|i: int|
                    0 <= i < play(machine, heard).len() && ends(
                        #[trigger] play(machine, heard)[i],
                    ) implies i == play(machine, heard).len() - 1 by {
                    if i > 0 {
                        assert(play(machine, heard)[i] == later[i - 1]);
                    }
                }
            },
            None => {
                lemma_end_comes_last(machine, rest);
                assert(play(machine, heard) == play(machine, rest));
            },
        }
    }
}

} // verus!
