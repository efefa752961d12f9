use std::time::Duration;

use xtra::address::delivered;
use xtra::address::is_reachable;
use xtra::address::Disconnected;
use xtra::address::SendFailure;
use xtra::chan::unbounded_channel;
use xtra::context::ActorShutdown;
use xtra::context::Context;
use xtra::lifecycle::KeepRunning;
use xtra::lifecycle::RunningState;
use xtra::message::AddressMessage;
use xtra::message::Awaited;
use xtra::message::BroadcastMessage;
use xtra::message::Incoming;
use xtra::refcount::RefCount;
use xtra::stream::attach_stream;
use xtra::stream::StreamAction;
use xtra::stream::StreamEvent;
use xtra::timer::Timer;
use xtra::timer::TimerAction;
use xtra::timer::Wake;
use xtra::watchdog::Watchdog;
use xtra::watchdog::DEFAULT_PERIOD;

type Ctx = Context<u32, u32>;

/// Looks into the broadcast queue of the context, as a host does.
fn poll(ctx: &Ctx) -> Option<BroadcastMessage<u32>> {
    let found = ctx
        .broadcasts()
        .inner
        .try_recv()
        .map(|entry| entry.map(|boxed| *boxed))
        .map_err(|_| ());
    xtra::broadcast::entry_of(found)
}

/// Takes one entry without waiting, as a host does.
fn take(ctx: &Ctx) -> Option<Incoming<u32, u32>> {
    ctx.recv_once(poll(ctx))
}

#[test]
fn a_record_counts_strong_and_weak_addresses() {
    let mut count = RefCount::new();
    assert_eq!(count.strong_count(), 1);
    assert_eq!(count.weak_count(), 0);
    assert!(count.is_connected());

    count.acquire_strong();
    count.acquire_strong();
    count.acquire_weak();
    assert_eq!(count.strong_count(), 3);
    assert_eq!(count.weak_count(), 1);

    assert!(!count.release_strong());
    assert!(!count.release_strong());
    assert!(count.release_strong());
    assert_eq!(count.strong_count(), 0);
    // Nothing is left to release.
    assert!(!count.release_strong());
    assert_eq!(count.strong_count(), 0);

    count.release_weak();
    count.release_weak();
    assert_eq!(count.weak_count(), 0);
}

#[test]
fn a_record_upgrades_while_a_strong_address_exists_and_it_is_connected() {
    let mut count = RefCount::new();
    assert!(count.upgrade());
    assert_eq!(count.strong_count(), 2);

    count.mark_disconnected();
    assert!(!count.is_connected());
    assert!(!count.upgrade());
    assert_eq!(count.strong_count(), 2);
    count.acquire_strong();
    assert!(!count.upgrade());
    assert!(!count.is_connected());

    let mut gone = RefCount::new();
    assert!(gone.release_strong());
    assert!(!gone.upgrade());
    assert_eq!(gone.strong_count(), 0);
    assert!(gone.is_connected());
}

#[test]
fn addresses_share_one_record() {
    let (address, ctx) = Ctx::new(None);
    let weak = address.downgrade();
    assert_eq!(ctx.strong_count(), 1);
    assert!(weak.is_connected());

    let second = weak.upgrade().unwrap();
    assert_eq!(ctx.strong_count(), 2);
    let third = second.clone();
    assert_eq!(ctx.strong_count(), 3);
    drop(third);
    assert_eq!(ctx.strong_count(), 2);
    assert!(!second.release());
    assert_eq!(ctx.strong_count(), 1);

    let other_weak = weak.clone();
    assert!(address.release());
    assert_eq!(ctx.strong_count(), 0);
    assert!(!weak.is_connected());
    assert!(weak.upgrade().is_none());
    assert!(other_weak.upgrade().is_none());
    assert_eq!(ctx.strong_count(), 0);
}

#[test]
fn a_disconnected_address_upgrades_no_more() {
    let (address, mut ctx) = Ctx::new(None);
    let weak = address.downgrade();
    assert!(address.is_connected());
    ctx.stop_all();
    assert!(!address.is_connected());
    assert!(!weak.is_connected());
    assert!(weak.upgrade().is_none());
    assert_eq!(ctx.strong_count(), 1);
    assert!(!address.clone().is_connected());
    assert_eq!(ctx.strong_count(), 1);
}

#[test]
fn a_new_context_runs_and_holds_no_notification() {
    let (address, mut ctx) = Ctx::new(Some(4));
    assert_eq!(ctx.state(), RunningState::Running);
    assert!(!ctx.has_notifications());
    assert!(ctx.handle_self_notification().is_none());
    assert!(take(&ctx).is_none());
    assert!(poll(&ctx).is_none());
    assert_eq!(ctx.strong_count(), 1);
    assert!(address.is_connected());
    assert!(!address.join());
    assert_eq!(address.mailbox().capacity(), Some(4));

    let (address, ctx) = Ctx::new(None);
    assert_eq!(address.mailbox().capacity(), None);
    assert_eq!(ctx.mailbox().capacity(), None);
}

#[test]
fn stop_moves_the_state_to_stopping() {
    let (_address, mut ctx) = Ctx::new(None);
    ctx.notify(3);
    ctx.stop();
    assert_eq!(ctx.state(), RunningState::Stopping);
    assert!(ctx.has_notifications());
    assert!(matches!(ctx.handle_self_notification(), Some(3)));
}

#[test]
fn a_context_gives_out_addresses_while_a_strong_one_exists() {
    let (address, ctx) = Ctx::new(None);
    let second = ctx.address().ok().unwrap();
    assert_eq!(ctx.strong_count(), 2);
    second.send(5).ok().unwrap();
    assert!(matches!(
        take(&ctx),
        Some(Incoming::Address(AddressMessage::Message(5)))
    ));
    drop(second);
    assert_eq!(ctx.strong_count(), 1);
    drop(address);
    assert_eq!(ctx.strong_count(), 0);
    assert_eq!(ctx.address().err(), Some(ActorShutdown));
    assert!(matches!(
        take(&ctx),
        Some(Incoming::Address(AddressMessage::LastAddress))
    ));
}

#[test]
fn actor_shutdown_says_what_it_is() {
    assert_eq!(ActorShutdown.to_string(), "Actor is shutting down");
}

#[test]
fn envelopes_leave_the_mailbox_in_the_order_of_sending() {
    let (address, ctx) = Ctx::new(None);
    let weak = address.downgrade();
    for envelope in 0..20u32 {
        if envelope % 2 == 0 {
            address.send(envelope).ok().unwrap();
        } else {
            weak.do_send(envelope).ok().unwrap();
        }
    }
    for envelope in 0..20u32 {
        match take(&ctx) {
            Some(Incoming::Address(AddressMessage::Message(taken))) => assert_eq!(taken, envelope),
            other => panic!("unexpected {other:?}"),
        }
    }
    assert!(take(&ctx).is_none());
}

#[test]
fn a_full_mailbox_gives_the_envelope_back() {
    let (address, ctx) = Ctx::new(Some(2));
    address.send(1).ok().unwrap();
    address.send(2).ok().unwrap();
    match address.send(3) {
        Err(SendFailure::Full(back)) => assert_eq!(back, 3),
        other => panic!("unexpected {other:?}"),
    }
    assert!(matches!(
        take(&ctx),
        Some(Incoming::Address(AddressMessage::Message(1)))
    ));
    address.send(3).ok().unwrap();
    assert!(matches!(address.send(4), Err(SendFailure::Full(4))));
}

#[test]
fn a_mailbox_without_an_actor_is_disconnected() {
    let (address, ctx) = Ctx::new(None);
    let weak = address.downgrade();
    drop(ctx);
    assert!(!address.is_connected());
    assert!(address.join());
    assert!(matches!(address.send(1), Err(SendFailure::Disconnected)));
    assert!(matches!(address.do_send(1), Err(SendFailure::Disconnected)));
    assert!(matches!(weak.do_send(1), Err(SendFailure::Disconnected)));
    assert!(!weak.is_connected());
}

#[test]
fn stop_all_disconnects_shuts_down_and_empties_the_mailbox() {
    let (address, mut ctx) = Ctx::new(None);
    let mut other = ctx.attach();
    address.send(1).ok().unwrap();
    address.send(2).ok().unwrap();
    ctx.notify(9);
    ctx.stop_all();
    assert_eq!(ctx.state(), RunningState::Running);
    assert!(ctx.has_notifications());
    assert!(!address.is_connected());
    assert!(matches!(address.send(3), Err(SendFailure::Disconnected)));
    assert!(ctx.address().is_err());
    assert!(matches!(
        take(&ctx),
        Some(Incoming::Broadcast(BroadcastMessage::Shutdown))
    ));
    assert!(take(&ctx).is_none());
    assert!(matches!(
        poll(&other),
        Some(BroadcastMessage::Shutdown)
    ));
    assert!(take(&other).is_none());
    other.stop();
}

#[test]
fn attached_actors_steal_from_one_mailbox_and_each_hears_every_broadcast() {
    let (address, mut first) = Ctx::new(None);
    let mut second = first.attach();
    assert_eq!(second.state(), RunningState::Running);
    assert!(!second.has_notifications());

    for envelope in 1..=4u32 {
        address.send(envelope).ok().unwrap();
    }
    let mut taken = Vec::new();
    for turn in 0..4 {
        let ctx = if turn % 2 == 0 { &first } else { &second };
        match take(&ctx) {
            Some(Incoming::Address(AddressMessage::Message(envelope))) => taken.push(envelope),
            other => panic!("unexpected {other:?}"),
        }
    }
    assert_eq!(taken, vec![1, 2, 3, 4]);
    assert!(take(&first).is_none());
    assert!(take(&second).is_none());

    first.notify_all(7);
    second.notify_all(8);
    for ctx in [&first, &second] {
        assert!(matches!(
            poll(ctx),
            Some(BroadcastMessage::Message(7))
        ));
        assert!(matches!(
            poll(&ctx),
            Some(BroadcastMessage::Message(8))
        ));
        assert!(poll(&ctx).is_none());
    }

    // A self notification belongs to one context only.
    first.notify(1);
    assert!(!second.has_notifications());
    second.stop();
    assert_eq!(first.state(), RunningState::Running);
}

#[test]
fn a_broadcast_is_taken_before_an_envelope() {
    let (address, mut ctx) = Ctx::new(None);
    address.send(1).ok().unwrap();
    ctx.notify_all(2);
    assert!(matches!(
        take(&ctx),
        Some(Incoming::Broadcast(BroadcastMessage::Message(2)))
    ));
    assert!(matches!(
        take(&ctx),
        Some(Incoming::Address(AddressMessage::Message(1)))
    ));
}

#[test]
fn a_timer_notifies_once_or_at_every_interval() {
    let (address, mut ctx) = Ctx::new(None);
    let after = ctx.notify_after(Duration::from_millis(5)).ok().unwrap();
    assert!(!after.repeats());
    assert_eq!(*after.period(), Duration::from_millis(5));
    assert_eq!(after.wake(Wake::Elapsed), TimerAction::Deliver);
    assert_eq!(after.wake(Wake::ContextDropped), TimerAction::Finish);
    assert_eq!(after.notify(1), Ok(TimerAction::Finish));
    assert_eq!(after.after_send(Ok(())), TimerAction::Finish);
    assert_eq!(after.after_send(Err(Disconnected)), TimerAction::Finish);

    let interval = ctx.notify_interval(Duration::from_secs(1)).ok().unwrap();
    assert!(interval.repeats());
    assert_eq!(*interval.period(), Duration::from_secs(1));
    assert_eq!(interval.wake(Wake::Elapsed), TimerAction::Deliver);
    assert_eq!(interval.wake(Wake::ContextDropped), TimerAction::Finish);
    assert_eq!(interval.notify(2), Ok(TimerAction::Wait));
    assert_eq!(interval.notify(3), Ok(TimerAction::Wait));
    assert_eq!(interval.after_send(Ok(())), TimerAction::Wait);
    assert_eq!(interval.after_send(Err(Disconnected)), TimerAction::Finish);

    // A timer holds no strong address.
    assert_eq!(ctx.strong_count(), 1);
    for envelope in 1..=3u32 {
        match take(&ctx) {
            Some(Incoming::Address(AddressMessage::Message(taken))) => assert_eq!(taken, envelope),
            other => panic!("unexpected {other:?}"),
        }
    }

    // Once the actor cannot be reached, the timer ends.
    drop(address);
    assert_eq!(interval.notify(4), Ok(TimerAction::Finish));
    assert!(ctx.notify_after(Duration::from_millis(5)).is_err());
    assert_eq!(
        ctx.notify_interval(Duration::from_millis(5)).err(),
        Some(ActorShutdown)
    );
}

#[test]
fn a_watchdog_adds_up_its_periods() {
    assert_eq!(DEFAULT_PERIOD, 10);
    let mut watch = Watchdog::new(DEFAULT_PERIOD);
    assert_eq!(watch.period(), 10);
    assert_eq!(watch.tick(), 10);
    assert_eq!(watch.tick(), 20);
    assert_eq!(watch.tick(), 30);
    assert_eq!(watch.period(), 10);

    let mut long = Watchdog::new(u64::MAX - 1);
    assert_eq!(long.tick(), u64::MAX - 1);
    assert_eq!(long.tick(), u64::MAX);
    assert_eq!(long.tick(), u64::MAX);

    let mut still = Watchdog::new(0);
    assert_eq!(still.tick(), 0);
}

#[test]
fn a_channel_hands_values_over_in_order() {
    let (tx, rx) = unbounded_channel();
    assert!(rx.recv().is_none());
    tx.send("a");
    tx.send("b");
    let other = tx.clone();
    other.send("c");
    assert_eq!(rx.recv(), Some("a"));
    assert_eq!(other.recv(), Some("b"));
    assert_eq!(tx.recv(), Some("c"));
    assert_eq!(rx.recv(), None);
    rx.send("d");
    assert_eq!(tx.recv(), Some("d"));
}

#[test]
fn an_attached_stream_goes_on_while_handlers_say_yes() {
    assert_eq!(attach_stream(StreamEvent::Item), StreamAction::Send);
    assert_eq!(
        attach_stream(StreamEvent::Answered(KeepRunning::Yes)),
        StreamAction::Wait
    );
    assert_eq!(
        attach_stream(StreamEvent::Answered(KeepRunning::StopSelf)),
        StreamAction::Detach
    );
    assert_eq!(
        attach_stream(StreamEvent::Answered(KeepRunning::StopAll)),
        StreamAction::Detach
    );
    assert_eq!(attach_stream(StreamEvent::Ended), StreamAction::Detach);
    assert_eq!(attach_stream(StreamEvent::ActorStopped), StreamAction::Detach);
    assert_eq!(
        attach_stream(StreamEvent::Refused(Disconnected)),
        StreamAction::Detach
    );
}

#[test]
fn a_notice_fires_when_its_context_is_dropped() {
    let (_address, ctx) = Ctx::new(None);
    let first = ctx.drop_notice();
    let second = first.clone();
    assert!(!first.fired());
    assert!(!second.fired());
    assert!(first.listener().try_recv().is_err());
    drop(ctx);
    assert!(first.fired());
    assert!(second.fired());
    assert!(first.clone().fired());
    assert!(matches!(
        first.listener().try_recv(),
        Err(flume::TryRecvError::Disconnected)
    ));
}

#[test]
fn a_timer_is_cancelled_by_the_end_of_its_context() {
    let (_address, mut ctx) = Ctx::new(None);
    let mut attached = ctx.attach();
    let timer = ctx.notify_interval(Duration::from_secs(1)).ok().unwrap();
    let other = attached.notify_after(Duration::from_secs(1)).ok().unwrap();
    assert_eq!(timer.cancelled(), None);
    assert!(!timer.stopped().fired());
    assert!(!ctx.drop_notice().fired());
    drop(ctx);
    assert_eq!(timer.cancelled(), Some(Wake::ContextDropped));
    assert!(timer.stopped().fired());
    assert_eq!(timer.wake(timer.cancelled().unwrap()), TimerAction::Finish);
    // The timer of the other context goes on.
    assert_eq!(other.cancelled(), None);
    assert_eq!(other.notify(1), Ok(TimerAction::Finish));
    assert!(matches!(
        take(&attached),
        Some(Incoming::Address(AddressMessage::Message(1)))
    ));
}

#[test]
fn join_waits_for_the_last_context_on_the_address() {
    let (address, mut ctx) = Ctx::new(None);
    let attached = ctx.attach();
    let weak = address.downgrade();
    let notice = address.disconnect_notice();
    assert!(!address.join());
    drop(ctx);
    assert!(!address.join());
    assert!(!weak.join());
    assert!(address.is_connected());
    drop(attached);
    assert!(address.join());
    assert!(weak.join());
    assert!(notice.fired());
    assert!(weak.disconnect_notice().fired());
    assert!(!address.is_connected());
}

#[test]
fn an_actor_is_reached_through_an_open_mailbox_and_a_willing_record() {
    assert!(is_reachable(false, true));
    assert!(!is_reachable(true, true));
    assert!(!is_reachable(false, false));
    assert!(!is_reachable(true, false));
}

#[test]
fn a_send_that_waited_was_delivered_or_found_the_actor_gone() {
    assert_eq!(delivered::<u32>(Ok(())), Ok(()));
    assert_eq!(
        delivered(Err(flume::SendError(AddressMessage::Message(5u32)))),
        Err(Disconnected)
    );
    assert_eq!(
        delivered::<u32>(Err(flume::SendError(AddressMessage::LastAddress))),
        Err(Disconnected)
    );
}

#[test]
fn a_look_at_the_notice_never_reports_the_delay() {
    assert_eq!(Timer::<u32>::woken_by(true), Some(Wake::ContextDropped));
    assert_eq!(Timer::<u32>::woken_by(false), None);
}

#[test]
fn a_record_says_whether_it_can_be_upgraded() {
    let mut count = RefCount::new();
    assert!(count.can_upgrade());
    count.acquire_strong();
    assert!(count.can_upgrade());
    count.mark_disconnected();
    assert!(!count.can_upgrade());

    let mut gone = RefCount::new();
    assert!(gone.release_strong());
    assert!(!gone.can_upgrade());
}

#[test]
fn what_an_address_shares_is_what_its_context_holds() {
    let (address, mut ctx) = Ctx::new(None);
    let attached = ctx.attach();
    let weak = address.downgrade();
    let upgraded = weak.upgrade().unwrap();
    let made = attached.address().ok().unwrap();
    let timer = ctx.notify_interval(Duration::from_secs(1)).ok().unwrap();
    for end in [address.mailbox(), upgraded.mailbox(), made.mailbox()] {
        assert!(end.same_channel(address.mailbox()));
    }
    assert!(ctx.mailbox().same_channel(attached.mailbox()));
    // one record: every strong address is counted where the context looks
    assert_eq!(ctx.strong_count(), 3);
    assert_eq!(attached.strong_count(), 3);
    drop(made);
    drop(upgraded);
    assert_eq!(ctx.strong_count(), 1);
    // one notice for the actors, one for each context
    assert!(timer.stopped().listener().same_channel(ctx.drop_notice().listener()));
    assert!(!timer.stopped().listener().same_channel(attached.drop_notice().listener()));
    assert!(address
        .disconnect_notice()
        .listener()
        .same_channel(weak.disconnect_notice().listener()));
    assert!(!address
        .disconnect_notice()
        .listener()
        .same_channel(ctx.drop_notice().listener()));
}

#[test]
fn a_wait_that_failed_counts_as_the_order_to_shut_down() {
    assert!(matches!(
        Incoming::<u32, u32>::awaited(Awaited::Address(Some(AddressMessage::Message(4)))),
        Incoming::Address(AddressMessage::Message(4))
    ));
    assert!(matches!(
        Incoming::<u32, u32>::awaited(Awaited::Address(Some(AddressMessage::LastAddress))),
        Incoming::Address(AddressMessage::LastAddress)
    ));
    assert!(matches!(
        Incoming::<u32, u32>::awaited(Awaited::Broadcast(Some(BroadcastMessage::Message(6)))),
        Incoming::Broadcast(BroadcastMessage::Message(6))
    ));
    assert!(matches!(
        Incoming::<u32, u32>::awaited(Awaited::Broadcast(Some(BroadcastMessage::Shutdown))),
        Incoming::Broadcast(BroadcastMessage::Shutdown)
    ));
    assert!(matches!(
        Incoming::<u32, u32>::awaited(Awaited::Address(None)),
        Incoming::Broadcast(BroadcastMessage::Shutdown)
    ));
    assert!(matches!(
        Incoming::<u32, u32>::awaited(Awaited::Broadcast(None)),
        Incoming::Broadcast(BroadcastMessage::Shutdown)
    ));
}

#[test]
fn a_mailbox_with_the_largest_capacity_has_no_limit() {
    let (address, ctx) = Ctx::new(Some(usize::MAX));
    assert_eq!(address.mailbox().capacity(), None);
    assert!(take(&ctx).is_none());
    address.send(1).ok().unwrap();
    address.send(2).ok().unwrap();
    assert!(matches!(
        take(&ctx),
        Some(Incoming::Address(AddressMessage::Message(1)))
    ));
    drop(address);
    assert!(matches!(
        take(&ctx),
        Some(Incoming::Address(AddressMessage::Message(2)))
    ));
    assert!(matches!(
        take(&ctx),
        Some(Incoming::Address(AddressMessage::LastAddress))
    ));

    let (address, ctx) = Ctx::new(Some(usize::MAX - 1));
    assert_eq!(address.mailbox().capacity(), Some(usize::MAX - 1));
    assert!(take(&ctx).is_none());

    let (address, ctx) = Ctx::new(Some(0));
    assert_eq!(address.mailbox().capacity(), Some(0));
    assert!(take(&ctx).is_none());
}

#[test]
fn a_full_mailbox_is_not_waited_for() {
    let (address, mut ctx) = Ctx::new(Some(1));
    let weak = address.downgrade();
    let timer = ctx.notify_interval(Duration::from_secs(1)).ok().unwrap();
    assert_eq!(ctx.message_cap(), Some(1));
    address.do_send(1).ok().unwrap();
    assert!(matches!(address.do_send(2), Err(SendFailure::Full(2))));
    assert!(matches!(weak.do_send(3), Err(SendFailure::Full(3))));
    assert!(weak.mailbox().same_channel(address.mailbox()));
    // From a full mailbox the timer gets its envelope back; the host waits
    // for room with it and tells the timer how that went.
    assert_eq!(timer.notify(4), Err(4));
    assert!(timer.address().mailbox().same_channel(address.mailbox()));
    assert_eq!(timer.after_attempt(Err(SendFailure::Full(5))), Err(5));
    assert_eq!(timer.after_attempt(Ok(())), Ok(TimerAction::Wait));
    assert_eq!(
        timer.after_attempt(Err(SendFailure::Disconnected)),
        Ok(TimerAction::Finish)
    );
    assert_eq!(timer.after_send(delivered::<u32>(Ok(()))), TimerAction::Wait);
    // The last address goes: nothing waits for room, the mark is left out.
    assert!(address.release());
    assert!(matches!(
        take(&ctx),
        Some(Incoming::Address(AddressMessage::Message(1)))
    ));
    assert!(take(&ctx).is_none());
    assert!(ctx.orphaned());
}

#[test]
fn an_actor_is_orphaned_without_addresses_and_entries() {
    assert!(xtra::context::is_orphaned(0, true));
    assert!(!xtra::context::is_orphaned(0, false));
    assert!(!xtra::context::is_orphaned(1, true));
    assert!(!xtra::context::is_orphaned(3, false));

    let (address, ctx) = Ctx::new(None);
    assert!(!ctx.orphaned());
    address.send(1).ok().unwrap();
    drop(address);
    // the envelope and the mark wait
    assert!(!ctx.orphaned());
    take(&ctx).unwrap();
    assert!(!ctx.orphaned());
    take(&ctx).unwrap();
    assert!(ctx.orphaned());
}

#[test]
fn the_limit_of_a_mailbox_is_its_capacity_but_for_the_largest() {
    assert_eq!(xtra::context::limit_of(None), None);
    assert_eq!(xtra::context::limit_of(Some(0)), Some(0));
    assert_eq!(xtra::context::limit_of(Some(7)), Some(7));
    assert_eq!(xtra::context::limit_of(Some(usize::MAX - 1)), Some(usize::MAX - 1));
    assert_eq!(xtra::context::limit_of(Some(usize::MAX)), None);
    for cap in [None, Some(0), Some(7), Some(usize::MAX)] {
        let (address, mut ctx) = Ctx::new(cap);
        assert_eq!(ctx.message_cap(), xtra::context::limit_of(cap));
        assert_eq!(address.mailbox().capacity(), ctx.message_cap());
        assert_eq!(ctx.attach().message_cap(), ctx.message_cap());
    }
}

#[test]
fn a_lookout_makes_up_for_a_mark_that_found_no_room() {
    assert!(matches!(
        xtra::context::mark_for::<u32>(true),
        Some(AddressMessage::LastAddress)
    ));
    assert!(xtra::context::mark_for::<u32>(false).is_none());

    // a mailbox without room: no address can leave its mark in it
    let (address, ctx) = Ctx::new(Some(0));
    let lookout = ctx.lookout();
    assert!(!lookout.orphaned());
    assert!(lookout.missed().is_none());
    drop(address);
    assert!(take(&ctx).is_none());
    assert!(lookout.orphaned());
    assert!(matches!(lookout.missed(), Some(AddressMessage::LastAddress)));

    // a mailbox with room: the mark waits in it, and nothing is made up
    let (address, ctx) = Ctx::new(Some(1));
    let lookout = ctx.lookout();
    drop(address);
    assert!(lookout.missed().is_none());
    assert!(matches!(
        take(&ctx),
        Some(Incoming::Address(AddressMessage::LastAddress))
    ));
    assert!(matches!(lookout.missed(), Some(AddressMessage::LastAddress)));
}
