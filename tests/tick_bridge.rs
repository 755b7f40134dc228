use clock::bridge::{
    consumer_step, deliver_tick, event_of_send, producer_start, pending_ticks, producer_action, producer_step, tick_channel,
    ConsumerAction, ConsumerEvent, ConsumerState, ProducerAction, ProducerEvent, ProducerState,
    TICK_CHANNEL_CAPACITY, TICK_PERIOD_SECONDS,
};

#[test]
fn tick_channel_has_one_slot() {
    let (sender, _receiver) = tick_channel();
    assert_eq!(TICK_CHANNEL_CAPACITY, 1);
    assert_eq!(sender.capacity(), Some(1));
    assert_eq!(pending_ticks(&sender), 0);
}

#[test]
fn ticks_coalesce_into_one_pending() {
    let (sender, receiver) = tick_channel();
    assert_eq!(deliver_tick(&sender), ProducerEvent::Delivered);
    assert_eq!(pending_ticks(&sender), 1);
    for _ in 0..10 {
        assert!(sender.try_send(()).is_err());
        assert_eq!(pending_ticks(&sender), 1);
    }
    assert!(receiver.try_recv().is_ok());
    assert_eq!(pending_ticks(&sender), 0);
    assert!(receiver.try_recv().is_err());
}

#[test]
fn deliver_tick_sees_closed_channel() {
    let (sender, receiver) = tick_channel();
    drop(receiver);
    assert_eq!(deliver_tick(&sender), ProducerEvent::Closed);
    assert_eq!(pending_ticks(&sender), 0);
}

#[test]
fn producer_cycle() {
    assert_eq!(TICK_PERIOD_SECONDS, 5);
    let s = ProducerState::Sleeping;
    assert_eq!(producer_action(s), ProducerAction::Sleep);
    let s = producer_step(s, ProducerEvent::Woke);
    assert_eq!(s, ProducerState::Signaling);
    assert_eq!(producer_action(s), ProducerAction::Send);
    let s = producer_step(s, ProducerEvent::Delivered);
    assert_eq!(s, ProducerState::Sleeping);
}

#[test]
fn producer_stops_on_closed_channel() {
    let (sender, receiver) = tick_channel();
    drop(receiver);
    let mut s = ProducerState::Sleeping;
    let mut sleeps: u32 = 0;
    let mut steps: u32 = 0;
    while producer_action(s) != ProducerAction::Stop {
        let event = match producer_action(s) {
            ProducerAction::Sleep => {
                sleeps += 1;
                ProducerEvent::Woke
            }
            ProducerAction::Send => deliver_tick(&sender),
            ProducerAction::Stop => unreachable!(),
        };
        s = producer_step(s, event);
        steps += 1;
        assert!(steps <= 2);
    }
    assert_eq!(s, ProducerState::Stopped);
    assert_eq!(sleeps, 1);
}

#[test]
fn stopped_producer_stays_stopped() {
    for e in [ProducerEvent::Woke, ProducerEvent::Delivered, ProducerEvent::Closed] {
        assert_eq!(producer_step(ProducerState::Stopped, e), ProducerState::Stopped);
    }
    assert_eq!(producer_action(ProducerState::Stopped), ProducerAction::Stop);
}

#[test]
fn unexpected_producer_events_change_nothing() {
    assert_eq!(producer_step(ProducerState::Sleeping, ProducerEvent::Delivered), ProducerState::Sleeping);
    assert_eq!(producer_step(ProducerState::Sleeping, ProducerEvent::Closed), ProducerState::Sleeping);
    assert_eq!(producer_step(ProducerState::Signaling, ProducerEvent::Woke), ProducerState::Signaling);
}

#[test]
fn consumer_refreshes_once_per_tick_and_stops_on_close() {
    let (s, a) = consumer_step(ConsumerState::Waiting, ConsumerEvent::Tick);
    assert_eq!((s, a), (ConsumerState::Waiting, ConsumerAction::Refresh));
    let (s, a) = consumer_step(s, ConsumerEvent::Closed);
    assert_eq!((s, a), (ConsumerState::Stopped, ConsumerAction::Stop));
    let (s, a) = consumer_step(s, ConsumerEvent::Tick);
    assert_eq!((s, a), (ConsumerState::Stopped, ConsumerAction::Stop));
}

#[test]
fn send_outcome_maps_to_event() {
    assert_eq!(event_of_send(true), ProducerEvent::Delivered);
    assert_eq!(event_of_send(false), ProducerEvent::Closed);
}

#[test]
fn one_send_per_sleep_while_delivering() {
    let (sender, receiver) = tick_channel();
    let mut s = ProducerState::Sleeping;
    let mut sleeps: u32 = 0;
    let mut sends: u32 = 0;
    for _ in 0..6 {
        let event = match producer_action(s) {
            ProducerAction::Sleep => {
                sleeps += 1;
                ProducerEvent::Woke
            }
            ProducerAction::Send => {
                sends += 1;
                let e = deliver_tick(&sender);
                assert!(pending_ticks(&sender) <= 1);
                assert!(receiver.try_recv().is_ok());
                e
            }
            ProducerAction::Stop => unreachable!(),
        };
        s = producer_step(s, event);
        assert!(sends <= sleeps);
    }
    assert_eq!((sleeps, sends), (3, 3));
}

#[test]
fn producer_starts_asleep() {
    let s = producer_start();
    assert_eq!(s, ProducerState::Sleeping);
    assert_eq!(producer_action(s), ProducerAction::Sleep);
}

#[test]
fn blocked_send_and_full_slot_are_all_that_wait() {
    let (sender, receiver) = tick_channel();
    // consumer away: the first send fills the slot
    assert_eq!(deliver_tick(&sender), ProducerEvent::Delivered);
    // a further send would block; the slot stays at one
    assert!(sender.try_send(()).is_err());
    assert_eq!(pending_ticks(&sender), 1);
    // consumer returns: one tick in the slot, then the slot is free for the blocked one
    assert!(receiver.try_recv().is_ok());
    assert_eq!(deliver_tick(&sender), ProducerEvent::Delivered);
    assert!(receiver.try_recv().is_ok());
    assert!(receiver.try_recv().is_err());
}
