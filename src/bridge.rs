//! The bridge from a background timer to the UI thread: a bounded channel of
//! one slot, the producer's sleep/send loop and the consumer's receive loop,
//! each as a machine from state and event to next state and action.

use vstd::prelude::*;

use async_channel::{Receiver, Sender};

verus! {

/// Seconds the producer sleeps between ticks.
pub const TICK_PERIOD_SECONDS: u64 = 5;

/// Slots in the tick channel: at most this many ticks wait at any instant.
pub const TICK_CHANNEL_CAPACITY: usize = 1;

#[verifier::external_type_specification]
#[verifier::external_body]
#[verifier::reject_recursive_types(T)]
pub struct ExSender<T>(async_channel::Sender<T>);

#[verifier::external_type_specification]
#[verifier::external_body]
#[verifier::reject_recursive_types(T)]
pub struct ExReceiver<T>(async_channel::Receiver<T>);

/// The capacity that the channel behind a sender was made with; `None` for an
/// unbounded channel. Fixed for the channel's lifetime.
pub uninterp spec fn tick_bound(s: async_channel::Sender<()>) -> Option<nat>;

/// Relies on `async_channel::bounded`: a channel of `cap` slots (it panics on 0).
#[verifier::external_body]
fn bounded_channel(cap: usize) -> (r: (Sender<()>, Receiver<()>))
    requires
        cap > 0,
    ensures
        tick_bound(r.0) == Some(cap as nat),
{
    async_channel::bounded(cap)
}

/// Relies on `async_channel::Sender::len`: the messages waiting in the channel.
/// A channel of one slot is backed by concurrent-queue's `Single`, whose length is 0 or 1.
#[verifier::external_body]
fn channel_len(s: &Sender<()>) -> (r: usize)
    ensures
        tick_bound(*s) == Some(1nat) ==> r <= 1,
{
    s.len()
}

/// Relies on `async_channel::Sender::send_blocking`: waits for a free slot and
/// puts the tick there (`true`), or finds the channel closed (`false`). The
/// outcome depends on the other thread.
#[verifier::external_body]
fn send_tick_blocking(s: &Sender<()>) -> (r: bool) {
    s.send_blocking(()).is_ok()
}

/// A new tick channel, with one slot.
pub fn tick_channel() -> (r: (Sender<()>, Receiver<()>))
    ensures
        tick_bound(r.0) == Some(TICK_CHANNEL_CAPACITY as nat),
{
    bounded_channel(TICK_CHANNEL_CAPACITY)
}

/// Ticks waiting in a tick channel: never more than one, however many the
/// producer has tried to send.
pub fn pending_ticks(sender: &Sender<()>) -> (r: usize)
    requires
        tick_bound(*sender) == Some(TICK_CHANNEL_CAPACITY as nat),
    ensures
        r <= TICK_CHANNEL_CAPACITY,
{
    channel_len(sender)
}

/// Where the background producer stands.
#[derive(Clone, Copy, Debug, PartialEq, Eq, Structural)]
pub enum ProducerState {
    /// Waiting out one tick period.
    Sleeping,
    /// About to put a tick into the channel.
    Signaling,
    /// The channel was found closed: the producer has ended for good.
    Stopped,
}

/// What the producer learns from the work it last did.
#[derive(Clone, Copy, Debug, PartialEq, Eq, Structural)]
pub enum ProducerEvent {
    /// The sleep is over.
    Woke,
    /// The tick went into the channel.
    Delivered,
    /// The channel is closed: the consuming end is gone.
    Closed,
}

/// The work that the producer does next.
#[derive(Clone, Copy, Debug, PartialEq, Eq, Structural)]
pub enum ProducerAction {
    /// Sleep for one tick period.
    Sleep,
    /// Send a tick, waiting for a free slot.
    Send,
    /// Do nothing more.
    Stop,
}

pub open spec fn producer_action_of(s: ProducerState) -> ProducerAction {
    match s {
        ProducerState::Sleeping => ProducerAction::Sleep,
        ProducerState::Signaling => ProducerAction::Send,
        ProducerState::Stopped => ProducerAction::Stop,
    }
}

/// The producer's next state. An event that does not answer the state's action
/// leaves the state as it is.
pub open spec fn producer_next(s: ProducerState, e: ProducerEvent) -> ProducerState {
    match (s, e) {
        (ProducerState::Sleeping, ProducerEvent::Woke) => ProducerState::Signaling,
        (ProducerState::Signaling, ProducerEvent::Delivered) => ProducerState::Sleeping,
        (ProducerState::Signaling, ProducerEvent::Closed) => ProducerState::Stopped,
        _ => s,
    }
}

/// The producer's first state: it sleeps one tick period before its first send.
pub fn producer_start() -> (r: ProducerState)
    ensures
        r == ProducerState::Sleeping,
        producer_action_of(r) == ProducerAction::Sleep,
{
    ProducerState::Sleeping
}

/// One step of the producer while the consumer takes nothing from the channel:
/// a sleep ends; a send into the free slot fills it; a send into the full slot
/// blocks, and nothing changes. The second component is whether the slot is full.
pub open spec fn away_step(s: ProducerState, slot_full: bool) -> (ProducerState, bool) {
    match producer_action_of(s) {
        ProducerAction::Sleep => (producer_next(s, ProducerEvent::Woke), slot_full),
        ProducerAction::Send => if slot_full {
            (s, true)
        } else {
            (producer_next(s, ProducerEvent::Delivered), true)
        },
        ProducerAction::Stop => (s, slot_full),
    }
}

/// The producer's state and the slot after `n` steps with the consumer away.
pub open spec fn away_run(s: ProducerState, slot_full: bool, n: nat) -> (ProducerState, bool)
    decreases n,
{
    if n == 0 {
        (s, slot_full)
    } else {
        let next = away_step(s, slot_full);
        away_run(next.0, next.1, (n - 1) as nat)
    }
}

/// The ticks that went into the channel during `n` steps with the consumer away.
pub open spec fn away_deliveries(s: ProducerState, slot_full: bool, n: nat) -> nat
    decreases n,
{
    if n == 0 {
        0
    } else {
        let next = away_step(s, slot_full);
        (if producer_action_of(s) == ProducerAction::Send && !slot_full {
            1nat
        } else {
            0nat
        }) + away_deliveries(next.0, next.1, (n - 1) as nat)
    }
}

/// The ticks waiting for the consumer: the one in the slot, if it is full, and
/// the one the producer is blocked on, if it is sending into a full slot.
pub open spec fn ticks_waiting(s: ProducerState, slot_full: bool) -> nat {
    (if slot_full {
        1nat
    } else {
        0nat
    }) + (if slot_full && s == ProducerState::Signaling {
        1nat
    } else {
        0nat
    })
}

/// However long the consumer stays away, at most one tick goes into the
/// one-slot channel, the slot is full exactly when one did, and no more than
/// two ticks ever wait for the consumer (the slot and one blocked send): on
/// its return it refreshes at most twice before the producer's next sleep ends.
pub proof fn lemma_no_growth_while_consumer_away(s: ProducerState, slot_full: bool, n: nat)
    ensures
        away_deliveries(s, slot_full, n) <= if slot_full { 0nat } else { 1nat },
        away_run(s, slot_full, n).1 == (slot_full || away_deliveries(s, slot_full, n) == 1),
        ticks_waiting(away_run(s, slot_full, n).0, away_run(s, slot_full, n).1) <= 2,
    decreases n,
{
    if n > 0 {
        let next = away_step(s, slot_full);
        lemma_no_growth_while_consumer_away(next.0, next.1, (n - 1) as nat);
    }
}

/// The work that the producer does in state `s`.
pub fn producer_action(s: ProducerState) -> (r: ProducerAction)
    ensures
        r == producer_action_of(s),
{
    match s {
        ProducerState::Sleeping => ProducerAction::Sleep,
        ProducerState::Signaling => ProducerAction::Send,
        ProducerState::Stopped => ProducerAction::Stop,
    }
}

/// The producer's state after event `e` in state `s`.
pub fn producer_step(s: ProducerState, e: ProducerEvent) -> (r: ProducerState)
    ensures
        r == producer_next(s, e),
{
    match (s, e) {
        (ProducerState::Sleeping, ProducerEvent::Woke) => ProducerState::Signaling,
        (ProducerState::Signaling, ProducerEvent::Delivered) => ProducerState::Sleeping,
        (ProducerState::Signaling, ProducerEvent::Closed) => ProducerState::Stopped,
        _ => s,
    }
}

/// The event that answers action `a` once the consuming end is gone: a sleep
/// still ends, and a send finds the channel closed.
pub open spec fn closed_response(a: ProducerAction) -> ProducerEvent {
    match a {
        ProducerAction::Sleep => ProducerEvent::Woke,
        _ => ProducerEvent::Closed,
    }
}

/// The producer's state after `n` steps once the consuming end is gone.
pub open spec fn closed_run(s: ProducerState, n: nat) -> ProducerState
    decreases n,
{
    if n == 0 {
        s
    } else {
        closed_run(producer_next(s, closed_response(producer_action_of(s))), (n - 1) as nat)
    }
}

/// The sleeps among the producer's first `n` steps once the consuming end is gone.
pub open spec fn closed_run_sleeps(s: ProducerState, n: nat) -> nat
    decreases n,
{
    if n == 0 {
        0
    } else {
        (if producer_action_of(s) == ProducerAction::Sleep {
            1nat
        } else {
            0nat
        }) + closed_run_sleeps(producer_next(s, closed_response(producer_action_of(s))), (n - 1) as nat)
    }
}

/// The actions other than `Stop` among the producer's first `n` steps once the
/// consuming end is gone.
pub open spec fn closed_run_work(s: ProducerState, n: nat) -> nat
    decreases n,
{
    if n == 0 {
        0
    } else {
        (if producer_action_of(s) != ProducerAction::Stop {
            1nat
        } else {
            0nat
        }) + closed_run_work(producer_next(s, closed_response(producer_action_of(s))), (n - 1) as nat)
    }
}

/// A stopped producer stays stopped and does no more work, whatever happens.
pub proof fn lemma_stopped_is_final(e: ProducerEvent, n: nat)
    ensures
        producer_action_of(ProducerState::Stopped) == ProducerAction::Stop,
        producer_next(ProducerState::Stopped, e) == ProducerState::Stopped,
        closed_run(ProducerState::Stopped, n) == ProducerState::Stopped,
        closed_run_sleeps(ProducerState::Stopped, n) == 0,
        closed_run_work(ProducerState::Stopped, n) == 0,
    decreases n,
{
    if n > 0 {
        lemma_stopped_is_final(e, (n - 1) as nat);
    }
}

/// Once the consuming end is gone, the producer stops within two steps, from
/// whatever state it was in; until then it sleeps at most once (one tick period)
/// and does at most one sleep and one send.
pub proof fn lemma_producer_stops_after_close(s: ProducerState, n: nat)
    ensures
        n >= 2 ==> closed_run(s, n) == ProducerState::Stopped,
        closed_run_sleeps(s, n) <= 1,
        closed_run_work(s, n) <= 2,
{
    let e = ProducerEvent::Closed;
    if n >= 1 {
        lemma_stopped_is_final(e, (n - 1) as nat);
        lemma_producer_stops_after_close_signaling((n - 1) as nat);
    }
    if n >= 2 {
        lemma_stopped_is_final(e, (n - 2) as nat);
    }
}

/// Once the consuming end is gone, a producer about to send stops at once.
proof fn lemma_producer_stops_after_close_signaling(n: nat)
    ensures
        n >= 1 ==> closed_run(ProducerState::Signaling, n) == ProducerState::Stopped,
        closed_run_sleeps(ProducerState::Signaling, n) == 0,
        closed_run_work(ProducerState::Signaling, n) <= 1,
{
    if n >= 1 {
        lemma_stopped_is_final(ProducerEvent::Closed, (n - 1) as nat);
    }
}

/// The producer's event for the outcome of a send: `Delivered` where the tick
/// went into the channel, `Closed` where the channel was found closed.
pub fn event_of_send(sent: bool) -> (r: ProducerEvent)
    ensures
        r == (if sent { ProducerEvent::Delivered } else { ProducerEvent::Closed }),
{
    if sent {
        ProducerEvent::Delivered
    } else {
        ProducerEvent::Closed
    }
}

/// Sends one tick into the channel, waiting for a free slot, and tells what came
/// of it: `Delivered`, or `Closed` where the consuming end is gone.
pub fn deliver_tick(sender: &Sender<()>) -> (r: ProducerEvent)
    ensures
        r == ProducerEvent::Delivered || r == ProducerEvent::Closed,
{
    let sent = send_tick_blocking(sender);
    event_of_send(sent)
}

/// The event that answers action `a`: a sleep ends; a send delivers its tick
/// where `delivered` holds and finds the channel closed otherwise.
pub open spec fn answer(a: ProducerAction, delivered: bool) -> ProducerEvent {
    match a {
        ProducerAction::Sleep => ProducerEvent::Woke,
        ProducerAction::Send => if delivered {
            ProducerEvent::Delivered
        } else {
            ProducerEvent::Closed
        },
        ProducerAction::Stop => ProducerEvent::Closed,
    }
}

/// The sleeps and the sends of a run of the producer from `s`, where the i-th
/// step's work is answered with `outcomes[i]` (whether a send got its tick in).
pub open spec fn run_sleeps_and_sends(s: ProducerState, outcomes: Seq<bool>) -> (nat, nat)
    decreases outcomes.len(),
{
    if outcomes.len() == 0 {
        (0, 0)
    } else {
        let a = producer_action_of(s);
        let rest = run_sleeps_and_sends(producer_next(s, answer(a, outcomes[0])), outcomes.drop_first());
        (
            rest.0 + if a == ProducerAction::Sleep { 1nat } else { 0nat },
            rest.1 + if a == ProducerAction::Send { 1nat } else { 0nat },
        )
    }
}

/// The producer makes at most one send per sleep, whatever the channel answers:
/// while the consumer is away it blocks on a full slot and generates no
/// further ticks, so there is never more than the one in the slot and the one
/// it is blocked on. From a sleeping producer sends never outrun sleeps.
pub proof fn lemma_one_send_per_sleep(s: ProducerState, outcomes: Seq<bool>)
    ensures
        run_sleeps_and_sends(s, outcomes).1 <= run_sleeps_and_sends(s, outcomes).0 + if s == ProducerState::Signaling { 1nat } else { 0nat },
        s == ProducerState::Sleeping ==> run_sleeps_and_sends(s, outcomes).1 <= run_sleeps_and_sends(s, outcomes).0,
    decreases outcomes.len(),
{
    if outcomes.len() > 0 {
        let a = producer_action_of(s);
        lemma_one_send_per_sleep(producer_next(s, answer(a, outcomes[0])), outcomes.drop_first());
    }
}

/// Where the UI-thread consumer stands.
#[derive(Clone, Copy, Debug, PartialEq, Eq, Structural)]
pub enum ConsumerState {
    /// Suspended until the next tick.
    Waiting,
    /// The channel closed: the loop has ended.
    Stopped,
}

/// What the consumer's wait gave.
#[derive(Clone, Copy, Debug, PartialEq, Eq, Structural)]
pub enum ConsumerEvent {
    /// A tick arrived.
    Tick,
    /// The channel is closed or failed.
    Closed,
}

/// The work that the consumer does next.
#[derive(Clone, Copy, Debug, PartialEq, Eq, Structural)]
pub enum ConsumerAction {
    /// Run the refresh action once, then wait again.
    Refresh,
    /// End the loop.
    Stop,
}

/// The consumer's next state and action after event `e` in state `s`.
pub open spec fn consumer_next(s: ConsumerState, e: ConsumerEvent) -> (ConsumerState, ConsumerAction) {
    match (s, e) {
        (ConsumerState::Waiting, ConsumerEvent::Tick) => (ConsumerState::Waiting, ConsumerAction::Refresh),
        _ => (ConsumerState::Stopped, ConsumerAction::Stop),
    }
}

/// The consumer's step: each tick received while waiting gives exactly one
/// refresh; closure ends the loop, and an ended loop stays ended.
pub fn consumer_step(s: ConsumerState, e: ConsumerEvent) -> (r: (ConsumerState, ConsumerAction))
    ensures
        r == consumer_next(s, e),
{
    match (s, e) {
        (ConsumerState::Waiting, ConsumerEvent::Tick) => (ConsumerState::Waiting, ConsumerAction::Refresh),
        _ => (ConsumerState::Stopped, ConsumerAction::Stop),
    }
}

} // verus!
