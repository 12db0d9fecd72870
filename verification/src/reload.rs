//! The reload pipeline: changes of the asset directory are signalled through a slot
//! that holds at most one signal, and a loop turns signals into rebuilds of the
//! catalog, one at a time.
//!
//! The loop itself waits on the outside world, so it is run by the caller. What it
//! does next is decided here: the caller reports what has happened and carries out
//! what it is told.

use vstd::prelude::*;

verus! {

/// How long the loop waits before it subscribes again, in milliseconds.
pub const BACKOFF_MILLIS: u64 = 1000;

/// Where the loop stands.
#[derive(Debug, Clone, Copy, PartialEq, Eq, Structural)]
pub enum ReloadState {
    /// About to subscribe to the signals.
    Subscribing,
    /// Waiting for a signal.
    Listening,
    /// A rebuild of the catalog is under way.
    Rebuilding,
    /// The stream of signals has ended; waiting before subscribing again.
    BackingOff,
}

/// What the caller reports to the loop.
#[derive(Debug, Clone, Copy, PartialEq, Eq, Structural)]
pub enum ReloadEvent {
    Subscribed,
    /// A signal was received.
    Signal,
    /// The stream of signals has ended, or could not be subscribed to.
    StreamEnded,
    /// The rebuild is over, whether it installed a catalog or was refused.
    RebuildDone,
    /// The wait is over.
    BackoffElapsed,
}

/// What the caller is told to do.
#[derive(Debug, Clone, Copy, PartialEq, Eq, Structural)]
pub enum ReloadAction {
    Subscribe,
    /// Wait for the next signal.
    Listen,
    /// Scan the asset directory and rebuild the catalog.
    Rebuild,
    /// Wait for this many milliseconds.
    Sleep { millis: u64 },
    /// Go on with what is under way.
    Nothing,
}

/// The state that follows `state` on `event`, and what is to be done.
///
/// A signal starts a rebuild only while the loop listens. The end of the stream, or a
/// subscription that fails, does not end the loop: it waits and subscribes again. An
/// event that does not belong to the state changes nothing.
pub open spec fn next(state: ReloadState, event: ReloadEvent) -> (ReloadState, ReloadAction) {
    match (state, event) {
        (ReloadState::Subscribing, ReloadEvent::Subscribed) => (
            ReloadState::Listening,
            ReloadAction::Listen,
        ),
        (ReloadState::Listening, ReloadEvent::Signal) => (
            ReloadState::Rebuilding,
            ReloadAction::Rebuild,
        ),
        (ReloadState::Subscribing, ReloadEvent::StreamEnded)
        | (ReloadState::Listening, ReloadEvent::StreamEnded) => (
            ReloadState::BackingOff,
            ReloadAction::Sleep { millis: BACKOFF_MILLIS },
        ),
        (ReloadState::Rebuilding, ReloadEvent::RebuildDone) => (
            ReloadState::Listening,
            ReloadAction::Listen,
        ),
        (ReloadState::BackingOff, ReloadEvent::BackoffElapsed) => (
            ReloadState::Subscribing,
            ReloadAction::Subscribe,
        ),
        _ => (state, ReloadAction::Nothing),
    }
}

/// The number of rebuilds that are under way in `state`.
pub open spec fn rebuilds_running(state: ReloadState) -> nat {
    if state == ReloadState::Rebuilding {
        1
    } else {
        0
    }
}

/// The state in which the loop starts, and its first action.
pub fn start() -> (r: (ReloadState, ReloadAction))
    ensures
        r == (ReloadState::Subscribing, ReloadAction::Subscribe),
{
    (ReloadState::Subscribing, ReloadAction::Subscribe)
}

/// Takes the loop one step on.
pub fn step(state: ReloadState, event: ReloadEvent) -> (r: (ReloadState, ReloadAction))
    ensures
        r == next(state, event),
{
    match (state, event) {
        (ReloadState::Subscribing, ReloadEvent::Subscribed) => (
            ReloadState::Listening,
            ReloadAction::Listen,
        ),
        (ReloadState::Listening, ReloadEvent::Signal) => (
            ReloadState::Rebuilding,
            ReloadAction::Rebuild,
        ),
        (ReloadState::Subscribing, ReloadEvent::StreamEnded)
        | (ReloadState::Listening, ReloadEvent::StreamEnded) => (
            ReloadState::BackingOff,
            ReloadAction::Sleep { millis: BACKOFF_MILLIS },
        ),
        (ReloadState::Rebuilding, ReloadEvent::RebuildDone) => (
            ReloadState::Listening,
            ReloadAction::Listen,
        ),
        (ReloadState::BackingOff, ReloadEvent::BackoffElapsed) => (
            ReloadState::Subscribing,
            ReloadAction::Subscribe,
        ),
        _ => (state, ReloadAction::Nothing),
    }
}

/// The state after the events of `events`, one after the other, from `state`.
pub open spec fn run(state: ReloadState, events: Seq<ReloadEvent>) -> ReloadState
    decreases events.len(),
{
    if events.len() == 0 {
        state
    } else {
        next(run(state, events.drop_last()), events.last()).0
    }
}

/// The number of rebuilds that are ordered while the events of `events` come in from
/// `state`.
pub open spec fn rebuilds_ordered(state: ReloadState, events: Seq<ReloadEvent>) -> nat
    decreases events.len(),
{
    if events.len() == 0 {
        0
    } else {
        rebuilds_ordered(state, events.drop_last()) + if next(
            run(state, events.drop_last()),
            events.last(),
        ).1 == ReloadAction::Rebuild {
            1nat
        } else {
            0nat
        }
    }
}

/// The number of rebuilds that end while the events of `events` come in from `state`:
/// the reports of an end that come while a rebuild is under way.
pub open spec fn rebuilds_ended(state: ReloadState, events: Seq<ReloadEvent>) -> nat
    decreases events.len(),
{
    if events.len() == 0 {
        0
    } else {
        rebuilds_ended(state, events.drop_last()) + if run(state, events.drop_last())
            == ReloadState::Rebuilding && events.last() == ReloadEvent::RebuildDone {
            1nat
        } else {
            0nat
        }
    }
}

/// A rebuild is ordered only while none is under way, and it is then under way until
/// its end is reported.
pub proof fn lemma_rebuild_is_exclusive(state: ReloadState, event: ReloadEvent)
    ensures
        next(state, event).1 == ReloadAction::Rebuild ==> rebuilds_running(state) == 0
            && rebuilds_running(next(state, event).0) == 1,
        rebuilds_running(state) == 1 && event != ReloadEvent::RebuildDone ==> next(state, event)
            == (state, ReloadAction::Nothing),
{
}

/// At most one rebuild is under way at any time: whatever events come in, in whatever
/// order, the rebuilds that were ordered and have not ended are those under way, and
/// that is one or none.
pub proof fn lemma_one_rebuild_at_a_time(state: ReloadState, events: Seq<ReloadEvent>)
    ensures
        rebuilds_running(state) + rebuilds_ordered(state, events) == rebuilds_running(
            run(state, events),
        ) + rebuilds_ended(state, events),
        rebuilds_running(run(state, events)) <= 1,
    decreases events.len(),
{
    if events.len() > 0 {
        lemma_one_rebuild_at_a_time(state, events.drop_last());
    }
}

/// The end of the stream of signals does not end the loop: after the wait it subscribes
/// again, and listens again once it has subscribed.
pub proof fn lemma_stream_end_recovers()
    ensures
        run(
            ReloadState::Listening,
            seq![ReloadEvent::StreamEnded, ReloadEvent::BackoffElapsed, ReloadEvent::Subscribed],
        ) == ReloadState::Listening,
        next(ReloadState::Listening, ReloadEvent::StreamEnded).1 == (ReloadAction::Sleep {
            millis: BACKOFF_MILLIS,
        }),
{
    let events = seq![
        ReloadEvent::StreamEnded,
        ReloadEvent::BackoffElapsed,
        ReloadEvent::Subscribed,
    ];
    let two = events.drop_last();
    let one = two.drop_last();
    assert(one.drop_last().len() == 0);
    assert(run(ReloadState::Listening, one.drop_last()) == ReloadState::Listening);
    assert(one.last() == ReloadEvent::StreamEnded);
    assert(run(ReloadState::Listening, one) == ReloadState::BackingOff);
    assert(two.last() == ReloadEvent::BackoffElapsed);
    assert(run(ReloadState::Listening, two) == ReloadState::Subscribing);
    assert(events.last() == ReloadEvent::Subscribed);
}

/// The slot through which changes of the asset directory are signalled. It holds one
/// signal or none: signals that come while one is held are one with it.
#[derive(Debug)]
pub struct SignalSlot {
    pending: bool,
}

impl View for SignalSlot {
    type V = bool;

    /// Whether a signal is held.
    closed spec fn view(&self) -> bool {
        self.pending
    }
}

/// Whether a slot holds a signal after `signals` more signals.
pub open spec fn after_signals(held: bool, signals: nat) -> bool {
    held || signals > 0
}

impl SignalSlot {
    /// An empty slot.
    pub fn new() -> (slot: SignalSlot)
        ensures
            !slot@,
    {
        SignalSlot { pending: false }
    }

    /// Puts a signal into the slot. The result says whether the slot was empty.
    pub fn raise(&mut self) -> (fresh: bool)
        ensures
            final(self)@ == after_signals(old(self)@, 1),
            fresh == !old(self)@,
    {
        let fresh = !self.pending;
        self.pending = true;
        fresh
    }

    /// Takes the signal out of the slot, if there is one.
    pub fn take(&mut self) -> (signal: bool)
        ensures
            !final(self)@,
            signal == old(self)@,
    {
        let signal = self.pending;
        self.pending = false;
        signal
    }

    /// Whether the slot holds a signal.
    pub fn is_pending(&self) -> (pending: bool)
        ensures
            pending == self@,
    {
        self.pending
    }
}

/// A burst of signals is one signal: however many come before the slot is looked
/// into, there is one to take, and none after it.
pub proof fn lemma_burst_is_one_signal(held: bool, signals: nat)
    requires
        signals > 0,
    ensures
        after_signals(held, signals),
        after_signals(held, signals) == after_signals(held, 1),
        after_signals(after_signals(held, 1), (signals - 1) as nat) == after_signals(held, signals),
{
}

} // verus!
