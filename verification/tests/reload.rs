use meme_catalog::reload::{
    start, step, ReloadAction, ReloadEvent, ReloadState, SignalSlot, BACKOFF_MILLIS,
};

#[test]
fn the_loop_starts_by_subscribing() {
    assert_eq!(start(), (ReloadState::Subscribing, ReloadAction::Subscribe));
    assert_eq!(
        step(ReloadState::Subscribing, ReloadEvent::Subscribed),
        (ReloadState::Listening, ReloadAction::Listen)
    );
}

#[test]
fn a_signal_starts_a_rebuild() {
    assert_eq!(
        step(ReloadState::Listening, ReloadEvent::Signal),
        (ReloadState::Rebuilding, ReloadAction::Rebuild)
    );
    assert_eq!(
        step(ReloadState::Rebuilding, ReloadEvent::RebuildDone),
        (ReloadState::Listening, ReloadAction::Listen)
    );
}

#[test]
fn no_rebuild_starts_while_one_is_under_way() {
    for event in [
        ReloadEvent::Subscribed,
        ReloadEvent::Signal,
        ReloadEvent::StreamEnded,
        ReloadEvent::BackoffElapsed,
    ] {
        assert_eq!(
            step(ReloadState::Rebuilding, event),
            (ReloadState::Rebuilding, ReloadAction::Nothing)
        );
    }
}

#[test]
fn the_end_of_the_stream_is_waited_out() {
    assert_eq!(BACKOFF_MILLIS, 1000);
    let (state, action) = step(ReloadState::Listening, ReloadEvent::StreamEnded);
    assert_eq!(state, ReloadState::BackingOff);
    assert_eq!(action, ReloadAction::Sleep { millis: 1000 });
    let (state, action) = step(state, ReloadEvent::BackoffElapsed);
    assert_eq!(state, ReloadState::Subscribing);
    assert_eq!(action, ReloadAction::Subscribe);
    let (state, action) = step(state, ReloadEvent::Subscribed);
    assert_eq!(state, ReloadState::Listening);
    assert_eq!(action, ReloadAction::Listen);
}

#[test]
fn a_failed_subscription_is_waited_out_too() {
    assert_eq!(
        step(ReloadState::Subscribing, ReloadEvent::StreamEnded),
        (ReloadState::BackingOff, ReloadAction::Sleep { millis: 1000 })
    );
}

#[test]
fn events_out_of_place_change_nothing() {
    assert_eq!(
        step(ReloadState::Subscribing, ReloadEvent::Signal),
        (ReloadState::Subscribing, ReloadAction::Nothing)
    );
    assert_eq!(
        step(ReloadState::Listening, ReloadEvent::RebuildDone),
        (ReloadState::Listening, ReloadAction::Nothing)
    );
    assert_eq!(
        step(ReloadState::BackingOff, ReloadEvent::Signal),
        (ReloadState::BackingOff, ReloadAction::Nothing)
    );
    assert_eq!(
        step(ReloadState::BackingOff, ReloadEvent::StreamEnded),
        (ReloadState::BackingOff, ReloadAction::Nothing)
    );
}

#[test]
fn at_most_one_rebuild_over_a_long_run() {
    let events = [
        ReloadEvent::Subscribed,
        ReloadEvent::Signal,
        ReloadEvent::Signal,
        ReloadEvent::StreamEnded,
        ReloadEvent::RebuildDone,
        ReloadEvent::Signal,
        ReloadEvent::RebuildDone,
        ReloadEvent::RebuildDone,
        ReloadEvent::StreamEnded,
        ReloadEvent::Signal,
        ReloadEvent::BackoffElapsed,
        ReloadEvent::Subscribed,
        ReloadEvent::Signal,
    ];
    let (mut state, _) = start();
    let mut running = 0;
    let mut ordered = 0;
    for event in events {
        if state == ReloadState::Rebuilding && event == ReloadEvent::RebuildDone {
            running -= 1;
        }
        let (next, action) = step(state, event);
        if action == ReloadAction::Rebuild {
            running += 1;
            ordered += 1;
        }
        assert!(running == 0 || running == 1);
        assert_eq!(running == 1, next == ReloadState::Rebuilding);
        state = next;
    }
    assert_eq!(ordered, 3);
    assert_eq!(state, ReloadState::Rebuilding);
}

#[test]
fn a_burst_of_signals_is_one_signal() {
    let mut slot = SignalSlot::new();
    assert!(!slot.is_pending());
    assert!(slot.raise());
    assert!(!slot.raise());
    assert!(!slot.raise());
    assert!(slot.is_pending());
    assert!(slot.take());
    assert!(!slot.take());
    assert!(!slot.is_pending());
}

#[test]
fn a_signal_after_a_take_is_a_new_signal() {
    let mut slot = SignalSlot::new();
    assert!(!slot.take());
    assert!(slot.raise());
    assert!(slot.take());
    assert!(slot.raise());
    assert!(slot.take());
}
