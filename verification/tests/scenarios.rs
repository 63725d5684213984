use pointer_lock_change::{
    setup_pointer_lock_listener, write_event, LockStateSource, PointerLockChangedByBrowser,
    PointerLockTracker,
};

fn listening_tracker() -> PointerLockTracker {
    let mut tracker = PointerLockTracker::new(LockStateSource::Browser);
    assert!(setup_pointer_lock_listener(&mut tracker));
    assert_eq!(tracker.listener_registered(true), Ok(()));
    tracker
}

fn locked(is_pointer_locked: bool) -> Option<PointerLockChangedByBrowser> {
    Some(PointerLockChangedByBrowser { is_pointer_locked })
}

/// Feeds one report before each tick and collects what each tick publishes.
fn run(tracker: &mut PointerLockTracker, states: &[bool]) -> Vec<Option<PointerLockChangedByBrowser>> {
    let mut events = Vec::new();
    for state in states {
        tracker.pointer_lock_changed(*state);
        events.push(write_event(tracker));
    }
    events
}

#[test]
fn lock_before_first_tick_emits_once() {
    let mut tracker = listening_tracker();
    tracker.pointer_lock_changed(true);
    assert_eq!(write_event(&mut tracker), locked(true));
    assert_eq!(write_event(&mut tracker), None);
}

#[test]
fn toggles_between_ticks_collapse_to_last_state() {
    let mut tracker = listening_tracker();
    tracker.pointer_lock_changed(true);
    tracker.pointer_lock_changed(false);
    tracker.pointer_lock_changed(true);
    assert!(tracker.is_pointer_locked());
    assert_eq!(write_event(&mut tracker), locked(true));
    assert_eq!(write_event(&mut tracker), None);
}

#[test]
fn toggle_back_between_ticks_is_not_seen() {
    let mut tracker = listening_tracker();
    tracker.pointer_lock_changed(true);
    tracker.pointer_lock_changed(false);
    assert_eq!(write_event(&mut tracker), None);
}

#[test]
fn no_callback_means_no_event() {
    let mut tracker = listening_tracker();
    for _ in 0..100 {
        assert_eq!(write_event(&mut tracker), None);
    }
    assert!(!tracker.is_pointer_locked());
}

#[test]
fn no_callback_and_no_listener_means_no_event() {
    let mut tracker = PointerLockTracker::new(LockStateSource::Browser);
    for _ in 0..10 {
        assert_eq!(write_event(&mut tracker), None);
    }
}

#[test]
fn inert_source_never_registers_and_never_emits() {
    let mut tracker = PointerLockTracker::new(LockStateSource::Inert);
    assert!(!setup_pointer_lock_listener(&mut tracker));
    assert_eq!(tracker.listener_registered(true), Ok(()));
    for state in [true, false, true, true, false] {
        tracker.pointer_lock_changed(state);
        assert!(!tracker.is_pointer_locked());
        assert_eq!(write_event(&mut tracker), None);
        assert!(!setup_pointer_lock_listener(&mut tracker));
    }
    tracker.pointer_lock_changed(true);
    tracker.pointer_lock_changed(true);
    assert_eq!(write_event(&mut tracker), None);
}

#[test]
fn events_mark_exactly_the_transitions() {
    let mut tracker = listening_tracker();
    let states = [true, true, false, true, false, false, false, true];
    let events = run(&mut tracker, &states);
    assert_eq!(
        events,
        vec![
            locked(true),
            None,
            locked(false),
            locked(true),
            locked(false),
            None,
            None,
            locked(true),
        ]
    );
}

#[test]
fn first_state_is_compared_with_unlocked() {
    let mut tracker = listening_tracker();
    assert_eq!(run(&mut tracker, &[false, false, true]), vec![None, None, locked(true)]);
    let mut tracker = listening_tracker();
    assert_eq!(run(&mut tracker, &[true]), vec![locked(true)]);
}

#[test]
fn events_match_transitions_on_every_short_history() {
    for length in 0..8usize {
        for bits in 0..(1u32 << length) {
            let states: Vec<bool> = (0..length).map(|i| bits & (1 << i) != 0).collect();
            let mut tracker = listening_tracker();
            let events = run(&mut tracker, &states);
            assert_eq!(events.len(), length);
            let mut before = false;
            for i in 0..length {
                let expected = if states[i] != before { locked(states[i]) } else { None };
                assert_eq!(events[i], expected);
                before = states[i];
            }
        }
    }
}

#[test]
fn same_state_twice_without_tick_emits_once() {
    let mut tracker = listening_tracker();
    tracker.pointer_lock_changed(true);
    tracker.pointer_lock_changed(true);
    assert_eq!(write_event(&mut tracker), locked(true));
    assert_eq!(write_event(&mut tracker), None);
}

#[test]
fn same_state_across_two_ticks_emits_once() {
    let mut tracker = listening_tracker();
    tracker.pointer_lock_changed(true);
    assert_eq!(write_event(&mut tracker), locked(true));
    tracker.pointer_lock_changed(true);
    assert_eq!(write_event(&mut tracker), None);
    tracker.pointer_lock_changed(false);
    assert_eq!(write_event(&mut tracker), locked(false));
    tracker.pointer_lock_changed(false);
    assert_eq!(write_event(&mut tracker), None);
}

#[test]
fn unlock_after_lock_emits_unlocked() {
    let mut tracker = listening_tracker();
    tracker.pointer_lock_changed(true);
    assert_eq!(write_event(&mut tracker), locked(true));
    tracker.pointer_lock_changed(false);
    assert_eq!(write_event(&mut tracker), locked(false));
    assert!(!tracker.is_pointer_locked());
}

#[test]
fn report_between_ticks_is_held_until_the_next_tick() {
    let mut tracker = listening_tracker();
    assert_eq!(write_event(&mut tracker), None);
    assert_eq!(write_event(&mut tracker), None);
    tracker.pointer_lock_changed(true);
    assert!(tracker.is_pointer_locked());
    assert_eq!(write_event(&mut tracker), locked(true));
}

#[test]
fn events_follow_the_last_report_of_each_round() {
    // Each round holds zero, one or two reports; every choice over four rounds is tried.
    let choices: [&[bool]; 7] = [
        &[],
        &[false],
        &[true],
        &[false, false],
        &[false, true],
        &[true, false],
        &[true, true],
    ];
    for code in 0..(7usize * 7 * 7 * 7) {
        let rounds = [
            choices[code % 7],
            choices[code / 7 % 7],
            choices[code / 49 % 7],
            choices[code / 343 % 7],
        ];
        let mut tracker = listening_tracker();
        let mut seen = false;
        for round in rounds {
            let mut latest = seen;
            for report in round {
                tracker.pointer_lock_changed(*report);
                latest = *report;
            }
            let expected = if latest != seen { locked(latest) } else { None };
            assert_eq!(write_event(&mut tracker), expected);
            seen = latest;
        }
    }
}
