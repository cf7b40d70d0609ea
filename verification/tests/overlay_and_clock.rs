use sus_check::clock::{millis_since_epoch, now_timestamp_ms};
use sus_check::overlay::{OverlayState, PresenceAction};

#[test]
fn hotkey_hides_then_shows_a_shown_overlay() {
    let mut state = OverlayState::new();
    assert_eq!(state.toggle_presence(), PresenceAction::Hide);
    state.apply_presence(PresenceAction::Hide);
    assert!(state.hidden && !state.minimized);
    assert_eq!(state.toggle_presence(), PresenceAction::Show);
    state.apply_presence(PresenceAction::Show);
    assert_eq!(state, OverlayState::new());
}

#[test]
fn hotkey_restores_a_minimized_overlay() {
    let mut state = OverlayState::new();
    state.set_hidden_state(true);
    state.set_minimized_state(true);
    assert!(!state.hidden && state.minimized);
    assert_eq!(state.toggle_presence(), PresenceAction::RestoreFromMinimized);
    state.apply_presence(PresenceAction::RestoreFromMinimized);
    assert!(!state.hidden && !state.minimized);
    state.set_minimized_state(true);
    state.set_hidden_state(true);
    assert!(state.hidden && !state.minimized);
}

#[test]
fn clock_reads_after_2020() {
    assert!(now_timestamp_ms() > 1_577_836_800_000);
}

#[test]
fn millis_since_epoch_counts_whole_milliseconds() {
    assert_eq!(millis_since_epoch(Some((1_700_000_000, 123_999_999))), 1_700_000_000_123);
    assert_eq!(millis_since_epoch(Some((0, 999_999_999))), 999);
    assert_eq!(millis_since_epoch(Some((u64::MAX, 0))), (u64::MAX as u128) * 1000);
}

#[test]
fn millis_since_epoch_before_epoch_is_zero() {
    assert_eq!(millis_since_epoch(None), 0);
}
