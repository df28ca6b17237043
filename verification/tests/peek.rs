use peek_widget::geometry::WindowPositions;
use peek_widget::monitor::{
    is_locked, lock_expanded, start_monitoring, stop_monitoring, unlock_and_hide, MonitorSession,
    MoveTarget, PeekFlags, StateChange,
};
use peek_widget::probe::{get_cursor_position, is_option_held};
use peek_widget::state::{compute_state, PeekState};

#[test]
fn locked_overrides_all_inputs() {
    for &modifier_held in &[false, true] {
        for &in_corner in &[false, true] {
            assert_eq!(compute_state(true, modifier_held, in_corner), PeekState::Expanded);
        }
    }
}

#[test]
fn unlocked_states_follow_the_table() {
    assert_eq!(compute_state(false, true, true), PeekState::Peeking);
    assert_eq!(compute_state(false, true, false), PeekState::Hidden);
    assert_eq!(compute_state(false, false, true), PeekState::Hidden);
    assert_eq!(compute_state(false, false, false), PeekState::Hidden);
}

#[test]
fn state_tags_are_lowercase() {
    assert_eq!(PeekState::Hidden.tag(), "hidden");
    assert_eq!(PeekState::Peeking.tag(), "peeking");
    assert_eq!(PeekState::Expanded.tag(), "expanded");
}

#[test]
fn corner_needs_both_axes() {
    let positions = WindowPositions::new(1920, 1080);
    assert!(positions.is_cursor_in_corner(1919, 1079));
    assert!(!positions.is_cursor_in_corner(1619, 1079));
    assert!(!positions.is_cursor_in_corner(1919, 779));
    assert!(positions.is_cursor_in_corner(1620, 780));
}

#[test]
fn derived_positions_match_the_formulas() {
    let positions = WindowPositions::new(1920, 1080);
    assert_eq!(positions.hidden_position(), (1520, 680));
    assert_eq!(positions.peek_position(), (1420, 580));
}

#[test]
fn identical_ticks_are_idempotent() {
    let mut session = MonitorSession::new(1920, 1080);
    let first = session.tick(false, false, 100, 100);
    assert!(first.is_some());
    for _ in 0..5 {
        assert_eq!(session.tick(false, false, 100, 100), None);
    }
}

#[test]
fn single_instance_guard() {
    let mut flags = PeekFlags::new();
    assert!(start_monitoring(&mut flags));
    assert!(!start_monitoring(&mut flags));
    stop_monitoring(&mut flags);
    assert!(start_monitoring(&mut flags));
}

#[test]
fn lock_override_persists_across_input_toggles() {
    let mut flags = PeekFlags::new();
    let mut session = MonitorSession::new(1920, 1080);
    lock_expanded(&mut flags);
    assert!(is_locked(&flags));

    // The startup sentinel is already Expanded, so even the first locked
    // tick reports no change.
    assert_eq!(session.tick(is_locked(&flags), false, 0, 0), None);

    let toggles = [(false, 0, 0), (true, 1919, 1079), (false, 1919, 1079), (true, 0, 0)];
    for &(held, x, y) in &toggles {
        assert_eq!(session.tick(is_locked(&flags), held, x, y), None);
    }

    unlock_and_hide(&mut flags);
    assert!(!is_locked(&flags));
    let after_unlock = session.tick(is_locked(&flags), true, 1919, 1079);
    assert_eq!(
        after_unlock,
        Some(StateChange { state: PeekState::Peeking, target: MoveTarget::PeekPosition })
    );
}

#[test]
fn first_tick_moves_to_hidden_and_settles() {
    // Startup sentinel is Expanded; with nothing held and the cursor away
    // from the corner the first tick reports exactly one change to Hidden.
    let mut session = MonitorSession::new(1920, 1080);
    let mut moves_to_hidden = 0;
    let mut emitted_tags: Vec<&str> = Vec::new();
    for _ in 0..10 {
        if let Some(change) = session.tick(false, false, 300, 300) {
            if change.target == MoveTarget::HiddenPosition {
                moves_to_hidden += 1;
            }
            emitted_tags.push(change.state.tag());
        }
    }
    assert_eq!(moves_to_hidden, 1);
    assert_eq!(emitted_tags, vec!["hidden"]);
}

#[test]
fn inert_probe_defaults() {
    assert!(!is_option_held());
    assert_eq!(get_cursor_position(), (0, 0));
}

#[test]
fn lock_flag_round_trip() {
    let mut flags = PeekFlags::new();
    assert!(!is_locked(&flags));
    lock_expanded(&mut flags);
    assert!(is_locked(&flags));
    unlock_and_hide(&mut flags);
    assert!(!is_locked(&flags));
}
