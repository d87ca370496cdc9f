use overlay_window::behavior::{toggle_drag_mode, WindowBehaviorPayload, WindowBehaviorState};
use overlay_window::geometry::ControlBounds;
use overlay_window::transition::{
    apply_click_through, toggle_click_through, update_ignore_state, ClickThroughChange,
    TransitionApplier,
};
use overlay_window::geometry::ScreenPoint;

#[test]
fn behavior_starts_opaque_and_draggable() {
    let state = WindowBehaviorState::default();
    assert!(!state.is_click_through());
    assert!(state.is_drag_enabled());
    assert_eq!(state.controls_bounds(), None);
    assert_eq!(state.snapshot(), WindowBehaviorPayload { click_through: false, drag_enabled: true });
}

#[test]
fn behavior_setters_change_one_field_each() {
    let mut state = WindowBehaviorState::default();
    let bounds = ControlBounds { left: 1, top: 2, right: 3, bottom: 4 };
    state.set_click_through(true);
    assert_eq!(state.snapshot(), WindowBehaviorPayload { click_through: true, drag_enabled: true });
    assert_eq!(state.controls_bounds(), None);
    state.set_drag_enabled(false);
    assert_eq!(state.snapshot(), WindowBehaviorPayload { click_through: true, drag_enabled: false });
    state.set_controls_bounds(Some(bounds));
    assert_eq!(state.controls_bounds(), Some(bounds));
    assert_eq!(state.snapshot(), WindowBehaviorPayload { click_through: true, drag_enabled: false });
    state.set_controls_bounds(None);
    assert_eq!(state.controls_bounds(), None);
    state.set_click_through(false);
    state.set_drag_enabled(true);
    assert_eq!(state.snapshot(), WindowBehaviorPayload { click_through: false, drag_enabled: true });
}

#[test]
fn toggle_drag_mode_twice_restores_the_flag() {
    let mut state = WindowBehaviorState::default();
    assert_eq!(toggle_drag_mode(&mut state), false);
    assert!(!state.is_drag_enabled());
    assert_eq!(toggle_drag_mode(&mut state), true);
    assert!(state.is_drag_enabled());
    assert!(!state.is_click_through());
}

#[test]
fn toggle_click_through_twice_restores_the_flag() {
    let mut state = WindowBehaviorState::default();
    let mut applier = TransitionApplier::new();
    let on = toggle_click_through(&mut applier, &mut state);
    assert_eq!(on, ClickThroughChange { enabled: true, ignore_cursor: Some(true) });
    assert!(state.is_click_through());
    let off = toggle_click_through(&mut applier, &mut state);
    assert_eq!(off, ClickThroughChange { enabled: false, ignore_cursor: Some(false) });
    assert!(!state.is_click_through());
    assert!(state.is_drag_enabled());
}

#[test]
fn apply_click_through_sets_flag_and_transparency_together() {
    let mut state = WindowBehaviorState::default();
    let mut applier = TransitionApplier::new();
    let first = apply_click_through(&mut applier, &mut state, false);
    assert_eq!(first, ClickThroughChange { enabled: false, ignore_cursor: Some(false) });
    let again = apply_click_through(&mut applier, &mut state, false);
    assert_eq!(again, ClickThroughChange { enabled: false, ignore_cursor: None });
    let on = apply_click_through(&mut applier, &mut state, true);
    assert_eq!(on, ClickThroughChange { enabled: true, ignore_cursor: Some(true) });
    assert!(state.is_click_through());
    assert_eq!(applier.last_ignore_cursor(), Some(true));
}

#[test]
fn applier_starts_with_nothing_applied() {
    let applier = TransitionApplier::new();
    assert_eq!(applier.last_ignore_cursor(), None);
    assert_eq!(applier.last_position(), None);
}

#[test]
fn repeated_requests_for_one_value_make_one_call() {
    for value in [false, true] {
        let mut applier = TransitionApplier::new();
        let mut calls = 0;
        for _ in 0..25 {
            if update_ignore_state(&mut applier, value) {
                calls += 1;
            }
        }
        assert_eq!(calls, 1);
        assert_eq!(applier.last_ignore_cursor(), Some(value));
    }
}

#[test]
fn applier_never_issues_the_same_value_twice_in_a_row() {
    let requests = [true, true, false, false, false, true, false, true, true, true, false];
    let mut applier = TransitionApplier::new();
    let mut calls = Vec::new();
    for next in requests {
        if let Some(value) = applier.request_ignore(next) {
            calls.push(value);
        }
    }
    assert_eq!(calls, vec![true, false, true, false, true, false]);
    for pair in calls.windows(2) {
        assert_ne!(pair[0], pair[1]);
    }
}

#[test]
fn request_move_skips_the_position_already_applied() {
    let mut applier = TransitionApplier::new();
    let a = ScreenPoint { x: 10, y: 20 };
    let b = ScreenPoint { x: 10, y: 21 };
    assert_eq!(applier.request_move(a), Some(a));
    assert_eq!(applier.request_move(a), None);
    assert_eq!(applier.request_move(b), Some(b));
    assert_eq!(applier.last_position(), Some(b));
    applier.observe_position(a);
    assert_eq!(applier.request_move(a), None);
    assert_eq!(applier.request_move(ScreenPoint { x: 11, y: 20 }), Some(ScreenPoint { x: 11, y: 20 }));
    assert_eq!(applier.last_ignore_cursor(), None);
}
