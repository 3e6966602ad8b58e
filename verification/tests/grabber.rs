use gestro::config::{Bindings, Modifier, Shortcut};
use gestro::direction::Direction;
use gestro::gesture::{GestureResult, GestureTracker, StrokeOutcome};
use gestro::grabber::{action_for, handle_event, Action, InputEvent};

fn tracker() -> GestureTracker<(f64, f64)> {
    let mut b = Bindings::new();
    b.insert(
        Direction::E,
        Shortcut { modifiers: vec![Modifier("Ctrl".into())], key: "Right".into(), label: None },
    );
    GestureTracker::new(b)
}

fn east(_: (f64, f64), _: (f64, f64)) -> StrokeOutcome {
    StrokeOutcome::Toward(Direction::E)
}

#[test]
fn right_press_is_suppressed_and_starts_tracking() {
    let mut t = tracker();
    let d = handle_event(&mut t, InputEvent::RightPress, 0, east);
    assert!(!d.pass_through);
    assert!(!d.consumed_simulated);
    assert!(d.action.is_none());
    assert!(t.is_tracking());
}

#[test]
fn moves_always_pass_through() {
    let mut t = tracker();
    let d = handle_event(&mut t, InputEvent::MouseMove((1.0, 2.0)), 0, east);
    assert!(d.pass_through);
    assert!(!t.is_tracking());
    handle_event(&mut t, InputEvent::RightPress, 0, east);
    let d = handle_event(&mut t, InputEvent::MouseMove((1.0, 2.0)), 0, east);
    assert!(d.pass_through);
    assert!(d.action.is_none());
}

#[test]
fn release_without_tracking_passes_through() {
    let mut t = tracker();
    let d = handle_event(&mut t, InputEvent::RightRelease, 0, east);
    assert!(d.pass_through);
    assert!(d.action.is_none());
}

#[test]
fn release_after_drag_fires_the_binding() {
    let mut t = tracker();
    handle_event(&mut t, InputEvent::RightPress, 0, east);
    handle_event(&mut t, InputEvent::MouseMove((100.0, 100.0)), 0, east);
    handle_event(&mut t, InputEvent::MouseMove((200.0, 100.0)), 0, east);
    let d = handle_event(&mut t, InputEvent::RightRelease, 0, east);
    assert!(!d.pass_through);
    match d.action {
        Some(Action::FireShortcut(s)) => assert_eq!(s.key, "Right"),
        other => panic!("Expected FireShortcut, got {other:?}"),
    }
    assert!(!t.is_tracking());
}

#[test]
fn click_without_drag_replays_the_click() {
    let mut t = tracker();
    handle_event(&mut t, InputEvent::RightPress, 0, east);
    let d = handle_event(&mut t, InputEvent::RightRelease, 0, east);
    assert!(!d.pass_through);
    assert!(matches!(d.action, Some(Action::ReplayRightClick)));
}

#[test]
fn simulated_events_pass_untouched() {
    let mut t = tracker();
    let d = handle_event(&mut t, InputEvent::RightPress, 2, east);
    assert!(d.pass_through);
    assert!(d.consumed_simulated);
    assert!(!t.is_tracking());
    let d = handle_event(&mut t, InputEvent::MouseMove((3.0, 4.0)), 1, east);
    assert!(d.pass_through);
    assert!(!d.consumed_simulated);
    let d = handle_event(&mut t, InputEvent::RightRelease, 1, east);
    assert!(d.pass_through);
    assert!(d.consumed_simulated);
    assert!(d.action.is_none());
    let d = handle_event(&mut t, InputEvent::Other, 1, east);
    assert!(d.pass_through);
    assert!(!d.consumed_simulated);
}

#[test]
fn actions_follow_results() {
    assert!(matches!(action_for(GestureResult::PassThrough), Action::ReplayRightClick));
    assert!(matches!(action_for(GestureResult::Unbound(Direction::S)), Action::ReplayRightClick));
    let s = Shortcut { modifiers: vec![], key: "F1".into(), label: None };
    match action_for(GestureResult::Fire(s)) {
        Action::FireShortcut(f) => assert_eq!(f.key, "F1"),
        other => panic!("Expected FireShortcut, got {other:?}"),
    }
}
