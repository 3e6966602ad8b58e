use gestro::config::{Bindings, Modifier, Shortcut};
use gestro::direction::Direction;
use gestro::gesture::{resolve, GestureResult, GestureTracker, StrokeOutcome};
use std::cell::RefCell;

fn test_bindings() -> Bindings {
    let mut bindings = Bindings::new();
    bindings.insert(
        Direction::E,
        Shortcut {
            modifiers: vec![Modifier("Ctrl".into())],
            key: "Right".into(),
            label: Some("Test East".into()),
        },
    );
    bindings
}

#[test]
fn test_finish_without_start_returns_passthrough() {
    let mut tracker: GestureTracker<(f64, f64)> = GestureTracker::new(test_bindings());
    match tracker.finish(|_, _| StrokeOutcome::Toward(Direction::E)) {
        GestureResult::PassThrough => {}
        other => panic!("Expected PassThrough, got {other:?}"),
    }
}

#[test]
fn start_without_move_passes_through() {
    let mut tracker: GestureTracker<(f64, f64)> = GestureTracker::new(test_bindings());
    tracker.start();
    assert!(tracker.is_tracking());
    match tracker.finish(|_, _| StrokeOutcome::Toward(Direction::E)) {
        GestureResult::PassThrough => {}
        other => panic!("Expected PassThrough, got {other:?}"),
    }
    assert!(!tracker.is_tracking());
}

#[test]
fn origin_is_the_first_move_and_end_the_last() {
    let mut tracker: GestureTracker<(f64, f64)> = GestureTracker::new(test_bindings());
    tracker.start();
    tracker.update((100.0, 100.0));
    tracker.update((150.0, 120.0));
    tracker.update((200.0, 100.0));
    let seen = RefCell::new(None);
    let result = tracker.finish(|o, c| {
        *seen.borrow_mut() = Some((o, c));
        StrokeOutcome::Toward(Direction::E)
    });
    assert_eq!(*seen.borrow(), Some(((100.0, 100.0), (200.0, 100.0))));
    match result {
        GestureResult::Fire(shortcut) => assert_eq!(shortcut.key, "Right"),
        other => panic!("Expected Fire, got {other:?}"),
    }
}

#[test]
fn finishing_forgets_the_origin() {
    let mut tracker: GestureTracker<(i32, i32)> = GestureTracker::new(test_bindings());
    tracker.start();
    tracker.update((1, 1));
    let _ = tracker.finish(|_, _| StrokeOutcome::BelowThreshold);
    tracker.start();
    tracker.update((5, 6));
    tracker.update((7, 8));
    let seen = RefCell::new(None);
    let _ = tracker.finish(|o, c| {
        *seen.borrow_mut() = Some((o, c));
        StrokeOutcome::BelowThreshold
    });
    assert_eq!(*seen.borrow(), Some(((5, 6), (7, 8))));
}

#[test]
fn restart_discards_the_previous_origin() {
    let mut tracker: GestureTracker<(i32, i32)> = GestureTracker::new(test_bindings());
    tracker.start();
    tracker.update((1, 1));
    tracker.start();
    tracker.update((3, 4));
    let seen = RefCell::new(None);
    let _ = tracker.finish(|o, c| {
        *seen.borrow_mut() = Some((o, c));
        StrokeOutcome::BelowThreshold
    });
    assert_eq!(*seen.borrow(), Some(((3, 4), (3, 4))));
}

#[test]
fn short_strokes_pass_through() {
    let mut tracker: GestureTracker<(f64, f64)> = GestureTracker::new(test_bindings());
    tracker.start();
    tracker.update((100.0, 100.0));
    tracker.update((110.0, 105.0));
    match tracker.finish(|_, _| StrokeOutcome::BelowThreshold) {
        GestureResult::PassThrough => {}
        other => panic!("Expected PassThrough, got {other:?}"),
    }
}

#[test]
fn unbound_directions_are_reported() {
    let mut tracker: GestureTracker<(f64, f64)> = GestureTracker::new(test_bindings());
    tracker.start();
    tracker.update((100.0, 100.0));
    tracker.update((100.0, 0.0));
    match tracker.finish(|_, _| StrokeOutcome::Toward(Direction::N)) {
        GestureResult::Unbound(dir) => assert_eq!(dir, Direction::N),
        other => panic!("Expected Unbound, got {other:?}"),
    }
}

#[test]
fn update_config_replaces_the_bindings() {
    let mut tracker: GestureTracker<(f64, f64)> = GestureTracker::new(test_bindings());
    let mut north = Bindings::new();
    north.insert(
        Direction::N,
        Shortcut { modifiers: vec![], key: "F5".into(), label: None },
    );
    tracker.update_config(north);
    assert!(tracker.bindings().get(Direction::E).is_none());
    tracker.start();
    tracker.update((0.0, 0.0));
    match tracker.finish(|_, _| StrokeOutcome::Toward(Direction::N)) {
        GestureResult::Fire(s) => assert_eq!(s.key, "F5"),
        other => panic!("Expected Fire, got {other:?}"),
    }
}

#[test]
fn resolve_covers_every_outcome() {
    let b = test_bindings();
    assert!(matches!(resolve(StrokeOutcome::BelowThreshold, &b), GestureResult::PassThrough));
    match resolve(StrokeOutcome::Toward(Direction::E), &b) {
        GestureResult::Fire(s) => {
            assert_eq!(s.key, "Right");
            assert_eq!(s.label.as_deref(), Some("Test East"));
            assert_eq!(s.modifiers, vec![Modifier("Ctrl".into())]);
        }
        other => panic!("Expected Fire, got {other:?}"),
    }
    for d in Direction::ALL.iter() {
        if *d != Direction::E {
            match resolve(StrokeOutcome::Toward(*d), &b) {
                GestureResult::Unbound(u) => assert_eq!(u, *d),
                other => panic!("Expected Unbound, got {other:?}"),
            }
        }
    }
}
