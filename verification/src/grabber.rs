use vstd::prelude::*;
use crate::config::{Shortcut, ShortcutView};
use crate::direction::Direction;
use crate::gesture::{
    GestureResult, GestureTracker, StrokeOutcome, TrackerView, resolves_to, stroke_after_move,
};

verus! {

/// A pointer event, as far as gesture detection cares. `P` is a pointer position.
#[derive(Debug)]
pub enum InputEvent<P> {
    RightPress,
    RightRelease,
    MouseMove(P),
    /// Any other input event.
    Other,
}

/// The work to do once a gesture has finished, away from the event callback.
#[derive(Debug)]
pub enum Action {
    /// Play a plain right-click at the pointer.
    ReplayRightClick,
    /// Play this keyboard shortcut.
    FireShortcut(Shortcut),
}

/// What the event callback does with one event.
#[derive(Debug)]
pub struct EventDecision {
    /// Whether the event reaches the rest of the system (otherwise it is suppressed).
    pub pass_through: bool,
    /// Whether the event was one of the simulated right-button events still expected back.
    pub consumed_simulated: bool,
    /// The work to start, if the event finished a gesture.
    pub action: Option<Action>,
}

/// `action` is what finishing a gesture with `result` asks for: a bound shortcut is fired,
/// anything else replays the right-click.
pub open spec fn action_matches(result: GestureResult, action: Action) -> bool {
    match result {
        GestureResult::Fire(s) => action matches Action::FireShortcut(t) && t@ == s@,
        _ => action is ReplayRightClick,
    }
}

/// The work that finishing a gesture with `result` asks for.
pub fn action_for(result: GestureResult) -> (action: Action)
    ensures
        action_matches(result, action),
{
    match result {
        GestureResult::Fire(shortcut) => Action::FireShortcut(shortcut),
        _ => Action::ReplayRightClick,
    }
}

/// Whether the event is one of the right-button events that a simulated click produces.
pub open spec fn is_right_button<P>(event: InputEvent<P>) -> bool {
    event is RightPress || event is RightRelease
}

/// The tracker after one input event, when `pending_simulated` simulated events are expected.
pub open spec fn tracker_after_event<P>(
    v: TrackerView<P>,
    event: InputEvent<P>,
    pending_simulated: u32,
) -> TrackerView<P> {
    if pending_simulated > 0 {
        v
    } else {
        match event {
            InputEvent::RightPress => TrackerView { tracking: true, stroke: None, bindings: v.bindings },
            InputEvent::MouseMove(p) => if v.tracking {
                TrackerView {
                    tracking: v.tracking,
                    stroke: stroke_after_move(v.stroke, p),
                    bindings: v.bindings,
                }
            } else {
                v
            },
            InputEvent::RightRelease => if v.tracking {
                TrackerView { tracking: false, stroke: None, bindings: v.bindings }
            } else {
                v
            },
            InputEvent::Other => v,
        }
    }
}

/// The tracker after a run of input events with no simulated events expected.
pub open spec fn tracker_after_events<P>(v: TrackerView<P>, events: Seq<InputEvent<P>>) -> TrackerView<P>
    decreases events.len(),
{
    if events.len() == 0 {
        v
    } else {
        tracker_after_event(tracker_after_events(v, events.drop_last()), events.last(), 0)
    }
}

/// Decide what to do with one input event.
///
/// While simulated right-button events are still expected (`pending_simulated > 0`) every
/// event passes through untouched, and a right-button event counts as one of them. Otherwise
/// a right press is suppressed and starts a gesture; pointer moves always pass through and
/// feed the gesture being tracked; a right release while tracking is suppressed, finishes the
/// gesture and asks for its action; every other event passes through.
pub fn handle_event<P: Copy, F: Fn(P, P) -> StrokeOutcome>(
    tracker: &mut GestureTracker<P>,
    event: InputEvent<P>,
    pending_simulated: u32,
    measure: F,
) -> (decision: EventDecision)
    requires
        forall|o: P, c: P| call_requires(measure, (o, c)),
    ensures
        final(tracker)@ == tracker_after_event(old(tracker)@, event, pending_simulated),
        decision.consumed_simulated == (pending_simulated > 0 && is_right_button(event)),
        pending_simulated > 0 ==> decision.pass_through && decision.action is None,
        pending_simulated == 0 ==> match event {
            InputEvent::RightPress => !decision.pass_through && decision.action is None,
            InputEvent::MouseMove(_) => decision.pass_through && decision.action is None,
            InputEvent::RightRelease => if old(tracker)@.tracking {
                &&& !decision.pass_through
                &&& decision.action matches Some(a) && match old(tracker)@.stroke {
                    None => a is ReplayRightClick,
                    Some((o, c)) => exists|outcome: StrokeOutcome, r: GestureResult|
                        call_ensures(measure, (o, c), outcome) && resolves_to(
                            outcome,
                            old(tracker)@.bindings,
                            r,
                        ) && action_matches(r, a),
                }
            } else {
                decision.pass_through && decision.action is None
            },
            InputEvent::Other => decision.pass_through && decision.action is None,
        },
{
    if pending_simulated > 0 {
        let consumed = match event {
            InputEvent::RightPress => true,
            InputEvent::RightRelease => true,
            _ => false,
        };
        return EventDecision { pass_through: true, consumed_simulated: consumed, action: None };
    }
    match event {
        InputEvent::RightPress => {
            tracker.start();
            EventDecision { pass_through: false, consumed_simulated: false, action: None }
        },
        InputEvent::MouseMove(p) => {
            if tracker.is_tracking() {
                tracker.update(p);
            }
            EventDecision { pass_through: true, consumed_simulated: false, action: None }
        },
        InputEvent::RightRelease => {
            if !tracker.is_tracking() {
                return EventDecision { pass_through: true, consumed_simulated: false, action: None };
            }
            let result = tracker.finish(measure);
            let action = action_for(result);
            EventDecision { pass_through: false, consumed_simulated: false, action: Some(action) }
        },
        InputEvent::Other => {
            EventDecision { pass_through: true, consumed_simulated: false, action: None }
        },
    }
}

/// A gesture that does not fire a bound shortcut gives back the plain right-click it
/// suppressed: short strokes and strokes toward unbound directions replay it.
pub proof fn lemma_unfired_gestures_replay_click(
    outcome: StrokeOutcome,
    bindings: Map<Direction, ShortcutView>,
    result: GestureResult,
    action: Action,
)
    requires
        resolves_to(outcome, bindings, result),
        action_matches(result, action),
    ensures
        action is ReplayRightClick <==> !(outcome matches StrokeOutcome::Toward(d)
            && bindings.contains_key(d)),
        action matches Action::FireShortcut(s) ==> (outcome matches StrokeOutcome::Toward(d)
            && s@ == bindings[d]),
{
}

/// Right press, then pointer moves: the gesture being tracked runs from the first position
/// the pointer moved to after the press to the last one, whatever was tracked before, and
/// a press without a move tracks no stroke (so its release replays the click).
pub proof fn lemma_drag_runs_from_first_to_last_move<P>(v: TrackerView<P>, moves: Seq<P>)
    ensures
        ({
            let events = seq![InputEvent::RightPress].add(
                moves.map_values(|p: P| InputEvent::MouseMove(p)),
            );
            let w = tracker_after_events(v, events);
            &&& w.tracking
            &&& w.bindings == v.bindings
            &&& moves.len() == 0 ==> w.stroke is None
            &&& moves.len() > 0 ==> w.stroke == Some((moves[0], moves.last()))
        }),
    decreases moves.len(),
{
    let events = seq![InputEvent::RightPress].add(
        moves.map_values(|p: P| InputEvent::MouseMove(p)),
    );
    if moves.len() == 0 {
        assert(events.drop_last().len() == 0);
        assert(tracker_after_events(v, events.drop_last()) == v);
    } else {
        let earlier = moves.drop_last();
        lemma_drag_runs_from_first_to_last_move(v, earlier);
        let earlier_events = seq![InputEvent::RightPress].add(
            earlier.map_values(|p: P| InputEvent::MouseMove(p)),
        );
        assert(events.drop_last() =~= earlier_events);
        assert(events.last() == InputEvent::MouseMove(moves.last()));
        if earlier.len() > 0 {
            assert(earlier[0] == moves[0]);
        }
    }
}

} // verus!
