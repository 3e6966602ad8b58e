use vstd::prelude::*;
use crate::config::{Bindings, Shortcut, ShortcutView};
use crate::direction::Direction;

verus! {

/// Result of completing a gesture.
#[derive(Debug)]
pub enum GestureResult {
    /// Displacement below threshold: replay the right-click.
    PassThrough,
    /// Direction matched a binding: fire this shortcut.
    Fire(Shortcut),
    /// Direction matched but no binding assigned: replay the right-click.
    Unbound(Direction),
}

/// What the displacement between the two end points of a stroke amounts to.
#[derive(Debug, Clone, Copy, PartialEq, Eq, Structural)]
pub enum StrokeOutcome {
    /// The pointer moved less than the threshold distance.
    BelowThreshold,
    /// The pointer moved at least the threshold distance, in this direction.
    Toward(Direction),
}

/// `result` is what a stroke with this outcome yields under `bindings`.
pub open spec fn resolves_to(
    outcome: StrokeOutcome,
    bindings: Map<Direction, ShortcutView>,
    result: GestureResult,
) -> bool {
    match outcome {
        StrokeOutcome::BelowThreshold => result is PassThrough,
        StrokeOutcome::Toward(d) => if bindings.contains_key(d) {
            result matches GestureResult::Fire(s) && s@ == bindings[d]
        } else {
            result == GestureResult::Unbound(d)
        },
    }
}

/// The result of a measured stroke: a short stroke passes through, a stroke toward a bound
/// direction fires its shortcut, and one toward an unbound direction is unbound.
pub fn resolve(outcome: StrokeOutcome, bindings: &Bindings) -> (result: GestureResult)
    ensures
        resolves_to(outcome, bindings@, result),
{
    match outcome {
        StrokeOutcome::BelowThreshold => GestureResult::PassThrough,
        StrokeOutcome::Toward(direction) => match bindings.get(direction) {
            Some(shortcut) => GestureResult::Fire(shortcut.clone()),
            None => GestureResult::Unbound(direction),
        },
    }
}

/// Tracks pointer movement during a right-button hold to detect directional gestures.
/// `P` is a pointer position; the tracker only stores positions and hands them back.
pub struct GestureTracker<P> {
    /// Whether a gesture is being tracked.
    tracking: bool,
    /// The position where the stroke started (set on the first move after start)
    /// and the latest position.
    stroke: Option<(P, P)>,
    /// Direction-to-shortcut bindings.
    bindings: Bindings,
}

/// The state of a tracker as plain values.
pub struct TrackerView<P> {
    pub tracking: bool,
    pub stroke: Option<(P, P)>,
    pub bindings: Map<Direction, ShortcutView>,
}

impl<P> View for GestureTracker<P> {
    type V = TrackerView<P>;

    closed spec fn view(&self) -> TrackerView<P> {
        TrackerView { tracking: self.tracking, stroke: self.stroke, bindings: self.bindings@ }
    }
}

/// The stroke after the pointer moved to `p`: it starts at `p` if it had not started yet.
pub open spec fn stroke_after_move<P>(stroke: Option<(P, P)>, p: P) -> Option<(P, P)> {
    match stroke {
        Some((origin, _)) => Some((origin, p)),
        None => Some((p, p)),
    }
}

impl<P: Copy> GestureTracker<P> {
    /// An idle tracker with these bindings.
    pub fn new(bindings: Bindings) -> (tracker: Self)
        ensures
            !tracker@.tracking,
            tracker@.stroke is None,
            tracker@.bindings == bindings@,
    {
        GestureTracker { tracking: false, stroke: None, bindings }
    }

    /// Begin tracking a gesture. The origin is captured on the first pointer move.
    pub fn start(&mut self)
        ensures
            final(self)@.tracking,
            final(self)@.stroke is None,
            final(self)@.bindings == old(self)@.bindings,
    {
        self.tracking = true;
        self.stroke = None;
    }

    /// Record the pointer position `p`; the first position after start becomes the origin.
    pub fn update(&mut self, p: P)
        ensures
            final(self)@.tracking == old(self)@.tracking,
            final(self)@.stroke == stroke_after_move(old(self)@.stroke, p),
            final(self)@.bindings == old(self)@.bindings,
    {
        self.stroke = match self.stroke {
            Some((origin, _)) => Some((origin, p)),
            None => Some((p, p)),
        };
    }

    /// Whether a gesture is being tracked.
    pub fn is_tracking(&self) -> (tracking: bool)
        ensures
            tracking == self@.tracking,
    {
        self.tracking
    }

    /// The bindings the tracker fires.
    pub fn bindings(&self) -> (b: &Bindings)
        ensures
            b@ == self@.bindings,
    {
        &self.bindings
    }

    /// Finish the gesture and determine the result. `measure` turns the origin and the
    /// latest position into an outcome; without an origin the gesture passes through.
    pub fn finish<F: Fn(P, P) -> StrokeOutcome>(&mut self, measure: F) -> (result: GestureResult)
        requires
            forall|o: P, c: P| call_requires(measure, (o, c)),
        ensures
            !final(self)@.tracking,
            final(self)@.stroke is None,
            final(self)@.bindings == old(self)@.bindings,
            match old(self)@.stroke {
                None => result is PassThrough,
                Some((o, c)) => exists|outcome: StrokeOutcome|
                    call_ensures(measure, (o, c), outcome) && resolves_to(
                        outcome,
                        old(self)@.bindings,
                        result,
                    ),
            },
    {
        self.tracking = false;
        let stroke = self.stroke;
        self.stroke = None;
        match stroke {
            None => GestureResult::PassThrough,
            Some((origin, current)) => {
                let outcome = measure(origin, current);
                resolve(outcome, &self.bindings)
            },
        }
    }

    /// Replace the bindings (called when settings change at runtime).
    pub fn update_config(&mut self, bindings: Bindings)
        ensures
            final(self)@.tracking == old(self)@.tracking,
            final(self)@.stroke == old(self)@.stroke,
            final(self)@.bindings == bindings@,
    {
        self.bindings = bindings;
    }
}

/// The stroke after the pointer moved through `moves`, in order.
pub open spec fn stroke_after_moves<P>(stroke: Option<(P, P)>, moves: Seq<P>) -> Option<(P, P)>
    decreases moves.len(),
{
    if moves.len() == 0 {
        stroke
    } else {
        stroke_after_move(stroke_after_moves(stroke, moves.drop_last()), moves.last())
    }
}

/// After a gesture starts, its origin is the first position the pointer moves to and its
/// end is the last one; later moves never change an origin once it is set.
pub proof fn lemma_origin_is_first_move<P>(stroke: Option<(P, P)>, moves: Seq<P>)
    requires
        moves.len() > 0,
    ensures
        stroke is None ==> stroke_after_moves(stroke, moves) == Some((moves[0], moves.last())),
        stroke matches Some((o, _)) ==> stroke_after_moves(stroke, moves) == Some(
            (o, moves.last()),
        ),
    decreases moves.len(),
{
    let earlier = moves.drop_last();
    if moves.len() > 1 {
        lemma_origin_is_first_move(stroke, earlier);
        assert(earlier[0] == moves[0]);
    } else {
        assert(stroke_after_moves(stroke, earlier) == stroke);
    }
}

/// A stroke shorter than the threshold, or one toward a direction without a binding,
/// gives no shortcut; a stroke toward a bound direction fires exactly that binding.
pub proof fn lemma_only_bound_directions_fire(
    outcome: StrokeOutcome,
    bindings: Map<Direction, ShortcutView>,
    result: GestureResult,
)
    requires
        resolves_to(outcome, bindings, result),
    ensures
        result is Fire <==> (outcome matches StrokeOutcome::Toward(d) && bindings.contains_key(d)),
        result matches GestureResult::Fire(s) ==> (outcome matches StrokeOutcome::Toward(d)
            && s@ == bindings[d]),
        outcome is BelowThreshold ==> result is PassThrough,
        outcome matches StrokeOutcome::Toward(d) ==> (!bindings.contains_key(d) ==> result
            == GestureResult::Unbound(d)),
{
}

} // verus!
