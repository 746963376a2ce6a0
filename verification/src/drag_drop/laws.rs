//! What holds of every drag.

use crate::drag_drop::modifiers::Modifier;
use crate::drag_drop::session::{
    DragEngine, DragSession, OverlayRequest, Pointer, RawInputEvent, Reaction, Release, Surroundings,
    WindowHandle,
};
use vstd::prelude::*;

verus! {

/// An event with what was found around it.
pub struct Input {
    pub event: RawInputEvent,
    pub around: Surroundings,
}

/// The engine after a run of inputs.
pub open spec fn run(engine: DragEngine, inputs: Seq<Input>) -> DragEngine
    decreases inputs.len(),
{
    if inputs.len() == 0 {
        engine
    } else {
        run(engine, inputs.drop_last()).step(inputs.last().event, inputs.last().around).0
    }
}

/// What the caller is told to do at the input `i` of a run.
pub open spec fn reaction_at(engine: DragEngine, inputs: Seq<Input>, i: int) -> Reaction {
    run(engine, inputs.take(i)).step(inputs[i].event, inputs[i].around).1
}

/// A run of one input more is a step from the run before it.
proof fn run_unfolds(engine: DragEngine, inputs: Seq<Input>, k: int)
    requires
        0 <= k < inputs.len(),
    ensures
        run(engine, inputs.take(k + 1)) == run(engine, inputs.take(k)).step(
            inputs[k].event,
            inputs[k].around,
        ).0,
{
    assert(inputs.take(k + 1).drop_last() =~= inputs.take(k));
    assert(inputs.take(k + 1).last() == inputs[k]);
}

/// Every event leaves the session well-formed: it tracks a window exactly
/// while a drag is under way, and holds nothing once the drag has ended.
pub proof fn step_keeps_session_well_formed(engine: DragEngine, event: RawInputEvent, around: Surroundings)
    requires
        engine.wf(),
    ensures
        engine.step(event, around).0.wf(),
{
}

/// The overlay is asked for only while it is not up, and is up once it has
/// been asked for: no event asks for it a second time. It is sent away by the
/// modifier going up only while it is up.
pub proof fn overlay_is_asked_for_once(engine: DragEngine, event: RawInputEvent, around: Surroundings)
    requires
        engine.wf(),
    ensures
        ({
            let (after, reaction) = engine.step(event, around);
            &&& reaction.overlay == OverlayRequest::Show ==> !engine.session.overlay_visible
                && after.session.overlay_visible && after.session.active
            &&& reaction.overlay == OverlayRequest::Hide ==> !after.session.overlay_visible
            &&& reaction.overlay == OverlayRequest::Nothing ==> after.session.overlay_visible
                == engine.session.overlay_visible
        }),
{
}

/// The overlay is asked for only where a modifier is configured and held and
/// the setting allows the overlay.
pub proof fn overlay_needs_the_modifier(engine: DragEngine, event: RawInputEvent, around: Surroundings)
    requires
        engine.step(event, around).1.overlay == OverlayRequest::Show,
    ensures
        around.show_drag_overlay,
        around.drag_modifier matches Some(modifier) && engine.step(event, around).0.modifiers.holds(modifier),
{
}

/// Within one drag, a modifier once seen stays seen.
pub proof fn seen_modifier_stays_seen(engine: DragEngine, event: RawInputEvent, around: Surroundings)
    requires
        engine.session.active,
        engine.session.modifier_seen_during_drag,
        engine.step(event, around).0.session.active,
    ensures
        engine.step(event, around).0.session.modifier_seen_during_drag,
{
}

/// A window is released only by the button going up, only where the modifier
/// was seen during the drag, and it is the window that the drag tracked, at
/// the pointer's last position.
pub proof fn release_needs_seen_modifier(engine: DragEngine, event: RawInputEvent, around: Surroundings)
    requires
        engine.wf(),
    ensures
        ({
            let (after, reaction) = engine.step(event, around);
            reaction.release is Some <==> event == RawInputEvent::ButtonUp && engine.session.active
                && engine.session.modifier_seen_during_drag
        }),
        engine.step(event, around).1.release matches Some(release) ==> engine.session.tracked_window
            == Some(release.window) && release.pointer == engine.session.last_pointer,
{
}

/// Every button going up ends the drag, whatever happened in it: nothing of
/// the drag is kept but where the pointer was last seen, and the overlay is
/// sent away.
pub proof fn button_up_ends_the_drag(engine: DragEngine, around: Surroundings)
    ensures
        !engine.step(RawInputEvent::ButtonUp, around).0.session.active,
        engine.session.active ==> engine.step(RawInputEvent::ButtonUp, around).0.session
            == DragSession::idle_at(engine.session.last_pointer) && engine.step(
            RawInputEvent::ButtonUp,
            around,
        ).1.overlay == OverlayRequest::Hide,
{
}

/// A move leaves the pointer at its position, whether or not a drag is under
/// way, and changes no modifier. Outside a drag it changes nothing else and
/// asks for nothing.
pub proof fn move_records_the_pointer(engine: DragEngine, x: i32, y: i32, around: Surroundings)
    ensures
        ({
            let (after, reaction) = engine.step(RawInputEvent::Move { x, y }, around);
            &&& after.session.last_pointer == Pointer { x, y }
            &&& after.modifiers == engine.modifiers
            &&& !engine.session.active ==> reaction == Reaction::nothing() && after == (DragEngine {
                session: DragSession { last_pointer: Pointer { x, y }, ..engine.session },
                ..engine
            })
        }),
{
}

/// Only a move changes where the pointer was last seen.
pub proof fn only_a_move_moves_the_pointer(engine: DragEngine, event: RawInputEvent, around: Surroundings)
    requires
        !(event is Move),
    ensures
        engine.step(event, around).0.session.last_pointer == engine.session.last_pointer,
{
}

/// A window dragged without a move is released where the pointer was before
/// the drag: a move outside a drag, the button going down and the button
/// going up with the modifier held release the window at the move's position.
pub proof fn drag_without_a_move_releases_at_the_pointer(
    engine: DragEngine,
    window: WindowHandle,
    modifier: Modifier,
    x: i32,
    y: i32,
    around: Surroundings,
)
    requires
        engine.wf(),
        !engine.session.active,
        engine.modifiers.holds(modifier),
        around.frontmost == Some(window),
        around.drag_modifier == Some(modifier),
    ensures
        ({
            let moved = engine.step(RawInputEvent::Move { x, y }, around).0;
            let down = moved.step(RawInputEvent::ButtonDown, around).0;
            let (up, reaction) = down.step(RawInputEvent::ButtonUp, around);
            &&& reaction.release == Some(Release { window, pointer: Pointer { x, y } })
            &&& up.session == DragSession::idle_at(Pointer { x, y })
        }),
{
}

/// No key of `modifier` goes down in `inputs`.
pub open spec fn never_pressed(inputs: Seq<Input>, modifier: Modifier) -> bool {
    forall|i: int|
        0 <= i < inputs.len() ==> ((#[trigger] inputs[i]).event matches RawInputEvent::KeyDown { key }
            ==> key.modifier() != Some(modifier))
}

/// Wherever a drag modifier is configured in `inputs`, it is `modifier`.
pub open spec fn configured_as(inputs: Seq<Input>, modifier: Modifier) -> bool {
    forall|i: int|
        0 <= i < inputs.len() ==> ((#[trigger] inputs[i]).around.drag_modifier matches Some(m) ==> m
            == modifier)
}

proof fn unpressed_run(engine: DragEngine, inputs: Seq<Input>, modifier: Modifier, k: int)
    requires
        engine.wf(),
        !engine.session.active,
        !engine.modifiers.holds(modifier),
        never_pressed(inputs, modifier),
        configured_as(inputs, modifier),
        0 <= k <= inputs.len(),
    ensures
        ({
            let reached = run(engine, inputs.take(k));
            &&& reached.wf()
            &&& !reached.modifiers.holds(modifier)
            &&& !reached.session.modifier_seen_during_drag
            &&& !reached.session.overlay_visible
        }),
    decreases k,
{
    if k == 0 {
        assert(inputs.take(0) =~= Seq::<Input>::empty());
    } else {
        unpressed_run(engine, inputs, modifier, k - 1);
        run_unfolds(engine, inputs, k - 1);
        let _ = inputs[k - 1];
    }
}

/// From an idle engine, as long as the configured modifier is not held and
/// none of its keys goes down, no event asks for the overlay and no window is
/// released: the window stays where the drag left it.
pub proof fn drag_without_modifier_does_nothing(
    engine: DragEngine,
    inputs: Seq<Input>,
    modifier: Modifier,
    i: int,
)
    requires
        engine.wf(),
        !engine.session.active,
        !engine.modifiers.holds(modifier),
        never_pressed(inputs, modifier),
        configured_as(inputs, modifier),
        0 <= i < inputs.len(),
    ensures
        reaction_at(engine, inputs, i).overlay != OverlayRequest::Show,
        reaction_at(engine, inputs, i).release is None,
{
    unpressed_run(engine, inputs, modifier, i);
    let _ = inputs[i];
}

/// One whole drag: the button goes down, the pointer moves through `moves`,
/// the button goes up, with the same surroundings at every event.
pub open spec fn whole_drag(moves: Seq<Pointer>, around: Surroundings) -> Seq<Input> {
    Seq::new(
        (moves.len() + 2) as nat,
        |i: int|
            if i == 0 {
                Input { event: RawInputEvent::ButtonDown, around }
            } else if i <= moves.len() {
                Input { event: RawInputEvent::Move { x: moves[i - 1].x, y: moves[i - 1].y }, around }
            } else {
                Input { event: RawInputEvent::ButtonUp, around }
            },
    )
}

/// Where the pointer was last seen after `moves`, having been at `before`
/// when they began.
pub open spec fn last_of(moves: Seq<Pointer>, before: Pointer) -> Pointer {
    if moves.len() == 0 {
        before
    } else {
        moves.last()
    }
}

proof fn held_run(
    engine: DragEngine,
    window: WindowHandle,
    modifier: Modifier,
    moves: Seq<Pointer>,
    around: Surroundings,
    k: int,
)
    requires
        engine.wf(),
        !engine.session.active,
        engine.modifiers.holds(modifier),
        around == (Surroundings {
            frontmost: Some(window),
            drag_modifier: Some(modifier),
            show_drag_overlay: true,
        }),
        1 <= k <= moves.len() + 1,
    ensures
        run(engine, whole_drag(moves, around).take(k)) == (DragEngine {
            modifiers: engine.modifiers,
            session: DragSession {
                active: true,
                tracked_window: Some(window),
                modifier_seen_during_drag: true,
                overlay_visible: true,
                last_pointer: last_of(moves.take(k - 1), engine.session.last_pointer),
            },
        }),
    decreases k,
{
    let inputs = whole_drag(moves, around);
    run_unfolds(engine, inputs, k - 1);
    if k == 1 {
        assert(inputs.take(0) =~= Seq::<Input>::empty());
        assert(moves.take(0) =~= Seq::<Pointer>::empty());
    } else {
        held_run(engine, window, modifier, moves, around, k - 1);
        assert(moves.take(k - 1).last() == moves[k - 2]);
    }
}

/// One whole drag with the configured modifier held from the start, and the
/// overlay allowed by the setting: the button going down raises the window
/// and asks for the overlay, no move asks for it again, and the button going
/// up sends the overlay away and releases the window at the pointer's last
/// position, which is where the pointer was before the drag if it did not
/// move. The engine is idle again afterwards.
pub proof fn drag_with_modifier_snaps(
    engine: DragEngine,
    window: WindowHandle,
    modifier: Modifier,
    moves: Seq<Pointer>,
    around: Surroundings,
)
    requires
        engine.wf(),
        !engine.session.active,
        engine.modifiers.holds(modifier),
        around == (Surroundings {
            frontmost: Some(window),
            drag_modifier: Some(modifier),
            show_drag_overlay: true,
        }),
    ensures
        ({
            let inputs = whole_drag(moves, around);
            &&& reaction_at(engine, inputs, 0) == (Reaction {
                raise: Some(window),
                pointer: None,
                overlay: OverlayRequest::Show,
                release: None,
            })
            &&& forall|i: int|
                1 <= i <= moves.len() ==> #[trigger] reaction_at(engine, inputs, i) == (Reaction {
                    raise: Some(window),
                    pointer: Some(moves[i - 1]),
                    overlay: OverlayRequest::Nothing,
                    release: None,
                })
            &&& reaction_at(engine, inputs, moves.len() as int + 1) == (Reaction {
                raise: None,
                pointer: None,
                overlay: OverlayRequest::Hide,
                release: Some(Release { window, pointer: last_of(moves, engine.session.last_pointer) }),
            })
            &&& run(engine, inputs).session == DragSession::idle_at(last_of(moves, engine.session.last_pointer))
        }),
{
    let inputs = whole_drag(moves, around);
    let n = moves.len() as int;
    assert(inputs.take(0) =~= Seq::<Input>::empty());
    assert forall|i: int| 1 <= i <= n implies #[trigger] reaction_at(engine, inputs, i) == (Reaction {
        raise: Some(window),
        pointer: Some(moves[i - 1]),
        overlay: OverlayRequest::Nothing,
        release: None,
    }) by {
        held_run(engine, window, modifier, moves, around, i);
    }
    held_run(engine, window, modifier, moves, around, n + 1);
    assert(moves.take(n) =~= moves);
    assert(inputs.take(n + 2) =~= inputs);
    run_unfolds(engine, inputs, n + 1);
}

} // verus!
