//! Laws that hold of the engine as a whole, each proved from the
//! definitions the contracts are written in.

use vstd::prelude::*;
use crate::backend::{
    spec_all_digits, spec_decimal, spec_digits_value, spec_is_digit, spec_parse_port,
};
use crate::behavior::BehaviorModel;
use crate::geometry::{ControlBounds, ScreenPoint, WindowProbe, WindowRect, WindowSize};
use crate::hit_test::{spec_clip, spec_in_controls, spec_inside, spec_near_window};
use crate::listener::{DragSession, InputEvent, ListenerOutcome, TickOutcome, Verdict};
use crate::manual_drag::ManualDragListener;
use crate::native_drag::NativeDragListener;
use crate::transition::AppliedModel;

verus! {

/// A window rectangle contains every point strictly inside it and every
/// point on any of its four edges, and no point that has a coordinate
/// strictly outside it.
pub proof fn law_point_in_rect_inclusive(rect: WindowRect, x: int, y: int)
    ensures
        rect.left < x < rect.spec_right() && rect.top < y < rect.spec_bottom()
            ==> rect.spec_contains(x, y),
        x < rect.left || x > rect.spec_right() || y < rect.top || y > rect.spec_bottom()
            ==> !rect.spec_contains(x, y),
        (x == rect.left || x == rect.spec_right()) && rect.top <= y <= rect.spec_bottom()
            ==> rect.spec_contains(x, y),
        (y == rect.top || y == rect.spec_bottom()) && rect.left <= x <= rect.spec_right()
            ==> rect.spec_contains(x, y),
        rect.spec_contains(rect.left as int, rect.top as int),
        rect.spec_contains(rect.spec_right(), rect.spec_bottom()),
{
}

/// A controls rectangle contains every point strictly inside it and no
/// point that has a coordinate strictly outside it. One whose edges are in
/// order contains every point on any of its four edges; one whose edges are
/// out of order contains no point at all.
pub proof fn law_control_bounds_inclusive(bounds: ControlBounds, x: int, y: int)
    ensures
        bounds.left < x < bounds.right && bounds.top < y < bounds.bottom ==> bounds.spec_contains(
            x,
            y,
        ),
        x < bounds.left || x > bounds.right || y < bounds.top || y > bounds.bottom
            ==> !bounds.spec_contains(x, y),
        bounds.spec_is_ordered() && (x == bounds.left || x == bounds.right) && bounds.top <= y
            <= bounds.bottom ==> bounds.spec_contains(x, y),
        bounds.spec_is_ordered() && (y == bounds.top || y == bounds.bottom) && bounds.left <= x
            <= bounds.right ==> bounds.spec_contains(x, y),
        !bounds.spec_is_ordered() ==> !bounds.spec_contains(x, y),
{
}

/// With a margin of zero the pointer is near the window exactly when it is
/// over it.
pub proof fn law_zero_margin_is_inside(window: WindowProbe, x: int, y: int)
    ensures
        spec_near_window(window, 0, x, y) == spec_inside(window, x, y),
{
}

/// While no controls rectangle is configured, the pointer is over the
/// controls exactly when its window-local position lies in
/// `[W - 24 - 360, W - 24] x [H - 24 - 360, H - 24]` for a window `W` wide
/// and `H` high, the lower bound of each range raised to zero where it is
/// negative.
pub proof fn law_default_controls_region(
    origin: ScreenPoint,
    size: WindowSize,
    x: int,
    y: int,
)
    ensures
        spec_in_controls(WindowProbe { position: Some(origin), size: Some(size) }, None, x, y) <==> {
            let local_x = x - origin.x;
            let local_y = y - origin.y;
            &&& spec_clip(size.width - 24 - 360) <= local_x <= size.width - 24
            &&& spec_clip(size.height - 24 - 360) <= local_y <= size.height - 24
        },
        size.width >= 384 ==> spec_clip(size.width - 24 - 360) == size.width - 384,
        size.width < 384 ==> spec_clip(size.width - 24 - 360) == 0,
        size.height >= 384 ==> spec_clip(size.height - 24 - 360) == size.height - 384,
        size.height < 384 ==> spec_clip(size.height - 24 - 360) == 0,
{
}

/// Toggling click-through twice, or the drag mode twice, gives back the
/// state it started from; one toggle changes the flag.
pub proof fn law_toggles_are_self_inverse(state: BehaviorModel)
    ensures
        state.toggle_click_through().toggle_click_through() == state,
        state.toggle_drag_mode().toggle_drag_mode() == state,
        state.toggle_click_through().click_through != state.click_through,
        state.toggle_drag_mode().drag_enabled != state.drag_enabled,
{
}

/// Once a controls rectangle is configured, the pointer is over the
/// controls exactly when the rectangle contains its window-local position.
/// The window's size plays no part, known or not.
pub proof fn law_configured_bounds_override(
    state: BehaviorModel,
    bounds: ControlBounds,
    origin: ScreenPoint,
    size: Option<WindowSize>,
    x: int,
    y: int,
)
    ensures
        spec_in_controls(
            WindowProbe { position: Some(origin), size },
            state.with_controls_bounds(Some(bounds)).controls_bounds,
            x,
            y,
        ) == bounds.spec_contains(x - origin.x, y - origin.y),
{
}

/// A left-button press while the pointer is outside the window starts no
/// drag session, is forwarded, and does nothing to the window.
pub proof fn law_manual_press_outside_passes(
    listener: ManualDragListener,
    behavior: BehaviorModel,
    applied: AppliedModel,
    cursor: ScreenPoint,
    window: WindowRect,
)
    requires
        !window.spec_contains(cursor.x as int, cursor.y as int),
    ensures
        ({
            let step = listener.spec_on_event(
                behavior,
                applied,
                InputEvent::LeftPress,
                Some(cursor),
                Some(window),
            );
            &&& step.listener == listener
            &&& step.applied == applied
            &&& step.outcome == ListenerOutcome::spec_pass()
            &&& step.outcome.verdict == Verdict::Forward
        }),
{
}

/// A right-button press while the pointer is outside the window starts no
/// drag session, is forwarded, and does nothing to the window.
pub proof fn law_native_press_outside_passes(
    listener: NativeDragListener,
    behavior: BehaviorModel,
    applied: AppliedModel,
    window: WindowProbe,
)
    requires
        !spec_inside(window, listener.pointer.x as int, listener.pointer.y as int),
    ensures
        ({
            let step = listener.spec_on_event(behavior, applied, InputEvent::RightPress, window);
            &&& step.listener == listener
            &&& step.applied == applied
            &&& step.outcome == ListenerOutcome::spec_pass()
            &&& step.outcome.verdict == Verdict::Forward
        }),
{
}

/// A press that starts a drag is consumed and leaves the window
/// accepting input, whatever the mode; the release that follows is
/// consumed, ends the session and returns input transparency to the
/// click-through flag. A release with no drag in progress is forwarded
/// and changes nothing.
pub proof fn law_manual_gesture_is_swallowed_whole(
    listener: ManualDragListener,
    behavior: BehaviorModel,
    applied: AppliedModel,
    cursor: Option<ScreenPoint>,
    window: Option<WindowRect>,
)
    ensures
        ({
            let press = listener.spec_on_event(
                behavior,
                applied,
                InputEvent::LeftPress,
                cursor,
                window,
            );
            let release = listener.spec_on_event(
                behavior,
                applied,
                InputEvent::LeftRelease,
                cursor,
                window,
            );
            &&& press.outcome.verdict == Verdict::Consume <==> listener.spec_press_grabs(
                behavior,
                cursor,
                window,
            )
            &&& press.outcome.verdict == Verdict::Consume ==> press.listener.session is Some
                && press.applied.ignore_cursor == Some(false)
            &&& press.outcome.verdict == Verdict::Forward ==> press.listener == listener
                && press.applied == applied && press.outcome == ListenerOutcome::spec_pass()
            &&& release.outcome.verdict == Verdict::Consume <==> listener.session is Some
            &&& release.listener.session is None
            &&& listener.session is Some ==> release.applied.ignore_cursor == Some(
                behavior.click_through,
            )
            &&& listener.session is None ==> release.listener == listener && release.applied
                == applied && release.outcome == ListenerOutcome::spec_pass()
        }),
{
}

/// A press that starts a drag is consumed, has the system start its
/// window drag and leaves the window accepting input, whatever the mode;
/// the release that follows is consumed and ends the session. A release
/// with no drag in progress is forwarded and changes nothing.
pub proof fn law_native_gesture_is_swallowed_whole(
    listener: NativeDragListener,
    behavior: BehaviorModel,
    applied: AppliedModel,
    window: WindowProbe,
)
    ensures
        ({
            let press = listener.spec_on_event(behavior, applied, InputEvent::RightPress, window);
            let release = listener.spec_on_event(
                behavior,
                applied,
                InputEvent::RightRelease,
                window,
            );
            &&& press.outcome.verdict == Verdict::Consume <==> listener.spec_press_grabs(
                behavior,
                window,
            )
            &&& press.outcome.verdict == Verdict::Consume ==> press.listener.session is Some
                && press.outcome.start_dragging && press.applied.ignore_cursor == Some(false)
            &&& press.outcome.verdict == Verdict::Forward ==> press.listener == listener
                && press.applied == applied && press.outcome == ListenerOutcome::spec_pass()
            &&& release.outcome.verdict == Verdict::Consume <==> listener.session is Some
            &&& release.listener.session is None
            &&& listener.session is None ==> release.listener == listener && release.applied
                == applied && release.outcome == ListenerOutcome::spec_pass()
        }),
{
}

/// In click-through mode, outside a gesture, a pointer move over a
/// window that could be read leaves the window ignoring the pointer
/// exactly when the pointer is not over the controls region; the same
/// holds after the release that ends a gesture. The move itself is
/// always forwarded.
pub proof fn law_pass_through_follows_controls(
    listener: NativeDragListener,
    behavior: BehaviorModel,
    applied: AppliedModel,
    at: ScreenPoint,
    window: WindowProbe,
)
    requires
        behavior.click_through,
        window.spec_rect() is Some,
    ensures
        ({
            let moved = listener.spec_on_event(
                behavior,
                applied,
                InputEvent::PointerMove(at),
                window,
            );
            let released = listener.spec_on_event(
                behavior,
                applied,
                InputEvent::RightRelease,
                window,
            );
            let over_controls = spec_in_controls(
                window,
                behavior.controls_bounds,
                at.x as int,
                at.y as int,
            );
            &&& moved.outcome.verdict == Verdict::Forward
            &&& moved.listener.pointer == at
            &&& moved.listener.session is None ==> moved.applied.ignore_cursor == Some(
                !over_controls,
            ) && moved.listener.hover.inside_controls == over_controls
            &&& moved.listener.session is Some ==> moved.applied == applied
            &&& listener.session is Some ==> released.applied.ignore_cursor == Some(
                !spec_in_controls(
                    window,
                    behavior.controls_bounds,
                    listener.pointer.x as int,
                    listener.pointer.y as int,
                ),
            )
        }),
{
}

/// Where the window's geometry could not be read, no step changes input
/// transparency or a hover memo, and no press starts a drag.
pub proof fn law_unreadable_geometry_retains_mode(
    native: NativeDragListener,
    manual: ManualDragListener,
    behavior: BehaviorModel,
    applied: AppliedModel,
    event: InputEvent,
    cursor: Option<ScreenPoint>,
    unread: WindowProbe,
)
    requires
        unread.spec_rect() is None,
    ensures
        ({
            let step = native.spec_on_event(behavior, applied, event, unread);
            &&& step.applied == applied
            &&& step.listener.hover == native.hover
            &&& step.outcome.ignore_cursor is None
            &&& step.outcome.hover_fade is None
            &&& !step.outcome.start_dragging
            &&& native.session is None ==> step.listener.session is None
        }),
        ({
            let tick = manual.spec_on_tick(behavior, applied, cursor, None);
            &&& tick.listener == manual
            &&& tick.applied == applied
            &&& tick.outcome == TickOutcome::spec_idle()
        }),
        ({
            let press = manual.spec_on_event(behavior, applied, InputEvent::LeftPress, cursor, None);
            &&& press.listener == manual
            &&& press.applied == applied
            &&& press.outcome == ListenerOutcome::spec_pass()
        }),
{
}

/// A number written in decimal is one or more digits that spell it.
proof fn lemma_decimal_spells_number(n: nat)
    ensures
        spec_decimal(n).len() > 0,
        spec_all_digits(spec_decimal(n)),
        spec_digits_value(spec_decimal(n)) == n,
    decreases n,
{
    let text = spec_decimal(n);
    if n < 10 {
        assert(spec_digits_value(text.drop_last()) == 0);
    } else {
        lemma_decimal_spells_number(n / 10);
        let head = spec_decimal(n / 10);
        assert(text.drop_last() =~= head);
        assert forall|i: int| 0 <= i < text.len() implies spec_is_digit(#[trigger] text[i]) by {
            if i < head.len() {
                assert(text[i] == head[i]);
            }
        }
    }
}

/// Reading back a port number that was written in decimal gives the same
/// port number.
pub proof fn law_port_text_reads_back(port: u16)
    ensures
        spec_parse_port(spec_decimal(port as nat)) == Some(port),
{
    lemma_decimal_spells_number(port as nat);
}

/// On the manual-drag backend the window accepts input for the length
/// of a gesture and follows the click-through flag otherwise.
pub open spec fn spec_manual_in_step(
    listener: ManualDragListener,
    behavior: BehaviorModel,
    applied: AppliedModel,
) -> bool {
    applied.ignore_cursor == Some(
        if listener.session is Some {
            false
        } else {
            behavior.click_through
        },
    )
}

/// No event and no tick takes input transparency out of step with the
/// mode: where it is in step before an event or a tick, it is in step
/// after it.
pub proof fn law_manual_transparency_stays_in_step(
    listener: ManualDragListener,
    behavior: BehaviorModel,
    applied: AppliedModel,
    event: InputEvent,
    cursor: Option<ScreenPoint>,
    window: Option<WindowRect>,
)
    requires
        spec_manual_in_step(listener, behavior, applied),
    ensures
        ({
            let step = listener.spec_on_event(behavior, applied, event, cursor, window);
            spec_manual_in_step(step.listener, behavior, step.applied)
        }),
        ({
            let tick = listener.spec_on_tick(behavior, applied, cursor, window);
            spec_manual_in_step(tick.listener, behavior, tick.applied)
        }),
{
}

/// One input to the manual-drag backend: an event of the input stream,
/// or a tick of the poller where `event` is `None`, with what could be
/// read of the pointer and the window at that moment.
pub struct ManualInput {
    pub event: Option<InputEvent>,
    pub cursor: Option<ScreenPoint>,
    pub window: Option<WindowRect>,
}

/// The two memos of the manual-drag backend.
pub struct ManualRun {
    pub listener: ManualDragListener,
    pub applied: AppliedModel,
}

/// The memos after the listener and the poller have taken `inputs` in
/// order, the mode flags staying as they are.
pub open spec fn spec_manual_run(
    listener: ManualDragListener,
    behavior: BehaviorModel,
    applied: AppliedModel,
    inputs: Seq<ManualInput>,
) -> ManualRun
    decreases inputs.len(),
{
    if inputs.len() == 0 {
        ManualRun { listener, applied }
    } else {
        let before = spec_manual_run(listener, behavior, applied, inputs.drop_last());
        let input = inputs.last();
        match input.event {
            Some(event) => {
                let step = before.listener.spec_on_event(
                    behavior,
                    before.applied,
                    event,
                    input.cursor,
                    input.window,
                );
                ManualRun { listener: step.listener, applied: step.applied }
            },
            None => {
                let step = before.listener.spec_on_tick(
                    behavior,
                    before.applied,
                    input.cursor,
                    input.window,
                );
                ManualRun { listener: step.listener, applied: step.applied }
            },
        }
    }
}

/// Once a drag has begun it lasts until the left button is released:
/// while dragging stays enabled, no other event and no tick ends the
/// session or makes the window ignore the pointer, and the release, when
/// it comes, is consumed.
pub proof fn law_manual_drag_lasts_until_release(
    listener: ManualDragListener,
    behavior: BehaviorModel,
    applied: AppliedModel,
    inputs: Seq<ManualInput>,
    release_cursor: Option<ScreenPoint>,
    release_window: Option<WindowRect>,
)
    requires
        behavior.drag_enabled,
        listener.session is Some,
        applied.ignore_cursor == Some(false),
        forall|i: int|
            0 <= i < inputs.len() ==> (#[trigger] inputs[i]).event != Some(InputEvent::LeftRelease),
    ensures
        ({
            let run = spec_manual_run(listener, behavior, applied, inputs);
            let release = run.listener.spec_on_event(
                behavior,
                run.applied,
                InputEvent::LeftRelease,
                release_cursor,
                release_window,
            );
            &&& run.listener.session is Some
            &&& run.applied.ignore_cursor == Some(false)
            &&& release.outcome.verdict == Verdict::Consume
            &&& release.listener.session is None
        }),
    decreases inputs.len(),
{
    if inputs.len() > 0 {
        let earlier = inputs.drop_last();
        assert forall|i: int| 0 <= i < earlier.len() implies (#[trigger] earlier[i]).event != Some(
            InputEvent::LeftRelease,
        ) by {
            assert(earlier[i] == inputs[i]);
        }
        law_manual_drag_lasts_until_release(
            listener,
            behavior,
            applied,
            earlier,
            release_cursor,
            release_window,
        );
    }
}

/// One input to the native-drag backend: an event of the input stream
/// with what could be read of the window when it arrived.
pub struct NativeInput {
    pub event: InputEvent,
    pub window: WindowProbe,
}

/// The two memos of the native-drag backend.
pub struct NativeRun {
    pub listener: NativeDragListener,
    pub applied: AppliedModel,
}

/// The memos after the listener has taken `inputs` in order, the mode
/// flags staying as they are.
pub open spec fn spec_native_run(
    listener: NativeDragListener,
    behavior: BehaviorModel,
    applied: AppliedModel,
    inputs: Seq<NativeInput>,
) -> NativeRun
    decreases inputs.len(),
{
    if inputs.len() == 0 {
        NativeRun { listener, applied }
    } else {
        let before = spec_native_run(listener, behavior, applied, inputs.drop_last());
        let input = inputs.last();
        let step = before.listener.spec_on_event(
            behavior,
            before.applied,
            input.event,
            input.window,
        );
        NativeRun { listener: step.listener, applied: step.applied }
    }
}

/// Once a drag has begun it lasts until the right button is released:
/// while dragging stays enabled, no other event ends the session or makes
/// the window ignore the pointer, and the release, when it comes, is
/// consumed.
pub proof fn law_native_drag_lasts_until_release(
    listener: NativeDragListener,
    behavior: BehaviorModel,
    applied: AppliedModel,
    inputs: Seq<NativeInput>,
    release_window: WindowProbe,
)
    requires
        behavior.drag_enabled,
        listener.session is Some,
        applied.ignore_cursor == Some(false),
        forall|i: int|
            0 <= i < inputs.len() ==> (#[trigger] inputs[i]).event != InputEvent::RightRelease,
    ensures
        ({
            let run = spec_native_run(listener, behavior, applied, inputs);
            let release = run.listener.spec_on_event(
                behavior,
                run.applied,
                InputEvent::RightRelease,
                release_window,
            );
            &&& run.listener.session is Some
            &&& run.applied.ignore_cursor == Some(false)
            &&& release.outcome.verdict == Verdict::Consume
            &&& release.listener.session is None
        }),
    decreases inputs.len(),
{
    if inputs.len() > 0 {
        let earlier = inputs.drop_last();
        assert forall|i: int| 0 <= i < earlier.len() implies (#[trigger] earlier[i]).event
            != InputEvent::RightRelease by {
            assert(earlier[i] == inputs[i]);
        }
        law_native_drag_lasts_until_release(listener, behavior, applied, earlier, release_window);
    }
}

/// The calls that a run of transparency requests gives rise to, in order.
pub open spec fn spec_issued(applied: AppliedModel, requests: Seq<bool>) -> Seq<bool>
    decreases requests.len(),
{
    if requests.len() == 0 {
        Seq::empty()
    } else {
        let first = requests[0];
        let rest = spec_issued(applied.after_ignore(first), requests.skip(1));
        if applied.ignore_due(first) {
            seq![first] + rest
        } else {
            rest
        }
    }
}

/// Whatever is requested, no two calls in a row carry the same value, and
/// the first call differs from the value that was in force before.
pub proof fn law_no_repeated_transparency_call(applied: AppliedModel, requests: Seq<bool>)
    ensures
        ({
            let calls = spec_issued(applied, requests);
            &&& forall|i: int| 0 <= i < calls.len() - 1 ==> calls[i] != #[trigger] calls[i + 1]
            &&& calls.len() > 0 ==> applied.ignore_cursor != Some(calls[0])
        }),
    decreases requests.len(),
{
    if requests.len() > 0 {
        let first = requests[0];
        let rest = spec_issued(applied.after_ignore(first), requests.skip(1));
        law_no_repeated_transparency_call(applied.after_ignore(first), requests.skip(1));
        let calls = spec_issued(applied, requests);
        if applied.ignore_due(first) {
            assert forall|i: int| 0 <= i < calls.len() - 1 implies calls[i] != #[trigger] calls[i
                + 1] by {
                if i > 0 {
                    assert(calls[i + 1] == rest[(i - 1) + 1]);
                }
            }
        }
    }
}

/// Any number of requests for one value gives rise to one call where that
/// value is not yet in force, and to none where it is.
pub proof fn law_same_request_applied_once(applied: AppliedModel, value: bool, n: nat)
    ensures
        spec_issued(applied, Seq::new(n, |i: int| value)) == if n > 0 && applied.ignore_due(value) {
            seq![value]
        } else {
            Seq::<bool>::empty()
        },
    decreases n,
{
    let requests = Seq::new(n, |i: int| value);
    if n > 0 {
        let tail = Seq::new((n - 1) as nat, |i: int| value);
        assert(requests.skip(1) =~= tail);
        law_same_request_applied_once(applied.after_ignore(value), value, (n - 1) as nat);
    }
}

/// Where the window's origin is once the windowing system has carried out
/// what a tick asked for.
pub open spec fn spec_origin_after(origin: ScreenPoint, outcome: TickOutcome) -> ScreenPoint {
    match outcome.move_to {
        Some(target) => target,
        None => origin,
    }
}

/// The state of a drag partway through: the engine's two memos and where
/// the window is.
pub struct DragRun {
    pub listener: ManualDragListener,
    pub applied: AppliedModel,
    pub origin: ScreenPoint,
}

/// Runs the poller over the pointer positions `cursors`, one tick each,
/// with the windowing system moving the window as each tick asks.
pub open spec fn spec_run_ticks(
    listener: ManualDragListener,
    behavior: BehaviorModel,
    applied: AppliedModel,
    origin: ScreenPoint,
    size: WindowSize,
    cursors: Seq<ScreenPoint>,
) -> DragRun
    decreases cursors.len(),
{
    if cursors.len() == 0 {
        DragRun { listener, applied, origin }
    } else {
        let window = WindowRect {
            left: origin.x,
            top: origin.y,
            width: size.width,
            height: size.height,
        };
        let step = listener.spec_on_tick(behavior, applied, Some(cursors[0]), Some(window));
        spec_run_ticks(
            step.listener,
            behavior,
            step.applied,
            spec_origin_after(origin, step.outcome),
            size,
            cursors.skip(1),
        )
    }
}

/// While dragging stays enabled, ticks leave the session as it is, and
/// the window ends where the last tick wants it, provided the screen has
/// that position.
proof fn lemma_ticks_track_pointer(
    listener: ManualDragListener,
    behavior: BehaviorModel,
    applied: AppliedModel,
    origin: ScreenPoint,
    size: WindowSize,
    cursors: Seq<ScreenPoint>,
    session: DragSession,
)
    requires
        behavior.drag_enabled,
        listener.session == Some(session),
        applied.position == Some(origin),
    ensures
        ({
            let run = spec_run_ticks(listener, behavior, applied, origin, size, cursors);
            &&& run.listener.session == Some(session)
            &&& run.listener.alt_down == listener.alt_down
            &&& run.applied.position == Some(run.origin)
            &&& run.applied.ignore_cursor == applied.ignore_cursor
            &&& cursors.len() == 0 ==> run.origin == origin
            &&& cursors.len() > 0 && session.spec_reachable(cursors.last()) ==> session.spec_target(
                cursors.last(),
            ) == Some(run.origin)
        }),
    decreases cursors.len(),
{
    if cursors.len() > 0 {
        let window = WindowRect {
            left: origin.x,
            top: origin.y,
            width: size.width,
            height: size.height,
        };
        let step = listener.spec_on_tick(behavior, applied, Some(cursors[0]), Some(window));
        let next = spec_origin_after(origin, step.outcome);
        assert(session.spec_reachable(cursors[0]) ==> session.spec_target(cursors[0]) == Some(
            next,
        ));
        let rest = cursors.skip(1);
        lemma_ticks_track_pointer(step.listener, behavior, step.applied, next, size, rest, session);
    }
}

/// A drag from press to release leaves the window's origin at
/// `release - grab offset`, where the grab offset is the pointer position
/// at the press less the window's origin at the press.
///
/// The press is a left-button press with Alt held and dragging enabled,
/// over the window; it is consumed and opens the session. Each tick finds
/// the pointer at the next of `moves` and the window where the ticks so
/// far have put it. The release is consumed and closes the session.
///
/// The poller moves the window, not the release: `release` has to be the
/// position the poller saw last (the position of the press, if it saw
/// none), and the origin for it has to be a position the screen has.
pub proof fn law_drag_follows_pointer(
    listener: ManualDragListener,
    behavior: BehaviorModel,
    applied: AppliedModel,
    press: ScreenPoint,
    window: WindowRect,
    moves: Seq<ScreenPoint>,
    release: ScreenPoint,
    release_window: Option<WindowRect>,
)
    requires
        listener.spec_press_grabs(behavior, Some(press), Some(window)),
        release == if moves.len() == 0 {
            press
        } else {
            moves.last()
        },
        DragSession::spec_grab(press, window.spec_origin()).spec_reachable(release),
    ensures
        ({
            let grab_offset_x = press.x - window.left;
            let grab_offset_y = press.y - window.top;
            let grabbed = listener.spec_on_event(
                behavior,
                applied,
                InputEvent::LeftPress,
                Some(press),
                Some(window),
            );
            let run = spec_run_ticks(
                grabbed.listener,
                behavior,
                grabbed.applied,
                window.spec_origin(),
                window.spec_size(),
                moves,
            );
            let released = run.listener.spec_on_event(
                behavior,
                run.applied,
                InputEvent::LeftRelease,
                Some(release),
                release_window,
            );
            &&& grabbed.outcome.verdict == Verdict::Consume
            &&& grabbed.listener.session == Some(
                DragSession { offset_x: grab_offset_x as i64, offset_y: grab_offset_y as i64 },
            )
            &&& run.listener.session == grabbed.listener.session
            &&& run.origin.x == release.x - grab_offset_x
            &&& run.origin.y == release.y - grab_offset_y
            &&& released.outcome.verdict == Verdict::Consume
            &&& released.listener.session is None
            &&& released.outcome.ignore_cursor == run.applied.ignore_command(
                behavior.click_through,
            )
        }),
{
    let session = DragSession::spec_grab(press, window.spec_origin());
    let grabbed = listener.spec_on_event(
        behavior,
        applied,
        InputEvent::LeftPress,
        Some(press),
        Some(window),
    );
    lemma_ticks_track_pointer(
        grabbed.listener,
        behavior,
        grabbed.applied,
        window.spec_origin(),
        window.spec_size(),
        moves,
        session,
    );
}

} // verus!
