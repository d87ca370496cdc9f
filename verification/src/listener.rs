//! What the two input state machines have in common: the events they take,
//! the verdict and commands they give back, and the drag session.

use vstd::prelude::*;
use crate::behavior::{CursorStatePayload, HoverFadePayload};
use crate::geometry::ScreenPoint;

verus! {

/// One event of the system-wide input stream, reduced to what the state
/// machines tell apart.
#[derive(Clone, Copy, Debug, PartialEq, Eq)]
pub enum InputEvent {
    /// Either Alt key went down.
    AltPress,
    /// Either Alt key came up.
    AltRelease,
    LeftPress,
    LeftRelease,
    RightPress,
    RightRelease,
    /// The pointer moved to the given screen position.
    PointerMove(ScreenPoint),
    /// Any other key, button or wheel event.
    Other,
}

/// What becomes of an event once the listener has seen it.
#[derive(Clone, Copy, Debug, PartialEq, Eq)]
pub enum Verdict {
    /// The event goes on to the rest of the system unchanged.
    Forward,
    /// The event is swallowed; no other application sees it.
    Consume,
}

/// The listener's answer to one event: the verdict on the event and the
/// calls to make on the window.
#[derive(Clone, Copy, Debug, PartialEq, Eq)]
pub struct ListenerOutcome {
    pub verdict: Verdict,
    /// The value to hand to the window's input-transparency call, if a call
    /// is due.
    pub ignore_cursor: Option<bool>,
    /// Whether to start the platform's own window drag.
    pub start_dragging: bool,
    /// The hover-fade notification to emit, if the flag changed.
    pub hover_fade: Option<HoverFadePayload>,
}

/// The poller's answer to one tick.
#[derive(Clone, Copy, Debug, PartialEq, Eq)]
pub struct TickOutcome {
    /// The notification to emit, if the pointer entered or left the window.
    pub cursor_state: Option<CursorStatePayload>,
    /// The origin to move the window to, if a move is due.
    pub move_to: Option<ScreenPoint>,
    /// The value to hand to the window's input-transparency call, if a call
    /// is due.
    pub ignore_cursor: Option<bool>,
}

/// A drag gesture in progress: the offset between the pointer and the
/// window's origin at the moment of the grab, in screen space.
#[derive(Clone, Copy, Debug, PartialEq, Eq)]
pub struct DragSession {
    pub offset_x: i64,
    pub offset_y: i64,
}

impl ListenerOutcome {
    /// The event passes through and nothing is done to the window.
    pub open spec fn spec_pass() -> ListenerOutcome {
        ListenerOutcome {
            verdict: Verdict::Forward,
            ignore_cursor: None,
            start_dragging: false,
            hover_fade: None,
        }
    }

    /// The outcome of an event the listener has no part in.
    pub fn pass() -> (outcome: ListenerOutcome)
        ensures
            outcome == Self::spec_pass(),
    {
        ListenerOutcome {
            verdict: Verdict::Forward,
            ignore_cursor: None,
            start_dragging: false,
            hover_fade: None,
        }
    }
}

impl TickOutcome {
    /// Nothing to emit and nothing to do to the window.
    pub open spec fn spec_idle() -> TickOutcome {
        TickOutcome { cursor_state: None, move_to: None, ignore_cursor: None }
    }

    /// The outcome of a tick that changes nothing.
    pub fn idle() -> (outcome: TickOutcome)
        ensures
            outcome == Self::spec_idle(),
    {
        TickOutcome { cursor_state: None, move_to: None, ignore_cursor: None }
    }
}

impl DragSession {
    /// The session that starts when the pointer at `cursor` grabs a window
    /// whose origin is `origin`: the offset is `cursor - origin`.
    pub open spec fn spec_grab(cursor: ScreenPoint, origin: ScreenPoint) -> DragSession {
        DragSession {
            offset_x: (cursor.x - origin.x) as i64,
            offset_y: (cursor.y - origin.y) as i64,
        }
    }

    /// The horizontal position the window's origin belongs at while the
    /// pointer is at `cursor`.
    pub open spec fn spec_target_x(self, cursor: ScreenPoint) -> int {
        cursor.x - self.offset_x
    }

    /// The vertical position the window's origin belongs at while the
    /// pointer is at `cursor`.
    pub open spec fn spec_target_y(self, cursor: ScreenPoint) -> int {
        cursor.y - self.offset_y
    }

    /// Whether the origin for `cursor` is a position the screen has.
    pub open spec fn spec_reachable(self, cursor: ScreenPoint) -> bool {
        i32::MIN <= self.spec_target_x(cursor) <= i32::MAX && i32::MIN <= self.spec_target_y(cursor)
            <= i32::MAX
    }

    /// The origin `cursor - offset`, where the screen has that position.
    pub open spec fn spec_target(self, cursor: ScreenPoint) -> Option<ScreenPoint> {
        if self.spec_reachable(cursor) {
            Some(
                ScreenPoint {
                    x: self.spec_target_x(cursor) as i32,
                    y: self.spec_target_y(cursor) as i32,
                },
            )
        } else {
            None
        }
    }

    /// Starts a session: the pointer at `cursor` grabs a window whose
    /// origin is `origin`.
    pub fn grab(cursor: ScreenPoint, origin: ScreenPoint) -> (session: DragSession)
        ensures
            session == Self::spec_grab(cursor, origin),
            session.offset_x == cursor.x - origin.x,
            session.offset_y == cursor.y - origin.y,
    {
        DragSession {
            offset_x: cursor.x as i64 - origin.x as i64,
            offset_y: cursor.y as i64 - origin.y as i64,
        }
    }

    /// The origin the window belongs at while the pointer is at `cursor`,
    /// or `None` where that origin lies outside the screen's coordinates.
    pub fn target(&self, cursor: ScreenPoint) -> (target: Option<ScreenPoint>)
        ensures
            target == self.spec_target(cursor),
    {
        let x = (cursor.x as i64).checked_sub(self.offset_x);
        let y = (cursor.y as i64).checked_sub(self.offset_y);
        match (x, y) {
            (Some(tx), Some(ty)) => {
                if tx >= i32::MIN as i64 && tx <= i32::MAX as i64 && ty >= i32::MIN as i64 && ty
                    <= i32::MAX as i64 {
                    Some(ScreenPoint { x: tx as i32, y: ty as i32 })
                } else {
                    None
                }
            },
            _ => None,
        }
    }
}

} // verus!
