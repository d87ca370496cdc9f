//! The input listener and geometry poller for windowing systems without a
//! drag primitive of their own.
//!
//! The drag gesture is a left-button press while an Alt key is held and the
//! pointer is over the window. The listener swallows that press and opens a
//! [`DragSession`]; from then on the poller, on its fixed tick, moves the
//! window to `cursor - offset` until the left button is released. The two
//! run on different threads, and this state is what they share. Neither
//! step calls into the system, so the state is held only for the length of
//! a step.
//!
//! On this backend input transparency follows the click-through flag alone:
//! off for the length of a gesture, back to the flag when the gesture ends.

use vstd::prelude::*;
use crate::behavior::{BehaviorModel, CursorStatePayload, WindowBehaviorState};
use crate::geometry::{point_in_rect, ScreenPoint, WindowRect};
use crate::listener::{DragSession, InputEvent, ListenerOutcome, TickOutcome, Verdict};
use crate::transition::{AppliedModel, TransitionApplier};

verus! {

/// The time between two ticks of the poller, in milliseconds: about one
/// frame at sixty frames a second.
pub const TICK_MILLIS: u64 = 16;

/// The state shared by the listener and the poller.
#[derive(Clone, Copy, Debug, PartialEq, Eq)]
pub struct ManualDragListener {
    /// Whether an Alt key is held.
    pub alt_down: bool,
    /// The gesture in progress, if any.
    pub session: Option<DragSession>,
    /// Whether the pointer was over the window at the last tick that had
    /// data; `None` before the first such tick.
    pub inside_window: Option<bool>,
}

/// The result of one listener step, as a value for contracts.
pub struct ManualEventStep {
    pub listener: ManualDragListener,
    pub applied: AppliedModel,
    pub outcome: ListenerOutcome,
}

/// The result of one poller tick, as a value for contracts.
pub struct ManualTickStep {
    pub listener: ManualDragListener,
    pub applied: AppliedModel,
    pub outcome: TickOutcome,
}

impl ManualDragListener {
    /// No key held, no gesture, no tick seen.
    pub open spec fn spec_new() -> ManualDragListener {
        ManualDragListener { alt_down: false, session: None, inside_window: None }
    }

    /// Whether a left-button press starts a drag: dragging is enabled, an
    /// Alt key is held, both the pointer and the window could be read, and
    /// the pointer is over the window.
    pub open spec fn spec_press_grabs(
        self,
        behavior: BehaviorModel,
        cursor: Option<ScreenPoint>,
        window: Option<WindowRect>,
    ) -> bool {
        &&& behavior.drag_enabled
        &&& self.alt_down
        &&& cursor matches Some(c)
        &&& window matches Some(w)
        &&& w.spec_contains(c.x as int, c.y as int)
    }

    /// The step the listener takes on `event`. `cursor` and `window` are
    /// what could be read of the pointer and the window when the event
    /// arrived.
    pub open spec fn spec_on_event(
        self,
        behavior: BehaviorModel,
        applied: AppliedModel,
        event: InputEvent,
        cursor: Option<ScreenPoint>,
        window: Option<WindowRect>,
    ) -> ManualEventStep {
        let unchanged = ManualEventStep {
            listener: self,
            applied,
            outcome: ListenerOutcome::spec_pass(),
        };
        match event {
            InputEvent::AltPress => ManualEventStep {
                listener: ManualDragListener { alt_down: true, ..self },
                ..unchanged
            },
            InputEvent::AltRelease => ManualEventStep {
                listener: ManualDragListener { alt_down: false, ..self },
                ..unchanged
            },
            InputEvent::LeftPress => if self.spec_press_grabs(behavior, cursor, window) {
                let c = cursor->0;
                let origin = window->0.spec_origin();
                ManualEventStep {
                    listener: ManualDragListener {
                        session: Some(DragSession::spec_grab(c, origin)),
                        ..self
                    },
                    applied: applied.after_move(origin).after_ignore(false),
                    outcome: ListenerOutcome {
                        verdict: Verdict::Consume,
                        ignore_cursor: applied.ignore_command(false),
                        start_dragging: false,
                        hover_fade: None,
                    },
                }
            } else {
                unchanged
            },
            InputEvent::LeftRelease => if self.session is Some {
                ManualEventStep {
                    listener: ManualDragListener { session: None, ..self },
                    applied: applied.after_ignore(behavior.click_through),
                    outcome: ListenerOutcome {
                        verdict: Verdict::Consume,
                        ignore_cursor: applied.ignore_command(behavior.click_through),
                        start_dragging: false,
                        hover_fade: None,
                    },
                }
            } else {
                unchanged
            },
            _ => unchanged,
        }
    }

    /// The notification for a pointer at `cursor` and a window at `window`.
    pub open spec fn spec_cursor_state(cursor: ScreenPoint, window: WindowRect) -> CursorStatePayload {
        CursorStatePayload {
            cursor_x: cursor.x,
            cursor_y: cursor.y,
            window_left: window.left,
            window_top: window.top,
            window_right: window.spec_right() as i64,
            window_bottom: window.spec_bottom() as i64,
            inside_window: window.spec_contains(cursor.x as int, cursor.y as int),
        }
    }

    /// The step the poller takes on one tick. `cursor` and `window` are
    /// what could be read of the pointer and the window; where either is
    /// missing the tick is skipped.
    ///
    /// The notification is emitted on the first tick with data and then
    /// only when the pointer has entered or left the window. While a
    /// gesture is in progress the window is moved to `cursor - offset`;
    /// a gesture found in progress with dragging disabled is ended and
    /// input transparency returns to the click-through flag.
    pub open spec fn spec_on_tick(
        self,
        behavior: BehaviorModel,
        applied: AppliedModel,
        cursor: Option<ScreenPoint>,
        window: Option<WindowRect>,
    ) -> ManualTickStep {
        if cursor is None || window is None {
            ManualTickStep { listener: self, applied, outcome: TickOutcome::spec_idle() }
        } else {
            let c = cursor->0;
            let w = window->0;
            let inside = w.spec_contains(c.x as int, c.y as int);
            let cursor_state = if self.inside_window != Some(inside) {
                Some(Self::spec_cursor_state(c, w))
            } else {
                None
            };
            let seen = ManualDragListener { inside_window: Some(inside), ..self };
            match self.session {
                None => ManualTickStep {
                    listener: seen,
                    applied,
                    outcome: TickOutcome { cursor_state, move_to: None, ignore_cursor: None },
                },
                Some(session) => if !behavior.drag_enabled {
                    ManualTickStep {
                        listener: ManualDragListener { session: None, ..seen },
                        applied: applied.after_ignore(behavior.click_through),
                        outcome: TickOutcome {
                            cursor_state,
                            move_to: None,
                            ignore_cursor: applied.ignore_command(behavior.click_through),
                        },
                    }
                } else {
                    match session.spec_target(c) {
                        Some(target) => ManualTickStep {
                            listener: seen,
                            applied: applied.after_move(target),
                            outcome: TickOutcome {
                                cursor_state,
                                move_to: applied.move_command(target),
                                ignore_cursor: None,
                            },
                        },
                        None => ManualTickStep {
                            listener: seen,
                            applied,
                            outcome: TickOutcome {
                                cursor_state,
                                move_to: None,
                                ignore_cursor: None,
                            },
                        },
                    }
                },
            }
        }
    }

    /// A listener that has seen nothing yet.
    pub fn new() -> (listener: ManualDragListener)
        ensures
            listener == Self::spec_new(),
    {
        ManualDragListener { alt_down: false, session: None, inside_window: None }
    }

    /// Whether a drag gesture is in progress.
    pub fn is_dragging(&self) -> (dragging: bool)
        ensures
            dragging == (self.session is Some),
    {
        self.session.is_some()
    }

    /// Takes one event of the input stream and says whether it is
    /// forwarded or consumed and what is to be done to the window.
    pub fn on_event(
        &mut self,
        behavior: &WindowBehaviorState,
        applier: &mut TransitionApplier,
        event: InputEvent,
        cursor: Option<ScreenPoint>,
        window: Option<WindowRect>,
    ) -> (outcome: ListenerOutcome)
        ensures
            ({
                let step = old(self).spec_on_event(behavior@, old(applier)@, event, cursor, window);
                &&& *final(self) == step.listener
                &&& final(applier)@ == step.applied
                &&& outcome == step.outcome
            }),
    {
        match event {
            InputEvent::AltPress => {
                self.alt_down = true;
            },
            InputEvent::AltRelease => {
                self.alt_down = false;
            },
            InputEvent::LeftPress => {
                if !behavior.is_drag_enabled() {
                    return ListenerOutcome::pass();
                }
                if !self.alt_down {
                    return ListenerOutcome::pass();
                }
                let cursor = match cursor {
                    Some(cursor) => cursor,
                    None => return ListenerOutcome::pass(),
                };
                let rect = match window {
                    Some(rect) => rect,
                    None => return ListenerOutcome::pass(),
                };
                if point_in_rect(cursor.x, cursor.y, rect) {
                    let origin = rect.origin();
                    self.session = Some(DragSession::grab(cursor, origin));
                    applier.observe_position(origin);
                    let ignore_cursor = applier.request_ignore(false);
                    return ListenerOutcome {
                        verdict: Verdict::Consume,
                        ignore_cursor,
                        start_dragging: false,
                        hover_fade: None,
                    };
                }
            },
            InputEvent::LeftRelease => {
                if self.session.is_some() {
                    self.session = None;
                    let ignore_cursor = applier.request_ignore(behavior.is_click_through());
                    return ListenerOutcome {
                        verdict: Verdict::Consume,
                        ignore_cursor,
                        start_dragging: false,
                        hover_fade: None,
                    };
                }
            },
            _ => {},
        }
        ListenerOutcome::pass()
    }

    /// Takes one tick of the poller and says what is to be emitted and
    /// what is to be done to the window.
    pub fn on_tick(
        &mut self,
        behavior: &WindowBehaviorState,
        applier: &mut TransitionApplier,
        cursor: Option<ScreenPoint>,
        window: Option<WindowRect>,
    ) -> (outcome: TickOutcome)
        ensures
            ({
                let step = old(self).spec_on_tick(behavior@, old(applier)@, cursor, window);
                &&& *final(self) == step.listener
                &&& final(applier)@ == step.applied
                &&& outcome == step.outcome
            }),
    {
        let cursor = match cursor {
            Some(cursor) => cursor,
            None => return TickOutcome::idle(),
        };
        let rect = match window {
            Some(rect) => rect,
            None => return TickOutcome::idle(),
        };
        let inside = point_in_rect(cursor.x, cursor.y, rect);
        let changed = match self.inside_window {
            Some(before) => before != inside,
            None => true,
        };
        let cursor_state = if changed {
            Some(
                CursorStatePayload {
                    cursor_x: cursor.x,
                    cursor_y: cursor.y,
                    window_left: rect.left,
                    window_top: rect.top,
                    window_right: rect.right(),
                    window_bottom: rect.bottom(),
                    inside_window: inside,
                },
            )
        } else {
            None
        };
        self.inside_window = Some(inside);
        let mut outcome = TickOutcome { cursor_state, move_to: None, ignore_cursor: None };
        if let Some(session) = self.session {
            if !behavior.is_drag_enabled() {
                self.session = None;
                outcome.ignore_cursor = applier.request_ignore(behavior.is_click_through());
            } else if let Some(target) = session.target(cursor) {
                outcome.move_to = applier.request_move(target);
            }
        }
        outcome
    }
}

} // verus!
