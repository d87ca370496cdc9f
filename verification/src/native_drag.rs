//! The input listener for windowing systems that can drag a window
//! themselves.
//!
//! The drag gesture is a right-button press while the pointer is over the
//! window. The listener swallows that press, makes the window accept input
//! and has the system start its own window drag; the matching release ends
//! the gesture and is swallowed too.
//!
//! On this backend the listener also watches pointer movement. In
//! click-through mode the window is transparent to input except while the
//! pointer is over the controls region, and each move may raise or drop
//! the hover fade.

use vstd::prelude::*;
use crate::behavior::{BehaviorModel, HoverFadePayload, WindowBehaviorState};
use crate::geometry::{ScreenPoint, WindowProbe};
use crate::hit_test::{
    is_cursor_in_controls, is_cursor_inside, is_cursor_near_window, spec_in_controls, spec_inside,
    spec_near_window, DEFAULT_FADE_MARGIN,
};
use crate::listener::{DragSession, InputEvent, ListenerOutcome, Verdict};
use crate::transition::{AppliedModel, TransitionApplier};

verus! {

/// The hover classifications computed last. A memo for telling changes
/// from repetitions; never consulted for what the pointer is over now.
#[derive(Clone, Copy, Debug, PartialEq, Eq)]
pub struct HoverState {
    /// Whether the pointer was near the window.
    pub faded: bool,
    /// Whether the pointer was over the controls region.
    pub inside_controls: bool,
}

/// The listener's state.
#[derive(Clone, Copy, Debug, PartialEq, Eq)]
pub struct NativeDragListener {
    /// Where the pointer was last seen; the screen's origin before the
    /// first move.
    pub pointer: ScreenPoint,
    /// The gesture in progress, if any.
    pub session: Option<DragSession>,
    pub hover: HoverState,
    /// Margin around the window within which the pointer counts as near.
    pub fade_margin: u32,
}

/// The result of one listener step, as a value for contracts.
pub struct NativeEventStep {
    pub listener: NativeDragListener,
    pub applied: AppliedModel,
    pub outcome: ListenerOutcome,
}

impl NativeDragListener {
    /// Pointer at the screen's origin, no gesture, nothing hovered.
    pub open spec fn spec_with_fade_margin(fade_margin: u32) -> NativeDragListener {
        NativeDragListener {
            pointer: ScreenPoint { x: 0, y: 0 },
            session: None,
            hover: HoverState { faded: false, inside_controls: false },
            fade_margin,
        }
    }

    /// The listener with the default fade margin.
    pub open spec fn spec_new() -> NativeDragListener {
        Self::spec_with_fade_margin(DEFAULT_FADE_MARGIN)
    }

    /// Whether a right-button press starts a drag: dragging is enabled and
    /// the pointer was last seen over the window.
    pub open spec fn spec_press_grabs(self, behavior: BehaviorModel, window: WindowProbe) -> bool {
        behavior.drag_enabled && spec_inside(window, self.pointer.x as int, self.pointer.y as int)
    }

    /// The input transparency that belongs to the current mode while the
    /// pointer is at `at` and no gesture is in progress: the window ignores
    /// the pointer exactly when click-through is on and the pointer is not
    /// over the controls region.
    pub open spec fn spec_resting_ignore(
        behavior: BehaviorModel,
        window: WindowProbe,
        at: ScreenPoint,
    ) -> bool {
        behavior.click_through && !spec_in_controls(
            window,
            behavior.controls_bounds,
            at.x as int,
            at.y as int,
        )
    }

    /// The gesture that is still in progress: a gesture found in progress
    /// with dragging disabled is ended.
    pub open spec fn spec_live_session(self, behavior: BehaviorModel) -> Option<DragSession> {
        if behavior.drag_enabled {
            self.session
        } else {
            None
        }
    }

    /// The step taken on a pointer move to `at`.
    ///
    /// The position is recorded. Where the window's rectangle could not be
    /// read the move changes nothing else: the hover memo and the input
    /// transparency stay as they are until a move finds the window again.
    /// Otherwise the hover fade is raised or dropped if it changed, and in
    /// click-through mode, outside a gesture, input transparency follows
    /// the controls region.
    pub open spec fn spec_on_move(
        self,
        behavior: BehaviorModel,
        applied: AppliedModel,
        at: ScreenPoint,
        window: WindowProbe,
    ) -> NativeEventStep {
        let session = self.spec_live_session(behavior);
        if window.spec_rect() is None {
            NativeEventStep {
                listener: NativeDragListener { pointer: at, session, ..self },
                applied,
                outcome: ListenerOutcome::spec_pass(),
            }
        } else {
            let near = spec_near_window(window, self.fade_margin, at.x as int, at.y as int);
            let hover_fade = if near != self.hover.faded {
                Some(HoverFadePayload { faded: near })
            } else {
                None
            };
            if behavior.click_through && session is None {
                let inside = spec_in_controls(
                    window,
                    behavior.controls_bounds,
                    at.x as int,
                    at.y as int,
                );
                NativeEventStep {
                    listener: NativeDragListener {
                        pointer: at,
                        session,
                        hover: HoverState { faded: near, inside_controls: inside },
                        ..self
                    },
                    applied: applied.after_ignore(!inside),
                    outcome: ListenerOutcome {
                        verdict: Verdict::Forward,
                        ignore_cursor: applied.ignore_command(!inside),
                        start_dragging: false,
                        hover_fade,
                    },
                }
            } else {
                NativeEventStep {
                    listener: NativeDragListener {
                        pointer: at,
                        session,
                        hover: HoverState { faded: near, ..self.hover },
                        ..self
                    },
                    applied,
                    outcome: ListenerOutcome {
                        verdict: Verdict::Forward,
                        ignore_cursor: None,
                        start_dragging: false,
                        hover_fade,
                    },
                }
            }
        }
    }

    /// The step taken on the release that ends a gesture. The release is
    /// consumed and the session closed. Input transparency returns to what
    /// the mode and the pointer's position call for; where the window's
    /// rectangle could not be read it stays as it is.
    pub open spec fn spec_on_drag_end(
        self,
        behavior: BehaviorModel,
        applied: AppliedModel,
        window: WindowProbe,
    ) -> NativeEventStep {
        if window.spec_rect() is None {
            NativeEventStep {
                listener: NativeDragListener { session: None, ..self },
                applied,
                outcome: ListenerOutcome {
                    verdict: Verdict::Consume,
                    ignore_cursor: None,
                    start_dragging: false,
                    hover_fade: None,
                },
            }
        } else {
            let inside = spec_in_controls(
                window,
                behavior.controls_bounds,
                self.pointer.x as int,
                self.pointer.y as int,
            );
            let ignore = Self::spec_resting_ignore(behavior, window, self.pointer);
            NativeEventStep {
                listener: NativeDragListener {
                    session: None,
                    hover: HoverState { inside_controls: inside, ..self.hover },
                    ..self
                },
                applied: applied.after_ignore(ignore),
                outcome: ListenerOutcome {
                    verdict: Verdict::Consume,
                    ignore_cursor: applied.ignore_command(ignore),
                    start_dragging: false,
                    hover_fade: None,
                },
            }
        }
    }

    /// The step the listener takes on `event`. `window` is what could be
    /// read of the window when the event arrived.
    pub open spec fn spec_on_event(
        self,
        behavior: BehaviorModel,
        applied: AppliedModel,
        event: InputEvent,
        window: WindowProbe,
    ) -> NativeEventStep {
        let unchanged = NativeEventStep {
            listener: self,
            applied,
            outcome: ListenerOutcome::spec_pass(),
        };
        match event {
            InputEvent::PointerMove(at) => self.spec_on_move(behavior, applied, at, window),
            InputEvent::RightPress => if self.spec_press_grabs(behavior, window) {
                NativeEventStep {
                    listener: NativeDragListener {
                        session: Some(DragSession::spec_grab(self.pointer, window.position->0)),
                        ..self
                    },
                    applied: applied.after_ignore(false),
                    outcome: ListenerOutcome {
                        verdict: Verdict::Consume,
                        ignore_cursor: applied.ignore_command(false),
                        start_dragging: true,
                        hover_fade: None,
                    },
                }
            } else {
                unchanged
            },
            InputEvent::RightRelease => if self.session is Some {
                self.spec_on_drag_end(behavior, applied, window)
            } else {
                unchanged
            },
            _ => unchanged,
        }
    }

    /// A listener with the default fade margin.
    pub fn new() -> (listener: NativeDragListener)
        ensures
            listener == Self::spec_new(),
    {
        Self::with_fade_margin(DEFAULT_FADE_MARGIN)
    }

    /// A listener for which the pointer counts as near the window within
    /// `fade_margin` pixels of it.
    pub fn with_fade_margin(fade_margin: u32) -> (listener: NativeDragListener)
        ensures
            listener == Self::spec_with_fade_margin(fade_margin),
    {
        NativeDragListener {
            pointer: ScreenPoint { x: 0, y: 0 },
            session: None,
            hover: HoverState { faded: false, inside_controls: false },
            fade_margin,
        }
    }

    /// Whether a drag gesture is in progress.
    pub fn is_dragging(&self) -> (dragging: bool)
        ensures
            dragging == (self.session is Some),
    {
        self.session.is_some()
    }

    /// Takes one event of the input stream and says whether it is
    /// forwarded or consumed, what is to be done to the window and what is
    /// to be emitted.
    pub fn on_event(
        &mut self,
        behavior: &WindowBehaviorState,
        applier: &mut TransitionApplier,
        event: InputEvent,
        window: &WindowProbe,
    ) -> (outcome: ListenerOutcome)
        ensures
            ({
                let step = old(self).spec_on_event(behavior@, old(applier)@, event, *window);
                &&& *final(self) == step.listener
                &&& final(applier)@ == step.applied
                &&& outcome == step.outcome
            }),
    {
        match event {
            InputEvent::PointerMove(at) => {
                self.pointer = at;
                if !behavior.is_drag_enabled() {
                    self.session = None;
                }
                if window.rect().is_none() {
                    return ListenerOutcome::pass();
                }
                let should_fade = is_cursor_near_window(window, at.x, at.y, self.fade_margin);
                let was_faded = self.hover.faded;
                self.hover.faded = should_fade;
                let hover_fade = if should_fade != was_faded {
                    Some(HoverFadePayload { faded: should_fade })
                } else {
                    None
                };
                let mut ignore_cursor: Option<bool> = None;
                if behavior.is_click_through() && self.session.is_none() {
                    let inside_controls = is_cursor_in_controls(window, behavior, at.x, at.y);
                    self.hover.inside_controls = inside_controls;
                    ignore_cursor = applier.request_ignore(!inside_controls);
                }
                return ListenerOutcome {
                    verdict: Verdict::Forward,
                    ignore_cursor,
                    start_dragging: false,
                    hover_fade,
                };
            },
            InputEvent::RightPress => {
                if !behavior.is_drag_enabled() {
                    return ListenerOutcome::pass();
                }
                if is_cursor_inside(window, self.pointer.x, self.pointer.y) {
                    let origin = match window.position {
                        Some(origin) => origin,
                        None => return ListenerOutcome::pass(),
                    };
                    self.session = Some(DragSession::grab(self.pointer, origin));
                    let ignore_cursor = applier.request_ignore(false);
                    return ListenerOutcome {
                        verdict: Verdict::Consume,
                        ignore_cursor,
                        start_dragging: true,
                        hover_fade: None,
                    };
                }
            },
            InputEvent::RightRelease => {
                if self.session.is_some() {
                    self.session = None;
                    let mut ignore_cursor: Option<bool> = None;
                    if window.rect().is_some() {
                        let inside_controls = is_cursor_in_controls(
                            window,
                            behavior,
                            self.pointer.x,
                            self.pointer.y,
                        );
                        self.hover.inside_controls = inside_controls;
                        ignore_cursor = applier.request_ignore(
                            behavior.is_click_through() && !inside_controls,
                        );
                    }
                    return ListenerOutcome {
                        verdict: Verdict::Consume,
                        ignore_cursor,
                        start_dragging: false,
                        hover_fade: None,
                    };
                }
            },
            _ => {},
        }
        ListenerOutcome::pass()
    }
}

} // verus!
