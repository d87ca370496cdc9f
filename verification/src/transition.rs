//! The transition applier: the one place that decides whether a call into
//! the windowing system is due.
//!
//! Input transparency and window position are not idempotent from the
//! user's point of view: repeating a call can flicker or race with the
//! system's own event queue. The applier remembers the value it last asked
//! for and reports a call as due only when the requested value differs.

use vstd::prelude::*;
use crate::behavior::WindowBehaviorState;
use crate::geometry::ScreenPoint;

verus! {

/// What a [`TransitionApplier`] remembers, as a plain value for contracts.
pub struct AppliedModel {
    /// The input-transparency value last applied, if any.
    pub ignore_cursor: Option<bool>,
    /// The window origin last applied or observed, if any.
    pub position: Option<ScreenPoint>,
}

impl AppliedModel {
    /// Nothing has been applied yet.
    pub open spec fn initial() -> AppliedModel {
        AppliedModel { ignore_cursor: None, position: None }
    }

    /// Whether a request for transparency `next` needs a call.
    pub open spec fn ignore_due(self, next: bool) -> bool {
        self.ignore_cursor != Some(next)
    }

    /// The call a request for transparency `next` gives rise to.
    pub open spec fn ignore_command(self, next: bool) -> Option<bool> {
        if self.ignore_due(next) {
            Some(next)
        } else {
            None
        }
    }

    /// The memo after a request for transparency `next`.
    pub open spec fn after_ignore(self, next: bool) -> AppliedModel {
        AppliedModel { ignore_cursor: Some(next), ..self }
    }

    /// Whether a request to move the window to `target` needs a call.
    pub open spec fn move_due(self, target: ScreenPoint) -> bool {
        self.position != Some(target)
    }

    /// The call a request to move the window to `target` gives rise to.
    pub open spec fn move_command(self, target: ScreenPoint) -> Option<ScreenPoint> {
        if self.move_due(target) {
            Some(target)
        } else {
            None
        }
    }

    /// The memo after a request to move the window to `target`, and also
    /// after the window has been observed at `target`.
    pub open spec fn after_move(self, target: ScreenPoint) -> AppliedModel {
        AppliedModel { position: Some(target), ..self }
    }
}

/// The memo of the values last applied to the window.
#[derive(Debug)]
pub struct TransitionApplier {
    ignore_cursor: Option<bool>,
    position: Option<ScreenPoint>,
}

impl View for TransitionApplier {
    type V = AppliedModel;

    closed spec fn view(&self) -> AppliedModel {
        AppliedModel { ignore_cursor: self.ignore_cursor, position: self.position }
    }
}

/// The outcome of changing the click-through flag.
#[derive(Clone, Copy, Debug, PartialEq, Eq)]
pub struct ClickThroughChange {
    /// The flag's new value.
    pub enabled: bool,
    /// The value to hand to the window's input-transparency call, if a call
    /// is due.
    pub ignore_cursor: Option<bool>,
}

impl TransitionApplier {
    /// An applier that has not applied anything yet.
    pub fn new() -> (applier: TransitionApplier)
        ensures
            applier@ == AppliedModel::initial(),
    {
        TransitionApplier { ignore_cursor: None, position: None }
    }

    /// The input-transparency value last applied.
    pub fn last_ignore_cursor(&self) -> (last: Option<bool>)
        ensures
            last == self@.ignore_cursor,
    {
        self.ignore_cursor
    }

    /// The window origin last applied or observed.
    pub fn last_position(&self) -> (last: Option<ScreenPoint>)
        ensures
            last == self@.position,
    {
        self.position
    }

    /// Records that the window was seen at `origin`, so that a later request
    /// for that same origin needs no call.
    pub fn observe_position(&mut self, origin: ScreenPoint)
        ensures
            final(self)@ == old(self)@.after_move(origin),
    {
        self.position = Some(origin);
    }

    /// Requests input transparency `next`. Returns the value to hand to the
    /// window's input-transparency call, or `None` when `next` is what was
    /// applied last.
    pub fn request_ignore(&mut self, next: bool) -> (command: Option<bool>)
        ensures
            command == old(self)@.ignore_command(next),
            final(self)@ == old(self)@.after_ignore(next),
    {
        if update_ignore_state(self, next) {
            Some(next)
        } else {
            None
        }
    }

    /// Requests that the window be moved to `target`. Returns the origin to
    /// hand to the window's set-position call, or `None` when the window was
    /// last put or seen there.
    pub fn request_move(&mut self, target: ScreenPoint) -> (command: Option<ScreenPoint>)
        ensures
            command == old(self)@.move_command(target),
            final(self)@ == old(self)@.after_move(target),
    {
        let due = match self.position {
            Some(last) => last.x != target.x || last.y != target.y,
            None => true,
        };
        self.position = Some(target);
        if due {
            Some(target)
        } else {
            None
        }
    }
}

/// Records `next_ignore` as the transparency value in force and reports
/// whether the window's input-transparency call has to be made: exactly when
/// `next_ignore` differs from the value applied last, or none was applied.
pub fn update_ignore_state(applier: &mut TransitionApplier, next_ignore: bool) -> (apply: bool)
    ensures
        apply == old(applier)@.ignore_due(next_ignore),
        final(applier)@ == old(applier)@.after_ignore(next_ignore),
{
    let apply = match applier.ignore_cursor {
        Some(value) => value != next_ignore,
        None => true,
    };
    applier.ignore_cursor = Some(next_ignore);
    apply
}

/// Sets the click-through flag to `enabled` and makes the window's input
/// transparency follow it.
pub fn apply_click_through(
    applier: &mut TransitionApplier,
    state: &mut WindowBehaviorState,
    enabled: bool,
) -> (change: ClickThroughChange)
    ensures
        final(state)@ == old(state)@.with_click_through(enabled),
        final(applier)@ == old(applier)@.after_ignore(enabled),
        change.enabled == enabled,
        change.ignore_cursor == old(applier)@.ignore_command(enabled),
{
    state.set_click_through(enabled);
    let ignore_cursor = applier.request_ignore(enabled);
    ClickThroughChange { enabled, ignore_cursor }
}

/// Flips the click-through flag, makes the window's input transparency
/// follow it, and returns the flag's new value with the call that is due.
pub fn toggle_click_through(
    applier: &mut TransitionApplier,
    state: &mut WindowBehaviorState,
) -> (change: ClickThroughChange)
    ensures
        final(state)@ == old(state)@.toggle_click_through(),
        final(applier)@ == old(applier)@.after_ignore(!old(state)@.click_through),
        change.enabled == !old(state)@.click_through,
        change.ignore_cursor == old(applier)@.ignore_command(!old(state)@.click_through),
{
    let next = !state.is_click_through();
    apply_click_through(applier, state, next)
}

} // verus!
