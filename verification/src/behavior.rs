//! The authoritative mode flags and the optional controls rectangle.
//!
//! [`WindowBehaviorState`] is a single owned object. Its fields are private:
//! the operations below are the only way to read or change it, and each says
//! exactly how the state after the call relates to the state before. A caller
//! that shares the state across threads wraps it in its own synchronisation
//! and holds the lock only for the duration of one operation.

use vstd::prelude::*;
use crate::geometry::ControlBounds;

verus! {

/// The name under which a [`HoverFadePayload`] is emitted.
pub const HOVER_FADE_EVENT: &'static str = "whalewhisper:desktop-hover";

/// The name under which a [`CursorStatePayload`] is emitted.
pub const CURSOR_STATE_EVENT: &'static str = "whalewhisper:desktop-cursor";

/// What a [`WindowBehaviorState`] holds, as a plain value for contracts.
pub struct BehaviorModel {
    pub click_through: bool,
    pub drag_enabled: bool,
    pub controls_bounds: Option<ControlBounds>,
}

impl BehaviorModel {
    /// The state a process starts with: input is captured, dragging is
    /// enabled, and no controls rectangle has been configured.
    pub open spec fn initial() -> BehaviorModel {
        BehaviorModel { click_through: false, drag_enabled: true, controls_bounds: None }
    }

    pub open spec fn with_click_through(self, enabled: bool) -> BehaviorModel {
        BehaviorModel { click_through: enabled, ..self }
    }

    pub open spec fn with_drag_enabled(self, enabled: bool) -> BehaviorModel {
        BehaviorModel { drag_enabled: enabled, ..self }
    }

    pub open spec fn with_controls_bounds(self, bounds: Option<ControlBounds>) -> BehaviorModel {
        BehaviorModel { controls_bounds: bounds, ..self }
    }

    pub open spec fn toggle_click_through(self) -> BehaviorModel {
        self.with_click_through(!self.click_through)
    }

    pub open spec fn toggle_drag_mode(self) -> BehaviorModel {
        self.with_drag_enabled(!self.drag_enabled)
    }

    /// The pair of flags a snapshot reports.
    pub open spec fn payload(self) -> WindowBehaviorPayload {
        WindowBehaviorPayload { click_through: self.click_through, drag_enabled: self.drag_enabled }
    }
}

/// A point-in-time reading of the two mode flags, as handed to the
/// presentation layer.
#[derive(Clone, Copy, Debug, PartialEq, Eq)]
pub struct WindowBehaviorPayload {
    pub click_through: bool,
    pub drag_enabled: bool,
}

/// The hover-fade flag, as handed to the presentation layer when it changes.
#[derive(Clone, Copy, Debug, PartialEq, Eq)]
pub struct HoverFadePayload {
    pub faded: bool,
}

/// The pointer's relation to the window, as handed to the presentation
/// layer when the pointer enters or leaves the window.
#[derive(Clone, Copy, Debug, PartialEq, Eq)]
pub struct CursorStatePayload {
    pub cursor_x: i32,
    pub cursor_y: i32,
    pub window_left: i32,
    pub window_top: i32,
    pub window_right: i64,
    pub window_bottom: i64,
    pub inside_window: bool,
}

/// The mode flags and the controls rectangle of one overlay window.
#[derive(Debug)]
pub struct WindowBehaviorState {
    click_through: bool,
    drag_enabled: bool,
    controls_bounds: Option<ControlBounds>,
}

impl View for WindowBehaviorState {
    type V = BehaviorModel;

    closed spec fn view(&self) -> BehaviorModel {
        BehaviorModel {
            click_through: self.click_through,
            drag_enabled: self.drag_enabled,
            controls_bounds: self.controls_bounds,
        }
    }
}

impl Default for WindowBehaviorState {
    fn default() -> (state: WindowBehaviorState)
        ensures
            state@ == BehaviorModel::initial(),
    {
        WindowBehaviorState { click_through: false, drag_enabled: true, controls_bounds: None }
    }
}

impl WindowBehaviorState {
    /// Reads both mode flags at once.
    pub fn snapshot(&self) -> (payload: WindowBehaviorPayload)
        ensures
            payload == self@.payload(),
    {
        WindowBehaviorPayload {
            click_through: self.is_click_through(),
            drag_enabled: self.is_drag_enabled(),
        }
    }

    pub fn is_click_through(&self) -> (enabled: bool)
        ensures
            enabled == self@.click_through,
    {
        self.click_through
    }

    pub fn set_click_through(&mut self, enabled: bool)
        ensures
            final(self)@ == old(self)@.with_click_through(enabled),
    {
        self.click_through = enabled;
    }

    pub fn is_drag_enabled(&self) -> (enabled: bool)
        ensures
            enabled == self@.drag_enabled,
    {
        self.drag_enabled
    }

    pub fn set_drag_enabled(&mut self, enabled: bool)
        ensures
            final(self)@ == old(self)@.with_drag_enabled(enabled),
    {
        self.drag_enabled = enabled;
    }

    /// Replaces the controls rectangle. `None` returns to the default region.
    pub fn set_controls_bounds(&mut self, bounds: Option<ControlBounds>)
        ensures
            final(self)@ == old(self)@.with_controls_bounds(bounds),
    {
        self.controls_bounds = bounds;
    }

    pub fn controls_bounds(&self) -> (bounds: Option<ControlBounds>)
        ensures
            bounds == self@.controls_bounds,
    {
        self.controls_bounds
    }
}

/// Flips the drag flag and returns its new value.
pub fn toggle_drag_mode(state: &mut WindowBehaviorState) -> (next: bool)
    ensures
        next == !old(state)@.drag_enabled,
        final(state)@ == old(state)@.toggle_drag_mode(),
{
    let next = !state.is_drag_enabled();
    state.set_drag_enabled(next);
    next
}

} // verus!
