//! Interaction engine for a transparent, always-on-top overlay window.
//!
//! The window has two interaction modes: click-through, where pointer input
//! falls through to whatever lies beneath, and drag, where the window can be
//! repositioned with the pointer. This crate holds the decisions: the mode
//! flags, the hit tests, the memo that keeps calls into the windowing system
//! from being repeated, and the two input state machines. Each state machine
//! is a function from the current state and an input to the next state and
//! the calls to make; reading the pointer, hooking the input stream and
//! mutating the window are left to the caller.
//!
//! All coordinates are whole pixels. Screen-space values are `i32`, as the
//! windowing systems report them; differences and window-local values are
//! `i64`, so no subtraction can overflow.
//!
//! - [`behavior`]: the mode flags and the controls rectangle.
//! - [`geometry`], [`hit_test`]: points, rectangles and where the pointer is.
//! - [`transition`]: the memo of what was last applied to the window.
//! - [`listener`], [`native_drag`], [`manual_drag`]: the input state
//!   machines, one for each kind of windowing system, and the poller.
//! - [`laws`]: what holds of all of these together.
//! - [`commands`], [`tray`], [`app_windows`], [`backend`], [`debug_tools`]:
//!   the decisions of the application around the overlay.

pub mod app_windows;
pub mod backend;
pub mod behavior;
pub mod commands;
pub mod debug_tools;
pub mod geometry;
pub mod laws;
pub mod listener;
pub mod manual_drag;
pub mod native_drag;
pub mod transition;
pub mod tray;
