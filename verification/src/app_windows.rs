//! How the application's windows are set up and what closing them does.

use vstd::prelude::*;
use crate::geometry::{ScreenPoint, WindowSize};

verus! {

// The labels the application's windows go by.

pub const MAIN_WINDOW: &'static str = "main";

pub const CHAT_WINDOW: &'static str = "chat";

pub const SETTINGS_WINDOW: &'static str = "settings";

pub const CHAT_TITLE: &'static str = "WhaleWhisper Chat";

pub const CHAT_URL: &'static str = "index.html#chat";

/// The size the chat window opens with, in logical pixels.
pub const CHAT_WIDTH: u32 = 420;

pub const CHAT_HEIGHT: u32 = 560;

pub const SETTINGS_TITLE: &'static str = "WhaleWhisper Settings";

pub const SETTINGS_URL: &'static str = "index.html#settings";

/// The size the settings window opens with, in logical pixels.
pub const SETTINGS_WIDTH: u32 = 960;

pub const SETTINGS_HEIGHT: u32 = 720;

/// The name under which the opening and closing of the chat window is
/// emitted.
pub const CHAT_EVENT: &'static str = "whalewhisper:desktop-chat";

/// The size the main window is given at start-up.
pub const INITIAL_WIDTH: u32 = 640;

pub const INITIAL_HEIGHT: u32 = 720;

/// The room left between the main window and the monitor's right edge at
/// start-up.
pub const INITIAL_MARGIN_RIGHT: u32 = 24;

/// The room left between the main window and the monitor's bottom edge
/// at start-up.
pub const INITIAL_MARGIN_BOTTOM: u32 = 80;

/// The look of a window. `None` leaves a setting at the windowing
/// system's default.
#[derive(Clone, Copy, Debug, PartialEq, Eq)]
pub struct WindowChrome {
    pub resizable: bool,
    pub transparent: bool,
    pub decorations: bool,
    pub shadow: Option<bool>,
    pub always_on_top: Option<bool>,
    pub skip_taskbar: bool,
}

/// The look of the window with the given label: the settings window is a
/// bare transparent surface; the chat window is one too, and stays on top
/// and off the taskbar; any other window is an ordinary decorated one.
pub open spec fn spec_window_chrome(label: Seq<char>) -> WindowChrome {
    if label == SETTINGS_WINDOW@ {
        WindowChrome {
            resizable: true,
            transparent: true,
            decorations: false,
            shadow: Some(false),
            always_on_top: None,
            skip_taskbar: false,
        }
    } else if label == CHAT_WINDOW@ {
        WindowChrome {
            resizable: true,
            transparent: true,
            decorations: false,
            shadow: Some(false),
            always_on_top: Some(true),
            skip_taskbar: true,
        }
    } else {
        WindowChrome {
            resizable: true,
            transparent: false,
            decorations: true,
            shadow: None,
            always_on_top: None,
            skip_taskbar: false,
        }
    }
}

/// Whether a request to close the window with the given label hides it
/// instead: the main and the settings window are kept for the life of
/// the process.
pub open spec fn spec_hides_on_close(label: Seq<char>) -> bool {
    label == MAIN_WINDOW@ || label == SETTINGS_WINDOW@
}

/// `v` less `by`, or zero where `by` is the larger.
pub open spec fn spec_less(v: int, by: int) -> int {
    if v < by {
        0
    } else {
        v - by
    }
}

/// Where the main window is put at start-up on a monitor of the given
/// size: its right edge `INITIAL_MARGIN_RIGHT` and its bottom edge
/// `INITIAL_MARGIN_BOTTOM` short of the monitor's, or at zero where the
/// monitor is too small for that.
pub open spec fn spec_initial_position(monitor: WindowSize) -> (int, int) {
    (
        spec_less(monitor.width as int, INITIAL_WIDTH + INITIAL_MARGIN_RIGHT),
        spec_less(monitor.height as int, INITIAL_HEIGHT + INITIAL_MARGIN_BOTTOM),
    )
}

/// Chooses the look of the window with the given label.
pub fn window_chrome(label: &str) -> (chrome: WindowChrome)
    ensures
        chrome == spec_window_chrome(label@),
{
    let label = label.to_owned();
    if label == SETTINGS_WINDOW.to_owned() {
        WindowChrome {
            resizable: true,
            transparent: true,
            decorations: false,
            shadow: Some(false),
            always_on_top: None,
            skip_taskbar: false,
        }
    } else if label == CHAT_WINDOW.to_owned() {
        WindowChrome {
            resizable: true,
            transparent: true,
            decorations: false,
            shadow: Some(false),
            always_on_top: Some(true),
            skip_taskbar: true,
        }
    } else {
        WindowChrome {
            resizable: true,
            transparent: false,
            decorations: true,
            shadow: None,
            always_on_top: None,
            skip_taskbar: false,
        }
    }
}

/// Reports whether a request to close the window with the given label
/// hides it instead.
pub fn hides_on_close(label: &str) -> (hides: bool)
    ensures
        hides == spec_hides_on_close(label@),
{
    let label = label.to_owned();
    label == MAIN_WINDOW.to_owned() || label == SETTINGS_WINDOW.to_owned()
}

/// The size the main window is given at start-up.
pub fn initial_window_size() -> (size: WindowSize)
    ensures
        size == (WindowSize { width: INITIAL_WIDTH, height: INITIAL_HEIGHT }),
{
    WindowSize { width: INITIAL_WIDTH, height: INITIAL_HEIGHT }
}

/// Computes where the main window is put at start-up, or `None` where
/// that position lies beyond the screen's coordinates.
pub fn initial_window_position(monitor: WindowSize) -> (position: Option<ScreenPoint>)
    ensures
        ({
            let (x, y) = spec_initial_position(monitor);
            &&& position is Some <==> x <= i32::MAX && y <= i32::MAX
            &&& position matches Some(p) ==> p.x == x && p.y == y
        }),
{
    let x: u32 = monitor.width.saturating_sub(INITIAL_WIDTH + INITIAL_MARGIN_RIGHT);
    let y: u32 = monitor.height.saturating_sub(INITIAL_HEIGHT + INITIAL_MARGIN_BOTTOM);
    if x <= i32::MAX as u32 && y <= i32::MAX as u32 {
        Some(ScreenPoint { x: x as i32, y: y as i32 })
    } else {
        None
    }
}

} // verus!
