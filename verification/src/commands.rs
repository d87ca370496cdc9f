//! The operations the presentation layer invokes, as functions of plain
//! values: each takes the state it works on and what was read from the
//! system, and returns the reply together with what is to be done.

use vstd::prelude::*;
use vstd::string::StringExecFns;
use crate::backend::{port_text, spec_decimal, BackendEndpoint};
use crate::behavior::{WindowBehaviorPayload, WindowBehaviorState};
use crate::geometry::ControlBounds;
use crate::transition::{apply_click_through, TransitionApplier};

verus! {

/// A controls rectangle as the presentation layer sends it, in
/// window-local pixels.
#[derive(Clone, Copy, Debug, PartialEq, Eq)]
pub struct ControlsBoundsInput {
    pub left: i64,
    pub top: i64,
    pub right: i64,
    pub bottom: i64,
}

/// The position and size the presentation layer asks for the chat window.
#[derive(Clone, Copy, Debug, PartialEq, Eq)]
pub struct ChatBoundsInput {
    pub x: i32,
    pub y: i32,
    pub width: u32,
    pub height: u32,
}

/// The position and size of a monitor.
#[derive(Clone, Copy, Debug, PartialEq, Eq)]
pub struct MonitorArea {
    pub x: i32,
    pub y: i32,
    pub width: u32,
    pub height: u32,
}

/// The reply to a request that changes click-through: the flags after the
/// change, and the input-transparency call that is due.
#[derive(Clone, Copy, Debug, PartialEq, Eq)]
pub struct ClickThroughReply {
    pub payload: WindowBehaviorPayload,
    /// The value to hand to the window's input-transparency call, if a call
    /// is due.
    pub ignore_cursor: Option<bool>,
}

/// Where the companion service listens, with the two addresses the
/// presentation layer reaches it at.
#[derive(Debug, PartialEq, Eq)]
pub struct BackendEndpointPayload {
    pub host: String,
    pub port: u16,
    pub api_base_url: String,
    pub ws_url: String,
}

/// The address of the service's HTTP interface: `http://host:port`.
pub open spec fn spec_api_base_url(host: Seq<char>, port: u16) -> Seq<char> {
    "http://"@ + host + ":"@ + spec_decimal(port as nat)
}

/// The address of the service's socket: `ws://host:port/ws`.
pub open spec fn spec_ws_url(host: Seq<char>, port: u16) -> Seq<char> {
    "ws://"@ + host + ":"@ + spec_decimal(port as nat) + "/ws"@
}

impl ControlsBoundsInput {
    pub open spec fn spec_bounds(self) -> ControlBounds {
        ControlBounds { left: self.left, top: self.top, right: self.right, bottom: self.bottom }
    }
}

/// The smaller of two values.
pub open spec fn spec_min(a: int, b: int) -> int {
    if a <= b {
        a
    } else {
        b
    }
}

/// `v` held to the range from `low` to `high`.
pub open spec fn spec_clamp(v: int, low: int, high: int) -> int {
    if v < low {
        low
    } else if v > high {
        high
    } else {
        v
    }
}

impl MonitorArea {
    /// The window size no larger than the monitor in either direction.
    pub open spec fn spec_fit_width(self, bounds: ChatBoundsInput) -> int {
        spec_min(bounds.width as int, self.width as int)
    }

    pub open spec fn spec_fit_height(self, bounds: ChatBoundsInput) -> int {
        spec_min(bounds.height as int, self.height as int)
    }

    /// The horizontal position nearest to the requested one at which a
    /// window of the fitted width lies on the monitor.
    pub open spec fn spec_fit_x(self, bounds: ChatBoundsInput) -> int {
        spec_clamp(bounds.x as int, self.x as int, self.x + self.width - self.spec_fit_width(bounds))
    }

    /// The vertical position nearest to the requested one at which a
    /// window of the fitted height lies on the monitor.
    pub open spec fn spec_fit_y(self, bounds: ChatBoundsInput) -> int {
        spec_clamp(
            bounds.y as int,
            self.y as int,
            self.y + self.height - self.spec_fit_height(bounds),
        )
    }

    /// Whether a window with the given bounds lies on the monitor whole.
    pub open spec fn spec_holds(self, bounds: ChatBoundsInput) -> bool {
        &&& self.x <= bounds.x
        &&& bounds.x + bounds.width <= self.x + self.width
        &&& self.y <= bounds.y
        &&& bounds.y + bounds.height <= self.y + self.height
    }
}

/// Reads the two mode flags.
pub fn get_window_behavior(state: &WindowBehaviorState) -> (payload: WindowBehaviorPayload)
    ensures
        payload == state@.payload(),
{
    state.snapshot()
}

/// Sets click-through and reports the flags as they are afterwards.
pub fn set_click_through(
    applier: &mut TransitionApplier,
    state: &mut WindowBehaviorState,
    enabled: bool,
) -> (reply: ClickThroughReply)
    ensures
        final(state)@ == old(state)@.with_click_through(enabled),
        final(applier)@ == old(applier)@.after_ignore(enabled),
        reply.payload == final(state)@.payload(),
        reply.ignore_cursor == old(applier)@.ignore_command(enabled),
{
    let change = apply_click_through(applier, state, enabled);
    ClickThroughReply { payload: state.snapshot(), ignore_cursor: change.ignore_cursor }
}

/// Sets the drag flag and reports the flags as they are afterwards.
pub fn set_drag_enabled(state: &mut WindowBehaviorState, enabled: bool) -> (payload:
    WindowBehaviorPayload)
    ensures
        final(state)@ == old(state)@.with_drag_enabled(enabled),
        payload == final(state)@.payload(),
{
    state.set_drag_enabled(enabled);
    state.snapshot()
}

/// Replaces the controls rectangle, or clears it with `None`, and reports
/// the flags, which it leaves as they were.
pub fn set_controls_bounds(
    state: &mut WindowBehaviorState,
    bounds: Option<ControlsBoundsInput>,
) -> (payload: WindowBehaviorPayload)
    ensures
        final(state)@ == old(state)@.with_controls_bounds(
            match bounds {
                Some(value) => Some(value.spec_bounds()),
                None => None,
            },
        ),
        payload == old(state)@.payload(),
{
    let mapped = match bounds {
        Some(value) => Some(
            ControlBounds {
                left: value.left,
                top: value.top,
                right: value.right,
                bottom: value.bottom,
            },
        ),
        None => None,
    };
    state.set_controls_bounds(mapped);
    state.snapshot()
}

/// Describes the companion service's endpoint to the presentation
/// layer; `None` while the service is not running.
pub fn get_backend_endpoint(endpoint: Option<BackendEndpoint>) -> (payload: Option<
    BackendEndpointPayload,
>)
    ensures
        endpoint is None ==> payload is None,
        endpoint matches Some(e) ==> {
            &&& payload matches Some(p)
            &&& p.host@ == e.host@
            &&& p.port == e.port
            &&& p.api_base_url@ == spec_api_base_url(e.host@, e.port)
            &&& p.ws_url@ == spec_ws_url(e.host@, e.port)
        },
{
    match endpoint {
        None => None,
        Some(endpoint) => {
            let BackendEndpoint { host, port } = endpoint;
            let port_digits = port_text(port);
            let mut api_base_url = String::from_str("http://");
            api_base_url.append(host.as_str());
            api_base_url.append(":");
            api_base_url.append(port_digits.as_str());
            let mut ws_url = String::from_str("ws://");
            ws_url.append(host.as_str());
            ws_url.append(":");
            ws_url.append(port_digits.as_str());
            ws_url.append("/ws");
            Some(BackendEndpointPayload { host, port, api_base_url, ws_url })
        },
    }
}

/// Fits the bounds requested for the chat window to the monitor it is on.
///
/// Without a monitor the request stands. With one, the size is cut down to
/// the monitor's, and the position is moved by as little as it takes for
/// the window to lie on the monitor whole. A request that already lies on
/// the monitor comes back unchanged.
pub fn sync_chat_window_bounds(bounds: ChatBoundsInput, monitor: Option<MonitorArea>) -> (fitted:
    ChatBoundsInput)
    ensures
        monitor is None ==> fitted == bounds,
        monitor matches Some(m) ==> {
            &&& fitted.width == m.spec_fit_width(bounds)
            &&& fitted.height == m.spec_fit_height(bounds)
            &&& fitted.x == m.spec_fit_x(bounds)
            &&& fitted.y == m.spec_fit_y(bounds)
            &&& m.spec_holds(fitted)
            &&& m.spec_holds(bounds) ==> fitted == bounds
        },
{
    match monitor {
        None => bounds,
        Some(m) => {
            let width: u32 = if bounds.width <= m.width {
                bounds.width
            } else {
                m.width
            };
            let height: u32 = if bounds.height <= m.height {
                bounds.height
            } else {
                m.height
            };
            let max_x: i64 = m.x as i64 + m.width as i64 - width as i64;
            let max_y: i64 = m.y as i64 + m.height as i64 - height as i64;
            let x: i32 = if bounds.x < m.x {
                m.x
            } else if bounds.x as i64 > max_x {
                max_x as i32
            } else {
                bounds.x
            };
            let y: i32 = if bounds.y < m.y {
                m.y
            } else if bounds.y as i64 > max_y {
                max_y as i32
            } else {
                bounds.y
            };
            ChatBoundsInput { x, y, width, height }
        },
    }
}

} // verus!
