//! Points and rectangles, in the two coordinate spaces the engine works in.
//!
//! Screen space is the absolute position of the pointer and of the window.
//! Window-local space is relative to the window's origin and is the space the
//! controls region is given in. The two are kept apart by type:
//! [`ScreenPoint`] against [`LocalPoint`], [`WindowRect`] against
//! [`ControlBounds`].

use vstd::prelude::*;

verus! {

/// A position in screen space.
#[derive(Clone, Copy, Debug, PartialEq, Eq)]
pub struct ScreenPoint {
    pub x: i32,
    pub y: i32,
}

/// A position relative to a window's origin.
#[derive(Clone, Copy, Debug, PartialEq, Eq)]
pub struct LocalPoint {
    pub x: i64,
    pub y: i64,
}

/// The extent of a window.
#[derive(Clone, Copy, Debug, PartialEq, Eq)]
pub struct WindowSize {
    pub width: u32,
    pub height: u32,
}

/// A window's bounding rectangle in screen space, held as origin and extent.
///
/// The extent is unsigned, so the left edge never lies right of the right
/// edge, nor the top edge below the bottom edge.
#[derive(Clone, Copy, Debug, PartialEq, Eq)]
pub struct WindowRect {
    pub left: i32,
    pub top: i32,
    pub width: u32,
    pub height: u32,
}

/// A rectangle in window-local space: the part of the window that stays
/// interactive while the rest is click-through.
///
/// A rectangle whose edges are out of order contains no point.
#[derive(Clone, Copy, Debug, PartialEq, Eq)]
pub struct ControlBounds {
    pub left: i64,
    pub top: i64,
    pub right: i64,
    pub bottom: i64,
}

/// What could be read of a window's geometry at one moment.
///
/// Each reading is best effort: a query that failed leaves `None`, and the
/// hit tests treat the missing part as "no data".
#[derive(Clone, Copy, Debug, PartialEq, Eq)]
pub struct WindowProbe {
    pub position: Option<ScreenPoint>,
    pub size: Option<WindowSize>,
}

impl ScreenPoint {
    /// The same position seen from a window whose origin is `origin`:
    /// `local = screen - origin`.
    pub open spec fn spec_to_local(self, origin: ScreenPoint) -> LocalPoint {
        LocalPoint { x: (self.x - origin.x) as i64, y: (self.y - origin.y) as i64 }
    }

    /// Converts a screen position to window-local space.
    pub fn to_local(self, origin: ScreenPoint) -> (local: LocalPoint)
        ensures
            local == self.spec_to_local(origin),
            local.x == self.x - origin.x,
            local.y == self.y - origin.y,
    {
        LocalPoint { x: self.x as i64 - origin.x as i64, y: self.y as i64 - origin.y as i64 }
    }
}

impl WindowRect {
    /// The right edge, `left + width`.
    pub open spec fn spec_right(self) -> int {
        self.left + self.width
    }

    /// The bottom edge, `top + height`.
    pub open spec fn spec_bottom(self) -> int {
        self.top + self.height
    }

    /// Whether `(x, y)` lies in the rectangle, all four edges included.
    pub open spec fn spec_contains(self, x: int, y: int) -> bool {
        self.left <= x <= self.spec_right() && self.top <= y <= self.spec_bottom()
    }

    pub open spec fn spec_origin(self) -> ScreenPoint {
        ScreenPoint { x: self.left, y: self.top }
    }

    pub open spec fn spec_size(self) -> WindowSize {
        WindowSize { width: self.width, height: self.height }
    }

    /// The rectangle with the given origin and extent.
    pub fn from_origin_size(origin: ScreenPoint, size: WindowSize) -> (rect: WindowRect)
        ensures
            rect.spec_origin() == origin,
            rect.spec_size() == size,
    {
        WindowRect { left: origin.x, top: origin.y, width: size.width, height: size.height }
    }

    /// The rectangle with the given edges, if they are in order.
    pub fn from_edges(left: i32, top: i32, right: i32, bottom: i32) -> (rect: Option<WindowRect>)
        ensures
            rect is Some <==> left <= right && top <= bottom,
            rect matches Some(r) ==> r.left == left && r.top == top && r.spec_right() == right
                && r.spec_bottom() == bottom,
    {
        if left <= right && top <= bottom {
            let width: i64 = right as i64 - left as i64;
            let height: i64 = bottom as i64 - top as i64;
            Some(WindowRect { left, top, width: width as u32, height: height as u32 })
        } else {
            None
        }
    }

    pub fn origin(self) -> (origin: ScreenPoint)
        ensures
            origin == self.spec_origin(),
    {
        ScreenPoint { x: self.left, y: self.top }
    }

    pub fn size(self) -> (size: WindowSize)
        ensures
            size == self.spec_size(),
    {
        WindowSize { width: self.width, height: self.height }
    }

    /// The right edge. It may lie beyond the screen's coordinates.
    pub fn right(self) -> (right: i64)
        ensures
            right == self.spec_right(),
    {
        self.left as i64 + self.width as i64
    }

    /// The bottom edge. It may lie beyond the screen's coordinates.
    pub fn bottom(self) -> (bottom: i64)
        ensures
            bottom == self.spec_bottom(),
    {
        self.top as i64 + self.height as i64
    }
}

impl WindowProbe {
    /// The window's rectangle, known when both readings are.
    pub open spec fn spec_rect(self) -> Option<WindowRect> {
        match (self.position, self.size) {
            (Some(origin), Some(size)) => Some(
                WindowRect { left: origin.x, top: origin.y, width: size.width, height: size.height },
            ),
            _ => None,
        }
    }

    /// The first of two readings that is available.
    pub open spec fn spec_prefer<T>(inner: Option<T>, outer: Option<T>) -> Option<T> {
        if inner is Some {
            inner
        } else {
            outer
        }
    }

    /// The probe of a window whose rectangle was read in one piece.
    pub fn from_rect(rect: Option<WindowRect>) -> (probe: WindowProbe)
        ensures
            probe.spec_rect() == rect,
            rect is None ==> probe.position is None && probe.size is None,
    {
        match rect {
            Some(r) => WindowProbe { position: Some(r.origin()), size: Some(r.size()) },
            None => WindowProbe { position: None, size: None },
        }
    }

    /// The probe of a window that reports an inner and an outer geometry:
    /// the inner reading is used where it is available, the outer one
    /// otherwise.
    pub fn from_readings(
        inner_position: Option<ScreenPoint>,
        outer_position: Option<ScreenPoint>,
        inner_size: Option<WindowSize>,
        outer_size: Option<WindowSize>,
    ) -> (probe: WindowProbe)
        ensures
            probe.position == Self::spec_prefer(inner_position, outer_position),
            probe.size == Self::spec_prefer(inner_size, outer_size),
    {
        let position = match inner_position {
            Some(p) => Some(p),
            None => outer_position,
        };
        let size = match inner_size {
            Some(s) => Some(s),
            None => outer_size,
        };
        WindowProbe { position, size }
    }

    /// The window's rectangle, if both its position and its size could be
    /// read.
    pub fn rect(&self) -> (rect: Option<WindowRect>)
        ensures
            rect == self.spec_rect(),
    {
        match (self.position, self.size) {
            (Some(origin), Some(size)) => Some(WindowRect::from_origin_size(origin, size)),
            _ => None,
        }
    }
}

impl ControlBounds {
    /// Whether `(x, y)` lies in the rectangle, all four edges included.
    pub open spec fn spec_contains(self, x: int, y: int) -> bool {
        self.left <= x <= self.right && self.top <= y <= self.bottom
    }

    /// Whether the edges are in order.
    pub open spec fn spec_is_ordered(self) -> bool {
        self.left <= self.right && self.top <= self.bottom
    }

    /// The rectangle with the given edges, if they are in order.
    pub fn new(left: i64, top: i64, right: i64, bottom: i64) -> (bounds: Option<ControlBounds>)
        ensures
            bounds is Some <==> left <= right && top <= bottom,
            bounds matches Some(b) ==> b == (ControlBounds { left, top, right, bottom })
                && b.spec_is_ordered(),
    {
        if left <= right && top <= bottom {
            Some(ControlBounds { left, top, right, bottom })
        } else {
            None
        }
    }

    /// Reports whether a window-local position lies in the rectangle.
    pub fn contains(&self, x: i64, y: i64) -> (inside: bool)
        ensures
            inside == self.spec_contains(x as int, y as int),
    {
        x >= self.left && x <= self.right && y >= self.top && y <= self.bottom
    }

    /// Reports whether the edges are in order.
    pub fn is_ordered(&self) -> (ordered: bool)
        ensures
            ordered == self.spec_is_ordered(),
    {
        self.left <= self.right && self.top <= self.bottom
    }
}

/// Reports whether a screen position lies in a window's rectangle, all four
/// edges included.
pub fn point_in_rect(x: i32, y: i32, rect: WindowRect) -> (inside: bool)
    ensures
        inside == rect.spec_contains(x as int, y as int),
{
    let px: i64 = x as i64;
    let py: i64 = y as i64;
    px >= rect.left as i64 && px <= rect.right() && py >= rect.top as i64 && py <= rect.bottom()
}

} // verus!
