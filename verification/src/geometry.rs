//! Rectangles in virtual-screen coordinates and the per-window snapshot that a
//! placement works on.

use vstd::prelude::*;

verus! {

/// An axis-aligned rectangle `(left, top, right, bottom)` in virtual-screen
/// coordinates. It describes a monitor as well as a window's normal position.
#[derive(Clone, Copy, Debug, PartialEq, Eq, Structural)]
pub struct MonitorRect {
    pub left: i32,
    pub top: i32,
    pub right: i32,
    pub bottom: i32,
}

impl MonitorRect {
    /// Horizontal extent, as a mathematical integer.
    pub open spec fn spec_width(self) -> int {
        self.right - self.left
    }

    /// Vertical extent, as a mathematical integer.
    pub open spec fn spec_height(self) -> int {
        self.bottom - self.top
    }

    /// A rectangle is well formed when neither extent is negative.
    pub open spec fn wf(self) -> bool {
        self.left <= self.right && self.top <= self.bottom
    }

    pub fn new(left: i32, top: i32, right: i32, bottom: i32) -> (r: Self)
        ensures
            r.left == left,
            r.top == top,
            r.right == right,
            r.bottom == bottom,
    {
        MonitorRect { left, top, right, bottom }
    }

    /// Horizontal extent. Wide enough for any pair of `i32` edges.
    pub fn width(&self) -> (w: i64)
        ensures
            w == self.spec_width(),
    {
        self.right as i64 - self.left as i64
    }

    /// Vertical extent. Wide enough for any pair of `i32` edges.
    pub fn height(&self) -> (h: i64)
        ensures
            h == self.spec_height(),
    {
        self.bottom as i64 - self.top as i64
    }

    /// Tells whether neither extent is negative.
    pub fn is_well_formed(&self) -> (b: bool)
        ensures
            b == self.wf(),
    {
        self.left <= self.right && self.top <= self.bottom
    }

    /// The `(width, height)` pair, when both fit the coordinate type.
    pub fn size(&self) -> (s: Option<(i32, i32)>)
        ensures
            s.is_some() == (i32::MIN <= self.spec_width() <= i32::MAX && i32::MIN
                <= self.spec_height() <= i32::MAX),
            s matches Some(p) ==> p.0 == self.spec_width() && p.1 == self.spec_height(),
    {
        let w: i64 = self.width();
        let h: i64 = self.height();
        if w < -2147483648 || w > 2147483647 || h < -2147483648 || h > 2147483647 {
            None
        } else {
            Some((w as i32, h as i32))
        }
    }
}

/// What is known of one top-level window at the moment a pass looks at it.
#[derive(Clone, Copy, Debug, PartialEq, Eq, Structural)]
pub struct WindowSnapshot {
    /// Opaque identity of the window; never interpreted.
    pub handle: isize,
    pub visible: bool,
    pub maximized: bool,
    /// Arranged by the system's edge-snap or tiling feature.
    pub snapped: bool,
    /// Class or title is on the exclusion list.
    pub excluded: bool,
    /// The window's normal-state rectangle.
    pub placement: MonitorRect,
    /// The rectangle of the monitor the window is on.
    pub monitor: MonitorRect,
}

} // verus!
