//! The rectangular room primitive used transiently during map generation.

use vstd::prelude::*;

verus! {

/// A rectangle in tile coordinates with `x1 < x2` and `y1 < y2`; its
/// interior `(x1, x2] x (y1, y2]` is the region a room carve turns to
/// floor.
#[derive(Clone, Copy, PartialEq, Eq, Structural, Debug)]
pub struct Rect {
    pub x1: i32,
    pub y1: i32,
    pub x2: i32,
    pub y2: i32,
}

impl Rect {
    /// The corner ordering every room must satisfy.
    pub open spec fn wf(self) -> bool {
        self.x1 < self.x2 && self.y1 < self.y2
    }

    /// The midpoint of the rectangle, rounded down. The generation policy
    /// aims tunnels at room centers.
    pub fn center(&self) -> (c: (i32, i32))
        requires
            0 <= self.x1 + self.x2 <= i32::MAX,
            0 <= self.y1 + self.y2 <= i32::MAX,
        ensures
            c.0 == (self.x1 + self.x2) / 2,
            c.1 == (self.y1 + self.y2) / 2,
    {
        ((self.x1 + self.x2) / 2, (self.y1 + self.y2) / 2)
    }

    /// Builds the rectangle with corner `(x, y)`, width `w` and height `h`.
    /// Degenerate geometry (a width or height below one, which would invert
    /// the carve region) is rejected with `None`.
    pub fn new(x: i32, y: i32, w: i32, h: i32) -> (r: Option<Rect>)
        requires
            x + w <= i32::MAX,
            y + h <= i32::MAX,
        ensures
            r is Some <==> (w >= 1 && h >= 1),
            r matches Some(rect) ==> rect == (Rect { x1: x, y1: y, x2: (x + w) as i32, y2: (y + h) as i32 }),
            r matches Some(rect) ==> rect.wf(),
    {
        if w >= 1 && h >= 1 {
            Some(Rect { x1: x, y1: y, x2: x + w, y2: y + h })
        } else {
            None
        }
    }
}

} // verus!
