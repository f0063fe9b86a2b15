//! Integer-pixel geometry: points, unit directions, and axis-aligned
//! rectangles with an intersection test. The intersection rectangle's
//! position doubles as the side-detection heuristic for collision response.

use vstd::prelude::*;

verus! {

/// A position in whole pixels.
#[derive(Clone, Copy, PartialEq, Eq, Structural, Debug)]
pub struct Point {
    pub x: i32,
    pub y: i32,
}

impl Point {
    pub fn new(x: i32, y: i32) -> (p: Point)
        ensures
            p.x == x,
            p.y == y,
    {
        Point { x, y }
    }
}

/// Which way an entity travels: each component is -1, 0 or +1. Combined
/// with a speed and an elapsed time it yields a displacement; it is not a
/// position.
#[derive(Clone, Copy, PartialEq, Eq, Structural, Debug)]
pub struct Direction {
    pub x: i32,
    pub y: i32,
}

impl Direction {
    /// Both components lie in {-1, 0, +1}.
    pub open spec fn is_unit(self) -> bool {
        -1 <= self.x <= 1 && -1 <= self.y <= 1
    }
}

/// How far an entity moving at `speed` pixels per second travels in
/// `dt_ms` milliseconds, rounded towards zero.
pub open spec fn displacement(speed: int, dt_ms: int) -> int {
    (speed * dt_ms) / 1000
}

/// An axis-aligned rectangle: top-left corner plus width and height, in
/// whole pixels. The sole collision primitive; no rotation.
#[derive(Clone, Copy, PartialEq, Eq, Structural, Debug)]
pub struct Rect {
    pub x: i32,
    pub y: i32,
    pub w: u32,
    pub h: u32,
}

impl Rect {
    /// One past the rightmost column the rectangle covers.
    pub open spec fn right(self) -> int {
        self.x + self.w
    }

    /// One past the bottom row the rectangle covers.
    pub open spec fn bottom(self) -> int {
        self.y + self.h
    }

    /// The far edges are still representable as 32-bit coordinates.
    pub open spec fn wf(self) -> bool {
        self.right() <= i32::MAX && self.bottom() <= i32::MAX
    }

    /// The two rectangles share at least one pixel.
    pub open spec fn overlaps(self, other: Rect) -> bool {
        vstd::math::max(self.x as int, other.x as int)
            < vstd::math::min(self.right(), other.right())
        && vstd::math::max(self.y as int, other.y as int)
            < vstd::math::min(self.bottom(), other.bottom())
    }

    /// The common region of two overlapping rectangles.
    pub open spec fn overlap_rect(self, other: Rect) -> Rect {
        let lx = vstd::math::max(self.x as int, other.x as int);
        let ly = vstd::math::max(self.y as int, other.y as int);
        let rx = vstd::math::min(self.right(), other.right());
        let by = vstd::math::min(self.bottom(), other.bottom());
        Rect { x: lx as i32, y: ly as i32, w: (rx - lx) as u32, h: (by - ly) as u32 }
    }

    pub fn new(x: i32, y: i32, w: u32, h: u32) -> (r: Rect)
        ensures
            r == (Rect { x, y, w, h }),
    {
        Rect { x, y, w, h }
    }

    /// Translate the rectangle by a relative displacement.
    pub fn offset(&mut self, dx: i32, dy: i32)
        requires
            i32::MIN <= old(self).x + dx <= i32::MAX,
            i32::MIN <= old(self).y + dy <= i32::MAX,
        ensures
            *final(self) == (Rect { x: (old(self).x + dx) as i32, y: (old(self).y + dy) as i32, ..*old(self) }),
    {
        self.x = self.x + dx;
        self.y = self.y + dy;
    }

    /// Move the rectangle's top-left corner to `p`, keeping its size.
    pub fn reposition(&mut self, p: Point)
        ensures
            *final(self) == (Rect { x: p.x, y: p.y, ..*old(self) }),
    {
        self.x = p.x;
        self.y = p.y;
    }

    /// The common region of the two rectangles, or `None` when they share
    /// no pixel. Rectangles that merely touch along an edge do not count
    /// as intersecting.
    pub fn intersection(&self, other: Rect) -> (r: Option<Rect>)
        requires
            self.wf(),
            other.wf(),
        ensures
            r == (if self.overlaps(other) { Some(self.overlap_rect(other)) } else { None::<Rect> }),
    {
        let lx: i64 = if self.x >= other.x { self.x as i64 } else { other.x as i64 };
        let ly: i64 = if self.y >= other.y { self.y as i64 } else { other.y as i64 };
        let r_self: i64 = self.x as i64 + self.w as i64;
        let r_other: i64 = other.x as i64 + other.w as i64;
        let rx: i64 = if r_self <= r_other { r_self } else { r_other };
        let b_self: i64 = self.y as i64 + self.h as i64;
        let b_other: i64 = other.y as i64 + other.h as i64;
        let by: i64 = if b_self <= b_other { b_self } else { b_other };
        if lx < rx && ly < by {
            Some(Rect { x: lx as i32, y: ly as i32, w: (rx - lx) as u32, h: (by - ly) as u32 })
        } else {
            None
        }
    }
}

} // verus!
