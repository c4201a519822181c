//! Fixed-point plane geometry: points, axis-aligned rectangles, and the
//! ball-vs-rectangle overlap tests used by the collision engine.

use vstd::prelude::*;

verus! {

use crate::physics::BALL_RADIUS;

/// Coordinates and extents are kept well inside this bound so that the
/// arithmetic of the overlap tests cannot overflow an `i64`.
pub const COORD_LIMIT: i64 = 1_000_000_000_000;

/// A point (or direction) of the plane, in fixed-point coordinates.
#[derive(Clone, Copy, Debug, PartialEq, Eq, Structural)]
pub struct Vec2i {
    pub x: i64,
    pub y: i64,
}

/// An axis-aligned rectangle: top-left corner, width and height, in
/// fixed-point coordinates.
#[derive(Clone, Copy, Debug, PartialEq, Eq, Structural)]
pub struct Recti {
    pub x: i64,
    pub y: i64,
    pub w: i64,
    pub h: i64,
}

impl Vec2i {
    pub open spec fn in_coord_range(self) -> bool {
        -COORD_LIMIT <= self.x <= COORD_LIMIT && -COORD_LIMIT <= self.y <= COORD_LIMIT
    }
}

impl Recti {
    pub open spec fn spec_left(self) -> int {
        self.x as int
    }

    pub open spec fn spec_right(self) -> int {
        self.x + self.w
    }

    pub open spec fn spec_top(self) -> int {
        self.y as int
    }

    pub open spec fn spec_bottom(self) -> int {
        self.y + self.h
    }

    pub open spec fn in_coord_range(self) -> bool {
        &&& -COORD_LIMIT <= self.x <= COORD_LIMIT
        &&& -COORD_LIMIT <= self.y <= COORD_LIMIT
        &&& 0 <= self.w <= COORD_LIMIT
        &&& 0 <= self.h <= COORD_LIMIT
    }

    /// World coordinate of the left edge.
    pub fn left(&self) -> (r: i64)
        ensures
            r == self.spec_left(),
    {
        self.x
    }

    /// World coordinate of the right edge.
    pub fn right(&self) -> (r: i64)
        requires
            self.in_coord_range(),
        ensures
            r == self.spec_right(),
    {
        self.x + self.w
    }

    /// World coordinate of the top edge.
    pub fn top(&self) -> (r: i64)
        ensures
            r == self.spec_top(),
    {
        self.y
    }

    /// World coordinate of the bottom edge.
    pub fn bottom(&self) -> (r: i64)
        requires
            self.in_coord_range(),
        ensures
            r == self.spec_bottom(),
    {
        self.y + self.h
    }
}

/// Whether a ball centered at X-coordinate `px` overlaps the horizontal span
/// of `rect`, the test that classifies a hit as entering from above or below.
pub open spec fn spec_ball_over_x_span(px: int, rect: Recti) -> bool {
    px + BALL_RADIUS >= rect.spec_left() && px - BALL_RADIUS <= rect.spec_right()
}

/// Whether a ball centered at `(px, py)` overlaps `rect` at all.
pub open spec fn spec_ball_in_rect(px: int, py: int, rect: Recti) -> bool {
    &&& px + BALL_RADIUS >= rect.spec_left()
    &&& px - BALL_RADIUS <= rect.spec_right()
    &&& py + BALL_RADIUS >= rect.spec_top()
    &&& py - BALL_RADIUS <= rect.spec_bottom()
}

/// Overlap of the ball's horizontal extent with the rectangle's X-span.
pub fn ball_over_x_span(pos: Vec2i, rect: Recti) -> (r: bool)
    requires
        pos.in_coord_range(),
        rect.in_coord_range(),
    ensures
        r == spec_ball_over_x_span(pos.x as int, rect),
{
    pos.x + BALL_RADIUS >= rect.left() && pos.x - BALL_RADIUS <= rect.right()
}

/// Overlap of the ball (a square of half-width `BALL_RADIUS` around its
/// center, as the engine approximates it) with the rectangle.
pub fn ball_in_rect(pos: Vec2i, rect: Recti) -> (r: bool)
    requires
        pos.in_coord_range(),
        rect.in_coord_range(),
    ensures
        r == spec_ball_in_rect(pos.x as int, pos.y as int, rect),
{
    pos.x + BALL_RADIUS >= rect.left() && pos.x - BALL_RADIUS <= rect.right()
        && pos.y + BALL_RADIUS >= rect.top() && pos.y - BALL_RADIUS <= rect.bottom()
}

} // verus!
