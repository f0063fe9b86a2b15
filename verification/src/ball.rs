//! The ball: a free-moving entity with pre-emptive boundary reflection,
//! bottom-exit detection, and a collision response against the paddle.
//!
//! Each tick evaluates, in this fixed order: reflect off the top edge,
//! reflect off either vertical edge, move, then test the bottom edge.
//! Crossing the bottom marks the ball out of bounds; it then stays frozen
//! until `reset` places it back at its origin.

use vstd::prelude::*;
use crate::geometry::{Direction, Point, Rect, displacement};
use crate::paddle::Paddle;

verus! {

pub const SIZE: u32 = 16;
/// Speed in pixels per second.
pub const SPEED: u32 = 500;

/// Width of the strip at either paddle end that also deflects the ball
/// horizontally.
pub const EDGE_BAND: i32 = 8;

pub struct Ball {
    /// Where `reset` puts the ball back.
    pub origin: Point,
    /// Set when the ball crossed the bottom boundary; the ball does not
    /// move again until `reset`.
    pub out_of_bounds: bool,
    /// Current travel direction; components are -1, 0 or +1.
    pub dir: Direction,
    pub bounds: Rect,
}

impl Ball {
    /// The direction is a unit vector and the bounds box has the ball's
    /// fixed size, representable edges, and an origin it can return to.
    pub open spec fn wf(self) -> bool {
        &&& self.dir.is_unit()
        &&& self.bounds.w == SIZE
        &&& self.bounds.h == SIZE
        &&& self.bounds.wf()
        &&& -1_000_000_000 <= self.origin.x <= 1_000_000_000
        &&& -1_000_000_000 <= self.origin.y <= 1_000_000_000
    }

    /// The value of one tick against a `window` = (width, height) field.
    ///
    /// An out-of-bounds ball is left untouched. Otherwise the projected
    /// displacement is computed; if the projected top edge would cross the
    /// field's top, the vertical direction and displacement invert; if the
    /// projected left edge would cross either vertical boundary, the
    /// horizontal direction and displacement invert; the (possibly
    /// inverted) displacement is applied; and if the projected bottom edge
    /// crosses the field's bottom, the ball is marked out of bounds with
    /// its stored direction forced to point up and away.
    pub open spec fn tick_spec(self, dt_ms: u32, window: (i32, i32)) -> Ball {
        if self.out_of_bounds {
            self
        } else {
            let d = displacement(SPEED as int, dt_ms as int);
            let dx0 = self.dir.x * d;
            let dy0 = self.dir.y * d;
            let flip_y = self.bounds.y + dy0 <= 0;
            let dy = if flip_y { -dy0 } else { dy0 };
            let dir_y = if flip_y { -self.dir.y } else { self.dir.y as int };
            let flip_x = self.bounds.x + dx0 <= 0 || self.bounds.x + dx0 >= window.0 - SIZE;
            let dx = if flip_x { -dx0 } else { dx0 };
            let dir_x = if flip_x { -self.dir.x } else { self.dir.x as int };
            let exits = self.bounds.y + dy >= window.1 - SIZE;
            Ball {
                origin: self.origin,
                out_of_bounds: exits,
                dir: if exits {
                    Direction { x: (-dir_x) as i32, y: -1i32 }
                } else {
                    Direction { x: dir_x as i32, y: dir_y as i32 }
                },
                bounds: Rect {
                    x: (self.bounds.x + dx) as i32,
                    y: (self.bounds.y + dy) as i32,
                    ..self.bounds
                },
            }
        }
    }

    /// The value of one paddle-collision check. When ball and paddle
    /// overlap, the vertical direction always inverts (bounce up); the
    /// horizontal direction also inverts when the intersection lies in the
    /// `EDGE_BAND`-pixel strip at either paddle end.
    pub open spec fn paddle_bounce_spec(self, paddle: Paddle) -> Ball {
        if self.bounds.overlaps(paddle.bounds) {
            let sect = self.bounds.overlap_rect(paddle.bounds);
            let on_left_band = sect.x >= paddle.bounds.x
                && sect.x <= paddle.bounds.x + EDGE_BAND;
            let on_right_band = sect.x >= paddle.bounds.x + paddle.bounds.w - EDGE_BAND
                && sect.x <= paddle.bounds.x + paddle.bounds.w;
            let flip_x = on_left_band || on_right_band;
            Ball {
                dir: Direction {
                    x: if flip_x { (-self.dir.x) as i32 } else { self.dir.x },
                    y: (-self.dir.y) as i32,
                },
                ..self
            }
        } else {
            self
        }
    }

    /// The value of a reset: back to the origin, no longer out of bounds,
    /// direction and size untouched.
    pub open spec fn reset_spec(self) -> Ball {
        Ball {
            out_of_bounds: false,
            bounds: Rect { x: self.origin.x, y: self.origin.y, ..self.bounds },
            ..self
        }
    }

    pub fn new(x: i32, y: i32) -> (b: Ball)
        requires
            -1_000_000_000 <= x <= 1_000_000_000,
            -1_000_000_000 <= y <= 1_000_000_000,
        ensures
            b.origin == (Point { x, y }),
            b.out_of_bounds == false,
            b.dir == (Direction { x: 0, y: 0 }),
            b.bounds == (Rect { x, y, w: SIZE, h: SIZE }),
            b.wf(),
    {
        Ball {
            origin: Point::new(x, y),
            out_of_bounds: false,
            dir: Direction { x: 0, y: 0 },
            bounds: Rect::new(x, y, SIZE, SIZE),
        }
    }

    /// Set the travel direction; both components must be -1, 0 or +1.
    pub fn move_offset(&mut self, x: i32, y: i32)
        requires
            -1 <= x <= 1,
            -1 <= y <= 1,
        ensures
            *final(self) == (Ball { dir: Direction { x, y }, ..*old(self) }),
    {
        self.dir = Direction { x, y };
    }

    /// Invert the horizontal direction; used by brick collision response.
    pub fn flip_x(&mut self)
        requires
            old(self).dir.is_unit(),
        ensures
            *final(self) == (Ball {
                dir: Direction { x: (-old(self).dir.x) as i32, ..old(self).dir },
                ..*old(self)
            }),
    {
        self.dir = Direction { x: -self.dir.x, y: self.dir.y };
    }

    /// Invert the vertical direction; used by brick collision response.
    pub fn flip_y(&mut self)
        requires
            old(self).dir.is_unit(),
        ensures
            *final(self) == (Ball {
                dir: Direction { y: (-old(self).dir.y) as i32, ..old(self).dir },
                ..*old(self)
            }),
    {
        self.dir = Direction { x: self.dir.x, y: -self.dir.y };
    }

    pub fn is_out_of_bounds(&self) -> (r: bool)
        ensures
            r == self.out_of_bounds,
    {
        self.out_of_bounds
    }

    /// Put the ball back at its origin and clear the out-of-bounds mark.
    /// The stored direction is kept as the exit left it: pointing up and
    /// away from the bottom.
    pub fn reset(&mut self)
        ensures
            *final(self) == old(self).reset_spec(),
            final(self).bounds.x == old(self).origin.x,
            final(self).bounds.y == old(self).origin.y,
            !final(self).out_of_bounds,
    {
        self.out_of_bounds = false;
        let origin = self.origin;
        self.bounds.reposition(origin);
    }

    /// Advance one tick of `dt_ms` milliseconds inside a
    /// `window` = (width, height) field. A no-op while out of bounds.
    pub fn tick(&mut self, dt_ms: u32, window_size: (i32, i32))
        requires
            old(self).wf(),
            dt_ms <= 1_000_000,
            -1_000_000_000 <= old(self).bounds.x <= 1_000_000_000,
            -1_000_000_000 <= old(self).bounds.y <= 1_000_000_000,
            0 <= window_size.0 <= 1_000_000_000,
            0 <= window_size.1 <= 1_000_000_000,
        ensures
            *final(self) == old(self).tick_spec(dt_ms, window_size),
            old(self).out_of_bounds ==> *final(self) == *old(self),
            final(self).wf(),
            final(self).origin == old(self).origin,
    {
        if self.out_of_bounds {
            return;
        }

        let d_wide: u64 = (SPEED as u64) * (dt_ms as u64) / 1000;
        proof {
            assert(d_wide <= 500_000);
            assert(d_wide as int == displacement(SPEED as int, dt_ms as int));
        }
        let d: i32 = d_wide as i32;
        let mut new_x: i32 = if self.dir.x >= 1 {
            d
        } else if self.dir.x <= -1 {
            -d
        } else {
            0
        };
        let mut new_y: i32 = if self.dir.y >= 1 {
            d
        } else if self.dir.y <= -1 {
            -d
        } else {
            0
        };
        proof {
            lemma_unit_times(self.dir.x as int, d as int);
            lemma_unit_times(self.dir.y as int, d as int);
            assert(new_x == self.dir.x * (d as int));
            assert(new_y == self.dir.y * (d as int));
        }

        let pos_x = self.bounds.x;
        let pos_y = self.bounds.y;

        // Pre-emptive reflection: never let the ball leave through the top
        // or the sides; flipping before the move makes it bounce instead.
        if pos_y + new_y <= 0 {
            new_y = -new_y;
            self.dir = Direction { x: self.dir.x, y: -self.dir.y };
        }

        if pos_x + new_x <= 0 || pos_x + new_x >= window_size.0 - SIZE as i32 {
            new_x = -new_x;
            self.dir = Direction { x: -self.dir.x, y: self.dir.y };
        }

        self.bounds.offset(new_x, new_y);

        // Crossing the bottom ends the life: freeze and aim the stored
        // direction back up so a later reset restarts away from the bottom.
        if pos_y + new_y >= window_size.1 - SIZE as i32 {
            self.out_of_bounds = true;
            let dir_x = self.dir.x;
            self.move_offset(-dir_x, -1);
        }
    }

    /// Resolve a collision with the paddle, if the two overlap.
    pub fn check_collision(&mut self, paddle: &Paddle)
        requires
            old(self).wf(),
            old(self).bounds.wf(),
            paddle.wf(),
        ensures
            *final(self) == old(self).paddle_bounce_spec(*paddle),
            final(self).wf(),
    {
        if let Some(intersection) = self.bounds.intersection(paddle.bounds) {
            self.dir = Direction { x: self.dir.x, y: -self.dir.y };

            // A hit inside either end strip of the paddle also redirects
            // the ball sideways; a centre hit only bounces it up.
            if intersection.x >= paddle.bounds.x
                && intersection.x <= paddle.bounds.x + EDGE_BAND {
                self.dir = Direction { x: -self.dir.x, y: self.dir.y };
            } else if intersection.x >= paddle.bounds.x + (paddle.bounds.w as i32 - EDGE_BAND)
                && intersection.x <= paddle.bounds.x + paddle.bounds.w as i32 {
                self.dir = Direction { x: -self.dir.x, y: self.dir.y };
            }
        }
    }
}

/// The horizontal direction inverts exactly when the projected movement
/// would cross either vertical field boundary, and then the same tick's
/// horizontal displacement is negated as well, so the ball never
/// overshoots a side boundary by more than one tick's displacement.
pub proof fn lemma_tick_reflects_horizontally(b: Ball, dt_ms: u32, window: (i32, i32))
    requires
        !b.out_of_bounds,
        b.wf(),
        dt_ms <= 1_000_000,
        -1_000_000_000 <= b.bounds.x <= 1_000_000_000,
        -1_000_000_000 <= b.bounds.y <= 1_000_000_000,
        0 <= window.0 <= 1_000_000_000,
        0 <= window.1 <= 1_000_000_000,
    ensures
        ({
            let d = displacement(SPEED as int, dt_ms as int);
            let dx0 = b.dir.x * d;
            let crosses = b.bounds.x + dx0 <= 0 || b.bounds.x + dx0 >= window.0 - SIZE;
            let after = b.tick_spec(dt_ms, window);
            &&& after.bounds.x == b.bounds.x + (if crosses { -dx0 } else { dx0 })
            &&& !after.out_of_bounds ==> after.dir.x
                == (if crosses { -b.dir.x as int } else { b.dir.x as int })
        }),
{
    lemma_unit_times(b.dir.x as int, displacement(SPEED as int, dt_ms as int));
    lemma_unit_times(b.dir.y as int, displacement(SPEED as int, dt_ms as int));
    assert(0 <= 500 * (dt_ms as int) / 1000 <= 500_000) by (nonlinear_arith)
        requires dt_ms <= 1_000_000;
    assert(0 <= displacement(SPEED as int, dt_ms as int) <= 500_000);
}

/// A ball whose projected bottom edge crosses the field's bottom leaves
/// the tick out of bounds with a stored vertical direction of -1, and a
/// reset afterwards restores the exact origin coordinates and clears the
/// mark.
pub proof fn lemma_bottom_exit_then_reset(b: Ball, dt_ms: u32, window: (i32, i32))
    requires
        !b.out_of_bounds,
        b.wf(),
        dt_ms <= 1_000_000,
        -1_000_000_000 <= b.bounds.x <= 1_000_000_000,
        -1_000_000_000 <= b.bounds.y <= 1_000_000_000,
        0 <= window.0 <= 1_000_000_000,
        0 <= window.1 <= 1_000_000_000,
    ensures
        ({
            let d = displacement(SPEED as int, dt_ms as int);
            let dy0 = b.dir.y * d;
            let dy = if b.bounds.y + dy0 <= 0 { -dy0 } else { dy0 };
            let after = b.tick_spec(dt_ms, window);
            &&& after.out_of_bounds == (b.bounds.y + dy >= window.1 - SIZE)
            &&& after.out_of_bounds ==> after.dir.y == -1
            &&& after.reset_spec().bounds.x == b.origin.x
            &&& after.reset_spec().bounds.y == b.origin.y
            &&& !after.reset_spec().out_of_bounds
        }),
{
    lemma_unit_times(b.dir.x as int, displacement(SPEED as int, dt_ms as int));
    lemma_unit_times(b.dir.y as int, displacement(SPEED as int, dt_ms as int));
    assert(0 <= 500 * (dt_ms as int) / 1000 <= 500_000) by (nonlinear_arith)
        requires dt_ms <= 1_000_000;
    assert(0 <= displacement(SPEED as int, dt_ms as int) <= 500_000);
}

/// `u * d` for a unit factor `u` is `d`, `-d` or `0`.
proof fn lemma_unit_times(u: int, d: int)
    requires
        -1 <= u <= 1,
    ensures
        u == 1 ==> u * d == d,
        u == -1 ==> u * d == -d,
        u == 0 ==> u * d == 0,
{
    if u == 1 {
        assert(1 * d == d) by (nonlinear_arith);
    } else if u == -1 {
        assert((-1) * d == -d) by (nonlinear_arith);
    } else if u == 0 {
        assert(0 * d == 0) by (nonlinear_arith);
    }
}

} // verus!
