//! The player's paddle: a horizontal-only moving entity. Each tick it moves
//! by `intent * SPEED * dt`, but only when the whole move keeps it strictly
//! inside the play field; otherwise it freezes in place for that tick
//! (freeze, not clamp).

use vstd::prelude::*;
use crate::geometry::{Direction, Rect, displacement};

verus! {

pub const WIDTH: u32 = 160;
pub const HEIGHT: u32 = 24;
/// Horizontal speed in pixels per second.
pub const SPEED: u32 = 800;

pub struct Paddle {
    /// Desired horizontal direction, -1, 0 or +1; set from key events.
    pub x_offset: i32,
    pub bounds: Rect,
}

impl Paddle {
    /// The intent is a unit direction and the bounds box has the paddle's
    /// fixed size with representable edges.
    pub open spec fn wf(self) -> bool {
        &&& -1 <= self.x_offset <= 1
        &&& self.bounds.w == WIDTH
        &&& self.bounds.h == HEIGHT
        &&& self.bounds.wf()
    }

    /// The paddle lies fully within a field `field_width` pixels wide.
    pub open spec fn in_field(self, field_width: int) -> bool {
        0 <= self.bounds.x && self.bounds.x + WIDTH <= field_width
    }

    /// The value of one tick: move by `x_offset * SPEED * dt` when the
    /// whole move lands strictly inside `(0, window_x - WIDTH)`, else stay.
    pub open spec fn tick_spec(self, dt_ms: u32, window_x: i32) -> Paddle {
        let d = displacement(SPEED as int, dt_ms as int);
        let new_x = self.x_offset * d;
        if self.bounds.x + new_x > 0 && new_x + self.bounds.x < window_x - WIDTH {
            Paddle { bounds: Rect { x: (self.bounds.x + new_x) as i32, ..self.bounds }, ..self }
        } else {
            self
        }
    }

    pub fn new(x: i32, y: i32) -> (p: Paddle)
        requires
            x + WIDTH <= i32::MAX,
            y + HEIGHT <= i32::MAX,
        ensures
            p.x_offset == 0,
            p.bounds == (Rect { x, y, w: WIDTH, h: HEIGHT }),
            p.wf(),
    {
        Paddle { x_offset: 0, bounds: Rect::new(x, y, WIDTH, HEIGHT) }
    }

    /// Record the desired horizontal direction; the position is untouched.
    pub fn move_offset(&mut self, offset: i32)
        requires
            -1 <= offset <= 1,
        ensures
            *final(self) == (Paddle { x_offset: offset, ..*old(self) }),
    {
        self.x_offset = offset;
    }

    /// Advance one tick of `dt_ms` milliseconds in a field `window_x`
    /// pixels wide.
    pub fn tick(&mut self, dt_ms: u32, window_x: i32)
        requires
            old(self).wf(),
        ensures
            *final(self) == old(self).tick_spec(dt_ms, window_x),
            final(self).wf(),
            old(self).in_field(window_x as int) ==> final(self).in_field(window_x as int),
    {
        let d_wide: u64 = (SPEED as u64) * (dt_ms as u64) / 1000;
        let new_x: i64 = if self.x_offset >= 1 {
            d_wide as i64
        } else if self.x_offset <= -1 {
            -(d_wide as i64)
        } else {
            0
        };
        proof {
            let d = displacement(SPEED as int, dt_ms as int);
            assert(d == d_wide as int);
            if self.x_offset == 1 {
                assert(1 * d == d) by (nonlinear_arith);
            } else if self.x_offset == -1 {
                assert((-1) * d == -d) by (nonlinear_arith);
            } else {
                assert(0 * d == 0) by (nonlinear_arith);
            }
            assert(new_x == self.x_offset * d);
        }
        let pos_x: i64 = self.bounds.x as i64;

        if pos_x + new_x > 0 && new_x + pos_x < window_x as i64 - WIDTH as i64 {
            self.bounds.x = (pos_x + new_x) as i32;
        }
    }
}

/// A paddle inside the field stays inside the field, whatever the intent
/// and however much time one tick covers: ticking never yields a position
/// left of 0 or closer than `WIDTH` to the right edge.
pub proof fn lemma_paddle_stays_in_field(p: Paddle, dt_ms: u32, window_x: i32)
    requires
        p.in_field(window_x as int),
    ensures
        p.tick_spec(dt_ms, window_x).in_field(window_x as int),
{
}

} // verus!
