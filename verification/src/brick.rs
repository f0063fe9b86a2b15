//! A brick: a stationary destructible entity. A collision with the ball
//! deflects the ball according to which edge band was struck, costs the
//! brick one hitpoint, and is worth one point of score. A brick with no
//! hitpoints left is dead: it never collides again and is worth nothing.

use vstd::prelude::*;
use crate::ball::Ball;
use crate::geometry::{Direction, Rect};

verus! {

pub const WIDTH: u32 = 128;
pub const HEIGHT: u32 = 32;
/// Width of the edge strips that decide which axis of the ball's
/// direction a hit inverts.
pub const INTERSECT: i32 = 8;

#[derive(Clone, Copy)]
pub struct Brick {
    /// Hits left before the brick dies; 1 to 3 at creation.
    pub hitpoints: i8,
    pub bounds: Rect,
}

impl Default for Brick {
    /// A dead placeholder brick of zero size at the field's corner.
    fn default() -> (b: Self)
        ensures
            b.hitpoints == 0,
            b.bounds == (Rect { x: 0, y: 0, w: 0, h: 0 }),
    {
        Brick { hitpoints: 0, bounds: Rect::new(0, 0, 0, 0) }
    }
}

impl Brick {
    /// Hitpoints never go negative and the bounds box has the brick's
    /// fixed size with representable edges.
    pub open spec fn wf(self) -> bool {
        &&& 0 <= self.hitpoints
        &&& self.bounds.w == WIDTH
        &&& self.bounds.h == HEIGHT
        &&& self.bounds.wf()
    }

    /// A brick is alive exactly while it has hitpoints left.
    pub open spec fn alive(self) -> bool {
        self.hitpoints > 0
    }

    /// The value of one collision check: the brick afterwards, the ball
    /// afterwards, and the score delta.
    ///
    /// A dead brick, or no overlap, changes nothing and scores 0. On an
    /// overlap the ball's horizontal direction inverts when the
    /// intersection lies in the left or right `INTERSECT`-pixel band, its
    /// vertical direction inverts when the intersection lies in the top
    /// or bottom band (a corner hit fires both), the brick loses one
    /// hitpoint whichever bands matched, and the score delta is 1.
    pub open spec fn collide_spec(self, ball: Ball) -> (Brick, Ball, i32) {
        if self.hitpoints <= 0 {
            (self, ball, 0)
        } else if self.bounds.overlaps(ball.bounds) {
            let sect = self.bounds.overlap_rect(ball.bounds);
            let flip_x = (sect.x >= self.bounds.x && sect.x <= self.bounds.x + INTERSECT)
                || (sect.x >= self.bounds.x + WIDTH - INTERSECT
                    && sect.x <= self.bounds.x + WIDTH);
            let flip_y = (sect.y >= self.bounds.y && sect.y <= self.bounds.y + INTERSECT)
                || (sect.y >= self.bounds.y + HEIGHT - INTERSECT
                    && sect.y <= self.bounds.y + HEIGHT);
            (
                Brick { hitpoints: (self.hitpoints - 1) as i8, ..self },
                Ball {
                    dir: Direction {
                        x: if flip_x { (-ball.dir.x) as i32 } else { ball.dir.x },
                        y: if flip_y { (-ball.dir.y) as i32 } else { ball.dir.y },
                    },
                    ..ball
                },
                1,
            )
        } else {
            (self, ball, 0)
        }
    }

    pub fn new(hitpoints: i8, x: i32, y: i32) -> (b: Brick)
        requires
            1 <= hitpoints <= 3,
            x + WIDTH <= i32::MAX,
            y + HEIGHT <= i32::MAX,
        ensures
            b.hitpoints == hitpoints,
            b.bounds == (Rect { x, y, w: WIDTH, h: HEIGHT }),
            b.wf(),
            b.alive(),
    {
        Brick { hitpoints, bounds: Rect::new(x, y, WIDTH, HEIGHT) }
    }

    pub fn is_alive(&self) -> (r: bool)
        ensures
            r == self.alive(),
    {
        self.hitpoints > 0
    }

    /// Resolve a collision with the ball, if this brick is alive and the
    /// two overlap; returns the score delta.
    pub fn check_collision(&mut self, ball: &mut Ball) -> (score: i32)
        requires
            old(self).wf(),
            old(ball).wf(),
        ensures
            ({
                let hit = old(self).collide_spec(*old(ball));
                &&& *final(self) == hit.0
                &&& *final(ball) == hit.1
                &&& score == hit.2
            }),
            0 <= score <= 1,
            final(self).hitpoints == old(self).hitpoints - score,
            final(self).bounds == old(self).bounds,
            final(ball).bounds == old(ball).bounds,
            final(self).wf(),
            final(ball).wf(),
            !old(self).alive() ==> *final(self) == *old(self) && *final(ball) == *old(ball)
                && score == 0,
    {
        if !self.is_alive() {
            return 0;
        }

        if let Some(intersection) = self.bounds.intersection(ball.bounds) {
            // A hit in a side band redirects the ball on that axis; a
            // corner hit lies in two bands and reverses it diagonally.
            if intersection.x >= self.bounds.x
                && intersection.x <= self.bounds.x + INTERSECT {
                ball.flip_x();
            } else if intersection.x >= self.bounds.x + (WIDTH as i32 - INTERSECT)
                && intersection.x <= self.bounds.x + WIDTH as i32 {
                ball.flip_x();
            }

            if intersection.y >= self.bounds.y
                && intersection.y <= self.bounds.y + INTERSECT {
                ball.flip_y();
            } else if intersection.y >= self.bounds.y + (HEIGHT as i32 - INTERSECT)
                && intersection.y <= self.bounds.y + HEIGHT as i32 {
                ball.flip_y();
            }

            // The hit costs one hitpoint whichever bands matched, and is
            // worth one fixed point of score.
            self.hitpoints = self.hitpoints - 1;
            return 1;
        }

        0
    }
}

/// A brick with one hitpoint left dies of exactly one intersecting
/// collision, and a dead brick's collision check changes neither the
/// brick nor the ball and scores 0.
pub proof fn lemma_brick_damage(brick: Brick, ball: Ball)
    ensures
        ({
            let hit = brick.collide_spec(ball);
            &&& brick.hitpoints == 1 && brick.bounds.overlaps(ball.bounds)
                ==> !hit.0.alive() && hit.2 == 1
            &&& !brick.alive() ==> hit.0 == brick && hit.1 == ball && hit.2 == 0
        }),
{
}

} // verus!
