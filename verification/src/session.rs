//! The simulation driver: owns the paddle, the ball and the brick field,
//! advances them each frame in a fixed order, accumulates score, and
//! manages lives and the game-over / win transitions.
//!
//! Frame order: handle a lost ball (decrement lives, reset), freeze
//! forever once the lives are gone, then tick the paddle, tick the ball,
//! resolve ball-versus-paddle, resolve ball-versus-every-brick summing
//! the score deltas, and finally check the win threshold.

use vstd::prelude::*;
use crate::ball::Ball;
use crate::ball;
use crate::brick::Brick;
use crate::brick;
use crate::geometry::Rect;
use crate::paddle::Paddle;
use crate::paddle;
use crate::rng::{gen_hitpoint, new_thread_rng};

verus! {

/// Play-field width in pixels.
pub const FIELD_WIDTH: i32 = 1080;
/// Play-field height in pixels.
pub const FIELD_HEIGHT: i32 = 720;
/// Number of bricks the layout generator places.
pub const BRICK_COUNT: usize = 30;
/// Gap between bricks, and left margin unit, in pixels.
pub const BRICK_SPACING: i32 = 16;
/// Lives at the start of a session.
pub const START_LIVES: i32 = 3;

/// Sum of the hitpoints of all bricks in a row of slots. Dead bricks
/// hold zero and contribute nothing.
pub open spec fn sum_hp(bricks: Seq<Brick>) -> int
    decreases bricks.len(),
{
    if bricks.len() == 0 {
        0
    } else {
        sum_hp(bricks.drop_last()) + bricks.last().hitpoints
    }
}

pub proof fn lemma_sum_hp_push(s: Seq<Brick>, b: Brick)
    ensures
        sum_hp(s.push(b)) == sum_hp(s) + b.hitpoints,
{
    assert(s.push(b).drop_last() =~= s);
}

pub proof fn lemma_sum_hp_update(s: Seq<Brick>, i: int, b: Brick)
    requires
        0 <= i < s.len(),
    ensures
        sum_hp(s.update(i, b)) == sum_hp(s) - s[i].hitpoints + b.hitpoints,
    decreases s.len(),
{
    if i == s.len() - 1 {
        assert(s.update(i, b).drop_last() =~= s.drop_last());
    } else {
        assert(s.update(i, b).drop_last() =~= s.drop_last().update(i, b));
        lemma_sum_hp_update(s.drop_last(), i, b);
    }
}

pub proof fn lemma_sum_hp_nonneg(s: Seq<Brick>)
    requires
        forall|i: int| 0 <= i < s.len() ==> 0 <= (#[trigger] s[i]).hitpoints,
    ensures
        0 <= sum_hp(s),
    decreases s.len(),
{
    if s.len() > 0 {
        assert forall|i: int| 0 <= i < s.drop_last().len()
            implies 0 <= (#[trigger] s.drop_last()[i]).hitpoints by {
            assert(s.drop_last()[i] == s[i]);
        }
        lemma_sum_hp_nonneg(s.drop_last());
    }
}

/// Horizontal position of brick slot `i` in the 6-column grid.
pub open spec fn brick_x(i: int) -> int {
    7 * BRICK_SPACING + (i % 6) * (brick::WIDTH + BRICK_SPACING)
}

/// Vertical position of brick slot `i`: rows of 6, spaced by a fixed gap
/// under a top margin.
pub open spec fn brick_y(i: int) -> int {
    32 + (i / 6 + 1) * (BRICK_SPACING + brick::HEIGHT)
}

/// Lay out one brick per slot on the 6-column grid, with the given
/// hitpoints per slot, and return the sum of all hitpoint values: the
/// session's win threshold.
pub fn create_bricks_with(bricks: &mut Vec<Brick>, hitpoints: &Vec<i8>) -> (total: i32)
    requires
        hitpoints@.len() == old(bricks)@.len(),
        old(bricks)@.len() <= 1_000_000,
        forall|i: int| 0 <= i < hitpoints@.len() ==> 1 <= #[trigger] hitpoints@[i] <= 3,
    ensures
        final(bricks)@.len() == old(bricks)@.len(),
        forall|i: int| 0 <= i < final(bricks)@.len() ==> #[trigger] final(bricks)@[i] == (Brick {
            hitpoints: hitpoints@[i],
            bounds: Rect {
                x: brick_x(i) as i32,
                y: brick_y(i) as i32,
                w: brick::WIDTH,
                h: brick::HEIGHT,
            },
        }),
        forall|i: int| 0 <= i < final(bricks)@.len() ==> (#[trigger] final(bricks)@[i]).wf(),
        total == sum_hp(final(bricks)@),
        0 <= total,
{
    let n = bricks.len();
    let mut total: i32 = 0;
    let mut i: usize = 0;
    while i < n
        invariant
            n == bricks@.len(),
            bricks@.len() == hitpoints@.len(),
            n <= 1_000_000,
            i <= n,
            forall|j: int| 0 <= j < hitpoints@.len() ==> 1 <= #[trigger] hitpoints@[j] <= 3,
            forall|j: int| 0 <= j < i ==> #[trigger] bricks@[j] == (Brick {
                hitpoints: hitpoints@[j],
                bounds: Rect {
                    x: brick_x(j) as i32,
                    y: brick_y(j) as i32,
                    w: brick::WIDTH,
                    h: brick::HEIGHT,
                },
            }),
            forall|j: int| 0 <= j < i ==> (#[trigger] bricks@[j]).wf(),
            total == sum_hp(bricks@.subrange(0, i as int)),
            0 <= total <= 3 * i,
        decreases n - i,
    {
        let col = (i as i32) % 6;
        let row = (i as i32) / 6;
        let step_x = brick::WIDTH as i32 + BRICK_SPACING;
        let step_y = BRICK_SPACING + brick::HEIGHT as i32;
        proof {
            assert(0 <= col < 6);
            assert(0 <= row < 166_667);
            assert(step_x == 144);
            assert(step_y == 48);
            assert(0 <= col * step_x <= 864) by (nonlinear_arith)
                requires 0 <= col < 6, step_x == 144;
            assert(0 <= (row + 1) * step_y <= 8_000_064) by (nonlinear_arith)
                requires 0 <= row < 166_667, step_y == 48;
        }
        let x = BRICK_SPACING * 7 + col * step_x;
        let y = 32 + (row + 1) * step_y;
        let hp = hitpoints[i];
        let b = Brick::new(hp, x, y);
        let ghost pre = bricks@;
        bricks.set(i, b);
        total = total + hp as i32;
        proof {
            assert(x == brick_x(i as int));
            assert(y == brick_y(i as int));
            assert(bricks@.subrange(0, i as int) =~= pre.subrange(0, i as int));
            assert(bricks@.subrange(0, i + 1) =~= bricks@.subrange(0, i as int).push(b));
            lemma_sum_hp_push(bricks@.subrange(0, i as int), b);
        }
        i = i + 1;
    }
    proof {
        assert(bricks@.subrange(0, n as int) =~= bricks@);
    }
    total
}

/// Populate the brick field: one brick per slot on the grid, each with a
/// random hitpoint value between 1 and 3 inclusive, and return the sum of
/// all hitpoint values as the session's win threshold.
pub fn create_bricks(bricks: &mut Vec<Brick>) -> (total: i32)
    requires
        old(bricks)@.len() <= 1_000_000,
    ensures
        final(bricks)@.len() == old(bricks)@.len(),
        forall|i: int| 0 <= i < final(bricks)@.len()
            ==> 1 <= (#[trigger] final(bricks)@[i]).hitpoints <= 3,
        forall|i: int| 0 <= i < final(bricks)@.len() ==> (#[trigger] final(bricks)@[i]).bounds == (Rect {
            x: brick_x(i) as i32,
            y: brick_y(i) as i32,
            w: brick::WIDTH,
            h: brick::HEIGHT,
        }),
        forall|i: int| 0 <= i < final(bricks)@.len() ==> (#[trigger] final(bricks)@[i]).wf(),
        total == sum_hp(final(bricks)@),
        0 <= total,
{
    let n = bricks.len();
    let mut rng = new_thread_rng();
    let mut hitpoints: Vec<i8> = Vec::new();
    let mut i: usize = 0;
    while i < n
        invariant
            i <= n,
            hitpoints@.len() == i as int,
            forall|j: int| 0 <= j < i ==> 1 <= #[trigger] hitpoints@[j] <= 3,
        decreases n - i,
    {
        let hp = gen_hitpoint(&mut rng);
        hitpoints.push(hp);
        i = i + 1;
    }
    create_bricks_with(bricks, &hitpoints)
}

/// The driver's state: still playing, frozen after the last life, or won.
/// A lost ball that leaves lives over is handled within a single frame
/// and never shows between frames.
#[derive(Clone, Copy, PartialEq, Eq, Structural, Debug)]
pub enum GameState {
    Playing,
    GameOver,
    Won,
}

/// One sequential pass of the ball over every brick slot, in order,
/// threading the ball's deflections through and summing the score
/// deltas; the value of `resolve_brick_collisions` after the first `n`
/// slots.
pub open spec fn bricks_step(bricks: Seq<Brick>, ball: Ball, n: int) -> (Seq<Brick>, Ball, int)
    decreases n,
{
    if n <= 0 {
        (bricks, ball, 0)
    } else {
        let prev = bricks_step(bricks, ball, n - 1);
        let hit = prev.0[n - 1].collide_spec(prev.1);
        (prev.0.update(n - 1, hit.0), hit.1, prev.2 + hit.2)
    }
}

/// Resolve the ball against every brick slot in order, checking all of
/// them without short-circuiting, and return the summed score delta.
pub fn resolve_brick_collisions(bricks: &mut Vec<Brick>, ball: &mut Ball) -> (delta: i32)
    requires
        forall|i: int| 0 <= i < old(bricks)@.len() ==> (#[trigger] old(bricks)@[i]).wf(),
        old(ball).wf(),
        sum_hp(old(bricks)@) <= i32::MAX,
    ensures
        ({
            let st = bricks_step(old(bricks)@, *old(ball), old(bricks)@.len() as int);
            &&& final(bricks)@ == st.0
            &&& *final(ball) == st.1
            &&& delta == st.2
        }),
        final(bricks)@.len() == old(bricks)@.len(),
        forall|i: int| 0 <= i < final(bricks)@.len() ==> (#[trigger] final(bricks)@[i]).wf(),
        final(ball).wf(),
        0 <= delta,
        sum_hp(final(bricks)@) + delta == sum_hp(old(bricks)@),
{
    let ghost bricks0 = bricks@;
    let ghost ball0 = *ball;
    let n = bricks.len();
    let mut delta: i32 = 0;
    let mut i: usize = 0;
    while i < n
        invariant
            n == bricks@.len(),
            bricks@.len() == bricks0.len(),
            i <= n,
            ball.wf(),
            forall|j: int| 0 <= j < bricks@.len() ==> (#[trigger] bricks@[j]).wf(),
            ({
                let st = bricks_step(bricks0, ball0, i as int);
                &&& bricks@ == st.0
                &&& *ball == st.1
                &&& delta == st.2
            }),
            sum_hp(bricks0) <= i32::MAX,
            sum_hp(bricks@) + delta == sum_hp(bricks0),
            0 <= delta,
        decreases n - i,
    {
        let ghost st_pre = bricks_step(bricks0, ball0, i as int);
        let mut b = bricks[i];
        let sc = b.check_collision(ball);
        bricks.set(i, b);
        proof {
            let hit = st_pre.0[i as int].collide_spec(st_pre.1);
            let st_post = bricks_step(bricks0, ball0, i + 1);
            assert(bricks@ =~= st_post.0);
            lemma_sum_hp_update(st_pre.0, i as int, hit.0);
            lemma_sum_hp_nonneg(bricks@);
        }
        delta = delta + sc;
        i = i + 1;
    }
    delta
}

/// The whole session as the specifications see it: entity states, the
/// brick row as a sequence, and unbounded integers for the counters.
#[verifier::ext_equal]
pub struct SessionModel {
    pub paddle: Paddle,
    pub ball: Ball,
    pub bricks: Seq<Brick>,
    pub score: int,
    pub lives: int,
    pub total_score: int,
    pub state: GameState,
}

impl SessionModel {
    /// The value of one frame of `dt_ms` milliseconds.
    ///
    /// Outside `Playing` the frame changes nothing. Otherwise: a lost
    /// ball costs a life and is reset, and when no lives are left the
    /// session freezes in `GameOver`; else the paddle ticks, the ball
    /// ticks, bounces off the paddle if they touch, passes over every
    /// brick slot in order, the summed score delta is added, and the
    /// session enters `Won` once the score reaches the win threshold.
    pub open spec fn step(self, dt_ms: u32) -> SessionModel {
        if self.state != GameState::Playing {
            self
        } else {
            let s1 = if self.ball.out_of_bounds {
                SessionModel {
                    ball: self.ball.reset_spec(),
                    lives: self.lives - 1,
                    ..self
                }
            } else {
                self
            };
            if s1.lives <= 0 {
                SessionModel { state: GameState::GameOver, ..s1 }
            } else {
                let paddle2 = s1.paddle.tick_spec(dt_ms, FIELD_WIDTH);
                let ball2 = s1.ball.tick_spec(dt_ms, (FIELD_WIDTH, FIELD_HEIGHT));
                let ball3 = ball2.paddle_bounce_spec(paddle2);
                let hit = bricks_step(s1.bricks, ball3, s1.bricks.len() as int);
                let score2 = s1.score + hit.2;
                SessionModel {
                    paddle: paddle2,
                    ball: hit.1,
                    bricks: hit.0,
                    score: score2,
                    state: if score2 >= s1.total_score {
                        GameState::Won
                    } else {
                        GameState::Playing
                    },
                    ..s1
                }
            }
        }
    }
}

/// One game session: the driver owns every entity and all counters.
pub struct Session {
    pub paddle: Paddle,
    pub ball: Ball,
    pub bricks: Vec<Brick>,
    pub score: i32,
    pub lives: i32,
    /// Sum of all brick point values at layout time: the win threshold.
    pub total_score: i32,
    pub state: GameState,
}

impl Session {
    pub open spec fn model(self) -> SessionModel {
        SessionModel {
            paddle: self.paddle,
            ball: self.ball,
            bricks: self.bricks@,
            score: self.score as int,
            lives: self.lives as int,
            total_score: self.total_score as int,
            state: self.state,
        }
    }

    /// The session invariant: entities well-formed, counters non-negative,
    /// a playing session has a life left, and the score plus the
    /// hitpoints still standing always equal the win threshold.
    pub open spec fn wf(self) -> bool {
        &&& self.paddle.wf()
        &&& self.ball.wf()
        &&& forall|i: int| 0 <= i < self.bricks@.len() ==> (#[trigger] self.bricks@[i]).wf()
        &&& 0 <= self.score
        &&& 0 <= self.lives
        &&& (self.state == GameState::Playing ==> 1 <= self.lives)
        &&& self.score + sum_hp(self.bricks@) == self.total_score
    }

    /// The ball's position is far within the coordinate range a tick can
    /// safely move it in; trivially true anywhere near the play field.
    pub open spec fn ball_in_range(self) -> bool {
        &&& -1_000_000_000 <= self.ball.bounds.x <= 1_000_000_000
        &&& -1_000_000_000 <= self.ball.bounds.y <= 1_000_000_000
    }

    /// Runtime test of `ball_in_range`, for an embedder that must
    /// establish `tick_frame`'s precondition.
    pub fn ball_in_range_check(&self) -> (r: bool)
        ensures
            r == self.ball_in_range(),
    {
        -1_000_000_000 <= self.ball.bounds.x && self.ball.bounds.x <= 1_000_000_000
            && -1_000_000_000 <= self.ball.bounds.y && self.ball.bounds.y <= 1_000_000_000
    }

    /// Start a session: paddle centred near the bottom, ball at mid-field
    /// heading down-left, a fresh random brick field, full lives, no
    /// score.
    pub fn new() -> (s: Session)
        ensures
            s.wf(),
            s.ball_in_range(),
            s.score == 0,
            s.lives == START_LIVES,
            s.bricks@.len() == BRICK_COUNT,
            forall|i: int| 0 <= i < s.bricks@.len()
                ==> 1 <= (#[trigger] s.bricks@[i]).hitpoints <= 3,
            s.total_score == sum_hp(s.bricks@),
            s.paddle.bounds == (Rect {
                x: (FIELD_WIDTH / 2 - paddle::WIDTH as i32 / 2) as i32,
                y: (FIELD_HEIGHT - 32 - paddle::HEIGHT as i32 / 2) as i32,
                w: paddle::WIDTH,
                h: paddle::HEIGHT,
            }),
            s.ball.bounds == (Rect {
                x: (FIELD_WIDTH / 2) as i32,
                y: (FIELD_HEIGHT / 2 + 128) as i32,
                w: ball::SIZE,
                h: ball::SIZE,
            }),
            s.ball.dir == (crate::geometry::Direction { x: -1i32, y: -1i32 }),
            !s.ball.out_of_bounds,
            s.state == (if 0 < s.total_score { GameState::Playing } else { GameState::Won }),
    {
        let paddle = Paddle::new(
            FIELD_WIDTH / 2 - paddle::WIDTH as i32 / 2,
            FIELD_HEIGHT - 32 - paddle::HEIGHT as i32 / 2,
        );
        let mut ball = Ball::new(FIELD_WIDTH / 2, FIELD_HEIGHT / 2 + 128);
        ball.move_offset(-1, -1);

        let mut bricks: Vec<Brick> = Vec::new();
        while bricks.len() < BRICK_COUNT
            invariant
                bricks@.len() <= BRICK_COUNT,
            decreases BRICK_COUNT - bricks@.len(),
        {
            bricks.push(Brick::default());
        }
        let total_score = create_bricks(&mut bricks);

        let state = if 0 < total_score {
            GameState::Playing
        } else {
            GameState::Won
        };
        Session {
            paddle,
            ball,
            bricks,
            score: 0,
            lives: START_LIVES,
            total_score,
            state,
        }
    }

    /// Advance the session by one frame of `dt_ms` milliseconds, in the
    /// fixed per-frame order. Outside `Playing` this is a no-op: after a
    /// game over the entities stay frozen forever.
    pub fn tick_frame(&mut self, dt_ms: u32)
        requires
            old(self).wf(),
            old(self).ball_in_range(),
            dt_ms <= 1_000_000,
        ensures
            final(self).model() == old(self).model().step(dt_ms),
            final(self).wf(),
            final(self).total_score == old(self).total_score,
            final(self).score >= old(self).score,
            old(self).state != GameState::Playing ==> *final(self) == *old(self),
    {
        let ghost m0 = self.model();

        match self.state {
            GameState::Playing => {}
            _ => {
                proof {
                    assert(self.model() =~= m0.step(dt_ms));
                }
                return;
            }
        }

        // A ball past the bottom edge costs one life and restarts from
        // the origin; the frame goes on if any lives are left.
        if self.ball.is_out_of_bounds() {
            self.ball.reset();
            self.lives = self.lives - 1;
        }

        if self.lives <= 0 {
            self.state = GameState::GameOver;
            proof {
                assert(self.model() =~= m0.step(dt_ms));
            }
            return;
        }

        self.paddle.tick(dt_ms, FIELD_WIDTH);
        self.ball.tick(dt_ms, (FIELD_WIDTH, FIELD_HEIGHT));
        self.ball.check_collision(&self.paddle);

        proof {
            lemma_sum_hp_nonneg(self.bricks@);
        }
        let delta = resolve_brick_collisions(&mut self.bricks, &mut self.ball);
        proof {
            lemma_sum_hp_nonneg(self.bricks@);
        }
        self.score = self.score + delta;

        if self.score >= self.total_score {
            self.state = GameState::Won;
        }

        proof {
            assert(self.model() =~= m0.step(dt_ms));
        }
    }
}

} // verus!
