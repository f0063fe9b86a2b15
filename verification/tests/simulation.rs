use breakout::ball::Ball;
use breakout::brick::Brick;
use breakout::geometry::Rect;
use breakout::paddle::Paddle;
use breakout::session::{
    create_bricks, create_bricks_with, resolve_brick_collisions, GameState, Session,
    BRICK_COUNT, FIELD_HEIGHT, FIELD_WIDTH, START_LIVES,
};

fn field() -> (i32, i32) {
    (FIELD_WIDTH, FIELD_HEIGHT)
}

#[test]
fn ball_plain_move() {
    // Ball at (540, 360) heading up-left, dt 0.1 s at 500 px/s: moves by
    // (-50, -50) with no boundary in reach, direction unchanged.
    let mut b = Ball::new(540, 360);
    b.move_offset(-1, -1);
    b.tick(100, field());
    assert_eq!(b.bounds.x, 490);
    assert_eq!(b.bounds.y, 310);
    assert_eq!(b.dir.x, -1);
    assert_eq!(b.dir.y, -1);
    assert!(!b.out_of_bounds);
}

#[test]
fn ball_reflects_off_left_wall() {
    // Projected x = 10 - 50 = -40 <= 0: direction flips to +1 and the
    // same tick's displacement is negated, landing at x = 60.
    let mut b = Ball::new(10, 300);
    b.move_offset(-1, 1);
    b.tick(100, field());
    assert_eq!(b.bounds.x, 60);
    assert_eq!(b.bounds.y, 350);
    assert_eq!(b.dir.x, 1);
    assert_eq!(b.dir.y, 1);
    assert!(!b.out_of_bounds);
}

#[test]
fn ball_reflects_off_right_wall() {
    let mut b = Ball::new(1050, 300);
    b.move_offset(1, -1);
    b.tick(100, field());
    assert_eq!(b.bounds.x, 1000);
    assert_eq!(b.bounds.y, 250);
    assert_eq!(b.dir.x, -1);
    assert_eq!(b.dir.y, -1);
}

#[test]
fn ball_reflects_off_top() {
    let mut b = Ball::new(300, 20);
    b.move_offset(1, -1);
    b.tick(100, field());
    assert_eq!(b.bounds.x, 350);
    assert_eq!(b.bounds.y, 70);
    assert_eq!(b.dir.x, 1);
    assert_eq!(b.dir.y, 1);
}

#[test]
fn ball_out_of_bounds_freezes_tick() {
    let mut b = Ball::new(540, 700);
    b.move_offset(1, 1);
    b.tick(100, field());
    assert!(b.out_of_bounds);
    let (x, y) = (b.bounds.x, b.bounds.y);
    let (dx, dy) = (b.dir.x, b.dir.y);
    // While out of bounds every further tick is a no-op.
    b.tick(100, field());
    b.tick(250, field());
    assert_eq!(b.bounds.x, x);
    assert_eq!(b.bounds.y, y);
    assert_eq!(b.dir.x, dx);
    assert_eq!(b.dir.y, dy);
}

#[test]
fn ball_bottom_exit_sets_direction_up_and_reset_restores_origin() {
    // From (540, 700) heading down-right the projected bottom edge
    // crosses the field's bottom: the ball moves to (590, 750), is marked
    // out of bounds, and stores direction (-1, -1).
    let mut b = Ball::new(540, 700);
    b.move_offset(1, 1);
    b.tick(100, field());
    assert!(b.out_of_bounds);
    assert_eq!(b.bounds.x, 590);
    assert_eq!(b.bounds.y, 750);
    assert_eq!(b.dir.x, -1);
    assert_eq!(b.dir.y, -1);

    b.reset();
    assert!(!b.out_of_bounds);
    assert_eq!(b.bounds.x, 540);
    assert_eq!(b.bounds.y, 700);
}

#[test]
fn ball_flip_helpers_invert_one_axis() {
    let mut b = Ball::new(100, 100);
    b.move_offset(1, -1);
    b.flip_x();
    assert_eq!(b.dir.x, -1);
    assert_eq!(b.dir.y, -1);
    b.flip_y();
    assert_eq!(b.dir.x, -1);
    assert_eq!(b.dir.y, 1);
}

#[test]
fn paddle_moves_with_intent() {
    let mut p = Paddle::new(460, 676);
    p.move_offset(-1);
    p.tick(100, FIELD_WIDTH);
    assert_eq!(p.bounds.x, 380);
    p.move_offset(1);
    p.tick(50, FIELD_WIDTH);
    assert_eq!(p.bounds.x, 420);
    p.move_offset(0);
    p.tick(100, FIELD_WIDTH);
    assert_eq!(p.bounds.x, 420);
}

#[test]
fn paddle_freezes_at_left_edge() {
    // A move that would land at or left of 0 is not applied at all.
    let mut p = Paddle::new(5, 676);
    p.move_offset(-1);
    p.tick(100, FIELD_WIDTH);
    assert_eq!(p.bounds.x, 5);
}

#[test]
fn paddle_freezes_at_right_edge() {
    // field 1080, paddle 160 wide: positions at or past 920 are refused.
    let mut p = Paddle::new(900, 676);
    p.move_offset(1);
    p.tick(100, FIELD_WIDTH);
    assert_eq!(p.bounds.x, 900);
}

#[test]
fn paddle_never_leaves_field_over_many_ticks() {
    let mut p = Paddle::new(460, 676);
    let intents = [-1, -1, 1, 0, -1, 1, 1, 1, -1, 0, 1, -1];
    let dts = [16u32, 500, 33, 1000, 16, 16, 700, 5, 250, 100, 900, 40];
    for i in 0..600 {
        p.move_offset(intents[i % intents.len()]);
        p.tick(dts[i % dts.len()], FIELD_WIDTH);
        assert!(p.bounds.x >= 0);
        assert!(p.bounds.x + 160 <= FIELD_WIDTH);
    }
}

#[test]
fn paddle_centre_hit_bounces_straight_up() {
    let p = Paddle::new(460, 676);
    let mut b = Ball::new(530, 670);
    b.move_offset(1, 1);
    b.check_collision(&p);
    assert_eq!(b.dir.x, 1);
    assert_eq!(b.dir.y, -1);
}

#[test]
fn paddle_edge_hit_redirects_sideways() {
    let p = Paddle::new(460, 676);
    let mut b = Ball::new(455, 670);
    b.move_offset(1, 1);
    b.check_collision(&p);
    assert_eq!(b.dir.x, -1);
    assert_eq!(b.dir.y, -1);
}

#[test]
fn paddle_miss_changes_nothing() {
    let p = Paddle::new(460, 676);
    let mut b = Ball::new(100, 100);
    b.move_offset(1, 1);
    b.check_collision(&p);
    assert_eq!(b.dir.x, 1);
    assert_eq!(b.dir.y, 1);
}

#[test]
fn brick_takes_damage_and_dies_after_one_hit() {
    let mut brick = Brick::new(1, 0, 0);
    let mut ball = Ball::new(60, 25);
    ball.move_offset(1, 1);
    assert!(brick.is_alive());
    let score = brick.check_collision(&mut ball);
    assert_eq!(score, 1);
    assert!(!brick.is_alive());
    // The hit landed in the brick's bottom band: only the vertical
    // direction inverted.
    assert_eq!(ball.dir.x, 1);
    assert_eq!(ball.dir.y, -1);
}

#[test]
fn dead_brick_scores_nothing_and_never_deflects() {
    let mut brick = Brick::new(1, 0, 0);
    let mut ball = Ball::new(60, 25);
    ball.move_offset(1, 1);
    assert_eq!(brick.check_collision(&mut ball), 1);
    let (dx, dy) = (ball.dir.x, ball.dir.y);
    // Still overlapping, but the brick is dead now.
    let score = brick.check_collision(&mut ball);
    assert_eq!(score, 0);
    assert_eq!(ball.dir.x, dx);
    assert_eq!(ball.dir.y, dy);
    assert!(!brick.is_alive());
}

#[test]
fn brick_corner_hit_reverses_both_axes() {
    let mut brick = Brick::new(3, 112, 80);
    let mut ball = Ball::new(110, 70);
    ball.move_offset(1, 1);
    let score = brick.check_collision(&mut ball);
    assert_eq!(score, 1);
    assert!(brick.is_alive());
    assert_eq!(ball.dir.x, -1);
    assert_eq!(ball.dir.y, -1);
}

#[test]
fn brick_miss_scores_nothing() {
    let mut brick = Brick::new(2, 112, 80);
    let mut ball = Ball::new(500, 500);
    ball.move_offset(-1, -1);
    assert_eq!(brick.check_collision(&mut ball), 0);
    assert!(brick.is_alive());
    assert_eq!(ball.dir.x, -1);
    assert_eq!(ball.dir.y, -1);
}

#[test]
fn rect_intersection_overlap_and_miss() {
    let a = Rect::new(0, 0, 10, 10);
    let b = Rect::new(5, 5, 10, 10);
    let i = a.intersection(b).unwrap();
    assert_eq!(i.x, 5);
    assert_eq!(i.y, 5);
    assert_eq!(i.w, 5);
    assert_eq!(i.h, 5);
    // Touching along an edge does not count as intersecting.
    let c = Rect::new(10, 0, 10, 10);
    assert!(a.intersection(c).is_none());
    let d = Rect::new(50, 50, 3, 3);
    assert!(a.intersection(d).is_none());
}

#[test]
fn layout_total_is_sum_of_hitpoints() {
    // Deterministic substitution for the random generator: 30 known
    // values; the returned threshold must be exactly their sum.
    let mut hitpoints: Vec<i8> = Vec::new();
    for i in 0..30 {
        hitpoints.push((i % 3 + 1) as i8);
    }
    let expected: i32 = hitpoints.iter().map(|hp| *hp as i32).sum();
    let mut bricks: Vec<Brick> = vec![Brick::default(); 30];
    let total = create_bricks_with(&mut bricks, &hitpoints);
    assert_eq!(total, expected);
    assert_eq!(total, 60);
    for (i, brick) in bricks.iter().enumerate() {
        assert_eq!(brick.hitpoints, hitpoints[i]);
    }
}

#[test]
fn layout_places_bricks_on_grid() {
    let hitpoints: Vec<i8> = vec![1; 8];
    let mut bricks: Vec<Brick> = vec![Brick::default(); 8];
    create_bricks_with(&mut bricks, &hitpoints);
    // 6 columns starting at x = 112, stepped by 144; rows start at y = 80,
    // stepped by 48.
    assert_eq!((bricks[0].bounds.x, bricks[0].bounds.y), (112, 80));
    assert_eq!((bricks[1].bounds.x, bricks[1].bounds.y), (256, 80));
    assert_eq!((bricks[5].bounds.x, bricks[5].bounds.y), (832, 80));
    assert_eq!((bricks[6].bounds.x, bricks[6].bounds.y), (112, 128));
    assert_eq!((bricks[7].bounds.x, bricks[7].bounds.y), (256, 128));
    assert_eq!(bricks[0].bounds.w, 128);
    assert_eq!(bricks[0].bounds.h, 32);
}

#[test]
fn layout_of_no_bricks_has_zero_total() {
    let hitpoints: Vec<i8> = Vec::new();
    let mut bricks: Vec<Brick> = Vec::new();
    let total = create_bricks_with(&mut bricks, &hitpoints);
    assert_eq!(total, 0);
    assert!(bricks.is_empty());
}

#[test]
fn zero_elapsed_time_moves_nothing() {
    let mut b = Ball::new(540, 360);
    b.move_offset(-1, -1);
    b.tick(0, field());
    assert_eq!((b.bounds.x, b.bounds.y), (540, 360));
    assert_eq!((b.dir.x, b.dir.y), (-1, -1));

    let mut p = Paddle::new(460, 676);
    p.move_offset(1);
    p.tick(0, FIELD_WIDTH);
    assert_eq!(p.bounds.x, 460);
}

#[test]
fn random_layout_draws_hitpoints_between_one_and_three() {
    let mut bricks: Vec<Brick> = vec![Brick::default(); 30];
    let total = create_bricks(&mut bricks);
    let mut sum: i32 = 0;
    for brick in bricks.iter() {
        assert!((1..=3).contains(&brick.hitpoints));
        sum += brick.hitpoints as i32;
    }
    assert_eq!(total, sum);
    assert!((30..=90).contains(&total));
}

#[test]
fn resolve_checks_every_brick_and_sums_deltas() {
    let mut bricks: Vec<Brick> = vec![
        Brick::new(2, 112, 80),
        Brick::new(1, 256, 80),
        Brick::new(1, 400, 80),
    ];
    // Overlaps the first brick only.
    let mut ball = Ball::new(120, 85);
    ball.move_offset(0, 0);
    let delta = resolve_brick_collisions(&mut bricks, &mut ball);
    assert_eq!(delta, 1);
    assert_eq!(bricks[0].hitpoints, 1);
    assert_eq!(bricks[1].hitpoints, 1);
    assert_eq!(bricks[2].hitpoints, 1);
}

#[test]
fn new_session_starts_full() {
    let s = Session::new();
    assert_eq!(s.lives, START_LIVES);
    assert_eq!(s.score, 0);
    assert_eq!(s.bricks.len(), BRICK_COUNT);
    assert_eq!(s.state, GameState::Playing);
    let sum: i32 = s.bricks.iter().map(|b| b.hitpoints as i32).sum();
    assert_eq!(s.total_score, sum);
    assert_eq!((s.paddle.bounds.x, s.paddle.bounds.y), (460, 676));
    assert_eq!((s.ball.bounds.x, s.ball.bounds.y), (540, 488));
    assert_eq!((s.ball.dir.x, s.ball.dir.y), (-1, -1));
}

#[test]
fn session_invariant_holds_over_many_frames() {
    let mut s = Session::new();
    for i in 0..400 {
        s.paddle.move_offset([-1, 0, 1][i % 3]);
        assert!(s.ball_in_range_check());
        s.tick_frame(16);
        let sum: i32 = s.bricks.iter().map(|b| b.hitpoints as i32).sum();
        assert_eq!(s.score + sum, s.total_score);
        assert!(s.lives >= 0 && s.lives <= START_LIVES);
    }
}

#[test]
fn losing_last_life_enters_game_over_and_freezes_everything() {
    // One life left and the ball already out of bounds: the next frame
    // costs the last life and the session freezes forever.
    let mut ball = Ball::new(540, 700);
    ball.move_offset(1, 1);
    ball.tick(100, (FIELD_WIDTH, FIELD_HEIGHT));
    assert!(ball.is_out_of_bounds());

    let bricks = vec![Brick::new(3, 112, 80)];
    let mut s = Session {
        paddle: Paddle::new(460, 676),
        ball,
        bricks,
        score: 0,
        lives: 1,
        total_score: 3,
        state: GameState::Playing,
    };
    s.tick_frame(16);
    assert_eq!(s.lives, 0);
    assert_eq!(s.state, GameState::GameOver);

    let ball_pos = (s.ball.bounds.x, s.ball.bounds.y);
    let paddle_pos = (s.paddle.bounds.x, s.paddle.bounds.y);
    let hp = s.bricks[0].hitpoints;
    s.paddle.move_offset(1);
    for _ in 0..10 {
        s.tick_frame(100);
        assert_eq!((s.ball.bounds.x, s.ball.bounds.y), ball_pos);
        assert_eq!((s.paddle.bounds.x, s.paddle.bounds.y), paddle_pos);
        assert_eq!(s.bricks[0].hitpoints, hp);
        assert_eq!(s.state, GameState::GameOver);
        assert_eq!(s.lives, 0);
    }
}

#[test]
fn lost_ball_with_lives_left_resets_and_play_goes_on() {
    let mut ball = Ball::new(540, 700);
    ball.move_offset(1, 1);
    ball.tick(100, (FIELD_WIDTH, FIELD_HEIGHT));
    assert!(ball.is_out_of_bounds());

    let bricks = vec![Brick::new(3, 112, 80)];
    let mut s = Session {
        paddle: Paddle::new(460, 676),
        ball,
        bricks,
        score: 0,
        lives: 2,
        total_score: 3,
        state: GameState::Playing,
    };
    s.tick_frame(16);
    assert_eq!(s.lives, 1);
    assert_eq!(s.state, GameState::Playing);
    assert!(!s.ball.is_out_of_bounds());
}

#[test]
fn reaching_the_threshold_wins() {
    // A stationary ball resting on the last brick: the frame scores the
    // final point and the session is won.
    let mut ball = Ball::new(120, 85);
    ball.move_offset(0, 0);
    let bricks = vec![Brick::new(1, 112, 80)];
    let mut s = Session {
        paddle: Paddle::new(460, 676),
        ball,
        bricks,
        score: 0,
        lives: 3,
        total_score: 1,
        state: GameState::Playing,
    };
    s.tick_frame(16);
    assert_eq!(s.score, 1);
    assert_eq!(s.state, GameState::Won);
    assert!(!s.bricks[0].is_alive());
    // A won session no longer ticks.
    let pos = (s.ball.bounds.x, s.ball.bounds.y);
    s.tick_frame(100);
    assert_eq!((s.ball.bounds.x, s.ball.bounds.y), pos);
    assert_eq!(s.state, GameState::Won);
}
