//! Concrete runs of the simulation core: the fixed-point helpers, the
//! three per-frame components, the spawn trigger, and whole frames.
//!
//! All lengths are milliunits and all durations milliseconds, so the
//! world coordinate `99` is written `99_000` and `dt = 0.5` is `500`.

use pong_core::bounce::{bounce, resolve_ball};
use pong_core::move_ball::{integrate_ball, move_balls};
use pong_core::num::{abs_i64, clamp_i64, half_up_i64, mul_div};
use pong_core::paddle::move_paddle;
use pong_core::pong::{
    init_ball, init_paddles, spawn_batch, Ball, Paddle, Pong, Side, Trans, BALL_COUNT,
    BALL_RADIUS, BALL_SPAWN_DELAY, PADDLE_HEIGHT, PADDLE_WIDTH,
};

fn ball(x: i64, y: i64, vx: i64, vy: i64) -> Ball {
    Ball { x, y, vx, vy, radius: 2_000 }
}

fn paddle(side: Side, x: i64, y: i64, width: i64, height: i64) -> Paddle {
    Paddle { side, x, y, width, height }
}

fn standard_paddles() -> (Paddle, Paddle) {
    init_paddles()
}

#[test]
fn clamp_inside_low_high() {
    assert_eq!(clamp_i64(5, 0, 10), 5);
    assert_eq!(clamp_i64(-3, 0, 10), 0);
    assert_eq!(clamp_i64(42, 0, 10), 10);
    assert_eq!(clamp_i64(7, 7, 7), 7);
}

#[test]
fn mul_div_truncates_toward_zero() {
    assert_eq!(mul_div(7, 3, 2), 10);
    assert_eq!(mul_div(-7, 3, 2), -10);
    assert_eq!(mul_div(-7, 1, 2), -3);
    assert_eq!(mul_div(7, -1, 2), -3);
    assert_eq!(mul_div(-10_000, 500, 1_000), -5_000);
    assert_eq!(mul_div(0, 12345, 7), 0);
}

#[test]
fn half_up_rounds_up() {
    assert_eq!(half_up_i64(4_000), 2_000);
    assert_eq!(half_up_i64(5), 3);
    assert_eq!(half_up_i64(0), 0);
}

#[test]
fn abs_of_both_signs() {
    assert_eq!(abs_i64(-7), 7);
    assert_eq!(abs_i64(7), 7);
    assert_eq!(abs_i64(0), 0);
}

#[test]
fn new_paddles_stand_at_their_posts() {
    let (l, r) = standard_paddles();
    assert_eq!(l.side, Side::Left);
    assert_eq!(l.x, 2_000);
    assert_eq!(l.y, 50_000);
    assert_eq!(l.width, PADDLE_WIDTH);
    assert_eq!(l.height, PADDLE_HEIGHT);
    assert_eq!(r.side, Side::Right);
    assert_eq!(r.x, 98_000);
    assert_eq!(r.y, 50_000);
}

#[test]
fn paddle_moves_by_axis_speed_dt() {
    let (mut l, _) = standard_paddles();
    // axis 1.0, speed 10 units/s, dt 1 s: up by 10 units.
    move_paddle(&mut l, 1_000, 10_000, 1_000);
    assert_eq!(l.y, 60_000);
    // axis -0.5, speed 10 units/s, dt 0.5 s: down by 2.5 units.
    move_paddle(&mut l, -500, 10_000, 500);
    assert_eq!(l.y, 57_500);
}

#[test]
fn paddle_axis_is_clamped_before_use() {
    let (mut l, mut l2) = (standard_paddles().0, standard_paddles().0);
    move_paddle(&mut l, 9_000, 10_000, 1_000);
    move_paddle(&mut l2, 1_000, 10_000, 1_000);
    assert_eq!(l.y, l2.y);
}

#[test]
fn paddle_never_leaves_the_vertical_band() {
    let (mut l, _) = standard_paddles();
    // Push up hard for many frames: stops at height/2 from the top.
    for _ in 0..20 {
        move_paddle(&mut l, 1_000, 10_000, 1_000);
    }
    assert_eq!(l.y, 92_000);
    // And back down to the bottom of the band.
    for _ in 0..20 {
        move_paddle(&mut l, -1_000, 10_000, 1_000);
    }
    assert_eq!(l.y, 8_000);
}

#[test]
fn paddle_zero_dt_and_negative_dt_are_no_ops() {
    let (mut l, _) = standard_paddles();
    move_paddle(&mut l, 1_000, 10_000, 0);
    assert_eq!(l.y, 50_000);
    move_paddle(&mut l, 1_000, 10_000, -300);
    assert_eq!(l.y, 50_000);
}

#[test]
fn paddle_with_no_input_stays_put() {
    // A missing axis counts as zero deflection.
    let (mut l, _) = standard_paddles();
    move_paddle(&mut l, 0, 10_000, 1_000);
    assert_eq!(l.y, 50_000);
}

#[test]
fn integration_advances_by_velocity_times_dt() {
    let mut b = ball(50_000, 99_000, 0, 5_000);
    integrate_ball(&mut b, 1_000);
    assert_eq!(b.x, 50_000);
    assert_eq!(b.y, 104_000);
    assert_eq!(b.vy, 5_000);
    let mut c = ball(5_000, 50_000, -10_000, 0);
    integrate_ball(&mut c, 500);
    assert_eq!(c.x, 0);
    assert_eq!(c.y, 50_000);
}

#[test]
fn integration_with_negative_dt_is_a_no_op() {
    let mut b = ball(10_000, 20_000, 3_000, -4_000);
    integrate_ball(&mut b, -250);
    assert_eq!((b.x, b.y), (10_000, 20_000));
}

#[test]
fn ball_past_a_side_wall_is_removed() {
    // Scenario: at (-1, 50) after integration (passed the left wall).
    let mut balls = vec![ball(4_000, 50_000, -10_000, 0)];
    move_balls(&mut balls, 500);
    assert_eq!(balls.len(), 0);
    // Past the right wall too.
    let mut balls = vec![ball(96_000, 50_000, 10_000, 0)];
    move_balls(&mut balls, 500);
    assert_eq!(balls.len(), 0);
    // Exactly on the wall stays in play.
    let mut balls = vec![ball(5_000, 50_000, -10_000, 0)];
    move_balls(&mut balls, 500);
    assert_eq!(balls.len(), 1);
    assert_eq!(balls[0].x, 0);
}

#[test]
fn removal_keeps_the_other_balls() {
    let mut balls = vec![
        ball(50_000, 10_000, 0, 0),
        ball(500, 50_000, -10_000, 0),
        ball(60_000, 20_000, 1_000, 1_000),
    ];
    move_balls(&mut balls, 1_000);
    assert_eq!(balls.len(), 2);
    assert_eq!((balls[0].x, balls[0].y), (50_000, 10_000));
    assert_eq!((balls[1].x, balls[1].y), (61_000, 21_000));
}

#[test]
fn top_wall_reflects_and_clamps() {
    // Scenario: ball over the top wall after one frame with dt = 1.
    let (l, r) = standard_paddles();
    let mut b = ball(50_000, 99_000, 0, 5_000);
    integrate_ball(&mut b, 1_000);
    resolve_ball(&mut b, &l, &r);
    assert_eq!(b.y, 98_000);
    assert_eq!(b.vy, -5_000);
    assert_eq!(b.x, 50_000);
    assert_eq!(b.vx, 0);
}

#[test]
fn bottom_wall_reflects_and_clamps() {
    let (l, r) = standard_paddles();
    let mut b = ball(30_000, 1_000, 0, -5_000);
    resolve_ball(&mut b, &l, &r);
    assert_eq!(b.y, 2_000);
    assert_eq!(b.vy, 5_000);
}

#[test]
fn left_paddle_reflects_and_pushes_out() {
    // Scenario: left paddle at (2, 50), 4 x 16; ball reaches (0, 50).
    let l = paddle(Side::Left, 2_000, 50_000, 4_000, 16_000);
    let r = paddle(Side::Right, 98_000, 50_000, 4_000, 16_000);
    let mut b = ball(5_000, 50_000, -10_000, 0);
    let mut balls = vec![b];
    move_balls(&mut balls, 500);
    b = balls[0];
    assert_eq!(b.x, 0);
    resolve_ball(&mut b, &l, &r);
    assert_eq!(b.vx, 10_000);
    assert_eq!(b.x, 6_000);
    assert_eq!(b.y, 50_000);
    assert_eq!(b.vy, 0);
}

#[test]
fn right_paddle_reflects_and_pushes_out() {
    let l = paddle(Side::Left, 2_000, 50_000, 4_000, 16_000);
    let r = paddle(Side::Right, 98_000, 50_000, 4_000, 16_000);
    let mut b = ball(99_000, 50_000, 10_000, 0);
    resolve_ball(&mut b, &l, &r);
    assert_eq!(b.vx, -10_000);
    assert_eq!(b.x, 94_000);
}

#[test]
fn resolved_ball_no_longer_overlaps_the_paddle() {
    // Resolving twice must not re-trigger the paddle reflection.
    let l = paddle(Side::Left, 2_000, 50_000, 4_000, 16_000);
    let r = paddle(Side::Right, 98_000, 50_000, 4_000, 16_000);
    let mut b = ball(0, 50_000, -10_000, 0);
    resolve_ball(&mut b, &l, &r);
    assert_eq!((b.x, b.vx), (6_000, 10_000));
    resolve_ball(&mut b, &l, &r);
    assert_eq!((b.x, b.vx), (6_000, 10_000));
}

#[test]
fn overlapping_both_paddles_resolves_the_nearer() {
    // Degenerate wide paddles that both overlap the ball.
    let l = paddle(Side::Left, 40_000, 50_000, 80_000, 16_000);
    let r = paddle(Side::Right, 60_000, 50_000, 80_000, 16_000);
    let mut b = ball(49_000, 50_000, -1_000, 0);
    resolve_ball(&mut b, &l, &r);
    // Left is nearer (9 vs 11): pushed outside the left paddle.
    assert_eq!(b.x, 82_000);
    assert_eq!(b.vx, 1_000);
    let mut c = ball(51_000, 50_000, 1_000, 0);
    resolve_ball(&mut c, &l, &r);
    // Right is nearer: pushed outside the right paddle's left edge.
    assert_eq!(c.x, 18_000);
    assert_eq!(c.vx, -1_000);
}

#[test]
fn equal_distance_tie_goes_to_the_left_paddle() {
    let l = paddle(Side::Left, 40_000, 50_000, 80_000, 16_000);
    let r = paddle(Side::Right, 60_000, 50_000, 80_000, 16_000);
    let mut b = ball(50_000, 50_000, -1_000, 0);
    resolve_ball(&mut b, &l, &r);
    assert_eq!(b.x, 82_000);
}

#[test]
fn wall_and_paddle_hits_in_one_frame_combine() {
    // Overlaps the top wall and the left paddle at once.
    let l = paddle(Side::Left, 2_000, 92_000, 4_000, 16_000);
    let r = paddle(Side::Right, 98_000, 50_000, 4_000, 16_000);
    let mut b = ball(1_000, 99_000, -2_000, 3_000);
    resolve_ball(&mut b, &l, &r);
    assert_eq!(b.y, 98_000);
    assert_eq!(b.vy, -3_000);
    assert_eq!(b.x, 6_000);
    assert_eq!(b.vx, 2_000);
}

#[test]
fn no_overlap_leaves_the_ball_untouched() {
    let (l, r) = standard_paddles();
    let mut b = ball(50_000, 50_000, -3_000, 4_000);
    resolve_ball(&mut b, &l, &r);
    assert_eq!((b.x, b.y, b.vx, b.vy), (50_000, 50_000, -3_000, 4_000));
    // A stationary ball is a legal state and stays put.
    let mut c = ball(70_000, 30_000, 0, 0);
    resolve_ball(&mut c, &l, &r);
    assert_eq!((c.x, c.y, c.vx, c.vy), (70_000, 30_000, 0, 0));
}

#[test]
fn bounce_resolves_every_ball_independently() {
    let (l, r) = standard_paddles();
    let mut balls = vec![ball(50_000, 101_000, 0, 5_000), ball(50_000, 50_000, 1_000, 0)];
    bounce(&mut balls, &l, &r);
    assert_eq!((balls[0].y, balls[0].vy), (98_000, -5_000));
    assert_eq!((balls[1].y, balls[1].vy), (50_000, 0));
}

#[test]
fn spawned_balls_start_centered_with_bounded_velocity() {
    let mut balls = Vec::new();
    init_ball(&mut balls);
    spawn_batch(&mut balls, 9);
    assert_eq!(balls.len(), 10);
    for b in &balls {
        assert_eq!(b.x, 50_000);
        assert_eq!(b.y, 50_000);
        assert_eq!(b.radius, BALL_RADIUS);
        assert!(-50_000 <= b.vx && b.vx < 50_000);
        assert!(-25_000 <= b.vy && b.vy < 25_000);
        // The draws are thousandths: the scaled velocities are whole
        // multiples of the velocity constants over the scale.
        assert_eq!(b.vx % 10, 0);
        assert_eq!(b.vy % 5, 0);
    }
}

#[test]
fn default_game_is_idle_and_empty() {
    let g = Pong::default();
    assert_eq!(g.ball_spawn_timer, None);
    assert_eq!(g.balls.len(), 0);
    assert_eq!(g.left_paddle.side, Side::Left);
    assert_eq!(g.right_paddle.side, Side::Right);
}

#[test]
fn on_start_arms_the_spawn_countdown() {
    let mut g = Pong::default();
    g.on_start();
    assert_eq!(g.ball_spawn_timer, Some(BALL_SPAWN_DELAY));
    assert_eq!(g.balls.len(), 0);
    assert_eq!(g.left_paddle.y, 50_000);
}

#[test]
fn update_counts_down_then_spawns_the_batch_once() {
    let mut g = Pong::default();
    g.on_start();
    g.update(400);
    assert_eq!(g.ball_spawn_timer, Some(600));
    assert_eq!(g.balls.len(), 0);
    g.update(600);
    assert_eq!(g.ball_spawn_timer, None);
    assert_eq!(g.balls.len(), BALL_COUNT);
    // Disarmed: a later update spawns nothing.
    g.update(1_000);
    assert_eq!(g.balls.len(), BALL_COUNT);
}

#[test]
fn update_without_a_countdown_is_a_no_op() {
    let mut g = Pong::default();
    g.update(500);
    assert_eq!(g.ball_spawn_timer, None);
    assert_eq!(g.balls.len(), 0);
}

#[test]
fn quit_decision_follows_the_events() {
    let g = Pong::default();
    assert_eq!(g.handle_event(false, false), Trans::Continue);
    assert_eq!(g.handle_event(true, false), Trans::Quit);
    assert_eq!(g.handle_event(false, true), Trans::Quit);
    assert_eq!(g.handle_event(true, true), Trans::Quit);
}

#[test]
fn one_frame_runs_the_whole_pipeline() {
    let mut g = Pong::default();
    g.on_start();
    g.balls.push(ball(50_000, 99_000, 0, 5_000));
    g.balls.push(ball(500, 40_000, -10_000, 0));
    g.step_frame(1_000, 0, 10_000, 1_000);
    // Left paddle moved up by the axis; right paddle stayed.
    assert_eq!(g.left_paddle.y, 60_000);
    assert_eq!(g.right_paddle.y, 50_000);
    // First ball bounced off the top wall; second left the arena.
    assert_eq!(g.balls.len(), 1);
    assert_eq!((g.balls[0].y, g.balls[0].vy), (98_000, -5_000));
    // The countdown is not the pipeline's business.
    assert_eq!(g.ball_spawn_timer, Some(BALL_SPAWN_DELAY));
}
