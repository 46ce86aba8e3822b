//! Collision resolver: reflects balls off the top and bottom walls and
//! off the paddles, with a side-keyed positional correction that pushes
//! a hit ball just outside the paddle's leading edge.
//!
//! Overlap tests compare doubled coordinates, so no half-width is ever
//! rounded inside a test.

use crate::num::{abs_i64, abs_spec, clamp_i64, clamp_spec, half_up, half_up_i64, lemma_half_up};
use crate::pong::{
    ball_moved_wf, ball_wf, paddle_wf, views, Ball, BallModel, Paddle, PaddleModel, Side,
    ARENA_HEIGHT,
};
use vstd::prelude::*;

verus! {

/// The ball sticks out past the top or bottom wall.
pub open spec fn wall_overlap(b: BallModel) -> bool {
    b.y - b.radius < 0 || b.y + b.radius > ARENA_HEIGHT as int
}

/// The ball's bounding box and the paddle's rectangle overlap with
/// positive area. Both sides of each comparison are doubled: the
/// paddle's edges sit at `x ± width / 2` and `y ± height / 2`.
pub open spec fn overlaps_paddle(b: BallModel, p: PaddleModel) -> bool {
    &&& 2 * b.x - 2 * b.radius < 2 * p.x + p.width
    &&& 2 * b.x + 2 * b.radius > 2 * p.x - p.width
    &&& 2 * b.y - 2 * b.radius < 2 * p.y + p.height
    &&& 2 * b.y + 2 * b.radius > 2 * p.y - p.height
}

/// Wall response: on overlap, reflect the vertical velocity and clamp
/// the center back into `[radius, ARENA_HEIGHT - radius]`.
pub open spec fn resolve_wall_spec(b: BallModel) -> BallModel {
    if wall_overlap(b) {
        BallModel {
            y: clamp_spec(b.y, b.radius, ARENA_HEIGHT as int - b.radius),
            vy: -b.vy,
            ..b
        }
    } else {
        b
    }
}

/// Where a ball of radius `radius` is pushed after hitting paddle `p`:
/// just outside the paddle's leading edge, keyed on the paddle's side.
pub open spec fn push_out_x(p: PaddleModel, radius: int) -> int {
    match p.side {
        Side::Left => p.x + half_up(p.width) + radius,
        Side::Right => p.x - half_up(p.width) - radius,
    }
}

/// Paddle response: reflect the horizontal velocity and push the ball
/// just outside the paddle's leading edge.
pub open spec fn resolve_paddle_spec(b: BallModel, p: PaddleModel) -> BallModel {
    BallModel { x: push_out_x(p, b.radius), vx: -b.vx, ..b }
}

/// The ball resolves against the left paddle: it overlaps it, and the
/// right paddle is no nearer (ties go to the left paddle).
pub open spec fn hits_left(b: BallModel, left: PaddleModel, right: PaddleModel) -> bool {
    overlaps_paddle(b, left) && (!overlaps_paddle(b, right) || abs_spec(b.x - left.x) <= abs_spec(
        b.x - right.x,
    ))
}

/// The ball resolves against the right paddle: it overlaps it and does
/// not resolve against the left one.
pub open spec fn hits_right(b: BallModel, left: PaddleModel, right: PaddleModel) -> bool {
    overlaps_paddle(b, right) && !hits_left(b, left, right)
}

/// The full response for one ball, from its integrated position: the
/// wall test and the paddle test are both taken on that position, and
/// their responses apply to orthogonal components. A ball overlapping
/// both paddles resolves against the nearer one only.
pub open spec fn resolve_ball_spec(b: BallModel, left: PaddleModel, right: PaddleModel) -> BallModel {
    let after_wall = resolve_wall_spec(b);
    if hits_left(b, left, right) {
        resolve_paddle_spec(after_wall, left)
    } else if hits_right(b, left, right) {
        resolve_paddle_spec(after_wall, right)
    } else {
        after_wall
    }
}

/// Wall reflection sign: a ball that sticks out past the top wall while
/// moving up leaves the resolver moving down, with its center at most
/// `ARENA_HEIGHT - radius`.
pub proof fn lemma_wall_reflection(b: BallModel, left: PaddleModel, right: PaddleModel)
    requires
        2 * b.radius <= ARENA_HEIGHT as int,
        b.vy > 0,
        b.y + b.radius > ARENA_HEIGHT as int,
    ensures
        resolve_ball_spec(b, left, right).vy < 0,
        resolve_ball_spec(b, left, right).y <= ARENA_HEIGHT as int - b.radius,
{
}

/// Paddle reflection sign: a ball moving toward a paddle that resolves
/// against it leaves the resolver with the horizontal velocity sign
/// flipped, and no longer overlaps that paddle's rectangle.
pub proof fn lemma_paddle_reflection(b: BallModel, left: PaddleModel, right: PaddleModel)
    requires
        0 <= b.radius,
        0 <= left.width,
        0 <= right.width,
        left.side == Side::Left,
        right.side == Side::Right,
        hits_left(b, left, right) ==> b.vx < 0,
        hits_right(b, left, right) ==> b.vx > 0,
        hits_left(b, left, right) || hits_right(b, left, right),
    ensures
        resolve_ball_spec(b, left, right).vx == -b.vx,
        hits_left(b, left, right) ==> b.vx < 0 < resolve_ball_spec(b, left, right).vx
            && !overlaps_paddle(resolve_ball_spec(b, left, right), left),
        hits_right(b, left, right) ==> b.vx > 0 > resolve_ball_spec(b, left, right).vx
            && !overlaps_paddle(resolve_ball_spec(b, left, right), right),
{
    if hits_left(b, left, right) {
        lemma_half_up(left.width);
        let after = resolve_ball_spec(b, left, right);
        assert(2 * after.x - 2 * after.radius >= 2 * left.x + left.width);
    } else {
        lemma_half_up(right.width);
        let after = resolve_ball_spec(b, left, right);
        assert(2 * after.x + 2 * after.radius <= 2 * right.x - right.width);
    }
}

/// Idempotence of non-collision: a ball that overlaps neither wall nor
/// paddle leaves the resolver exactly as it entered, position and
/// velocity alike.
pub proof fn lemma_no_collision_identity(b: BallModel, left: PaddleModel, right: PaddleModel)
    requires
        !wall_overlap(b),
        !overlaps_paddle(b, left),
        !overlaps_paddle(b, right),
    ensures
        resolve_ball_spec(b, left, right) == b,
{
}

/// Exec wall overlap test.
fn wall_overlap_exec(b: &Ball) -> (r: bool)
    requires
        ball_moved_wf(b@),
    ensures
        r == wall_overlap(b@),
{
    b.y - b.radius < 0 || b.y + b.radius > ARENA_HEIGHT
}

/// Exec paddle overlap test, on doubled coordinates.
fn overlaps_paddle_exec(b: &Ball, p: &Paddle) -> (r: bool)
    requires
        ball_moved_wf(b@),
        paddle_wf(p@),
    ensures
        r == overlaps_paddle(b@, p@),
{
    2 * b.x - 2 * b.radius < 2 * p.x + p.width && 2 * b.x + 2 * b.radius > 2 * p.x - p.width && 2
        * b.y - 2 * b.radius < 2 * p.y + p.height && 2 * b.y + 2 * b.radius > 2 * p.y - p.height
}

/// Where a hit ball is pushed, keyed on the paddle's side.
fn push_out_x_exec(p: &Paddle, radius: i64) -> (r: i64)
    requires
        paddle_wf(p@),
        0 <= radius,
        2 * radius <= ARENA_HEIGHT as int,
    ensures
        r == push_out_x(p@, radius as int),
{
    proof {
        lemma_half_up(p@.width);
    }
    let half_w = half_up_i64(p.width);
    match p.side {
        Side::Left => p.x + half_w + radius,
        Side::Right => p.x - half_w - radius,
    }
}

/// Resolve one ball against the walls and the two paddles.
pub fn resolve_ball(b: &mut Ball, left: &Paddle, right: &Paddle)
    requires
        ball_moved_wf(old(b)@),
        paddle_wf(left@),
        paddle_wf(right@),
    ensures
        final(b)@ == resolve_ball_spec(old(b)@, left@, right@),
        ball_wf(final(b)@),
{
    let hit_wall = wall_overlap_exec(b);
    let over_left = overlaps_paddle_exec(b, left);
    let over_right = overlaps_paddle_exec(b, right);
    let hit_left = over_left && (!over_right || abs_i64(b.x - left.x) <= abs_i64(b.x - right.x));
    let hit_right = over_right && !hit_left;
    if hit_wall {
        b.y = clamp_i64(b.y, b.radius, ARENA_HEIGHT - b.radius);
        b.vy = -b.vy;
    }
    if hit_left {
        b.x = push_out_x_exec(left, b.radius);
        b.vx = -b.vx;
    } else if hit_right {
        b.x = push_out_x_exec(right, b.radius);
        b.vx = -b.vx;
    }
}

/// The whole active set after the resolver has run, each ball resolved
/// independently against the walls and the two paddles.
pub open spec fn resolved_balls(s: Seq<BallModel>, left: PaddleModel, right: PaddleModel) -> Seq<
    BallModel,
> {
    s.map_values(|b: BallModel| resolve_ball_spec(b, left, right))
}

/// One frame of the resolver over the whole active set.
pub fn bounce(balls: &mut Vec<Ball>, left: &Paddle, right: &Paddle)
    requires
        forall|i: int| 0 <= i < old(balls)@.len() ==> ball_moved_wf(#[trigger] old(balls)@[i]@),
        paddle_wf(left@),
        paddle_wf(right@),
    ensures
        views(final(balls)@) == resolved_balls(views(old(balls)@), left@, right@),
        forall|i: int| 0 <= i < final(balls)@.len() ==> ball_wf(#[trigger] final(balls)@[i]@),
{
    let ghost orig = balls@;
    let n = balls.len();
    let mut i: usize = 0;
    while i < n
        invariant
            n == balls@.len(),
            n == orig.len(),
            i <= n,
            paddle_wf(left@),
            paddle_wf(right@),
            forall|k: int| 0 <= k < n ==> ball_moved_wf(#[trigger] orig[k]@),
            forall|k: int| i <= k < n ==> balls@[k] == orig[k],
            forall|k: int|
                0 <= k < i ==> #[trigger] balls@[k]@ == resolve_ball_spec(orig[k]@, left@, right@),
            forall|k: int| 0 <= k < i ==> ball_wf(#[trigger] balls@[k]@),
        decreases n - i,
    {
        let mut b = balls[i];
        proof {
            assert(balls@[i as int] == orig[i as int]);
            assert(ball_moved_wf(orig[i as int]@));
        }
        resolve_ball(&mut b, left, right);
        balls.set(i, b);
        i = i + 1;
    }
    proof {
        assert(views(balls@) =~= resolved_balls(views(orig), left@, right@));
    }
}

} // verus!
