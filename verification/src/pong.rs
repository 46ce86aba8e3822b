//! Entities and game state: the arena constants, paddles, balls, and
//! the `Pong` state that owns them.
//!
//! All lengths are milliunits (one thousandth of a world unit) and all
//! durations are milliseconds, so one world unit per second is
//! `SCALE` milliunits per second.

use crate::bounce::{bounce, resolved_balls};
use crate::move_ball::{move_balls, moved_balls};
use crate::num::{
    half_up, half_up_i64, lemma_mul_abs_bound, lemma_trunc_div_le, mul_div, trunc_div, SCALE,
};
use crate::paddle::{dt_clamped, move_paddle, paddle_step_y};
use rand::Rng;
use vstd::prelude::*;

verus! {

/// Arena width, milliunits.
pub const ARENA_WIDTH: i64 = 100_000;

/// Arena height, milliunits.
pub const ARENA_HEIGHT: i64 = 100_000;

/// Paddle width, milliunits.
pub const PADDLE_WIDTH: i64 = 4_000;

/// Paddle height, milliunits.
pub const PADDLE_HEIGHT: i64 = 16_000;

/// Horizontal velocity scale applied to a spawn draw, milliunits/second.
pub const BALL_VELOCITY_X: i64 = 10_000;

/// Vertical velocity scale applied to a spawn draw, milliunits/second.
pub const BALL_VELOCITY_Y: i64 = 5_000;

/// Ball radius, milliunits.
pub const BALL_RADIUS: i64 = 2_000;

/// Number of balls spawned by the one-time spawn trigger.
pub const BALL_COUNT: usize = 500;

/// Delay before the spawn trigger fires, milliseconds.
pub const BALL_SPAWN_DELAY: i64 = 1_000;

/// A spawn draw lies in `[-SPAWN_RANGE, SPAWN_RANGE)` (fixed-point `[-5, 5)`).
pub const SPAWN_RANGE: i64 = 5_000;

/// An axis input of one, fixed-point.
pub const AXIS_ONE: i64 = 1_000;

/// Largest velocity magnitude the simulation accepts, milliunits/second.
pub const MAX_VEL: i64 = 1_000_000_000;

/// Largest frame delta the simulation accepts, milliseconds.
pub const MAX_DT: i64 = 1_000_000;

/// Largest coordinate magnitude of a ball between frames.
pub const MAX_POS: i64 = 2_000_000_000;

/// Largest coordinate magnitude right after integration:
/// `MAX_POS` plus the largest possible displacement.
pub const INT_BOUND: i64 = 2_000_000_000_000_000;

/// Which vertical edge of the arena a paddle guards.
#[derive(Clone, Copy, PartialEq, Eq, Structural, Debug)]
pub enum Side {
    Left,
    Right,
}

/// A player-controlled rectangle, confined to vertical motion.
/// `x`, `y` are the world-space center.
#[derive(Clone, Copy, PartialEq, Eq, Structural, Debug)]
pub struct Paddle {
    pub side: Side,
    pub x: i64,
    pub y: i64,
    pub width: i64,
    pub height: i64,
}

/// A free-moving circular body. `x`, `y` are the center;
/// `vx`, `vy` are milliunits per second.
#[derive(Clone, Copy, PartialEq, Eq, Structural, Debug)]
pub struct Ball {
    pub x: i64,
    pub y: i64,
    pub vx: i64,
    pub vy: i64,
    pub radius: i64,
}

/// Mathematical model of a ball, over unbounded integers.
pub ghost struct BallModel {
    pub x: int,
    pub y: int,
    pub vx: int,
    pub vy: int,
    pub radius: int,
}

/// Mathematical model of a paddle, over unbounded integers.
pub ghost struct PaddleModel {
    pub side: Side,
    pub x: int,
    pub y: int,
    pub width: int,
    pub height: int,
}

impl View for Ball {
    type V = BallModel;

    open spec fn view(&self) -> BallModel {
        BallModel {
            x: self.x as int,
            y: self.y as int,
            vx: self.vx as int,
            vy: self.vy as int,
            radius: self.radius as int,
        }
    }
}

impl View for Paddle {
    type V = PaddleModel;

    open spec fn view(&self) -> PaddleModel {
        PaddleModel {
            side: self.side,
            x: self.x as int,
            y: self.y as int,
            width: self.width as int,
            height: self.height as int,
        }
    }
}

/// The views of a sequence of balls.
pub open spec fn views(s: Seq<Ball>) -> Seq<BallModel> {
    s.map_values(|b: Ball| b@)
}

/// A well-formed ball between frames: the radius fits the arena,
/// and coordinates and velocity are bounded.
pub open spec fn ball_wf(b: BallModel) -> bool {
    &&& 0 <= b.radius
    &&& 2 * b.radius <= ARENA_HEIGHT as int
    &&& -(MAX_POS as int) <= b.x <= MAX_POS as int
    &&& -(MAX_POS as int) <= b.y <= MAX_POS as int
    &&& -(MAX_VEL as int) <= b.vx <= MAX_VEL as int
    &&& -(MAX_VEL as int) <= b.vy <= MAX_VEL as int
}

/// A ball right after integration and horizontal culling: its `x` is
/// inside the arena, its `y` may be far outside but is still bounded.
pub open spec fn ball_moved_wf(b: BallModel) -> bool {
    &&& 0 <= b.radius
    &&& 2 * b.radius <= ARENA_HEIGHT as int
    &&& 0 <= b.x <= ARENA_WIDTH as int
    &&& -(INT_BOUND as int) <= b.y <= INT_BOUND as int
    &&& -(MAX_VEL as int) <= b.vx <= MAX_VEL as int
    &&& -(MAX_VEL as int) <= b.vy <= MAX_VEL as int
}

/// A well-formed paddle: inside the arena, with dimensions that fit it.
pub open spec fn paddle_wf(p: PaddleModel) -> bool {
    &&& 0 <= p.width <= ARENA_WIDTH as int
    &&& 0 <= p.height
    &&& 2 * half_up(p.height) <= ARENA_HEIGHT as int
    &&& 0 <= p.x <= ARENA_WIDTH as int
    &&& 0 <= p.y <= ARENA_HEIGHT as int
}

/// The paddle a side starts with: standard dimensions, centered
/// vertically, placed flush against its own edge of the arena.
pub open spec fn initial_paddle(side: Side) -> PaddleModel {
    PaddleModel {
        side: side,
        x: match side {
            Side::Left => half_up(PADDLE_WIDTH as int),
            Side::Right => ARENA_WIDTH as int - half_up(PADDLE_WIDTH as int),
        },
        y: ARENA_HEIGHT as int / 2,
        width: PADDLE_WIDTH as int,
        height: PADDLE_HEIGHT as int,
    }
}

impl Paddle {
    /// A paddle at its side's starting post.
    pub fn new(side: Side) -> (p: Paddle)
        ensures
            p@ == initial_paddle(side),
            paddle_wf(p@),
    {
        let half_w = half_up_i64(PADDLE_WIDTH);
        let x = match side {
            Side::Left => half_w,
            Side::Right => ARENA_WIDTH - half_w,
        };
        Paddle { side, x, y: ARENA_HEIGHT / 2, width: PADDLE_WIDTH, height: PADDLE_HEIGHT }
    }
}

/// Both paddles at their starting posts, one per side.
pub fn init_paddles() -> (r: (Paddle, Paddle))
    ensures
        r.0@ == initial_paddle(Side::Left),
        r.1@ == initial_paddle(Side::Right),
        paddle_wf(r.0@),
        paddle_wf(r.1@),
{
    (Paddle::new(Side::Left), Paddle::new(Side::Right))
}

/// The ball spawned from two fixed-point draws `rx`, `ry`
/// in `[-SPAWN_RANGE, SPAWN_RANGE]`: it starts at the arena center
/// with velocity `(BALL_VELOCITY_X * rx, BALL_VELOCITY_Y * ry)`,
/// each product scaled back down by `SCALE`.
pub open spec fn spawn_spec(rx: int, ry: int) -> BallModel {
    BallModel {
        x: ARENA_WIDTH as int / 2,
        y: ARENA_HEIGHT as int / 2,
        vx: trunc_div(BALL_VELOCITY_X as int * rx, SCALE as int),
        vy: trunc_div(BALL_VELOCITY_Y as int * ry, SCALE as int),
        radius: BALL_RADIUS as int,
    }
}

/// A ball the spawn trigger could have produced: the image of some
/// pair of in-range draws.
pub open spec fn is_spawned(b: BallModel) -> bool {
    exists|rx: int, ry: int|
        -(SPAWN_RANGE as int) <= rx < SPAWN_RANGE as int && -(SPAWN_RANGE as int) <= ry
            < SPAWN_RANGE as int && b == #[trigger] spawn_spec(rx, ry)
}

/// Build the ball that a pair of spawn draws determines.
pub fn make_ball(rx: i64, ry: i64) -> (b: Ball)
    requires
        -SPAWN_RANGE <= rx <= SPAWN_RANGE,
        -SPAWN_RANGE <= ry <= SPAWN_RANGE,
    ensures
        b@ == spawn_spec(rx as int, ry as int),
        ball_wf(b@),
{
    proof {
        lemma_mul_abs_bound(BALL_VELOCITY_X as int, rx as int, BALL_VELOCITY_X as int, SPAWN_RANGE as int);
        lemma_mul_abs_bound(BALL_VELOCITY_Y as int, ry as int, BALL_VELOCITY_Y as int, SPAWN_RANGE as int);
        lemma_trunc_div_le(BALL_VELOCITY_X as int * rx as int, SCALE as int);
        lemma_trunc_div_le(BALL_VELOCITY_Y as int * ry as int, SCALE as int);
    }
    let vx = mul_div(BALL_VELOCITY_X, rx, SCALE);
    let vy = mul_div(BALL_VELOCITY_Y, ry, SCALE);
    Ball { x: ARENA_WIDTH / 2, y: ARENA_HEIGHT / 2, vx, vy, radius: BALL_RADIUS }
}

/// Relies on rand 0.7's `rand::thread_rng` and `Rng::gen_range`: for
/// an integer type, `gen_range(lo, hi)` returns a uniform value in
/// `[lo, hi)` and panics if `lo >= hi`.
#[verifier::external_body]
fn random_in_range(lo: i64, hi: i64) -> (r: i64)
    requires
        lo < hi,
    ensures
        lo <= r < hi,
{
    rand::thread_rng().gen_range(lo, hi)
}

/// Spawn one ball at the arena center with a randomized velocity and
/// add it to the active set.
pub fn init_ball(balls: &mut Vec<Ball>)
    ensures
        final(balls)@.len() == old(balls)@.len() + 1,
        forall|i: int| 0 <= i < old(balls)@.len() ==> final(balls)@[i] == old(balls)@[i],
        is_spawned(final(balls)@.last()@),
        ball_wf(final(balls)@.last()@),
{
    let rx = random_in_range(-SPAWN_RANGE, SPAWN_RANGE);
    let ry = random_in_range(-SPAWN_RANGE, SPAWN_RANGE);
    let b = make_ball(rx, ry);
    proof {
        assert(b@ == spawn_spec(rx as int, ry as int));
    }
    balls.push(b);
}

/// Spawn a whole batch of balls.
pub fn spawn_batch(balls: &mut Vec<Ball>, count: usize)
    requires
        old(balls)@.len() + count <= usize::MAX,
    ensures
        final(balls)@.len() == old(balls)@.len() + count,
        forall|i: int| 0 <= i < old(balls)@.len() ==> final(balls)@[i] == old(balls)@[i],
        forall|i: int|
            old(balls)@.len() <= i < final(balls)@.len() ==> is_spawned(
                #[trigger] final(balls)@[i]@,
            ) && ball_wf(final(balls)@[i]@),
{
    let base = balls.len();
    let mut spawned: usize = 0;
    while spawned < count
        invariant
            balls@.len() == base + spawned,
            base + count <= usize::MAX,
            spawned <= count,
            forall|i: int| 0 <= i < base ==> balls@[i] == old(balls)@[i],
            forall|i: int|
                base <= i < balls@.len() ==> is_spawned(#[trigger] balls@[i]@) && ball_wf(
                    balls@[i]@,
                ),
        decreases count - spawned,
    {
        init_ball(balls);
        spawned = spawned + 1;
    }
}

/// What the quit decision returns: stop the simulation or go on.
#[derive(Clone, Copy, PartialEq, Eq, Structural, Debug)]
pub enum Trans {
    Quit,
    Continue,
}

/// The simulation state: the spawn countdown, the two paddles, and the
/// active set of balls. The entity store is a plain vector of balls
/// plus one field per paddle.
///
/// Balls that leave the arena are never respawned: the spawn trigger
/// fires once, and once every ball is gone the game idles with an
/// empty active set.
pub struct Pong {
    pub ball_spawn_timer: Option<i64>,
    pub left_paddle: Paddle,
    pub right_paddle: Paddle,
    pub balls: Vec<Ball>,
}

/// A well-formed game: both paddles well formed and on their own
/// sides, every ball well formed, and a running spawn countdown always
/// positive and at most the full delay.
pub open spec fn pong_wf(g: Pong) -> bool {
    &&& paddle_wf(g.left_paddle@)
    &&& paddle_wf(g.right_paddle@)
    &&& g.left_paddle@.side == Side::Left
    &&& g.right_paddle@.side == Side::Right
    &&& forall|i: int| 0 <= i < g.balls@.len() ==> ball_wf(#[trigger] g.balls@[i]@)
    &&& match g.ball_spawn_timer {
        Option::Some(t) => 0 < t <= BALL_SPAWN_DELAY,
        Option::None => true,
    }
}

impl Default for Pong {
    /// The idle state: no countdown, paddles at their posts, no balls.
    fn default() -> (g: Pong)
        ensures
            g.ball_spawn_timer is None,
            g.left_paddle@ == initial_paddle(Side::Left),
            g.right_paddle@ == initial_paddle(Side::Right),
            g.balls@.len() == 0,
            pong_wf(g),
    {
        let (left_paddle, right_paddle) = init_paddles();
        Pong { ball_spawn_timer: None, left_paddle, right_paddle, balls: Vec::new() }
    }
}

impl Pong {
    /// Start a round: arm the spawn countdown and put both paddles at
    /// their starting posts. The active set is left as it is.
    pub fn on_start(&mut self)
        requires
            forall|i: int| 0 <= i < old(self).balls@.len() ==> ball_wf(#[trigger] old(self).balls@[i]@),
        ensures
            final(self).ball_spawn_timer == Some(BALL_SPAWN_DELAY),
            final(self).left_paddle@ == initial_paddle(Side::Left),
            final(self).right_paddle@ == initial_paddle(Side::Right),
            final(self).balls == old(self).balls,
            pong_wf(*final(self)),
    {
        self.ball_spawn_timer = Some(BALL_SPAWN_DELAY);
        let (left_paddle, right_paddle) = init_paddles();
        self.left_paddle = left_paddle;
        self.right_paddle = right_paddle;
    }

    /// Count the spawn delay down by `dt`; when it runs out, spawn the
    /// whole batch of balls at once and disarm the trigger. With no
    /// countdown running this is a no-op.
    pub fn update(&mut self, dt: i64)
        requires
            pong_wf(*old(self)),
            dt <= MAX_DT,
            old(self).balls@.len() + BALL_COUNT <= usize::MAX,
        ensures
            pong_wf(*final(self)),
            final(self).left_paddle == old(self).left_paddle,
            final(self).right_paddle == old(self).right_paddle,
            match old(self).ball_spawn_timer {
                Option::None => *final(self) == *old(self),
                Option::Some(t) => {
                    if t - dt_clamped(dt as int) > 0 {
                        &&& final(self).ball_spawn_timer == Some(
                            (t - dt_clamped(dt as int)) as i64,
                        )
                        &&& final(self).balls == old(self).balls
                    } else {
                        &&& final(self).ball_spawn_timer is None
                        &&& final(self).balls@.len() == old(self).balls@.len()
                            + BALL_COUNT as int
                        &&& forall|i: int|
                            0 <= i < old(self).balls@.len() ==> final(self).balls@[i] == old(
                                self,
                            ).balls@[i]
                        &&& forall|i: int|
                            old(self).balls@.len() <= i < final(self).balls@.len()
                                ==> is_spawned(#[trigger] final(self).balls@[i]@)
                    }
                },
            },
    {
        if let Some(timer) = self.ball_spawn_timer {
            let dtc: i64 = if dt < 0 {
                0
            } else {
                dt
            };
            let remaining = timer - dtc;
            if remaining <= 0 {
                self.ball_spawn_timer = None;
                spawn_batch(&mut self.balls, BALL_COUNT);
            } else {
                self.ball_spawn_timer = Some(remaining);
            }
        }
    }

    /// The quit decision: stop when the window was asked to close or
    /// the escape key went down.
    pub fn handle_event(&self, close_requested: bool, escape_pressed: bool) -> (t: Trans)
        ensures
            t == (if close_requested || escape_pressed {
                Trans::Quit
            } else {
                Trans::Continue
            }),
    {
        if close_requested || escape_pressed {
            Trans::Quit
        } else {
            Trans::Continue
        }
    }

    /// One simulation frame, in pipeline order: move both paddles from
    /// their axis inputs, advance every ball and cull those past a side
    /// wall, then resolve every collision against the moved paddles.
    pub fn step_frame(&mut self, axis_left: i64, axis_right: i64, paddle_speed: i64, dt: i64)
        requires
            pong_wf(*old(self)),
            0 <= paddle_speed <= MAX_VEL,
            dt <= MAX_DT,
        ensures
            pong_wf(*final(self)),
            final(self).ball_spawn_timer == old(self).ball_spawn_timer,
            final(self).left_paddle@ == (PaddleModel {
                y: paddle_step_y(
                    old(self).left_paddle@.y,
                    axis_left as int,
                    paddle_speed as int,
                    dt as int,
                    old(self).left_paddle@.height,
                ),
                ..old(self).left_paddle@
            }),
            final(self).right_paddle@ == (PaddleModel {
                y: paddle_step_y(
                    old(self).right_paddle@.y,
                    axis_right as int,
                    paddle_speed as int,
                    dt as int,
                    old(self).right_paddle@.height,
                ),
                ..old(self).right_paddle@
            }),
            views(final(self).balls@) == resolved_balls(
                moved_balls(views(old(self).balls@), dt as int),
                final(self).left_paddle@,
                final(self).right_paddle@,
            ),
    {
        move_paddle(&mut self.left_paddle, axis_left, paddle_speed, dt);
        move_paddle(&mut self.right_paddle, axis_right, paddle_speed, dt);
        move_balls(&mut self.balls, dt);
        bounce(&mut self.balls, &self.left_paddle, &self.right_paddle);
    }
}

} // verus!
