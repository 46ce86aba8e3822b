//! Ball integrator: advances each ball by `velocity * dt` (explicit
//! Euler) and removes balls that left the arena through a side wall.

use crate::num::{lemma_mul_abs_bound, lemma_trunc_div_le, mul_div, trunc_div, SCALE};
use crate::paddle::dt_clamped;
use crate::pong::{
    ball_moved_wf, ball_wf, views, Ball, BallModel, ARENA_WIDTH, INT_BOUND, MAX_DT,
    MAX_VEL,
};
use vstd::prelude::*;

verus! {

/// How far a body with velocity `v` travels in `dt` milliseconds.
pub open spec fn displacement(v: int, dt: int) -> int {
    trunc_div(v * dt_clamped(dt), SCALE as int)
}

/// One Euler step: each coordinate advances by its displacement.
pub open spec fn integrate_spec(b: BallModel, dt: int) -> BallModel {
    BallModel { x: b.x + displacement(b.vx, dt), y: b.y + displacement(b.vy, dt), ..b }
}

/// A ball still in play horizontally: it has not passed a side wall.
pub open spec fn ball_in_x(b: BallModel) -> bool {
    0 <= b.x <= ARENA_WIDTH as int
}

/// What one frame of integration leaves: every ball advanced by one
/// Euler step, and the balls whose `x` left `[0, ARENA_WIDTH]` removed,
/// the order of the survivors kept.
pub open spec fn moved_balls(s: Seq<BallModel>, dt: int) -> Seq<BallModel>
    decreases s.len(),
{
    if s.len() == 0 {
        Seq::empty()
    } else {
        let rest = moved_balls(s.drop_last(), dt);
        let b = integrate_spec(s.last(), dt);
        if ball_in_x(b) {
            rest.push(b)
        } else {
            rest
        }
    }
}

/// Ball removal: after integration, every surviving ball is the Euler
/// step of some input ball and is horizontally in play; and every input
/// ball whose Euler step stays in play survives. A ball moved past a
/// side wall is thus gone before the next stage sees the set.
pub proof fn lemma_ball_removal(s: Seq<BallModel>, dt: int)
    ensures
        forall|i: int|
            0 <= i < moved_balls(s, dt).len() ==> ball_in_x(#[trigger] moved_balls(s, dt)[i]),
        forall|i: int|
            0 <= i < moved_balls(s, dt).len() ==> exists|j: int|
                0 <= j < s.len() && #[trigger] moved_balls(s, dt)[i] == integrate_spec(s[j], dt),
        forall|j: int|
            0 <= j < s.len() && ball_in_x(integrate_spec(s[j], dt)) ==> moved_balls(s, dt).contains(
                integrate_spec(#[trigger] s[j], dt),
            ),
    decreases s.len(),
{
    if s.len() > 0 {
        lemma_ball_removal(s.drop_last(), dt);
        let rest = moved_balls(s.drop_last(), dt);
        let m = moved_balls(s, dt);
        assert forall|i: int| 0 <= i < m.len() implies exists|j: int|
            0 <= j < s.len() && #[trigger] m[i] == integrate_spec(s[j], dt) by {
            if i < rest.len() {
                let j = choose|j: int|
                    0 <= j < s.drop_last().len() && rest[i] == integrate_spec(
                        s.drop_last()[j],
                        dt,
                    );
                assert(s[j] == s.drop_last()[j]);
            } else {
                assert(m[i] == integrate_spec(s[s.len() - 1], dt));
            }
        }
        assert forall|j: int|
            0 <= j < s.len() && ball_in_x(integrate_spec(s[j], dt)) implies m.contains(
            integrate_spec(s[j], dt),
        ) by {
            if j < s.len() - 1 {
                assert(s.drop_last()[j] == s[j]);
                assert(rest.contains(integrate_spec(s[j], dt)));
                let i = choose|i: int| 0 <= i < rest.len() && rest[i] == integrate_spec(s[j], dt);
                assert(m[i] == integrate_spec(s[j], dt));
            } else {
                assert(m.last() == integrate_spec(s[j], dt));
            }
        }
    }
}

/// Advance one ball by one Euler step.
pub fn integrate_ball(b: &mut Ball, dt: i64)
    requires
        ball_wf(old(b)@),
        dt <= MAX_DT,
    ensures
        final(b)@ == integrate_spec(old(b)@, dt as int),
        -(INT_BOUND as int) <= final(b)@.x <= INT_BOUND as int,
        -(INT_BOUND as int) <= final(b)@.y <= INT_BOUND as int,
{
    let dtc: i64 = if dt < 0 {
        0
    } else {
        dt
    };
    proof {
        lemma_mul_abs_bound(b@.vx, dtc as int, MAX_VEL as int, MAX_DT as int);
        lemma_mul_abs_bound(b@.vy, dtc as int, MAX_VEL as int, MAX_DT as int);
        lemma_trunc_div_le(b@.vx * dtc as int, SCALE as int);
        lemma_trunc_div_le(b@.vy * dtc as int, SCALE as int);
    }
    let dx = mul_div(b.vx, dtc, SCALE);
    let dy = mul_div(b.vy, dtc, SCALE);
    b.x = b.x + dx;
    b.y = b.y + dy;
}

/// One frame of the integrator over the whole active set: every ball
/// advanced, then every ball whose `x` left `[0, ARENA_WIDTH]` removed.
pub fn move_balls(balls: &mut Vec<Ball>, dt: i64)
    requires
        forall|i: int| 0 <= i < old(balls)@.len() ==> ball_wf(#[trigger] old(balls)@[i]@),
        dt <= MAX_DT,
    ensures
        views(final(balls)@) == moved_balls(views(old(balls)@), dt as int),
        forall|i: int| 0 <= i < final(balls)@.len() ==> ball_moved_wf(#[trigger] final(balls)@[i]@),
{
    let ghost orig = views(balls@);
    let mut out: Vec<Ball> = Vec::new();
    let n = balls.len();
    let mut i: usize = 0;
    while i < n
        invariant
            n == balls@.len(),
            i <= n,
            forall|k: int| 0 <= k < balls@.len() ==> ball_wf(#[trigger] balls@[k]@),
            dt <= MAX_DT,
            orig == views(balls@),
            views(out@) == moved_balls(orig.take(i as int), dt as int),
            forall|k: int| 0 <= k < out@.len() ==> ball_moved_wf(#[trigger] out@[k]@),
        decreases n - i,
    {
        let mut b = balls[i];
        integrate_ball(&mut b, dt);
        proof {
            assert(orig.take(i as int + 1).drop_last() =~= orig.take(i as int));
            assert(orig.take(i as int + 1).last() == balls@[i as int]@);
        }
        if 0 <= b.x && b.x <= ARENA_WIDTH {
            out.push(b);
            proof {
                assert(views(out@) =~= moved_balls(orig.take(i as int + 1), dt as int));
            }
        } else {
            proof {
                assert(views(out@) =~= moved_balls(orig.take(i as int + 1), dt as int));
            }
        }
        i = i + 1;
    }
    proof {
        assert(orig.take(n as int) =~= orig);
    }
    *balls = out;
}

} // verus!
