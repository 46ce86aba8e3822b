//! Paddle controller: maps a normalized input axis to a vertical
//! displacement, clamped so the paddle never leaves the arena.

use crate::num::{
    clamp_i64, clamp_spec, half_up, half_up_i64, lemma_mul_abs_bound, lemma_trunc_div_le, mul_div,
    trunc_div,
};
use crate::pong::{paddle_wf, Paddle, PaddleModel, ARENA_HEIGHT, AXIS_ONE, MAX_DT, MAX_VEL};
use vstd::prelude::*;

verus! {

/// A negative frame delta counts as zero time passed.
pub open spec fn dt_clamped(dt: int) -> int {
    if dt < 0 {
        0
    } else {
        dt
    }
}

/// An axis input outside `[-1, 1]` (fixed-point) is clamped before use.
pub open spec fn axis_clamped(axis: int) -> int {
    clamp_spec(axis, -(AXIS_ONE as int), AXIS_ONE as int)
}

/// The vertical displacement of one frame: `axis * speed * dt`,
/// scaled down by the axis and time fixed-point factors.
pub open spec fn paddle_displacement(axis: int, speed: int, dt: int) -> int {
    trunc_div(axis_clamped(axis) * speed * dt_clamped(dt), 1_000_000)
}

/// Where a paddle of height `height` at `y` ends up after one frame:
/// displaced, then clamped into
/// `[half_up(height), ARENA_HEIGHT - half_up(height)]`.
pub open spec fn paddle_step_y(y: int, axis: int, speed: int, dt: int, height: int) -> int {
    clamp_spec(
        y + paddle_displacement(axis, speed, dt),
        half_up(height),
        ARENA_HEIGHT as int - half_up(height),
    )
}

/// One frame of the paddle controller never moves the paddle out of
/// its vertical band.
pub proof fn lemma_paddle_step_in_bounds(y: int, axis: int, speed: int, dt: int, height: int)
    requires
        0 <= height,
        2 * half_up(height) <= ARENA_HEIGHT as int,
    ensures
        half_up(height) <= paddle_step_y(y, axis, speed, dt, height) <= ARENA_HEIGHT as int
            - half_up(height),
{
}

/// The paddle's vertical position after a whole sequence of frames,
/// each an axis input paired with a frame delta.
pub open spec fn paddle_y_after(y0: int, inputs: Seq<(int, int)>, speed: int, height: int) -> int
    decreases inputs.len(),
{
    if inputs.len() == 0 {
        y0
    } else {
        paddle_step_y(
            paddle_y_after(y0, inputs.drop_last(), speed, height),
            inputs.last().0,
            speed,
            inputs.last().1,
            height,
        )
    }
}

/// Paddle bound invariant: after the controller has run at least once,
/// whatever the sequence of axis inputs and frame deltas, the paddle's
/// center stays in `[half_up(height), ARENA_HEIGHT - half_up(height)]`,
/// so the paddle never leaves the arena vertically.
pub proof fn lemma_paddle_bound_sequence(
    y0: int,
    inputs: Seq<(int, int)>,
    speed: int,
    height: int,
)
    requires
        0 <= height,
        2 * half_up(height) <= ARENA_HEIGHT as int,
        inputs.len() > 0,
    ensures
        half_up(height) <= paddle_y_after(y0, inputs, speed, height) <= ARENA_HEIGHT as int
            - half_up(height),
    decreases inputs.len(),
{
    lemma_paddle_step_in_bounds(
        paddle_y_after(y0, inputs.drop_last(), speed, height),
        inputs.last().0,
        speed,
        inputs.last().1,
        height,
    );
}

/// Move one paddle for one frame: clamp the axis, displace by
/// `axis * speed * dt`, and clamp the result into the arena band.
pub fn move_paddle(p: &mut Paddle, axis: i64, speed: i64, dt: i64)
    requires
        paddle_wf(old(p)@),
        0 <= speed <= MAX_VEL,
        dt <= MAX_DT,
    ensures
        final(p)@ == (PaddleModel {
            y: paddle_step_y(old(p)@.y, axis as int, speed as int, dt as int, old(p)@.height),
            ..old(p)@
        }),
        half_up(old(p)@.height) <= final(p)@.y <= ARENA_HEIGHT as int - half_up(old(p)@.height),
        paddle_wf(final(p)@),
{
    let a = clamp_i64(axis, -AXIS_ONE, AXIS_ONE);
    let dtc: i64 = if dt < 0 {
        0
    } else {
        dt
    };
    proof {
        lemma_mul_abs_bound(a as int, speed as int, AXIS_ONE as int, MAX_VEL as int);
        lemma_mul_abs_bound(
            a as int * speed as int,
            dtc as int,
            AXIS_ONE as int * MAX_VEL as int,
            MAX_DT as int,
        );
        lemma_trunc_div_le(a as int * speed as int * dtc as int, 1_000_000);
    }
    let scaled: i64 = a * speed;
    let disp = mul_div(scaled, dtc, 1_000_000);
    let half_h = half_up_i64(p.height);
    let new_y = clamp_i64(p.y + disp, half_h, ARENA_HEIGHT - half_h);
    p.y = new_y;
}

} // verus!
