//! Simulation core for a Pong-style game, in fixed-point arithmetic.
//!
//! Positions, sizes and velocities are stored as `i64` milliunits
//! (one thousandth of a world unit); time deltas are milliseconds.
//! Three components run once per frame, in order: the paddle
//! controller, the ball integrator, and the collision resolver.

pub mod bounce;
pub mod move_ball;
pub mod num;
pub mod paddle;
pub mod pong;

use vstd::prelude::*;

verus! {

} // verus!
