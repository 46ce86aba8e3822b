//! Fixed-point integer helpers: clamping, halving, absolute value,
//! and the scaled multiply-divide that turns a velocity and a time
//! delta into a displacement.

use vstd::arithmetic::div_mod::{
    lemma_div_nonincreasing, lemma_div_pos_is_pos, lemma_fundamental_div_mod, lemma_mod_bound,
};
use vstd::prelude::*;

verus! {

/// One world unit, in milliunits.
pub const SCALE: i64 = 1000;

/// Integer division by a positive divisor, truncated toward zero.
pub open spec fn trunc_div(a: int, b: int) -> int {
    if a >= 0 {
        a / b
    } else {
        -((-a) / b)
    }
}

/// `v` clamped into the closed interval `[lo, hi]`.
pub open spec fn clamp_spec(v: int, lo: int, hi: int) -> int {
    if v < lo {
        lo
    } else if v > hi {
        hi
    } else {
        v
    }
}

/// Half of a non-negative length, rounded up.
pub open spec fn half_up(w: int) -> int {
    (w + 1) / 2
}

/// Absolute value.
pub open spec fn abs_spec(a: int) -> int {
    if a < 0 {
        -a
    } else {
        a
    }
}

/// Truncated division never grows the magnitude of the dividend.
pub proof fn lemma_trunc_div_le(a: int, b: int)
    requires
        b >= 1,
    ensures
        a >= 0 ==> 0 <= trunc_div(a, b) <= a,
        a < 0 ==> a <= trunc_div(a, b) <= 0,
{
    if a >= 0 {
        lemma_div_pos_is_pos(a, b);
        lemma_div_nonincreasing(a, b);
    } else {
        lemma_div_pos_is_pos(-a, b);
        lemma_div_nonincreasing(-a, b);
    }
}

/// Rounding half up stays between the exact half and its ceiling.
pub proof fn lemma_half_up(w: int)
    requires
        w >= 0,
    ensures
        0 <= half_up(w),
        w <= 2 * half_up(w) <= w + 1,
{
    lemma_fundamental_div_mod(w + 1, 2);
    lemma_mod_bound(w + 1, 2);
    lemma_div_pos_is_pos(w + 1, 2);
}

/// A product of bounded factors is bounded by the product of the bounds.
pub proof fn lemma_mul_abs_bound(a: int, b: int, bound_a: int, bound_b: int)
    requires
        abs_spec(a) <= bound_a,
        abs_spec(b) <= bound_b,
    ensures
        abs_spec(a * b) <= bound_a * bound_b,
{
    assert(abs_spec(a * b) <= bound_a * bound_b) by (nonlinear_arith)
        requires
            abs_spec(a) <= bound_a,
            abs_spec(b) <= bound_b,
    ;
}

/// Clamp `v` into `[lo, hi]`.
pub fn clamp_i64(v: i64, lo: i64, hi: i64) -> (r: i64)
    requires
        lo <= hi,
    ensures
        r == clamp_spec(v as int, lo as int, hi as int),
        lo <= r <= hi,
{
    if v < lo {
        lo
    } else if v > hi {
        hi
    } else {
        v
    }
}

/// Absolute value of a bounded `i64`.
pub fn abs_i64(a: i64) -> (r: i64)
    requires
        a != i64::MIN,
    ensures
        r == abs_spec(a as int),
{
    if a < 0 {
        -a
    } else {
        a
    }
}

/// Half of a non-negative length, rounded up.
pub fn half_up_i64(w: i64) -> (r: i64)
    requires
        0 <= w < i64::MAX,
    ensures
        r == half_up(w as int),
{
    proof {
        lemma_half_up(w as int);
    }
    let r: u64 = (w as u64 + 1) / 2;
    r as i64
}

/// `a * b / d`, the quotient truncated toward zero.
pub fn mul_div(a: i64, b: i64, d: i64) -> (r: i64)
    requires
        d > 0,
        -0x7fff_ffff_ffff_ffff <= a * b <= 0x7fff_ffff_ffff_ffff,
    ensures
        r == trunc_div(a * b, d as int),
{
    proof {
        lemma_trunc_div_le(a * b, d as int);
    }
    let p: i64 = a * b;
    if p >= 0 {
        let q: u64 = (p as u64) / (d as u64);
        q as i64
    } else {
        let m: u64 = (-p) as u64;
        let q: u64 = m / (d as u64);
        -(q as i64)
    }
}

} // verus!
