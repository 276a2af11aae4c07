//! Sine and cosine of fixed-point angles.
//!
//! An angle is a scalar in radians. It is first reduced to one turn, then
//! folded into the first quadrant, where both functions are evaluated by
//! their power series in Horner form, every division rounding down.

use vstd::prelude::*;
use crate::scalar::{Scalar, SCALE};

verus! {

/// Half a turn, in raw steps.
pub const PI: i64 = 3_141_593;

/// A quarter of a turn, in raw steps.
pub const HALF_PI: i64 = 1_570_796;

/// A full turn, in raw steps.
pub const TWO_PI: i64 = 6_283_185;

/// Largest folded angle.
pub const FOLD_MAX: u64 = 1_570_797;

/// Largest square of a folded angle.
pub const SQUARE_MAX: u64 = 2_467_404;

/// One Horner step of either series: `1 - x^2 * t / d`, where `x2` is the
/// square of the angle, `t` the value of the inner bracket and `ds` the
/// divisor `d` in raw steps. Never below zero.
pub open spec fn series_step(x2: int, t: int, ds: int) -> int {
    let r = SCALE as int - (x2 * t) / ds;
    if r < 0 { 0 } else { r }
}

/// Square of a folded angle, in raw steps.
pub open spec fn square(x: int) -> int {
    (x * x) / SCALE as int
}

/// Sine of a folded angle `x`, `0 <= x <= FOLD_MAX`, in raw steps: the
/// series up to the term in `x^11`.
pub open spec fn folded_sine(x: int) -> int {
    let x2 = square(x);
    let t1 = series_step(x2, SCALE as int, 110_000_000);
    let t2 = series_step(x2, t1, 72_000_000);
    let t3 = series_step(x2, t2, 42_000_000);
    let t4 = series_step(x2, t3, 20_000_000);
    let t5 = series_step(x2, t4, 6_000_000);
    let s = (x * t5) / SCALE as int;
    if s > SCALE as int { SCALE as int } else { s }
}

/// Cosine of a folded angle `x`, `0 <= x <= FOLD_MAX`, in raw steps: the
/// series up to the term in `x^12`.
pub open spec fn folded_cosine(x: int) -> int {
    let x2 = square(x);
    let t1 = series_step(x2, SCALE as int, 132_000_000);
    let t2 = series_step(x2, t1, 90_000_000);
    let t3 = series_step(x2, t2, 56_000_000);
    let t4 = series_step(x2, t3, 30_000_000);
    let t5 = series_step(x2, t4, 12_000_000);
    series_step(x2, t5, 2_000_000)
}

/// The angle reduced to one turn: `0 <= turn(a) < TWO_PI`.
pub open spec fn turn(angle: int) -> int {
    angle % TWO_PI as int
}

/// The first-quadrant angle whose sine and cosine are, up to sign, those of
/// the reduced angle `a`.
pub open spec fn fold(a: int) -> int {
    if a <= HALF_PI as int {
        a
    } else if a <= PI as int {
        PI as int - a
    } else if a <= PI as int + HALF_PI as int {
        a - PI as int
    } else {
        TWO_PI as int - a
    }
}

/// Sine of an angle given in raw steps, in raw steps.
pub open spec fn sine_of(angle: int) -> int {
    let a = turn(angle);
    if a <= PI as int { folded_sine(fold(a)) } else { -folded_sine(fold(a)) }
}

/// Cosine of an angle given in raw steps, in raw steps.
pub open spec fn cosine_of(angle: int) -> int {
    let a = turn(angle);
    if a <= HALF_PI as int || a > PI as int + HALF_PI as int {
        folded_cosine(fold(a))
    } else {
        -folded_cosine(fold(a))
    }
}

/// One Horner step of either series.
fn step(x2: u64, t: u64, ds: u64) -> (r: u64)
    requires
        x2 <= SQUARE_MAX,
        t <= SCALE,
        2_000_000 <= ds <= 132_000_000,
    ensures
        r == series_step(x2 as int, t as int, ds as int),
        r <= SCALE,
{
    assert(0 <= x2 * t <= 2_467_404 * 1_000_000) by (nonlinear_arith)
        requires
            0 <= x2 <= 2_467_404,
            0 <= t <= 1_000_000,
    {
    }
    let q: u64 = (x2 * t) / ds;
    if q > SCALE as u64 { 0 } else { SCALE as u64 - q }
}

/// The angle folded into the first quadrant.
fn folded(angle: Scalar) -> (x: u64)
    ensures
        x == fold(turn(angle.raw as int)),
        x <= FOLD_MAX,
{
    let a: i64 = match angle.raw.checked_rem_euclid(TWO_PI) {
        Some(a) => a,
        None => 0,
    };
    if a <= HALF_PI {
        a as u64
    } else if a <= PI {
        (PI - a) as u64
    } else if a <= PI + HALF_PI {
        (a - PI) as u64
    } else {
        (TWO_PI - a) as u64
    }
}

/// The square of a folded angle.
fn squared(x: u64) -> (x2: u64)
    requires
        x <= FOLD_MAX,
    ensures
        x2 == square(x as int),
        x2 <= SQUARE_MAX,
{
    assert(0 <= x * x <= 2_467_403_215_209) by (nonlinear_arith)
        requires
            0 <= x <= 1_570_797,
    {
    }
    let p: u64 = x * x;
    assert(p / 1_000_000 <= 2_467_404);
    p / (SCALE as u64)
}

/// The sine of a folded angle.
fn first_quadrant_sine(x: u64) -> (s: u64)
    requires
        x <= FOLD_MAX,
    ensures
        s == folded_sine(x as int),
        s <= SCALE,
{
    let x2: u64 = squared(x);
    let t1: u64 = step(x2, SCALE as u64, 110_000_000);
    let t2: u64 = step(x2, t1, 72_000_000);
    let t3: u64 = step(x2, t2, 42_000_000);
    let t4: u64 = step(x2, t3, 20_000_000);
    let t5: u64 = step(x2, t4, 6_000_000);
    assert(0 <= x * t5 <= 1_570_797 * 1_000_000) by (nonlinear_arith)
        requires
            0 <= x <= 1_570_797,
            0 <= t5 <= 1_000_000,
    {
    }
    let s: u64 = (x * t5) / (SCALE as u64);
    if s > SCALE as u64 { SCALE as u64 } else { s }
}

/// The cosine of a folded angle.
fn first_quadrant_cosine(x: u64) -> (c: u64)
    requires
        x <= FOLD_MAX,
    ensures
        c == folded_cosine(x as int),
        c <= SCALE,
{
    let x2: u64 = squared(x);
    let t1: u64 = step(x2, SCALE as u64, 132_000_000);
    let t2: u64 = step(x2, t1, 90_000_000);
    let t3: u64 = step(x2, t2, 56_000_000);
    let t4: u64 = step(x2, t3, 30_000_000);
    let t5: u64 = step(x2, t4, 12_000_000);
    step(x2, t5, 2_000_000)
}

/// Sine of `angle`, an angle in radians. The result lies between minus one
/// and one.
pub fn sine(angle: Scalar) -> (r: Scalar)
    ensures
        r.raw == sine_of(angle.raw as int),
        -SCALE <= r.raw <= SCALE,
{
    let a: i64 = match angle.raw.checked_rem_euclid(TWO_PI) {
        Some(a) => a,
        None => 0,
    };
    let s: u64 = first_quadrant_sine(folded(angle));
    if a <= PI {
        Scalar { raw: s as i64 }
    } else {
        Scalar { raw: -(s as i64) }
    }
}

/// Cosine of `angle`, an angle in radians. The result lies between minus
/// one and one.
pub fn cosine(angle: Scalar) -> (r: Scalar)
    ensures
        r.raw == cosine_of(angle.raw as int),
        -SCALE <= r.raw <= SCALE,
{
    let a: i64 = match angle.raw.checked_rem_euclid(TWO_PI) {
        Some(a) => a,
        None => 0,
    };
    let c: u64 = first_quadrant_cosine(folded(angle));
    if a <= HALF_PI || a > PI + HALF_PI {
        Scalar { raw: c as i64 }
    } else {
        Scalar { raw: -(c as i64) }
    }
}

/// At angle zero the sine is zero and the cosine is one.
pub proof fn lemma_zero_angle()
    ensures
        sine_of(0) == 0,
        cosine_of(0) == SCALE,
{
    assert(square(0) == 0);
    assert(series_step(0, SCALE as int, 110_000_000) == SCALE);
    assert(series_step(0, SCALE as int, 132_000_000) == SCALE);
}

} // verus!
