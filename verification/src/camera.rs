//! Camera follow: exponential smoothing toward a target.
//!
//! Each tick the camera moves a fixed fraction of its remaining distance
//! to the target: `camera' = lerp(camera, target, rate * dt)`, with the
//! fraction clamped to `[0, 1]`. Positions are millipixels and fractions
//! are thousandths, so one whole step is a fraction of 1000. The step is
//! rounded toward zero, which keeps the defining property exact: a step
//! never overshoots the target, whichever side the camera starts on.
//! When no target exists this tick, the camera stays where it is.

use vstd::arithmetic::div_mod::lemma_div_is_ordered;
use vstd::arithmetic::div_mod::lemma_div_multiples_vanish;
use vstd::arithmetic::div_mod::lemma_div_pos_is_pos;
use vstd::prelude::*;

verus! {

/// The camera position in millipixels.
pub struct CameraState {
    pub x: i64,
    pub y: i64,
}

/// The interpolation fraction clamped to one whole step: `[0, 1000]`
/// thousandths.
pub open spec fn clamp_milli(t: int) -> int {
    if t < 0 {
        0
    } else if t > 1000 {
        1000
    } else {
        t
    }
}

/// Linear interpolation from `a` toward `b` by `t` thousandths, the step
/// rounded toward zero.
pub open spec fn lerp_spec(a: int, b: int, t: int) -> int {
    if b >= a {
        a + ((b - a) * clamp_milli(t)) / 1000
    } else {
        a - ((a - b) * clamp_milli(t)) / 1000
    }
}

/// One smoothing step along one axis.
pub fn lerp_milli(a: i64, b: i64, t_milli: i64) -> (r: i64)
    requires
        -4_000_000_000_000_000 <= a <= 4_000_000_000_000_000,
        -4_000_000_000_000_000 <= b <= 4_000_000_000_000_000,
    ensures
        r == lerp_spec(a as int, b as int, t_milli as int),
{
    let t: i64 = if t_milli < 0 {
        0
    } else if t_milli > 1000 {
        1000
    } else {
        t_milli
    };
    proof {
        assert((b >= a ==> 0 <= (b - a) * t <= (b - a) * 1000) && (b < a ==> 0 <= (a - b) * t <= (a
            - b) * 1000)) by (nonlinear_arith)
            requires
                0 <= t <= 1000,
        ;
    }
    if b >= a {
        a + (b - a) * t / 1000
    } else {
        a - (a - b) * t / 1000
    }
}

/// Convergence without overshoot: a smoothing step stays between the
/// camera and the target, and moves strictly toward the target whenever
/// the remaining gap times the fraction amounts to at least one whole
/// millipixel. Iterating the step therefore yields a monotone sequence
/// bounded by the target that it never crosses.
pub proof fn lemma_camera_convergence(a: int, b: int, t: int)
    ensures
        a <= b ==> a <= lerp_spec(a, b, t) <= b,
        a >= b ==> b <= lerp_spec(a, b, t) <= a,
        a < b && (b - a) * clamp_milli(t) >= 1000 ==> lerp_spec(a, b, t) > a,
        a > b && (a - b) * clamp_milli(t) >= 1000 ==> lerp_spec(a, b, t) < a,
{
    let tc = clamp_milli(t);
    if a <= b {
        let gap = b - a;
        assert(0 <= gap * tc <= gap * 1000) by (nonlinear_arith)
            requires
                0 <= tc <= 1000,
                gap >= 0,
        ;
        lemma_div_pos_is_pos(gap * tc, 1000);
        lemma_div_is_ordered(gap * tc, gap * 1000, 1000);
        lemma_div_multiples_vanish(gap, 1000);
        assert(gap * 1000 == 1000 * gap) by (nonlinear_arith);
        if gap * tc >= 1000 {
            lemma_div_is_ordered(1000, gap * tc, 1000);
        }
    }
    if a > b {
        let gap = a - b;
        assert(0 <= gap * tc <= gap * 1000) by (nonlinear_arith)
            requires
                0 <= tc <= 1000,
                gap >= 0,
        ;
        lemma_div_pos_is_pos(gap * tc, 1000);
        lemma_div_is_ordered(gap * tc, gap * 1000, 1000);
        lemma_div_multiples_vanish(gap, 1000);
        assert(gap * 1000 == 1000 * gap) by (nonlinear_arith);
        if gap * tc >= 1000 {
            lemma_div_is_ordered(1000, gap * tc, 1000);
        }
    }
}

/// One camera tick: smooths each axis toward the target, or leaves the
/// camera untouched when no target exists this tick.
pub fn update_camera(cam: &mut CameraState, target: Option<(i64, i64)>, t_milli: i64)
    requires
        -4_000_000_000_000_000 <= old(cam).x <= 4_000_000_000_000_000,
        -4_000_000_000_000_000 <= old(cam).y <= 4_000_000_000_000_000,
        match target {
            Some(p) => -4_000_000_000_000_000 <= p.0 <= 4_000_000_000_000_000
                && -4_000_000_000_000_000 <= p.1 <= 4_000_000_000_000_000,
            None => true,
        },
    ensures
        match target {
            Some(p) => final(cam).x == lerp_spec(old(cam).x as int, p.0 as int, t_milli as int)
                && final(cam).y == lerp_spec(old(cam).y as int, p.1 as int, t_milli as int),
            None => *final(cam) == *old(cam),
        },
{
    match target {
        Some((tx, ty)) => {
            cam.x = lerp_milli(cam.x, tx, t_milli);
            cam.y = lerp_milli(cam.y, ty, t_milli);
        },
        None => {},
    }
}

} // verus!
