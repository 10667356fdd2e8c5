//! Bounded exponential interpolation for animated anchors.
//!
//! Positions are fixed-point integers in thousandths of a display unit,
//! durations are milliseconds.  `lerp_toward` moves a value toward a target
//! by the fraction `min(rate * delta_time, 1)` of the remaining distance and
//! snaps exactly onto the target once within `epsilon`, so every animation
//! terminates in finitely many steps instead of creeping asymptotically.

use vstd::prelude::*;

verus! {

/// Fixed-point denominator: one whole interpolation step, in per-mille.
pub const FACTOR_ONE: i64 = 1000;

/// Largest position magnitude the interpolation accepts; generous enough for
/// every anchor coordinate in the crate while keeping the fixed-point
/// products inside `i64`.
pub const POS_LIMIT: i64 = 2_000_000_000;

/// Largest interpolation rate (per second) the interpolation accepts.
pub const RATE_LIMIT: u32 = 1_000_000;

pub open spec fn abs_int(x: int) -> int {
    if x >= 0 {
        x
    } else {
        -x
    }
}

/// The fraction of the remaining distance covered in one step, in per-mille:
/// `min(rate * delta_time, 1)` of the distance, never more than the whole.
pub open spec fn step_factor(rate: u32, dt_ms: u32) -> int {
    if rate * dt_ms < 1000 {
        rate * dt_ms
    } else {
        1000
    }
}

/// One interpolation step: strictly closer to `target` (never past it), and
/// exactly `target` once the remaining distance is within `epsilon`.
pub open spec fn lerp_spec(current: int, target: int, dt_ms: u32, rate: u32, epsilon: int) -> int {
    let diff = target - current;
    if abs_int(diff) > epsilon {
        if diff >= 0 {
            current + (step_factor(rate, dt_ms) * diff) / 1000
        } else {
            current - (step_factor(rate, dt_ms) * (-diff)) / 1000
        }
    } else {
        target
    }
}

/// Whether two positions are within `epsilon` of each other.
pub open spec fn near_spec(a: int, b: int, epsilon: int) -> bool {
    abs_int(a - b) <= epsilon
}

/// Compares two positions for being within `epsilon` of each other.
pub fn near(a: i64, b: i64, epsilon: i64) -> (r: bool)
    requires
        -POS_LIMIT <= a <= POS_LIMIT,
        -POS_LIMIT <= b <= POS_LIMIT,
        0 <= epsilon,
    ensures
        r == near_spec(a as int, b as int, epsilon as int),
{
    let diff: i64 = if a >= b {
        a - b
    } else {
        b - a
    };
    diff <= epsilon
}

/// Moves `current` toward `target` by the clamped fraction
/// `min(rate * dt_ms, 1)` of the remaining distance, snapping exactly onto
/// `target` once within `epsilon`.  Callers check the post-call distance and
/// flip phase state when the anchor has snapped.
pub fn lerp_toward(current: i64, target: i64, dt_ms: u32, rate: u32, epsilon: i64) -> (r: i64)
    requires
        -POS_LIMIT <= current <= POS_LIMIT,
        -POS_LIMIT <= target <= POS_LIMIT,
        0 <= epsilon,
        rate <= RATE_LIMIT,
    ensures
        r == lerp_spec(current as int, target as int, dt_ms, rate, epsilon as int),
        -POS_LIMIT <= r <= POS_LIMIT,
{
    proof {
        lemma_lerp_in_interval(current as int, target as int, dt_ms, rate, epsilon as int);
        assert((rate as int) * (dt_ms as int) <= 1_000_000 * 0xffff_ffff) by (nonlinear_arith)
            requires
                rate <= RATE_LIMIT,
                dt_ms <= 0xffff_ffff,
        ;
    }
    let product: i64 = (rate as i64) * (dt_ms as i64);
    let factor: i64 = if product < 1000 {
        product
    } else {
        1000
    };
    if current <= target {
        let diff: i64 = target - current;
        if diff > epsilon {
            proof {
                assert(0 <= (factor as int) * (diff as int) <= 1000 * (diff as int))
                    by (nonlinear_arith)
                    requires
                        0 <= factor <= 1000,
                        0 <= diff,
                ;
            }
            current + (factor * diff) / 1000
        } else {
            target
        }
    } else {
        let diff: i64 = current - target;
        if diff > epsilon {
            proof {
                assert(0 <= (factor as int) * (diff as int) <= 1000 * (diff as int))
                    by (nonlinear_arith)
                    requires
                        0 <= factor <= 1000,
                        0 <= diff,
                ;
            }
            current - (factor * diff) / 1000
        } else {
            target
        }
    }
}

/// One step never overshoots: the result stays in the closed interval
/// between `current` and `target`.
pub proof fn lemma_lerp_in_interval(current: int, target: int, dt_ms: u32, rate: u32, epsilon: int)
    requires
        0 <= epsilon,
    ensures
        current <= target ==> current <= lerp_spec(current, target, dt_ms, rate, epsilon)
            <= target,
        target <= current ==> target <= lerp_spec(current, target, dt_ms, rate, epsilon)
            <= current,
{
    let f = step_factor(rate, dt_ms);
    let diff = target - current;
    assert(0 <= f <= 1000);
    if abs_int(diff) > epsilon {
        if diff >= 0 {
            assert(0 <= (f * diff) / 1000 <= diff) by (nonlinear_arith)
                requires
                    0 <= f <= 1000,
                    0 <= diff,
            ;
        } else {
            assert(0 <= (f * (-diff)) / 1000 <= -diff) by (nonlinear_arith)
                requires
                    0 <= f <= 1000,
                    diff < 0,
            ;
        }
    }
}

/// While still outside `epsilon`, a step with a non-degenerate factor gets
/// strictly closer to the target, by at least one fixed-point unit.
pub proof fn lemma_lerp_progress(current: int, target: int, dt_ms: u32, rate: u32, epsilon: int)
    requires
        0 <= epsilon,
        abs_int(target - current) > epsilon,
        step_factor(rate, dt_ms) * epsilon >= 1000,
    ensures
        abs_int(target - lerp_spec(current, target, dt_ms, rate, epsilon)) < abs_int(
            target - current,
        ),
{
    let f = step_factor(rate, dt_ms);
    let diff = target - current;
    assert(0 <= f <= 1000);
    if diff >= 0 {
        assert(1 <= (f * diff) / 1000 <= diff) by (nonlinear_arith)
            requires
                0 <= f <= 1000,
                0 <= epsilon < diff,
                f * epsilon >= 1000,
        ;
    } else {
        assert(1 <= (f * (-diff)) / 1000 <= -diff) by (nonlinear_arith)
            requires
                0 <= f <= 1000,
                0 <= epsilon,
                diff < 0,
                -diff > epsilon,
                f * epsilon >= 1000,
        ;
    }
}

/// Applies `lerp_toward` with the same step until the value lands exactly on
/// `target`: convergence in finitely many steps, witnessed by termination of
/// this loop, without ever leaving the interval between start and target.
pub fn lerp_settle(start: i64, target: i64, dt_ms: u32, rate: u32, epsilon: i64) -> (r: i64)
    requires
        -POS_LIMIT <= start <= POS_LIMIT,
        -POS_LIMIT <= target <= POS_LIMIT,
        0 < epsilon,
        rate <= RATE_LIMIT,
        step_factor(rate, dt_ms) * epsilon >= 1000,
    ensures
        r == target,
{
    let mut current: i64 = start;
    while current != target
        invariant
            -POS_LIMIT <= current <= POS_LIMIT,
            -POS_LIMIT <= target <= POS_LIMIT,
            0 < epsilon,
            rate <= RATE_LIMIT,
            step_factor(rate, dt_ms) * epsilon >= 1000,
        decreases abs_int(target - current),
    {
        proof {
            lemma_lerp_in_interval(current as int, target as int, dt_ms, rate, epsilon as int);
            if abs_int(target - current) > epsilon {
                lemma_lerp_progress(current as int, target as int, dt_ms, rate, epsilon as int);
            }
        }
        current = lerp_toward(current, target, dt_ms, rate, epsilon);
    }
    current
}

} // verus!
