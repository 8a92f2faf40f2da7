//! Mouse speed: Euclidean distance between two mouse positions, in
//! milli-pixels, divided by the elapsed milliseconds.

use vstd::prelude::*;

use crate::isqrt::isqrt;
use crate::isqrt::isqrt_spec;
use crate::MAX_COORD;

verus! {

/// Squared Euclidean distance between `(px, py)` and `(cx, cy)`, in pixels.
pub open spec fn dist_sq_spec(px: int, py: int, cx: int, cy: int) -> int {
    (cx - px) * (cx - px) + (cy - py) * (cy - py)
}

/// Euclidean distance between the two positions in milli-pixels, rounded
/// down: the integer square root of the squared distance scaled by `1000^2`.
pub open spec fn dist_milli_spec(px: int, py: int, cx: int, cy: int) -> int {
    isqrt_spec((dist_sq_spec(px, py, cx, cy) * 1000000) as nat) as int
}

/// Mouse speed in milli-pixels per millisecond: distance over elapsed time,
/// rounded down, and 0 when no time has elapsed (rather than a division by
/// zero).
pub open spec fn speed_milli_spec(px: int, py: int, cx: int, cy: int, dt: int) -> int {
    if dt <= 0 {
        0
    } else {
        dist_milli_spec(px, py, cx, cy) / dt
    }
}

/// The mouse speed is never negative.
pub proof fn lemma_speed_nonneg(px: int, py: int, cx: int, cy: int, dt: int)
    ensures
        speed_milli_spec(px, py, cx, cy, dt) >= 0,
{
    if dt > 0 {
        vstd::arithmetic::div_mod::lemma_div_pos_is_pos(dist_milli_spec(px, py, cx, cy), dt);
    }
}

/// The speed of one tick, computed from the previous and current mouse
/// position (pixels) and the elapsed time (milliseconds).
pub fn mouse_speed(px: i64, py: i64, cx: i64, cy: i64, dt_ms: u64) -> (s: u64)
    requires
        -MAX_COORD <= px <= MAX_COORD,
        -MAX_COORD <= py <= MAX_COORD,
        -MAX_COORD <= cx <= MAX_COORD,
        -MAX_COORD <= cy <= MAX_COORD,
    ensures
        s == speed_milli_spec(px as int, py as int, cx as int, cy as int, dt_ms as int),
{
    let dx: i64 = cx - px;
    let dy: i64 = cy - py;
    assert(0 <= dx * dx <= 4000000000000 && 0 <= dy * dy <= 4000000000000) by (nonlinear_arith)
        requires
            -2000000 <= dx <= 2000000,
            -2000000 <= dy <= 2000000,
    ;
    let dx2: u64 = (dx * dx) as u64;
    let dy2: u64 = (dy * dy) as u64;
    let n: u64 = (dx2 + dy2) * 1000000;
    let d: u64 = isqrt(n);
    if dt_ms == 0 {
        0
    } else {
        d / dt_ms
    }
}

} // verus!
