//! The rotating color accumulator: advanced by half the mouse speed each
//! tick, wrapped back once when it passes a full turn.

use vstd::prelude::*;

use crate::COLOR_MAX_MILLI;

verus! {

/// One wrap step: a position past a full turn (`COLOR_MAX_MILLI` milli-degrees) is
/// pulled back by exactly one turn. Deliberately a single subtraction: a
/// jump of more than two turns in one tick stays past a turn until later
/// ticks pull it back.
pub open spec fn wrap_color_spec(c: int) -> int {
    if c > COLOR_MAX_MILLI {
        c - COLOR_MAX_MILLI
    } else {
        c
    }
}

/// The accumulator after one tick of speed `speed` (milli-pixels per
/// millisecond): advanced by half the speed, capped at the machine limit,
/// then wrapped once.
pub open spec fn advanced_color_spec(c: int, speed: int) -> int {
    let sum = c + speed / 2;
    let capped = if sum > u64::MAX { u64::MAX as int } else { sum };
    wrap_color_spec(capped)
}

/// As long as each tick advances the accumulator by at most one full turn,
/// the single wrap step keeps it within a turn, leaving it at exactly
/// 360_000 only when the advance lands exactly there.
pub proof fn lemma_color_stays_wrapped(c: int, speed: int)
    requires
        0 <= c <= COLOR_MAX_MILLI,
        0 <= speed / 2 <= COLOR_MAX_MILLI,
    ensures
        0 <= advanced_color_spec(c, speed) <= COLOR_MAX_MILLI,
        advanced_color_spec(c, speed) == COLOR_MAX_MILLI ==> c + speed / 2 == COLOR_MAX_MILLI
            || c + speed / 2 == 2 * COLOR_MAX_MILLI,
{
}

/// Advance the accumulator by half the tick's speed and wrap once.
pub fn advance_color(c: u64, speed: u64) -> (r: u64)
    ensures
        r == advanced_color_spec(c as int, speed as int),
{
    let inc = speed / 2;
    let sum = if c > u64::MAX - inc {
        u64::MAX
    } else {
        c + inc
    };
    if sum > COLOR_MAX_MILLI {
        sum - COLOR_MAX_MILLI
    } else {
        sum
    }
}

} // verus!
