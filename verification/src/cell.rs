//! One grid cell ("bonk rect"): its geometry, recomputed from the window
//! size every tick, and its excitement, which decays geometrically.

use vstd::prelude::*;

use crate::DECAY_DEN;
use crate::DECAY_KEEP;
use crate::MILLI;

verus! {

/// One cell of the grid. Positions and sizes are milli-pixels in the host's
/// centered coordinate system; `excitement` is micro-units (1_000_000 is
/// full); `hue` is milli-degrees. A sleeping cell is not drawn.
#[derive(Clone, Copy, PartialEq, Eq, Structural, Debug)]
pub struct BonkRect {
    pub pos_x: i64,
    pub pos_y: i64,
    pub width: i64,
    pub height: i64,
    pub excitement: u64,
    pub hue: u64,
    pub sleeping: bool,
}

/// The state every cell starts in: asleep, dark, one pixel large, at the
/// origin.
pub open spec fn initial_cell() -> BonkRect {
    BonkRect {
        pos_x: 0,
        pos_y: 0,
        width: MILLI as i64,
        height: MILLI as i64,
        excitement: 0,
        hue: 0,
        sleeping: true,
    }
}

impl BonkRect {
    /// A fresh, sleeping cell.
    pub fn new() -> (c: BonkRect)
        ensures
            c == initial_cell(),
    {
        BonkRect {
            pos_x: 0,
            pos_y: 0,
            width: MILLI as i64,
            height: MILLI as i64,
            excitement: 0,
            hue: 0,
            sleeping: true,
        }
    }
}

/// A cell's extent along one axis, in milli-pixels: the window extent divided
/// evenly among `count` cells.
pub open spec fn rect_size_milli(win: int, count: int) -> int {
    if count <= 0 {
        0
    } else {
        win * (MILLI as int) / count
    }
}

/// The grid's offset from the window center toward the bottom-left corner,
/// in milli-pixels: the window extent divided by 2.2.
pub open spec fn grid_offset_milli(win: int) -> int {
    win * 10 * (MILLI as int) / 22
}

/// A cell's coordinate along one axis, in milli-pixels.
pub open spec fn rect_pos_milli(i: int, win: int, count: int) -> int {
    i * rect_size_milli(win, count) - grid_offset_milli(win)
}

/// A cell's drawn extent along one axis: its full extent minus a one-pixel
/// gap.
pub open spec fn rect_dim_milli(win: int, count: int) -> int {
    rect_size_milli(win, count) - MILLI
}

/// One tick of excitement decay: keep 98%, rounded down; never negative.
pub open spec fn decay_step(e: int) -> int {
    if e > 0 {
        e * (DECAY_KEEP as int) / (DECAY_DEN as int)
    } else {
        0
    }
}

/// Decay never increases excitement and never makes it negative.
pub proof fn lemma_decay_step_le(e: int)
    requires
        e >= 0,
    ensures
        0 <= decay_step(e) <= e,
        e > 0 ==> decay_step(e) < e,
{
    if e > 0 {
        assert(0 <= e * (DECAY_KEEP as int) / (DECAY_DEN as int) < e) by (nonlinear_arith)
            requires e > 0;
    }
}

} // verus!
