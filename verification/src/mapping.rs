//! Mapping the mouse position to the grid cell under it.

use vstd::prelude::*;

use crate::MAX_COORD;
use crate::MAX_DIM;
use crate::RECT_COUNT_X;
use crate::RECT_COUNT_Y;

verus! {

/// The grid cell index under window coordinate `mpos` along one axis of
/// extent `win`, for `count` cells. The window center is origin, so the
/// coordinate is shifted by roughly half the extent (divided by 2.05, the
/// grid's own convention), scaled by the cell count, divided by the extent,
/// and clamped to a valid index.
pub open spec fn map_coord_spec(mpos: int, win: int, count: int) -> int {
    if win <= 0 || count <= 0 {
        0
    } else {
        let s = mpos + win * 100 / 205;
        if s <= 0 {
            0
        } else if s * count / win >= count {
            count - 1
        } else {
            s * count / win
        }
    }
}

/// The mapped index is always a valid cell index.
pub proof fn lemma_map_coord_in_range(mpos: int, win: int, count: int)
    requires
        count > 0,
    ensures
        0 <= map_coord_spec(mpos, win, count) < count,
{
    if win > 0 {
        let s = mpos + win * 100 / 205;
        if s > 0 && s * count / win < count {
            vstd::arithmetic::div_mod::lemma_div_pos_is_pos(s * count, win);
            assert(s * count >= 0) by (nonlinear_arith)
                requires s >= 0 && count >= 0;
        }
    }
}

/// The grid cell the mouse is in: the mapping applied to both axes,
/// clamped to the grid.
pub fn get_rect_mouse_is_in(mouse_x: i64, mouse_y: i64, win_w: u64, win_h: u64) -> (r: (
    usize,
    usize,
))
    requires
        -MAX_COORD <= mouse_x <= MAX_COORD,
        -MAX_COORD <= mouse_y <= MAX_COORD,
        0 < win_w <= MAX_DIM,
        0 < win_h <= MAX_DIM,
    ensures
        r.0 == map_coord_spec(mouse_x as int, win_w as int, RECT_COUNT_X as int),
        r.1 == map_coord_spec(mouse_y as int, win_h as int, RECT_COUNT_Y as int),
        r.0 < RECT_COUNT_X,
        r.1 < RECT_COUNT_Y,
{
    let x = map_coord(mouse_x, win_w);
    let y = map_coord(mouse_y, win_h);
    (x, y)
}

/// One axis of the mouse-to-cell mapping, for the fixed count of 30 cells.
fn map_coord(mpos: i64, win: u64) -> (i: usize)
    requires
        -MAX_COORD <= mpos <= MAX_COORD,
        0 < win <= MAX_DIM,
    ensures
        i == map_coord_spec(mpos as int, win as int, 30),
        i < 30,
{
    let off: u64 = win * 100 / 205;
    let s: i64 = mpos + off as i64;
    if s <= 0 {
        0
    } else {
        let q: u64 = (s as u64) * 30 / win;
        if q >= 30 {
            29
        } else {
            q as usize
        }
    }
}

} // verus!
