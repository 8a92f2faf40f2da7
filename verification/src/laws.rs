//! The guarantees of the per-tick update, stated over the mathematical model
//! and proved once and for all: excitement only decays between bonks, the
//! sleep flag flips exactly at the decay threshold or on a bonk, the color
//! accumulator stays within a turn, and the geometry never goes stale.

use vstd::prelude::*;

use crate::cell::decay_step;
use crate::cell::lemma_decay_step_le;
use crate::cell::rect_dim_milli;
use crate::cell::rect_pos_milli;
use crate::color::lemma_color_stays_wrapped;
use crate::mapping::lemma_map_coord_in_range;
use crate::model::cell_index;
use crate::model::spec_update;
use crate::model::step_cell;
use crate::model::stepped_grid;
use crate::model::tick_bonks;
use crate::model::tick_speed;
use crate::model::ModelGhost;
use crate::speed::lemma_speed_nonneg;
use crate::CELL_COUNT;
use crate::COLOR_MAX_MILLI;
use crate::RECT_COUNT_X;
use crate::RECT_COUNT_Y;
use crate::SLEEP_EPS;

verus! {

/// The host inputs of one tick: clock reading, mouse position, window size.
pub struct TickIn {
    pub now_ms: u64,
    pub mouse_x: i64,
    pub mouse_y: i64,
    pub win_w: u64,
    pub win_h: u64,
}

/// The state after a whole sequence of ticks.
pub open spec fn spec_run(m: ModelGhost, ins: Seq<TickIn>) -> ModelGhost
    decreases ins.len(),
{
    if ins.len() == 0 {
        m
    } else {
        spec_run(
            spec_update(
                m,
                ins[0].now_ms as int,
                ins[0].mouse_x as int,
                ins[0].mouse_y as int,
                ins[0].win_w as int,
                ins[0].win_h as int,
            ),
            ins.drop_first(),
        )
    }
}

/// Cell `(x, y)` sits at a valid flat index of the grid, and the flat
/// index determines the pair.
proof fn lemma_cell_index_bijective(x: int, y: int)
    requires
        0 <= x < RECT_COUNT_X as int,
        0 <= y < RECT_COUNT_Y as int,
    ensures
        0 <= cell_index(x, y) < CELL_COUNT,
        cell_index(x, y) / (RECT_COUNT_Y as int) == x,
        cell_index(x, y) % (RECT_COUNT_Y as int) == y,
{
    vstd::arithmetic::div_mod::lemma_fundamental_div_mod_converse(
        cell_index(x, y),
        RECT_COUNT_Y as int,
        x,
        y,
    );
}

/// A tick never raises a cell's excitement unless it bonks that very cell,
/// and excitement never becomes negative; while positive it strictly falls,
/// so without a new bonk it converges to zero.
pub proof fn lemma_excitement_monotone(
    m: ModelGhost,
    now: int,
    mx: int,
    my: int,
    ww: int,
    wh: int,
    x: int,
    y: int,
)
    requires
        m.grid.len() == CELL_COUNT,
        0 <= x < RECT_COUNT_X as int,
        0 <= y < RECT_COUNT_Y as int,
        !tick_bonks(m, mx, my, ww, wh, x, y),
    ensures
        0 <= spec_update(m, now, mx, my, ww, wh).grid[cell_index(x, y)].excitement <= m.grid[
            cell_index(x, y)
        ].excitement,
        m.grid[cell_index(x, y)].excitement > 0 ==> spec_update(
            m,
            now,
            mx,
            my,
            ww,
            wh,
        ).grid[cell_index(x, y)].excitement < m.grid[cell_index(x, y)].excitement,
{
    let i = cell_index(x, y);
    lemma_cell_index_bijective(x, y);
    let g1 = stepped_grid(m.grid, ww, wh);
    assert(g1[i] == step_cell(m.grid[i], x, y, ww, wh));
    lemma_decay_step_le(m.grid[i].excitement as int);
    let fx = crate::mapping::map_coord_spec(mx, ww, RECT_COUNT_X as int);
    let fy = crate::mapping::map_coord_spec(my, wh, RECT_COUNT_Y as int);
    if !(fx == m.focused_x && fy == m.focused_y) {
        lemma_map_coord_in_range(mx, ww, RECT_COUNT_X as int);
        lemma_map_coord_in_range(my, wh, RECT_COUNT_Y as int);
        lemma_cell_index_bijective(fx, fy);
        assert(cell_index(fx, fy) != i);
    }
}

/// A tick never bonks cell `(x, y)` along a whole run, so its excitement
/// never rises over the run.
pub proof fn lemma_excitement_monotone_over_run(m: ModelGhost, ins: Seq<TickIn>, x: int, y: int)
    requires
        m.grid.len() == CELL_COUNT,
        0 <= x < RECT_COUNT_X as int,
        0 <= y < RECT_COUNT_Y as int,
        forall|k: int|
            0 <= k < ins.len() ==> !tick_bonks(
                #[trigger] spec_run(m, ins.take(k)),
                ins[k].mouse_x as int,
                ins[k].mouse_y as int,
                ins[k].win_w as int,
                ins[k].win_h as int,
                x,
                y,
            ),
    ensures
        spec_run(m, ins).grid.len() == CELL_COUNT,
        0 <= spec_run(m, ins).grid[cell_index(x, y)].excitement <= m.grid[cell_index(x, y)].excitement,
    decreases ins.len(),
{
    lemma_cell_index_bijective(x, y);
    if ins.len() > 0 {
        let m1 = spec_update(
            m,
            ins[0].now_ms as int,
            ins[0].mouse_x as int,
            ins[0].mouse_y as int,
            ins[0].win_w as int,
            ins[0].win_h as int,
        );
        assert(ins.take(0) =~= Seq::<TickIn>::empty());
        assert(spec_run(m, ins.take(0)) == m);
        lemma_excitement_monotone(
            m,
            ins[0].now_ms as int,
            ins[0].mouse_x as int,
            ins[0].mouse_y as int,
            ins[0].win_w as int,
            ins[0].win_h as int,
            x,
            y,
        );
        let tail = ins.drop_first();
        assert forall|k: int|
            0 <= k < tail.len() implies !tick_bonks(
            #[trigger] spec_run(m1, tail.take(k)),
            tail[k].mouse_x as int,
            tail[k].mouse_y as int,
            tail[k].win_w as int,
            tail[k].win_h as int,
            x,
            y,
        ) by {
            assert(ins.take(k + 1).drop_first() =~= tail.take(k));
            assert(ins.take(k + 1).len() == k + 1);
            assert(ins.take(k + 1)[0] == ins[0]);
            assert(spec_run(m, ins.take(k + 1)) == spec_run(m1, tail.take(k)));
            assert(tail[k] == ins[k + 1]);
        }
        lemma_excitement_monotone_over_run(m1, tail, x, y);
    }
}

/// The sleep flag of cell `(x, y)` after a tick: awake exactly when the tick
/// bonked the cell, and otherwise asleep exactly when it already slept or
/// its decayed excitement fell below the epsilon.
pub proof fn lemma_sleep_transitions(
    m: ModelGhost,
    now: int,
    mx: int,
    my: int,
    ww: int,
    wh: int,
    x: int,
    y: int,
)
    requires
        m.grid.len() == CELL_COUNT,
        0 <= x < RECT_COUNT_X as int,
        0 <= y < RECT_COUNT_Y as int,
    ensures
        spec_update(m, now, mx, my, ww, wh).grid[cell_index(x, y)].sleeping == (if tick_bonks(
            m,
            mx,
            my,
            ww,
            wh,
            x,
            y,
        ) {
            false
        } else {
            m.grid[cell_index(x, y)].sleeping || decay_step(
                m.grid[cell_index(x, y)].excitement as int,
            ) < SLEEP_EPS as int
        }),
{
    let i = cell_index(x, y);
    lemma_cell_index_bijective(x, y);
    let g1 = stepped_grid(m.grid, ww, wh);
    assert(g1[i] == step_cell(m.grid[i], x, y, ww, wh));
    let fx = crate::mapping::map_coord_spec(mx, ww, RECT_COUNT_X as int);
    let fy = crate::mapping::map_coord_spec(my, wh, RECT_COUNT_Y as int);
    lemma_map_coord_in_range(mx, ww, RECT_COUNT_X as int);
    lemma_map_coord_in_range(my, wh, RECT_COUNT_Y as int);
    lemma_cell_index_bijective(fx, fy);
    if !(fx == m.focused_x && fy == m.focused_y) && !(fx == x && fy == y) {
        assert(cell_index(fx, fy) != i);
    }
}

/// As long as every tick of a run advances the color accumulator by at most
/// one turn, the accumulator stays within `[0, 360_000]` over the whole run,
/// however long it is.
pub proof fn lemma_color_wrapped_over_run(m: ModelGhost, ins: Seq<TickIn>)
    requires
        0 <= m.color_pos <= COLOR_MAX_MILLI,
        forall|k: int|
            0 <= k < ins.len() ==> tick_speed(
                #[trigger] spec_run(m, ins.take(k)),
                ins[k].now_ms as int,
                ins[k].mouse_x as int,
                ins[k].mouse_y as int,
            ) / 2 <= COLOR_MAX_MILLI,
    ensures
        0 <= spec_run(m, ins).color_pos <= COLOR_MAX_MILLI,
    decreases ins.len(),
{
    if ins.len() > 0 {
        let now = ins[0].now_ms as int;
        let mx = ins[0].mouse_x as int;
        let my = ins[0].mouse_y as int;
        let m1 = spec_update(m, now, mx, my, ins[0].win_w as int, ins[0].win_h as int);
        assert(ins.take(0) =~= Seq::<TickIn>::empty());
        assert(spec_run(m, ins.take(0)) == m);
        lemma_speed_nonneg(
            m.cur_mouse_x,
            m.cur_mouse_y,
            mx,
            my,
            crate::model::tick_delta(m, now),
        );
        lemma_color_stays_wrapped(m.color_pos, tick_speed(m, now, mx, my));
        let tail = ins.drop_first();
        assert forall|k: int|
            0 <= k < tail.len() implies tick_speed(
            #[trigger] spec_run(m1, tail.take(k)),
            tail[k].now_ms as int,
            tail[k].mouse_x as int,
            tail[k].mouse_y as int,
        ) / 2 <= COLOR_MAX_MILLI by {
            assert(ins.take(k + 1).drop_first() =~= tail.take(k));
            assert(ins.take(k + 1).len() == k + 1);
            assert(ins.take(k + 1)[0] == ins[0]);
            assert(spec_run(m, ins.take(k + 1)) == spec_run(m1, tail.take(k)));
            assert(tail[k] == ins[k + 1]);
        }
        lemma_color_wrapped_over_run(m1, tail);
    }
}

/// After any tick, every cell's geometry is the one computed from that
/// tick's window extents: nothing stale survives a resize.
pub proof fn lemma_geometry_tracks_window(
    m: ModelGhost,
    now: int,
    mx: int,
    my: int,
    ww: int,
    wh: int,
    x: int,
    y: int,
)
    requires
        m.grid.len() == CELL_COUNT,
        0 <= x < RECT_COUNT_X as int,
        0 <= y < RECT_COUNT_Y as int,
    ensures
        spec_update(m, now, mx, my, ww, wh).grid[cell_index(x, y)].pos_x == rect_pos_milli(
            x,
            ww,
            RECT_COUNT_X as int,
        ) as i64,
        spec_update(m, now, mx, my, ww, wh).grid[cell_index(x, y)].pos_y == rect_pos_milli(
            y,
            wh,
            RECT_COUNT_Y as int,
        ) as i64,
        spec_update(m, now, mx, my, ww, wh).grid[cell_index(x, y)].width == rect_dim_milli(
            ww,
            RECT_COUNT_X as int,
        ) as i64,
        spec_update(m, now, mx, my, ww, wh).grid[cell_index(x, y)].height == rect_dim_milli(
            wh,
            RECT_COUNT_Y as int,
        ) as i64,
{
    let i = cell_index(x, y);
    lemma_cell_index_bijective(x, y);
    let g1 = stepped_grid(m.grid, ww, wh);
    assert(g1[i] == step_cell(m.grid[i], x, y, ww, wh));
    let fx = crate::mapping::map_coord_spec(mx, ww, RECT_COUNT_X as int);
    let fy = crate::mapping::map_coord_spec(my, wh, RECT_COUNT_Y as int);
    lemma_map_coord_in_range(mx, ww, RECT_COUNT_X as int);
    lemma_map_coord_in_range(my, wh, RECT_COUNT_Y as int);
    lemma_cell_index_bijective(fx, fy);
}

} // verus!
