//! The process-wide state and the per-tick update.

use vstd::prelude::*;

use crate::cell::decay_step;
use crate::cell::grid_offset_milli;
use crate::cell::initial_cell;
use crate::cell::lemma_decay_step_le;
use crate::cell::rect_dim_milli;
use crate::cell::rect_pos_milli;
use crate::cell::rect_size_milli;
use crate::cell::BonkRect;
use crate::color::advance_color;
use crate::color::advanced_color_spec;
use crate::mapping::get_rect_mouse_is_in;
use crate::mapping::map_coord_spec;
use crate::speed::lemma_speed_nonneg;
use crate::speed::mouse_speed;
use crate::speed::speed_milli_spec;
use crate::CELL_COUNT;
use crate::DECAY_DEN;
use crate::DECAY_KEEP;
use crate::EXCITE_ONE;
use crate::MAX_COORD;
use crate::MAX_DIM;
use crate::MILLI;
use crate::RECT_COUNT_X;
use crate::RECT_COUNT_Y;
use crate::SLEEP_EPS;
use crate::SPEED_LIMIT_MILLI;

verus! {

/// The whole program state: the grid plus the frame/input bookkeeping.
pub struct Model {
    /// The 30 by 30 grid, flat and row-major: cell `(x, y)` is at `x * 30 + y`.
    pub grid: Vec<BonkRect>,
    /// Clock reading of the tick before the current one, in milliseconds.
    pub prev_time_ms: u64,
    /// Clock reading of the current tick, in milliseconds.
    pub cur_time_ms: u64,
    /// Milliseconds elapsed between the two.
    pub time_delta_ms: u64,
    /// Mouse position of the previous tick, in pixels (window center origin).
    pub prev_mouse_x: i64,
    /// Mouse position of the previous tick.
    pub prev_mouse_y: i64,
    /// Mouse position of the current tick.
    pub cur_mouse_x: i64,
    /// Mouse position of the current tick.
    pub cur_mouse_y: i64,
    /// Mouse speed of the current tick, milli-pixels per millisecond.
    pub mouse_speed: u64,
    /// The cell the mouse was last mapped to.
    pub focused_x: usize,
    /// The cell the mouse was last mapped to.
    pub focused_y: usize,
    /// The rotating color accumulator, milli-degrees.
    pub color_pos: u64,
}

/// The mathematical image of a [`Model`], over unbounded integers.
pub struct ModelGhost {
    pub grid: Seq<BonkRect>,
    pub prev_time_ms: int,
    pub cur_time_ms: int,
    pub time_delta_ms: int,
    pub prev_mouse_x: int,
    pub prev_mouse_y: int,
    pub cur_mouse_x: int,
    pub cur_mouse_y: int,
    pub mouse_speed: int,
    pub focused_x: int,
    pub focused_y: int,
    pub color_pos: int,
}

impl View for Model {
    type V = ModelGhost;

    open spec fn view(&self) -> ModelGhost {
        ModelGhost {
            grid: self.grid@,
            prev_time_ms: self.prev_time_ms as int,
            cur_time_ms: self.cur_time_ms as int,
            time_delta_ms: self.time_delta_ms as int,
            prev_mouse_x: self.prev_mouse_x as int,
            prev_mouse_y: self.prev_mouse_y as int,
            cur_mouse_x: self.cur_mouse_x as int,
            cur_mouse_y: self.cur_mouse_y as int,
            mouse_speed: self.mouse_speed as int,
            focused_x: self.focused_x as int,
            focused_y: self.focused_y as int,
            color_pos: self.color_pos as int,
        }
    }
}

/// The flat index of cell `(x, y)`.
pub open spec fn cell_index(x: int, y: int) -> int {
    x * (RECT_COUNT_Y as int) + y
}

/// Every cell's excitement is within `[0, 1]` (micro-units) and the grid has
/// exactly 900 cells.
pub open spec fn grid_wf(g: Seq<BonkRect>) -> bool {
    &&& g.len() == CELL_COUNT
    &&& forall|i: int| 0 <= i < CELL_COUNT ==> #[trigger] g[i].excitement <= EXCITE_ONE
}

impl Model {
    /// The state a tick can start from: a well-formed grid, a focused cell
    /// inside it, and a current mouse position within the machine bounds.
    pub open spec fn wf(&self) -> bool {
        &&& grid_wf(self@.grid)
        &&& 0 <= self@.focused_x < RECT_COUNT_X as int
        &&& 0 <= self@.focused_y < RECT_COUNT_Y as int
        &&& -MAX_COORD <= self@.cur_mouse_x <= MAX_COORD
        &&& -MAX_COORD <= self@.cur_mouse_y <= MAX_COORD
    }
}

/// The freshly initialized state at clock reading `now`: every cell asleep
/// and dark, the mouse at the origin, no speed, no color rotation.
pub open spec fn initial_model(now: int) -> ModelGhost {
    ModelGhost {
        grid: Seq::new(CELL_COUNT as nat, |i: int| initial_cell()),
        prev_time_ms: now,
        cur_time_ms: now,
        time_delta_ms: 0,
        prev_mouse_x: 0,
        prev_mouse_y: 0,
        cur_mouse_x: 0,
        cur_mouse_y: 0,
        mouse_speed: 0,
        focused_x: 0,
        focused_y: 0,
        color_pos: 0,
    }
}

/// The geometry-and-decay pass applied to one cell at `(x, y)`: position and
/// size recomputed from the window extents alone, excitement decayed, and
/// the cell put to sleep when its excitement has fallen below the epsilon.
pub open spec fn step_cell(c: BonkRect, x: int, y: int, ww: int, wh: int) -> BonkRect {
    let e2 = decay_step(c.excitement as int);
    BonkRect {
        pos_x: rect_pos_milli(x, ww, RECT_COUNT_X as int) as i64,
        pos_y: rect_pos_milli(y, wh, RECT_COUNT_Y as int) as i64,
        width: rect_dim_milli(ww, RECT_COUNT_X as int) as i64,
        height: rect_dim_milli(wh, RECT_COUNT_Y as int) as i64,
        excitement: e2 as u64,
        hue: c.hue,
        sleeping: c.sleeping || e2 < SLEEP_EPS as int,
    }
}

/// The geometry-and-decay pass over the whole grid.
pub open spec fn stepped_grid(g: Seq<BonkRect>, ww: int, wh: int) -> Seq<BonkRect> {
    Seq::new(g.len(), |i: int| step_cell(g[i], i / (RECT_COUNT_Y as int), i % (RECT_COUNT_Y as int), ww, wh))
}

/// A cell the mouse just entered: excitement set from the normalized speed,
/// hue frozen to the current color accumulator, awake. Geometry untouched.
pub open spec fn bonked_cell(c: BonkRect, speed: int, color: int) -> BonkRect {
    let clamped = if speed > SPEED_LIMIT_MILLI as int {
        SPEED_LIMIT_MILLI as int
    } else if speed < 0 {
        0
    } else {
        speed
    };
    BonkRect {
        excitement: (clamped * (MILLI as int)) as u64,
        hue: color as u64,
        sleeping: false,
        ..c
    }
}

/// The elapsed time of a tick at clock reading `now`, never negative.
pub open spec fn tick_delta(m: ModelGhost, now: int) -> int {
    if now >= m.cur_time_ms {
        now - m.cur_time_ms
    } else {
        0
    }
}

/// The mouse speed a tick at clock reading `now` with mouse position
/// `(mx, my)` computes.
pub open spec fn tick_speed(m: ModelGhost, now: int, mx: int, my: int) -> int {
    speed_milli_spec(m.cur_mouse_x, m.cur_mouse_y, mx, my, tick_delta(m, now))
}

/// Whether a tick with mouse position `(mx, my)` in a window of extents
/// `(ww, wh)` bonks cell `(x, y)`: the mouse maps to that exact cell, and
/// did not map to it on the previous tick.
pub open spec fn tick_bonks(m: ModelGhost, mx: int, my: int, ww: int, wh: int, x: int, y: int) -> bool {
    let fx = map_coord_spec(mx, ww, RECT_COUNT_X as int);
    let fy = map_coord_spec(my, wh, RECT_COUNT_Y as int);
    &&& fx == x
    &&& fy == y
    &&& !(fx == m.focused_x && fy == m.focused_y)
}

/// One whole tick: elapsed time, mouse speed, geometry and decay over every
/// cell, color rotation, and at most one bonk.
pub open spec fn spec_update(m: ModelGhost, now: int, mx: int, my: int, ww: int, wh: int) -> ModelGhost {
    let dt = tick_delta(m, now);
    let speed = tick_speed(m, now, mx, my);
    let g1 = stepped_grid(m.grid, ww, wh);
    let color = advanced_color_spec(m.color_pos, speed);
    let fx = map_coord_spec(mx, ww, RECT_COUNT_X as int);
    let fy = map_coord_spec(my, wh, RECT_COUNT_Y as int);
    let bonk = !(fx == m.focused_x && fy == m.focused_y);
    let g2 = if bonk {
        g1.update(cell_index(fx, fy), bonked_cell(g1[cell_index(fx, fy)], speed, color))
    } else {
        g1
    };
    ModelGhost {
        grid: g2,
        prev_time_ms: m.cur_time_ms,
        cur_time_ms: now,
        time_delta_ms: dt,
        prev_mouse_x: m.cur_mouse_x,
        prev_mouse_y: m.cur_mouse_y,
        cur_mouse_x: mx,
        cur_mouse_y: my,
        mouse_speed: speed,
        focused_x: fx,
        focused_y: fy,
        color_pos: color,
    }
}

impl Model {
    /// The freshly initialized state, with the host's clock reading.
    pub fn new(now_ms: u64) -> (m: Model)
        ensures
            m@ == initial_model(now_ms as int),
            m.wf(),
    {
        let mut grid: Vec<BonkRect> = Vec::new();
        let mut i: usize = 0;
        while i < CELL_COUNT
            invariant
                i <= CELL_COUNT,
                grid@.len() == i,
                forall|j: int| 0 <= j < i ==> grid@[j] == initial_cell(),
            decreases CELL_COUNT - i,
        {
            grid.push(BonkRect::new());
            i = i + 1;
        }
        let m = Model {
            grid,
            prev_time_ms: now_ms,
            cur_time_ms: now_ms,
            time_delta_ms: 0,
            prev_mouse_x: 0,
            prev_mouse_y: 0,
            cur_mouse_x: 0,
            cur_mouse_y: 0,
            mouse_speed: 0,
            focused_x: 0,
            focused_y: 0,
            color_pos: 0,
        };
        proof {
            assert(m@.grid =~= initial_model(now_ms as int).grid);
            assert(m@ == initial_model(now_ms as int));
        }
        m
    }
}

/// Recompute every cell's geometry from the window extents and decay every
/// cell's excitement, putting cells below the epsilon to sleep.
pub fn update_rects(grid: &mut Vec<BonkRect>, win_w: u64, win_h: u64)
    requires
        grid_wf(old(grid)@),
        0 < win_w <= MAX_DIM,
        0 < win_h <= MAX_DIM,
    ensures
        final(grid)@ == stepped_grid(old(grid)@, win_w as int, win_h as int),
        grid_wf(final(grid)@),
{
    let sz_w: u64 = win_w * MILLI / RECT_COUNT_X as u64;
    let sz_h: u64 = win_h * MILLI / RECT_COUNT_Y as u64;
    let off_w: u64 = win_w * 10 * MILLI / 22;
    let off_h: u64 = win_h * 10 * MILLI / 22;
    let dim_w: i64 = sz_w as i64 - MILLI as i64;
    let dim_h: i64 = sz_h as i64 - MILLI as i64;
    assert(sz_w <= 33333333 && sz_h <= 33333333 && off_w <= 454545454 && off_h <= 454545454)
        by (nonlinear_arith)
        requires
            sz_w == (win_w as int) * (MILLI as int) / (RECT_COUNT_X as int),
            sz_h == (win_h as int) * (MILLI as int) / (RECT_COUNT_Y as int),
            off_w == (win_w as int) * 10 * (MILLI as int) / 22,
            off_h == (win_h as int) * 10 * (MILLI as int) / 22,
            MILLI == 1000,
            RECT_COUNT_X == 30,
            RECT_COUNT_Y == 30,
            0 < win_w <= 1000000,
            0 < win_h <= 1000000,
    ;
    let mut i: usize = 0;
    while i < CELL_COUNT
        invariant
            i <= CELL_COUNT,
            grid@.len() == CELL_COUNT,
            grid_wf(old(grid)@),
            0 < win_w <= MAX_DIM,
            0 < win_h <= MAX_DIM,
            sz_w == rect_size_milli(win_w as int, RECT_COUNT_X as int),
            sz_h == rect_size_milli(win_h as int, RECT_COUNT_Y as int),
            off_w == grid_offset_milli(win_w as int),
            off_h == grid_offset_milli(win_h as int),
            dim_w == rect_dim_milli(win_w as int, RECT_COUNT_X as int),
            dim_h == rect_dim_milli(win_h as int, RECT_COUNT_Y as int),
            sz_w <= 33333333 && sz_h <= 33333333,
            off_w <= 454545454 && off_h <= 454545454,
            forall|j: int| i <= j < CELL_COUNT ==> grid@[j] == old(grid)@[j],
            forall|j: int| 0 <= j < i ==> grid@[j] == #[trigger] stepped_grid(
                old(grid)@,
                win_w as int,
                win_h as int,
            )[j],
        decreases CELL_COUNT - i,
    {
        let x: usize = i / RECT_COUNT_Y;
        let y: usize = i % RECT_COUNT_Y;
        assert(x <= 29 && y <= 29);
        assert(0 <= (x as int) * (sz_w as int) <= 966666657) by (nonlinear_arith)
            requires
                0 <= x <= 29,
                0 <= sz_w <= 33333333,
        ;
        assert(0 <= (y as int) * (sz_h as int) <= 966666657) by (nonlinear_arith)
            requires
                0 <= y <= 29,
                0 <= sz_h <= 33333333,
        ;
        let c = grid[i];
        let e = c.excitement;
        proof {
            lemma_decay_step_le(e as int);
        }
        let e2: u64 = if e > 0 {
            e * DECAY_KEEP / DECAY_DEN
        } else {
            0
        };
        let stepped = BonkRect {
            pos_x: (x as u64 * sz_w) as i64 - off_w as i64,
            pos_y: (y as u64 * sz_h) as i64 - off_h as i64,
            width: dim_w,
            height: dim_h,
            excitement: e2,
            hue: c.hue,
            sleeping: c.sleeping || e2 < SLEEP_EPS,
        };
        proof {
            assert(stepped == step_cell(
                old(grid)@[i as int],
                i as int / (RECT_COUNT_Y as int),
                i as int % (RECT_COUNT_Y as int),
                win_w as int,
                win_h as int,
            ));
        }
        grid[i] = stepped;
        i = i + 1;
    }
    proof {
        assert(grid@ =~= stepped_grid(old(grid)@, win_w as int, win_h as int));
    }
}

/// Advance the whole state by one tick, from the host's inputs: the clock
/// reading, the mouse position and the window's inner extents.
pub fn update(m: &mut Model, now_ms: u64, mouse_x: i64, mouse_y: i64, win_w: u64, win_h: u64)
    requires
        old(m).wf(),
        now_ms >= old(m).cur_time_ms,
        -MAX_COORD <= mouse_x <= MAX_COORD,
        -MAX_COORD <= mouse_y <= MAX_COORD,
        0 < win_w <= MAX_DIM,
        0 < win_h <= MAX_DIM,
    ensures
        final(m)@ == spec_update(
            old(m)@,
            now_ms as int,
            mouse_x as int,
            mouse_y as int,
            win_w as int,
            win_h as int,
        ),
        final(m).wf(),
{
    m.prev_time_ms = m.cur_time_ms;
    m.cur_time_ms = now_ms;
    m.time_delta_ms = now_ms - m.prev_time_ms;

    m.prev_mouse_x = m.cur_mouse_x;
    m.prev_mouse_y = m.cur_mouse_y;
    m.cur_mouse_x = mouse_x;
    m.cur_mouse_y = mouse_y;
    m.mouse_speed = mouse_speed(
        m.prev_mouse_x,
        m.prev_mouse_y,
        m.cur_mouse_x,
        m.cur_mouse_y,
        m.time_delta_ms,
    );
    proof {
        lemma_speed_nonneg(
            old(m)@.cur_mouse_x,
            old(m)@.cur_mouse_y,
            mouse_x as int,
            mouse_y as int,
            tick_delta(old(m)@, now_ms as int),
        );
    }

    update_rects(&mut m.grid, win_w, win_h);

    m.color_pos = advance_color(m.color_pos, m.mouse_speed);

    let (fx, fy) = get_rect_mouse_is_in(mouse_x, mouse_y, win_w, win_h);
    let bonk = fx != m.focused_x || fy != m.focused_y;
    m.focused_x = fx;
    m.focused_y = fy;

    if bonk {
        let speed_percent: u64 = if m.mouse_speed > SPEED_LIMIT_MILLI {
            SPEED_LIMIT_MILLI
        } else {
            m.mouse_speed
        };
        let idx: usize = fx * RECT_COUNT_Y + fy;
        let mut c = m.grid[idx];
        c.excitement = speed_percent * MILLI;
        c.hue = m.color_pos;
        c.sleeping = false;
        m.grid[idx] = c;
    }
}

} // verus!
