use bonk_grid::cell::BonkRect;
use bonk_grid::color::advance_color;
use bonk_grid::isqrt::isqrt;
use bonk_grid::mapping::get_rect_mouse_is_in;
use bonk_grid::model::update;
use bonk_grid::model::update_rects;
use bonk_grid::model::Model;
use bonk_grid::render::render;
use bonk_grid::speed::mouse_speed;

// A window of 320 by 400 pixels; mouse (-96, -128) maps to cell (5, 5) and is
// 160 pixels from the origin (a 96-128-160 right triangle).
const WIN_W: u64 = 320;
const WIN_H: u64 = 400;

#[test]
fn isqrt_small_values() {
    assert_eq!(isqrt(0), 0);
    assert_eq!(isqrt(1), 1);
    assert_eq!(isqrt(3), 1);
    assert_eq!(isqrt(4), 2);
    assert_eq!(isqrt(99), 9);
    assert_eq!(isqrt(100), 10);
}

#[test]
fn isqrt_large_values() {
    assert_eq!(isqrt(9999999999), 99999);
    assert_eq!(isqrt(8999999999999999999), 2999999999);
}

#[test]
fn speed_is_distance_over_time() {
    // 96-128-160 triangle: 160 px in 16 ms is 10 px/ms, 10000 milli-px/ms.
    assert_eq!(mouse_speed(0, 0, -96, -128, 16), 10000);
    // The same distance in 32 ms is half the speed.
    assert_eq!(mouse_speed(0, 0, -96, -128, 32), 5000);
    // A 3-4-5 triangle with sub-pixel precision: 5 px in 2 ms.
    assert_eq!(mouse_speed(10, 10, 13, 14, 2), 2500);
}

#[test]
fn speed_zero_elapsed_time_is_zero() {
    // No elapsed time short-circuits to 0 instead of dividing by zero.
    assert_eq!(mouse_speed(0, 0, -96, -128, 0), 0);
    assert_eq!(mouse_speed(5, 5, 5, 5, 0), 0);
}

#[test]
fn mapping_center_window() {
    assert_eq!(get_rect_mouse_is_in(-96, -128, WIN_W, WIN_H), (5, 5));
    // The window center maps a little past the middle of the grid.
    assert_eq!(get_rect_mouse_is_in(0, 0, WIN_W, WIN_H), (14, 14));
}

#[test]
fn mapping_clamps_out_of_range() {
    // Far outside the window the index is clamped to the grid.
    assert_eq!(get_rect_mouse_is_in(-1000000, -1000000, WIN_W, WIN_H), (0, 0));
    assert_eq!(get_rect_mouse_is_in(1000000, 1000000, WIN_W, WIN_H), (29, 29));
}

#[test]
fn color_advances_by_half_the_speed() {
    assert_eq!(advance_color(0, 10000), 5000);
    assert_eq!(advance_color(5000, 503), 5251);
}

#[test]
fn color_wraps_once_past_a_turn() {
    assert_eq!(advance_color(359000, 4000), 1000);
    assert_eq!(advance_color(0, 720002), 1);
    // Landing exactly on a full turn stays there until the next advance.
    assert_eq!(advance_color(359000, 2000), 360000);
    assert_eq!(advance_color(360000, 2), 1);
    // A jump of more than two turns is pulled back only once per tick.
    assert_eq!(advance_color(360000, 1440000), 720000);
}

#[test]
fn new_cell_is_asleep() {
    let c = BonkRect::new();
    assert_eq!(c.excitement, 0);
    assert_eq!(c.hue, 0);
    assert!(c.sleeping);
    assert_eq!((c.pos_x, c.pos_y, c.width, c.height), (0, 0, 1000, 1000));
}

#[test]
fn new_model_is_dark() {
    let m = Model::new(7);
    assert_eq!(m.grid.len(), 900);
    assert!(m.grid.iter().all(|c| c.sleeping && c.excitement == 0));
    assert_eq!(m.cur_time_ms, 7);
    assert_eq!(m.prev_time_ms, 7);
    assert_eq!(m.color_pos, 0);
    assert_eq!((m.focused_x, m.focused_y), (0, 0));
    assert!(render(&m).is_empty());
}

#[test]
fn first_bonk_scenario() {
    // Fresh grid; the mouse moves from the origin to cell (5, 5) in one
    // 16 ms tick covering 160 px: speed 10 px/ms, clamped to the limit of
    // 1 px/ms, so the cell wakes at full excitement.
    let mut m = Model::new(0);
    update(&mut m, 16, -96, -128, WIN_W, WIN_H);
    assert_eq!(m.time_delta_ms, 16);
    assert_eq!(m.mouse_speed, 10000);
    assert_eq!(m.color_pos, 5000);
    assert_eq!((m.focused_x, m.focused_y), (5, 5));
    let bonked = m.grid[5 * 30 + 5];
    assert_eq!(bonked.excitement, 1000000);
    assert_eq!(bonked.hue, 5000);
    assert!(!bonked.sleeping);
    for (i, c) in m.grid.iter().enumerate() {
        if i != 5 * 30 + 5 {
            assert!(c.sleeping);
            assert_eq!(c.excitement, 0);
        }
    }
}

#[test]
fn bonked_cell_geometry() {
    let mut m = Model::new(0);
    update(&mut m, 16, -96, -128, WIN_W, WIN_H);
    let bonked = m.grid[5 * 30 + 5];
    // Cell extent: 320000/30 and 400000/30 milli-pixels, minus a pixel gap;
    // position: 5 extents minus the window extent divided by 2.2.
    assert_eq!((bonked.pos_x, bonked.pos_y), (-92124, -115153));
    assert_eq!((bonked.width, bonked.height), (9666, 12333));
}

#[test]
fn decay_follows_the_geometric_trajectory() {
    let mut m = Model::new(0);
    update(&mut m, 16, -96, -128, WIN_W, WIN_H);
    // The mouse stays put, so nothing is re-bonked and the cell decays by
    // 2% (rounded down) per tick.
    let mut expected: u64 = 1000000;
    for tick in 1..=10u64 {
        update(&mut m, 16 + 16 * tick, -96, -128, WIN_W, WIN_H);
        expected = expected * 98 / 100;
        assert_eq!(m.grid[5 * 30 + 5].excitement, expected);
    }
    assert_eq!(expected, 817070);
    // Stay close to the exact geometric decay 0.98^n.
    let ideal = 1.0e6 * 0.98f64.powi(10);
    assert!((expected as f64 - ideal).abs() < 50.0);
}

#[test]
fn sleep_flips_when_decay_crosses_the_epsilon() {
    let mut m = Model::new(0);
    update(&mut m, 16, -96, -128, WIN_W, WIN_H);
    // 0.98^n falls below the epsilon of 0.001 around n = 342; with
    // rounded-down 2% decay the threshold is crossed at tick 341.
    let mut expected: u64 = 1000000;
    let mut flip_tick: u64 = 0;
    for tick in 1..=400u64 {
        update(&mut m, 16 + 16 * tick, -96, -128, WIN_W, WIN_H);
        expected = expected * 98 / 100;
        let c = m.grid[5 * 30 + 5];
        assert_eq!(c.excitement, expected);
        assert_eq!(c.sleeping, expected < 1000);
        if c.sleeping && flip_tick == 0 {
            flip_tick = tick;
        }
    }
    assert_eq!(flip_tick, 341);
    assert!(0.98f64.powi(342) * 1.0e6 < 1000.0);
    assert!(0.98f64.powi(341) * 1.0e6 >= 1000.0 - 50.0);
}

#[test]
fn excitement_never_rises_without_a_bonk() {
    let mut m = Model::new(0);
    update(&mut m, 16, -96, -128, WIN_W, WIN_H);
    let mut last = m.grid[5 * 30 + 5].excitement;
    for tick in 1..=600u64 {
        update(&mut m, 16 + 16 * tick, -96, -128, WIN_W, WIN_H);
        let e = m.grid[5 * 30 + 5].excitement;
        assert!(e <= last);
        last = e;
    }
    assert_eq!(last, 0);
}

#[test]
fn staying_in_a_cell_bonks_only_once() {
    // Ten ticks inside cell (5, 5): only the first one is a bonk; the hue
    // stays frozen even though the color accumulator keeps advancing.
    let mut m = Model::new(0);
    update(&mut m, 16, -96, -128, WIN_W, WIN_H);
    assert_eq!(m.grid[5 * 30 + 5].hue, 5000);
    let mut expected: u64 = 1000000;
    for tick in 1..=9u64 {
        // Jitter between two positions that both map to cell (5, 5).
        let (mx, my) = if tick % 2 == 0 { (-96, -128) } else { (-95, -120) };
        update(&mut m, 16 + 16 * tick, mx, my, WIN_W, WIN_H);
        let c = m.grid[5 * 30 + 5];
        expected = expected * 98 / 100;
        assert_eq!((m.focused_x, m.focused_y), (5, 5));
        assert_eq!(c.hue, 5000);
        assert_eq!(c.excitement, expected);
        assert!(!c.sleeping);
    }
    // The accumulator moved on while the hue stayed.
    assert!(m.color_pos > 5000);
}

#[test]
fn resize_recomputes_all_geometry() {
    let mut m = Model::new(0);
    update(&mut m, 16, -96, -128, WIN_W, WIN_H);
    // The window changes to 640 by 300 between ticks: every cell's geometry
    // follows the new extents on the very next tick.
    update(&mut m, 32, -96, -128, 640, 300);
    let c00 = m.grid[0];
    assert_eq!((c00.pos_x, c00.pos_y), (-290909, -136363));
    assert_eq!((c00.width, c00.height), (20333, 9000));
    let c2929 = m.grid[29 * 30 + 29];
    assert_eq!((c2929.pos_x, c2929.pos_y), (327748, 153637));
    for c in m.grid.iter() {
        assert_eq!((c.width, c.height), (20333, 9000));
    }
}

#[test]
fn update_rects_decays_and_sleeps() {
    let mut grid = vec![BonkRect::new(); 900];
    grid[3].excitement = 1000;
    grid[3].sleeping = false;
    grid[4].excitement = 1020;
    grid[4].sleeping = false;
    update_rects(&mut grid, WIN_W, WIN_H);
    // 1000 decays to 980, under the epsilon: the cell goes to sleep.
    assert_eq!(grid[3].excitement, 980);
    assert!(grid[3].sleeping);
    // 1020 decays to 999 (rounded down), also under the epsilon.
    assert_eq!(grid[4].excitement, 999);
    assert!(grid[4].sleeping);
}

#[test]
fn render_draws_exactly_the_awake_cells() {
    let mut m = Model::new(0);
    assert!(render(&m).is_empty());
    update(&mut m, 16, -96, -128, WIN_W, WIN_H);
    let cmds = render(&m);
    assert_eq!(cmds.len(), 1);
    let cmd = cmds[0];
    assert_eq!((cmd.x, cmd.y), (-92124, -115153));
    assert_eq!((cmd.width, cmd.height), (9666, 12333));
    assert_eq!(cmd.hue, 5000);
    assert_eq!(cmd.saturation, 1000);
    // Lightness is half the excitement.
    assert_eq!(cmd.lightness, 500000);
}

#[test]
fn render_keeps_grid_order() {
    let mut m = Model::new(0);
    // Wake two cells by visiting them on separate ticks.
    update(&mut m, 16, -96, -128, WIN_W, WIN_H);
    update(&mut m, 32, 0, 0, WIN_W, WIN_H);
    let cmds = render(&m);
    assert_eq!(cmds.len(), 2);
    // Cell (5, 5) comes before cell (14, 14) in row-major order.
    assert!(cmds[0].x < cmds[1].x);
}

#[test]
fn slow_mouse_scales_excitement() {
    // 5 px in 10 ms is 0.5 px/ms: half the speed limit, so the bonked cell
    // gets excitement 0.5.
    let mut m = Model::new(0);
    update(&mut m, 10, 3, 4, WIN_W, WIN_H);
    let (fx, fy) = (m.focused_x, m.focused_y);
    assert_eq!(m.mouse_speed, 500);
    assert_eq!(m.grid[fx * 30 + fy].excitement, 500000);
}
