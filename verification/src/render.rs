//! The draw pass as a pure function: from the grid to the list of rectangle
//! commands a host should rasterize over a black background.

use vstd::prelude::*;

use crate::cell::BonkRect;
use crate::model::Model;
use crate::MILLI;

verus! {

/// One filled rectangle to draw: geometry in milli-pixels, color as HSL with
/// `hue` in milli-degrees, `saturation` in milli-units (always full) and
/// `lightness` in micro-units (half the cell's excitement).
#[derive(Clone, Copy, PartialEq, Eq, Structural, Debug)]
pub struct RectCmd {
    pub x: i64,
    pub y: i64,
    pub width: i64,
    pub height: i64,
    pub hue: u64,
    pub saturation: u64,
    pub lightness: u64,
}

/// The command that draws one cell.
pub open spec fn cmd_of(c: BonkRect) -> RectCmd {
    RectCmd {
        x: c.pos_x,
        y: c.pos_y,
        width: c.width,
        height: c.height,
        hue: c.hue,
        saturation: MILLI,
        lightness: (c.excitement as int / 2) as u64,
    }
}

/// The commands for the first `n` cells: one per awake cell, in grid order;
/// sleeping cells are not drawn.
pub open spec fn rendered_prefix(g: Seq<BonkRect>, n: int) -> Seq<RectCmd>
    decreases n,
{
    if n <= 0 {
        Seq::empty()
    } else {
        rendered_prefix(g, n - 1) + if g[n - 1].sleeping {
            Seq::empty()
        } else {
            seq![cmd_of(g[n - 1])]
        }
    }
}

/// The commands for the whole grid.
pub open spec fn rendered(g: Seq<BonkRect>) -> Seq<RectCmd> {
    rendered_prefix(g, g.len() as int)
}

/// How many of the first `n` cells are awake.
pub open spec fn awake_count(g: Seq<BonkRect>, n: int) -> int
    decreases n,
{
    if n <= 0 {
        0
    } else {
        awake_count(g, n - 1) + if g[n - 1].sleeping {
            0int
        } else {
            1int
        }
    }
}

/// A cell is drawn if and only if it is not sleeping: the draw pass emits
/// exactly one command per awake cell.
pub proof fn lemma_drawn_iff_awake(g: Seq<BonkRect>, n: int)
    ensures
        rendered_prefix(g, n).len() == awake_count(g, n),
    decreases n,
{
    if n > 0 {
        lemma_drawn_iff_awake(g, n - 1);
    }
}

/// Produce the draw commands for the current state, in grid order. The host
/// clears the frame to black and then rasterizes these.
pub fn render(m: &Model) -> (r: Vec<RectCmd>)
    ensures
        r@ == rendered(m@.grid),
{
    let mut r: Vec<RectCmd> = Vec::new();
    let mut i: usize = 0;
    let n: usize = m.grid.len();
    while i < n
        invariant
            i <= n,
            n == m.grid@.len(),
            r@ == rendered_prefix(m.grid@, i as int),
        decreases n - i,
    {
        let c = m.grid[i];
        if !c.sleeping {
            let cmd = RectCmd {
                x: c.pos_x,
                y: c.pos_y,
                width: c.width,
                height: c.height,
                hue: c.hue,
                saturation: MILLI,
                lightness: c.excitement / 2,
            };
            r.push(cmd);
        }
        i = i + 1;
    }
    r
}

} // verus!
