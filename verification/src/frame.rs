//! A render target: one snapshot of the play field's visual contents. The
//! grid is rebuilt fresh every tick and compared against the previous
//! snapshot by the renderer, so it is a pure value with cell reads and
//! writes and no game state of its own.

use vstd::prelude::*;
use crate::NUM_COLS;
use crate::NUM_ROWS;

verus! {

/// Glyph of an empty cell.
pub const EMPTY_GLYPH: char = ' ';

/// Glyph of the player's ship.
pub const SHIP_GLYPH: char = 'A';

/// Invader glyph during the first half of the swarm's move period.
pub const INVADER_GLYPH_A: char = 'x';

/// Invader glyph during the second half of the swarm's move period.
pub const INVADER_GLYPH_B: char = '+';

/// Glyph of a projectile in flight.
pub const SHOT_GLYPH: char = '|';

/// Glyph of a projectile's explosion.
pub const EXPLOSION_GLYPH: char = '*';

/// A `NUM_COLS` x `NUM_ROWS` grid of glyphs, stored column-major: the cell
/// at column `x`, row `y` sits at index `x * NUM_ROWS + y`.
pub struct Frame {
    pub cells: Vec<char>,
}

impl Frame {
    /// The grid holds exactly one glyph per cell of the play field.
    pub open spec fn wf(self) -> bool {
        self.cells@.len() == NUM_COLS * NUM_ROWS
    }

    /// The glyph at column `x`, row `y`.
    pub open spec fn at(self, x: int, y: int) -> char {
        self.cells@[x * NUM_ROWS + y]
    }

    /// A frame with every cell empty.
    pub fn new() -> (f: Frame)
        ensures
            f.wf(),
            forall|x: int, y: int|
                0 <= x < NUM_COLS && 0 <= y < NUM_ROWS ==> f.at(x, y) == EMPTY_GLYPH,
    {
        Frame { cells: vec![EMPTY_GLYPH; NUM_COLS * NUM_ROWS] }
    }

    /// Read the glyph at column `x`, row `y`.
    pub fn get(&self, x: usize, y: usize) -> (g: char)
        requires
            self.wf(),
            x < NUM_COLS,
            y < NUM_ROWS,
        ensures
            g == self.at(x as int, y as int),
    {
        self.cells[x * NUM_ROWS + y]
    }

    /// Write `glyph` at column `x`, row `y`, leaving every other cell as it
    /// was.
    pub fn set(&mut self, x: usize, y: usize, glyph: char)
        requires
            old(self).wf(),
            x < NUM_COLS,
            y < NUM_ROWS,
        ensures
            final(self).wf(),
            final(self).at(x as int, y as int) == glyph,
            forall|xx: int, yy: int|
                0 <= xx < NUM_COLS && 0 <= yy < NUM_ROWS && !(xx == x && yy == y)
                    ==> final(self).at(xx, yy) == old(self).at(xx, yy),
    {
        self.cells.set(x * NUM_ROWS + y, glyph);
    }
}

/// The capability to render oneself into a frame: implemented by the player
/// (ship and projectiles) and by the invader swarm. `rendered` states, per
/// implementor, exactly which cells the draw touched and with what.
pub trait Drawable {
    /// The state the implementor must be in for its draw to stay on the
    /// field.
    spec fn valid(&self) -> bool;

    /// How the frame after the draw relates to the frame before it.
    spec fn rendered(&self, before: Frame, after: Frame) -> bool;

    /// Draw this entity's glyphs into `frame`.
    fn draw(&self, frame: &mut Frame)
        requires
            self.valid(),
            old(frame).wf(),
        ensures
            final(frame).wf(),
            self.rendered(*old(frame), *final(frame)),
    ;
}

} // verus!
