//! Game-state simulation for a terminal arcade shooter: a player ship at the
//! bottom of a fixed-size field fires projectiles upward at a formation of
//! invaders that marches side to side, descends at the edges, and speeds up
//! as it descends. The library holds the entity models, their per-tick
//! update rules, collision detection, the win/lose decision, and the
//! frame-diff computation behind the double-buffered renderer; keyboard,
//! audio and terminal output live outside it.

use vstd::prelude::*;

pub mod frame;
pub mod game;
pub mod invader;
pub mod player;
pub mod render;
pub mod shot;
pub mod timer;

verus! {

/// Height of the play field, in rows.
pub const NUM_ROWS: usize = 20;

/// Width of the play field, in columns.
pub const NUM_COLS: usize = 40;

} // verus!
