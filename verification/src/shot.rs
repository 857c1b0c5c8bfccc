//! A player-fired projectile. It flies upward one row at a time on a short
//! countdown, switches to a fixed-length explosion animation when it hits an
//! invader, and is dead — ready to be purged — once that animation has run
//! out. A projectile that never hits anything expires when its flight
//! carries it to the top row.

use vstd::prelude::*;
use crate::NUM_COLS;
use crate::NUM_ROWS;
use crate::frame::Drawable;
use crate::frame::EXPLOSION_GLYPH;
use crate::frame::Frame;
use crate::frame::SHOT_GLYPH;
use crate::timer::MoveTimer;

verus! {

/// Milliseconds between two one-row flight steps of a projectile.
pub const SHOT_FLIGHT_PERIOD_MS: u64 = 50;

/// Length of the explosion animation, in milliseconds.
pub const SHOT_EXPLOSION_MS: u64 = 250;

/// One projectile: a position, whether it is exploding, and the countdown
/// that paces its flight (while flying) or its explosion animation (after a
/// hit).
#[derive(Clone, Copy, PartialEq, Eq, Structural, Debug)]
pub struct Shot {
    pub x: usize,
    pub y: usize,
    pub exploding: bool,
    pub timer: MoveTimer,
}

impl Shot {
    /// The projectile sits on the field and its countdown is consistent.
    pub open spec fn wf(self) -> bool {
        &&& self.x < NUM_COLS
        &&& self.y < NUM_ROWS
        &&& self.timer.wf()
    }

    /// A projectile is dead once its explosion animation has run out, or —
    /// the expiry policy for one that never hits — once its flight has
    /// carried it to the top row.
    pub open spec fn is_dead(self) -> bool {
        (self.exploding && self.timer.ready) || self.y == 0
    }

    /// The projectile `new(x, y)` returns: flying, with a full flight
    /// countdown ahead of it.
    pub open spec fn spec_new(x: usize, y: usize) -> Shot {
        Shot {
            x,
            y,
            exploding: false,
            timer: MoveTimer::spec_from_millis(SHOT_FLIGHT_PERIOD_MS),
        }
    }

    /// The state `update(delta_ms)` moves a projectile to: the countdown
    /// advances, and when it runs out on a flying projectile, the projectile
    /// climbs one row (stopping at the top row) and the countdown restarts.
    /// An exploding projectile never moves; when its countdown runs out it
    /// is dead.
    pub open spec fn stepped(self, delta_ms: u64) -> Shot {
        let t = self.timer.spec_update(delta_ms);
        if t.ready && !self.exploding {
            Shot {
                x: self.x,
                y: if self.y > 0 {
                    (self.y - 1) as usize
                } else {
                    0usize
                },
                exploding: false,
                timer: t.spec_reset(),
            }
        } else {
            Shot { timer: t, ..self }
        }
    }

    /// The state `explode` moves a projectile to: exploding, with a full
    /// explosion countdown ahead of it.
    pub open spec fn spec_exploded(self) -> Shot {
        Shot {
            exploding: true,
            timer: MoveTimer::spec_from_millis(SHOT_EXPLOSION_MS),
            ..self
        }
    }

    /// The glyph this projectile draws.
    pub open spec fn glyph(self) -> char {
        if self.exploding {
            EXPLOSION_GLYPH
        } else {
            SHOT_GLYPH
        }
    }

    /// A freshly fired projectile at column `x`, row `y`.
    pub fn new(x: usize, y: usize) -> (s: Shot)
        requires
            x < NUM_COLS,
            y < NUM_ROWS,
        ensures
            s == Shot::spec_new(x, y),
            s.wf(),
    {
        Shot { x, y, exploding: false, timer: MoveTimer::from_millis(SHOT_FLIGHT_PERIOD_MS) }
    }

    /// Let `delta_ms` milliseconds elapse for this projectile.
    pub fn update(&mut self, delta_ms: u64)
        requires
            old(self).wf(),
        ensures
            *final(self) == old(self).stepped(delta_ms),
            final(self).wf(),
    {
        self.timer.update(delta_ms);
        if self.timer.ready && !self.exploding {
            if self.y > 0 {
                self.y = self.y - 1;
            }
            self.timer.reset();
        }
    }

    /// Switch this projectile to its explosion animation after a hit.
    pub fn explode(&mut self)
        ensures
            *final(self) == old(self).spec_exploded(),
            old(self).wf() ==> final(self).wf(),
    {
        self.exploding = true;
        self.timer = MoveTimer::from_millis(SHOT_EXPLOSION_MS);
    }

    /// Whether this projectile should be purged from the player's
    /// collection.
    pub fn dead(&self) -> (d: bool)
        ensures
            d == self.is_dead(),
    {
        (self.exploding && self.timer.ready) || self.y == 0
    }
}

impl Drawable for Shot {
    open spec fn valid(&self) -> bool {
        self.wf()
    }

    /// The draw writes this projectile's glyph at its own cell and nothing
    /// else.
    open spec fn rendered(&self, before: Frame, after: Frame) -> bool {
        forall|xx: int, yy: int|
            0 <= xx < NUM_COLS && 0 <= yy < NUM_ROWS
                ==> #[trigger] after.at(xx, yy) == if xx == self.x && yy == self.y {
                    self.glyph()
                } else {
                    before.at(xx, yy)
                }
    }

    fn draw(&self, frame: &mut Frame) {
        let g = if self.exploding {
            EXPLOSION_GLYPH
        } else {
            SHOT_GLYPH
        };
        frame.set(self.x, self.y, g);
    }
}

} // verus!
