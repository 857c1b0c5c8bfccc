//! The player's ship: a position on the bottom row, movement clamped to the
//! field, a rate-limited collection of projectiles, and the cross-check of
//! those projectiles against the invader swarm.

use vstd::prelude::*;
use crate::NUM_COLS;
use crate::NUM_ROWS;
use crate::frame::Drawable;
use crate::frame::Frame;
use crate::frame::SHIP_GLYPH;
use crate::invader::Invader;
use crate::invader::Invaders;
use crate::invader::after_kill;
use crate::invader::occupied;
use crate::shot::Shot;

verus! {

/// The most projectiles that may be live at once; a further `shoot` is
/// refused.
pub const MAX_SHOTS: usize = 2;

/// The player's ship and its projectiles. The ship sits on the bottom row
/// and only moves horizontally.
pub struct Player {
    pub x: usize,
    pub y: usize,
    pub shots: Vec<Shot>,
}

/// The projectiles left, in order, after `delta_ms` elapse for each of
/// `shots` and the dead ones are purged.
pub open spec fn live_after(shots: Seq<Shot>, delta_ms: u64) -> Seq<Shot>
    decreases shots.len(),
{
    if shots.len() == 0 {
        Seq::empty()
    } else {
        let first = shots[0].stepped(delta_ms);
        let rest = live_after(shots.skip(1), delta_ms);
        if first.is_dead() {
            rest
        } else {
            seq![first] + rest
        }
    }
}

/// What one pass of `detect_hits` leaves behind, walking the projectiles in
/// order against the army as the earlier hits of the same pass left it: the
/// projectiles after the pass, the army after the pass, and whether any hit
/// occurred. A flying projectile over an occupied cell kills the first
/// invader there and switches to its explosion; an exploding projectile is
/// skipped.
pub open spec fn process_hits(shots: Seq<Shot>, army: Seq<Invader>) -> (Seq<Shot>, Seq<
    Invader,
>, bool)
    decreases shots.len(),
{
    if shots.len() == 0 {
        (shots, army, false)
    } else {
        let s = shots[0];
        if !s.exploding && occupied(army, s.x as int, s.y as int) {
            let rest = process_hits(shots.skip(1), after_kill(army, s.x as int, s.y as int));
            (seq![s.spec_exploded()] + rest.0, rest.1, true)
        } else {
            let rest = process_hits(shots.skip(1), army);
            (seq![s] + rest.0, rest.1, rest.2)
        }
    }
}

impl Player {
    /// The ship sits on the bottom row; at most `MAX_SHOTS` projectiles
    /// exist, each on the field, none dead, each with a running countdown.
    pub open spec fn wf(self) -> bool {
        &&& self.x < NUM_COLS
        &&& self.y == NUM_ROWS - 1
        &&& self.shots@.len() <= MAX_SHOTS
        &&& forall|i: int|
            0 <= i < self.shots@.len() ==> (#[trigger] self.shots@[i]).wf()
                && !self.shots@[i].is_dead() && self.shots@[i].timer.time_left_ms >= 1
    }

    /// The player after one step left: one column over, stopping at the left
    /// field edge.
    pub open spec fn moved_left(self) -> Player {
        Player {
            x: if self.x > 0 {
                (self.x - 1) as usize
            } else {
                0usize
            },
            ..self
        }
    }

    /// The player after one step right: one column over, stopping at the
    /// right field edge.
    pub open spec fn moved_right(self) -> Player {
        Player {
            x: if self.x < NUM_COLS - 1 {
                (self.x + 1) as usize
            } else {
                self.x
            },
            ..self
        }
    }

    /// A fresh player: centered on the bottom row, with no projectiles.
    pub fn new() -> (p: Player)
        ensures
            p.wf(),
            p.x == NUM_COLS / 2,
            p.y == NUM_ROWS - 1,
            p.shots@.len() == 0,
    {
        Player { x: NUM_COLS / 2, y: NUM_ROWS - 1, shots: Vec::new() }
    }

    /// Step one column left; a no-op at the left field edge.
    pub fn move_left(&mut self)
        ensures
            *final(self) == old(self).moved_left(),
            old(self).wf() ==> final(self).wf(),
    {
        if self.x > 0 {
            self.x = self.x - 1;
        }
    }

    /// Step one column right; a no-op at the right field edge.
    pub fn move_right(&mut self)
        ensures
            *final(self) == old(self).moved_right(),
            old(self).wf() ==> final(self).wf(),
    {
        if self.x < NUM_COLS - 1 {
            self.x = self.x + 1;
        }
    }

    /// Fire a projectile from one row above the ship, unless `MAX_SHOTS`
    /// projectiles already exist; returns whether one was fired.
    pub fn shoot(&mut self) -> (fired: bool)
        requires
            old(self).wf(),
        ensures
            final(self).wf(),
            fired == (old(self).shots@.len() < MAX_SHOTS),
            fired ==> final(self).shots@ == old(self).shots@.push(
                Shot::spec_new(old(self).x, (old(self).y - 1) as usize),
            ),
            !fired ==> *final(self) == *old(self),
            final(self).x == old(self).x,
            final(self).y == old(self).y,
    {
        if self.shots.len() < MAX_SHOTS {
            let s = Shot::new(self.x, self.y - 1);
            self.shots.push(s);
            true
        } else {
            false
        }
    }

    /// Let `delta_ms` milliseconds elapse for every projectile, then purge
    /// the dead ones — in that order, so a projectile that dies this tick is
    /// removed in the same call.
    pub fn update(&mut self, delta_ms: u64)
        requires
            old(self).wf(),
        ensures
            final(self).wf(),
            final(self).x == old(self).x,
            final(self).y == old(self).y,
            final(self).shots@ == live_after(old(self).shots@, delta_ms),
            delta_ms == 0 ==> final(self).shots@ == old(self).shots@,
    {
        let ghost orig = self.shots@;
        let mut kept: Vec<Shot> = Vec::new();
        let mut i: usize = 0;
        proof {
            assert(orig.skip(0) =~= orig);
        }
        while i < self.shots.len()
            invariant
                i <= self.shots@.len(),
                self.shots@ == orig,
                self.x == old(self).x,
                self.y == old(self).y,
                old(self).wf(),
                kept@.len() <= i,
                forall|j: int|
                    0 <= j < kept@.len() ==> (#[trigger] kept@[j]).wf() && !kept@[j].is_dead()
                        && kept@[j].timer.time_left_ms >= 1,
                live_after(orig, delta_ms) == kept@ + live_after(
                    orig.skip(i as int),
                    delta_ms,
                ),
                delta_ms == 0 ==> kept@ == orig.take(i as int),
            decreases self.shots@.len() - i,
        {
            let mut s = self.shots[i];
            proof {
                assert(orig.skip(i as int)[0] == orig[i as int]);
                assert(orig.skip(i as int).skip(1) =~= orig.skip(i + 1));
            }
            s.update(delta_ms);
            if !s.dead() {
                let ghost kept_before = kept@;
                kept.push(s);
                proof {
                    assert(kept_before.push(s) + live_after(orig.skip(i + 1), delta_ms)
                        =~= kept_before + (seq![s] + live_after(orig.skip(i + 1), delta_ms)));
                    if s.timer.time_left_ms == 0 {
                        assert(s.timer.ready);
                        assert(!s.exploding && s.y == 0);
                    }
                    if delta_ms == 0 {
                        assert(s == orig[i as int]);
                        assert(kept@ =~= orig.take(i + 1));
                    }
                }
            }
            i = i + 1;
        }
        proof {
            assert(orig.skip(orig.len() as int) =~= Seq::<Shot>::empty());
            assert(live_after(orig, delta_ms) =~= kept@ + live_after(
                orig.skip(orig.len() as int),
                delta_ms,
            ));
            assert(kept@ + Seq::<Shot>::empty() =~= kept@);
            if delta_ms == 0 {
                assert(orig.take(orig.len() as int) =~= orig);
            }
        }
        self.shots = kept;
    }

    /// Walk the projectiles in order; each flying one over a cell an invader
    /// occupies kills the first invader there and switches to its explosion
    /// animation (so it cannot score again while the animation plays).
    /// Returns whether at least one hit occurred.
    pub fn detect_hits(&mut self, invaders: &mut Invaders) -> (hit: bool)
        requires
            old(self).wf(),
        ensures
            final(self).wf(),
            old(invaders).wf() ==> final(invaders).wf(),
            final(self).x == old(self).x,
            final(self).y == old(self).y,
            final(invaders).move_timer == old(invaders).move_timer,
            final(invaders).direction == old(invaders).direction,
            (final(self).shots@, final(invaders).army@, hit) == process_hits(
                old(self).shots@,
                old(invaders).army@,
            ),
    {
        let ghost shots0 = self.shots@;
        let ghost army0 = invaders.army@;
        let ghost p = process_hits(shots0, army0);
        let mut hit = false;
        let mut i: usize = 0;
        proof {
            assert(self.shots@.skip(0) =~= self.shots@);
            assert(self.shots@.take(0) + process_hits(self.shots@.skip(0), invaders.army@).0
                =~= process_hits(self.shots@, invaders.army@).0);
        }
        while i < self.shots.len()
            invariant
                i <= self.shots@.len(),
                shots0 == old(self).shots@,
                army0 == old(invaders).army@,
                p == process_hits(shots0, army0),
                self.shots@.len() == shots0.len(),
                self.x == old(self).x,
                self.y == old(self).y,
                invaders.move_timer == old(invaders).move_timer,
                invaders.direction == old(invaders).direction,
                old(invaders).wf() ==> invaders.wf(),
                forall|j: int| i <= j < shots0.len() ==> #[trigger] self.shots@[j] == shots0[j],
                forall|j: int|
                    0 <= j < i ==> (#[trigger] self.shots@[j]).wf() && !self.shots@[j].is_dead()
                        && self.shots@[j].timer.time_left_ms >= 1,
                old(self).wf(),
                p.0 == self.shots@.take(i as int) + process_hits(
                    self.shots@.skip(i as int),
                    invaders.army@,
                ).0,
                p.1 == process_hits(self.shots@.skip(i as int), invaders.army@).1,
                p.2 == (hit || process_hits(self.shots@.skip(i as int), invaders.army@).2),
            decreases self.shots@.len() - i,
        {
            let ghost pre_shots = self.shots@;
            let ghost pre_army = invaders.army@;
            proof {
                assert(pre_shots.skip(i as int)[0] == pre_shots[i as int]);
                assert(pre_shots.skip(i as int).skip(1) =~= pre_shots.skip(i + 1));
            }
            let s = self.shots[i];
            proof {
                assert(s == old(self).shots@[i as int]);
                assert(old(self).shots@[i as int].wf() && !old(self).shots@[
                    i as int
                ].is_dead() && old(self).shots@[i as int].timer.time_left_ms >= 1);
            }
            if !s.exploding {
                if invaders.kill_invader_at(s.x, s.y) {
                    hit = true;
                    let mut s2 = s;
                    s2.explode();
                    self.shots.set(i, s2);
                    proof {
                        assert(self.shots@.skip(i + 1) =~= pre_shots.skip(i + 1));
                        assert(self.shots@.take(i + 1) =~= pre_shots.take(i as int).push(s2));
                        assert(pre_shots.take(i as int).push(s2) + process_hits(
                            self.shots@.skip(i + 1),
                            invaders.army@,
                        ).0 =~= pre_shots.take(i as int) + (seq![s2] + process_hits(
                            self.shots@.skip(i + 1),
                            invaders.army@,
                        ).0));
                    }
                } else {
                    proof {
                        assert(self.shots@.take(i + 1) =~= self.shots@.take(i as int).push(
                            s,
                        ));
                        assert(self.shots@.take(i as int).push(s) + process_hits(
                            self.shots@.skip(i + 1),
                            invaders.army@,
                        ).0 =~= self.shots@.take(i as int) + (seq![s] + process_hits(
                            self.shots@.skip(i + 1),
                            invaders.army@,
                        ).0));
                    }
                }
            } else {
                proof {
                    assert(self.shots@.take(i + 1) =~= self.shots@.take(i as int).push(s));
                    assert(self.shots@.take(i as int).push(s) + process_hits(
                        self.shots@.skip(i + 1),
                        invaders.army@,
                    ).0 =~= self.shots@.take(i as int) + (seq![s] + process_hits(
                        self.shots@.skip(i + 1),
                        invaders.army@,
                    ).0));
                }
            }
            i = i + 1;
        }
        proof {
            assert(self.shots@.skip(self.shots@.len() as int) =~= Seq::<Shot>::empty());
            assert(self.shots@.take(self.shots@.len() as int) =~= self.shots@);
            assert(self.shots@ + Seq::<Shot>::empty() =~= self.shots@);
        }
        hit
    }
}

/// The glyph the projectiles of `shots` leave at column `x`, row `y` once
/// each has drawn itself in order — the last one at that cell wins — or
/// `None` when none of them sits there.
pub open spec fn shot_glyph_at(shots: Seq<Shot>, x: int, y: int) -> Option<char>
    decreases shots.len(),
{
    if shots.len() == 0 {
        None
    } else if shots.last().x == x && shots.last().y == y {
        Some(shots.last().glyph())
    } else {
        shot_glyph_at(shots.drop_last(), x, y)
    }
}

impl Drawable for Player {
    open spec fn valid(&self) -> bool {
        self.wf()
    }

    /// The draw writes the ship's glyph at the ship's cell, then each
    /// projectile's glyph at the projectile's cell, in order, and touches
    /// nothing else.
    open spec fn rendered(&self, before: Frame, after: Frame) -> bool {
        forall|xx: int, yy: int|
            0 <= xx < NUM_COLS && 0 <= yy < NUM_ROWS
                ==> #[trigger] after.at(xx, yy) == match shot_glyph_at(self.shots@, xx, yy) {
                    Some(g) => g,
                    None => if xx == self.x && yy == self.y {
                        SHIP_GLYPH
                    } else {
                        before.at(xx, yy)
                    },
                }
    }

    fn draw(&self, frame: &mut Frame) {
        let ghost start = *frame;
        frame.set(self.x, self.y, SHIP_GLYPH);
        let mut i: usize = 0;
        while i < self.shots.len()
            invariant
                i <= self.shots@.len(),
                frame.wf(),
                self.wf(),
                forall|xx: int, yy: int|
                    0 <= xx < NUM_COLS && 0 <= yy < NUM_ROWS
                        ==> #[trigger] frame.at(xx, yy) == match shot_glyph_at(
                            self.shots@.take(i as int),
                            xx,
                            yy,
                        ) {
                            Some(g) => g,
                            None => if xx == self.x && yy == self.y {
                                SHIP_GLYPH
                            } else {
                                start.at(xx, yy)
                            },
                        },
            decreases self.shots@.len() - i,
        {
            let s = self.shots[i];
            proof {
                assert(self.shots@[i as int].wf());
            }
            s.draw(frame);
            proof {
                assert(self.shots@.take(i + 1).drop_last() =~= self.shots@.take(i as int));
                assert(self.shots@.take(i + 1).last() == self.shots@[i as int]);
            }
            i = i + 1;
        }
        proof {
            assert(self.shots@.take(self.shots@.len() as int) =~= self.shots@);
        }
    }
}

} // verus!
