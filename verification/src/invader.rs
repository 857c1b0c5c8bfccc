//! The invader swarm: a lock-step formation that marches side to side on a
//! shared countdown, flips direction and descends one row when it touches a
//! field edge, and speeds up (its move period shrinks, floored at a minimum)
//! on every descent.

use vstd::prelude::*;
use crate::NUM_COLS;
use crate::NUM_ROWS;
use crate::frame::Drawable;
use crate::frame::Frame;
use crate::frame::INVADER_GLYPH_A;
use crate::frame::INVADER_GLYPH_B;
use crate::timer::MoveTimer;

verus! {

/// The swarm's initial move period, in milliseconds.
pub const INITIAL_MOVE_PERIOD_MS: u64 = 2000;

/// How much the move period shrinks on each descent, in milliseconds.
pub const MOVE_PERIOD_STEP_MS: u64 = 250;

/// The floor the move period never drops below, in milliseconds.
pub const MIN_MOVE_PERIOD_MS: u64 = 250;

/// One invader. Its identity is purely positional: equality for kill and
/// removal is equality of `(x, y)`.
#[derive(Clone, Copy, PartialEq, Eq, Structural, Debug)]
pub struct Invader {
    pub x: usize,
    pub y: usize,
}

/// Whether an invader sits on the play field.
pub open spec fn invader_in_bounds(inv: Invader) -> bool {
    inv.x < NUM_COLS && inv.y < NUM_ROWS
}

/// Whether some invader of `army` sits at column `x`, row `y`.
pub open spec fn occupied(army: Seq<Invader>, x: int, y: int) -> bool {
    exists|i: int|
        0 <= i < army.len() && (#[trigger] army[i]).x == x && army[i].y == y
}

/// The index of the first invader of `army` at column `x`, row `y`, or `-1`
/// when none is there.
pub open spec fn first_hit_index(army: Seq<Invader>, x: int, y: int) -> int
    decreases army.len(),
{
    if army.len() == 0 {
        -1
    } else if army[0].x == x && army[0].y == y {
        0
    } else {
        let rest = first_hit_index(army.skip(1), x, y);
        if rest < 0 {
            -1
        } else {
            rest + 1
        }
    }
}

/// The army after a kill at column `x`, row `y`: the first invader exactly
/// there is removed; when none is there the army is unchanged.
pub open spec fn after_kill(army: Seq<Invader>, x: int, y: int) -> Seq<Invader> {
    if first_hit_index(army, x, y) >= 0 {
        army.remove(first_hit_index(army, x, y))
    } else {
        army
    }
}

/// `first_hit_index` finds exactly the first invader at `(x, y)`: a
/// non-negative result points at a matching invader with no earlier match,
/// and a negative result means no invader of `army` matches.
pub proof fn lemma_first_hit_index(army: Seq<Invader>, x: int, y: int)
    ensures
        first_hit_index(army, x, y) >= 0 <==> occupied(army, x, y),
        first_hit_index(army, x, y) >= 0 ==> {
            let k = first_hit_index(army, x, y);
            &&& 0 <= k < army.len()
            &&& army[k].x == x && army[k].y == y
            &&& forall|j: int| 0 <= j < k ==> !((#[trigger] army[j]).x == x && army[j].y == y)
        },
    decreases army.len(),
{
    if army.len() == 0 {
    } else if army[0].x == x && army[0].y == y {
    } else {
        let rest = army.skip(1);
        lemma_first_hit_index(rest, x, y);
        assert forall|i: int| 0 <= i < rest.len() implies rest[i] == army[i + 1] by {}
        if first_hit_index(rest, x, y) >= 0 {
            let rk = first_hit_index(rest, x, y);
            let k = first_hit_index(army, x, y);
            assert(k == rk + 1);
            assert(army[k] == rest[rk]);
            assert forall|j: int|
                0 <= j < k implies !((#[trigger] army[j]).x == x && army[j].y == y) by {
                if j >= 1 {
                    assert(army[j] == rest[j - 1]);
                }
            }
        }
        if occupied(army, x, y) {
            let w = choose|i: int|
                0 <= i < army.len() && (#[trigger] army[i]).x == x && army[i].y == y;
            assert(w >= 1);
            assert(rest[w - 1] == army[w]);
            assert(occupied(rest, x, y));
        }
        if occupied(rest, x, y) {
            let w = choose|i: int|
                0 <= i < rest.len() && (#[trigger] rest[i]).x == x && rest[i].y == y;
            assert(army[w + 1] == rest[w]);
            assert(occupied(army, x, y));
        }
    }
}

/// Whether the swarm would spawn an invader at column `x`, row `y`: every
/// second interior column, every second row of the field's upper half.
pub open spec fn spawn_position(x: int, y: int) -> bool {
    &&& 1 < x
    &&& x < NUM_COLS - 2
    &&& 0 < y
    &&& y < NUM_ROWS as int / 2
    &&& x % 2 == 0
    &&& y % 2 == 0
}

/// Column-major order on invaders: `a` is spawned strictly before `b`.
pub open spec fn spawn_before(a: Invader, b: Invader) -> bool {
    a.x < b.x || (a.x == b.x && a.y < b.y)
}

/// The swarm: the invaders still alive, the shared countdown that paces
/// their lock-step movement, and the direction of travel (`-1` left, `1`
/// right).
pub struct Invaders {
    pub army: Vec<Invader>,
    pub move_timer: MoveTimer,
    pub direction: i32,
}

impl Invaders {
    /// Every invader sits on the field, the direction is one of the two
    /// legal values, and the countdown is consistent, at or above the period
    /// floor, and strictly running (a due countdown is consumed and restarted
    /// inside the update that observes it, never left behind).
    pub open spec fn wf(self) -> bool {
        &&& forall|i: int|
            0 <= i < self.army@.len() ==> invader_in_bounds(#[trigger] self.army@[i])
        &&& (self.direction == 1i32 || self.direction == -1i32)
        &&& self.move_timer.wf()
        &&& self.move_timer.duration_ms >= MIN_MOVE_PERIOD_MS
        &&& self.move_timer.time_left_ms >= 1
    }

    /// Whether the formation's extreme column in the direction of travel
    /// touches the corresponding field edge: moving left, the leftmost
    /// invader touches column 0 (an empty swarm counts as touching, as its
    /// extreme defaults to 0); moving right, the rightmost invader touches
    /// the last column.
    pub open spec fn at_edge(self) -> bool {
        if self.direction == -1i32 {
            self.army@.len() == 0 || exists|i: int|
                0 <= i < self.army@.len() && (#[trigger] self.army@[i]).x == 0
        } else {
            exists|i: int|
                0 <= i < self.army@.len() && (#[trigger] self.army@[i]).x == NUM_COLS - 1
        }
    }

    /// The glyph every invader draws: one glyph for the first half of the
    /// move period, the other for the second half.
    pub open spec fn glyph(self) -> char {
        if self.move_timer.time_left_ms > self.move_timer.duration_ms / 2 {
            INVADER_GLYPH_A
        } else {
            INVADER_GLYPH_B
        }
    }

    /// The freshly spawned swarm: the checkerboard of all spawn positions in
    /// column-major order, moving right, on the initial move period.
    pub fn new() -> (inv: Invaders)
        ensures
            inv.wf(),
            inv.direction == 1i32,
            inv.move_timer == MoveTimer::spec_from_millis(INITIAL_MOVE_PERIOD_MS),
            forall|i: int|
                0 <= i < inv.army@.len()
                    ==> spawn_position((#[trigger] inv.army@[i]).x as int, inv.army@[i].y as int),
            forall|x: int, y: int| spawn_position(x, y) ==> occupied(inv.army@, x, y),
            forall|i: int, j: int|
                0 <= i < j < inv.army@.len()
                    ==> spawn_before(#[trigger] inv.army@[i], #[trigger] inv.army@[j]),
    {
        let mut army: Vec<Invader> = Vec::new();
        let mut x: usize = 0;
        while x < NUM_COLS
            invariant
                x <= NUM_COLS,
                forall|i: int|
                    0 <= i < army@.len()
                        ==> spawn_position((#[trigger] army@[i]).x as int, army@[i].y as int),
                forall|cx: int, cy: int|
                    spawn_position(cx, cy) && cx < x ==> occupied(army@, cx, cy),
                forall|i: int| 0 <= i < army@.len() ==> (#[trigger] army@[i]).x < x,
                forall|i: int, j: int|
                    0 <= i < j < army@.len()
                        ==> spawn_before(#[trigger] army@[i], #[trigger] army@[j]),
            decreases NUM_COLS - x,
        {
            let mut y: usize = 0;
            while y < NUM_ROWS
                invariant
                    x < NUM_COLS,
                    y <= NUM_ROWS,
                    forall|i: int|
                        0 <= i < army@.len()
                            ==> spawn_position((#[trigger] army@[i]).x as int, army@[i].y as int),
                    forall|cx: int, cy: int|
                        spawn_position(cx, cy) && cx < x ==> occupied(army@, cx, cy),
                    forall|cy: int|
                        spawn_position(x as int, cy) && cy < y ==> occupied(army@, x as int, cy),
                    forall|i: int|
                        0 <= i < army@.len()
                            ==> (#[trigger] army@[i]).x < x
                                || (army@[i].x == x && army@[i].y < y),
                    forall|i: int, j: int|
                        0 <= i < j < army@.len()
                            ==> spawn_before(#[trigger] army@[i], #[trigger] army@[j]),
                decreases NUM_ROWS - y,
            {
                if x > 1 && x < NUM_COLS - 2 && y > 0 && y < NUM_ROWS / 2 && x % 2 == 0
                    && y % 2 == 0 {
                    let ghost before = army@;
                    army.push(Invader { x, y });
                    assert forall|cy: int|
                        spawn_position(x as int, cy) && cy < y + 1 implies occupied(
                        army@,
                        x as int,
                        cy,
                    ) by {
                        if cy < y {
                            assert(occupied(before, x as int, cy));
                            let w = choose|i: int|
                                0 <= i < before.len() && (#[trigger] before[i]).x == x
                                    && before[i].y == cy;
                            assert(army@[w] == before[w]);
                        } else {
                            assert(army@[army@.len() - 1].x == x && army@[army@.len() - 1].y == cy);
                        }
                    }
                    assert forall|cx: int, cy: int|
                        spawn_position(cx, cy) && cx < x implies occupied(army@, cx, cy) by {
                        assert(occupied(before, cx, cy));
                        let w = choose|i: int|
                            0 <= i < before.len() && (#[trigger] before[i]).x == cx
                                && before[i].y == cy;
                        assert(army@[w] == before[w]);
                    }
                }
                y = y + 1;
            }
            assert forall|cx: int, cy: int|
                spawn_position(cx, cy) && cx < x + 1 implies occupied(army@, cx, cy) by {
                if cx == x {
                    assert(cy < NUM_ROWS as int / 2 && NUM_ROWS as int / 2 <= NUM_ROWS);
                }
            }
            x = x + 1;
        }
        Invaders {
            army,
            move_timer: MoveTimer::from_millis(INITIAL_MOVE_PERIOD_MS),
            direction: 1,
        }
    }

    /// Whether the formation, moving left, touches the left field edge (an
    /// empty swarm counts as touching: its extreme column defaults to 0).
    fn touches_left_edge(&self) -> (r: bool)
        ensures
            r == (self.army@.len() == 0 || exists|i: int|
                0 <= i < self.army@.len() && (#[trigger] self.army@[i]).x == 0),
    {
        let mut i: usize = 0;
        while i < self.army.len()
            invariant
                i <= self.army@.len(),
                forall|j: int| 0 <= j < i ==> (#[trigger] self.army@[j]).x != 0,
            decreases self.army@.len() - i,
        {
            if self.army[i].x == 0 {
                return true;
            }
            i = i + 1;
        }
        self.army.len() == 0
    }

    /// Whether the formation, moving right, touches the right field edge (an
    /// empty swarm does not: its extreme column defaults to 0).
    fn touches_right_edge(&self) -> (r: bool)
        ensures
            r == exists|i: int|
                0 <= i < self.army@.len() && (#[trigger] self.army@[i]).x == NUM_COLS - 1,
    {
        let mut i: usize = 0;
        while i < self.army.len()
            invariant
                i <= self.army@.len(),
                forall|j: int| 0 <= j < i ==> (#[trigger] self.army@[j]).x != NUM_COLS - 1,
            decreases self.army@.len() - i,
        {
            if self.army[i].x == NUM_COLS - 1 {
                return true;
            }
            i = i + 1;
        }
        false
    }

    /// Let `delta_ms` milliseconds elapse for the formation; returns whether
    /// it moved. When the shared countdown comes due it restarts, and the
    /// whole formation takes one lock-step move: if its extreme column in
    /// the direction of travel touches the corresponding edge, the direction
    /// flips, the move period shrinks by one step (floored at the minimum),
    /// and every invader descends one row (stopping at the bottom row) with
    /// no horizontal movement that tick; otherwise every invader moves one
    /// column in the direction of travel with no descent.
    pub fn update(&mut self, delta_ms: u64) -> (moved: bool)
        requires
            old(self).wf(),
        ensures
            final(self).wf(),
            moved == (delta_ms >= old(self).move_timer.time_left_ms),
            final(self).move_timer.duration_ms <= old(self).move_timer.duration_ms,
            final(self).move_timer.duration_ms >= MIN_MOVE_PERIOD_MS,
            !moved ==> final(self).army@ == old(self).army@
                && final(self).direction == old(self).direction
                && final(self).move_timer == old(self).move_timer.spec_update(delta_ms),
            moved ==> final(self).move_timer.time_left_ms == final(self).move_timer.duration_ms,
            moved ==> (final(self).direction != old(self).direction) == old(self).at_edge(),
            moved && old(self).at_edge() ==> {
                &&& final(self).direction == -old(self).direction
                &&& final(self).move_timer.duration_ms == if old(self).move_timer.duration_ms
                    >= MIN_MOVE_PERIOD_MS + MOVE_PERIOD_STEP_MS {
                    (old(self).move_timer.duration_ms - MOVE_PERIOD_STEP_MS) as u64
                } else {
                    MIN_MOVE_PERIOD_MS
                }
                &&& final(self).army@.len() == old(self).army@.len()
                &&& forall|i: int|
                    0 <= i < final(self).army@.len()
                        ==> (#[trigger] final(self).army@[i]).x == old(self).army@[i].x
                            && final(self).army@[i].y == if old(self).army@[i].y + 1 < NUM_ROWS {
                            old(self).army@[i].y + 1
                        } else {
                            NUM_ROWS - 1
                        }
            },
            moved && !old(self).at_edge() ==> {
                &&& final(self).direction == old(self).direction
                &&& final(self).move_timer.duration_ms == old(self).move_timer.duration_ms
                &&& final(self).army@.len() == old(self).army@.len()
                &&& forall|i: int|
                    0 <= i < final(self).army@.len()
                        ==> (#[trigger] final(self).army@[i]).y == old(self).army@[i].y
                            && final(self).army@[i].x == old(self).army@[i].x
                                + old(self).direction
            },
            delta_ms == 0 ==> !moved && *final(self) == *old(self),
    {
        self.move_timer.update(delta_ms);
        if self.move_timer.ready {
            self.move_timer.reset();
            let mut downwards = false;
            if self.direction == -1 {
                if self.touches_left_edge() {
                    self.direction = 1;
                    downwards = true;
                }
            } else {
                if self.touches_right_edge() {
                    self.direction = -1;
                    downwards = true;
                }
            }
            if downwards {
                let new_duration = if self.move_timer.duration_ms
                    >= MIN_MOVE_PERIOD_MS + MOVE_PERIOD_STEP_MS {
                    self.move_timer.duration_ms - MOVE_PERIOD_STEP_MS
                } else {
                    MIN_MOVE_PERIOD_MS
                };
                self.move_timer = MoveTimer::from_millis(new_duration);
                let ghost before = self.army@;
                let ghost dir_after = self.direction;
                let ghost timer_after = self.move_timer;
                let mut i: usize = 0;
                while i < self.army.len()
                    invariant
                        i <= self.army@.len(),
                        self.direction == dir_after,
                        self.move_timer == timer_after,
                        self.army@.len() == before.len(),
                        forall|j: int|
                            0 <= j < before.len() ==> invader_in_bounds(#[trigger] before[j]),
                        forall|j: int|
                            i <= j < before.len() ==> #[trigger] self.army@[j] == before[j],
                        forall|j: int|
                            0 <= j < i ==> (#[trigger] self.army@[j]).x == before[j].x
                                && self.army@[j].y == if before[j].y + 1 < NUM_ROWS {
                                before[j].y + 1
                            } else {
                                NUM_ROWS - 1
                            },
                    decreases self.army@.len() - i,
                {
                    let inv = self.army[i];
                    let ny = if inv.y + 1 < NUM_ROWS {
                        inv.y + 1
                    } else {
                        NUM_ROWS - 1
                    };
                    self.army.set(i, Invader { x: inv.x, y: ny });
                    i = i + 1;
                }
            } else {
                let ghost before = self.army@;
                let moving_left = self.direction == -1;
                proof {
                    if moving_left {
                        assert(before.len() > 0);
                    }
                }
                let ghost dir_after = self.direction;
                let ghost timer_after = self.move_timer;
                let mut i: usize = 0;
                while i < self.army.len()
                    invariant
                        i <= self.army@.len(),
                        self.direction == dir_after,
                        self.move_timer == timer_after,
                        self.army@.len() == before.len(),
                        moving_left == (self.direction == -1i32),
                        self.direction == 1i32 || self.direction == -1i32,
                        forall|j: int|
                            0 <= j < before.len() ==> invader_in_bounds(#[trigger] before[j]),
                        moving_left ==> forall|j: int|
                            0 <= j < before.len() ==> (#[trigger] before[j]).x != 0,
                        !moving_left ==> forall|j: int|
                            0 <= j < before.len() ==> (#[trigger] before[j]).x != NUM_COLS - 1,
                        forall|j: int|
                            i <= j < before.len() ==> #[trigger] self.army@[j] == before[j],
                        forall|j: int|
                            0 <= j < i ==> (#[trigger] self.army@[j]).y == before[j].y
                                && self.army@[j].x == before[j].x + self.direction,
                    decreases self.army@.len() - i,
                {
                    let inv = self.army[i];
                    let nx = if moving_left {
                        inv.x - 1
                    } else {
                        inv.x + 1
                    };
                    self.army.set(i, Invader { x: nx, y: inv.y });
                    i = i + 1;
                }
            }
            true
        } else {
            false
        }
    }

    /// Remove the first invader exactly at column `x`, row `y`; returns
    /// whether a removal occurred. With no invader there this is a no-op
    /// returning false.
    pub fn kill_invader_at(&mut self, x: usize, y: usize) -> (killed: bool)
        ensures
            killed == occupied(old(self).army@, x as int, y as int),
            final(self).army@ == after_kill(old(self).army@, x as int, y as int),
            !killed ==> *final(self) == *old(self),
            final(self).move_timer == old(self).move_timer,
            final(self).direction == old(self).direction,
            old(self).wf() ==> final(self).wf(),
    {
        proof {
            lemma_first_hit_index(old(self).army@, x as int, y as int);
        }
        let mut i: usize = 0;
        while i < self.army.len()
            invariant
                i <= self.army@.len(),
                self.army == old(self).army,
                self.move_timer == old(self).move_timer,
                self.direction == old(self).direction,
                forall|j: int|
                    0 <= j < i ==> !((#[trigger] self.army@[j]).x == x && self.army@[j].y == y),
            decreases self.army@.len() - i,
        {
            if self.army[i].x == x && self.army[i].y == y {
                proof {
                    lemma_first_hit_of(self.army@, x as int, y as int, i as int);
                }
                self.army.remove(i);
                return true;
            }
            i = i + 1;
        }
        false
    }

    /// Whether the swarm has been wiped out — the win condition.
    pub fn all_killed(&self) -> (r: bool)
        ensures
            r == (self.army@.len() == 0),
    {
        self.army.is_empty()
    }

    /// Whether any invader has reached the bottom row — the loss condition.
    /// An empty swarm reports false, so a full clear never reads as a loss.
    pub fn reached_bottom(&self) -> (r: bool)
        ensures
            r == exists|i: int|
                0 <= i < self.army@.len() && (#[trigger] self.army@[i]).y >= NUM_ROWS - 1,
    {
        let mut i: usize = 0;
        while i < self.army.len()
            invariant
                i <= self.army@.len(),
                forall|j: int| 0 <= j < i ==> (#[trigger] self.army@[j]).y < NUM_ROWS - 1,
            decreases self.army@.len() - i,
        {
            if self.army[i].y >= NUM_ROWS - 1 {
                return true;
            }
            i = i + 1;
        }
        false
    }
}

/// An index with a match and no earlier match is exactly what
/// `first_hit_index` returns.
pub proof fn lemma_first_hit_of(army: Seq<Invader>, x: int, y: int, k: int)
    requires
        0 <= k < army.len(),
        army[k].x == x && army[k].y == y,
        forall|j: int| 0 <= j < k ==> !((#[trigger] army[j]).x == x && army[j].y == y),
    ensures
        first_hit_index(army, x, y) == k,
    decreases army.len(),
{
    if army[0].x == x && army[0].y == y {
        assert(k == 0);
    } else {
        let rest = army.skip(1);
        assert forall|i: int| 0 <= i < rest.len() implies rest[i] == army[i + 1] by {}
        lemma_first_hit_of(rest, x, y, k - 1);
    }
}

impl Drawable for Invaders {
    open spec fn valid(&self) -> bool {
        self.wf()
    }

    /// The draw writes the swarm's phase glyph at every invader's cell and
    /// nothing else.
    open spec fn rendered(&self, before: Frame, after: Frame) -> bool {
        forall|xx: int, yy: int|
            0 <= xx < NUM_COLS && 0 <= yy < NUM_ROWS
                ==> #[trigger] after.at(xx, yy) == if occupied(self.army@, xx, yy) {
                    self.glyph()
                } else {
                    before.at(xx, yy)
                }
    }

    fn draw(&self, frame: &mut Frame) {
        let g = if self.move_timer.time_left_ms > self.move_timer.duration_ms / 2 {
            INVADER_GLYPH_A
        } else {
            INVADER_GLYPH_B
        };
        let ghost start = *frame;
        let mut i: usize = 0;
        while i < self.army.len()
            invariant
                i <= self.army@.len(),
                frame.wf(),
                g == self.glyph(),
                forall|j: int|
                    0 <= j < self.army@.len() ==> invader_in_bounds(#[trigger] self.army@[j]),
                forall|xx: int, yy: int|
                    0 <= xx < NUM_COLS && 0 <= yy < NUM_ROWS
                        ==> #[trigger] frame.at(xx, yy) == if occupied(self.army@.take(i as int), xx, yy) {
                            g
                        } else {
                            start.at(xx, yy)
                        },
            decreases self.army@.len() - i,
        {
            let inv = self.army[i];
            frame.set(inv.x, inv.y, g);
            proof {
                let taken = self.army@.take(i as int);
                let taken1 = self.army@.take(i + 1 as int);
                assert(taken1.drop_last() =~= taken);
                assert(taken1.last() == self.army@[i as int]);
                assert forall|xx: int, yy: int|
                    0 <= xx < NUM_COLS && 0 <= yy < NUM_ROWS implies #[trigger] frame.at(xx, yy)
                    == if occupied(taken1, xx, yy) {
                    g
                } else {
                    start.at(xx, yy)
                } by {
                    if occupied(taken1, xx, yy) {
                        let w = choose|j: int|
                            0 <= j < taken1.len() && (#[trigger] taken1[j]).x == xx
                                && taken1[j].y == yy;
                        if w < i {
                            assert(taken[w] == taken1[w]);
                            assert(occupied(taken, xx, yy));
                        }
                    } else {
                        assert(!occupied(taken, xx, yy)) by {
                            if occupied(taken, xx, yy) {
                                let w = choose|j: int|
                                    0 <= j < taken.len() && (#[trigger] taken[j]).x == xx
                                        && taken[j].y == yy;
                                assert(taken1[w] == taken[w]);
                            }
                        }
                        assert(!(xx == inv.x && yy == inv.y)) by {
                            if xx == inv.x && yy == inv.y {
                                assert(taken1[i as int] == self.army@[i as int]);
                            }
                        }
                    }
                }
            }
            i = i + 1;
        }
        proof {
            assert(self.army@.take(self.army@.len() as int) =~= self.army@);
        }
    }
}

} // verus!
