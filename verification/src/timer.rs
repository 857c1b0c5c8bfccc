//! A countdown timer measured in whole milliseconds. It drives the swarm's
//! lock-step movement, a projectile's flight steps, and a projectile's
//! explosion animation.

use vstd::prelude::*;

verus! {

/// Countdown over a fixed period. `ready` is true exactly when the countdown
/// has run out; `reset` starts a fresh countdown over the same period.
#[derive(Clone, Copy, PartialEq, Eq, Structural, Debug)]
pub struct MoveTimer {
    /// The period the countdown starts from.
    pub duration_ms: u64,
    /// Milliseconds still to elapse before the timer is due.
    pub time_left_ms: u64,
    /// Whether the countdown has run out.
    pub ready: bool,
}

impl MoveTimer {
    /// The remaining time never exceeds the period, and `ready` mirrors an
    /// exhausted countdown.
    pub open spec fn wf(self) -> bool {
        &&& self.time_left_ms <= self.duration_ms
        &&& (self.ready <==> self.time_left_ms == 0)
    }

    /// The timer `from_millis(ms)` returns.
    pub open spec fn spec_from_millis(ms: u64) -> MoveTimer {
        MoveTimer { duration_ms: ms, time_left_ms: ms, ready: ms == 0 }
    }

    /// The timer `update(delta_ms)` leaves behind.
    pub open spec fn spec_update(self, delta_ms: u64) -> MoveTimer {
        let left = if delta_ms >= self.time_left_ms {
            0u64
        } else {
            (self.time_left_ms - delta_ms) as u64
        };
        MoveTimer { duration_ms: self.duration_ms, time_left_ms: left, ready: left == 0 }
    }

    /// The timer `reset` leaves behind.
    pub open spec fn spec_reset(self) -> MoveTimer {
        MoveTimer {
            duration_ms: self.duration_ms,
            time_left_ms: self.duration_ms,
            ready: self.duration_ms == 0,
        }
    }

    /// A timer with a full countdown of `ms` milliseconds ahead of it.
    pub fn from_millis(ms: u64) -> (t: MoveTimer)
        ensures
            t == MoveTimer::spec_from_millis(ms),
            t.wf(),
    {
        MoveTimer { duration_ms: ms, time_left_ms: ms, ready: ms == 0 }
    }

    /// Advance the countdown by `delta_ms` elapsed milliseconds, saturating
    /// at zero.
    pub fn update(&mut self, delta_ms: u64)
        ensures
            *final(self) == old(self).spec_update(delta_ms),
            old(self).wf() ==> final(self).wf(),
    {
        self.time_left_ms = if delta_ms >= self.time_left_ms {
            0
        } else {
            self.time_left_ms - delta_ms
        };
        self.ready = self.time_left_ms == 0;
    }

    /// Start a fresh countdown over the same period.
    pub fn reset(&mut self)
        ensures
            *final(self) == old(self).spec_reset(),
            final(self).wf(),
    {
        self.time_left_ms = self.duration_ms;
        self.ready = self.time_left_ms == 0;
    }
}

} // verus!
