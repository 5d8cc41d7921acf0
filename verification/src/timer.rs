//! Game timers, modelled in whole nanoseconds.
//!
//! A one-shot timer accumulates elapsed time up to its duration and reports
//! the tick on which it crossed the line; a repeating timer wraps its elapsed
//! time and reports every crossing. Paused timers ignore the passage of time.

use vstd::prelude::*;

verus! {

/// Upper bound on timer durations and on a single tick, in nanoseconds
/// (a little under 17 minutes) — far above anything the game uses, and low
/// enough that elapsed time plus one tick never overflows.
pub const MAX_TIMER_NS: u64 = 1_000_000_000_000;

#[derive(Clone, Copy, Debug, PartialEq, Eq, Structural)]
pub enum TimerMode {
    Once,
    Repeating,
}

#[derive(Clone, Copy, Debug, PartialEq, Eq, Structural)]
pub struct GameTimer {
    pub duration_ns: u64,
    pub elapsed_ns: u64,
    pub mode: TimerMode,
    pub paused: bool,
    pub just_finished: bool,
}

/// A well-formed timer has a positive, bounded duration and has not
/// accumulated more time than that duration.
pub open spec fn timer_wf(t: GameTimer) -> bool {
    1 <= t.duration_ns <= MAX_TIMER_NS && t.elapsed_ns <= t.duration_ns
}

/// What one `tick` does to a timer: a paused timer only clears its finish
/// report; a one-shot timer saturates at its duration and reports the tick
/// that crossed it; a repeating timer wraps and reports every crossing.
pub open spec fn spec_tick(t: GameTimer, delta_ns: u64) -> GameTimer {
    if t.paused {
        GameTimer { just_finished: false, ..t }
    } else if t.mode == TimerMode::Once {
        GameTimer {
            elapsed_ns: if t.elapsed_ns + delta_ns >= t.duration_ns {
                t.duration_ns
            } else {
                (t.elapsed_ns + delta_ns) as u64
            },
            just_finished: t.elapsed_ns < t.duration_ns
                && t.elapsed_ns + delta_ns >= t.duration_ns,
            ..t
        }
    } else {
        GameTimer {
            elapsed_ns: ((t.elapsed_ns + delta_ns) % (t.duration_ns as int)) as u64,
            just_finished: t.elapsed_ns + delta_ns >= t.duration_ns,
            ..t
        }
    }
}

impl GameTimer {
    /// A fresh, running timer with nothing elapsed.
    pub fn from_ns(duration_ns: u64, mode: TimerMode) -> (t: GameTimer)
        requires
            1 <= duration_ns <= MAX_TIMER_NS,
        ensures
            t == (GameTimer {
                duration_ns,
                elapsed_ns: 0,
                mode,
                paused: false,
                just_finished: false,
            }),
            timer_wf(t),
    {
        GameTimer { duration_ns, elapsed_ns: 0, mode, paused: false, just_finished: false }
    }

    /// Advance the timer by `delta_ns`. A paused timer does not advance and
    /// reports no finish; a one-shot timer saturates at its duration; a
    /// repeating timer wraps and reports the crossing.
    pub fn tick(&mut self, delta_ns: u64)
        requires
            timer_wf(*old(self)),
            delta_ns <= MAX_TIMER_NS,
        ensures
            timer_wf(*final(self)),
            *final(self) == spec_tick(*old(self), delta_ns),
            final(self).duration_ns == old(self).duration_ns,
            final(self).mode == old(self).mode,
            final(self).paused == old(self).paused,
            old(self).paused ==> *final(self) == (GameTimer {
                just_finished: false,
                ..*old(self)
            }),
            !old(self).paused && old(self).mode == TimerMode::Once ==> {
                &&& final(self).just_finished == (old(self).elapsed_ns < old(self).duration_ns
                    && old(self).elapsed_ns + delta_ns >= old(self).duration_ns)
                &&& final(self).elapsed_ns == if old(self).elapsed_ns + delta_ns
                    >= old(self).duration_ns { old(self).duration_ns as int } else {
                    old(self).elapsed_ns + delta_ns }
            },
            !old(self).paused && old(self).mode == TimerMode::Repeating ==> {
                &&& final(self).just_finished == (old(self).elapsed_ns + delta_ns
                    >= old(self).duration_ns)
                &&& final(self).elapsed_ns == (old(self).elapsed_ns + delta_ns)
                    % (old(self).duration_ns as int)
            },
    {
        if self.paused {
            self.just_finished = false;
        } else {
            match self.mode {
                TimerMode::Once => {
                    let total: u64 = self.elapsed_ns + delta_ns;
                    self.just_finished = self.elapsed_ns < self.duration_ns
                        && total >= self.duration_ns;
                    self.elapsed_ns = if total >= self.duration_ns {
                        self.duration_ns
                    } else {
                        total
                    };
                },
                TimerMode::Repeating => {
                    let total: u64 = self.elapsed_ns + delta_ns;
                    self.just_finished = total >= self.duration_ns;
                    self.elapsed_ns = total % self.duration_ns;
                },
            }
        }
    }

    /// Forget all elapsed time; the timer no longer reports a finish.
    pub fn reset(&mut self)
        ensures
            *final(self) == (GameTimer { elapsed_ns: 0, just_finished: false, ..*old(self) }),
    {
        self.elapsed_ns = 0;
        self.just_finished = false;
    }

    pub fn pause(&mut self)
        ensures
            *final(self) == (GameTimer { paused: true, ..*old(self) }),
    {
        self.paused = true;
    }

    pub fn unpause(&mut self)
        ensures
            *final(self) == (GameTimer { paused: false, ..*old(self) }),
    {
        self.paused = false;
    }

    /// Time left before the timer finishes.
    pub fn remaining_ns(&self) -> (r: u64)
        requires
            timer_wf(*self),
        ensures
            r == self.duration_ns - self.elapsed_ns,
    {
        self.duration_ns - self.elapsed_ns
    }
}

} // verus!
