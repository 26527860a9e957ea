use vstd::prelude::*;

verus! {

/// A repeating countdown timer, measured in whole nanoseconds.
///
/// `tick` accumulates elapsed time; a tick that brings the accumulated time up
/// to the configured period completes the timer, keeps the remainder, and
/// reports the completion through `just_finished` until the next tick.
#[derive(Clone, Copy, Debug, PartialEq, Eq, Structural)]
pub struct AnimationTimer {
    /// Length of one period, in nanoseconds.
    pub duration_ns: u64,
    /// Time accumulated toward the next completion, in nanoseconds.
    pub elapsed_ns: u64,
    /// Whether the most recent tick completed at least one period.
    pub finished_this_tick: bool,
}

impl AnimationTimer {
    /// The timer state after advancing by `delta_ns` nanoseconds: elapsed time
    /// accumulates, saturating at the largest representable value; a tick that
    /// reaches the period completes it and keeps the remainder; a zero-length
    /// period completes on every tick.
    pub open spec fn spec_ticked(self, delta_ns: u64) -> AnimationTimer {
        let total = if self.elapsed_ns + delta_ns <= u64::MAX {
            (self.elapsed_ns + delta_ns) as u64
        } else {
            u64::MAX
        };
        if self.duration_ns == 0 {
            AnimationTimer { duration_ns: self.duration_ns, elapsed_ns: 0, finished_this_tick: true }
        } else if total >= self.duration_ns {
            AnimationTimer {
                duration_ns: self.duration_ns,
                elapsed_ns: (total % self.duration_ns) as u64,
                finished_this_tick: true,
            }
        } else {
            AnimationTimer {
                duration_ns: self.duration_ns,
                elapsed_ns: total,
                finished_this_tick: false,
            }
        }
    }

    /// A fresh repeating timer with the given period, no accumulated time, and
    /// no completion reported yet.
    pub fn from_nanos(duration_ns: u64) -> (t: AnimationTimer)
        ensures
            t == (AnimationTimer { duration_ns, elapsed_ns: 0, finished_this_tick: false }),
    {
        AnimationTimer { duration_ns, elapsed_ns: 0, finished_this_tick: false }
    }

    /// Advance the timer by `delta_ns` nanoseconds.
    pub fn tick(&mut self, delta_ns: u64)
        ensures
            *final(self) == (*old(self)).spec_ticked(delta_ns),
    {
        let total: u64 = if delta_ns <= u64::MAX - self.elapsed_ns {
            self.elapsed_ns + delta_ns
        } else {
            u64::MAX
        };
        if self.duration_ns == 0 {
            self.elapsed_ns = 0;
            self.finished_this_tick = true;
        } else if total >= self.duration_ns {
            self.elapsed_ns = total % self.duration_ns;
            self.finished_this_tick = true;
        } else {
            self.elapsed_ns = total;
            self.finished_this_tick = false;
        }
    }

    /// Whether the most recent tick completed the period.
    pub fn just_finished(&self) -> (r: bool)
        ensures
            r == self.finished_this_tick,
    {
        self.finished_this_tick
    }

    /// Change the period. The accumulated time and the completion report from
    /// the most recent tick are deliberately kept.
    pub fn set_duration(&mut self, duration_ns: u64)
        ensures
            *final(self) == (AnimationTimer {
                duration_ns,
                elapsed_ns: old(self).elapsed_ns,
                finished_this_tick: old(self).finished_this_tick,
            }),
    {
        self.duration_ns = duration_ns;
    }
}

} // verus!
