use vstd::prelude::*;

verus! {

/// Elapsed time of a once-mode timer after ticking it by `dt`: elapsed time
/// accumulates and saturates at the timer's duration.
pub open spec fn ticked_elapsed(elapsed: int, duration: int, dt: int) -> int {
    if elapsed + dt >= duration {
        duration
    } else {
        elapsed + dt
    }
}

/// A one-shot cooldown timer counting elapsed milliseconds up to a fixed
/// duration. The action it guards is allowed exactly when the timer has
/// finished.
#[derive(Clone, Copy, PartialEq, Eq, Structural, Debug)]
pub struct CooldownTimer {
    pub duration_ms: u64,
    pub elapsed_ms: u64,
}

impl CooldownTimer {
    /// The elapsed time never runs past the duration.
    pub open spec fn wf(self) -> bool {
        self.elapsed_ms <= self.duration_ms
    }

    /// A fresh timer that has to run for its whole duration before it first
    /// finishes.
    pub fn new(duration_ms: u64) -> (t: CooldownTimer)
        ensures
            t.duration_ms == duration_ms,
            t.elapsed_ms == 0,
            t.wf(),
    {
        CooldownTimer { duration_ms, elapsed_ms: 0 }
    }

    /// Advance the timer by `dt_ms` milliseconds of real time; the elapsed
    /// time saturates at the duration.
    pub fn tick(&mut self, dt_ms: u64)
        requires
            old(self).wf(),
        ensures
            final(self).duration_ms == old(self).duration_ms,
            final(self).elapsed_ms as int == ticked_elapsed(
                old(self).elapsed_ms as int,
                old(self).duration_ms as int,
                dt_ms as int,
            ),
            final(self).wf(),
    {
        let remaining = self.duration_ms - self.elapsed_ms;
        if dt_ms >= remaining {
            self.elapsed_ms = self.duration_ms;
        } else {
            self.elapsed_ms = self.elapsed_ms + dt_ms;
        }
    }

    /// Whether the whole duration has elapsed since the timer was created or
    /// last reset.
    pub fn finished(&self) -> (r: bool)
        ensures
            r == (self.elapsed_ms >= self.duration_ms),
    {
        self.elapsed_ms >= self.duration_ms
    }

    /// Start the cooldown over: the whole duration has to elapse again
    /// before the timer next finishes.
    pub fn reset(&mut self)
        ensures
            final(self).duration_ms == old(self).duration_ms,
            final(self).elapsed_ms == 0,
            final(self).wf(),
    {
        self.elapsed_ms = 0;
    }
}

} // verus!
