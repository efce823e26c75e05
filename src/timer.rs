//! One-shot countdown timers in whole milliseconds.
use vstd::prelude::*;

verus! {

/// A one-shot timer: it counts elapsed time up to its duration and is
/// finished once the whole duration has elapsed.
#[derive(Clone, Copy, Debug, PartialEq, Eq, Structural)]
pub struct Timer {
    pub duration_ms: u64,
    pub elapsed_ms: u64,
}

/// The elapsed time after `delta` more milliseconds, capped at the duration.
pub open spec fn elapsed_after(t: Timer, delta: int) -> int {
    if t.elapsed_ms + delta >= t.duration_ms {
        t.duration_ms as int
    } else {
        t.elapsed_ms + delta
    }
}

/// `t` after `delta` more milliseconds.
pub open spec fn ticked(t: Timer, delta: int) -> Timer {
    Timer { duration_ms: t.duration_ms, elapsed_ms: elapsed_after(t, delta) as u64 }
}

impl Timer {
    pub open spec fn wf(&self) -> bool {
        self.elapsed_ms <= self.duration_ms
    }

    pub open spec fn is_finished(&self) -> bool {
        self.elapsed_ms >= self.duration_ms
    }

    /// A timer of `duration_ms` that has not started counting.
    pub fn from_millis(duration_ms: u64) -> (t: Timer)
        ensures
            t == (Timer { duration_ms, elapsed_ms: 0 }),
            t.wf(),
    {
        Timer { duration_ms, elapsed_ms: 0 }
    }

    /// Advances the timer by `delta_ms`, stopping at its duration.
    pub fn tick(&mut self, delta_ms: u64)
        requires
            old(self).wf(),
        ensures
            *final(self) == ticked(*old(self), delta_ms as int),
            final(self).wf(),
    {
        if delta_ms >= self.duration_ms - self.elapsed_ms {
            self.elapsed_ms = self.duration_ms;
        } else {
            self.elapsed_ms = self.elapsed_ms + delta_ms;
        }
    }

    /// Whether the whole duration has elapsed.
    pub fn finished(&self) -> (r: bool)
        ensures
            r == self.is_finished(),
    {
        self.elapsed_ms >= self.duration_ms
    }

    /// Starts counting again from zero.
    pub fn reset(&mut self)
        ensures
            *final(self) == (Timer { duration_ms: old(self).duration_ms, elapsed_ms: 0 }),
            final(self).wf(),
    {
        self.elapsed_ms = 0;
    }

    /// Milliseconds that remain before the timer finishes.
    pub fn remaining(&self) -> (r: u64)
        requires
            self.wf(),
        ensures
            r == self.duration_ms - self.elapsed_ms,
    {
        self.duration_ms - self.elapsed_ms
    }
}

} // verus!
