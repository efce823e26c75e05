//! The camera shake that marks a kill.
use vstd::prelude::*;
use crate::timer::{Timer, ticked};

verus! {

/// Strength of the shake of a kill, in thousandths of a unit.
pub const KILL_SHAKE_INTENSITY: u64 = 300;

/// Length of the shake of a kill, in milliseconds.
pub const KILL_SHAKE_MS: u64 = 150;

/// A camera shake that fades out over its duration.
#[derive(Clone, Copy, Debug, PartialEq, Eq, Structural)]
pub struct ScreenShake {
    pub intensity: u64,
    pub duration: Timer,
}

/// The strength of a shake once `elapsed` of `total` milliseconds have
/// passed: falling off evenly to nothing.
pub open spec fn shake_left(intensity: int, elapsed: int, total: int) -> int {
    if elapsed >= total {
        0
    } else {
        intensity * (total - elapsed) / total
    }
}

impl ScreenShake {
    pub open spec fn wf(&self) -> bool {
        self.duration.wf() && self.intensity <= 1_000_000_000
    }

    /// No shake.
    pub fn new() -> (s: ScreenShake)
        ensures
            s.wf(),
            s.intensity == 0,
            s.duration == (Timer { duration_ms: 0, elapsed_ms: 0 }),
    {
        ScreenShake { intensity: 0, duration: Timer::from_millis(0) }
    }

    /// Starts a shake of `intensity` lasting `duration_ms`.
    pub fn trigger(&mut self, intensity: u64, duration_ms: u64)
        requires
            intensity <= 1_000_000_000,
        ensures
            final(self).wf(),
            *final(self) == (ScreenShake { intensity, duration: Timer { duration_ms, elapsed_ms: 0 } }),
    {
        self.intensity = intensity;
        self.duration = Timer::from_millis(duration_ms);
    }

    /// Lets `delta_ms` pass and returns the strength of the shake now. A
    /// shake that is over is cleared and has no strength.
    pub fn update(&mut self, delta_ms: u64) -> (now: u64)
        requires
            old(self).wf(),
        ensures
            final(self).wf(),
            old(self).duration.is_finished() ==> now == 0 && final(self).intensity == 0
                && final(self).duration == old(self).duration,
            !old(self).duration.is_finished() ==> {
                let t = ticked(old(self).duration, delta_ms as int);
                &&& final(self).duration == t
                &&& final(self).intensity == old(self).intensity
                &&& now == shake_left(old(self).intensity as int, t.elapsed_ms as int, t.duration_ms as int)
            },
    {
        if self.duration.finished() {
            self.intensity = 0;
            return 0;
        }
        self.duration.tick(delta_ms);
        if self.duration.elapsed_ms >= self.duration.duration_ms {
            return 0;
        }
        let left = self.duration.duration_ms - self.duration.elapsed_ms;
        let total = self.duration.duration_ms;
        assert(self.intensity * left <= self.intensity * total) by (nonlinear_arith)
            requires
                left <= total,
        ;
        assert(self.intensity * total <= 1_000_000_000 * 0xffff_ffff_ffff_ffffu128) by (nonlinear_arith)
            requires
                self.intensity <= 1_000_000_000,
                total <= 0xffff_ffff_ffff_ffffu128,
        ;
        assert(self.intensity * left / total as int <= self.intensity) by (nonlinear_arith)
            requires
                left <= total,
                total > 0,
        ;
        let n: u128 = self.intensity as u128 * left as u128;
        (n / total as u128) as u64
    }
}

} // verus!
