//! The time-attack mode: kills against the clock, ranked at the end.
use vstd::prelude::*;
use crate::timer::{Timer, ticked};

verus! {

/// A timed round: whether it runs, the time left, and its tallies.
#[derive(Clone, Copy, Debug, PartialEq, Eq, Structural)]
pub struct TimeAttackMode {
    pub is_active: bool,
    pub time_remaining: Timer,
    pub total_time: u64,
    pub kills: u32,
    pub max_combo: u32,
}

/// The rank of a round, from its kills weighted by its best streak
/// (kills × (1 + 0.1 × best streak), kept in tenths): S from 50, A from 35,
/// B from 20, else C.
pub open spec fn rank_of(kills: int, max_combo: int) -> Seq<char> {
    let score = kills * (10 + max_combo);
    if score >= 500 {
        "S"@
    } else if score >= 350 {
        "A"@
    } else if score >= 200 {
        "B"@
    } else {
        "C"@
    }
}

/// `t` after `delta` milliseconds with the current streak `streak`: a
/// running round counts down and keeps its best streak; a stopped one stays.
pub open spec fn round_ticked(t: TimeAttackMode, delta: int, streak: u32) -> TimeAttackMode {
    if t.is_active {
        TimeAttackMode {
            time_remaining: ticked(t.time_remaining, delta),
            max_combo: if streak > t.max_combo {
                streak
            } else {
                t.max_combo
            },
            ..t
        }
    } else {
        t
    }
}

impl TimeAttackMode {
    pub open spec fn wf(&self) -> bool {
        self.time_remaining.wf()
    }

    /// A round of `duration_ms`, not yet started.
    pub fn new(duration_ms: u64) -> (m: TimeAttackMode)
        ensures
            m.wf(),
            !m.is_active,
            m.time_remaining == (Timer { duration_ms, elapsed_ms: 0 }),
            m.total_time == duration_ms,
            m.kills == 0,
            m.max_combo == 0,
    {
        TimeAttackMode {
            is_active: false,
            time_remaining: Timer::from_millis(duration_ms),
            total_time: duration_ms,
            kills: 0,
            max_combo: 0,
        }
    }

    /// Starts the round afresh.
    pub fn start(&mut self)
        ensures
            final(self).is_active,
            final(self).time_remaining == (Timer { duration_ms: old(self).time_remaining.duration_ms, elapsed_ms: 0 }),
            final(self).total_time == old(self).total_time,
            final(self).kills == 0,
            final(self).max_combo == 0,
            final(self).wf(),
    {
        self.is_active = true;
        self.time_remaining.reset();
        self.kills = 0;
        self.max_combo = 0;
    }

    /// Stops the round; its tallies stay.
    pub fn stop(&mut self)
        ensures
            *final(self) == (TimeAttackMode { is_active: false, ..*old(self) }),
    {
        self.is_active = false;
    }

    /// Whether a running round has used up its time.
    pub fn is_finished(&self) -> (r: bool)
        ensures
            r == (self.is_active && self.time_remaining.is_finished()),
    {
        self.is_active && self.time_remaining.finished()
    }

    /// Counts a kill toward a running round.
    pub fn record_kill(&mut self)
        ensures
            *final(self) == (if old(self).is_active && old(self).kills < u32::MAX {
                TimeAttackMode { kills: (old(self).kills + 1) as u32, ..*old(self) }
            } else {
                *old(self)
            }),
    {
        if self.is_active && self.kills < u32::MAX {
            self.kills = self.kills + 1;
        }
    }

    /// Lets `delta_ms` pass in a running round and keeps its best streak.
    pub fn update(&mut self, delta_ms: u64, current_combo: u32)
        requires
            old(self).wf(),
        ensures
            final(self).wf(),
            *final(self) == round_ticked(*old(self), delta_ms as int, current_combo),
            !old(self).is_active ==> *final(self) == *old(self),
            old(self).is_active ==> *final(self) == (TimeAttackMode {
                time_remaining: ticked(old(self).time_remaining, delta_ms as int),
                max_combo: if current_combo > old(self).max_combo {
                    current_combo
                } else {
                    old(self).max_combo
                },
                ..*old(self)
            }),
    {
        if !self.is_active {
            return;
        }
        self.time_remaining.tick(delta_ms);
        if current_combo > self.max_combo {
            self.max_combo = current_combo;
        }
    }

    /// The rank of the round.
    pub fn get_rank(&self) -> (r: &'static str)
        ensures
            r@ == rank_of(self.kills as int, self.max_combo as int),
    {
        let weight: u128 = 10 + self.max_combo as u128;
        assert(self.kills * weight <= 0x1_0000_0000 * 0x1_0000_0010) by (nonlinear_arith)
            requires
                self.kills < 0x1_0000_0000,
                weight < 0x1_0000_0010,
        ;
        let score: u128 = self.kills as u128 * weight;
        if score >= 500 {
            "S"
        } else if score >= 350 {
            "A"
        } else if score >= 200 {
            "B"
        } else {
            "C"
        }
    }
}

} // verus!
