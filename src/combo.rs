//! Kill streaks and the score multiplier they earn.
//!
//! Multipliers are kept in tenths: 10 is ×1.0 and 50 is the ×5.0 cap.
use vstd::prelude::*;
use crate::text::{append_decimal, decimal};
use crate::timer::{Timer, ticked};

verus! {

/// How long a streak survives without a new kill, in milliseconds.
pub const COMBO_WINDOW_MS: u64 = 2000;

/// Largest multiplier, in tenths (×5.0).
pub const MAX_MULTIPLIER: u32 = 50;

/// Multiplier of an empty streak, in tenths (×1.0).
pub const BASE_MULTIPLIER: u32 = 10;

/// The multiplier earned by a streak of `streak` kills, in tenths:
/// min(5.0, 1.0 + 0.1 × streak).
pub open spec fn multiplier_of(streak: int) -> int {
    if 10 + streak <= 50 {
        10 + streak
    } else {
        50
    }
}

/// Tracks the current kill streak, its best value and its decay.
#[derive(Clone, Copy, Debug, PartialEq, Eq, Structural)]
pub struct ComboSystem {
    pub current_combo: u32,
    pub max_combo: u32,
    pub combo_timer: Timer,
    pub combo_multiplier: u32,
}

/// The streak after one more kill (it stops at the largest `u32`).
pub open spec fn streak_after_kill(s: u32) -> u32 {
    if s < u32::MAX {
        (s + 1) as u32
    } else {
        s
    }
}

/// `c` after one kill.
pub open spec fn with_kill(c: ComboSystem) -> ComboSystem {
    let s = streak_after_kill(c.current_combo);
    ComboSystem {
        current_combo: s,
        max_combo: if s > c.max_combo { s } else { c.max_combo },
        combo_timer: Timer { duration_ms: c.combo_timer.duration_ms, elapsed_ms: 0 },
        combo_multiplier: multiplier_of(s as int) as u32,
    }
}

/// `c` after `delta` milliseconds without a kill.
pub open spec fn with_update(c: ComboSystem, delta: int) -> ComboSystem {
    let t = ticked(c.combo_timer, delta);
    if t.is_finished() && c.current_combo > 0 {
        ComboSystem { current_combo: 0, combo_multiplier: 10, combo_timer: t, ..c }
    } else {
        ComboSystem { combo_timer: t, ..c }
    }
}

/// Total of a sequence of time steps.
pub open spec fn total_time(ds: Seq<u64>) -> int
    decreases ds.len(),
{
    if ds.len() == 0 {
        0
    } else {
        ds[0] + total_time(ds.drop_first())
    }
}

/// `c` after the time steps `ds`, in order, without a kill.
pub open spec fn after_updates(c: ComboSystem, ds: Seq<u64>) -> ComboSystem
    decreases ds.len(),
{
    if ds.len() == 0 {
        c
    } else {
        after_updates(with_update(c, ds[0] as int), ds.drop_first())
    }
}

impl ComboSystem {
    pub open spec fn wf(&self) -> bool {
        &&& self.combo_timer.wf()
        &&& self.combo_timer.duration_ms > 0
        &&& self.combo_multiplier == multiplier_of(self.current_combo as int)
        &&& self.current_combo <= self.max_combo
        &&& self.combo_timer.is_finished() ==> self.current_combo == 0
    }

    /// An empty streak with the standard decay window.
    pub fn new() -> (c: ComboSystem)
        ensures
            c.wf(),
            c.current_combo == 0,
            c.max_combo == 0,
            c.combo_multiplier == BASE_MULTIPLIER,
            c.combo_timer == (Timer { duration_ms: COMBO_WINDOW_MS, elapsed_ms: 0 }),
    {
        ComboSystem {
            current_combo: 0,
            max_combo: 0,
            combo_timer: Timer::from_millis(COMBO_WINDOW_MS),
            combo_multiplier: BASE_MULTIPLIER,
        }
    }

    /// Registers a kill: the streak grows, the decay restarts, the best
    /// streak and the multiplier follow.
    pub fn add_kill(&mut self)
        requires
            old(self).wf(),
        ensures
            *final(self) == with_kill(*old(self)),
            final(self).wf(),
    {
        if self.current_combo < u32::MAX {
            self.current_combo = self.current_combo + 1;
        }
        self.combo_timer.reset();
        if self.current_combo > self.max_combo {
            self.max_combo = self.current_combo;
        }
        self.combo_multiplier = multiplier_for(self.current_combo);
    }

    /// Lets `delta_ms` pass; a streak whose decay window has run out ends.
    pub fn update(&mut self, delta_ms: u64)
        requires
            old(self).wf(),
        ensures
            *final(self) == with_update(*old(self), delta_ms as int),
            final(self).wf(),
    {
        self.combo_timer.tick(delta_ms);
        if self.combo_timer.finished() && self.current_combo > 0 {
            self.current_combo = 0;
            self.combo_multiplier = BASE_MULTIPLIER;
        }
    }

    /// The current score multiplier, in tenths.
    pub fn get_score_multiplier(&self) -> (m: u32)
        requires
            self.wf(),
        ensures
            m as int == multiplier_of(self.current_combo as int),
    {
        self.combo_multiplier
    }

    /// The streak as shown to the player ("7x"), empty below two kills.
    pub fn get_combo_display(&self) -> (s: String)
        ensures
            self.current_combo >= 2 ==> s@ == decimal(self.current_combo as nat).push('x'),
            self.current_combo < 2 ==> s@.len() == 0,
    {
        let mut s = String::new();
        if self.current_combo >= 2 {
            append_decimal(&mut s, self.current_combo);
            proof {
                reveal_strlit("x");
            }
            s.append("x");
        }
        s
    }
}

/// The multiplier earned by a streak, in tenths: min(5.0, 1.0 + 0.1 × streak).
pub fn multiplier_for(streak: u32) -> (m: u32)
    ensures
        m as int == multiplier_of(streak as int),
        BASE_MULTIPLIER <= m <= MAX_MULTIPLIER,
        streak == 0 ==> m == BASE_MULTIPLIER,
        streak >= 40 ==> m == MAX_MULTIPLIER,
{
    if streak <= 40 {
        10 + streak
    } else {
        MAX_MULTIPLIER
    }
}

proof fn lemma_no_streak_stays(c: ComboSystem, ds: Seq<u64>)
    requires
        c.wf(),
        c.current_combo == 0,
    ensures
        after_updates(c, ds).current_combo == 0,
        after_updates(c, ds).combo_multiplier == BASE_MULTIPLIER,
    decreases ds.len(),
{
    if ds.len() > 0 {
        lemma_no_streak_stays(with_update(c, ds[0] as int), ds.drop_first());
    }
}

/// A streak ends once its whole decay window passes without a kill: after
/// any run of time steps that, with the time already counted since the last
/// kill, reach the window, the streak is zero and the multiplier is back to
/// ×1.0, whatever the streak was.
pub proof fn lemma_combo_decays(c: ComboSystem, ds: Seq<u64>)
    requires
        c.wf(),
        c.combo_timer.elapsed_ms + total_time(ds) >= c.combo_timer.duration_ms,
    ensures
        after_updates(c, ds).current_combo == 0,
        after_updates(c, ds).combo_multiplier == BASE_MULTIPLIER,
    decreases ds.len(),
{
    if ds.len() > 0 {
        let n = with_update(c, ds[0] as int);
        if c.combo_timer.elapsed_ms + ds[0] >= c.combo_timer.duration_ms {
            lemma_no_streak_stays(n, ds.drop_first());
        } else {
            lemma_combo_decays(n, ds.drop_first());
        }
    }
}

} // verus!
