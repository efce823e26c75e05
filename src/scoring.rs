//! The rewards of a kill, and the handling of hits on creatures.
use vstd::prelude::*;
use crate::collision::all_wf;
use crate::combo::{ComboSystem, with_kill};
use crate::damage::{BodyPart, part_damage_of};
use crate::dino::{
    DamageReaction, DinoDeath, DEATH_ANIMATION_MS, FLEE_BOOST, REACTION_PAUSE_MS,
    CoinSystem, Dinosaur, HitOutcome, base_score_of, coin_reward_of, MAX_HIT_DAMAGE,
};
use crate::game_mode::TimeAttackMode;
use crate::timer::Timer;
use crate::weapon::BulletHitEvent;

verus! {

/// The player's score.
#[derive(Clone, Copy, Debug, PartialEq, Eq, Structural)]
pub struct GameScore {
    pub score: u64,
}

impl GameScore {
    pub fn new() -> (s: GameScore)
        ensures
            s.score == 0,
    {
        GameScore { score: 0 }
    }
}

/// Largest base score of a kill.
pub const MAX_BASE_SCORE: u64 = 1_000_000_000_000;

/// Score of a kill: the species' base score times the part's multiplier
/// (×2 head, ×1 body, ×0.5 legs, rounded down), times the combo multiplier
/// (`mult` tenths), rounded to the nearest whole point, halves up.
pub open spec fn kill_score_of(base: int, part: BodyPart, mult: int) -> int {
    (part_damage_of(base, part) * mult + 5) / 10
}

/// Score of a kill.
pub fn kill_score(base: u64, part: BodyPart, mult: u32) -> (s: u64)
    requires
        base <= MAX_BASE_SCORE,
        mult <= 50,
    ensures
        s as int == kill_score_of(base as int, part, mult as int),
{
    let b = crate::damage::part_damage(base, part);
    assert(b * mult <= 100_000_000_000_000) by (nonlinear_arith)
        requires
            b <= 2_000_000_000_000,
            mult <= 50,
    ;
    (b * mult as u64 + 5) / 10
}

/// `a + b`, stopping at the largest `u64`.
pub open spec fn add_capped(a: int, b: int) -> int {
    if a + b > u64::MAX {
        u64::MAX as int
    } else {
        a + b
    }
}

fn add_capped_u64(a: u64, b: u64) -> (r: u64)
    ensures
        r as int == add_capped(a as int, b as int),
{
    if a > u64::MAX - b {
        u64::MAX
    } else {
        a + b
    }
}

/// Index of the first creature of `ds` with id `id`.
pub open spec fn index_of(ds: Seq<Dinosaur>, id: u64, i: int) -> bool {
    0 <= i < ds.len() && ds[i].id == id && forall|k: int| 0 <= k < i ==> (#[trigger] ds[k]).id != id
}

/// The first creature with id `id`, if any.
pub fn find_dino(ds: &Vec<Dinosaur>, id: u64) -> (r: Option<usize>)
    ensures
        r matches Some(i) ==> index_of(ds@, id, i as int),
        r is None ==> forall|k: int| 0 <= k < ds@.len() ==> (#[trigger] ds@[k]).id != id,
{
    let mut i: usize = 0;
    while i < ds.len()
        invariant
            i <= ds@.len(),
            forall|k: int| 0 <= k < i ==> (#[trigger] ds@[k]).id != id,
        decreases ds@.len() - i,
    {
        if ds[i].id == id {
            return Some(i);
        }
        i = i + 1;
    }
    None
}

/// The tallies that kills feed.
pub struct Ledger {
    pub combo: ComboSystem,
    pub score: GameScore,
    pub coins: CoinSystem,
    pub time_attack: TimeAttackMode,
}

impl Ledger {
    pub open spec fn wf(&self) -> bool {
        self.combo.wf() && self.time_attack.wf()
    }

    /// Empty tallies, with a time-attack round of `duration_ms` not started.
    pub fn new(duration_ms: u64) -> (l: Ledger)
        ensures
            l.wf(),
            l.combo == ComboSystem::initial(),
            l.score.score == 0,
            l.coins.total_coins == 0,
            l.time_attack == TimeAttackMode::fresh(duration_ms),
    {
        Ledger {
            combo: ComboSystem::new(),
            score: GameScore::new(),
            coins: CoinSystem::new(),
            time_attack: TimeAttackMode::new(duration_ms),
        }
    }
}

impl ComboSystem {
    pub open spec fn initial() -> ComboSystem {
        ComboSystem {
            current_combo: 0,
            max_combo: 0,
            combo_timer: crate::timer::Timer { duration_ms: crate::combo::COMBO_WINDOW_MS, elapsed_ms: 0 },
            combo_multiplier: 10,
        }
    }
}

impl TimeAttackMode {
    pub open spec fn fresh(duration_ms: u64) -> TimeAttackMode {
        TimeAttackMode {
            is_active: false,
            time_remaining: crate::timer::Timer { duration_ms, elapsed_ms: 0 },
            total_time: duration_ms,
            kills: 0,
            max_combo: 0,
        }
    }
}

/// The tallies after a kill of a creature of `d`'s species, struck on
/// `part`: the score grows by the kill's score under the multiplier in
/// effect when the hit lands, the coins by the species' reward; the combo
/// then counts the kill, and a running time-attack round counts it too.
pub open spec fn rewarded(l: Ledger, d: Dinosaur, part: BodyPart) -> Ledger {
    Ledger {
        combo: with_kill(l.combo),
        score: GameScore {
            score: add_capped(
                l.score.score as int,
                kill_score_of(base_score_of(d.species) as int, part, l.combo.combo_multiplier as int),
            ) as u64,
        },
        coins: CoinSystem {
            total_coins: add_capped(l.coins.total_coins as int, coin_reward_of(d.species) as int) as u64,
        },
        time_attack: if l.time_attack.is_active && l.time_attack.kills < u32::MAX {
            TimeAttackMode { kills: (l.time_attack.kills + 1) as u32, ..l.time_attack }
        } else {
            l.time_attack
        },
    }
}

/// What one hit does: `ds1`, `l1` and `outcome` follow from `ds0` and `l0`
/// under the hit `ev`. A hit whose target is gone or already dead, or that
/// deals no damage, changes nothing; otherwise the target takes the damage,
/// a wounded creature keeps its AI state and starts its pause, and a killed
/// one starts its fall and its kill is rewarded.
pub open spec fn hit_result(
    ds0: Seq<Dinosaur>,
    l0: Ledger,
    ev: BulletHitEvent,
    ds1: Seq<Dinosaur>,
    l1: Ledger,
    outcome: HitOutcome,
) -> bool {
    &&& ds1.len() == ds0.len()
    &&& (forall|k: int| 0 <= k < ds0.len() ==> (#[trigger] ds0[k]).id != ev.target) ==> {
        &&& outcome == HitOutcome::Ignored
        &&& ds1 == ds0
        &&& l1 == l0
    }
    &&& forall|i: int| #[trigger] index_of(ds0, ev.target, i) ==> {
        let d = ds0[i];
        &&& ds1 == ds0.update(i, ds1[i])
        &&& d.is_dead() ==> outcome == HitOutcome::Ignored && ds1 == ds0 && l1 == l0
        &&& !d.is_dead() ==> ds1[i].health.current == d.health.current - ev.damage
        &&& outcome == HitOutcome::Unhurt ==> ds1 == ds0 && l1 == l0
        &&& outcome == HitOutcome::Wounded ==> {
            &&& l1 == l0
            &&& ds1[i].ai == d.ai
            &&& ds1[i].reaction == Some(
                DamageReaction {
                    pause_timer: Timer { duration_ms: REACTION_PAUSE_MS, elapsed_ms: 0 },
                    flee_boost: FLEE_BOOST,
                },
            )
        }
        &&& outcome == HitOutcome::Killed ==> {
            &&& ds1[i].is_dead()
            &&& ds1[i].death == Some(
                DinoDeath { timer: Timer { duration_ms: DEATH_ANIMATION_MS, elapsed_ms: 0 } },
            )
            &&& ds1[i].reaction is None
            &&& l1 == rewarded(l0, d, ev.hit_part)
        }
        &&& !d.is_dead() ==> outcome == (if d.health.current - ev.damage <= 0 {
            HitOutcome::Killed
        } else if ev.damage == 0 {
            HitOutcome::Unhurt
        } else {
            HitOutcome::Wounded
        })
    }
}

/// Applies one hit to the creatures and the tallies. A hit whose target is
/// gone or already dead, or that deals no damage, changes nothing at all.
/// Otherwise the target takes the damage: a wounded creature keeps its AI
/// state and starts its pause; a killed one starts its fall, and the kill
/// is rewarded.
pub fn handle_bullet_hit(ev: &BulletHitEvent, ds: &mut Vec<Dinosaur>, ledger: &mut Ledger) -> (outcome: HitOutcome)
    requires
        all_wf(old(ds)@),
        old(ledger).wf(),
        ev.damage <= MAX_HIT_DAMAGE,
    ensures
        all_wf(final(ds)@),
        final(ledger).wf(),
        final(ds)@.len() == old(ds)@.len(),
        final(ledger).score.score >= old(ledger).score.score,
        final(ledger).coins.total_coins >= old(ledger).coins.total_coins,
        hit_result(old(ds)@, *old(ledger), *ev, final(ds)@, *final(ledger), outcome),
{
    let idx = find_dino(ds, ev.target);
    match idx {
        None => HitOutcome::Ignored,
        Some(i) => {
            assert(old(ds)@[i as int].wf());
            let mut d = ds.remove(i);
            let outcome = d.take_hit(ev.damage);
            let species = d.species;
            ds.insert(i, d);
            proof {
                assert forall|k: int| 0 <= k < ds@.len() implies (#[trigger] ds@[k]).wf() by {
                    if k != i {
                        assert(ds@[k] == old(ds)@[k]);
                    }
                }
                if outcome == HitOutcome::Ignored || outcome == HitOutcome::Unhurt {
                    assert(ds@ =~= old(ds)@);
                }
                assert(ds@ =~= old(ds)@.update(i as int, ds@[i as int]));
                assert forall|j: int| #[trigger] index_of(old(ds)@, ev.target, j) implies j == i by {
                    if j < i {
                        assert(old(ds)@[j].id != ev.target);
                    } else if j > i {
                        assert(old(ds)@[i as int].id != ev.target);
                    }
                }
            }
            if outcome == HitOutcome::Killed {
                let points = kill_score(species.base_score(), ev.hit_part, ledger.combo.get_score_multiplier());
                ledger.combo.add_kill();
                ledger.time_attack.record_kill();
                ledger.score.score = add_capped_u64(ledger.score.score, points);
                ledger.coins.total_coins = add_capped_u64(ledger.coins.total_coins, species.coin_reward());
            }
            outcome
        },
    }
}

/// `dss` and `ls` trace the hits `hs` applied one by one: each step goes
/// from one state to the next under one hit.
pub open spec fn hit_trace(dss: Seq<Seq<Dinosaur>>, ls: Seq<Ledger>, hs: Seq<BulletHitEvent>) -> bool {
    &&& dss.len() == hs.len() + 1
    &&& ls.len() == hs.len() + 1
    &&& forall|k: int| 0 <= k < hs.len() ==> #[trigger] hit_step(dss, ls, hs, k)
}

/// Step `k` of a trace goes from one state to the next under hit `k`.
pub open spec fn hit_step(dss: Seq<Seq<Dinosaur>>, ls: Seq<Ledger>, hs: Seq<BulletHitEvent>, k: int) -> bool {
    exists|o: HitOutcome| #[trigger] hit_result(dss[k], ls[k], hs[k], dss[k + 1], ls[k + 1], o)
}

/// The hits `hs`, applied in order to the creatures `ds0` and the tallies
/// `l0`, can leave `ds1` and `l1`.
pub open spec fn hits_applied(ds0: Seq<Dinosaur>, l0: Ledger, hs: Seq<BulletHitEvent>, ds1: Seq<Dinosaur>, l1: Ledger) -> bool {
    exists|dss: Seq<Seq<Dinosaur>>, ls: Seq<Ledger>|
        #[trigger] hit_trace(dss, ls, hs) && dss[0] == ds0 && ls[0] == l0 && dss[hs.len() as int] == ds1
            && ls[hs.len() as int] == l1
}

} // verus!
