//! One tick of the combat core, as a fixed pipeline of steps: firing,
//! projectile flight, hit resolution, the reactions to hits, creature
//! thought and movement, attacks on the vehicle, and the removal of the
//! dead.
use vstd::prelude::*;
use crate::ai::{attacked, in_wander_ring, moved, roll_wander, thought, wander_offset, WANDER_MAX, WANDER_MIN};
use crate::collision::{all_wf, blast_hits, bullet_strike, explosion_hits, no_body, no_box, strike_hit};
use crate::damage::MAX_BASE_DAMAGE;
use crate::dino::{fall_over, fall_step, DinoAttackEvent, DinoSpawnConfig, Dinosaur, HitOutcome, roll_spawn, MAX_HIT_DAMAGE};
use crate::geom::{near_unit, Direction, Heading, Point};
use crate::combo::with_update;
use crate::game_mode::round_ticked;
use crate::scoring::{Ledger, find_dino, handle_bullet_hit, hit_result, hit_step, hit_trace, hits_applied};
use crate::vehicle::VehicleHealth;
use crate::weapon::{BulletHitEvent, Flight, Projectile, RocketExplosionEvent, choose_aim, flight_of};
use crate::weapon_system::{WeaponInventory, WeaponState, damage_of, fire_rate_of, pellet_count_of, shot_allowed};

verus! {

/// Every projectile of `ps` is well formed.
pub open spec fn all_flying_wf(ps: Seq<Projectile>) -> bool {
    forall|i: int| 0 <= i < ps.len() ==> (#[trigger] ps[i]).wf()
}

/// A blast that the hit resolution can take.
pub open spec fn blast_wf(b: RocketExplosionEvent) -> bool {
    b.position.wf() && b.damage <= MAX_BASE_DAMAGE && b.radius <= MAX_BASE_DAMAGE
}

/// Every hit of `hs` deals at most the largest damage of one hit.
pub open spec fn hits_bounded(hs: Seq<BulletHitEvent>) -> bool {
    forall|i: int| 0 <= i < hs.len() ==> (#[trigger] hs[i]).damage <= MAX_HIT_DAMAGE
}

/// The projectiles of `ps` still in flight after `delta` milliseconds, in
/// order.
pub open spec fn still_flying(ps: Seq<Projectile>, delta: int) -> Seq<Projectile>
    decreases ps.len(),
{
    if ps.len() == 0 {
        Seq::empty()
    } else {
        let rest = still_flying(ps.drop_last(), delta);
        let (q, f) = flight_of(ps.last(), delta);
        if f is Flying {
            rest.push(q)
        } else {
            rest
        }
    }
}

/// The blasts of the projectiles of `ps` whose fuse burns down within
/// `delta` milliseconds, in order.
pub open spec fn blasts_of(ps: Seq<Projectile>, delta: int) -> Seq<RocketExplosionEvent>
    decreases ps.len(),
{
    if ps.len() == 0 {
        Seq::empty()
    } else {
        let rest = blasts_of(ps.drop_last(), delta);
        match flight_of(ps.last(), delta).1 {
            Flight::Exploded(b) => rest.push(b),
            _ => rest,
        }
    }
}

/// Flies every projectile for `delta_ms`. Those whose life runs out are
/// gone; explosive ones whose fuse burns down are gone too, and their
/// blasts are returned in order.
pub fn fly_projectiles(ps: &mut Vec<Projectile>, delta_ms: u64) -> (blasts: Vec<RocketExplosionEvent>)
    requires
        all_flying_wf(old(ps)@),
    ensures
        final(ps)@ == still_flying(old(ps)@, delta_ms as int),
        blasts@ == blasts_of(old(ps)@, delta_ms as int),
        all_flying_wf(final(ps)@),
        forall|i: int| 0 <= i < blasts@.len() ==> blast_wf(#[trigger] blasts@[i]),
        final(ps)@.len() + blasts@.len() <= old(ps)@.len(),
{
    let mut kept: Vec<Projectile> = Vec::new();
    let mut blasts: Vec<RocketExplosionEvent> = Vec::new();
    let mut i: usize = 0;
    while i < ps.len()
        invariant
            i <= ps@.len(),
            ps@ == old(ps)@,
            all_flying_wf(ps@),
            all_flying_wf(kept@),
            forall|k: int| 0 <= k < blasts@.len() ==> blast_wf(#[trigger] blasts@[k]),
            kept@.len() + blasts@.len() <= i,
            kept@ == still_flying(ps@.take(i as int), delta_ms as int),
            blasts@ == blasts_of(ps@.take(i as int), delta_ms as int),
        decreases ps@.len() - i,
    {
        let mut p = ps[i];
        assert(ps@[i as int].wf());
        assert(ps@.take(i as int + 1).drop_last() == ps@.take(i as int));
        assert(ps@.take(i as int + 1).last() == ps@[i as int]);
        match p.update(delta_ms) {
            Flight::Flying => {
                kept.push(p);
            },
            Flight::Expired => {},
            Flight::Exploded(b) => {
                blasts.push(b);
            },
        }
        i = i + 1;
    }
    assert(ps@.take(ps@.len() as int) == ps@);
    *ps = kept;
    blasts
}

/// A projectile at its place strikes no creature: it is explosive, or no
/// hit box and no body is near enough.
pub open spec fn strikes_nothing(ds: Seq<Dinosaur>, p: Projectile) -> bool {
    p.rocket is Some || (no_box(ds, p.position) && no_body(ds, p.position))
}

/// The projectiles of `ps` that strike nothing, in order.
pub open spec fn unstruck(ds: Seq<Dinosaur>, ps: Seq<Projectile>) -> Seq<Projectile>
    decreases ps.len(),
{
    if ps.len() == 0 {
        Seq::empty()
    } else {
        let rest = unstruck(ds, ps.drop_last());
        if strikes_nothing(ds, ps.last()) {
            rest.push(ps.last())
        } else {
            rest
        }
    }
}

/// The hits of the projectiles of `ps` on the creatures `ds`, in order.
pub open spec fn strike_hits(ds: Seq<Dinosaur>, ps: Seq<Projectile>) -> Seq<BulletHitEvent>
    decreases ps.len(),
{
    if ps.len() == 0 {
        Seq::empty()
    } else {
        let rest = strike_hits(ds, ps.drop_last());
        match strike_hit(ds, ps.last()) {
            Some(h) => rest.push(h),
            None => rest,
        }
    }
}

/// Resolves the plain projectiles against the creatures. Each one that
/// strikes is gone and yields its hit, in order; the others fly on.
pub fn strike_projectiles(ps: &mut Vec<Projectile>, ds: &Vec<Dinosaur>) -> (hits: Vec<BulletHitEvent>)
    requires
        all_flying_wf(old(ps)@),
        all_wf(ds@),
    ensures
        final(ps)@ == unstruck(ds@, old(ps)@),
        hits@ == strike_hits(ds@, old(ps)@),
        all_flying_wf(final(ps)@),
        hits_bounded(hits@),
        final(ps)@.len() + hits@.len() == old(ps)@.len(),
{
    let mut kept: Vec<Projectile> = Vec::new();
    let mut hits: Vec<BulletHitEvent> = Vec::new();
    let mut i: usize = 0;
    while i < ps.len()
        invariant
            i <= ps@.len(),
            ps@ == old(ps)@,
            all_flying_wf(ps@),
            all_wf(ds@),
            all_flying_wf(kept@),
            hits_bounded(hits@),
            kept@.len() + hits@.len() == i,
            kept@ == unstruck(ds@, ps@.take(i as int)),
            hits@ == strike_hits(ds@, ps@.take(i as int)),
        decreases ps@.len() - i,
    {
        let p = ps[i];
        assert(ps@[i as int].wf());
        assert(ps@.take(i as int + 1).drop_last() == ps@.take(i as int));
        assert(ps@.take(i as int + 1).last() == ps@[i as int]);
        match bullet_strike(&p, ds) {
            Some(h) => {
                assert(h.damage <= 2 * MAX_BASE_DAMAGE) by {
                    crate::damage::lemma_part_bound(p.bullet.damage as int, h.hit_part);
                }
                hits.push(h);
            },
            None => {
                kept.push(p);
            },
        }
        i = i + 1;
    }
    assert(ps@.take(ps@.len() as int) == ps@);
    *ps = kept;
    hits
}

/// Applies hits to the creatures and the tallies, in order; returns the
/// number of kills.
fn apply_hits(hits: &Vec<BulletHitEvent>, ds: &mut Vec<Dinosaur>, ledger: &mut Ledger) -> (kills: u64)
    requires
        hits_bounded(hits@),
        all_wf(old(ds)@),
        old(ledger).wf(),
    ensures
        all_wf(final(ds)@),
        final(ledger).wf(),
        final(ds)@.len() == old(ds)@.len(),
        kills <= hits@.len(),
        hits_applied(old(ds)@, *old(ledger), hits@, final(ds)@, *final(ledger)),
        final(ledger).score.score >= old(ledger).score.score,
        final(ledger).coins.total_coins >= old(ledger).coins.total_coins,
{
    let mut kills: u64 = 0;
    let ghost mut dss: Seq<Seq<Dinosaur>> = seq![ds@];
    let ghost mut lss: Seq<Ledger> = seq![*ledger];
    let mut i: usize = 0;
    while i < hits.len()
        invariant
            i <= hits@.len(),
            hits_bounded(hits@),
            all_wf(ds@),
            ledger.wf(),
            ds@.len() == old(ds)@.len(),
            kills <= i,
            ledger.score.score >= old(ledger).score.score,
            ledger.coins.total_coins >= old(ledger).coins.total_coins,
            hit_trace(dss, lss, hits@.take(i as int)),
            dss[0] == old(ds)@,
            lss[0] == *old(ledger),
            dss[i as int] == ds@,
            lss[i as int] == *ledger,
        decreases hits@.len() - i,
    {
        let ghost ds_before = ds@;
        let ghost l_before = *ledger;
        assert(hits@[i as int].damage <= MAX_HIT_DAMAGE);
        let outcome = handle_bullet_hit(&hits[i], ds, ledger);
        proof {
            let k = i as int;
            assert(hit_result(ds_before, l_before, hits@[k], ds@, *ledger, outcome));
            let nd = dss.push(ds@);
            let nl = lss.push(*ledger);
            assert forall|m: int| 0 <= m < k + 1 implies #[trigger] hit_step(nd, nl, hits@.take(k + 1), m) by {
                if m < k {
                    assert(hits@.take(k + 1)[m] == hits@.take(k)[m]);
                    assert(hit_step(dss, lss, hits@.take(k), m));
                    let o = choose|o: HitOutcome| #[trigger] hit_result(dss[m], lss[m], hits@.take(k)[m], dss[m + 1], lss[m + 1], o);
                    assert(hit_result(nd[m], nl[m], hits@.take(k + 1)[m], nd[m + 1], nl[m + 1], o));
                } else {
                    assert(hit_result(nd[m], nl[m], hits@.take(k + 1)[m], nd[m + 1], nl[m + 1], outcome));
                }
            }
            dss = nd;
            lss = nl;
        }
        if outcome == HitOutcome::Killed {
            kills = kills + 1;
        }
        i = i + 1;
    }
    assert(hits@.take(hits@.len() as int) == hits@);
    assert(hit_trace(dss, lss, hits@));
    kills
}

/// Runs one step of thought for every creature, with fresh wander draws.
/// `d1` is `d0` after one step of thought with some wander draw: a heading
/// of unit length and a distance whose target offset lies 20 to 50 units
/// away.
pub open spec fn thought_with_some_draw(d0: Dinosaur, vehicle: Point, delta_ms: u64, d1: Dinosaur) -> bool {
    exists|h: Heading, dist: u64|
        near_unit(h) && WANDER_MIN <= dist < WANDER_MAX && in_wander_ring(wander_offset(h, dist as int))
            && #[trigger] thought(d0, vehicle, delta_ms, h, dist, d1)
}

fn think_all(ds: &mut Vec<Dinosaur>, vehicle: &Point, delta_ms: u64)
    requires
        all_wf(old(ds)@),
        vehicle.wf(),
    ensures
        all_wf(final(ds)@),
        final(ds)@.len() == old(ds)@.len(),
        forall|i: int| 0 <= i < final(ds)@.len() ==> #[trigger] thought_with_some_draw(old(ds)@[i], *vehicle, delta_ms, final(ds)@[i]),
        forall|i: int| 0 <= i < final(ds)@.len() ==> (#[trigger] final(ds)@[i]).is_dead() == old(ds)@[i].is_dead(),
{
    let mut i: usize = 0;
    while i < ds.len()
        invariant
            i <= ds@.len(),
            ds@.len() == old(ds)@.len(),
            all_wf(ds@),
            vehicle.wf(),
            forall|k: int| 0 <= k < ds@.len() ==> (#[trigger] ds@[k]).is_dead() == old(ds)@[k].is_dead(),
            forall|k: int| 0 <= k < i ==> #[trigger] thought_with_some_draw(old(ds)@[k], *vehicle, delta_ms, ds@[k]),
            forall|k: int| i <= k < ds@.len() ==> #[trigger] ds@[k] == old(ds)@[k],
        decreases ds@.len() - i,
    {
        let (h, dist) = roll_wander();
        let ghost before = ds@;
        assert(before[i as int].wf());
        let mut d = ds.remove(i);
        d.think(vehicle, delta_ms, h, dist);
        ds.insert(i, d);
        proof {
            assert(thought_with_some_draw(old(ds)@[i as int], *vehicle, delta_ms, ds@[i as int]));
            assert forall|k: int| 0 <= k < ds@.len() implies (#[trigger] ds@[k]).wf() && ds@[k].is_dead() == old(ds)@[k].is_dead() by {
                if k != i {
                    assert(ds@[k] == before[k]);
                }
            }
            assert forall|k: int| 0 <= k < i + 1 implies #[trigger] thought_with_some_draw(old(ds)@[k], *vehicle, delta_ms, ds@[k]) by {
                if k < i {
                    assert(ds@[k] == before[k]);
                }
            }
            assert forall|k: int| i + 1 <= k < ds@.len() implies #[trigger] ds@[k] == old(ds)@[k] by {
                assert(ds@[k] == before[k]);
            }
        }
        i = i + 1;
    }
}

/// Moves every creature.
fn move_all(ds: &mut Vec<Dinosaur>, vehicle: &Point, delta_ms: u64)
    requires
        all_wf(old(ds)@),
        vehicle.wf(),
    ensures
        all_wf(final(ds)@),
        final(ds)@.len() == old(ds)@.len(),
        forall|i: int| 0 <= i < final(ds)@.len() ==> #[trigger] moved(old(ds)@[i], *vehicle, delta_ms, final(ds)@[i]),
        forall|i: int| 0 <= i < final(ds)@.len() ==> (#[trigger] final(ds)@[i]).is_dead() == old(ds)@[i].is_dead(),
{
    let mut i: usize = 0;
    while i < ds.len()
        invariant
            i <= ds@.len(),
            ds@.len() == old(ds)@.len(),
            all_wf(ds@),
            vehicle.wf(),
            forall|k: int| 0 <= k < ds@.len() ==> (#[trigger] ds@[k]).is_dead() == old(ds)@[k].is_dead(),
            forall|k: int| 0 <= k < i ==> #[trigger] moved(old(ds)@[k], *vehicle, delta_ms, ds@[k]),
            forall|k: int| i <= k < ds@.len() ==> #[trigger] ds@[k] == old(ds)@[k],
        decreases ds@.len() - i,
    {
        let ghost before = ds@;
        assert(before[i as int].wf());
        let mut d = ds.remove(i);
        d.advance(vehicle, delta_ms);
        ds.insert(i, d);
        proof {
            assert forall|k: int| 0 <= k < ds@.len() implies (#[trigger] ds@[k]).wf() && ds@[k].is_dead() == old(ds)@[k].is_dead() by {
                if k != i {
                    assert(ds@[k] == before[k]);
                }
            }
            assert forall|k: int| 0 <= k < i + 1 implies #[trigger] moved(old(ds)@[k], *vehicle, delta_ms, ds@[k]) by {
                if k < i {
                    assert(ds@[k] == before[k]);
                }
            }
            assert forall|k: int| i + 1 <= k < ds@.len() implies #[trigger] ds@[k] == old(ds)@[k] by {
                assert(ds@[k] == before[k]);
            }
        }
        i = i + 1;
    }
}

/// Lets every attacking creature strike the vehicle where it can; returns
/// the attacks, in order.
/// Step `k` of an attack trace: creature `k` attacks, taking the vehicle's
/// health from `hs[k]` to `hs[k + 1]`.
pub open spec fn attack_step(d0s: Seq<Dinosaur>, vehicle: Point, hs: Seq<VehicleHealth>, d1s: Seq<Dinosaur>, k: int) -> bool {
    exists|ev: Option<DinoAttackEvent>| #[trigger] attacked(d0s[k], vehicle, hs[k], d1s[k], hs[k + 1], ev)
}

/// The creatures `d0s` attack one by one, becoming `d1s`, while the
/// vehicle's health runs through `hs`.
pub open spec fn attack_trace(d0s: Seq<Dinosaur>, vehicle: Point, hs: Seq<VehicleHealth>, d1s: Seq<Dinosaur>) -> bool {
    &&& d1s.len() == d0s.len()
    &&& hs.len() == d0s.len() + 1
    &&& forall|k: int| 0 <= k < d0s.len() ==> #[trigger] attack_step(d0s, vehicle, hs, d1s, k)
}

fn attack_all(ds: &mut Vec<Dinosaur>, vehicle: &Point, health: &mut VehicleHealth) -> (attacks: Vec<DinoAttackEvent>)
    requires
        all_wf(old(ds)@),
        vehicle.wf(),
    ensures
        all_wf(final(ds)@),
        final(ds)@.len() == old(ds)@.len(),
        final(health).current <= old(health).current,
        final(health).max == old(health).max,
        forall|i: int| 0 <= i < final(ds)@.len() ==> (#[trigger] final(ds)@[i]).is_dead() == old(ds)@[i].is_dead(),
        exists|hs: Seq<VehicleHealth>|
            #[trigger] attack_trace(old(ds)@, *vehicle, hs, final(ds)@) && hs[0] == *old(health) && hs[old(ds)@.len() as int]
                == *final(health),
{
    let mut attacks: Vec<DinoAttackEvent> = Vec::new();
    let ghost mut hs: Seq<VehicleHealth> = seq![*health];
    let mut i: usize = 0;
    while i < ds.len()
        invariant
            i <= ds@.len(),
            ds@.len() == old(ds)@.len(),
            all_wf(ds@),
            vehicle.wf(),
            health.current <= old(health).current,
            health.max == old(health).max,
            forall|k: int| 0 <= k < ds@.len() ==> (#[trigger] ds@[k]).is_dead() == old(ds)@[k].is_dead(),
            hs.len() == i + 1,
            hs[0] == *old(health),
            hs[i as int] == *health,
            forall|k: int| 0 <= k < i ==> #[trigger] attack_step(old(ds)@, *vehicle, hs, ds@, k),
            forall|k: int| i <= k < ds@.len() ==> #[trigger] ds@[k] == old(ds)@[k],
        decreases ds@.len() - i,
    {
        let ghost before = ds@;
        let ghost h_before = *health;
        let ghost hs_before = hs;
        assert(before[i as int].wf());
        let mut d = ds.remove(i);
        let ev = d.resolve_attack(vehicle, health);
        ds.insert(i, d);
        proof {
            hs = hs.push(*health);
            assert(attacked(old(ds)@[i as int], *vehicle, hs[i as int], ds@[i as int], hs[i + 1], ev));
            assert forall|k: int| 0 <= k < i + 1 implies #[trigger] attack_step(old(ds)@, *vehicle, hs, ds@, k) by {
                if k < i {
                    assert(ds@[k] == before[k]);
                    assert(attack_step(old(ds)@, *vehicle, hs_before, before, k));
                    let e = choose|e: Option<DinoAttackEvent>| #[trigger] attacked(old(ds)@[k], *vehicle, hs_before[k], before[k], hs_before[k + 1], e);
                    assert(attacked(old(ds)@[k], *vehicle, hs[k], ds@[k], hs[k + 1], e));
                } else {
                    assert(attacked(old(ds)@[k], *vehicle, hs[k], ds@[k], hs[k + 1], ev));
                }
            }
            assert forall|k: int| i + 1 <= k < ds@.len() implies #[trigger] ds@[k] == old(ds)@[k] by {
                assert(ds@[k] == before[k]);
            }
            assert forall|k: int| 0 <= k < ds@.len() implies (#[trigger] ds@[k]).wf() && ds@[k].is_dead() == old(ds)@[k].is_dead() by {
                if k != i {
                    assert(ds@[k] == before[k]);
                }
            }
        }
        if let Some(a) = ev {
            attacks.push(a);
        }
        i = i + 1;
    }
    assert(attack_trace(old(ds)@, *vehicle, hs, ds@));
    attacks
}

/// How many creatures of `ds` are alive.
pub open spec fn living_count(ds: Seq<Dinosaur>) -> int
    decreases ds.len(),
{
    if ds.len() == 0 {
        0
    } else {
        living_count(ds.drop_last()) + if ds.last().is_dead() {
            0int
        } else {
            1int
        }
    }
}

/// The creatures of `ds` after `delta` milliseconds of their falls, without
/// those whose fall is then over, in order.
pub open spec fn survivors(ds: Seq<Dinosaur>, delta: int) -> Seq<Dinosaur>
    decreases ds.len(),
{
    if ds.len() == 0 {
        Seq::empty()
    } else {
        let rest = survivors(ds.drop_last(), delta);
        if fall_over(ds.last(), delta) {
            rest
        } else {
            rest.push(fall_step(ds.last(), delta))
        }
    }
}

/// Advances the fall of the dead and removes those whose fall is over.
/// The living all stay, in order.
fn clear_dead(ds: &mut Vec<Dinosaur>, delta_ms: u64) -> (removed: u64)
    requires
        all_wf(old(ds)@),
    ensures
        final(ds)@ == survivors(old(ds)@, delta_ms as int),
        forall|i: int| 0 <= i < final(ds)@.len() ==> !(#[trigger] final(ds)@[i]).fall_done(),
        all_wf(final(ds)@),
        final(ds)@.len() + removed == old(ds)@.len(),
        living_count(old(ds)@) <= final(ds)@.len(),
{
    let mut kept: Vec<Dinosaur> = Vec::new();
    let mut removed: u64 = 0;
    let n = ds.len();
    let mut i: usize = 0;
    while i < n
        invariant
            n == old(ds)@.len(),
            ds@.len() == n - i,
            i <= n,
            ds@ == old(ds)@.skip(i as int),
            all_wf(old(ds)@),
            all_wf(kept@),
            kept@.len() + removed == i,
            living_count(old(ds)@.take(i as int)) <= kept@.len(),
            kept@ == survivors(old(ds)@.take(i as int), delta_ms as int),
            forall|k: int| 0 <= k < kept@.len() ==> !(#[trigger] kept@[k]).fall_done(),
        decreases n - i,
    {
        let ghost prefix = old(ds)@.take(i as int);
        let mut d = ds.remove(0);
        assert(d == old(ds)@[i as int]);
        assert(old(ds)@.take(i as int + 1).drop_last() == prefix);
        assert(old(ds)@.take(i as int + 1).last() == d);
        assert(d.wf());
        let gone = d.update_death(delta_ms);
        if gone {
            removed = removed + 1;
        } else {
            kept.push(d);
        }
        assert(ds@ == old(ds)@.skip(i as int + 1));
        i = i + 1;
    }
    assert(old(ds)@.take(n as int) == old(ds)@);
    *ds = kept;
    removed
}

/// Adds the freshly fired projectiles to those in flight.
fn push_all(ps: &mut Vec<Projectile>, fired: &Vec<Projectile>)
    requires
        all_flying_wf(old(ps)@),
        all_flying_wf(fired@),
    ensures
        final(ps)@ == old(ps)@ + fired@,
        all_flying_wf(final(ps)@),
{
    let mut k: usize = 0;
    while k < fired.len()
        invariant
            k <= fired@.len(),
            all_flying_wf(fired@),
            ps@ == old(ps)@ + fired@.take(k as int),
            all_flying_wf(ps@),
        decreases fired@.len() - k,
    {
        assert(fired@[k as int].wf());
        ps.push(fired[k]);
        assert(fired@.take(k as int + 1) == fired@.take(k as int).push(fired@[k as int]));
        k = k + 1;
    }
    assert(fired@.take(fired@.len() as int) == fired@);
}

/// Appends the hits `more` to `hits`.
fn append_hits(hits: &mut Vec<BulletHitEvent>, more: &Vec<BulletHitEvent>)
    requires
        hits_bounded(old(hits)@),
        hits_bounded(more@),
    ensures
        final(hits)@ == old(hits)@ + more@,
        hits_bounded(final(hits)@),
{
    let mut k: usize = 0;
    while k < more.len()
        invariant
            k <= more@.len(),
            hits_bounded(more@),
            hits@ == old(hits)@ + more@.take(k as int),
            hits_bounded(hits@),
        decreases more@.len() - k,
    {
        assert(more@[k as int].damage <= MAX_HIT_DAMAGE);
        hits.push(more[k]);
        assert(more@.take(k as int + 1) == more@.take(k as int).push(more@[k as int]));
        k = k + 1;
    }
    assert(more@.take(more@.len() as int) == more@);
}

/// The hits of the blasts `bs` on the creatures `ds`, blast by blast.
pub open spec fn all_blast_hits(bs: Seq<RocketExplosionEvent>, ds: Seq<Dinosaur>) -> Seq<BulletHitEvent>
    decreases bs.len(),
{
    if bs.len() == 0 {
        Seq::empty()
    } else {
        all_blast_hits(bs.drop_last(), ds) + blast_hits(bs.last(), ds)
    }
}

/// The hits of every blast on the creatures, blast by blast.
fn blast_damage(blasts: &Vec<RocketExplosionEvent>, ds: &Vec<Dinosaur>) -> (hits: Vec<BulletHitEvent>)
    requires
        forall|k: int| 0 <= k < blasts@.len() ==> blast_wf(#[trigger] blasts@[k]),
        all_wf(ds@),
    ensures
        hits@ == all_blast_hits(blasts@, ds@),
        hits_bounded(hits@),
{
    let mut hits: Vec<BulletHitEvent> = Vec::new();
    let mut b: usize = 0;
    while b < blasts.len()
        invariant
            b <= blasts@.len(),
            forall|k: int| 0 <= k < blasts@.len() ==> blast_wf(#[trigger] blasts@[k]),
            all_wf(ds@),
            hits_bounded(hits@),
            hits@ == all_blast_hits(blasts@.take(b as int), ds@),
        decreases blasts@.len() - b,
    {
        assert(blast_wf(blasts@[b as int]));
        assert(blasts@.take(b as int + 1).drop_last() == blasts@.take(b as int));
        assert(blasts@.take(b as int + 1).last() == blasts@[b as int]);
        let more = explosion_hits(&blasts[b], ds);
        proof {
            assert forall|k: int| 0 <= k < more@.len() implies (#[trigger] more@[k]).damage <= MAX_HIT_DAMAGE by {
                crate::collision::lemma_blast_hits_bounded(blasts@[b as int], ds@, k);
            }
        }
        append_hits(&mut hits, &more);
        b = b + 1;
    }
    assert(blasts@.take(blasts@.len() as int) == blasts@);
    hits
}

/// The projectiles `fired` this tick (their number is `shots`, and they
/// are of the weapon in hand) joined those in flight in `w`; then all flew
/// for the tick, giving the `blasts`; then the `hits` are the blast hits
/// followed by the strikes on the creatures of `w`, and `after` is what
/// still flies.
pub open spec fn fired_and_flown(
    w: World,
    input: TickInput,
    fired: Seq<Projectile>,
    shots: int,
    blasts: Seq<RocketExplosionEvent>,
    hits: Seq<BulletHitEvent>,
    after: Seq<Projectile>,
) -> bool {
    let flying = w.projectiles@ + fired;
    let d = input.delta_ms as int;
    &&& fired.len() == shots
    &&& forall|k: int|
        0 <= k < fired.len() ==> {
            &&& (#[trigger] fired[k]).bullet.damage == damage_of(w.weapons.current_weapon)
            &&& fired[k].bullet.weapon_type == w.weapons.current_weapon
        }
    &&& blasts == blasts_of(flying, d)
    &&& hits == all_blast_hits(blasts_of(flying, d), w.dinos@) + strike_hits(w.dinos@, still_flying(flying, d))
    &&& after == unstruck(w.dinos@, still_flying(flying, d))
}

/// The creatures and tallies of a tick: the `hits` applied in order take
/// the creatures and tallies of `w` to `s1` and `l1`; the combo and the
/// timed round then count down; each creature thinks (with some wander
/// draw), giving `s2`, moves, giving `s3`, and attacks in turn, giving `s4`
/// and taking the vehicle's health to `health`; the creatures whose fall is
/// then over are gone, leaving `dinos`.
pub open spec fn tick_creatures(
    w: World,
    input: TickInput,
    hits: Seq<BulletHitEvent>,
    s1: Seq<Dinosaur>,
    l1: Ledger,
    s2: Seq<Dinosaur>,
    s3: Seq<Dinosaur>,
    s4: Seq<Dinosaur>,
    dinos: Seq<Dinosaur>,
    ledger: Ledger,
    health: VehicleHealth,
) -> bool {
    let d = input.delta_ms;
    let c = with_update(l1.combo, d as int);
    &&& hits_applied(w.dinos@, w.ledger, hits, s1, l1)
    &&& ledger == (Ledger { combo: c, time_attack: round_ticked(l1.time_attack, d as int, c.current_combo), ..l1 })
    &&& s2.len() == s1.len()
    &&& forall|i: int| 0 <= i < s1.len() ==> #[trigger] thought_with_some_draw(s1[i], input.vehicle, d, s2[i])
    &&& s3.len() == s2.len()
    &&& forall|i: int| 0 <= i < s2.len() ==> #[trigger] moved(s2[i], input.vehicle, d, s3[i])
    &&& exists|hs: Seq<VehicleHealth>|
        #[trigger] attack_trace(s3, input.vehicle, hs, s4) && hs[0] == w.vehicle_health && hs[s3.len() as int] == health
    &&& dinos == survivors(s4, d as int)
}

/// What the core consumes each tick.
#[derive(Clone, Copy, Debug, PartialEq, Eq, Structural)]
pub struct TickInput {
    pub delta_ms: u64,
    /// The fire button is held.
    pub shooting: bool,
    /// The fire-at-lock button is held.
    pub lock_fire: bool,
    /// The creature locked on, if any.
    pub locked_target: Option<u64>,
    /// Where the turret is, and where it faces (a unit direction).
    pub turret: Point,
    pub turret_forward: Direction,
    /// Where the vehicle is.
    pub vehicle: Point,
}

/// What happened during a tick, for the presentation.
pub struct TickReport {
    pub shots: u64,
    pub blasts: Vec<RocketExplosionEvent>,
    pub hits: Vec<BulletHitEvent>,
    pub kills: u64,
    pub attacks: Vec<DinoAttackEvent>,
    pub removed: u64,
}

/// The state of the combat core.
pub struct World {
    pub dinos: Vec<Dinosaur>,
    pub projectiles: Vec<Projectile>,
    pub vehicle_position: Point,
    pub vehicle_health: VehicleHealth,
    pub ledger: Ledger,
    pub weapons: WeaponInventory,
    pub weapon_state: WeaponState,
    pub clock_ms: u64,
    pub next_id: u64,
}

impl World {
    pub open spec fn wf(&self) -> bool {
        &&& all_wf(self.dinos@)
        &&& all_flying_wf(self.projectiles@)
        &&& self.vehicle_position.wf()
        &&& self.ledger.wf()
        &&& self.weapons.wf()
    }

    /// An empty world: no creatures, the vehicle at the origin and whole,
    /// empty tallies, all weapons unlocked.
    pub fn new(time_attack_ms: u64) -> (w: World)
        ensures
            w.wf(),
            w.dinos@.len() == 0,
            w.projectiles@.len() == 0,
            w.vehicle_health == (VehicleHealth { current: 100_000, max: 100_000 }),
            w.ledger.score.score == 0,
            w.ledger.coins.total_coins == 0,
            w.clock_ms == 0,
    {
        World {
            dinos: Vec::new(),
            projectiles: Vec::new(),
            vehicle_position: Point::origin(),
            vehicle_health: VehicleHealth::new(),
            ledger: Ledger::new(time_attack_ms),
            weapons: WeaponInventory::new(),
            weapon_state: WeaponState::new(),
            clock_ms: 0,
            next_id: 0,
        }
    }

    /// Starts over: the score goes back to zero, and the creatures and
    /// projectiles are gone; the coins and the weapons stay.
    pub fn restart(&mut self)
        requires
            old(self).wf(),
        ensures
            final(self).wf(),
            final(self).ledger.score.score == 0,
            final(self).dinos@.len() == 0,
            final(self).projectiles@.len() == 0,
            final(self).ledger.coins == old(self).ledger.coins,
            final(self).ledger.combo == old(self).ledger.combo,
            final(self).weapons.current_weapon == old(self).weapons.current_weapon,
            final(self).vehicle_health == old(self).vehicle_health,
    {
        self.ledger.score.score = 0;
        self.dinos = Vec::new();
        self.projectiles = Vec::new();
    }

    /// Adds a creature of `species` at `position`; returns its id.
    pub fn add_dino(&mut self, species: crate::dino::DinoSpecies, position: Point) -> (id: u64)
        requires
            old(self).wf(),
            position.wf(),
        ensures
            final(self).wf(),
            final(self).dinos@.len() == old(self).dinos@.len() + 1,
            final(self).dinos@.last().id == id,
            crate::dino::fresh(final(self).dinos@.last(), species, position),
            forall|i: int| 0 <= i < old(self).dinos@.len() ==> final(self).dinos@[i] == old(self).dinos@[i],
            final(self).projectiles@ == old(self).projectiles@,
            final(self).ledger == old(self).ledger,
    {
        let id = self.next_id;
        self.next_id = if self.next_id < u64::MAX { self.next_id + 1 } else { 0 };
        let d = Dinosaur::spawn(id, species, position);
        self.dinos.push(d);
        proof {
            assert forall|i: int| 0 <= i < self.dinos@.len() implies (#[trigger] self.dinos@[i]).wf() by {
                if i < old(self).dinos@.len() {
                    assert(self.dinos@[i] == old(self).dinos@[i]);
                }
            }
        }
        id
    }

    /// Brings in a herd as `config` says, each creature placed at random;
    /// draws that fall too near the origin are skipped, so the whole herd
    /// comes when no distance from the origin is asked for. The creatures
    /// already there stay as they were.
    pub fn spawn_herd(&mut self, config: &DinoSpawnConfig) -> (added: u32)
        requires
            old(self).wf(),
            config.wf(),
        ensures
            final(self).wf(),
            added <= config.count,
            config.min_distance_from_player == 0 ==> added == config.count,
            final(self).dinos@.len() == old(self).dinos@.len() + added,
            forall|i: int| 0 <= i < old(self).dinos@.len() ==> #[trigger] final(self).dinos@[i] == old(self).dinos@[i],
            forall|i: int|
                old(self).dinos@.len() <= i < final(self).dinos@.len() ==> {
                    let d = #[trigger] final(self).dinos@[i];
                    &&& crate::dino::fresh(d, d.species, d.position)
                    &&& exists|j: int| 0 <= j < config.count && crate::dino::spawn_draw(*config, j, d.species, d.position)
                },
            final(self).projectiles@ == old(self).projectiles@,
            final(self).ledger == old(self).ledger,
    {
        let mut added: u32 = 0;
        let mut i: u32 = 0;
        while i < config.count
            invariant
                self.wf(),
                config.wf(),
                i <= config.count,
                added <= i,
                config.min_distance_from_player == 0 ==> added == i,
                self.dinos@.len() == old(self).dinos@.len() + added,
                forall|k: int| 0 <= k < old(self).dinos@.len() ==> #[trigger] self.dinos@[k] == old(self).dinos@[k],
                forall|k: int|
                    old(self).dinos@.len() <= k < self.dinos@.len() ==> {
                        let d = #[trigger] self.dinos@[k];
                        &&& crate::dino::fresh(d, d.species, d.position)
                        &&& exists|j: int| 0 <= j < config.count && crate::dino::spawn_draw(*config, j, d.species, d.position)
                    },
                self.projectiles@ == old(self).projectiles@,
                self.ledger == old(self).ledger,
            decreases config.count - i,
        {
            if let Some((species, p)) = roll_spawn(config, i) {
                let ghost before = self.dinos@;
                self.add_dino(species, p);
                assert(crate::dino::spawn_draw(*config, i as int, species, p));
                proof {
                    assert forall|k: int| old(self).dinos@.len() <= k < self.dinos@.len() implies {
                        let d = #[trigger] self.dinos@[k];
                        &&& crate::dino::fresh(d, d.species, d.position)
                        &&& exists|j: int| 0 <= j < config.count && crate::dino::spawn_draw(*config, j, d.species, d.position)
                    } by {
                        if k < before.len() {
                            assert(self.dinos@[k] == before[k]);
                        } else {
                            assert(self.dinos@[k] == self.dinos@.last());
                        }
                    }
                }
                added = added + 1;
            }
            i = i + 1;
        }
        added
    }

    /// One tick of the core, in its fixed order: fire (when asked and the
    /// fire rate allows), fly the projectiles, resolve blasts and strikes
    /// into hits, apply the hits, let the combo and the timed round count
    /// down, let the creatures think, move and attack, and remove the dead
    /// whose fall is over.
    pub fn tick(&mut self, input: &TickInput) -> (report: TickReport)
        requires
            old(self).wf(),
            input.turret.wf(),
            input.turret_forward.wf(),
            input.turret_forward.near_unit(),
            input.vehicle.wf(),
        ensures
            final(self).wf(),
            final(self).clock_ms == (if old(self).clock_ms + input.delta_ms > u64::MAX {
                u64::MAX as int
            } else {
                old(self).clock_ms + input.delta_ms
            }),
            final(self).vehicle_position == input.vehicle,
            final(self).vehicle_health.current <= old(self).vehicle_health.current,
            final(self).ledger.score.score >= old(self).ledger.score.score,
            final(self).ledger.coins.total_coins >= old(self).ledger.coins.total_coins,
            report.kills <= report.hits@.len(),
            forall|i: int| 0 <= i < final(self).dinos@.len() ==> !(#[trigger] final(self).dinos@[i]).fall_done(),
            final(self).dinos@.len() + report.removed == old(self).dinos@.len(),
            !(input.shooting || (input.lock_fire && input.locked_target is Some)) ==> {
                &&& report.shots == 0
                &&& final(self).weapon_state == old(self).weapon_state
                &&& report.hits@ == all_blast_hits(blasts_of(old(self).projectiles@, input.delta_ms as int), old(self).dinos@)
                    + strike_hits(old(self).dinos@, still_flying(old(self).projectiles@, input.delta_ms as int))
                &&& report.blasts@ == blasts_of(old(self).projectiles@, input.delta_ms as int)
                &&& final(self).projectiles@ == unstruck(
                    old(self).dinos@,
                    still_flying(old(self).projectiles@, input.delta_ms as int),
                )
            },
            final(self).weapons == old(self).weapons,
            ({
                let asked = input.shooting || (input.lock_fire && input.locked_target is Some);
                let w = old(self).weapons.current_weapon;
                let ok = shot_allowed(old(self).weapon_state.last_shot_ms as int, final(self).clock_ms as int, fire_rate_of(w) as int);
                &&& asked && ok ==> report.shots == pellet_count_of(w) && final(self).weapon_state.last_shot_ms == final(self).clock_ms
                &&& asked && !ok ==> report.shots == 0 && final(self).weapon_state == old(self).weapon_state
            }),
            exists|s1: Seq<Dinosaur>, l1: Ledger, s2: Seq<Dinosaur>, s3: Seq<Dinosaur>, s4: Seq<Dinosaur>|
                #[trigger] tick_creatures(*old(self), *input, report.hits@, s1, l1, s2, s3, s4, final(self).dinos@, final(self).ledger, final(self).vehicle_health),
            exists|fired: Seq<Projectile>|
                #[trigger] fired_and_flown(*old(self), *input, fired, report.shots as int, report.blasts@, report.hits@, final(self).projectiles@),
    {
        let delta = input.delta_ms;
        self.clock_ms = if self.clock_ms > u64::MAX - delta { u64::MAX } else { self.clock_ms + delta };
        self.vehicle_position = input.vehicle;

        let mut shots: u64 = 0;
        let ghost mut fired_seq: Seq<Projectile> = Seq::empty();
        let wants_lock = input.lock_fire && input.locked_target.is_some();
        if input.shooting || wants_lock {
            let target = match input.locked_target {
                Some(id) => match find_dino(&self.dinos, id) {
                    Some(i) => {
                        assert(self.dinos@[i as int].wf());
                        Some(self.dinos[i].position)
                    },
                    None => None,
                },
                None => None,
            };
            let aim = choose_aim(input.turret_forward, &input.turret, target, wants_lock);
            let fired = self.weapon_state.fire(self.clock_ms, self.weapons.current_weapon, &input.turret, aim);
            shots = fired.len() as u64;
            push_all(&mut self.projectiles, &fired);
            proof {
                fired_seq = fired@;
            }
        } else {
            assert(self.projectiles@ =~= old(self).projectiles@ + fired_seq);
        }
        let ghost flying = self.projectiles@;
        let ghost dinos_before = self.dinos@;

        let blasts = fly_projectiles(&mut self.projectiles, delta);

        let mut hits = blast_damage(&blasts, &self.dinos);
        let strikes = strike_projectiles(&mut self.projectiles, &self.dinos);
        append_hits(&mut hits, &strikes);

        let kills = apply_hits(&hits, &mut self.dinos, &mut self.ledger);
        let ghost s1 = self.dinos@;
        let ghost l1 = self.ledger;
        self.ledger.combo.update(delta);
        let streak = self.ledger.combo.current_combo;
        self.ledger.time_attack.update(delta, streak);

        think_all(&mut self.dinos, &input.vehicle, delta);
        let ghost s2 = self.dinos@;
        move_all(&mut self.dinos, &input.vehicle, delta);
        let ghost s3 = self.dinos@;
        let attacks = attack_all(&mut self.dinos, &input.vehicle, &mut self.vehicle_health);
        let ghost s4 = self.dinos@;
        let removed = clear_dead(&mut self.dinos, delta);

        assert(flying == old(self).projectiles@ + fired_seq);
        assert(dinos_before == old(self).dinos@);
        let report = TickReport { shots, blasts, hits, kills, attacks, removed };
        assert(tick_creatures(*old(self), *input, report.hits@, s1, l1, s2, s3, s4, self.dinos@, self.ledger, self.vehicle_health));
        assert(fired_and_flown(
            *old(self),
            *input,
            fired_seq,
            report.shots as int,
            report.blasts@,
            report.hits@,
            self.projectiles@,
        ));
        report
    }
}

} // verus!
