//! The creature AI: the pause after a wound, the state transitions driven
//! by the distance to the vehicle, wandering, movement, and attacks on the
//! vehicle.
use vstd::prelude::*;
use crate::dino::{
    AIState, DamageReaction, DinoAttackEvent, Dinosaur, attack_damage_of, FLEE_BOOST,
};
use crate::geom::{
    Heading, Point, clamp_coord, clamp_world, direction_toward, dist_sq, heading_toward, is_beyond,
    is_within, unit_direction, within, beyond, UNIT, WORLD_BOUND,
};
use crate::random::random_in;
use crate::timer::{Timer, ticked};
use crate::vehicle::{VehicleHealth, health_after};

verus! {

/// Distance to the vehicle below which a creature takes flight.
pub const THREAT_RADIUS: u64 = 30_000;

/// Distance to the vehicle beyond which a fleeing creature calms down.
pub const SAFE_RADIUS: u64 = 60_000;

/// Distance to its wander target at which a creature picks a new one.
pub const WANDER_REACH: u64 = 5000;

/// Shortest and longest distance of a new wander target.
pub const WANDER_MIN: i64 = 20_000;
pub const WANDER_MAX: i64 = 50_000;

/// Distance to the vehicle below which an attacking creature strikes.
pub const MELEE_RANGE: u64 = 3000;

/// Speed multiplier of an attacking creature, in tenths (×1.5).
pub const ATTACK_SPEED: u64 = 15;

/// The state that the transition rules give a creature in `state` at squared
/// distance `d2` from the vehicle, with attack range `range` and an attack
/// ready or not: attack when in range and ready; else flee when threatened
/// and neither fleeing nor attacking; then calm down once a flight has
/// taken it far enough.
pub open spec fn transition(state: AIState, d2: int, range: int, ready: bool) -> AIState {
    let s = if range > 0 && d2 < range * range && ready {
        AIState::Attack
    } else if d2 < THREAT_RADIUS * THREAT_RADIUS && state != AIState::Flee && state
        != AIState::Attack {
        AIState::Flee
    } else {
        state
    };
    if s == AIState::Flee && d2 > SAFE_RADIUS * SAFE_RADIUS {
        AIState::Roam
    } else {
        s
    }
}

/// The wound reaction of `d` after `delta` more milliseconds: gone once its
/// pause is over.
pub open spec fn reaction_after(d: Dinosaur, delta: int) -> Option<DamageReaction> {
    match d.reaction {
        None => None,
        Some(r) => {
            let t = ticked(r.pause_timer, delta);
            if t.is_finished() {
                None
            } else {
                Some(DamageReaction { pause_timer: t, flee_boost: r.flee_boost })
            }
        },
    }
}

/// Whether the pause after a wound ends during this step.
pub open spec fn recovers(d: Dinosaur, delta: int) -> bool {
    d.reaction is Some && reaction_after(d, delta) is None
}

/// Whether transitions are suspended during this step.
pub open spec fn paused(d: Dinosaur, delta: int) -> bool {
    reaction_after(d, delta) is Some
}

/// The state of a living creature after one step of thought.
pub open spec fn state_after(d: Dinosaur, vehicle: Point, delta: int) -> AIState {
    let s = if recovers(d, delta) {
        AIState::Flee
    } else {
        d.ai.state
    };
    if paused(d, delta) {
        s
    } else {
        transition(
            s,
            dist_sq(vehicle, d.position),
            d.ai.attack_range as int,
            ticked(d.ai.attack_cooldown, delta).is_finished(),
        )
    }
}

/// The point `dist` away from `pos` along the unit heading `h`.
pub open spec fn wander_point(pos: Point, h: Heading, dist: int) -> Point {
    Point {
        x: clamp_world(pos.x + h.x * dist / UNIT as int) as i64,
        y: pos.y,
        z: clamp_world(pos.z + h.z * dist / UNIT as int) as i64,
    }
}

/// Whether a roaming creature needs a new wander target.
pub open spec fn needs_target(pos: Point, target: Option<Point>) -> bool {
    match target {
        None => true,
        Some(t) => within(pos, t, WANDER_REACH as int),
    }
}

/// One step of thought takes `d0` to `d1` (see `Dinosaur::think`).
pub open spec fn thought(d0: Dinosaur, vehicle: Point, delta_ms: u64, heading: Heading, wander_dist: u64, d1: Dinosaur) -> bool {
    &&& (d0.is_dead() ==> d1 == d0)
    &&& (!d0.is_dead() ==> {
        let d = d0;
        let s = state_after(d, vehicle, delta_ms as int);
        let fled = s == AIState::Flee && d.ai.state != AIState::Flee;
        &&& d1.ai.state == s
        &&& d1.reaction == reaction_after(d, delta_ms as int)
        &&& d1.ai.attack_cooldown == ticked(d.ai.attack_cooldown, delta_ms as int)
        &&& d1.ai.flee_direction == (if fled {
            heading_toward(vehicle, d.position)
        } else {
            d.ai.flee_direction
        })
        &&& d1.boosted == (s == AIState::Flee && (d.boosted || recovers(
            d,
            delta_ms as int,
        )))
        &&& d1.ai.wander_target == (if fled {
            None
        } else if s == AIState::Roam && needs_target(
            d.position,
            d.ai.wander_target,
        ) {
            Some(wander_point(d.position, heading, wander_dist as int))
        } else {
            d.ai.wander_target
        })
    })
    &&& (d1.ai.move_speed == d0.ai.move_speed)
    &&& (d1.ai.attack_range == d0.ai.attack_range)
    &&& (d1.id == d0.id)
    &&& (d1.species == d0.species)
    &&& (d1.health == d0.health)
    &&& (d1.position == d0.position)
    &&& (d1.facing == d0.facing)
    &&& (d1.death == d0.death)
    &&& (d1.hit_boxes@ == d0.hit_boxes@)
}

impl Dinosaur {
    /// One step of thought of a creature, `delta_ms` after the last one,
    /// with the vehicle at `vehicle`. `heading` and `wander_dist` are the
    /// draws for a wander target, used only where one is needed.
    ///
    /// A dead creature does nothing. A wounded one counts down its pause;
    /// when the pause ends it takes flight, faster than usual for the rest
    /// of that flight. While paused, its state stays (but a roaming creature
    /// still picks a wander target when it needs one). Otherwise the
    /// transition rules apply. Taking flight fixes the direction away from
    /// the vehicle and drops the wander target. A roaming creature with no
    /// target, or within reach of it, picks a new one.
    pub fn think(&mut self, vehicle: &Point, delta_ms: u64, heading: Heading, wander_dist: u64)
        requires
            old(self).wf(),
            vehicle.wf(),
            heading.wf(),
            wander_dist <= WORLD_BOUND,
        ensures
            final(self).wf(),
            thought(*old(self), *vehicle, delta_ms, heading, wander_dist, *final(self)),
    {
        if self.ai.state == AIState::Dead {
            return;
        }
        let start = self.ai.state;
        let mut paused = false;
        let mut recovered = false;
        match self.reaction {
            None => {},
            Some(r) => {
                let mut t = r.pause_timer;
                t.tick(delta_ms);
                if t.finished() {
                    self.reaction = None;
                    recovered = true;
                } else {
                    self.reaction = Some(DamageReaction { pause_timer: t, flee_boost: r.flee_boost });
                    paused = true;
                }
            },
        }
        self.ai.attack_cooldown.tick(delta_ms);
        let mut s = if recovered {
            AIState::Flee
        } else {
            start
        };
        if !paused {
            s = next_state(s, vehicle, &self.position, self.ai.attack_range, self.ai.attack_cooldown.finished());
        }
        self.ai.state = s;
        if s == AIState::Flee && start != AIState::Flee {
            self.ai.flee_direction = direction_toward(vehicle, &self.position);
            self.ai.wander_target = None;
        }
        self.boosted = s == AIState::Flee && (self.boosted || recovered);
        if s == AIState::Roam {
            let renew = match self.ai.wander_target {
                None => true,
                Some(t) => is_within(&self.position, &t, WANDER_REACH),
            };
            if renew {
                self.ai.wander_target = Some(wander_target_from(&self.position, heading, wander_dist));
            }
        }
    }
}

/// The state that the transition rules give, for a creature at `pos`.
pub fn next_state(state: AIState, vehicle: &Point, pos: &Point, range: u64, ready: bool) -> (s: AIState)
    requires
        vehicle.wf(),
        pos.wf(),
    ensures
        s == transition(state, dist_sq(*vehicle, *pos), range as int, ready),
{
    let s = if range > 0 && is_within(vehicle, pos, range) && ready {
        AIState::Attack
    } else if is_within(vehicle, pos, THREAT_RADIUS) && state != AIState::Flee && state != AIState::Attack {
        AIState::Flee
    } else {
        state
    };
    if s == AIState::Flee && is_beyond(vehicle, pos, SAFE_RADIUS) {
        AIState::Roam
    } else {
        s
    }
}

/// The point `dist` away from `pos` along the unit heading `h`.
pub fn wander_target_from(pos: &Point, h: Heading, dist: u64) -> (p: Point)
    requires
        pos.wf(),
        h.wf(),
        dist <= WORLD_BOUND,
    ensures
        p == wander_point(*pos, h, dist as int),
        p.wf(),
{
    assert(-1_000_000_000_000_000 <= h.x * dist <= 1_000_000_000_000_000) by (nonlinear_arith)
        requires
            -1000 <= h.x <= 1000,
            0 <= dist <= 1_000_000_000_000,
    ;
    assert(-1_000_000_000_000_000 <= h.z * dist <= 1_000_000_000_000_000) by (nonlinear_arith)
        requires
            -1000 <= h.z <= 1000,
            0 <= dist <= 1_000_000_000_000,
    ;
    let dx = crate::geom::floor_div_unit(h.x * dist as i64);
    let dz = crate::geom::floor_div_unit(h.z * dist as i64);
    Point { x: clamp_coord(pos.x + dx), y: pos.y, z: clamp_coord(pos.z + dz) }
}

/// Draws a heading of unit length, from a point drawn evenly in a ring.
fn roll_heading() -> (h: Heading)
    ensures
        h.wf(),
        crate::geom::near_unit(h),
{
    let mut tries: u32 = 0;
    let mut h = Heading { x: UNIT, z: 0 };
    while tries < 16
        invariant
            h.wf(),
            crate::geom::near_unit(h),
        ensures
            h.wf(),
            crate::geom::near_unit(h),
        decreases 16 - tries,
    {
        let x = random_in(-UNIT, UNIT + 1);
        let z = random_in(-UNIT, UNIT + 1);
        assert(0 <= x * x <= 1_000_000 && 0 <= z * z <= 1_000_000) by (nonlinear_arith)
            requires
                -1000 <= x <= 1000,
                -1000 <= z <= 1000,
        ;
        let s = x * x + z * z;
        if s > 250_000 && s <= 1_000_000 {
            proof {
                crate::geom::lemma_unit_of_near_unit(x as int, z as int);
            }
            h = unit_direction(x, z);
            break;
        }
        tries = tries + 1;
    }
    h
}

/// The offset of a wander target `dist` away along `h`, before it is kept
/// inside the world.
pub open spec fn wander_offset(h: Heading, dist: int) -> (int, int) {
    (h.x * dist / UNIT as int, h.z * dist / UNIT as int)
}

/// The offset lies from 20 up to 50 units away.
pub open spec fn in_wander_ring(o: (int, int)) -> bool {
    WANDER_MIN * WANDER_MIN <= o.0 * o.0 + o.1 * o.1 < WANDER_MAX * WANDER_MAX
}

/// Draws a heading and a distance for a new wander target: a direction of
/// unit length and a distance from 20 up to 50 units, drawn again until the
/// target's offset, once rounded, lies in that ring.
pub fn roll_wander() -> (r: (Heading, u64))
    ensures
        r.0.wf(),
        crate::geom::near_unit(r.0),
        WANDER_MIN <= r.1 < WANDER_MAX,
        in_wander_ring(wander_offset(r.0, r.1 as int)),
{
    let mut tries: u32 = 0;
    while tries < 16
        decreases 16 - tries,
    {
        let h = roll_heading();
        let d = random_in(WANDER_MIN, WANDER_MAX);
        assert(-50_000_000 <= h.x * d <= 50_000_000 && -50_000_000 <= h.z * d <= 50_000_000) by (nonlinear_arith)
            requires
                -1000 <= h.x <= 1000,
                -1000 <= h.z <= 1000,
                20_000 <= d < 50_000,
        ;
        let ox = crate::geom::floor_div_unit(h.x * d);
        let oz = crate::geom::floor_div_unit(h.z * d);
        assert(-50_000 <= ox <= 50_000 && -50_000 <= oz <= 50_000);
        assert(0 <= ox * ox <= 2_500_000_000 && 0 <= oz * oz <= 2_500_000_000) by (nonlinear_arith)
            requires
                -50_000 <= ox <= 50_000,
                -50_000 <= oz <= 50_000,
        ;
        let n = ox * ox + oz * oz;
        if WANDER_MIN * WANDER_MIN <= n && n < WANDER_MAX * WANDER_MAX {
            return (h, d as u64);
        }
        tries = tries + 1;
    }
    assert(in_wander_ring(wander_offset(Heading { x: UNIT, z: 0 }, 30_000))) by (nonlinear_arith);
    assert(crate::geom::near_unit(Heading { x: UNIT, z: 0 })) by (nonlinear_arith);
    (Heading { x: UNIT, z: 0 }, 30_000)
}

/// The horizontal direction in which a creature moves.
pub open spec fn move_heading(d: Dinosaur, vehicle: Point) -> Heading {
    match d.ai.state {
        AIState::Roam => match d.ai.wander_target {
            Some(t) => heading_toward(d.position, t),
            None => Heading { x: 0, z: 0 },
        },
        AIState::Flee => d.ai.flee_direction,
        AIState::Attack => heading_toward(d.position, vehicle),
        _ => Heading { x: 0, z: 0 },
    }
}

/// The speed multiplier of a creature, in tenths.
pub open spec fn speed_factor(d: Dinosaur) -> int {
    if d.ai.state == AIState::Flee && d.boosted {
        FLEE_BOOST as int
    } else if d.ai.state == AIState::Attack {
        ATTACK_SPEED as int
    } else {
        10
    }
}

/// Distance covered along one axis: component × speed × factor × time,
/// scaled back from thousandths, tenths and milliseconds (rounded down).
pub open spec fn axis_step(c: int, speed: int, factor: int, delta: int) -> int {
    c * speed * factor * delta / 10_000_000
}

/// `a` turned a tenth of the way toward `b`.
pub open spec fn ease(a: int, b: int) -> int {
    a + (b - a) / 10
}

/// Movement takes `d0` to `d1` (see `Dinosaur::advance`).
pub open spec fn moved(d0: Dinosaur, vehicle: Point, delta_ms: u64, d1: Dinosaur) -> bool {
    &&& (({
        let d = d0;
        let h = move_heading(d, vehicle);
        if d.ai.state == AIState::Dead || d.ai.state == AIState::Idle || (h.x == 0 && h.z == 0) {
            d1.position == d.position && d1.facing == d.facing
        } else {
            let f = speed_factor(d);
            &&& d1.position == (Point {
                x: clamp_world(d.position.x + axis_step(h.x as int, d.ai.move_speed as int, f, delta_ms as int)) as i64,
                y: d.position.y,
                z: clamp_world(d.position.z + axis_step(h.z as int, d.ai.move_speed as int, f, delta_ms as int)) as i64,
            })
            &&& d1.facing == (Heading {
                x: ease(d.facing.x as int, h.x as int) as i64,
                z: ease(d.facing.z as int, h.z as int) as i64,
            })
        }
    }))
    &&& (d1.ai == d0.ai)
    &&& (d1.id == d0.id)
    &&& (d1.species == d0.species)
    &&& (d1.health == d0.health)
    &&& (d1.reaction == d0.reaction)
    &&& (d1.boosted == d0.boosted)
    &&& (d1.death == d0.death)
    &&& (d1.hit_boxes@.len() == d0.hit_boxes@.len())
}

impl Dinosaur {
    /// Moves a creature for `delta_ms`: toward its wander target while
    /// roaming, along its fixed direction while fleeing, toward the vehicle
    /// while attacking, at its speed times its multiplier; it turns a tenth
    /// of the way toward where it goes. A dead or idle creature, or one with
    /// nowhere to go, stays. Hit boxes follow.
    pub fn advance(&mut self, vehicle: &Point, delta_ms: u64)
        requires
            old(self).wf(),
            vehicle.wf(),
        ensures
            final(self).wf(),
            moved(*old(self), *vehicle, delta_ms, *final(self)),
    {
        if self.ai.state == AIState::Dead || self.ai.state == AIState::Idle {
            return;
        }
        let h = match self.ai.state {
            AIState::Roam => match self.ai.wander_target {
                Some(t) => direction_toward(&self.position, &t),
                None => Heading { x: 0, z: 0 },
            },
            AIState::Flee => self.ai.flee_direction,
            AIState::Attack => direction_toward(&self.position, vehicle),
            _ => Heading { x: 0, z: 0 },
        };
        if h.x == 0 && h.z == 0 {
            return;
        }
        let f: u64 = if self.ai.state == AIState::Flee && self.boosted {
            FLEE_BOOST as u64
        } else if self.ai.state == AIState::Attack {
            ATTACK_SPEED
        } else {
            10
        };
        self.position = Point {
            x: move_coord(self.position.x, h.x, self.ai.move_speed, f, delta_ms),
            y: self.position.y,
            z: move_coord(self.position.z, h.z, self.ai.move_speed, f, delta_ms),
        };
        self.facing = Heading { x: ease_toward(self.facing.x, h.x), z: ease_toward(self.facing.z, h.z) };
        self.place_hit_boxes();
    }
}

/// A coordinate `p` moved along one axis, kept inside the world.
pub fn move_coord(p: i64, c: i64, speed: u64, factor: u64, delta_ms: u64) -> (r: i64)
    requires
        crate::geom::in_world(p as int),
        -UNIT <= c <= UNIT,
        speed <= crate::dino::MAX_MOVE_SPEED,
        factor <= 15,
    ensures
        r as int == clamp_world(p + axis_step(c as int, speed as int, factor as int, delta_ms as int)),
{
    assert(-1_000_000_000 <= c * speed <= 1_000_000_000) by (nonlinear_arith)
        requires
            -1000 <= c <= 1000,
            0 <= speed <= 1_000_000,
    ;
    let cs: i128 = c as i128 * speed as i128;
    assert(-15_000_000_000 <= cs * factor <= 15_000_000_000) by (nonlinear_arith)
        requires
            -1_000_000_000 <= cs <= 1_000_000_000,
            0 <= factor <= 15,
    ;
    let k: i128 = cs * factor as i128;
    assert(-15_000_000_000 * 0x1_0000_0000_0000_0000 <= k * delta_ms <= 15_000_000_000 * 0x1_0000_0000_0000_0000) by (nonlinear_arith)
        requires
            -15_000_000_000 <= k <= 15_000_000_000,
            0 <= delta_ms < 0x1_0000_0000_0000_0000,
    ;
    let n: i128 = k * delta_ms as i128;
    let q: i128 = if n >= 0 {
        n / 10_000_000
    } else {
        -((-n + 9_999_999) / 10_000_000)
    };
    assert(q == axis_step(c as int, speed as int, factor as int, delta_ms as int));
    let moved: i128 = p as i128 + q;
    if moved > WORLD_BOUND as i128 {
        WORLD_BOUND
    } else if moved < -(WORLD_BOUND as i128) {
        -WORLD_BOUND
    } else {
        moved as i64
    }
}

/// `a` turned a tenth of the way toward `b`.
pub fn ease_toward(a: i64, b: i64) -> (r: i64)
    requires
        -UNIT <= a <= UNIT,
        -UNIT <= b <= UNIT,
    ensures
        r as int == ease(a as int, b as int),
        -UNIT <= r <= UNIT,
{
    let diff = b - a;
    let q = if diff >= 0 {
        diff / 10
    } else {
        -((-diff + 9) / 10)
    };
    a + q
}

/// An attack step takes `d0` and the vehicle's health `h0` to `d1` and
/// `h1`, with the attack `ev` if one landed (see `Dinosaur::resolve_attack`).
pub open spec fn attacked(d0: Dinosaur, vehicle: Point, h0: VehicleHealth, d1: Dinosaur, h1: VehicleHealth, ev: Option<DinoAttackEvent>) -> bool {
    &&& (({
        let d = d0;
        if d.ai.state != AIState::Attack {
            ev is None && d1 == d && h1 == h0
        } else if within(vehicle, d.position, MELEE_RANGE as int) && d.ai.attack_cooldown.is_finished() {
            &&& ev == Some(DinoAttackEvent { damage: attack_damage_of(d.species) })
            &&& h1.current == health_after(h0.current as int, attack_damage_of(d.species) as int)
            &&& h1.max == h0.max
            &&& d1.ai.attack_cooldown == (Timer { duration_ms: d.ai.attack_cooldown.duration_ms, elapsed_ms: 0 })
            &&& d1.ai.state == AIState::Flee
            &&& d1.ai.flee_direction == heading_toward(vehicle, d.position)
            &&& d1.ai.wander_target is None
        } else {
            &&& ev is None
            &&& h1 == h0
            &&& d1.ai.state == (if beyond(vehicle, d.position, d.ai.attack_range * 3 / 2) {
                AIState::Roam
            } else {
                AIState::Attack
            })
            &&& d1.ai.attack_cooldown == d.ai.attack_cooldown
        }
    }))
    &&& (d1.id == d0.id)
    &&& (d1.species == d0.species)
    &&& (d1.health == d0.health)
    &&& (d1.position == d0.position)
    &&& (d1.facing == d0.facing)
    &&& (d1.death == d0.death)
    &&& (d1.hit_boxes@ == d0.hit_boxes@)
}

impl Dinosaur {
    /// The strike of an attacking creature. Within melee range of the
    /// vehicle with its attack ready, it deals its species' damage to the
    /// vehicle, restarts its cooldown, and flees; farther than one and a
    /// half times its attack range, it gives up and roams. Otherwise, and
    /// for a creature that is not attacking, nothing happens.
    pub fn resolve_attack(&mut self, vehicle: &Point, vehicle_health: &mut VehicleHealth) -> (ev: Option<DinoAttackEvent>)
        requires
            old(self).wf(),
            vehicle.wf(),
        ensures
            final(self).wf(),
            attacked(*old(self), *vehicle, *old(vehicle_health), *final(self), *final(vehicle_health), ev),
    {
        if self.ai.state != AIState::Attack {
            return None;
        }
        if is_within(vehicle, &self.position, MELEE_RANGE) && self.ai.attack_cooldown.finished() {
            let damage = self.species.attack_damage();
            vehicle_health.take_damage(damage);
            self.ai.attack_cooldown.reset();
            self.ai.state = AIState::Flee;
            self.ai.flee_direction = direction_toward(vehicle, &self.position);
            self.ai.wander_target = None;
            Some(DinoAttackEvent { damage })
        } else {
            if is_beyond(vehicle, &self.position, self.ai.attack_range * 3 / 2) {
                self.ai.state = AIState::Roam;
            }
            None
        }
    }
}

} // verus!
