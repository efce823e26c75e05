//! Projectiles: firing them, flying them, and what they strike.
//!
//! Velocities are in thousandths of a unit per second; the other units are
//! those of the rest of the library.
use vstd::prelude::*;
use crate::damage::{BodyPart, MAX_BASE_DAMAGE};
use crate::geom::{Direction, Point, sight_line, sight_toward, floor_div_unit, clamp_world, clamp_coord, UNIT};
use crate::random::random_in;
use crate::timer::{Timer, ticked};
use crate::weapon_system::{
    WeaponState, WeaponType, bullet_speed_of, damage_of, explosion_radius_of, fire_rate_of,
    pellet_count_of, rocket_delay_of, shot_allowed, spread_of,
};

verus! {

/// Life of a projectile that strikes nothing, in milliseconds.
pub const BULLET_LIFETIME_MS: u64 = 3000;

/// Life of an explosive projectile, in milliseconds.
pub const ROCKET_LIFETIME_MS: u64 = 5000;

/// Distance from a hit box within which a projectile strikes it.
pub const HIT_BOX_RADIUS: u64 = 1500;

/// Distance from a creature's centre within which a projectile that found
/// no hit box still strikes its body.
pub const BODY_RADIUS: u64 = 4000;

/// Largest speed of a projectile along one axis.
pub const MAX_PROJECTILE_SPEED: i64 = 1_000_000;

/// A creature struck: who, how hard, where, and on which part.
#[derive(Clone, Copy, Debug, PartialEq, Eq, Structural)]
pub struct BulletHitEvent {
    pub target: u64,
    pub damage: u64,
    pub position: Point,
    pub hit_part: BodyPart,
}

/// A blast: where, how hard at its centre, and how far it reaches.
#[derive(Clone, Copy, Debug, PartialEq, Eq, Structural)]
pub struct RocketExplosionEvent {
    pub position: Point,
    pub damage: u64,
    pub radius: u64,
}

/// What every projectile carries.
#[derive(Clone, Copy, Debug, PartialEq, Eq, Structural)]
pub struct Bullet {
    pub lifetime: Timer,
    pub damage: u64,
    pub weapon_type: WeaponType,
}

/// The fuse and blast of an explosive projectile.
#[derive(Clone, Copy, Debug, PartialEq, Eq, Structural)]
pub struct Rocket {
    pub timer: Timer,
    pub damage: u64,
    pub explosion_radius: u64,
}

/// A velocity in space.
#[derive(Clone, Copy, Debug, PartialEq, Eq, Structural)]
pub struct BulletVelocity {
    pub x: i64,
    pub y: i64,
    pub z: i64,
}

/// A projectile in flight.
#[derive(Clone, Copy, Debug, PartialEq, Eq, Structural)]
pub struct Projectile {
    pub bullet: Bullet,
    pub rocket: Option<Rocket>,
    pub position: Point,
    pub velocity: BulletVelocity,
}

impl Projectile {
    pub open spec fn wf(&self) -> bool {
        &&& self.bullet.lifetime.wf()
        &&& self.bullet.damage <= MAX_BASE_DAMAGE
        &&& self.position.wf()
        &&& -MAX_PROJECTILE_SPEED <= self.velocity.x <= MAX_PROJECTILE_SPEED
        &&& -MAX_PROJECTILE_SPEED <= self.velocity.y <= MAX_PROJECTILE_SPEED
        &&& -MAX_PROJECTILE_SPEED <= self.velocity.z <= MAX_PROJECTILE_SPEED
        &&& (self.rocket matches Some(r) ==> r.timer.wf() && r.damage <= MAX_BASE_DAMAGE
            && r.explosion_radius <= MAX_BASE_DAMAGE)
    }
}

/// `a` in milliradians: sine and cosine in thousandths, by their first
/// Taylor terms, which hold closely for the small angles of a spread.
pub open spec fn sin_milli(a: int) -> int {
    a - a * a * a / 6_000_000
}

pub open spec fn cos_milli(a: int) -> int {
    1000 - a * a / 2000
}

/// `d` turned by `a` milliradians about the vertical axis.
pub open spec fn yawed(d: Direction, a: int) -> Direction {
    let c = cos_milli(a);
    let s = sin_milli(a);
    Direction {
        x: ((d.x * c + d.z * s) / UNIT as int) as i64,
        y: d.y,
        z: ((d.z * c - d.x * s) / UNIT as int) as i64,
    }
}

/// `d` turned by `a` milliradians about the sideways axis.
pub open spec fn pitched(d: Direction, a: int) -> Direction {
    let c = cos_milli(a);
    let s = sin_milli(a);
    Direction {
        x: d.x,
        y: ((d.y * c - d.z * s) / UNIT as int) as i64,
        z: ((d.y * s + d.z * c) / UNIT as int) as i64,
    }
}

/// Horizontal angle of pellet `i` of `n` in a spread of `spread`: spaced
/// evenly from half the spread to the left.
pub open spec fn pellet_angle(i: int, n: int, spread: int) -> int {
    i * spread / n - spread / 2
}

/// The direction of pellet `i` of `n`, lifted by `lift` milliradians.
pub open spec fn pellet_direction(aim: Direction, i: int, n: int, spread: int, lift: int) -> Direction {
    pitched(yawed(aim, pellet_angle(i, n, spread)), lift)
}

/// Largest spread, in milliradians.
pub const MAX_SPREAD: u64 = 500;

fn sin_cos(a: i64) -> (r: (i64, i64))
    requires
        -500 <= a <= 500,
    ensures
        r.0 == sin_milli(a as int),
        r.1 == cos_milli(a as int),
        -1000 <= r.0 <= 1000,
        0 <= r.1 <= 1000,
{
    assert(0 <= a * a <= 250_000) by (nonlinear_arith)
        requires
            -500 <= a <= 500,
    ;
    assert(-125_000_000 <= a * a * a <= 125_000_000) by (nonlinear_arith)
        requires
            -500 <= a <= 500,
            0 <= a * a <= 250_000,
    ;
    let cube = a * a * a;
    let sq = a * a;
    assert(-21 <= cube as int / 6_000_000 <= 21);
    let t = if cube >= 0 {
        cube / 6_000_000
    } else {
        -((-cube + 5_999_999) / 6_000_000)
    };
    assert(t == cube as int / 6_000_000);
    (a - t, 1000 - sq / 2000)
}

fn rotate_pair(p: i64, q: i64, c: i64, s: i64) -> (r: (i64, i64))
    requires
        -2000 <= p <= 2000,
        -2000 <= q <= 2000,
        0 <= c <= 1000,
        -1000 <= s <= 1000,
    ensures
        r.0 == (p * c + q * s) / UNIT as int,
        r.1 == (q * c - p * s) / UNIT as int,
        -4000 <= r.0 <= 4000,
        -4000 <= r.1 <= 4000,
        (-1000 <= p <= 1000 && -1000 <= q <= 1000) ==> (-2000 <= r.0 <= 2000 && -2000 <= r.1 <= 2000),
{
    assert(-2_000_000 <= p * c <= 2_000_000) by (nonlinear_arith)
        requires
            -2000 <= p <= 2000,
            0 <= c <= 1000,
    ;
    assert(-2_000_000 <= q * s <= 2_000_000) by (nonlinear_arith)
        requires
            -2000 <= q <= 2000,
            -1000 <= s <= 1000,
    ;
    assert(-2_000_000 <= q * c <= 2_000_000) by (nonlinear_arith)
        requires
            -2000 <= q <= 2000,
            0 <= c <= 1000,
    ;
    assert(-2_000_000 <= p * s <= 2_000_000) by (nonlinear_arith)
        requires
            -2000 <= p <= 2000,
            -1000 <= s <= 1000,
    ;
    if -1000 <= p && p <= 1000 && -1000 <= q && q <= 1000 {
        assert(-1_000_000 <= p * c <= 1_000_000 && -1_000_000 <= p * s <= 1_000_000) by (nonlinear_arith)
            requires
                -1000 <= p <= 1000,
                0 <= c <= 1000,
                -1000 <= s <= 1000,
        ;
        assert(-1_000_000 <= q * c <= 1_000_000 && -1_000_000 <= q * s <= 1_000_000) by (nonlinear_arith)
            requires
                -1000 <= q <= 1000,
                0 <= c <= 1000,
                -1000 <= s <= 1000,
        ;
    }
    (floor_div_unit(p * c + q * s), floor_div_unit(q * c - p * s))
}

/// The direction of pellet `i` of `n` in a spread of `spread`, lifted by
/// `lift`.
pub fn spread_direction(aim: Direction, i: u32, n: u32, spread: u64, lift: i64) -> (d: Direction)
    requires
        aim.wf(),
        i < n,
        spread <= MAX_SPREAD,
        -500 <= lift <= 500,
    ensures
        d == pellet_direction(aim, i as int, n as int, spread as int, lift as int),
        -4000 <= d.x <= 4000,
        -4000 <= d.y <= 4000,
        -4000 <= d.z <= 4000,
{
    assert(0 <= i * spread <= 0xffff_ffff * 500) by (nonlinear_arith)
        requires
            0 <= i <= 0xffff_ffff,
            0 <= spread <= 500,
    ;
    assert(0 <= i * spread / n as int <= spread) by (nonlinear_arith)
        requires
            0 <= i < n,
            0 <= spread,
    ;
    let a = ((i as u64 * spread) / n as u64) as i64 - (spread / 2) as i64;
    let (s, c) = sin_cos(a);
    let (x, z) = rotate_pair(aim.x, aim.z, c, s);
    let (ls, lc) = sin_cos(lift);
    let (z2, y2) = rotate_pair(z, aim.y, lc, ls);
    Direction { x, y: y2, z: z2 }
}

/// The velocity of a projectile of speed `speed` along `d`.
pub open spec fn velocity_along(d: Direction, speed: int) -> BulletVelocity {
    BulletVelocity {
        x: (d.x * speed / UNIT as int) as i64,
        y: (d.y * speed / UNIT as int) as i64,
        z: (d.z * speed / UNIT as int) as i64,
    }
}

/// A fresh projectile of `weapon` at `origin` along `d`.
pub open spec fn launched(weapon: WeaponType, origin: Point, d: Direction) -> Projectile {
    Projectile {
        bullet: Bullet {
            lifetime: Timer {
                duration_ms: if weapon == WeaponType::RocketLauncher {
                    ROCKET_LIFETIME_MS
                } else {
                    BULLET_LIFETIME_MS
                },
                elapsed_ms: 0,
            },
            damage: damage_of(weapon),
            weapon_type: weapon,
        },
        rocket: if weapon == WeaponType::RocketLauncher {
            Some(
                Rocket {
                    timer: Timer { duration_ms: rocket_delay_of(weapon), elapsed_ms: 0 },
                    damage: damage_of(weapon),
                    explosion_radius: explosion_radius_of(weapon),
                },
            )
        } else {
            None
        },
        position: origin,
        velocity: velocity_along(d, bullet_speed_of(weapon) as int),
    }
}

fn scale_axis(c: i64, speed: u64) -> (r: i64)
    requires
        -4000 <= c <= 4000,
        speed <= 100_000,
    ensures
        r == c * speed / UNIT as int,
        -MAX_PROJECTILE_SPEED <= r <= MAX_PROJECTILE_SPEED,
{
    assert(-400_000_000 <= c * speed <= 400_000_000) by (nonlinear_arith)
        requires
            -4000 <= c <= 4000,
            0 <= speed <= 100_000,
    ;
    floor_div_unit(c * speed as i64)
}

/// Launches one projectile of `weapon` from `origin` along `d`.
pub fn launch(weapon: WeaponType, origin: Point, d: Direction) -> (p: Projectile)
    requires
        origin.wf(),
        -4000 <= d.x <= 4000,
        -4000 <= d.y <= 4000,
        -4000 <= d.z <= 4000,
    ensures
        p == launched(weapon, origin, d),
        p.wf(),
{
    let speed = weapon.bullet_speed();
    let damage = weapon.damage();
    let velocity = BulletVelocity {
        x: scale_axis(d.x, speed),
        y: scale_axis(d.y, speed),
        z: scale_axis(d.z, speed),
    };
    if weapon.explosive() {
        Projectile {
            bullet: Bullet { lifetime: Timer::from_millis(ROCKET_LIFETIME_MS), damage, weapon_type: weapon },
            rocket: Some(
                Rocket {
                    timer: Timer::from_millis(weapon.rocket_delay()),
                    damage,
                    explosion_radius: weapon.explosion_radius(),
                },
            ),
            position: origin,
            velocity,
        }
    } else {
        Projectile {
            bullet: Bullet { lifetime: Timer::from_millis(BULLET_LIFETIME_MS), damage, weapon_type: weapon },
            rocket: None,
            position: origin,
            velocity,
        }
    }
}

/// The direction of a shot: toward the locked target when firing at the
/// lock, else along the turret. A target at the turret's own point gives no
/// direction, and the turret fires straight ahead.
pub open spec fn aim_for(forward: Direction, turret: Point, target: Option<Point>, at_lock: bool) -> Direction {
    match target {
        Some(t) => if at_lock && t != turret {
            sight_line(turret, t)
        } else {
            forward
        },
        None => forward,
    }
}

pub fn choose_aim(forward: Direction, turret: &Point, target: Option<Point>, at_lock: bool) -> (d: Direction)
    requires
        forward.wf(),
        forward.near_unit(),
        turret.wf(),
        target matches Some(t) ==> t.wf(),
    ensures
        d == aim_for(forward, *turret, target, at_lock),
        d.wf(),
        d.near_unit(),
{
    match target {
        Some(t) => if at_lock && t != *turret {
            sight_toward(turret, &t)
        } else {
            forward
        },
        None => forward,
    }
}

/// The place where a shot leaves the turret: one unit along the aim.
pub open spec fn muzzle_of(turret: Point, aim: Direction) -> Point {
    Point {
        x: clamp_world(turret.x + aim.x) as i64,
        y: clamp_world(turret.y + aim.y) as i64,
        z: clamp_world(turret.z + aim.z) as i64,
    }
}

impl WeaponState {
    /// Fires `weapon` at `now_ms` from the turret at `turret` along `aim`.
    /// A shot that the fire rate refuses is dropped and yields nothing. An
    /// accepted one yields the weapon's pellets from the muzzle; a spread
    /// weapon fans them out evenly across its spread, each lifted by a small
    /// random angle.
    pub fn fire(&mut self, now_ms: u64, weapon: WeaponType, turret: &Point, aim: Direction) -> (shots: Vec<Projectile>)
        requires
            turret.wf(),
            aim.wf(),
            aim.near_unit(),
        ensures
            ({
                let ok = shot_allowed(old(self).last_shot_ms as int, now_ms as int, fire_rate_of(weapon) as int);
                &&& ok ==> final(self).last_shot_ms == now_ms
                &&& !ok ==> *final(self) == *old(self) && shots@.len() == 0
                &&& ok ==> shots@.len() == pellet_count_of(weapon)
            }),
            forall|i: int| 0 <= i < shots@.len() ==> (#[trigger] shots@[i]).wf(),
            forall|i: int|
                0 <= i < shots@.len() ==> {
                    let p = #[trigger] shots@[i];
                    &&& p.position == muzzle_of(*turret, aim)
                    &&& p.bullet == launched(weapon, p.position, aim).bullet
                    &&& p.rocket == launched(weapon, p.position, aim).rocket
                    &&& (spread_of(weapon) == 0 || pellet_count_of(weapon) <= 1) ==> p == launched(weapon, p.position, aim)
                    &&& (spread_of(weapon) > 0 && pellet_count_of(weapon) > 1) ==> exists|lift: int|
                        -(spread_of(weapon) as int) / 4 <= lift < spread_of(weapon) as int / 4 && p == launched(
                            weapon,
                            p.position,
                            pellet_direction(aim, i, pellet_count_of(weapon) as int, spread_of(weapon) as int, lift),
                        )
                },
    {
        let mut shots: Vec<Projectile> = Vec::new();
        if !self.try_fire(now_ms, weapon.fire_rate()) {
            return shots;
        }
        let muzzle = Point {
            x: clamp_coord(turret.x + aim.x),
            y: clamp_coord(turret.y + aim.y),
            z: clamp_coord(turret.z + aim.z),
        };
        let n = weapon.pellet_count();
        let spread = weapon.spread();
        let mut i: u32 = 0;
        while i < n
            invariant
                i <= n,
                n == pellet_count_of(weapon),
                spread == spread_of(weapon),
                muzzle == muzzle_of(*turret, aim),
                muzzle.wf(),
                aim.wf(),
                shots@.len() == i,
                forall|k: int| 0 <= k < shots@.len() ==> (#[trigger] shots@[k]).wf(),
                forall|k: int|
                    0 <= k < shots@.len() ==> {
                        let p = #[trigger] shots@[k];
                        &&& p.position == muzzle_of(*turret, aim)
                        &&& p.bullet == launched(weapon, p.position, aim).bullet
                        &&& p.rocket == launched(weapon, p.position, aim).rocket
                        &&& (spread_of(weapon) == 0 || pellet_count_of(weapon) <= 1) ==> p == launched(weapon, p.position, aim)
                        &&& (spread_of(weapon) > 0 && pellet_count_of(weapon) > 1) ==> exists|lift: int|
                            -(spread_of(weapon) as int) / 4 <= lift < spread_of(weapon) as int / 4 && p == launched(
                                weapon,
                                p.position,
                                pellet_direction(aim, k, pellet_count_of(weapon) as int, spread_of(weapon) as int, lift),
                            )
                    },
            decreases n - i,
        {
            if spread > 0 && n > 1 {
                let quarter = (spread / 4) as i64;
                let lift = random_in(-quarter, quarter);
                let d = spread_direction(aim, i, n, spread, lift);
                let p = launch(weapon, muzzle, d);
                shots.push(p);
                assert(shots@[i as int] == p);
            } else {
                let p = launch(weapon, muzzle, aim);
                shots.push(p);
                assert(shots@[i as int] == p);
            }
            i = i + 1;
        }
        shots
    }
}

/// What became of a projectile during one step of flight.
#[derive(Clone, Copy, Debug, PartialEq, Eq, Structural)]
pub enum Flight {
    /// Still flying.
    Flying,
    /// Its life ran out without striking anything.
    Expired,
    /// Its fuse burnt down: it is gone, and a blast takes its place.
    Exploded(RocketExplosionEvent),
}

/// `p` carried by `v` for `delta` milliseconds, kept inside the world.
pub open spec fn carried(p: Point, v: BulletVelocity, delta: int) -> Point {
    Point {
        x: clamp_world(p.x + v.x * delta / 1000) as i64,
        y: clamp_world(p.y + v.y * delta / 1000) as i64,
        z: clamp_world(p.z + v.z * delta / 1000) as i64,
    }
}

fn carry_coord(p: i64, v: i64, delta_ms: u64) -> (r: i64)
    requires
        crate::geom::in_world(p as int),
        -MAX_PROJECTILE_SPEED <= v <= MAX_PROJECTILE_SPEED,
    ensures
        r as int == clamp_world(p + v * delta_ms / 1000),
{
    assert(-1_000_000 * 0x1_0000_0000_0000_0000 <= v * delta_ms <= 1_000_000 * 0x1_0000_0000_0000_0000) by (nonlinear_arith)
        requires
            -1_000_000 <= v <= 1_000_000,
            0 <= delta_ms < 0x1_0000_0000_0000_0000,
    ;
    let n: i128 = v as i128 * delta_ms as i128;
    let q: i128 = if n >= 0 {
        n / 1000
    } else {
        -((-n + 999) / 1000)
    };
    let moved: i128 = p as i128 + q;
    if moved > crate::geom::WORLD_BOUND as i128 {
        crate::geom::WORLD_BOUND
    } else if moved < -(crate::geom::WORLD_BOUND as i128) {
        -crate::geom::WORLD_BOUND
    } else {
        moved as i64
    }
}

/// A projectile and what became of it after `delta` milliseconds of flight.
pub open spec fn flight_of(p: Projectile, delta: int) -> (Projectile, Flight) {
    match p.rocket {
        None => {
            let t = ticked(p.bullet.lifetime, delta);
            let aged = Projectile { bullet: Bullet { lifetime: t, ..p.bullet }, ..p };
            if t.is_finished() {
                (aged, Flight::Expired)
            } else {
                (Projectile { position: carried(p.position, p.velocity, delta), ..aged }, Flight::Flying)
            }
        },
        Some(r) => {
            let t = ticked(r.timer, delta);
            let at = carried(p.position, p.velocity, delta);
            let q = Projectile { rocket: Some(Rocket { timer: t, ..r }), position: at, ..p };
            if t.is_finished() {
                (q, Flight::Exploded(RocketExplosionEvent { position: at, damage: r.damage, radius: r.explosion_radius }))
            } else {
                (q, Flight::Flying)
            }
        },
    }
}

impl Projectile {
    /// One step of flight of `delta_ms`. A plain projectile ages first: if
    /// its life is over it expires where it is, else it moves on. An
    /// explosive one moves, then burns its fuse: once the fuse is out it
    /// explodes where it now is.
    pub fn update(&mut self, delta_ms: u64) -> (f: Flight)
        requires
            old(self).wf(),
        ensures
            final(self).wf(),
            (*final(self), f) == flight_of(*old(self), delta_ms as int),
            final(self).velocity == old(self).velocity,
            final(self).bullet.damage == old(self).bullet.damage,
            final(self).bullet.weapon_type == old(self).bullet.weapon_type,
            ({
                let p = *old(self);
                match p.rocket {
                    None => {
                        let t = ticked(p.bullet.lifetime, delta_ms as int);
                        &&& final(self).bullet.lifetime == t
                        &&& final(self).rocket is None
                        &&& t.is_finished() ==> f == Flight::Expired && final(self).position == p.position
                        &&& !t.is_finished() ==> f == Flight::Flying && final(self).position == carried(
                            p.position,
                            p.velocity,
                            delta_ms as int,
                        )
                    },
                    Some(r) => {
                        let t = ticked(r.timer, delta_ms as int);
                        let at = carried(p.position, p.velocity, delta_ms as int);
                        &&& final(self).position == at
                        &&& final(self).bullet.lifetime == p.bullet.lifetime
                        &&& final(self).rocket == Some(Rocket { timer: t, ..r })
                        &&& t.is_finished() ==> f == Flight::Exploded(
                            RocketExplosionEvent { position: at, damage: r.damage, radius: r.explosion_radius },
                        )
                        &&& !t.is_finished() ==> f == Flight::Flying
                    },
                }
            }),
    {
        match self.rocket {
            None => {
                self.bullet.lifetime.tick(delta_ms);
                if self.bullet.lifetime.finished() {
                    return Flight::Expired;
                }
                self.carry(delta_ms);
                Flight::Flying
            },
            Some(r) => {
                self.carry(delta_ms);
                let mut t = r.timer;
                t.tick(delta_ms);
                self.rocket = Some(Rocket { timer: t, damage: r.damage, explosion_radius: r.explosion_radius });
                if t.finished() {
                    Flight::Exploded(
                        RocketExplosionEvent {
                            position: self.position,
                            damage: r.damage,
                            radius: r.explosion_radius,
                        },
                    )
                } else {
                    Flight::Flying
                }
            },
        }
    }

    fn carry(&mut self, delta_ms: u64)
        requires
            old(self).wf(),
        ensures
            final(self).wf(),
            *final(self) == (Projectile {
                position: carried(old(self).position, old(self).velocity, delta_ms as int),
                ..*old(self)
            }),
    {
        self.position = Point {
            x: carry_coord(self.position.x, self.velocity.x, delta_ms),
            y: carry_coord(self.position.y, self.velocity.y, delta_ms),
            z: carry_coord(self.position.z, self.velocity.z, delta_ms),
        };
    }
}

} // verus!
