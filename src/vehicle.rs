//! The player's vehicle, as the combat core sees it: its health.
use vstd::prelude::*;

verus! {

/// Health of the vehicle, in thousandths of a hit point.
#[derive(Clone, Copy, Debug, PartialEq, Eq, Structural)]
pub struct VehicleHealth {
    pub current: u64,
    pub max: u64,
}

/// Health after `damage`, never below zero.
pub open spec fn health_after(current: int, damage: int) -> int {
    if damage >= current {
        0
    } else {
        current - damage
    }
}

impl VehicleHealth {
    /// A full tank of 100 hit points.
    pub fn new() -> (h: VehicleHealth)
        ensures
            h.current == 100_000,
            h.max == 100_000,
    {
        VehicleHealth { current: 100_000, max: 100_000 }
    }

    /// Takes `damage` off the vehicle, stopping at zero.
    pub fn take_damage(&mut self, damage: u64)
        ensures
            final(self).current == health_after(old(self).current as int, damage as int),
            final(self).max == old(self).max,
    {
        if damage >= self.current {
            self.current = 0;
        } else {
            self.current = self.current - damage;
        }
    }

    /// Whether the vehicle is wrecked.
    pub fn is_destroyed(&self) -> (r: bool)
        ensures
            r == (self.current == 0),
    {
        self.current == 0
    }
}

/// Largest speed, acceleration or turning rate of the vehicle.
pub const MAX_DRIVE_FIGURE: i64 = 1_000_000_000;

/// How the vehicle's speed changes: its current speed (negative when
/// reversing), its top speed, how fast it gains and sheds speed, and how
/// fast it turns. Speeds are in thousandths of a unit per second,
/// accelerations in thousandths of a unit per second squared, turning in
/// milliradians per second.
#[derive(Clone, Copy, Debug, PartialEq, Eq, Structural)]
pub struct VehicleVelocity {
    pub current: i64,
    pub max_speed: i64,
    pub acceleration: i64,
    pub deceleration: i64,
    pub turn_speed: i64,
}

/// Least speed at which the vehicle can turn.
pub const TURN_THRESHOLD: i64 = 100;

/// The speed after `dt` milliseconds: gaining speed forward or backward on
/// request, otherwise shedding it toward a standstill without passing it;
/// then held between three tenths of the top speed in reverse and the top
/// speed ahead.
pub open spec fn speed_after(v: VehicleVelocity, forward: bool, backward: bool, dt: int) -> int {
    let gain = v.acceleration * dt / 1000;
    let shed = v.deceleration * dt / 1000;
    let s = if forward {
        v.current + gain
    } else if backward {
        v.current - gain
    } else if v.current > 0 {
        if v.current - shed > 0 { v.current - shed } else { 0 }
    } else if v.current < 0 {
        if v.current + shed < 0 { v.current + shed } else { 0 }
    } else {
        0
    };
    let low = -(v.max_speed * 3 / 10);
    if s < low {
        low
    } else if s > v.max_speed {
        v.max_speed as int
    } else {
        s
    }
}

/// The turn, in milliradians, over `dt` milliseconds at speed `speed`:
/// none below the turning threshold; left adds, right takes away, and both
/// reverse when backing up.
pub open spec fn turn_after(turn_speed: int, speed: int, backward: bool, left: bool, right: bool, dt: int) -> int {
    let step = turn_speed * dt / 1000;
    let signed = if backward { -step } else { step };
    if -TURN_THRESHOLD <= speed <= TURN_THRESHOLD {
        0
    } else {
        (if left { signed } else { 0 }) - (if right { signed } else { 0 })
    }
}

impl VehicleVelocity {
    pub open spec fn wf(&self) -> bool {
        &&& 0 <= self.max_speed <= MAX_DRIVE_FIGURE
        &&& 0 <= self.acceleration <= MAX_DRIVE_FIGURE
        &&& 0 <= self.deceleration <= MAX_DRIVE_FIGURE
        &&& 0 <= self.turn_speed <= MAX_DRIVE_FIGURE
        &&& -(self.max_speed * 3 / 10) <= self.current <= self.max_speed
    }

    /// A vehicle at rest: top speed 25 units a second, gaining 15 and
    /// shedding 10 a second, turning 2.5 radians a second.
    pub fn new() -> (v: VehicleVelocity)
        ensures
            v.wf(),
            v == (VehicleVelocity {
                current: 0,
                max_speed: 25_000,
                acceleration: 15_000,
                deceleration: 10_000,
                turn_speed: 2500,
            }),
    {
        VehicleVelocity { current: 0, max_speed: 25_000, acceleration: 15_000, deceleration: 10_000, turn_speed: 2500 }
    }

    /// Drives for `dt_ms` under the movement requests; returns the turn made,
    /// in milliradians, which the vehicle's heading takes.
    pub fn drive(&mut self, forward: bool, backward: bool, left: bool, right: bool, dt_ms: u64) -> (turn: i128)
        requires
            old(self).wf(),
        ensures
            final(self).wf(),
            final(self).current == speed_after(*old(self), forward, backward, dt_ms as int),
            *final(self) == (VehicleVelocity { current: final(self).current, ..*old(self) }),
            turn == turn_after(
                old(self).turn_speed as int,
                final(self).current as int,
                backward,
                left,
                right,
                dt_ms as int,
            ),
    {
        let dt = dt_ms as i128;
        assert(0 <= self.acceleration * dt <= 1_000_000_000 * 0xffff_ffff_ffff_ffffi128) by (nonlinear_arith)
            requires
                0 <= self.acceleration <= 1_000_000_000,
                0 <= dt <= 0xffff_ffff_ffff_ffffi128,
        ;
        assert(0 <= self.deceleration * dt <= 1_000_000_000 * 0xffff_ffff_ffff_ffffi128) by (nonlinear_arith)
            requires
                0 <= self.deceleration <= 1_000_000_000,
                0 <= dt <= 0xffff_ffff_ffff_ffffi128,
        ;
        assert(0 <= self.turn_speed * dt <= 1_000_000_000 * 0xffff_ffff_ffff_ffffi128) by (nonlinear_arith)
            requires
                0 <= self.turn_speed <= 1_000_000_000,
                0 <= dt <= 0xffff_ffff_ffff_ffffi128,
        ;
        let cur = self.current as i128;
        let gain = self.acceleration as i128 * dt / 1000;
        let shed = self.deceleration as i128 * dt / 1000;
        let s: i128 = if forward {
            cur + gain
        } else if backward {
            cur - gain
        } else if cur > 0 {
            if cur - shed > 0 { cur - shed } else { 0 }
        } else if cur < 0 {
            if cur + shed < 0 { cur + shed } else { 0 }
        } else {
            0
        };
        let low = -(self.max_speed * 3 / 10);
        self.current = if s < low as i128 {
            low
        } else if s > self.max_speed as i128 {
            self.max_speed
        } else {
            s as i64
        };
        let step = self.turn_speed as i128 * dt / 1000;
        let signed = if backward { -step } else { step };
        if -TURN_THRESHOLD <= self.current && self.current <= TURN_THRESHOLD {
            0
        } else {
            (if left { signed } else { 0 }) - (if right { signed } else { 0 })
        }
    }
}

} // verus!
