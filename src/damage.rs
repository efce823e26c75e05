//! Damage arithmetic: body-part multipliers and explosion falloff.
//!
//! Damage is in thousandths of a hit point, distances in thousandths of a
//! world unit.
use vstd::prelude::*;

verus! {

/// Largest base damage of one hit.
pub const MAX_BASE_DAMAGE: u64 = 1_000_000_000_000;

/// The part of a creature that a hit strikes.
#[derive(Clone, Copy, Debug, PartialEq, Eq, Structural)]
pub enum BodyPart {
    Head,
    Body,
    Legs,
}

/// Damage of a hit on `part` by a projectile of base damage `base`:
/// ×2 on the head, ×1 on the body, ×0.5 on the legs (rounded down).
pub open spec fn part_damage_of(base: int, part: BodyPart) -> int {
    match part {
        BodyPart::Head => 2 * base,
        BodyPart::Body => base,
        BodyPart::Legs => base / 2,
    }
}

/// Damage of a hit on `part` by a projectile of base damage `base`.
pub fn part_damage(base: u64, part: BodyPart) -> (d: u64)
    requires
        base <= MAX_BASE_DAMAGE,
    ensures
        d as int == part_damage_of(base as int, part),
{
    match part {
        BodyPart::Head => 2 * base,
        BodyPart::Body => base,
        BodyPart::Legs => base / 2,
    }
}

/// The three parts rank strictly, head above body above legs, for any
/// positive base damage; the head takes exactly twice the body's damage, the
/// legs exactly half of it where that half is whole, and otherwise half
/// rounded down.
pub proof fn lemma_part_ordering(base: int)
    requires
        base > 0,
    ensures
        part_damage_of(base, BodyPart::Head) > part_damage_of(base, BodyPart::Body),
        part_damage_of(base, BodyPart::Body) > part_damage_of(base, BodyPart::Legs),
        part_damage_of(base, BodyPart::Head) == 2 * part_damage_of(base, BodyPart::Body),
        base % 2 == 0 ==> 2 * part_damage_of(base, BodyPart::Legs) == part_damage_of(base, BodyPart::Body),
        part_damage_of(base, BodyPart::Legs) == part_damage_of(base, BodyPart::Body) / 2,
{
}

pub proof fn lemma_part_bound(base: int, part: BodyPart)
    requires
        base >= 0,
    ensures
        0 <= part_damage_of(base, part) <= 2 * base,
{
}

pub proof fn lemma_falloff_bound(base: int, dist: int, radius: int)
    requires
        base >= 0,
        dist >= 0,
        radius > 0,
    ensures
        0 <= falloff_damage(base, dist, radius) <= base,
{
    if dist < radius {
        assert(0 <= base * (radius - dist) <= base * radius) by (nonlinear_arith)
            requires
                base >= 0,
                0 <= dist < radius,
        ;
        assert(base * (radius - dist) / radius <= base) by (nonlinear_arith)
            requires
                0 <= base * (radius - dist) <= base * radius,
                radius > 0,
        ;
        assert(0 <= base * (radius - dist) / radius) by (nonlinear_arith)
            requires
                0 <= base * (radius - dist),
                radius > 0,
        ;
    }
}

/// Damage at `dist` from the centre of a blast of base damage `base` and
/// radius `radius`: base × (1 − dist / radius), rounded down, and nothing at
/// or beyond the radius.
pub open spec fn falloff_damage(base: int, dist: int, radius: int) -> int {
    if dist >= radius {
        0
    } else {
        base * (radius - dist) / radius
    }
}

/// Damage at `dist` from the centre of a blast.
pub fn explosion_damage(base: u64, dist: u64, radius: u64) -> (d: u64)
    requires
        base <= MAX_BASE_DAMAGE,
        radius <= MAX_BASE_DAMAGE,
    ensures
        d as int == falloff_damage(base as int, dist as int, radius as int),
        d <= base,
{
    if dist >= radius {
        return 0;
    }
    assert(base * (radius - dist) <= base * radius) by (nonlinear_arith)
        requires
            dist < radius,
    ;
    assert(base * (radius - dist) / radius as int <= base) by (nonlinear_arith)
        requires
            0 <= dist < radius,
    ;
    assert(base * radius <= 1_000_000_000_000_000_000_000_000) by (nonlinear_arith)
        requires
            base <= MAX_BASE_DAMAGE,
            radius <= MAX_BASE_DAMAGE,
    ;
    let num: u128 = base as u128 * (radius - dist) as u128;
    (num / radius as u128) as u64
}

/// Blast damage is the full base damage at the centre, nothing at the
/// radius, and never grows as the distance grows.
pub proof fn lemma_falloff(base: int, radius: int, d1: int, d2: int)
    requires
        base >= 0,
        radius > 0,
        0 <= d1 <= d2,
    ensures
        falloff_damage(base, 0, radius) == base,
        falloff_damage(base, radius, radius) == 0,
        falloff_damage(base, d1, radius) >= falloff_damage(base, d2, radius),
{
    assert(base * radius / radius == base) by (nonlinear_arith)
        requires
            radius > 0,
    ;
    if d2 < radius {
        assert(base * (radius - d1) >= base * (radius - d2)) by (nonlinear_arith)
            requires
                base >= 0,
                d1 <= d2,
        ;
        assert(base * (radius - d1) / radius >= base * (radius - d2) / radius) by (nonlinear_arith)
            requires
                base * (radius - d1) >= base * (radius - d2),
                radius > 0,
        ;
    } else if d1 < radius {
        assert(base * (radius - d1) / radius >= 0) by (nonlinear_arith)
            requires
                base >= 0,
                d1 < radius,
                radius > 0,
        ;
    }
}

} // verus!
