//! The floating numbers that mark a hit: their kind, size, rise and fade.
use vstd::prelude::*;
use crate::damage::BodyPart;
use crate::geom::{Point, UNIT, clamp_world, WORLD_BOUND};
use crate::timer::{Timer, ticked};
use crate::weapon::BulletHitEvent;

verus! {

/// How long a popup floats, in milliseconds.
pub const POPUP_LIFETIME_MS: u64 = 1500;

/// How fast a popup rises, in thousandths of a unit per second.
pub const POPUP_RISE_SPEED: u64 = 4000;

/// The kind of a hit as shown: a head shot is critical, a leg shot weak.
#[derive(Clone, Copy, Debug, PartialEq, Eq, Structural)]
pub enum DamageType {
    Normal,
    Critical,
    Weak,
}

pub open spec fn damage_type_of(part: BodyPart) -> DamageType {
    match part {
        BodyPart::Head => DamageType::Critical,
        BodyPart::Legs => DamageType::Weak,
        BodyPart::Body => DamageType::Normal,
    }
}

pub fn damage_type_for(part: BodyPart) -> (t: DamageType)
    ensures
        t == damage_type_of(part),
{
    match part {
        BodyPart::Head => DamageType::Critical,
        BodyPart::Legs => DamageType::Weak,
        BodyPart::Body => DamageType::Normal,
    }
}

/// Size of a popup, in thousandths of a unit: the kind's scale times one
/// half plus the damage's share of 100 hit points (at most one).
pub open spec fn popup_size_of(t: DamageType, damage: int) -> int {
    let scale = match t {
        DamageType::Critical => 400int,
        DamageType::Weak => 250int,
        DamageType::Normal => 300int,
    };
    let d = if damage < 100_000 {
        damage
    } else {
        100_000
    };
    scale * (d / 100 + 500) / 1000
}

pub fn popup_size(t: DamageType, damage: u64) -> (s: u64)
    ensures
        s == popup_size_of(t, damage as int),
{
    let scale: u64 = match t {
        DamageType::Critical => 400,
        DamageType::Weak => 250,
        DamageType::Normal => 300,
    };
    let d = if damage < 100_000 {
        damage
    } else {
        100_000
    };
    scale * (d / 100 + 500) / 1000
}

/// A floating damage number.
#[derive(Clone, Copy, Debug, PartialEq, Eq, Structural)]
pub struct DamagePopup {
    pub lifetime: Timer,
    pub rise_speed: u64,
}

impl DamagePopup {
    pub open spec fn wf(&self) -> bool {
        self.lifetime.wf() && self.rise_speed <= 1_000_000
    }

    pub fn new() -> (p: DamagePopup)
        ensures
            p.wf(),
            p.lifetime == (Timer { duration_ms: POPUP_LIFETIME_MS, elapsed_ms: 0 }),
            p.rise_speed == POPUP_RISE_SPEED,
    {
        DamagePopup { lifetime: Timer::from_millis(POPUP_LIFETIME_MS), rise_speed: POPUP_RISE_SPEED }
    }

    /// Lets `delta_ms` pass. A popup whose life is over yields nothing and is
    /// to be removed; another yields how far it rises in this step and its
    /// opacity in thousandths, falling evenly to zero over its life.
    pub fn update(&mut self, delta_ms: u64) -> (r: Option<(u64, u64)>)
        requires
            old(self).wf(),
            delta_ms <= 1_000_000_000,
        ensures
            final(self).wf(),
            final(self).lifetime == ticked(old(self).lifetime, delta_ms as int),
            final(self).rise_speed == old(self).rise_speed,
            final(self).lifetime.is_finished() ==> r is None,
            !final(self).lifetime.is_finished() ==> r == Some((
                (old(self).rise_speed * delta_ms / 1000) as u64,
                (1000 - final(self).lifetime.elapsed_ms * 1000 / final(self).lifetime.duration_ms as int) as u64,
            )),
    {
        self.lifetime.tick(delta_ms);
        if self.lifetime.finished() {
            return None;
        }
        assert(self.rise_speed * delta_ms <= 1_000_000_000_000_000) by (nonlinear_arith)
            requires
                self.rise_speed <= 1_000_000,
                delta_ms <= 1_000_000_000,
        ;
        let rise = self.rise_speed * delta_ms / 1000;
        let e: u128 = self.lifetime.elapsed_ms as u128 * 1000;
        let q: u128 = e / self.lifetime.duration_ms as u128;
        assert(q <= 1000) by (nonlinear_arith)
            requires
                q == e as int / self.lifetime.duration_ms as int,
                e == self.lifetime.elapsed_ms * 1000,
                self.lifetime.elapsed_ms < self.lifetime.duration_ms,
        ;
        Some((rise, 1000 - q as u64))
    }
}

/// A popup in the world: its timer, kind, size and place.
#[derive(Clone, Copy, Debug, PartialEq, Eq, Structural)]
pub struct DamageText {
    pub popup: DamagePopup,
    pub kind: DamageType,
    pub size: u64,
    pub position: Point,
}

/// The popup of a hit: of the hit's kind and size, one unit above the hit.
pub open spec fn popup_for(h: BulletHitEvent) -> DamageText {
    DamageText {
        popup: DamagePopup {
            lifetime: Timer { duration_ms: POPUP_LIFETIME_MS, elapsed_ms: 0 },
            rise_speed: POPUP_RISE_SPEED,
        },
        kind: damage_type_of(h.hit_part),
        size: popup_size_of(damage_type_of(h.hit_part), h.damage as int) as u64,
        position: Point { y: clamp_world(h.position.y + UNIT) as i64, ..h.position },
    }
}

/// `y` raised by `by`, kept inside the world.
fn lift_coord(y: i64, by: i64) -> (r: i64)
    ensures
        r as int == clamp_world(y + by),
{
    let v: i128 = y as i128 + by as i128;
    if v > WORLD_BOUND as i128 {
        WORLD_BOUND
    } else if v < -(WORLD_BOUND as i128) {
        -WORLD_BOUND
    } else {
        v as i64
    }
}

/// One popup for each hit, in order.
pub fn spawn_damage_popups(hits: &Vec<BulletHitEvent>) -> (texts: Vec<DamageText>)
    ensures
        texts@.len() == hits@.len(),
        forall|i: int| 0 <= i < hits@.len() ==> #[trigger] texts@[i] == popup_for(hits@[i]),
{
    let mut texts: Vec<DamageText> = Vec::new();
    let mut i: usize = 0;
    while i < hits.len()
        invariant
            i <= hits@.len(),
            texts@.len() == i,
            forall|k: int| 0 <= k < i ==> #[trigger] texts@[k] == popup_for(hits@[k]),
        decreases hits@.len() - i,
    {
        let h = hits[i];
        let kind = damage_type_for(h.hit_part);
        let size = popup_size(kind, h.damage);
        let position = Point { x: h.position.x, y: lift_coord(h.position.y, UNIT), z: h.position.z };
        texts.push(DamageText { popup: DamagePopup::new(), kind, size, position });
        i = i + 1;
    }
    texts
}

/// `t` after `delta` milliseconds: its life counted down and its place
/// risen.
pub open spec fn floated(t: DamageText, delta: int) -> DamageText {
    DamageText {
        popup: DamagePopup { lifetime: ticked(t.popup.lifetime, delta), ..t.popup },
        position: Point { y: clamp_world(t.position.y + t.popup.rise_speed * delta / 1000) as i64, ..t.position },
        ..t
    }
}

/// The popups of `ts` still alive after `delta` milliseconds, risen, in
/// order.
pub open spec fn still_floating(ts: Seq<DamageText>, delta: int) -> Seq<DamageText>
    decreases ts.len(),
{
    if ts.len() == 0 {
        Seq::empty()
    } else {
        let rest = still_floating(ts.drop_last(), delta);
        let t = floated(ts.last(), delta);
        if t.popup.lifetime.is_finished() {
            rest
        } else {
            rest.push(t)
        }
    }
}

/// Advances every popup by `delta_ms`: each one still alive rises and
/// stays, in order; those whose life is over are gone.
pub fn update_damage_popups(texts: &mut Vec<DamageText>, delta_ms: u64)
    requires
        forall|i: int| 0 <= i < old(texts)@.len() ==> (#[trigger] old(texts)@[i]).popup.wf(),
        delta_ms <= 1_000_000_000,
    ensures
        final(texts)@ == still_floating(old(texts)@, delta_ms as int),
        forall|i: int| 0 <= i < final(texts)@.len() ==> (#[trigger] final(texts)@[i]).popup.wf(),
{
    let mut kept: Vec<DamageText> = Vec::new();
    let mut i: usize = 0;
    while i < texts.len()
        invariant
            i <= texts@.len(),
            texts@ == old(texts)@,
            delta_ms <= 1_000_000_000,
            forall|k: int| 0 <= k < texts@.len() ==> (#[trigger] texts@[k]).popup.wf(),
            forall|k: int| 0 <= k < kept@.len() ==> (#[trigger] kept@[k]).popup.wf(),
            kept@ == still_floating(texts@.take(i as int), delta_ms as int),
        decreases texts@.len() - i,
    {
        let mut t = texts[i];
        let ghost t0 = t;
        assert(texts@[i as int].popup.wf());
        assert(texts@.take(i as int + 1).drop_last() == texts@.take(i as int));
        assert(texts@.take(i as int + 1).last() == texts@[i as int]);
        match t.popup.update(delta_ms) {
            Some((rise, _)) => {
                assert(t0.popup.rise_speed * delta_ms <= 1_000_000_000_000_000) by (nonlinear_arith)
                    requires
                        t0.popup.rise_speed <= 1_000_000,
                        delta_ms <= 1_000_000_000,
                ;
                assert(rise == t0.popup.rise_speed * delta_ms / 1000);
                t.position = Point { x: t.position.x, y: lift_coord(t.position.y, rise as i64), z: t.position.z };
                assert(t == floated(t0, delta_ms as int));
                kept.push(t);
            },
            None => {
                assert(floated(t0, delta_ms as int).popup.lifetime.is_finished());
            },
        }
        i = i + 1;
    }
    assert(texts@.take(texts@.len() as int) == texts@);
    *texts = kept;
}

} // verus!
