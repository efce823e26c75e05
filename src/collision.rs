//! Hit resolution: which creature and which part a projectile strikes, and
//! whom a blast reaches.
use vstd::prelude::*;
use crate::damage::{BodyPart, explosion_damage, falloff_damage, part_damage, part_damage_of, MAX_BASE_DAMAGE};
use crate::dino::Dinosaur;
use crate::geom::{Point, beyond, distance, distance_between, is_beyond, is_within, within};
use crate::weapon::{BODY_RADIUS, BulletHitEvent, HIT_BOX_RADIUS, Projectile, RocketExplosionEvent};

verus! {

/// Every creature of `ds` is well formed.
pub open spec fn all_wf(ds: Seq<Dinosaur>) -> bool {
    forall|i: int| 0 <= i < ds.len() ==> (#[trigger] ds[i]).wf()
}

/// Hit box `j` of the living creature `i` lies within striking distance of
/// `pos`.
pub open spec fn box_struck(ds: Seq<Dinosaur>, i: int, j: int, pos: Point) -> bool {
    &&& 0 <= i < ds.len()
    &&& !ds[i].is_dead()
    &&& 0 <= j < ds[i].hit_boxes@.len()
    &&& within(ds[i].hit_boxes@[j].position, pos, HIT_BOX_RADIUS as int)
}

/// The body of the living creature `i` lies within the generous striking
/// distance of `pos`.
pub open spec fn body_struck(ds: Seq<Dinosaur>, i: int, pos: Point) -> bool {
    &&& 0 <= i < ds.len()
    &&& !ds[i].is_dead()
    &&& within(ds[i].position, pos, BODY_RADIUS as int)
}

/// Hit box `(i1, j1)` comes before `(i2, j2)`: creature by creature, then
/// box by box.
pub open spec fn earlier(i1: int, j1: int, i2: int, j2: int) -> bool {
    i1 < i2 || (i1 == i2 && j1 < j2)
}

/// `(i, j)` is the first hit box, in creature and box order, within
/// striking distance of `pos`.
pub open spec fn first_box_is(ds: Seq<Dinosaur>, i: int, j: int, pos: Point) -> bool {
    box_struck(ds, i, j, pos) && forall|i2: int, j2: int|
        #[trigger] box_struck(ds, i2, j2, pos) ==> !earlier(i2, j2, i, j)
}

/// No hit box lies within striking distance of `pos`.
pub open spec fn no_box(ds: Seq<Dinosaur>, pos: Point) -> bool {
    forall|i2: int, j2: int| !#[trigger] box_struck(ds, i2, j2, pos)
}

/// `i` is the first creature whose body lies near enough to `pos`.
pub open spec fn first_body_is(ds: Seq<Dinosaur>, i: int, pos: Point) -> bool {
    body_struck(ds, i, pos) && forall|i2: int| 0 <= i2 < i ==> !#[trigger] body_struck(ds, i2, pos)
}

/// No body lies near enough to `pos`.
pub open spec fn no_body(ds: Seq<Dinosaur>, pos: Point) -> bool {
    forall|i2: int| !#[trigger] body_struck(ds, i2, pos)
}

/// A projectile at `pos` strikes part `part` of creature `i`.
pub open spec fn strikes(ds: Seq<Dinosaur>, pos: Point, i: int, part: BodyPart) -> bool {
    ||| exists|j: int| #[trigger] first_box_is(ds, i, j, pos) && part == ds[i].hit_boxes@[j].part
    ||| no_box(ds, pos) && first_body_is(ds, i, pos) && part == BodyPart::Body
}

/// Which creature and part a projectile at `pos` strikes, if any: the
/// first hit box within striking distance, else the first body near
/// enough.
pub open spec fn strike_at(ds: Seq<Dinosaur>, pos: Point) -> Option<(int, BodyPart)> {
    if exists|i: int, j: int| first_box_is(ds, i, j, pos) {
        let (i, j) = choose|i: int, j: int| first_box_is(ds, i, j, pos);
        Some((i, ds[i].hit_boxes@[j].part))
    } else if exists|i: int| first_body_is(ds, i, pos) {
        Some((choose|i: int| first_body_is(ds, i, pos), BodyPart::Body))
    } else {
        None
    }
}

/// The hit of projectile `p`, if it strikes anything: the creature and part
/// of `strike_at`, the projectile's damage times the part's multiplier, at
/// the projectile's place. Explosive projectiles strike nothing directly.
pub open spec fn strike_hit(ds: Seq<Dinosaur>, p: Projectile) -> Option<BulletHitEvent> {
    if p.rocket is Some {
        None
    } else {
        match strike_at(ds, p.position) {
            Some((i, part)) => Some(
                BulletHitEvent {
                    target: ds[i].id,
                    damage: part_damage_of(p.bullet.damage as int, part) as u64,
                    position: p.position,
                    hit_part: part,
                },
            ),
            None => None,
        }
    }
}

proof fn lemma_first_box_unique(ds: Seq<Dinosaur>, i1: int, j1: int, i2: int, j2: int, pos: Point)
    requires
        first_box_is(ds, i1, j1, pos),
        first_box_is(ds, i2, j2, pos),
    ensures
        i1 == i2 && j1 == j2,
{
    assert(!earlier(i1, j1, i2, j2));
    assert(!earlier(i2, j2, i1, j1));
}

proof fn lemma_first_body_unique(ds: Seq<Dinosaur>, i1: int, i2: int, pos: Point)
    requires
        first_body_is(ds, i1, pos),
        first_body_is(ds, i2, pos),
    ensures
        i1 == i2,
{
    if i1 < i2 {
        assert(!body_struck(ds, i1, pos));
    } else if i2 < i1 {
        assert(!body_struck(ds, i2, pos));
    }
}

/// The first hit box, in creature and box order, within striking distance
/// of `pos`.
pub fn first_box(pos: &Point, ds: &Vec<Dinosaur>) -> (r: Option<(usize, usize)>)
    requires
        pos.wf(),
        all_wf(ds@),
    ensures
        r matches Some((i, j)) ==> first_box_is(ds@, i as int, j as int, *pos),
        r is None ==> no_box(ds@, *pos),
{
    let mut i: usize = 0;
    while i < ds.len()
        invariant
            i <= ds@.len(),
            pos.wf(),
            all_wf(ds@),
            forall|i2: int, j2: int| #[trigger] box_struck(ds@, i2, j2, *pos) ==> i2 >= i,
        decreases ds@.len() - i,
    {
        let d = &ds[i];
        assert(d.wf());
        if d.ai.state != crate::dino::AIState::Dead {
            let mut j: usize = 0;
            while j < d.hit_boxes.len()
                invariant
                    i < ds@.len(),
                    *d == ds@[i as int],
                    d.wf(),
                    !d.is_dead(),
                    j <= d.hit_boxes@.len(),
                    pos.wf(),
                    forall|i2: int, j2: int| #[trigger] box_struck(ds@, i2, j2, *pos) ==> i2 >= i,
                    forall|j2: int| 0 <= j2 < j ==> !#[trigger] box_struck(ds@, i as int, j2, *pos),
                decreases d.hit_boxes@.len() - j,
            {
                let b = d.hit_boxes[j];
                assert(d.hit_boxes@[j as int].position.wf());
                if is_within(&b.position, pos, HIT_BOX_RADIUS) {
                    assert(box_struck(ds@, i as int, j as int, *pos));
                    return Some((i, j));
                }
                j = j + 1;
            }
        }
        i = i + 1;
    }
    None
}

/// The first living creature whose body lies within the generous striking
/// distance of `pos`.
pub fn first_body(pos: &Point, ds: &Vec<Dinosaur>) -> (r: Option<usize>)
    requires
        pos.wf(),
        all_wf(ds@),
    ensures
        r matches Some(i) ==> first_body_is(ds@, i as int, *pos),
        r is None ==> no_body(ds@, *pos),
{
    let mut i: usize = 0;
    while i < ds.len()
        invariant
            i <= ds@.len(),
            pos.wf(),
            all_wf(ds@),
            forall|i2: int| 0 <= i2 < i ==> !#[trigger] body_struck(ds@, i2, *pos),
        decreases ds@.len() - i,
    {
        let d = &ds[i];
        assert(d.wf());
        if d.ai.state != crate::dino::AIState::Dead && is_within(&d.position, pos, BODY_RADIUS) {
            return Some(i);
        }
        i = i + 1;
    }
    None
}

/// Where a projectile at `pos` strikes: the first hit box within striking
/// distance decides the creature and the part; failing any, the first
/// creature whose body is near enough takes a body hit.
pub fn find_strike(pos: &Point, ds: &Vec<Dinosaur>) -> (r: Option<(usize, BodyPart)>)
    requires
        pos.wf(),
        all_wf(ds@),
    ensures
        r matches Some((i, part)) ==> i < ds@.len() && strikes(ds@, *pos, i as int, part),
        r is None ==> no_box(ds@, *pos) && no_body(ds@, *pos),
        r matches Some((i, part)) ==> strike_at(ds@, *pos) == Some((i as int, part)),
        r is None ==> strike_at(ds@, *pos) is None,
{
    match first_box(pos, ds) {
        Some((i, j)) => {
            let part = ds[i].hit_boxes[j].part;
            assert(box_struck(ds@, i as int, j as int, *pos));
            assert(first_box_is(ds@, i as int, j as int, *pos));
            proof {
                let (i2, j2) = choose|i2: int, j2: int| first_box_is(ds@, i2, j2, *pos);
                lemma_first_box_unique(ds@, i as int, j as int, i2, j2, *pos);
            }
            Some((i, part))
        },
        None => {
            assert(!exists|i2: int, j2: int| first_box_is(ds@, i2, j2, *pos));
            match first_body(pos, ds) {
                Some(i) => {
                    proof {
                        let i2 = choose|i2: int| first_body_is(ds@, i2, *pos);
                        lemma_first_body_unique(ds@, i as int, i2, *pos);
                    }
                    Some((i, BodyPart::Body))
                },
                None => {
                    assert(!exists|i2: int| first_body_is(ds@, i2, *pos));
                    None
                },
            }
        },
    }
}

/// The hit of a plain projectile, if it strikes anything: the creature and
/// part of `find_strike`, the weapon's damage times the part's multiplier,
/// at the projectile's place. Explosive projectiles strike nothing directly.
pub fn bullet_strike(p: &Projectile, ds: &Vec<Dinosaur>) -> (ev: Option<BulletHitEvent>)
    requires
        p.wf(),
        all_wf(ds@),
    ensures
        ev == strike_hit(ds@, *p),
        p.rocket is Some ==> ev is None,
        p.rocket is None ==> (ev is None <==> no_box(ds@, p.position) && no_body(ds@, p.position)),
        ev matches Some(e) ==> {
            &&& e.position == p.position
            &&& e.damage == part_damage_of(p.bullet.damage as int, e.hit_part)
            &&& exists|i: int| #[trigger] strikes(ds@, p.position, i, e.hit_part) && ds@[i].id == e.target
        },
{
    if p.rocket.is_some() {
        return None;
    }
    match find_strike(&p.position, ds) {
        Some((i, part)) => {
            let damage = part_damage(p.bullet.damage, part);
            let ev = BulletHitEvent { target: ds[i].id, damage, position: p.position, hit_part: part };
            assert(strikes(ds@, p.position, i as int, part));
            Some(ev)
        },
        None => None,
    }
}

/// The hit that a blast deals to `d`, if it reaches it (at most its radius
/// away): body damage that falls off with the distance from the blast's
/// centre, down to a hit of no damage at the radius itself. Dead creatures
/// are out of reach.
pub open spec fn blast_hit(ev: RocketExplosionEvent, d: Dinosaur) -> Option<BulletHitEvent> {
    if !d.is_dead() && !beyond(d.position, ev.position, ev.radius as int) {
        Some(
            BulletHitEvent {
                target: d.id,
                damage: falloff_damage(
                    ev.damage as int,
                    distance(d.position, ev.position),
                    ev.radius as int,
                ) as u64,
                position: ev.position,
                hit_part: BodyPart::Body,
            },
        )
    } else {
        None
    }
}

/// The hits of a blast on the creatures `ds`, in their order.
pub open spec fn blast_hits(ev: RocketExplosionEvent, ds: Seq<Dinosaur>) -> Seq<BulletHitEvent>
    decreases ds.len(),
{
    if ds.len() == 0 {
        Seq::empty()
    } else {
        let rest = blast_hits(ev, ds.drop_last());
        match blast_hit(ev, ds.last()) {
            Some(h) => rest.push(h),
            None => rest,
        }
    }
}

/// Every creature a blast reaches takes a body hit of falling-off damage.
pub fn explosion_hits(ev: &RocketExplosionEvent, ds: &Vec<Dinosaur>) -> (hits: Vec<BulletHitEvent>)
    requires
        ev.position.wf(),
        ev.damage <= MAX_BASE_DAMAGE,
        ev.radius <= MAX_BASE_DAMAGE,
        all_wf(ds@),
    ensures
        hits@ == blast_hits(*ev, ds@),
{
    let mut hits: Vec<BulletHitEvent> = Vec::new();
    let mut i: usize = 0;
    while i < ds.len()
        invariant
            i <= ds@.len(),
            ev.position.wf(),
            ev.damage <= MAX_BASE_DAMAGE,
            ev.radius <= MAX_BASE_DAMAGE,
            all_wf(ds@),
            hits@ == blast_hits(*ev, ds@.take(i as int)),
        decreases ds@.len() - i,
    {
        let d = &ds[i];
        assert(d.wf());
        assert(ds@.take(i as int + 1).drop_last() == ds@.take(i as int));
        assert(ds@.take(i as int + 1).last() == ds@[i as int]);
        if d.ai.state != crate::dino::AIState::Dead && !is_beyond(&d.position, &ev.position, ev.radius) {
            let dist = distance_between(&d.position, &ev.position);
            let damage = explosion_damage(ev.damage, dist, ev.radius);
            hits.push(BulletHitEvent { target: d.id, damage, position: ev.position, hit_part: BodyPart::Body });
        }
        i = i + 1;
    }
    assert(ds@.take(ds@.len() as int) == ds@);
    hits
}

pub proof fn lemma_blast_hits_bounded(ev: RocketExplosionEvent, ds: Seq<Dinosaur>, k: int)
    requires
        ev.damage <= MAX_BASE_DAMAGE,
        0 <= k < blast_hits(ev, ds).len(),
    ensures
        blast_hits(ev, ds)[k].damage <= ev.damage,
    decreases ds.len(),
{
    if ds.len() > 0 {
        let rest = blast_hits(ev, ds.drop_last());
        if k < rest.len() {
            lemma_blast_hits_bounded(ev, ds.drop_last(), k);
        } else {
            let d = ds.last();
            let a = d.position;
            let b = ev.position;
            assert(0 <= (a.x - b.x) * (a.x - b.x) && 0 <= (a.y - b.y) * (a.y - b.y) && 0 <= (a.z - b.z) * (a.z - b.z)) by (nonlinear_arith);
            crate::geom::lemma_floor_sqrt_nonneg(crate::geom::dist_sq(d.position, ev.position));
            if ev.radius > 0 {
                crate::damage::lemma_falloff_bound(
                    ev.damage as int,
                    distance(d.position, ev.position),
                    ev.radius as int,
                );
            }
        }
    }
}

} // verus!
