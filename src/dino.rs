//! The creatures: species figures, health, hit boxes, damage taken, death,
//! and spawning.
//!
//! Health and damage are in thousandths of a hit point, lengths in
//! thousandths of a world unit, speeds in thousandths of a unit per second,
//! times in milliseconds.
use vstd::prelude::*;
use crate::damage::BodyPart;
use crate::geom::{clamp_coord, clamp_world, floor_div_unit, unit_direction, unit_of, Heading, Point, UNIT};
use crate::random::random_in;
use crate::timer::Timer;

verus! {

/// Largest health of a creature.
pub const MAX_HEALTH: i64 = 1_000_000_000_000;

/// Largest damage of a single hit on a creature.
pub const MAX_HIT_DAMAGE: u64 = 2_000_000_000_000;

/// Largest movement speed, in thousandths of a unit per second.
pub const MAX_MOVE_SPEED: u64 = 1_000_000;

/// Largest attack range, in thousandths of a unit.
pub const MAX_ATTACK_RANGE: u64 = 1_000_000_000;

/// Largest offset of a hit box from its creature, per axis.
pub const MAX_BOX_OFFSET: i64 = 1_000_000;

/// Pause after a wound, in milliseconds.
pub const REACTION_PAUSE_MS: u64 = 300;

/// Speed multiplier of a flight that follows a wound, in tenths (×1.5).
pub const FLEE_BOOST: u32 = 15;

/// Length of the death animation, in milliseconds.
pub const DEATH_ANIMATION_MS: u64 = 3000;

/// Time between two attacks of one creature, in milliseconds.
pub const ATTACK_COOLDOWN_MS: u64 = 2000;

/// The species of creature.
#[derive(Clone, Copy, Debug, PartialEq, Eq, Structural)]
pub enum DinoSpecies {
    Triceratops,
    Velociraptor,
    Brachiosaurus,
    Stegosaurus,
    TRex,
}

pub open spec fn max_health_of(s: DinoSpecies) -> i64 {
    match s {
        DinoSpecies::Triceratops => 150_000,
        DinoSpecies::Velociraptor => 60_000,
        DinoSpecies::Brachiosaurus => 300_000,
        DinoSpecies::Stegosaurus => 200_000,
        DinoSpecies::TRex => 500_000,
    }
}

pub open spec fn move_speed_of(s: DinoSpecies) -> u64 {
    match s {
        DinoSpecies::Triceratops => 8000,
        DinoSpecies::Velociraptor => 15_000,
        DinoSpecies::Brachiosaurus => 4000,
        DinoSpecies::Stegosaurus => 6000,
        DinoSpecies::TRex => 10_000,
    }
}

/// Attack range; zero for species that never attack.
pub open spec fn attack_range_of(s: DinoSpecies) -> u64 {
    match s {
        DinoSpecies::Velociraptor => 20_000,
        DinoSpecies::TRex => 20_000,
        _ => 0,
    }
}

/// Damage that one attack deals to the vehicle.
pub open spec fn attack_damage_of(s: DinoSpecies) -> u64 {
    match s {
        DinoSpecies::Velociraptor => 10_000,
        DinoSpecies::TRex => 25_000,
        _ => 5000,
    }
}

/// Score of a kill before the body-part and combo multipliers.
pub open spec fn base_score_of(s: DinoSpecies) -> u64 {
    match s {
        DinoSpecies::Velociraptor => 150,
        DinoSpecies::Triceratops => 200,
        DinoSpecies::Stegosaurus => 175,
        DinoSpecies::Brachiosaurus => 400,
        DinoSpecies::TRex => 1000,
    }
}

/// Coins for a kill, whatever the part struck or the combo.
pub open spec fn coin_reward_of(s: DinoSpecies) -> u64 {
    match s {
        DinoSpecies::Velociraptor => 15,
        DinoSpecies::Triceratops => 20,
        DinoSpecies::Stegosaurus => 25,
        DinoSpecies::Brachiosaurus => 30,
        DinoSpecies::TRex => 100,
    }
}

/// Width, height and length of the species' body.
pub open spec fn size_of(s: DinoSpecies) -> (i64, i64, i64) {
    match s {
        DinoSpecies::Triceratops => (1500, 1200, 2500),
        DinoSpecies::Velociraptor => (600, 500, 1200),
        DinoSpecies::Brachiosaurus => (2500, 4000, 4000),
        DinoSpecies::Stegosaurus => (1800, 1000, 3000),
        DinoSpecies::TRex => (2200, 2000, 3500),
    }
}

impl DinoSpecies {
    pub fn max_health(&self) -> (r: i64)
        ensures
            r == max_health_of(*self),
    {
        match self {
            DinoSpecies::Triceratops => 150_000,
            DinoSpecies::Velociraptor => 60_000,
            DinoSpecies::Brachiosaurus => 300_000,
            DinoSpecies::Stegosaurus => 200_000,
            DinoSpecies::TRex => 500_000,
        }
    }

    pub fn move_speed(&self) -> (r: u64)
        ensures
            r == move_speed_of(*self),
    {
        match self {
            DinoSpecies::Triceratops => 8000,
            DinoSpecies::Velociraptor => 15_000,
            DinoSpecies::Brachiosaurus => 4000,
            DinoSpecies::Stegosaurus => 6000,
            DinoSpecies::TRex => 10_000,
        }
    }

    pub fn attack_range(&self) -> (r: u64)
        ensures
            r == attack_range_of(*self),
    {
        match self {
            DinoSpecies::Velociraptor => 20_000,
            DinoSpecies::TRex => 20_000,
            _ => 0,
        }
    }

    pub fn attack_damage(&self) -> (r: u64)
        ensures
            r == attack_damage_of(*self),
    {
        match self {
            DinoSpecies::Velociraptor => 10_000,
            DinoSpecies::TRex => 25_000,
            _ => 5000,
        }
    }

    pub fn base_score(&self) -> (r: u64)
        ensures
            r == base_score_of(*self),
    {
        match self {
            DinoSpecies::Velociraptor => 150,
            DinoSpecies::Triceratops => 200,
            DinoSpecies::Stegosaurus => 175,
            DinoSpecies::Brachiosaurus => 400,
            DinoSpecies::TRex => 1000,
        }
    }

    pub fn coin_reward(&self) -> (r: u64)
        ensures
            r == coin_reward_of(*self),
    {
        match self {
            DinoSpecies::Velociraptor => 15,
            DinoSpecies::Triceratops => 20,
            DinoSpecies::Stegosaurus => 25,
            DinoSpecies::Brachiosaurus => 30,
            DinoSpecies::TRex => 100,
        }
    }

    pub fn size(&self) -> (r: (i64, i64, i64))
        ensures
            r == size_of(*self),
    {
        match self {
            DinoSpecies::Triceratops => (1500, 1200, 2500),
            DinoSpecies::Velociraptor => (600, 500, 1200),
            DinoSpecies::Brachiosaurus => (2500, 4000, 4000),
            DinoSpecies::Stegosaurus => (1800, 1000, 3000),
            DinoSpecies::TRex => (2200, 2000, 3500),
        }
    }
}

/// Current and full health.
#[derive(Clone, Copy, Debug, PartialEq, Eq, Structural)]
pub struct DinoHealth {
    pub current: i64,
    pub max: i64,
}

/// A region of a creature's body that a projectile can strike: its part,
/// its offset in the creature's own frame (`z` ahead, `y` up), and its
/// place in the world.
#[derive(Clone, Copy, Debug, PartialEq, Eq, Structural)]
pub struct HitBox {
    pub part: BodyPart,
    pub offset: Point,
    pub position: Point,
}

/// The states of the creature AI.
#[derive(Clone, Copy, Debug, PartialEq, Eq, Structural)]
pub enum AIState {
    Idle,
    Roam,
    Flee,
    Attack,
    Dead,
}

/// What drives a creature's movement.
#[derive(Clone, Copy, Debug, PartialEq, Eq, Structural)]
pub struct DinoAI {
    pub state: AIState,
    pub wander_target: Option<Point>,
    pub flee_direction: Heading,
    pub move_speed: u64,
    pub attack_cooldown: Timer,
    pub attack_range: u64,
}

impl DinoAI {
    pub open spec fn wf(&self) -> bool {
        &&& self.flee_direction.wf()
        &&& self.move_speed <= MAX_MOVE_SPEED
        &&& self.attack_cooldown.wf()
        &&& self.attack_range <= MAX_ATTACK_RANGE
        &&& (self.wander_target matches Some(t) ==> t.wf())
    }

    /// A roaming creature of the default build.
    pub fn default_ai() -> (ai: DinoAI)
        ensures
            ai.wf(),
            ai.state == AIState::Roam,
            ai.wander_target is None,
            ai.flee_direction == (Heading { x: 0, z: 0 }),
            ai.move_speed == 10_000,
            ai.attack_cooldown == (Timer { duration_ms: ATTACK_COOLDOWN_MS, elapsed_ms: 0 }),
            ai.attack_range == 15_000,
    {
        DinoAI {
            state: AIState::Roam,
            wander_target: None,
            flee_direction: Heading { x: 0, z: 0 },
            move_speed: 10_000,
            attack_cooldown: Timer::from_millis(ATTACK_COOLDOWN_MS),
            attack_range: 15_000,
        }
    }
}

/// The pause that follows a wound, and the speed of the flight after it.
#[derive(Clone, Copy, Debug, PartialEq, Eq, Structural)]
pub struct DamageReaction {
    pub pause_timer: Timer,
    pub flee_boost: u32,
}

impl DamageReaction {
    pub fn new() -> (r: DamageReaction)
        ensures
            r.pause_timer == (Timer { duration_ms: REACTION_PAUSE_MS, elapsed_ms: 0 }),
            r.flee_boost == FLEE_BOOST,
    {
        DamageReaction { pause_timer: Timer::from_millis(REACTION_PAUSE_MS), flee_boost: FLEE_BOOST }
    }
}

/// The fall of a dead creature, after which it is removed.
#[derive(Clone, Copy, Debug, PartialEq, Eq, Structural)]
pub struct DinoDeath {
    pub timer: Timer,
}

/// An attack of a creature on the vehicle.
#[derive(Clone, Copy, Debug, PartialEq, Eq, Structural)]
pub struct DinoAttackEvent {
    pub damage: u64,
}

/// A request to bring a new herd into the world.
#[derive(Clone, Copy, Debug, PartialEq, Eq, Structural)]
pub struct RespawnDinosEvent;

/// Coins earned by the player.
#[derive(Clone, Copy, Debug, PartialEq, Eq, Structural)]
pub struct CoinSystem {
    pub total_coins: u64,
}

impl CoinSystem {
    pub fn new() -> (c: CoinSystem)
        ensures
            c.total_coins == 0,
    {
        CoinSystem { total_coins: 0 }
    }
}

/// A creature in the world.
#[derive(Clone, Debug)]
pub struct Dinosaur {
    pub id: u64,
    pub species: DinoSpecies,
    pub health: DinoHealth,
    pub ai: DinoAI,
    pub position: Point,
    pub facing: Heading,
    pub reaction: Option<DamageReaction>,
    pub boosted: bool,
    pub death: Option<DinoDeath>,
    pub hit_boxes: Vec<HitBox>,
}

pub open spec fn offset_ok(o: Point) -> bool {
    -MAX_BOX_OFFSET <= o.x <= MAX_BOX_OFFSET && -MAX_BOX_OFFSET <= o.y <= MAX_BOX_OFFSET
        && -MAX_BOX_OFFSET <= o.z <= MAX_BOX_OFFSET
}

/// The facing used to place hit boxes: the unit facing, or straight ahead
/// where the facing is zero.
pub open spec fn frame_of(facing: Heading) -> Heading {
    let u = unit_of(facing.x as int, facing.z as int);
    if u.x == 0 && u.z == 0 {
        Heading { x: 0, z: UNIT }
    } else {
        u
    }
}

/// World place of a hit box at `offset` from a creature at `pos` turned
/// toward the unit heading `f`.
pub open spec fn box_position(pos: Point, f: Heading, offset: Point) -> Point {
    Point {
        x: clamp_world(pos.x + (offset.x * f.z + offset.z * f.x) / UNIT as int) as i64,
        y: clamp_world(pos.y + offset.y) as i64,
        z: clamp_world(pos.z + (offset.z * f.z - offset.x * f.x) / UNIT as int) as i64,
    }
}

impl Dinosaur {
    /// The creature's fall is over: it is due for removal.
    pub open spec fn fall_done(&self) -> bool {
        self.death matches Some(x) && x.timer.is_finished()
    }

    pub open spec fn is_dead(&self) -> bool {
        self.ai.state == AIState::Dead
    }

    pub open spec fn wf(&self) -> bool {
        &&& self.position.wf()
        &&& self.facing.wf()
        &&& self.ai.wf()
        &&& 0 < self.health.max <= MAX_HEALTH
        &&& -MAX_HEALTH - MAX_HIT_DAMAGE <= self.health.current <= self.health.max
        &&& self.is_dead() == (self.health.current <= 0)
        &&& self.is_dead() == self.death is Some
        &&& (self.death matches Some(d) ==> d.timer.wf())
        &&& (self.reaction matches Some(r) ==> r.pause_timer.wf() && !self.is_dead())
        &&& (self.boosted ==> self.ai.state == AIState::Flee)
        &&& forall|i: int|
            0 <= i < self.hit_boxes@.len() ==> {
                &&& offset_ok((#[trigger] self.hit_boxes@[i]).offset)
                &&& self.hit_boxes@[i].position.wf()
            }
    }

    /// A new creature of `species` at `position`, roaming, at full health,
    /// facing ahead, with its hit boxes in place.
    pub fn spawn(id: u64, species: DinoSpecies, position: Point) -> (d: Dinosaur)
        requires
            position.wf(),
        ensures
            d.wf(),
            d.id == id,
            d.species == species,
            d.health == (DinoHealth { current: max_health_of(species), max: max_health_of(species) }),
            d.ai.state == AIState::Roam,
            d.ai.wander_target is None,
            d.ai.move_speed == move_speed_of(species),
            d.ai.attack_range == attack_range_of(species),
            d.ai.attack_cooldown == (Timer { duration_ms: ATTACK_COOLDOWN_MS, elapsed_ms: 0 }),
            d.position == position,
            d.facing == (Heading { x: 0, z: UNIT }),
            d.reaction is None,
            !d.boosted,
            d.death is None,
            d.hit_boxes@.len() == 6,
            forall|i: int|
                0 <= i < 6 ==> #[trigger] d.hit_boxes@[i].position == box_position(
                    position,
                    Heading { x: 0, z: UNIT },
                    d.hit_boxes@[i].offset,
                ),
            d.hit_boxes@[0].part == BodyPart::Body,
            d.hit_boxes@[1].part == BodyPart::Head,
            d.hit_boxes@[2].part == BodyPart::Legs,
            d.hit_boxes@[3].part == BodyPart::Legs,
            d.hit_boxes@[4].part == BodyPart::Legs,
            d.hit_boxes@[5].part == BodyPart::Legs,
    {
        let health = species.max_health();
        let mut d = Dinosaur {
            id,
            species,
            health: DinoHealth { current: health, max: health },
            ai: DinoAI {
                state: AIState::Roam,
                wander_target: None,
                flee_direction: Heading { x: 0, z: 0 },
                move_speed: species.move_speed(),
                attack_cooldown: Timer::from_millis(ATTACK_COOLDOWN_MS),
                attack_range: species.attack_range(),
            },
            position,
            facing: Heading { x: 0, z: UNIT },
            reaction: None,
            boosted: false,
            death: None,
            hit_boxes: body_plan(species),
        };
        proof {
            assert(unit_of(0, UNIT as int) == (Heading { x: 0, z: UNIT })) by {
                crate::geom::lemma_floor_sqrt_is(UNIT as int, UNIT * UNIT);
                assert(UNIT * UNIT / UNIT as int == UNIT) by (nonlinear_arith);
            }
        }
        d.place_hit_boxes();
        d
    }

    /// Moves every hit box to its world place, from the creature's position
    /// and facing.
    pub fn place_hit_boxes(&mut self)
        requires
            old(self).wf(),
        ensures
            final(self).wf(),
            final(self).hit_boxes@.len() == old(self).hit_boxes@.len(),
            forall|i: int|
                0 <= i < final(self).hit_boxes@.len() ==> {
                    &&& (#[trigger] final(self).hit_boxes@[i]).part == old(self).hit_boxes@[i].part
                    &&& final(self).hit_boxes@[i].offset == old(self).hit_boxes@[i].offset
                    &&& final(self).hit_boxes@[i].position == box_position(
                        old(self).position,
                        frame_of(old(self).facing),
                        old(self).hit_boxes@[i].offset,
                    )
                },
            final(self).id == old(self).id,
            final(self).species == old(self).species,
            final(self).health == old(self).health,
            final(self).ai == old(self).ai,
            final(self).position == old(self).position,
            final(self).facing == old(self).facing,
            final(self).reaction == old(self).reaction,
            final(self).boosted == old(self).boosted,
            final(self).death == old(self).death,
    {
        let u = unit_direction(self.facing.x, self.facing.z);
        let f = if u.x == 0 && u.z == 0 {
            Heading { x: 0, z: UNIT }
        } else {
            u
        };
        let ghost old_boxes = self.hit_boxes@;
        let n = self.hit_boxes.len();
        let mut i: usize = 0;
        while i < n
            invariant
                n == old_boxes.len(),
                self.hit_boxes@.len() == n,
                i <= n,
                f == frame_of(old(self).facing),
                f.wf(),
                self.position == old(self).position,
                self.position.wf(),
                self.id == old(self).id,
                self.species == old(self).species,
                self.health == old(self).health,
                self.ai == old(self).ai,
                self.facing == old(self).facing,
                self.reaction == old(self).reaction,
                self.boosted == old(self).boosted,
                self.death == old(self).death,
                old_boxes == old(self).hit_boxes@,
                forall|j: int| 0 <= j < n ==> offset_ok((#[trigger] old_boxes[j]).offset),
                forall|j: int|
                    0 <= j < n ==> {
                        &&& (#[trigger] self.hit_boxes@[j]).part == old_boxes[j].part
                        &&& self.hit_boxes@[j].offset == old_boxes[j].offset
                        &&& self.hit_boxes@[j].position.wf()
                    },
                forall|j: int|
                    0 <= j < i ==> (#[trigger] self.hit_boxes@[j]).position == box_position(
                        old(self).position,
                        f,
                        old_boxes[j].offset,
                    ),
            decreases n - i,
        {
            let b = self.hit_boxes[i];
            let p = place_box(&self.position, &f, &b.offset);
            self.hit_boxes.set(i, HitBox { part: b.part, offset: b.offset, position: p });
            i = i + 1;
        }
    }
}

/// World place of a hit box.
pub fn place_box(pos: &Point, f: &Heading, offset: &Point) -> (p: Point)
    requires
        pos.wf(),
        f.wf(),
        offset_ok(*offset),
    ensures
        p == box_position(*pos, *f, *offset),
        p.wf(),
{
    assert(-1_000_000_000 <= offset.x * f.z <= 1_000_000_000) by (nonlinear_arith)
        requires
            -1_000_000 <= offset.x <= 1_000_000,
            -1000 <= f.z <= 1000,
    ;
    assert(-1_000_000_000 <= offset.z * f.x <= 1_000_000_000) by (nonlinear_arith)
        requires
            -1_000_000 <= offset.z <= 1_000_000,
            -1000 <= f.x <= 1000,
    ;
    assert(-1_000_000_000 <= offset.z * f.z <= 1_000_000_000) by (nonlinear_arith)
        requires
            -1_000_000 <= offset.z <= 1_000_000,
            -1000 <= f.z <= 1000,
    ;
    assert(-1_000_000_000 <= offset.x * f.x <= 1_000_000_000) by (nonlinear_arith)
        requires
            -1_000_000 <= offset.x <= 1_000_000,
            -1000 <= f.x <= 1000,
    ;
    let dx = floor_div_unit(offset.x * f.z + offset.z * f.x);
    let dz = floor_div_unit(offset.z * f.z - offset.x * f.x);
    Point {
        x: clamp_coord(pos.x + dx),
        y: clamp_coord(pos.y + offset.y),
        z: clamp_coord(pos.z + dz),
    }
}

/// The hit boxes of a fresh creature of `species`, in its own frame: the
/// body, the head, then the four legs.
pub fn body_plan(species: DinoSpecies) -> (boxes: Vec<HitBox>)
    ensures
        boxes@.len() == 6,
        boxes@[0].part == BodyPart::Body,
        boxes@[1].part == BodyPart::Head,
        boxes@[2].part == BodyPart::Legs,
        boxes@[3].part == BodyPart::Legs,
        boxes@[4].part == BodyPart::Legs,
        boxes@[5].part == BodyPart::Legs,
        forall|i: int|
            0 <= i < 6 ==> offset_ok((#[trigger] boxes@[i]).offset) && boxes@[i].position.wf(),
{
    let (sx, sy, sz) = species.size();
    let head = match species {
        DinoSpecies::Triceratops => Point { x: 0, y: sy * 7 / 10, z: sz * 4 / 10 },
        DinoSpecies::Velociraptor => Point { x: 0, y: sy * 8 / 10, z: sz * 5 / 10 },
        DinoSpecies::Brachiosaurus => Point { x: 0, y: sy * 9 / 10, z: sz * 4 / 10 },
        DinoSpecies::Stegosaurus => Point { x: 0, y: sy * 6 / 10, z: sz * 35 / 100 },
        DinoSpecies::TRex => Point { x: 0, y: sy * 75 / 100, z: sz * 45 / 100 },
    };
    let leg_height = match species {
        DinoSpecies::Brachiosaurus => sy * 7 / 10,
        _ => sy / 2,
    };
    let lx = sx * 3 / 10;
    let lz = sz * 2 / 10;
    let ly = leg_height / 2;
    let origin = Point { x: 0, y: 0, z: 0 };
    let mut boxes: Vec<HitBox> = Vec::new();
    boxes.push(HitBox { part: BodyPart::Body, offset: Point { x: 0, y: sy / 2, z: 0 }, position: origin });
    boxes.push(HitBox { part: BodyPart::Head, offset: head, position: origin });
    boxes.push(HitBox { part: BodyPart::Legs, offset: Point { x: -lx, y: ly, z: lz }, position: origin });
    boxes.push(HitBox { part: BodyPart::Legs, offset: Point { x: lx, y: ly, z: lz }, position: origin });
    boxes.push(HitBox { part: BodyPart::Legs, offset: Point { x: -lx, y: ly, z: -lz }, position: origin });
    boxes.push(HitBox { part: BodyPart::Legs, offset: Point { x: lx, y: ly, z: -lz }, position: origin });
    boxes
}

/// What a hit did to its target.
#[derive(Clone, Copy, Debug, PartialEq, Eq, Structural)]
pub enum HitOutcome {
    /// The target was already dead: nothing changed.
    Ignored,
    /// The hit dealt no damage (a blast's very edge): nothing changed.
    Unhurt,
    /// The target lives on, pausing before it flees.
    Wounded,
    /// The hit killed the target.
    Killed,
}

impl Dinosaur {
    /// Takes `damage` off a creature. A dead creature ignores it, and a hit
    /// of no damage leaves a living one as it was. A creature left at zero
    /// health or below dies: it enters its fall and stops reacting. One that
    /// lives pauses before fleeing.
    pub fn take_hit(&mut self, damage: u64) -> (outcome: HitOutcome)
        requires
            old(self).wf(),
            damage <= MAX_HIT_DAMAGE,
        ensures
            final(self).wf(),
            old(self).is_dead() ==> outcome == HitOutcome::Ignored && *final(self) == *old(self),
            !old(self).is_dead() ==> {
                &&& final(self).health.current == old(self).health.current - damage
                &&& final(self).health.max == old(self).health.max
                &&& outcome == (if old(self).health.current - damage <= 0 {
                    HitOutcome::Killed
                } else if damage == 0 {
                    HitOutcome::Unhurt
                } else {
                    HitOutcome::Wounded
                })
            },
            outcome == HitOutcome::Killed ==> {
                &&& final(self).is_dead()
                &&& final(self).death == Some(
                    DinoDeath { timer: Timer { duration_ms: DEATH_ANIMATION_MS, elapsed_ms: 0 } },
                )
                &&& final(self).reaction is None
            },
            outcome == HitOutcome::Unhurt ==> *final(self) == *old(self),
            outcome == HitOutcome::Wounded ==> {
                &&& final(self).ai == old(self).ai
                &&& final(self).reaction == Some(
                    DamageReaction {
                        pause_timer: Timer { duration_ms: REACTION_PAUSE_MS, elapsed_ms: 0 },
                        flee_boost: FLEE_BOOST,
                    },
                )
            },
            final(self).id == old(self).id,
            final(self).species == old(self).species,
            final(self).position == old(self).position,
            final(self).facing == old(self).facing,
            final(self).hit_boxes@ == old(self).hit_boxes@,
    {
        if self.ai.state == AIState::Dead {
            return HitOutcome::Ignored;
        }
        if damage == 0 {
            return HitOutcome::Unhurt;
        }
        self.health.current = self.health.current - damage as i64;
        if self.health.current <= 0 {
            self.ai.state = AIState::Dead;
            self.ai.wander_target = None;
            self.reaction = None;
            self.boosted = false;
            self.death = Some(DinoDeath { timer: Timer::from_millis(DEATH_ANIMATION_MS) });
            HitOutcome::Killed
        } else {
            self.reaction = Some(DamageReaction::new());
            HitOutcome::Wounded
        }
    }

    /// Advances the fall of a dead creature; true once it is over and the
    /// creature is to be removed. A living creature is never removed.
    pub fn update_death(&mut self, delta_ms: u64) -> (remove: bool)
        requires
            old(self).wf(),
        ensures
            final(self).wf(),
            *final(self) == fall_step(*old(self), delta_ms as int),
            remove == fall_over(*old(self), delta_ms as int),
            final(self).ai == old(self).ai,
            final(self).health == old(self).health,
            final(self).position == old(self).position,
            final(self).id == old(self).id,
            final(self).hit_boxes@ == old(self).hit_boxes@,
            old(self).death is None ==> !remove && *final(self) == *old(self),
            old(self).death matches Some(d) ==> {
                &&& final(self).death == Some(DinoDeath { timer: crate::timer::ticked(d.timer, delta_ms as int) })
                &&& remove == crate::timer::ticked(d.timer, delta_ms as int).is_finished()
            },
    {
        match &mut self.death {
            None => false,
            Some(d) => {
                d.timer.tick(delta_ms);
                d.timer.finished()
            },
        }
    }

    /// The pose of the fall: the tilt in milliradians and the height of the
    /// body's centre.
    pub fn death_pose(&self) -> (pose: (i64, i64))
        requires
            self.wf(),
        ensures
            self.death matches Some(d) ==> {
                let progress = UNIT - d.timer.elapsed_ms * UNIT / d.timer.duration_ms as int;
                d.timer.duration_ms > 0 ==> {
                    &&& pose.0 == progress * 1571 / 1000
                    &&& pose.1 == size_of(self.species).1 / 2 * (1000 - progress * 8 / 10) / 1000
                }
            },
            self.death is None ==> pose.0 == 0 && pose.1 == size_of(self.species).1 / 2,
    {
        let (_, sy, _) = self.species.size();
        match &self.death {
            None => (0, sy / 2),
            Some(d) => {
                if d.timer.duration_ms == 0 {
                    return (1571, sy / 2);
                }
                let e: u128 = d.timer.elapsed_ms as u128 * 1000;
                let q: u128 = e / d.timer.duration_ms as u128;
                assert(q <= 1000) by (nonlinear_arith)
                    requires
                        q == e as int / d.timer.duration_ms as int,
                        e == d.timer.elapsed_ms * 1000,
                        d.timer.elapsed_ms <= d.timer.duration_ms,
                        d.timer.duration_ms > 0,
                ;
                let fraction = q as i64;
                let progress = 1000 - fraction;
                assert(0 < sy <= 4000);
                assert(sy / 2 * (1000 - progress * 8 / 10) <= 2_000_000) by (nonlinear_arith)
                    requires
                        0 < sy <= 4000,
                        0 <= progress <= 1000,
                ;
                (progress * 1571 / 1000, sy / 2 * (1000 - progress * 8 / 10) / 1000)
            },
        }
    }
}

/// `d` after `delta` more milliseconds of its fall, if it is falling.
pub open spec fn fall_step(d: Dinosaur, delta: int) -> Dinosaur {
    match d.death {
        None => d,
        Some(x) => Dinosaur { death: Some(DinoDeath { timer: crate::timer::ticked(x.timer, delta) }), ..d },
    }
}

/// The fall of `d` is over after `delta` more milliseconds.
pub open spec fn fall_over(d: Dinosaur, delta: int) -> bool {
    match d.death {
        None => false,
        Some(x) => crate::timer::ticked(x.timer, delta).is_finished(),
    }
}

/// Where and how many creatures spawn.
#[derive(Clone, Copy, Debug, PartialEq, Eq, Structural)]
pub struct DinoSpawnConfig {
    pub count: u32,
    pub spawn_radius: i64,
    pub min_distance_from_player: i64,
}

impl DinoSpawnConfig {
    pub open spec fn wf(&self) -> bool {
        0 < self.spawn_radius <= crate::geom::WORLD_BOUND && 0 <= self.min_distance_from_player
    }

    /// Fifteen creatures within 150 units, none within 20 of the origin on
    /// both axes.
    pub fn new() -> (c: DinoSpawnConfig)
        ensures
            c.wf(),
            c.count == 15,
            c.spawn_radius == 150_000,
            c.min_distance_from_player == 20_000,
    {
        DinoSpawnConfig { count: 15, spawn_radius: 150_000, min_distance_from_player: 20_000 }
    }
}

/// The species of the `index`-th creature of a herd, from two draws: the
/// first creature is a T-Rex when `boss_roll` (out of 10) is below 3;
/// otherwise `species_roll` (out of 5) picks it, its last value falling to
/// the Triceratops.
pub open spec fn species_for(index: int, boss_roll: int, species_roll: int) -> DinoSpecies {
    if index == 0 && boss_roll < 3 {
        DinoSpecies::TRex
    } else if species_roll == 1 {
        DinoSpecies::Velociraptor
    } else if species_roll == 2 {
        DinoSpecies::Brachiosaurus
    } else if species_roll == 3 {
        DinoSpecies::Stegosaurus
    } else {
        DinoSpecies::Triceratops
    }
}

pub fn choose_species(index: u32, boss_roll: i64, species_roll: i64) -> (s: DinoSpecies)
    ensures
        s == species_for(index as int, boss_roll as int, species_roll as int),
{
    if index == 0 && boss_roll < 3 {
        DinoSpecies::TRex
    } else if species_roll == 1 {
        DinoSpecies::Velociraptor
    } else if species_roll == 2 {
        DinoSpecies::Brachiosaurus
    } else if species_roll == 3 {
        DinoSpecies::Stegosaurus
    } else {
        DinoSpecies::Triceratops
    }
}

/// A spawn place is refused when it lies within `min` of the origin on both
/// horizontal axes.
pub open spec fn spawn_place_ok(x: int, z: int, min: int) -> bool {
    !((-min < x < min) && (-min < z < min))
}

pub fn spawn_place_allowed(x: i64, z: i64, min: i64) -> (ok: bool)
    requires
        min >= 0,
    ensures
        ok == spawn_place_ok(x as int, z as int, min as int),
{
    !((-min < x && x < min) && (-min < z && z < min))
}

/// `d` is a creature just spawned of `species` at `position`: at full
/// health, roaming with no target, unhurt and alive.
pub open spec fn fresh(d: Dinosaur, species: DinoSpecies, position: Point) -> bool {
    &&& d.species == species
    &&& d.position == position
    &&& d.health == (DinoHealth { current: max_health_of(species), max: max_health_of(species) })
    &&& d.ai.state == AIState::Roam
    &&& d.ai.wander_target is None
    &&& d.reaction is None
    &&& d.death is None
    &&& !d.boosted
}

/// A species and place that the draws for the `index`-th creature of a
/// herd can give: the species of some boss and species rolls, on the ground
/// inside the spawn square and not too near the origin.
pub open spec fn spawn_draw(config: DinoSpawnConfig, index: int, s: DinoSpecies, p: Point) -> bool {
    &&& p.wf()
    &&& p.y == 0
    &&& -config.spawn_radius <= p.x < config.spawn_radius
    &&& -config.spawn_radius <= p.z < config.spawn_radius
    &&& spawn_place_ok(p.x as int, p.z as int, config.min_distance_from_player as int)
    &&& exists|b: int, k: int| 0 <= b < 10 && 0 <= k < 5 && s == #[trigger] species_for(index, b, k)
}

/// Draws the species and place of the `index`-th creature of a herd; none
/// where the place falls too near the origin, which never happens when no
/// distance from the origin is asked for.
pub fn roll_spawn(config: &DinoSpawnConfig, index: u32) -> (r: Option<(DinoSpecies, Point)>)
    requires
        config.wf(),
    ensures
        config.min_distance_from_player == 0 ==> r is Some,
        r matches Some((s, p)) ==> {
            &&& spawn_draw(*config, index as int, s, p)
            &&& (index > 0 ==> s != DinoSpecies::TRex)
        },
{
    let boss_roll = random_in(0, 10);
    let species_roll = random_in(0, 5);
    let species = choose_species(index, boss_roll, species_roll);
    assert(species == species_for(index as int, boss_roll as int, species_roll as int));
    let x = random_in(-config.spawn_radius, config.spawn_radius);
    let z = random_in(-config.spawn_radius, config.spawn_radius);
    if !spawn_place_allowed(x, z, config.min_distance_from_player) {
        return None;
    }
    Some((species, Point { x, y: 0, z }))
}

} // verus!
