//! The player's requests as the core reads them: weapon switches and the
//! choice of a target to lock on.
use vstd::prelude::*;
use crate::collision::all_wf;
use crate::dino::Dinosaur;
use crate::geom::{Direction, Point, aim_toward, direction_of, dist_sq, distance_sq, is_within, within};
use crate::weapon_system::{WeaponInventory, WeaponSwitchedEvent, WeaponType, position_or_first};

verus! {

/// The requests of one frame.
#[derive(Clone, Copy, Debug, PartialEq, Eq, Structural)]
pub struct PlayerInput {
    pub shooting: bool,
    pub lock_target: bool,
    pub pause: bool,
    pub weapon_switch_1: bool,
    pub weapon_switch_2: bool,
    pub weapon_switch_3: bool,
    /// Wheel movement: above zero for the next weapon, below for the
    /// previous one.
    pub weapon_scroll: i32,
}

impl PlayerInput {
    /// No request at all.
    pub fn idle() -> (i: PlayerInput)
        ensures
            !i.shooting && !i.lock_target && !i.pause,
            !i.weapon_switch_1 && !i.weapon_switch_2 && !i.weapon_switch_3,
            i.weapon_scroll == 0,
    {
        PlayerInput {
            shooting: false,
            lock_target: false,
            pause: false,
            weapon_switch_1: false,
            weapon_switch_2: false,
            weapon_switch_3: false,
            weapon_scroll: 0,
        }
    }
}

/// The weapon that a slot key asks for, the first pressed key winning.
pub open spec fn slot_request(input: PlayerInput) -> Option<WeaponType> {
    if input.weapon_switch_1 {
        Some(WeaponType::MachineGun)
    } else if input.weapon_switch_2 {
        Some(WeaponType::Shotgun)
    } else if input.weapon_switch_3 {
        Some(WeaponType::RocketLauncher)
    } else {
        None
    }
}

/// Applies the weapon requests of a frame. A slot key takes that weapon in
/// hand if it is unlocked and reports the request; without one, the wheel
/// cycles forward or back and reports the weapon now in hand; with neither,
/// nothing happens.
pub fn handle_weapon_switching(input: &PlayerInput, inv: &mut WeaponInventory) -> (ev: Option<WeaponSwitchedEvent>)
    requires
        old(inv).wf(),
    ensures
        final(inv).wf(),
        final(inv).unlocked_weapons@ == old(inv).unlocked_weapons@,
        ({
            let s = old(inv).unlocked_weapons@;
            let at = position_or_first(s, old(inv).current_weapon);
            match slot_request(*input) {
                Some(w) => {
                    &&& ev == Some(WeaponSwitchedEvent { new_weapon: w })
                    &&& final(inv).current_weapon == (if s.contains(w) {
                        w
                    } else {
                        old(inv).current_weapon
                    })
                },
                None => if input.weapon_scroll > 0 {
                    &&& final(inv).current_weapon == s[(at + 1) % s.len() as int]
                    &&& ev == Some(WeaponSwitchedEvent { new_weapon: final(inv).current_weapon })
                } else if input.weapon_scroll < 0 {
                    &&& final(inv).current_weapon == s[if at == 0 {
                        s.len() - 1
                    } else {
                        at - 1
                    }]
                    &&& ev == Some(WeaponSwitchedEvent { new_weapon: final(inv).current_weapon })
                } else {
                    &&& ev is None
                    &&& final(inv).current_weapon == old(inv).current_weapon
                },
            }
        }),
{
    let request = if input.weapon_switch_1 {
        Some(WeaponType::MachineGun)
    } else if input.weapon_switch_2 {
        Some(WeaponType::Shotgun)
    } else if input.weapon_switch_3 {
        Some(WeaponType::RocketLauncher)
    } else {
        None
    };
    match request {
        Some(w) => {
            inv.switch_to(w);
            Some(WeaponSwitchedEvent { new_weapon: w })
        },
        None => {
            if input.weapon_scroll > 0 {
                inv.next_weapon();
                Some(WeaponSwitchedEvent { new_weapon: inv.current_weapon })
            } else if input.weapon_scroll < 0 {
                inv.previous_weapon();
                Some(WeaponSwitchedEvent { new_weapon: inv.current_weapon })
            } else {
                None
            }
        },
    }
}

/// The creature locked on, and where it stood when locked.
#[derive(Clone, Copy, Debug, PartialEq, Eq, Structural)]
pub struct TargetLock {
    pub locked_entity: Option<u64>,
    pub lock_position: Option<Point>,
}

impl TargetLock {
    pub fn none() -> (t: TargetLock)
        ensures
            t.locked_entity is None,
            t.lock_position is None,
    {
        TargetLock { locked_entity: None, lock_position: None }
    }
}

/// Farthest distance at which a creature can be locked on.
pub const LOCK_RANGE: u64 = 200_000;

/// Least alignment with the camera's view, in millionths (0.3), for a
/// creature to count as in sight.
pub const LOCK_CONE: i64 = 300_000;

/// Creature `i` is in sight of a camera at `cam` looking along `fwd`: ahead
/// of it, inside the cone, and within range.
pub open spec fn in_sight(ds: Seq<Dinosaur>, i: int, cam: Point, fwd: Direction) -> bool {
    let d = direction_of(cam, ds[i].position);
    &&& 0 <= i < ds.len()
    &&& fwd.x * d.x + fwd.y * d.y + fwd.z * d.z > LOCK_CONE
    &&& within(cam, ds[i].position, LOCK_RANGE as int)
}

/// Creature `i` comes before creature `j` in the order of sight: nearer
/// first, ties in list order.
pub open spec fn sight_before(ds: Seq<Dinosaur>, cam: Point, i: int, j: int) -> bool {
    let a = dist_sq(cam, ds[i].position);
    let b = dist_sq(cam, ds[j].position);
    a < b || (a == b && i < j)
}

/// `i` is the first creature in sight, in the order of sight, among those
/// after `after` in that order (all of them where `after` is none).
pub open spec fn first_in_sight_after(ds: Seq<Dinosaur>, cam: Point, fwd: Direction, after: Option<int>, i: int) -> bool {
    &&& in_sight(ds, i, cam, fwd)
    &&& (after matches Some(a) ==> sight_before(ds, cam, a, i))
    &&& forall|j: int|
        #[trigger] in_sight(ds, j, cam, fwd) && (after matches Some(a) ==> sight_before(ds, cam, a, j)) && j
            != i ==> sight_before(ds, cam, i, j)
}

/// `c` is the first creature with id `id` that is in sight.
pub open spec fn sighted_with_id(ds: Seq<Dinosaur>, cam: Point, fwd: Direction, id: u64, c: int) -> bool {
    &&& in_sight(ds, c, cam, fwd)
    &&& ds[c].id == id
    &&& forall|k: int| 0 <= k < c ==> !(#[trigger] in_sight(ds, k, cam, fwd) && ds[k].id == id)
}

/// Where the current lock stands among the creatures in sight, if it is on
/// one of them.
pub open spec fn lock_index(ds: Seq<Dinosaur>, cam: Point, fwd: Direction, lock: Option<u64>) -> Option<int> {
    match lock {
        Some(id) => if exists|c: int| sighted_with_id(ds, cam, fwd, id, c) {
            Some(choose|c: int| sighted_with_id(ds, cam, fwd, id, c))
        } else {
            None
        },
        None => None,
    }
}

/// `p` is the creature a lock request moves the lock `lock` to: the next in
/// sight after the current one, wrapping round to the nearest, or the
/// nearest where the lock is on none in sight.
pub open spec fn lock_choice(ds: Seq<Dinosaur>, cam: Point, fwd: Direction, lock: Option<u64>, p: int) -> bool {
    match lock_index(ds, cam, fwd, lock) {
        Some(c) => first_in_sight_after(ds, cam, fwd, Some(c), p) || ((forall|j: int|
            #[trigger] in_sight(ds, j, cam, fwd) ==> !sight_before(ds, cam, c, j)) && first_in_sight_after(
            ds,
            cam,
            fwd,
            None,
            p,
        )),
        None => first_in_sight_after(ds, cam, fwd, None, p),
    }
}

fn sight_check(cam: &Point, fwd: Direction, p: &Point) -> (r: bool)
    requires
        cam.wf(),
        fwd.wf(),
        p.wf(),
    ensures
        ({
            let d = direction_of(*cam, *p);
            r == (fwd.x * d.x + fwd.y * d.y + fwd.z * d.z > LOCK_CONE && within(*cam, *p, LOCK_RANGE as int))
        }),
{
    let d = aim_toward(cam, p);
    assert(-1_000_000 <= fwd.x * d.x <= 1_000_000) by (nonlinear_arith)
        requires
            -1000 <= fwd.x <= 1000,
            -1000 <= d.x <= 1000,
    ;
    assert(-1_000_000 <= fwd.y * d.y <= 1_000_000) by (nonlinear_arith)
        requires
            -1000 <= fwd.y <= 1000,
            -1000 <= d.y <= 1000,
    ;
    assert(-1_000_000 <= fwd.z * d.z <= 1_000_000) by (nonlinear_arith)
        requires
            -1000 <= fwd.z <= 1000,
            -1000 <= d.z <= 1000,
    ;
    let dot = fwd.x * d.x + fwd.y * d.y + fwd.z * d.z;
    dot > LOCK_CONE && is_within(cam, p, LOCK_RANGE)
}

/// The first creature in sight after position `after` in the order of
/// sight (from the nearest where `after` is none).
pub fn next_in_sight(ds: &Vec<Dinosaur>, cam: &Point, fwd: Direction, after: Option<usize>) -> (r: Option<usize>)
    requires
        all_wf(ds@),
        cam.wf(),
        fwd.wf(),
        after matches Some(a) ==> a < ds@.len(),
    ensures
        r matches Some(i) ==> first_in_sight_after(
            ds@,
            *cam,
            fwd,
            match after {
                Some(a) => Some(a as int),
                None => None,
            },
            i as int,
        ),
        r is None ==> forall|j: int|
            #[trigger] in_sight(ds@, j, *cam, fwd) ==> (after matches Some(a) && !sight_before(ds@, *cam, a as int, j)),
{
    let ghost aft: Option<int> = match after {
        Some(a) => Some(a as int),
        None => None,
    };
    let after_d: u128 = match after {
        Some(a) => {
            assert(ds@[a as int].wf());
            distance_sq(cam, &ds[a].position)
        },
        None => 0,
    };
    let mut best: Option<usize> = None;
    let mut best_d: u128 = 0;
    let mut i: usize = 0;
    while i < ds.len()
        invariant
            i <= ds@.len(),
            all_wf(ds@),
            cam.wf(),
            fwd.wf(),
            after matches Some(a) ==> a < ds@.len() && after_d == dist_sq(*cam, ds@[a as int].position),
            aft == (match after {
                Some(a) => Some(a as int),
                None => None::<int>,
            }),
            best matches Some(b) ==> {
                &&& b < i
                &&& best_d == dist_sq(*cam, ds@[b as int].position)
                &&& in_sight(ds@, b as int, *cam, fwd)
                &&& (aft matches Some(a) ==> sight_before(ds@, *cam, a, b as int))
            },
            forall|j: int|
                0 <= j < i && #[trigger] in_sight(ds@, j, *cam, fwd) && (aft matches Some(a) ==> sight_before(ds@, *cam, a, j))
                    ==> (best matches Some(b) && (j == b || sight_before(ds@, *cam, b as int, j))),
        decreases ds@.len() - i,
    {
        assert(ds@[i as int].wf());
        let p = ds[i].position;
        if sight_check(cam, fwd, &p) {
            let d = distance_sq(cam, &p);
            let later = match after {
                Some(a) => d > after_d || (d == after_d && i > a),
                None => true,
            };
            if later {
                let better = match best {
                    Some(_) => d < best_d,
                    None => true,
                };
                if better {
                    best = Some(i);
                    best_d = d;
                }
            }
        }
        i = i + 1;
    }
    proof {
        if let Some(b) = best {
            assert forall|j: int|
                #[trigger] in_sight(ds@, j, *cam, fwd) && (aft matches Some(a) ==> sight_before(ds@, *cam, a, j)) && j
                    != b implies sight_before(ds@, *cam, b as int, j) by {
                assert(0 <= j < ds@.len());
            }
        } else {
            assert forall|j: int| #[trigger] in_sight(ds@, j, *cam, fwd) implies (after matches Some(a) && !sight_before(
                ds@,
                *cam,
                a as int,
                j,
            )) by {
                assert(0 <= j < ds@.len());
            }
        }
    }
    best
}

impl TargetLock {
    /// Moves the lock on a lock request. Among the creatures in sight, a
    /// lock already on one of them passes to the next in the order of sight,
    /// wrapping round to the nearest; any other lock, or none, goes to the
    /// nearest. With none in sight the lock is cleared.
    pub fn cycle(&mut self, ds: &Vec<Dinosaur>, cam: &Point, fwd: Direction)
        requires
            all_wf(ds@),
            cam.wf(),
            fwd.wf(),
        ensures
            (forall|j: int| !#[trigger] in_sight(ds@, j, *cam, fwd)) ==> final(self).locked_entity is None
                && final(self).lock_position is None,
            (exists|j: int| #[trigger] in_sight(ds@, j, *cam, fwd)) ==> final(self).locked_entity is Some,
            final(self).locked_entity matches Some(id) ==> exists|i: int|
                #[trigger] lock_choice(ds@, *cam, fwd, old(self).locked_entity, i) && ds@[i].id == id
                    && final(self).lock_position == Some(ds@[i].position),
    {
        let current = match self.locked_entity {
            Some(id) => {
                let mut found: Option<usize> = None;
                let mut i: usize = 0;
                while i < ds.len()
                    invariant
                        i <= ds@.len(),
                        all_wf(ds@),
                        cam.wf(),
                        fwd.wf(),
                        found matches Some(f) ==> f < ds@.len() && sighted_with_id(ds@, *cam, fwd, id, f as int),
                        found is None ==> forall|k: int|
                            0 <= k < i ==> !(#[trigger] in_sight(ds@, k, *cam, fwd) && ds@[k].id == id),
                    decreases ds@.len() - i,
                {
                    assert(ds@[i as int].wf());
                    if found.is_none() && ds[i].id == id && sight_check(cam, fwd, &ds[i].position) {
                        found = Some(i);
                    }
                    i = i + 1;
                }
                proof {
                    match found {
                        Some(f) => {
                            let c = choose|c: int| sighted_with_id(ds@, *cam, fwd, id, c);
                            assert(sighted_with_id(ds@, *cam, fwd, id, c));
                            if c < f {
                                assert(!(in_sight(ds@, c, *cam, fwd) && ds@[c].id == id));
                            } else if c > f {
                                assert(!(in_sight(ds@, f as int, *cam, fwd) && ds@[f as int].id == id));
                            }
                            assert(lock_index(ds@, *cam, fwd, self.locked_entity) == Some(f as int));
                        },
                        None => {
                            assert forall|c: int| !sighted_with_id(ds@, *cam, fwd, id, c) by {
                                if sighted_with_id(ds@, *cam, fwd, id, c) {
                                    assert(0 <= c < ds@.len());
                                    assert(!(in_sight(ds@, c, *cam, fwd) && ds@[c].id == id));
                                }
                            }
                            assert(lock_index(ds@, *cam, fwd, self.locked_entity) is None);
                        },
                    }
                }
                found
            },
            None => None,
        };
        let pick = match current {
            Some(c) => match next_in_sight(ds, cam, fwd, Some(c)) {
                Some(n) => Some(n),
                None => next_in_sight(ds, cam, fwd, None),
            },
            None => next_in_sight(ds, cam, fwd, None),
        };
        match pick {
            Some(i) => {
                assert(lock_choice(ds@, *cam, fwd, self.locked_entity, i as int));
                self.locked_entity = Some(ds[i].id);
                self.lock_position = Some(ds[i].position);
            },
            None => {
                proof {
                    assert forall|j: int| !#[trigger] in_sight(ds@, j, *cam, fwd) by {
                        if in_sight(ds@, j, *cam, fwd) {
                            assert(false);
                        }
                    }
                }
                self.locked_entity = None;
                self.lock_position = None;
            },
        }
    }
}

} // verus!
