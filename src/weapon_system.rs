//! Weapon archetypes, the player's inventory of them, and the rate limit
//! on firing.
//!
//! Times are in milliseconds, damage in thousandths of a hit point, lengths
//! and speeds in thousandths of a world unit, angles in milliradians.
use vstd::prelude::*;

verus! {

/// The weapon archetypes.
#[derive(Clone, Copy, Debug, PartialEq, Eq, Structural)]
pub enum WeaponType {
    MachineGun,
    Shotgun,
    RocketLauncher,
}

/// Least time between two accepted shots, in milliseconds.
pub open spec fn fire_rate_of(w: WeaponType) -> u64 {
    match w {
        WeaponType::MachineGun => 100,
        WeaponType::Shotgun => 800,
        WeaponType::RocketLauncher => 2000,
    }
}

/// Damage of one projectile, in thousandths of a hit point.
pub open spec fn damage_of(w: WeaponType) -> u64 {
    match w {
        WeaponType::MachineGun => 10_000,
        WeaponType::Shotgun => 15_000,
        WeaponType::RocketLauncher => 100_000,
    }
}

/// Projectiles per shot.
pub open spec fn pellet_count_of(w: WeaponType) -> u32 {
    match w {
        WeaponType::Shotgun => 8,
        _ => 1,
    }
}

/// Full horizontal spread of a shot, in milliradians.
pub open spec fn spread_of(w: WeaponType) -> u64 {
    match w {
        WeaponType::Shotgun => 150,
        _ => 0,
    }
}

/// Projectile speed, in thousandths of a unit per second.
pub open spec fn bullet_speed_of(w: WeaponType) -> u64 {
    match w {
        WeaponType::MachineGun => 100_000,
        WeaponType::Shotgun => 80_000,
        WeaponType::RocketLauncher => 60_000,
    }
}

/// Projectile radius, in thousandths of a unit.
pub open spec fn bullet_radius_of(w: WeaponType) -> u64 {
    match w {
        WeaponType::MachineGun => 200,
        WeaponType::Shotgun => 150,
        WeaponType::RocketLauncher => 300,
    }
}

/// Blast radius of an explosive projectile, in thousandths of a unit.
pub open spec fn explosion_radius_of(w: WeaponType) -> u64 {
    match w {
        WeaponType::RocketLauncher => 8000,
        _ => 0,
    }
}

/// Fuse of an explosive projectile, in milliseconds.
pub open spec fn rocket_delay_of(w: WeaponType) -> u64 {
    match w {
        WeaponType::RocketLauncher => 1000,
        _ => 0,
    }
}

impl WeaponType {
    /// The name shown to the player.
    pub fn name(&self) -> (s: &'static str)
        ensures
            *self == WeaponType::MachineGun ==> s@ == "Machine Gun"@,
            *self == WeaponType::Shotgun ==> s@ == "Shotgun"@,
            *self == WeaponType::RocketLauncher ==> s@ == "Rocket Launcher"@,
    {
        match self {
            WeaponType::MachineGun => "Machine Gun",
            WeaponType::Shotgun => "Shotgun",
            WeaponType::RocketLauncher => "Rocket Launcher",
        }
    }

    pub fn fire_rate(&self) -> (r: u64)
        ensures
            r == fire_rate_of(*self),
    {
        match self {
            WeaponType::MachineGun => 100,
            WeaponType::Shotgun => 800,
            WeaponType::RocketLauncher => 2000,
        }
    }

    pub fn damage(&self) -> (r: u64)
        ensures
            r == damage_of(*self),
    {
        match self {
            WeaponType::MachineGun => 10_000,
            WeaponType::Shotgun => 15_000,
            WeaponType::RocketLauncher => 100_000,
        }
    }

    pub fn pellet_count(&self) -> (r: u32)
        ensures
            r == pellet_count_of(*self),
    {
        match self {
            WeaponType::Shotgun => 8,
            _ => 1,
        }
    }

    pub fn spread(&self) -> (r: u64)
        ensures
            r == spread_of(*self),
    {
        match self {
            WeaponType::Shotgun => 150,
            _ => 0,
        }
    }

    pub fn bullet_speed(&self) -> (r: u64)
        ensures
            r == bullet_speed_of(*self),
    {
        match self {
            WeaponType::MachineGun => 100_000,
            WeaponType::Shotgun => 80_000,
            WeaponType::RocketLauncher => 60_000,
        }
    }

    pub fn bullet_radius(&self) -> (r: u64)
        ensures
            r == bullet_radius_of(*self),
    {
        match self {
            WeaponType::MachineGun => 200,
            WeaponType::Shotgun => 150,
            WeaponType::RocketLauncher => 300,
        }
    }

    /// Whether projectiles of this weapon explode on a fuse instead of
    /// striking directly.
    pub fn explosive(&self) -> (r: bool)
        ensures
            r == (*self == WeaponType::RocketLauncher),
    {
        matches!(self, WeaponType::RocketLauncher)
    }

    pub fn explosion_radius(&self) -> (r: u64)
        ensures
            r == explosion_radius_of(*self),
    {
        match self {
            WeaponType::RocketLauncher => 8000,
            _ => 0,
        }
    }

    pub fn rocket_delay(&self) -> (r: u64)
        ensures
            r == rocket_delay_of(*self),
    {
        match self {
            WeaponType::RocketLauncher => 1000,
            _ => 0,
        }
    }
}

/// Index of the first `w` in `s`, or 0 where `s` holds none.
pub open spec fn position_or_first(s: Seq<WeaponType>, w: WeaponType) -> int {
    if exists|i: int| 0 <= i < s.len() && s[i] == w {
        choose|i: int|
            0 <= i < s.len() && s[i] == w && forall|j: int| 0 <= j < i ==> s[j] != w
    } else {
        0
    }
}

/// The weapon in hand and the unlocked weapons, in cycling order.
#[derive(Clone, Debug)]
pub struct WeaponInventory {
    pub current_weapon: WeaponType,
    pub unlocked_weapons: Vec<WeaponType>,
}

impl WeaponInventory {
    pub open spec fn wf(&self) -> bool {
        self.unlocked_weapons@.len() > 0
    }

    /// All three weapons unlocked, the machine gun in hand.
    pub fn new() -> (inv: WeaponInventory)
        ensures
            inv.wf(),
            inv.current_weapon == WeaponType::MachineGun,
            inv.unlocked_weapons@ == seq![
                WeaponType::MachineGun,
                WeaponType::Shotgun,
                WeaponType::RocketLauncher,
            ],
    {
        let mut v: Vec<WeaponType> = Vec::new();
        v.push(WeaponType::MachineGun);
        v.push(WeaponType::Shotgun);
        v.push(WeaponType::RocketLauncher);
        WeaponInventory { current_weapon: WeaponType::MachineGun, unlocked_weapons: v }
    }

    /// Whether `weapon` is unlocked.
    pub fn is_unlocked(&self, weapon: WeaponType) -> (r: bool)
        ensures
            r == self.unlocked_weapons@.contains(weapon),
    {
        let mut i: usize = 0;
        while i < self.unlocked_weapons.len()
            invariant
                i <= self.unlocked_weapons@.len(),
                forall|j: int| 0 <= j < i ==> self.unlocked_weapons@[j] != weapon,
            decreases self.unlocked_weapons@.len() - i,
        {
            if self.unlocked_weapons[i] == weapon {
                return true;
            }
            i = i + 1;
        }
        false
    }

    /// Takes `weapon` in hand if it is unlocked; otherwise nothing changes.
    pub fn switch_to(&mut self, weapon: WeaponType)
        ensures
            final(self).unlocked_weapons@ == old(self).unlocked_weapons@,
            final(self).current_weapon == (if old(self).unlocked_weapons@.contains(weapon) {
                weapon
            } else {
                old(self).current_weapon
            }),
    {
        if self.is_unlocked(weapon) {
            self.current_weapon = weapon;
        }
    }

    fn current_index(&self) -> (r: usize)
        requires
            self.wf(),
        ensures
            r as int == position_or_first(self.unlocked_weapons@, self.current_weapon),
            r < self.unlocked_weapons@.len(),
    {
        let ghost s = self.unlocked_weapons@;
        let mut i: usize = 0;
        while i < self.unlocked_weapons.len()
            invariant
                s == self.unlocked_weapons@,
                i <= s.len(),
                forall|j: int| 0 <= j < i ==> s[j] != self.current_weapon,
            decreases s.len() - i,
        {
            if self.unlocked_weapons[i] == self.current_weapon {
                proof {
                    let w = self.current_weapon;
                    assert(exists|k: int| 0 <= k < s.len() && s[k] == w);
                    let c = position_or_first(s, w);
                    assert(0 <= c < s.len() && s[c] == w && forall|j: int| 0 <= j < c ==> s[j] != w);
                    if c < i {
                        assert(s[c] != w);
                    } else if c > i {
                        assert(s[i as int] != w);
                    }
                }
                return i;
            }
            i = i + 1;
        }
        0
    }

    /// Takes the next unlocked weapon in hand, wrapping after the last.
    pub fn next_weapon(&mut self)
        requires
            old(self).wf(),
        ensures
            final(self).wf(),
            final(self).unlocked_weapons@ == old(self).unlocked_weapons@,
            final(self).current_weapon == old(self).unlocked_weapons@[
                (position_or_first(old(self).unlocked_weapons@, old(self).current_weapon) + 1)
                    % old(self).unlocked_weapons@.len() as int],
    {
        let i = self.current_index();
        let len = self.unlocked_weapons.len();
        assert(i < len);
        let n = (i + 1) % len;
        self.current_weapon = self.unlocked_weapons[n];
    }

    /// Takes the previous unlocked weapon in hand, wrapping before the first.
    pub fn previous_weapon(&mut self)
        requires
            old(self).wf(),
        ensures
            final(self).wf(),
            final(self).unlocked_weapons@ == old(self).unlocked_weapons@,
            final(self).current_weapon == old(self).unlocked_weapons@[
                if position_or_first(old(self).unlocked_weapons@, old(self).current_weapon) == 0 {
                    old(self).unlocked_weapons@.len() - 1
                } else {
                    position_or_first(old(self).unlocked_weapons@, old(self).current_weapon) - 1
                }],
    {
        let i = self.current_index();
        let p = if i == 0 {
            self.unlocked_weapons.len() - 1
        } else {
            i - 1
        };
        self.current_weapon = self.unlocked_weapons[p];
    }

    /// The figures of the weapon in hand.
    pub fn get_current_stats(&self) -> (st: WeaponStats)
        ensures
            st.weapon_type == self.current_weapon,
            st.name@ == self.current_weapon.name_view(),
            st.fire_rate == fire_rate_of(self.current_weapon),
            st.damage == damage_of(self.current_weapon),
            st.pellet_count == pellet_count_of(self.current_weapon),
    {
        let w = self.current_weapon;
        WeaponStats {
            weapon_type: w,
            name: String::from_str(w.name()),
            fire_rate: w.fire_rate(),
            damage: w.damage(),
            pellet_count: w.pellet_count(),
        }
    }
}

impl WeaponType {
    /// The name shown to the player, as characters.
    pub open spec fn name_view(&self) -> Seq<char> {
        match *self {
            WeaponType::MachineGun => "Machine Gun"@,
            WeaponType::Shotgun => "Shotgun"@,
            WeaponType::RocketLauncher => "Rocket Launcher"@,
        }
    }
}

/// The figures of one weapon, as shown to the player.
#[derive(Clone, Debug)]
pub struct WeaponStats {
    pub weapon_type: WeaponType,
    pub name: String,
    pub fire_rate: u64,
    pub damage: u64,
    pub pellet_count: u32,
}

/// Raised when the weapon in hand changes.
#[derive(Clone, Copy, Debug, PartialEq, Eq, Structural)]
pub struct WeaponSwitchedEvent {
    pub new_weapon: WeaponType,
}

/// A shot at `now` is accepted after a last accepted shot at `last` when at
/// least `rate` milliseconds lie between them.
pub open spec fn shot_allowed(last: int, now: int, rate: int) -> bool {
    now - last >= rate
}

/// The time of the last accepted shot, which rate-limits firing.
#[derive(Clone, Copy, Debug, PartialEq, Eq, Structural)]
pub struct WeaponState {
    pub last_shot_ms: u64,
}

impl WeaponState {
    /// No shot yet: the clock's start counts as the last shot.
    pub fn new() -> (s: WeaponState)
        ensures
            s.last_shot_ms == 0,
    {
        WeaponState { last_shot_ms: 0 }
    }

    /// Asks to fire at `now_ms` with a weapon of `fire_rate_ms`. Accepted
    /// exactly when the rate allows it, and then remembered as the last shot;
    /// a refused attempt changes nothing.
    pub fn try_fire(&mut self, now_ms: u64, fire_rate_ms: u64) -> (accepted: bool)
        ensures
            accepted == shot_allowed(old(self).last_shot_ms as int, now_ms as int, fire_rate_ms as int),
            accepted ==> final(self).last_shot_ms == now_ms,
            !accepted ==> *final(self) == *old(self),
    {
        if now_ms >= self.last_shot_ms && now_ms - self.last_shot_ms >= fire_rate_ms {
            self.last_shot_ms = now_ms;
            true
        } else {
            false
        }
    }
}

} // verus!
