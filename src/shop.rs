//! The upgrade shop: what each upgrade costs, and buying one with coins.
use vstd::prelude::*;
use crate::dino::CoinSystem;
use crate::vehicle::VehicleHealth;

verus! {

/// Whether the shop is open.
#[derive(Clone, Copy, Debug, PartialEq, Eq, Structural)]
pub struct ShopState {
    pub is_open: bool,
}

impl ShopState {
    /// Opens a closed shop, closes an open one.
    pub fn toggle(&mut self)
        ensures
            final(self).is_open == !old(self).is_open,
    {
        self.is_open = !self.is_open;
    }
}

/// Levels bought of each weapon upgrade.
#[derive(Clone, Copy, Debug, PartialEq, Eq, Structural)]
pub struct WeaponUpgrades {
    pub machinegun_damage_level: u32,
    pub machinegun_fire_rate_level: u32,
    pub shotgun_damage_level: u32,
    pub shotgun_pellet_level: u32,
    pub rocket_damage_level: u32,
    pub rocket_radius_level: u32,
}

/// Levels bought of each vehicle upgrade.
#[derive(Clone, Copy, Debug, PartialEq, Eq, Structural)]
pub struct VehicleUpgrades {
    pub max_health_level: u32,
    pub speed_level: u32,
    pub acceleration_level: u32,
}

impl WeaponUpgrades {
    pub fn new() -> (u: WeaponUpgrades)
        ensures
            u == (WeaponUpgrades {
                machinegun_damage_level: 0,
                machinegun_fire_rate_level: 0,
                shotgun_damage_level: 0,
                shotgun_pellet_level: 0,
                rocket_damage_level: 0,
                rocket_radius_level: 0,
            }),
    {
        WeaponUpgrades {
            machinegun_damage_level: 0,
            machinegun_fire_rate_level: 0,
            shotgun_damage_level: 0,
            shotgun_pellet_level: 0,
            rocket_damage_level: 0,
            rocket_radius_level: 0,
        }
    }
}

impl VehicleUpgrades {
    pub fn new() -> (u: VehicleUpgrades)
        ensures
            u == (VehicleUpgrades { max_health_level: 0, speed_level: 0, acceleration_level: 0 }),
    {
        VehicleUpgrades { max_health_level: 0, speed_level: 0, acceleration_level: 0 }
    }
}

/// The upgrades.
#[derive(Clone, Copy, Debug, PartialEq, Eq, Structural)]
pub enum UpgradeType {
    MachineGunDamage,
    MachineGunFireRate,
    ShotgunDamage,
    ShotgunPellets,
    RocketDamage,
    RocketRadius,
    VehicleMaxHealth,
    VehicleSpeed,
    VehicleAcceleration,
}

/// An upgrade on offer: its kind, its price, the level reached and the
/// highest level.
#[derive(Clone, Copy, Debug, PartialEq, Eq, Structural)]
pub struct UpgradeButton {
    pub upgrade_type: UpgradeType,
    pub cost: u64,
    pub level: u32,
    pub max_level: u32,
}

/// Highest level of every upgrade.
pub const MAX_UPGRADE_LEVEL: u32 = 5;

/// Extra full health, and repair, of one vehicle health level.
pub const HEALTH_PER_LEVEL: u64 = 20_000;

/// The level reached of an upgrade.
pub open spec fn level_of(k: UpgradeType, w: WeaponUpgrades, v: VehicleUpgrades) -> u32 {
    match k {
        UpgradeType::MachineGunDamage => w.machinegun_damage_level,
        UpgradeType::MachineGunFireRate => w.machinegun_fire_rate_level,
        UpgradeType::ShotgunDamage => w.shotgun_damage_level,
        UpgradeType::ShotgunPellets => w.shotgun_pellet_level,
        UpgradeType::RocketDamage => w.rocket_damage_level,
        UpgradeType::RocketRadius => w.rocket_radius_level,
        UpgradeType::VehicleMaxHealth => v.max_health_level,
        UpgradeType::VehicleSpeed => v.speed_level,
        UpgradeType::VehicleAcceleration => v.acceleration_level,
    }
}

/// The price of the next level of the upgrades the shop offers.
pub open spec fn cost_of(k: UpgradeType, level: int) -> int {
    match k {
        UpgradeType::MachineGunDamage => 100 * level + 100,
        UpgradeType::MachineGunFireRate => 120 * level + 150,
        _ => 200 * level + 200,
    }
}

/// The upgrades on offer: machine-gun damage, machine-gun fire rate and
/// vehicle health, each priced by the level it has reached.
pub fn shop_offers(w: &WeaponUpgrades, v: &VehicleUpgrades) -> (offers: Vec<UpgradeButton>)
    ensures
        offers@.len() == 3,
        offers@[0].upgrade_type == UpgradeType::MachineGunDamage,
        offers@[1].upgrade_type == UpgradeType::MachineGunFireRate,
        offers@[2].upgrade_type == UpgradeType::VehicleMaxHealth,
        forall|i: int|
            0 <= i < 3 ==> {
                let b = #[trigger] offers@[i];
                &&& b.level == level_of(b.upgrade_type, *w, *v)
                &&& b.cost == cost_of(b.upgrade_type, b.level as int)
                &&& b.max_level == MAX_UPGRADE_LEVEL
            },
{
    let mut offers: Vec<UpgradeButton> = Vec::new();
    let l0 = w.machinegun_damage_level;
    offers.push(UpgradeButton {
        upgrade_type: UpgradeType::MachineGunDamage,
        cost: l0 as u64 * 100 + 100,
        level: l0,
        max_level: MAX_UPGRADE_LEVEL,
    });
    let l1 = w.machinegun_fire_rate_level;
    offers.push(UpgradeButton {
        upgrade_type: UpgradeType::MachineGunFireRate,
        cost: l1 as u64 * 120 + 150,
        level: l1,
        max_level: MAX_UPGRADE_LEVEL,
    });
    let l2 = v.max_health_level;
    offers.push(UpgradeButton {
        upgrade_type: UpgradeType::VehicleMaxHealth,
        cost: l2 as u64 * 200 + 200,
        level: l2,
        max_level: MAX_UPGRADE_LEVEL,
    });
    offers
}

/// `n + 1`, stopping at the largest `u32`.
pub open spec fn next_level(n: u32) -> u32 {
    if n < u32::MAX {
        (n + 1) as u32
    } else {
        n
    }
}

fn bump(n: &mut u32)
    ensures
        *final(n) == next_level(*old(n)),
{
    if *n < u32::MAX {
        *n = *n + 1;
    }
}

/// Buys one level of the upgrade of `button`. The purchase goes through
/// exactly when the coins cover the price and the button's level is below
/// its highest; then the price is paid and the upgrade's level rises by
/// one. A vehicle health level also adds to the vehicle's full health and
/// repairs it by as much, up to the new full health. A refused purchase
/// changes nothing.
pub fn purchase(
    button: &UpgradeButton,
    coins: &mut CoinSystem,
    w: &mut WeaponUpgrades,
    v: &mut VehicleUpgrades,
    health: &mut VehicleHealth,
) -> (bought: bool)
    requires
        old(health).current <= old(health).max,
    ensures
        bought == (old(coins).total_coins >= button.cost && button.level < button.max_level),
        !bought ==> *final(coins) == *old(coins) && *final(w) == *old(w) && *final(v) == *old(v) && *final(health)
            == *old(health),
        bought ==> final(coins).total_coins == old(coins).total_coins - button.cost,
        bought ==> level_of(button.upgrade_type, *final(w), *final(v)) == next_level(
            level_of(button.upgrade_type, *old(w), *old(v)),
        ),
        bought ==> forall|k: UpgradeType|
            k != button.upgrade_type ==> level_of(k, *final(w), *final(v)) == level_of(k, *old(w), *old(v)),
        bought && button.upgrade_type == UpgradeType::VehicleMaxHealth ==> {
            let max = if old(health).max <= u64::MAX - HEALTH_PER_LEVEL {
                old(health).max + HEALTH_PER_LEVEL
            } else {
                u64::MAX as int
            };
            &&& final(health).max == max
            &&& final(health).current == (if old(health).current + HEALTH_PER_LEVEL <= max {
                old(health).current + HEALTH_PER_LEVEL
            } else {
                max
            })
        },
        bought && button.upgrade_type != UpgradeType::VehicleMaxHealth ==> *final(health) == *old(health),
        final(health).current <= final(health).max,
{
    if !(coins.total_coins >= button.cost && button.level < button.max_level) {
        return false;
    }
    coins.total_coins = coins.total_coins - button.cost;
    match button.upgrade_type {
        UpgradeType::MachineGunDamage => bump(&mut w.machinegun_damage_level),
        UpgradeType::MachineGunFireRate => bump(&mut w.machinegun_fire_rate_level),
        UpgradeType::ShotgunDamage => bump(&mut w.shotgun_damage_level),
        UpgradeType::ShotgunPellets => bump(&mut w.shotgun_pellet_level),
        UpgradeType::RocketDamage => bump(&mut w.rocket_damage_level),
        UpgradeType::RocketRadius => bump(&mut w.rocket_radius_level),
        UpgradeType::VehicleMaxHealth => {
            bump(&mut v.max_health_level);
            health.max = if health.max <= u64::MAX - HEALTH_PER_LEVEL {
                health.max + HEALTH_PER_LEVEL
            } else {
                u64::MAX
            };
            let repaired: u128 = health.current as u128 + HEALTH_PER_LEVEL as u128;
            health.current = if repaired <= health.max as u128 {
                repaired as u64
            } else {
                health.max
            };
        },
        UpgradeType::VehicleSpeed => bump(&mut v.speed_level),
        UpgradeType::VehicleAcceleration => bump(&mut v.acceleration_level),
    }
    true
}

} // verus!
