use dino_hunt::damage::{explosion_damage, part_damage, BodyPart};
use dino_hunt::geom::{Direction, Point};
use dino_hunt::weapon::{launch, spread_direction, Flight, BULLET_LIFETIME_MS};
use dino_hunt::weapon_system::{WeaponInventory, WeaponState, WeaponType};

#[test]
fn weapon_table() {
    let mg = WeaponType::MachineGun;
    let sg = WeaponType::Shotgun;
    let rl = WeaponType::RocketLauncher;
    assert_eq!(mg.name(), "Machine Gun");
    assert_eq!(sg.name(), "Shotgun");
    assert_eq!(rl.name(), "Rocket Launcher");
    assert_eq!((mg.fire_rate(), sg.fire_rate(), rl.fire_rate()), (100, 800, 2000));
    assert_eq!((mg.damage(), sg.damage(), rl.damage()), (10_000, 15_000, 100_000));
    assert_eq!((mg.pellet_count(), sg.pellet_count(), rl.pellet_count()), (1, 8, 1));
    assert_eq!((mg.spread(), sg.spread(), rl.spread()), (0, 150, 0));
    assert_eq!((mg.bullet_speed(), sg.bullet_speed(), rl.bullet_speed()), (100_000, 80_000, 60_000));
    assert_eq!((mg.bullet_radius(), sg.bullet_radius(), rl.bullet_radius()), (200, 150, 300));
    assert!(!mg.explosive() && !sg.explosive() && rl.explosive());
    assert_eq!((mg.explosion_radius(), sg.explosion_radius(), rl.explosion_radius()), (0, 0, 8000));
    assert_eq!((mg.rocket_delay(), sg.rocket_delay(), rl.rocket_delay()), (0, 0, 1000));
}

#[test]
fn inventory_cycles_and_wraps() {
    let mut inv = WeaponInventory::new();
    assert_eq!(inv.current_weapon, WeaponType::MachineGun);
    inv.next_weapon();
    assert_eq!(inv.current_weapon, WeaponType::Shotgun);
    inv.next_weapon();
    assert_eq!(inv.current_weapon, WeaponType::RocketLauncher);
    inv.next_weapon();
    assert_eq!(inv.current_weapon, WeaponType::MachineGun);
    inv.previous_weapon();
    assert_eq!(inv.current_weapon, WeaponType::RocketLauncher);
    inv.previous_weapon();
    assert_eq!(inv.current_weapon, WeaponType::Shotgun);
}

#[test]
fn switching_needs_an_unlocked_weapon() {
    let mut inv = WeaponInventory { current_weapon: WeaponType::MachineGun, unlocked_weapons: vec![WeaponType::MachineGun, WeaponType::Shotgun] };
    inv.switch_to(WeaponType::RocketLauncher);
    assert_eq!(inv.current_weapon, WeaponType::MachineGun);
    inv.switch_to(WeaponType::Shotgun);
    assert_eq!(inv.current_weapon, WeaponType::Shotgun);
    inv.next_weapon();
    assert_eq!(inv.current_weapon, WeaponType::MachineGun);
}

#[test]
fn cycling_from_a_locked_weapon_starts_at_the_first() {
    let mut inv = WeaponInventory { current_weapon: WeaponType::RocketLauncher, unlocked_weapons: vec![WeaponType::MachineGun, WeaponType::Shotgun] };
    inv.next_weapon();
    assert_eq!(inv.current_weapon, WeaponType::Shotgun);
    let mut inv2 = WeaponInventory { current_weapon: WeaponType::RocketLauncher, unlocked_weapons: vec![WeaponType::MachineGun, WeaponType::Shotgun] };
    inv2.previous_weapon();
    assert_eq!(inv2.current_weapon, WeaponType::Shotgun);
}

#[test]
fn current_stats() {
    let mut inv = WeaponInventory::new();
    inv.switch_to(WeaponType::Shotgun);
    let st = inv.get_current_stats();
    assert_eq!(st.weapon_type, WeaponType::Shotgun);
    assert_eq!(st.name, "Shotgun");
    assert_eq!(st.fire_rate, 800);
    assert_eq!(st.damage, 15_000);
    assert_eq!(st.pellet_count, 8);
}

#[test]
fn fire_rate_rejects_early_shot() {
    let mut w = WeaponState::new();
    assert!(w.try_fire(1000, 100));
    assert!(!w.try_fire(1050, 100));
    assert_eq!(w.last_shot_ms, 1000);
}

#[test]
fn fire_rate_accepts_later_shot() {
    let mut w = WeaponState::new();
    assert!(w.try_fire(1000, 100));
    assert!(w.try_fire(1110, 100));
    assert_eq!(w.last_shot_ms, 1110);
}

#[test]
fn fire_rate_boundary_and_start() {
    let mut w = WeaponState::new();
    assert!(!w.try_fire(50, 100));
    assert!(w.try_fire(100, 100));
    assert!(w.try_fire(200, 100));
    assert!(!w.try_fire(150, 100));
}

#[test]
fn part_damage_multipliers() {
    assert_eq!(part_damage(15_000, BodyPart::Head), 30_000);
    assert_eq!(part_damage(15_000, BodyPart::Body), 15_000);
    assert_eq!(part_damage(15_000, BodyPart::Legs), 7_500);
    assert_eq!(part_damage(1, BodyPart::Legs), 0);
}

#[test]
fn part_damage_ordering() {
    for base in [2u64, 10, 10_000, 100_000, 999_998] {
        let h = part_damage(base, BodyPart::Head);
        let b = part_damage(base, BodyPart::Body);
        let l = part_damage(base, BodyPart::Legs);
        assert!(h > b && b > l);
        assert_eq!(h, 2 * b);
        assert_eq!(2 * l, b);
    }
}

#[test]
fn explosion_at_half_radius() {
    assert_eq!(explosion_damage(100_000, 4000, 8000), 50_000);
}

#[test]
fn explosion_falloff_ends() {
    assert_eq!(explosion_damage(100_000, 0, 8000), 100_000);
    assert_eq!(explosion_damage(100_000, 8000, 8000), 0);
    assert_eq!(explosion_damage(100_000, 9000, 8000), 0);
    assert_eq!(explosion_damage(100_000, 2000, 8000), 75_000);
}

#[test]
fn explosion_falloff_never_grows() {
    let mut last = explosion_damage(100_000, 0, 8000);
    for d in (0..=9000u64).step_by(250) {
        let v = explosion_damage(100_000, d, 8000);
        assert!(v <= last);
        last = v;
    }
}

#[test]
fn launched_bullet_moves_and_expires() {
    let aim = Direction { x: 0, y: 0, z: 1000 };
    let mut p = launch(WeaponType::MachineGun, Point::new(0, 0, 0), aim);
    assert_eq!((p.velocity.x, p.velocity.y, p.velocity.z), (0, 0, 100_000));
    assert!(p.rocket.is_none());
    assert_eq!(p.update(100), Flight::Flying);
    assert_eq!(p.position, Point::new(0, 0, 10_000));
    assert_eq!(p.update(BULLET_LIFETIME_MS - 100), Flight::Expired);
    assert_eq!(p.position, Point::new(0, 0, 10_000));
}

#[test]
fn rocket_explodes_on_its_fuse() {
    let aim = Direction { x: 1000, y: 0, z: 0 };
    let mut p = launch(WeaponType::RocketLauncher, Point::new(0, 1000, 0), aim);
    assert_eq!(p.velocity.x, 60_000);
    assert_eq!(p.update(500), Flight::Flying);
    match p.update(500) {
        Flight::Exploded(e) => {
            assert_eq!(e.position, Point::new(60_000, 1000, 0));
            assert_eq!(e.damage, 100_000);
            assert_eq!(e.radius, 8000);
        }
        other => panic!("expected a blast, got {:?}", other),
    }
}

#[test]
fn shotgun_fires_a_fan_of_pellets() {
    let mut w = WeaponState::new();
    let aim = Direction { x: 0, y: 0, z: 1000 };
    let turret = Point::new(0, 1900, 0);
    let shots = w.fire(5000, WeaponType::Shotgun, &turret, aim);
    assert_eq!(shots.len(), 8);
    for s in &shots {
        assert_eq!(s.position, Point::new(0, 1900, 1000));
        assert_eq!(s.bullet.damage, 15_000);
        assert!(s.velocity.z > 75_000);
    }
    assert!(shots[0].velocity.x < 0);
    assert!(shots[7].velocity.x > 0);
    for k in 1..8 {
        assert!(shots[k].velocity.x > shots[k - 1].velocity.x);
    }
    let again = w.fire(5500, WeaponType::Shotgun, &turret, aim);
    assert!(again.is_empty());
}

#[test]
fn spread_direction_fans_evenly() {
    let aim = Direction { x: 0, y: 0, z: 1000 };
    let first = spread_direction(aim, 0, 8, 150, 0);
    let middle = spread_direction(aim, 4, 8, 150, 0);
    assert!(first.x < -70 && first.x > -80);
    assert_eq!(middle.x, 0);
    assert_eq!(middle.z, 1000);
    let lifted = spread_direction(aim, 4, 8, 150, 30);
    assert_eq!(lifted.y, -30);
    assert_eq!(lifted.z, 1000);
}

#[test]
fn machine_gun_fires_straight() {
    let mut w = WeaponState::new();
    let aim = Direction { x: 600, y: 0, z: 800 };
    let shots = w.fire(1000, WeaponType::MachineGun, &Point::new(0, 0, 0), aim);
    assert_eq!(shots.len(), 1);
    assert_eq!((shots[0].velocity.x, shots[0].velocity.z), (60_000, 80_000));
}
