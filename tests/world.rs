use dino_hunt::dino::{AIState, DinoSpawnConfig, DinoSpecies, Dinosaur};
use dino_hunt::dino::roll_spawn;
use dino_hunt::geom::{Direction, Point};
use dino_hunt::weapon::choose_aim;
use dino_hunt::input::{handle_weapon_switching, PlayerInput, TargetLock};
use dino_hunt::sim::{TickInput, World};
use dino_hunt::weapon_system::{WeaponInventory, WeaponType};

fn input(delta_ms: u64, shooting: bool) -> TickInput {
    TickInput {
        delta_ms,
        shooting,
        lock_fire: false,
        locked_target: None,
        turret: Point::new(0, 1900, 0),
        turret_forward: Direction { x: 0, y: 0, z: 1000 },
        vehicle: Point::new(0, 1000, 0),
    }
}

#[test]
fn machine_gun_kills_a_raptor() {
    let mut w = World::new(60_000);
    let id = w.add_dino(DinoSpecies::Velociraptor, Point::new(0, 0, 12_000));
    w.dinos[0].ai.state = AIState::Idle;
    let mut kills = 0;
    let mut t = 0;
    while t < 3000 {
        let r = w.tick(&input(50, true));
        kills += r.kills;
        t += 50;
    }
    assert_eq!(kills, 1);
    assert_eq!(w.ledger.combo.max_combo, 1);
    assert_eq!(w.ledger.coins.total_coins, 15);
    assert!(w.ledger.score.score > 0);
    assert!(w.dinos.iter().all(|d| d.id != id || d.ai.state == AIState::Dead));
}

#[test]
fn first_tick_fire_respects_rate_from_the_clock_start() {
    let mut w = World::new(60_000);
    let r = w.tick(&input(50, true));
    assert_eq!(r.shots, 0);
    let r = w.tick(&input(50, true));
    assert_eq!(r.shots, 1);
    let r = w.tick(&input(50, true));
    assert_eq!(r.shots, 0);
    assert_eq!(w.clock_ms, 150);
}

#[test]
fn rocket_blast_hurts_everyone_near() {
    let mut w = World::new(60_000);
    w.weapons.switch_to(WeaponType::RocketLauncher);
    w.add_dino(DinoSpecies::Brachiosaurus, Point::new(0, 0, 200_000));
    w.add_dino(DinoSpecies::Brachiosaurus, Point::new(1000, 0, 200_000));
    for d in w.dinos.iter_mut() {
        d.ai.state = AIState::Idle;
    }
    let mut fire = input(2000, true);
    let r = w.tick(&fire);
    assert_eq!(r.shots, 1);
    let mut blasts = r.blasts.len();
    fire.shooting = false;
    fire.delta_ms = 100;
    for _ in 0..20 {
        let r = w.tick(&fire);
        blasts += r.blasts.len();
    }
    assert_eq!(blasts, 1);
    assert!(w.projectiles.is_empty());
}

#[test]
fn dead_are_removed_after_their_fall() {
    let mut w = World::new(60_000);
    w.add_dino(DinoSpecies::Triceratops, Point::new(100_000, 0, 100_000));
    w.dinos[0].take_hit(1_000_000);
    let r = w.tick(&input(2000, false));
    assert_eq!(r.removed, 0);
    let r = w.tick(&input(1000, false));
    assert_eq!(r.removed, 1);
    assert!(w.dinos.is_empty());
}

#[test]
fn raptor_bites_the_vehicle() {
    let mut w = World::new(60_000);
    w.add_dino(DinoSpecies::Velociraptor, Point::new(0, 0, 1500));
    w.dinos[0].ai.attack_cooldown.elapsed_ms = 2000;
    let r = w.tick(&input(50, false));
    assert_eq!(r.attacks.len(), 1);
    assert_eq!(r.attacks[0].damage, 10_000);
    assert_eq!(w.vehicle_health.current, 90_000);
    assert_eq!(w.dinos[0].ai.state, AIState::Flee);
}

#[test]
fn herd_spawns_within_config() {
    let mut w = World::new(60_000);
    let config = DinoSpawnConfig::new();
    let added = w.spawn_herd(&config);
    assert!(added <= 15);
    assert_eq!(w.dinos.len() as u32, added);
    for (k, d) in w.dinos.iter().enumerate() {
        assert_eq!(d.id, k as u64);
        assert!(d.species != DinoSpecies::TRex || k == 0);
    }
}

#[test]
fn weapon_keys_and_wheel() {
    let mut inv = WeaponInventory::new();
    let mut i = PlayerInput::idle();
    assert!(handle_weapon_switching(&i, &mut inv).is_none());
    i.weapon_switch_3 = true;
    let ev = handle_weapon_switching(&i, &mut inv).unwrap();
    assert_eq!(ev.new_weapon, WeaponType::RocketLauncher);
    assert_eq!(inv.current_weapon, WeaponType::RocketLauncher);
    i.weapon_switch_3 = false;
    i.weapon_scroll = 1;
    let ev = handle_weapon_switching(&i, &mut inv).unwrap();
    assert_eq!(ev.new_weapon, WeaponType::MachineGun);
    i.weapon_scroll = -3;
    let ev = handle_weapon_switching(&i, &mut inv).unwrap();
    assert_eq!(ev.new_weapon, WeaponType::RocketLauncher);
}

#[test]
fn lock_cycles_through_creatures_in_sight() {
    let ds = vec![
        Dinosaur::spawn(10, DinoSpecies::Triceratops, Point::new(0, 0, 50_000)),
        Dinosaur::spawn(11, DinoSpecies::Triceratops, Point::new(0, 0, 20_000)),
        Dinosaur::spawn(12, DinoSpecies::Triceratops, Point::new(0, 0, -20_000)),
        Dinosaur::spawn(13, DinoSpecies::Triceratops, Point::new(0, 0, 300_000)),
    ];
    let cam = Point::new(0, 0, 0);
    let fwd = Direction { x: 0, y: 0, z: 1000 };
    let mut lock = TargetLock::none();
    lock.cycle(&ds, &cam, fwd);
    assert_eq!(lock.locked_entity, Some(11));
    assert_eq!(lock.lock_position, Some(Point::new(0, 0, 20_000)));
    lock.cycle(&ds, &cam, fwd);
    assert_eq!(lock.locked_entity, Some(10));
    lock.cycle(&ds, &cam, fwd);
    assert_eq!(lock.locked_entity, Some(11));
    let back = Direction { x: 0, y: 0, z: -1000 };
    lock.cycle(&ds[3..].to_vec(), &cam, back);
    assert_eq!(lock.locked_entity, None);
    assert_eq!(lock.lock_position, None);
}

#[test]
fn firing_at_the_lock_aims_at_the_target() {
    let mut w = World::new(60_000);
    let id = w.add_dino(DinoSpecies::Stegosaurus, Point::new(20_000, 1900, 0));
    w.dinos[0].ai.state = AIState::Idle;
    let mut i = input(100, false);
    i.lock_fire = true;
    i.locked_target = Some(id);
    let r = w.tick(&i);
    assert_eq!(r.shots, 1);
    assert!(w.projectiles[0].velocity.x > 99_000);
}

#[test]
fn whole_herd_comes_when_no_distance_is_asked() {
    let mut w = World::new(60_000);
    let first = w.add_dino(DinoSpecies::TRex, Point::new(7000, 0, 7000));
    let config = DinoSpawnConfig { count: 12, spawn_radius: 50_000, min_distance_from_player: 0 };
    assert_eq!(w.spawn_herd(&config), 12);
    assert_eq!(w.dinos.len(), 13);
    assert_eq!(w.dinos[0].id, first);
    assert_eq!(w.dinos[0].position, Point::new(7000, 0, 7000));
    for d in &w.dinos[1..] {
        assert_eq!(d.health.current, d.health.max);
        assert_eq!(d.ai.state, AIState::Roam);
        assert_eq!(d.position.y, 0);
        assert!(d.position.x >= -50_000 && d.position.x < 50_000);
        assert!(d.position.z >= -50_000 && d.position.z < 50_000);
    }
}

#[test]
fn spawn_draw_never_refused_without_a_distance() {
    let config = DinoSpawnConfig { count: 5, spawn_radius: 1000, min_distance_from_player: 0 };
    for i in 0..100 {
        assert!(roll_spawn(&config, i).is_some());
    }
}

#[test]
fn aim_reaches_close_targets() {
    let fwd = Direction { x: 0, y: 0, z: 1000 };
    let turret = Point::new(0, 0, 0);
    assert_eq!(choose_aim(fwd, &turret, Some(Point::new(300, 0, 0)), true), Direction { x: 1000, y: 0, z: 0 });
    assert_eq!(choose_aim(fwd, &turret, Some(Point::new(0, -1, 0)), true), Direction { x: 0, y: -1000, z: 0 });
    assert_eq!(choose_aim(fwd, &turret, Some(Point::new(3, 0, 4)), true), Direction { x: 600, y: 0, z: 800 });
    assert_eq!(choose_aim(fwd, &turret, Some(turret), true), fwd);
    assert_eq!(choose_aim(fwd, &turret, Some(Point::new(30_000, 0, 0)), true), Direction { x: 1000, y: 0, z: 0 });
    assert_eq!(choose_aim(fwd, &turret, Some(Point::new(30_000, 0, 0)), false), fwd);
}

#[test]
fn firing_at_a_lock_very_close_to_the_turret() {
    let mut w = World::new(60_000);
    let id = w.add_dino(DinoSpecies::Velociraptor, Point::new(300, 1900, 0));
    w.dinos[0].ai.state = AIState::Idle;
    let mut i = input(100, false);
    i.lock_fire = true;
    i.locked_target = Some(id);
    let r = w.tick(&i);
    assert_eq!(r.shots, 1);
    let v = w.projectiles[0].velocity;
    assert_eq!((v.x, v.y, v.z), (100_000, 0, 0));
}
