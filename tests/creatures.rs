use dino_hunt::ai::{roll_wander, THREAT_RADIUS};
use dino_hunt::collision::{explosion_hits, find_strike};
use dino_hunt::damage::BodyPart;
use dino_hunt::dino::{
    choose_species, roll_spawn, AIState, DamageReaction, DinoSpawnConfig, DinoSpecies, Dinosaur, HitOutcome,
};
use dino_hunt::geom::{isqrt, unit_direction, Heading, Point};
use dino_hunt::scoring::{handle_bullet_hit, Ledger};
use dino_hunt::vehicle::VehicleHealth;
use dino_hunt::weapon::{BulletHitEvent, RocketExplosionEvent};

fn raptor_at(id: u64, x: i64, z: i64) -> Dinosaur {
    Dinosaur::spawn(id, DinoSpecies::Velociraptor, Point::new(x, 0, z))
}

#[test]
fn integer_square_roots() {
    assert_eq!(isqrt(0), 0);
    assert_eq!(isqrt(1), 1);
    assert_eq!(isqrt(15), 3);
    assert_eq!(isqrt(16), 4);
    assert_eq!(isqrt(1_000_000), 1000);
    assert_eq!(isqrt(12_000_000_000_000_000_000_000_000), 3_464_101_615_137);
}

#[test]
fn unit_directions() {
    assert_eq!(unit_direction(0, 0), Heading { x: 0, z: 0 });
    assert_eq!(unit_direction(3000, 4000), Heading { x: 600, z: 800 });
    assert_eq!(unit_direction(-25_000, 0), Heading { x: -1000, z: 0 });
}

#[test]
fn spawned_species_figures() {
    let d = Dinosaur::spawn(7, DinoSpecies::TRex, Point::new(5000, 0, -3000));
    assert_eq!(d.id, 7);
    assert_eq!(d.health.current, 500_000);
    assert_eq!(d.health.max, 500_000);
    assert_eq!(d.ai.state, AIState::Roam);
    assert_eq!(d.ai.move_speed, 10_000);
    assert_eq!(d.ai.attack_range, 20_000);
    assert_eq!(d.hit_boxes.len(), 6);
    assert_eq!(d.hit_boxes[0].part, BodyPart::Body);
    assert_eq!(d.hit_boxes[0].position, Point::new(5000, 1000, -3000));
    assert_eq!(d.hit_boxes[1].part, BodyPart::Head);
    assert_eq!(d.hit_boxes[1].position, Point::new(5000, 1500, -3000 + 1575));
    let t = Dinosaur::spawn(1, DinoSpecies::Triceratops, Point::new(0, 0, 0));
    assert_eq!(t.ai.attack_range, 0);
    assert_eq!(t.species.base_score(), 200);
    assert_eq!(t.species.coin_reward(), 20);
}

#[test]
fn wound_then_kill() {
    let mut d = raptor_at(1, 0, 0);
    assert_eq!(d.take_hit(20_000), HitOutcome::Wounded);
    assert_eq!(d.health.current, 40_000);
    assert_eq!(d.reaction, Some(DamageReaction::new()));
    assert_eq!(d.take_hit(40_000), HitOutcome::Killed);
    assert_eq!(d.ai.state, AIState::Dead);
    assert!(d.reaction.is_none());
    assert_eq!(d.take_hit(10_000), HitOutcome::Ignored);
    assert_eq!(d.health.current, 0);
}

#[test]
fn the_dead_fall_then_go() {
    let mut d = raptor_at(1, 0, 0);
    d.take_hit(100_000);
    assert!(!d.update_death(1500));
    let (angle, _) = d.death_pose();
    assert_eq!(angle, 785);
    assert!(!d.update_death(1499));
    assert!(d.update_death(1));
    let mut alive = raptor_at(2, 0, 0);
    assert!(!alive.update_death(10_000));
}

#[test]
fn threat_then_calm() {
    let vehicle = Point::new(0, 0, 0);
    let mut d = Dinosaur::spawn(1, DinoSpecies::Triceratops, Point::new(25_000, 0, 0));
    d.think(&vehicle, 16, Heading { x: 1000, z: 0 }, 30_000);
    assert_eq!(d.ai.state, AIState::Flee);
    assert_eq!(d.ai.flee_direction, Heading { x: 1000, z: 0 });
    assert!(d.ai.wander_target.is_none());
    d.position = Point::new(40_000, 0, 0);
    d.think(&vehicle, 16, Heading { x: 1000, z: 0 }, 30_000);
    assert_eq!(d.ai.state, AIState::Flee);
    assert_eq!(d.ai.flee_direction, Heading { x: 1000, z: 0 });
    d.position = Point::new(65_000, 0, 0);
    d.think(&vehicle, 16, Heading { x: 0, z: 1000 }, 30_000);
    assert_eq!(d.ai.state, AIState::Roam);
    assert_eq!(d.ai.wander_target, Some(Point::new(65_000, 0, 30_000)));
}

#[test]
fn flight_direction_is_frozen() {
    let vehicle = Point::new(0, 0, 0);
    let mut d = Dinosaur::spawn(1, DinoSpecies::Stegosaurus, Point::new(0, 0, -20_000));
    d.think(&vehicle, 16, Heading { x: 1000, z: 0 }, 30_000);
    assert_eq!(d.ai.flee_direction, Heading { x: 0, z: -1000 });
    d.advance(&vehicle, 1000);
    assert_eq!(d.position, Point::new(0, 0, -26_000));
    d.think(&Point::new(-50_000, 0, -26_000), 16, Heading { x: 1000, z: 0 }, 30_000);
    assert_eq!(d.ai.flee_direction, Heading { x: 0, z: -1000 });
}

#[test]
fn far_creature_keeps_roaming() {
    let vehicle = Point::new(0, 0, 0);
    let mut d = Dinosaur::spawn(1, DinoSpecies::Brachiosaurus, Point::new(THREAT_RADIUS as i64 + 1000, 0, 0));
    d.think(&vehicle, 16, Heading { x: -1000, z: 0 }, 20_000);
    assert_eq!(d.ai.state, AIState::Roam);
    assert_eq!(d.ai.wander_target, Some(Point::new(11_000, 0, 0)));
    d.think(&vehicle, 16, Heading { x: 0, z: 1000 }, 20_000);
    assert_eq!(d.ai.wander_target, Some(Point::new(11_000, 0, 0)));
}

#[test]
fn wound_pauses_then_boosted_flight() {
    let vehicle = Point::new(0, 0, 0);
    let mut d = Dinosaur::spawn(1, DinoSpecies::Triceratops, Point::new(100_000, 0, 0));
    d.take_hit(10_000);
    d.think(&vehicle, 200, Heading { x: 1000, z: 0 }, 30_000);
    assert_eq!(d.ai.state, AIState::Roam);
    assert!(d.reaction.is_some());
    d.think(&vehicle, 100, Heading { x: 1000, z: 0 }, 30_000);
    assert!(d.reaction.is_none());
    assert!(d.boosted || d.ai.state == AIState::Roam);
    let mut e = Dinosaur::spawn(2, DinoSpecies::Triceratops, Point::new(40_000, 0, 0));
    e.take_hit(10_000);
    e.think(&vehicle, 300, Heading { x: 1000, z: 0 }, 30_000);
    assert_eq!(e.ai.state, AIState::Flee);
    assert!(e.boosted);
    assert_eq!(e.ai.flee_direction, Heading { x: 1000, z: 0 });
    e.advance(&vehicle, 1000);
    assert_eq!(e.position, Point::new(52_000, 0, 0));
}

#[test]
fn attack_strikes_the_vehicle_then_flees() {
    let vehicle = Point::new(0, 0, 0);
    let mut d = raptor_at(1, 2000, 0);
    d.think(&vehicle, 2000, Heading { x: 1000, z: 0 }, 30_000);
    assert_eq!(d.ai.state, AIState::Attack);
    let mut health = VehicleHealth::new();
    let ev = d.resolve_attack(&vehicle, &mut health);
    assert_eq!(ev.map(|e| e.damage), Some(10_000));
    assert_eq!(health.current, 90_000);
    assert_eq!(d.ai.state, AIState::Flee);
    assert_eq!(d.ai.attack_cooldown.elapsed_ms, 0);
}

#[test]
fn attacker_gives_up_when_far() {
    let vehicle = Point::new(0, 0, 0);
    let mut d = raptor_at(1, 15_000, 0);
    d.think(&vehicle, 2000, Heading { x: 1000, z: 0 }, 30_000);
    assert_eq!(d.ai.state, AIState::Attack);
    d.position = Point::new(31_000, 0, 0);
    let mut health = VehicleHealth::new();
    assert!(d.resolve_attack(&vehicle, &mut health).is_none());
    assert_eq!(d.ai.state, AIState::Roam);
    assert_eq!(health.current, 100_000);
}

#[test]
fn vehicle_health_stops_at_zero() {
    let mut h = VehicleHealth::new();
    h.take_damage(99_000);
    assert!(!h.is_destroyed());
    h.take_damage(25_000);
    assert_eq!(h.current, 0);
    assert!(h.is_destroyed());
}

#[test]
fn strike_prefers_hit_boxes() {
    let ds = vec![
        Dinosaur::spawn(1, DinoSpecies::TRex, Point::new(0, 0, 0)),
        Dinosaur::spawn(2, DinoSpecies::Brachiosaurus, Point::new(100_000, 0, 0)),
    ];
    let head = ds[0].hit_boxes[1].position;
    assert_eq!(find_strike(&head, &ds), Some((0, BodyPart::Head)));
    assert_eq!(find_strike(&Point::new(100_000 - 750, 0, 800), &ds), Some((1, BodyPart::Legs)));
    assert_eq!(find_strike(&Point::new(100_000, 2000, 0), &ds), Some((1, BodyPart::Body)));
}

#[test]
fn strike_falls_back_to_body() {
    let ds = vec![raptor_at(1, 0, 0)];
    assert_eq!(find_strike(&Point::new(3500, 0, 0), &ds), Some((0, BodyPart::Body)));
    assert_eq!(find_strike(&Point::new(4500, 0, 0), &ds), None);
}

#[test]
fn the_dead_are_not_struck() {
    let mut ds = vec![raptor_at(1, 0, 0)];
    ds[0].take_hit(1_000_000);
    assert_eq!(find_strike(&Point::new(0, 300, 0), &ds), None);
}

#[test]
fn blast_reaches_within_radius() {
    let ds = vec![raptor_at(1, 4000, 0), raptor_at(2, 0, 0), raptor_at(3, 9000, 0)];
    let ev = RocketExplosionEvent { position: Point::new(0, 0, 0), damage: 100_000, radius: 8000 };
    let hits = explosion_hits(&ev, &ds);
    assert_eq!(hits.len(), 2);
    assert_eq!(hits[0], BulletHitEvent { target: 1, damage: 50_000, position: Point::new(0, 0, 0), hit_part: BodyPart::Body });
    assert_eq!(hits[1].target, 2);
    assert_eq!(hits[1].damage, 100_000);
}

#[test]
fn lethal_hit_rewards_once() {
    let mut ds = vec![Dinosaur::spawn(5, DinoSpecies::Triceratops, Point::new(0, 0, 0))];
    let mut ledger = Ledger::new(60_000);
    let ev = BulletHitEvent { target: 5, damage: 200_000, position: Point::new(0, 0, 0), hit_part: BodyPart::Head };
    assert_eq!(handle_bullet_hit(&ev, &mut ds, &mut ledger), HitOutcome::Killed);
    assert_eq!(ledger.combo.current_combo, 1);
    assert_eq!(ledger.score.score, 400);
    assert_eq!(ledger.coins.total_coins, 20);
    assert_eq!(handle_bullet_hit(&ev, &mut ds, &mut ledger), HitOutcome::Ignored);
    assert_eq!(ledger.combo.current_combo, 1);
    assert_eq!(ledger.score.score, 400);
    assert_eq!(ledger.coins.total_coins, 20);
}

#[test]
fn hit_on_missing_target_is_ignored() {
    let mut ds = vec![raptor_at(1, 0, 0)];
    let mut ledger = Ledger::new(60_000);
    let ev = BulletHitEvent { target: 99, damage: 200_000, position: Point::new(0, 0, 0), hit_part: BodyPart::Body };
    assert_eq!(handle_bullet_hit(&ev, &mut ds, &mut ledger), HitOutcome::Ignored);
    assert_eq!(ds[0].health.current, 60_000);
    assert_eq!(ledger.score.score, 0);
}

#[test]
fn coins_ignore_part_and_combo() {
    let mut ds = vec![raptor_at(1, 0, 0), raptor_at(2, 0, 0)];
    let mut ledger = Ledger::new(60_000);
    let a = BulletHitEvent { target: 1, damage: 60_000, position: Point::new(0, 0, 0), hit_part: BodyPart::Legs };
    let b = BulletHitEvent { target: 2, damage: 60_000, position: Point::new(0, 0, 0), hit_part: BodyPart::Head };
    handle_bullet_hit(&a, &mut ds, &mut ledger);
    assert_eq!(ledger.coins.total_coins, 15);
    assert_eq!(ledger.score.score, 75);
    handle_bullet_hit(&b, &mut ds, &mut ledger);
    assert_eq!(ledger.coins.total_coins, 30);
    assert_eq!(ledger.score.score, 75 + 330);
}

#[test]
fn time_attack_counts_kills_while_running() {
    let mut ds = vec![raptor_at(1, 0, 0)];
    let mut ledger = Ledger::new(60_000);
    ledger.time_attack.start();
    let ev = BulletHitEvent { target: 1, damage: 60_000, position: Point::new(0, 0, 0), hit_part: BodyPart::Body };
    handle_bullet_hit(&ev, &mut ds, &mut ledger);
    assert_eq!(ledger.time_attack.kills, 1);
}

#[test]
fn species_choice() {
    assert_eq!(choose_species(0, 2, 1), DinoSpecies::TRex);
    assert_eq!(choose_species(0, 3, 1), DinoSpecies::Velociraptor);
    assert_eq!(choose_species(1, 0, 2), DinoSpecies::Brachiosaurus);
    assert_eq!(choose_species(4, 9, 3), DinoSpecies::Stegosaurus);
    assert_eq!(choose_species(4, 9, 0), DinoSpecies::Triceratops);
    assert_eq!(choose_species(4, 9, 4), DinoSpecies::Triceratops);
}

#[test]
fn spawn_draws_stay_in_the_field() {
    let config = DinoSpawnConfig::new();
    for i in 0..200 {
        if let Some((s, p)) = roll_spawn(&config, i) {
            assert!(p.x >= -150_000 && p.x < 150_000);
            assert!(p.z >= -150_000 && p.z < 150_000);
            assert!(p.x.abs() >= 20_000 || p.z.abs() >= 20_000);
            if i > 0 {
                assert!(s != DinoSpecies::TRex);
            }
        }
    }
}

#[test]
fn wander_draws() {
    let mut seen_left = false;
    let mut seen_right = false;
    for _ in 0..200 {
        let (h, d) = roll_wander();
        assert!((20_000..50_000).contains(&d));
        let len2 = h.x * h.x + h.z * h.z;
        assert!(len2 > 990_000 && len2 <= 1_010_000);
        seen_left |= h.x < -500;
        seen_right |= h.x > 500;
    }
    assert!(seen_left && seen_right);
}

#[test]
fn head_kill_on_fresh_streak_scores_four_hundred() {
    let mut ds = vec![Dinosaur::spawn(3, DinoSpecies::Triceratops, Point::new(0, 0, 0))];
    let mut ledger = Ledger::new(60_000);
    let ev = BulletHitEvent { target: 3, damage: 150_000, position: Point::new(0, 0, 0), hit_part: BodyPart::Head };
    assert_eq!(handle_bullet_hit(&ev, &mut ds, &mut ledger), HitOutcome::Killed);
    assert_eq!(ledger.score.score, 400);
    assert_eq!(ledger.coins.total_coins, 20);
    assert_eq!(ledger.combo.current_combo, 1);
    assert_eq!(ledger.combo.get_score_multiplier(), 11);
}

#[test]
fn body_kill_at_streak_ten_doubles_the_score() {
    let mut ds = vec![raptor_at(4, 0, 0)];
    let mut ledger = Ledger::new(60_000);
    for _ in 0..10 {
        ledger.combo.add_kill();
    }
    assert_eq!(ledger.combo.get_score_multiplier(), 20);
    let ev = BulletHitEvent { target: 4, damage: 60_000, position: Point::new(0, 0, 0), hit_part: BodyPart::Body };
    assert_eq!(handle_bullet_hit(&ev, &mut ds, &mut ledger), HitOutcome::Killed);
    assert_eq!(ledger.score.score, 300);
    assert_eq!(ledger.coins.total_coins, 15);
}

#[test]
fn blast_edge_gives_a_zero_damage_hit() {
    let ds = vec![raptor_at(1, 8000, 0), raptor_at(2, 8001, 0)];
    let ev = RocketExplosionEvent { position: Point::new(0, 0, 0), damage: 100_000, radius: 8000 };
    let hits = explosion_hits(&ev, &ds);
    assert_eq!(hits.len(), 1);
    assert_eq!(hits[0], BulletHitEvent { target: 1, damage: 0, position: Point::new(0, 0, 0), hit_part: BodyPart::Body });
}

#[test]
fn zero_damage_hit_changes_nothing() {
    let mut ds = vec![raptor_at(1, 0, 0)];
    let mut ledger = Ledger::new(60_000);
    let ev = BulletHitEvent { target: 1, damage: 0, position: Point::new(0, 0, 0), hit_part: BodyPart::Body };
    assert_eq!(handle_bullet_hit(&ev, &mut ds, &mut ledger), HitOutcome::Unhurt);
    assert_eq!(ds[0].health.current, 60_000);
    assert!(ds[0].reaction.is_none());
    assert_eq!(ds[0].ai.state, AIState::Roam);
}

#[test]
fn paused_roamer_still_picks_a_target() {
    let vehicle = Point::new(0, 0, 0);
    let mut d = Dinosaur::spawn(1, DinoSpecies::Triceratops, Point::new(100_000, 0, 0));
    d.take_hit(10_000);
    d.think(&vehicle, 100, Heading { x: 0, z: 1000 }, 25_000);
    assert!(d.reaction.is_some());
    assert_eq!(d.ai.state, AIState::Roam);
    assert_eq!(d.ai.wander_target, Some(Point::new(100_000, 0, 25_000)));
}

#[test]
fn wander_targets_lie_in_the_ring() {
    for _ in 0..300 {
        let (h, d) = roll_wander();
        let ox = (h.x * d as i64).div_euclid(1000);
        let oz = (h.z * d as i64).div_euclid(1000);
        let n = ox * ox + oz * oz;
        assert!(n >= 20_000 * 20_000 && n < 50_000 * 50_000);
    }
}
