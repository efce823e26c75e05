use dino_hunt::damage::BodyPart;
use dino_hunt::damage_popup::{damage_type_for, popup_size, spawn_damage_popups, update_damage_popups, DamagePopup, DamageType};
use dino_hunt::weapon::BulletHitEvent;
use dino_hunt::dino::{CoinSystem, DinoSpecies};
use dino_hunt::effects::{ScreenShake, KILL_SHAKE_INTENSITY, KILL_SHAKE_MS};
use dino_hunt::geom::Point;
use dino_hunt::pause::{handle_pause_input, handle_pause_menu_input, GameState, MenuOutcome};
use dino_hunt::shop::{purchase, shop_offers, ShopState, UpgradeType, VehicleUpgrades, WeaponUpgrades};
use dino_hunt::sim::World;
use dino_hunt::vehicle::{VehicleHealth, VehicleVelocity};

#[test]
fn shop_prices_follow_levels() {
    let mut w = WeaponUpgrades::new();
    let v = VehicleUpgrades::new();
    let offers = shop_offers(&w, &v);
    assert_eq!(offers.len(), 3);
    assert_eq!((offers[0].upgrade_type, offers[0].cost), (UpgradeType::MachineGunDamage, 100));
    assert_eq!((offers[1].upgrade_type, offers[1].cost), (UpgradeType::MachineGunFireRate, 150));
    assert_eq!((offers[2].upgrade_type, offers[2].cost), (UpgradeType::VehicleMaxHealth, 200));
    w.machinegun_fire_rate_level = 3;
    let offers = shop_offers(&w, &v);
    assert_eq!(offers[1].cost, 510);
    assert_eq!(offers[1].level, 3);
    assert_eq!(offers[1].max_level, 5);
}

#[test]
fn purchase_needs_coins_and_room() {
    let mut coins = CoinSystem { total_coins: 150 };
    let mut w = WeaponUpgrades::new();
    let mut v = VehicleUpgrades::new();
    let mut h = VehicleHealth::new();
    let offers = shop_offers(&w, &v);
    assert!(purchase(&offers[0], &mut coins, &mut w, &mut v, &mut h));
    assert_eq!(coins.total_coins, 50);
    assert_eq!(w.machinegun_damage_level, 1);
    let offers = shop_offers(&w, &v);
    assert!(!purchase(&offers[0], &mut coins, &mut w, &mut v, &mut h));
    assert_eq!(coins.total_coins, 50);
    assert_eq!(w.machinegun_damage_level, 1);
    let mut rich = CoinSystem { total_coins: 1_000_000 };
    w.machinegun_damage_level = 5;
    let offers = shop_offers(&w, &v);
    assert!(!purchase(&offers[0], &mut rich, &mut w, &mut v, &mut h));
    assert_eq!(rich.total_coins, 1_000_000);
}

#[test]
fn health_upgrade_raises_and_repairs() {
    let mut coins = CoinSystem { total_coins: 1000 };
    let mut w = WeaponUpgrades::new();
    let mut v = VehicleUpgrades::new();
    let mut h = VehicleHealth { current: 50_000, max: 100_000 };
    let offers = shop_offers(&w, &v);
    assert!(purchase(&offers[2], &mut coins, &mut w, &mut v, &mut h));
    assert_eq!(v.max_health_level, 1);
    assert_eq!((h.current, h.max), (70_000, 120_000));
    assert_eq!(coins.total_coins, 800);
    let mut full = VehicleHealth::new();
    let offers = shop_offers(&w, &v);
    assert_eq!(offers[2].cost, 400);
    assert!(purchase(&offers[2], &mut coins, &mut w, &mut v, &mut full));
    assert_eq!((full.current, full.max), (120_000, 120_000));
    assert_eq!(coins.total_coins, 400);
}

#[test]
fn shop_toggles() {
    let mut s = ShopState { is_open: false };
    s.toggle();
    assert!(s.is_open);
    s.toggle();
    assert!(!s.is_open);
}

#[test]
fn pause_and_menu() {
    assert_eq!(handle_pause_input(GameState::Playing, true), GameState::Paused);
    assert_eq!(handle_pause_input(GameState::Playing, false), GameState::Playing);
    assert_eq!(handle_pause_input(GameState::Paused, true), GameState::Paused);
    assert_eq!(
        handle_pause_menu_input(GameState::Paused, true, true, true),
        MenuOutcome { state: GameState::Playing, restart: true, quit: false }
    );
    assert_eq!(
        handle_pause_menu_input(GameState::Paused, false, true, false),
        MenuOutcome { state: GameState::Playing, restart: false, quit: false }
    );
    assert_eq!(
        handle_pause_menu_input(GameState::Paused, false, false, true),
        MenuOutcome { state: GameState::Paused, restart: false, quit: true }
    );
    assert_eq!(
        handle_pause_menu_input(GameState::Playing, true, false, false),
        MenuOutcome { state: GameState::Playing, restart: false, quit: false }
    );
}

#[test]
fn kill_shake_fades() {
    let mut s = ScreenShake::new();
    assert_eq!(s.update(16), 0);
    s.trigger(KILL_SHAKE_INTENSITY, KILL_SHAKE_MS);
    assert_eq!(s.update(50), 200);
    assert_eq!(s.update(50), 100);
    assert_eq!(s.update(50), 0);
    assert_eq!(s.update(50), 0);
    assert_eq!(s.intensity, 0);
}

#[test]
fn popups_by_part() {
    assert_eq!(damage_type_for(BodyPart::Head), DamageType::Critical);
    assert_eq!(damage_type_for(BodyPart::Body), DamageType::Normal);
    assert_eq!(damage_type_for(BodyPart::Legs), DamageType::Weak);
    assert_eq!(popup_size(DamageType::Normal, 0), 150);
    assert_eq!(popup_size(DamageType::Critical, 20_000), 280);
    assert_eq!(popup_size(DamageType::Weak, 500_000), 375);
}

#[test]
fn popup_rises_and_fades() {
    let mut p = DamagePopup::new();
    assert_eq!(p.update(750), Some((3000, 500)));
    assert_eq!(p.update(375), Some((1500, 250)));
    assert_eq!(p.update(375), None);
}

#[test]
fn restart_clears_the_field() {
    let mut w = World::new(60_000);
    w.add_dino(DinoSpecies::Stegosaurus, Point::new(50_000, 0, 50_000));
    w.ledger.score.score = 1234;
    w.ledger.coins.total_coins = 77;
    w.restart();
    assert!(w.dinos.is_empty());
    assert!(w.projectiles.is_empty());
    assert_eq!(w.ledger.score.score, 0);
    assert_eq!(w.ledger.coins.total_coins, 77);
}

#[test]
fn vehicle_speeds_up_coasts_and_reverses() {
    let mut v = VehicleVelocity::new();
    assert_eq!(v.drive(true, false, false, false, 1000), 0);
    assert_eq!(v.current, 15_000);
    v.drive(true, false, false, false, 1000);
    assert_eq!(v.current, 25_000);
    v.drive(false, false, false, false, 1000);
    assert_eq!(v.current, 15_000);
    v.drive(false, false, false, false, 2000);
    assert_eq!(v.current, 0);
    v.drive(false, true, false, false, 1000);
    assert_eq!(v.current, -7_500);
    assert_eq!(v.drive(false, true, true, false, 100), -250);
    assert_eq!(v.drive(true, false, true, false, 100), 250);
    assert_eq!(v.current, -6_000);
}

#[test]
fn vehicle_turns_only_when_moving() {
    let mut v = VehicleVelocity::new();
    assert_eq!(v.drive(false, false, true, false, 100), 0);
    v.drive(true, false, false, false, 1000);
    assert_eq!(v.drive(true, false, true, false, 100), 250);
    assert_eq!(v.drive(true, false, false, true, 100), -250);
    assert_eq!(v.drive(true, false, true, true, 100), 0);
}

#[test]
fn popups_for_hits_rise_then_go() {
    let hits = vec![
        BulletHitEvent { target: 1, damage: 20_000, position: Point::new(0, 0, 0), hit_part: BodyPart::Head },
        BulletHitEvent { target: 2, damage: 7_500, position: Point::new(5000, 500, 0), hit_part: BodyPart::Legs },
    ];
    let mut texts = spawn_damage_popups(&hits);
    assert_eq!(texts.len(), 2);
    assert_eq!((texts[0].kind, texts[0].size, texts[0].position), (DamageType::Critical, 280, Point::new(0, 1000, 0)));
    assert_eq!((texts[1].kind, texts[1].position), (DamageType::Weak, Point::new(5000, 1500, 0)));
    update_damage_popups(&mut texts, 750);
    assert_eq!(texts.len(), 2);
    assert_eq!(texts[0].position, Point::new(0, 4000, 0));
    update_damage_popups(&mut texts, 750);
    assert!(texts.is_empty());
}
