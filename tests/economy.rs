use dino_hunt::combo::{multiplier_for, ComboSystem, COMBO_WINDOW_MS};
use dino_hunt::damage::BodyPart;
use dino_hunt::game_mode::TimeAttackMode;
use dino_hunt::scoring::{kill_score, GameScore};
use dino_hunt::text::append_decimal;

#[test]
fn multiplier_follows_streak_and_caps() {
    assert_eq!(multiplier_for(0), 10);
    assert_eq!(multiplier_for(1), 11);
    assert_eq!(multiplier_for(10), 20);
    assert_eq!(multiplier_for(39), 49);
    assert_eq!(multiplier_for(40), 50);
    assert_eq!(multiplier_for(100), 50);
    assert_eq!(multiplier_for(u32::MAX), 50);
}

#[test]
fn new_combo_is_empty() {
    let c = ComboSystem::new();
    assert_eq!(c.current_combo, 0);
    assert_eq!(c.max_combo, 0);
    assert_eq!(c.get_score_multiplier(), 10);
    assert_eq!(c.combo_timer.duration_ms, COMBO_WINDOW_MS);
}

#[test]
fn kills_grow_streak_and_multiplier() {
    let mut c = ComboSystem::new();
    for _ in 0..10 {
        c.add_kill();
    }
    assert_eq!(c.current_combo, 10);
    assert_eq!(c.max_combo, 10);
    assert_eq!(c.get_score_multiplier(), 20);
    for _ in 0..50 {
        c.add_kill();
    }
    assert_eq!(c.current_combo, 60);
    assert_eq!(c.get_score_multiplier(), 50);
}

#[test]
fn streak_survives_inside_window() {
    let mut c = ComboSystem::new();
    c.add_kill();
    c.add_kill();
    c.update(1999);
    assert_eq!(c.current_combo, 2);
    assert_eq!(c.get_score_multiplier(), 12);
}

#[test]
fn streak_resets_after_window() {
    let mut c = ComboSystem::new();
    for _ in 0..25 {
        c.add_kill();
    }
    c.update(1000);
    c.update(999);
    assert_eq!(c.current_combo, 25);
    c.update(1);
    assert_eq!(c.current_combo, 0);
    assert_eq!(c.get_score_multiplier(), 10);
    assert_eq!(c.max_combo, 25);
}

#[test]
fn a_kill_restarts_the_window() {
    let mut c = ComboSystem::new();
    c.add_kill();
    c.update(1500);
    c.add_kill();
    c.update(1500);
    assert_eq!(c.current_combo, 2);
    c.update(500);
    assert_eq!(c.current_combo, 0);
}

#[test]
fn combo_display_from_two_kills() {
    let mut c = ComboSystem::new();
    assert_eq!(c.get_combo_display(), "");
    c.add_kill();
    assert_eq!(c.get_combo_display(), "");
    c.add_kill();
    assert_eq!(c.get_combo_display(), "2x");
    for _ in 0..13 {
        c.add_kill();
    }
    assert_eq!(c.get_combo_display(), "15x");
}

#[test]
fn decimal_digits() {
    let mut s = String::from("n=");
    append_decimal(&mut s, 0);
    assert_eq!(s, "n=0");
    let mut t = String::new();
    append_decimal(&mut t, 4_294_967_295);
    assert_eq!(t, "4294967295");
    let mut u = String::new();
    append_decimal(&mut u, 100);
    assert_eq!(u, "100");
}

#[test]
fn head_kill_at_base_multiplier() {
    assert_eq!(kill_score(200, BodyPart::Head, 10), 400);
}

#[test]
fn body_kill_at_streak_ten() {
    let m = multiplier_for(10);
    assert_eq!(m, 20);
    assert_eq!(kill_score(100, BodyPart::Body, m), 200);
}

#[test]
fn kill_score_parts_and_rounding() {
    assert_eq!(kill_score(175, BodyPart::Legs, 10), 87);
    assert_eq!(kill_score(175, BodyPart::Legs, 11), 96);
    assert_eq!(kill_score(150, BodyPart::Body, 13), 195);
    assert_eq!(kill_score(1000, BodyPart::Head, 50), 10_000);
    assert_eq!(kill_score(15, BodyPart::Body, 11), 17);
    assert_eq!(kill_score(0, BodyPart::Head, 50), 0);
}

#[test]
fn game_score_starts_at_zero() {
    assert_eq!(GameScore::new().score, 0);
}

#[test]
fn time_attack_round() {
    let mut m = TimeAttackMode::new(60_000);
    assert!(!m.is_active);
    m.record_kill();
    assert_eq!(m.kills, 0);
    m.start();
    assert!(m.is_active);
    m.record_kill();
    m.record_kill();
    m.update(30_000, 4);
    assert_eq!(m.max_combo, 4);
    assert!(!m.is_finished());
    m.update(30_000, 2);
    assert_eq!(m.max_combo, 4);
    assert!(m.is_finished());
    assert_eq!(m.kills, 2);
    m.stop();
    assert!(!m.is_finished());
    assert_eq!(m.kills, 2);
}

#[test]
fn time_attack_ranks() {
    let mut m = TimeAttackMode::new(1000);
    m.kills = 50;
    m.max_combo = 0;
    assert_eq!(m.get_rank(), "S");
    m.kills = 25;
    m.max_combo = 10;
    assert_eq!(m.get_rank(), "S");
    m.kills = 35;
    m.max_combo = 0;
    assert_eq!(m.get_rank(), "A");
    m.kills = 20;
    assert_eq!(m.get_rank(), "B");
    m.kills = 19;
    assert_eq!(m.get_rank(), "C");
    m.kills = 0;
    assert_eq!(m.get_rank(), "C");
}
