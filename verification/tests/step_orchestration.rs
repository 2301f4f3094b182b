//! The simulation context, the in-order event drain, and feedback.

use arpg_core::actor::Actor;
use arpg_core::director::EnemySize;
use arpg_core::events::DamageEvent;
use arpg_core::feedback::{
    HitStop, HitType, KillFeedback, SlowMotion, add_trauma, hit_type_of, hitstop_ms,
    knockback_force, slow_motion_due,
};
use arpg_core::modifiers::neutral_mods;
use arpg_core::rng::{draw_below, draw_in_range, rng_from_seed};
use arpg_core::sim::{SimContext, drain_damage_events, explosion_on_death, player_hit_enemy};
use arpg_core::stats::{Shield, Stats};

fn plain_stats() -> Stats {
    Stats {
        speed: 200_000,
        damage: 25_000,
        attack_speed: 1_000,
        crit_chance: 100,
        crit_multiplier: 2_000,
        life_regen: 2_000,
        armor: 0,
    }
}

#[test]
fn context_writers() {
    let mut ctx = SimContext::new();
    ctx.advance_time(16);
    ctx.advance_time(16);
    assert_eq!(ctx.survival_time_ms, 32);
    ctx.set_live_enemies(7);
    assert_eq!(ctx.live_enemies, 7);
    ctx.record_damage(25_000);
    ctx.record_damage(10_000);
    assert_eq!(ctx.damage_dealt, 35_000);
    ctx.record_kills(3);
    assert_eq!(ctx.enemies_killed, 3);
    ctx.on_boss_defeated();
    ctx.on_boss_defeated();
    assert_eq!(ctx.tier, 2);
}

#[test]
fn events_drain_in_arrival_order() {
    let mut target = Actor::new(100_000, plain_stats());
    target.shield = Some(Shield { amount: 10_000 });
    let mods = neutral_mods();
    let events = vec![
        // the first event eats the shield and leaks five
        DamageEvent { target: 2, attacker: Some(1), amount: 15_000, is_crit: false },
        // the second sees the depleted shield within the same step
        DamageEvent { target: 2, attacker: Some(1), amount: 10_000, is_crit: false },
        // an event for a missing target is dropped silently
        DamageEvent { target: 99, attacker: None, amount: 500_000, is_crit: false },
    ];
    let total = drain_damage_events(&mut target, &mods, &mods, 1, 2, &events);
    assert_eq!(total, 25_000);
    assert_eq!(target.shield.unwrap().amount, 0);
    assert_eq!(target.health.current, 100_000 - 15_000);
}

#[test]
fn player_hit_resolves_leech_and_knockback() {
    let mut enemy = Actor::new(35_000, plain_stats());
    let mut player = Actor::new(100_000, plain_stats());
    player.health.current = 50_000;
    player.shield = Some(Shield { amount: 0 });
    let enemy_mods = neutral_mods();
    let mut player_mods = neutral_mods();
    player_mods.damage_mult = 1_250;
    player_mods.life_leech = 15;
    player_mods.shield_leech = 30;
    player_mods.knockback = true;
    let mut rng = rng_from_seed(9);
    let outcome = player_hit_enemy(
        &mut enemy,
        &enemy_mods,
        &mut player,
        &player_mods,
        20_000,
        &mut rng,
    );
    assert_eq!(outcome.applied, 25_000);
    assert_eq!(enemy.health.current, 10_000);
    assert!(!outcome.target_died);
    assert!(outcome.knockback);
    // leech: 1.5% of 25 as life, 3% as shield
    assert_eq!(player.health.current, 50_375);
    assert_eq!(player.shield.unwrap().amount, 750);
    // no procs without chances
    assert!(!outcome.procs.fire && !outcome.procs.ice && !outcome.procs.lightning);
    // the next hit kills
    let outcome2 = player_hit_enemy(
        &mut enemy,
        &enemy_mods,
        &mut player,
        &player_mods,
        20_000,
        &mut rng,
    );
    assert!(outcome2.target_died);
}

#[test]
fn corpse_explosion_follows_the_modifier() {
    let mut mods = neutral_mods();
    assert!(explosion_on_death(&mods, 1).is_none());
    mods.explosion = true;
    let aoe = explosion_on_death(&mods, 1).unwrap();
    assert_eq!(aoe.damage, 40_000);
    assert_eq!(aoe.duration_remaining_ms, 100);
}

#[test]
fn hit_classification_and_hitstop() {
    assert_eq!(hit_type_of(false, false), HitType::Normal);
    assert_eq!(hit_type_of(true, false), HitType::Crit);
    assert_eq!(hit_type_of(false, true), HitType::Kill);
    // a killing crit counts as a kill
    assert_eq!(hit_type_of(true, true), HitType::Kill);
    assert_eq!(hitstop_ms(HitType::Normal), 64);
    assert_eq!(hitstop_ms(HitType::Crit), 112);
    assert_eq!(hitstop_ms(HitType::Kill), 176);
}

#[test]
fn knockback_scales_with_size() {
    assert_eq!(knockback_force(EnemySize::Small), 52_500);
    assert_eq!(knockback_force(EnemySize::Medium), 35_000);
    assert_eq!(knockback_force(EnemySize::Large), 17_500);
    assert_eq!(knockback_force(EnemySize::Boss), 5_250);
}

#[test]
fn trauma_saturates() {
    assert_eq!(add_trauma(300, 300), 600);
    assert_eq!(add_trauma(900, 300), 1_000);
}

#[test]
fn slow_motion_rule() {
    assert!(slow_motion_due(3, 1, false, false));
    assert!(slow_motion_due(1, 1, true, false));
    assert!(!slow_motion_due(2, 1, false, false));
    assert!(!slow_motion_due(3, 1, true, true));
}

#[test]
fn kill_feedback_window() {
    let mut k = KillFeedback::new();
    k.record_kills(2, false);
    k.tick(400);
    k.record_kills(1, true);
    assert_eq!(k.recent_kills, 3);
    assert!(k.last_kill_was_crit);
    k.tick(500);
    assert_eq!(k.recent_kills, 0);
    assert!(!k.last_kill_was_crit);
}

#[test]
fn hitstop_and_slowmo_tick_down() {
    let mut h = HitStop::idle();
    h.trigger(64);
    h.tick(32);
    assert!(h.active);
    h.tick(32);
    assert!(!h.active);
    let mut s = SlowMotion::idle();
    s.trigger(1_000, 300);
    s.tick(999);
    assert!(s.active);
    assert_eq!(s.time_scale_milli, 300);
    s.tick(1);
    assert!(!s.active);
    assert_eq!(s.time_scale_milli, 1_000);
}

#[test]
fn draws_stay_inside_their_ranges() {
    let mut rng = rng_from_seed(42);
    // a one-wide range admits exactly one value
    for _ in 0..50 {
        assert_eq!(draw_below(&mut rng, 1), 0);
        assert_eq!(draw_in_range(&mut rng, 7, 8), 7);
    }
    for _ in 0..500 {
        assert!(draw_below(&mut rng, 5) < 5);
        let v = draw_in_range(&mut rng, 30_000, 45_000);
        assert!((30_000..45_000).contains(&v));
    }
}

#[test]
fn invulnerable_target_drops_the_whole_hit() {
    let mut enemy = Actor::new(35_000, plain_stats());
    enemy.grant_invulnerability(500);
    let enemy_before_health = enemy.health;
    let mut player = Actor::new(100_000, plain_stats());
    player.health.current = 50_000;
    let mut player_mods = neutral_mods();
    player_mods.knockback = true;
    player_mods.life_leech = 1_000;
    player_mods.fire_chance = 1_000;
    let mut rng = rng_from_seed(13);
    for _ in 0..50 {
        let outcome = player_hit_enemy(
            &mut enemy,
            &neutral_mods(),
            &mut player,
            &player_mods,
            20_000,
            &mut rng,
        );
        // dropped with no side effects: no damage, no leech, no procs,
        // no knockback request
        assert_eq!(outcome.applied, 0);
        assert!(!outcome.knockback);
        assert!(!outcome.procs.fire && !outcome.procs.ice && !outcome.procs.lightning);
        assert_eq!(enemy.health, enemy_before_health);
        assert_eq!(player.health.current, 50_000);
    }
}
