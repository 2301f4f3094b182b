//! The spawn director: caps, probabilities, scaling, gated specials.

use arpg_core::director::{
    EnemySize, damage_scale_milli, enemy_archetype, health_scale_milli, population_cap,
    scaled_enemy, spawn_chance_milli, spawn_decision, tier_scale_milli,
};
use arpg_core::progression::{
    BossEntrance, BossEntrancePhase, ChallengeZone, CountdownTimer, HordeWave,
    ProgressionEventType, Shrine, ShrineType, boss_death_reward, boss_spawn,
    boss_spawn_decision, challenge_zone, elite_spawn, goblin_spawn, goblin_timeout_reward,
    mini_boss_decision, mini_boss_spawn, select_progression_event, shrine_type_from_draw,
};
use arpg_core::rng::rng_from_seed;

#[test]
fn population_cap_grows_with_level_to_a_hard_cap() {
    assert_eq!(population_cap(1, false), 10);
    assert_eq!(population_cap(5, false), 18);
    assert_eq!(population_cap(11, false), 30);
    assert_eq!(population_cap(50, false), 30);
}

#[test]
fn horde_wave_doubles_the_cap() {
    assert_eq!(population_cap(1, true), 20);
    assert_eq!(population_cap(50, true), 60);
}

#[test]
fn spawn_chance_grows_with_survival_time_to_a_ceiling() {
    assert_eq!(spawn_chance_milli(0, false), 25);
    assert_eq!(spawn_chance_milli(4_000, false), 45);
    assert_eq!(spawn_chance_milli(12_000, false), 85);
    assert_eq!(spawn_chance_milli(1_000_000, false), 85);
    assert_eq!(spawn_chance_milli(12_000, true), 170);
}

#[test]
fn full_population_blocks_spawning() {
    // at the cap, no draw can grant a spawn
    for draw in [0u32, 1, 84, 999].iter() {
        assert!(!spawn_decision(10, 1, false, 1_000_000, *draw));
    }
    let mut rng = rng_from_seed(3);
    for _ in 0..100 {
        assert!(!arpg_core::director::decide_spawn(30, 50, false, 500_000, &mut rng));
    }
}

#[test]
fn population_never_exceeds_cap_after_a_spawn() {
    for live in 0u32..30 {
        for draw in [0u32, 24, 500].iter() {
            if spawn_decision(live, 50, false, 1_000_000, *draw) {
                assert!(live + 1 <= population_cap(50, false));
            }
        }
    }
}

#[test]
fn spawn_needs_a_low_enough_draw() {
    assert!(spawn_decision(0, 1, false, 0, 24));
    assert!(!spawn_decision(0, 1, false, 0, 25));
}

#[test]
fn archetypes_carry_the_baseline_numbers() {
    let medium = enemy_archetype(0);
    assert_eq!((medium.health, medium.damage, medium.xp, medium.speed), (35_000, 10_000, 12, 85_000));
    assert_eq!(medium.size, EnemySize::Medium);
    let large = enemy_archetype(1);
    assert_eq!((large.health, large.damage, large.xp), (70_000, 15_000, 30));
    assert_eq!(large.size, EnemySize::Large);
    let small = enemy_archetype(2);
    assert_eq!((small.health, small.damage, small.xp, small.speed), (22_000, 18_000, 18, 130_000));
    assert_eq!(small.size, EnemySize::Small);
}

#[test]
fn enemies_scale_linearly_with_level() {
    assert_eq!(health_scale_milli(1), 1_000);
    assert_eq!(health_scale_milli(5), 2_000);
    assert_eq!(damage_scale_milli(5), 1_600);
    let e = scaled_enemy(0, 5);
    assert_eq!(e.health, 70_000);
    assert_eq!(e.damage, 16_000);
    assert_eq!(e.xp, 12);
}

#[test]
fn tier_scale_steps_per_tier() {
    assert_eq!(tier_scale_milli(0, 500), 500);
    assert_eq!(tier_scale_milli(1, 500), 1_000);
    assert_eq!(tier_scale_milli(3, 500), 2_000);
    assert_eq!(tier_scale_milli(0, 300), 700);
}

#[test]
fn special_spawn_numbers() {
    let elite = elite_spawn(1, 1);
    assert_eq!((elite.health, elite.damage, elite.xp, elite.speed), (300_000, 20_000, 150, 70_000));
    let goblin = goblin_spawn(5);
    assert_eq!((goblin.health, goblin.damage, goblin.xp, goblin.speed), (100_000, 0, 300, 280_000));
    let mini = mini_boss_spawn(1, 1);
    assert_eq!((mini.health, mini.damage, mini.xp), (2_000_000, 40_000, 300));
    assert_eq!(mini.size, EnemySize::Boss);
    let boss = boss_spawn(2);
    assert_eq!((boss.health, boss.damage, boss.xp, boss.speed), (12_000_000, 120_000, 2_000, 156_000));
}

#[test]
fn reward_splits() {
    assert_eq!(goblin_timeout_reward(300), (5, 60));
    assert_eq!(boss_death_reward(1_000), (20, 50));
}

#[test]
fn event_selection_covers_all_five() {
    assert_eq!(select_progression_event(0), ProgressionEventType::EliteSpawn);
    assert_eq!(select_progression_event(1), ProgressionEventType::HordeWave);
    assert_eq!(select_progression_event(2), ProgressionEventType::TreasureGoblin);
    assert_eq!(select_progression_event(3), ProgressionEventType::Shrine);
    assert_eq!(select_progression_event(4), ProgressionEventType::ChallengeZone);
}

#[test]
fn event_interval_is_rerolled_inside_bounds() {
    let mut rng = rng_from_seed(11);
    for _ in 0..100 {
        let ms = arpg_core::progression::roll_event_interval(&mut rng);
        assert!((30_000..45_000).contains(&ms));
    }
}

#[test]
fn one_boss_at_a_time() {
    // the interval boundary is crossed this step
    assert!(boss_spawn_decision(67_500, 100, false, false));
    // a live boss blocks the second trigger in the same step
    assert!(!boss_spawn_decision(67_500, 100, true, false));
    // a running entrance blocks it too
    assert!(!boss_spawn_decision(67_500, 100, false, true));
    // between boundaries nothing fires
    assert!(!boss_spawn_decision(70_000, 100, false, false));
    // a mini-boss yields to any boss-tier presence
    assert!(mini_boss_decision(true, false, false));
    assert!(!mini_boss_decision(true, true, false));
    assert!(!mini_boss_decision(true, false, true));
    assert!(!mini_boss_decision(false, false, false));
}

#[test]
fn countdown_fires_once_and_repeating_rewinds() {
    let mut t = CountdownTimer::new(100);
    assert!(!t.tick(60));
    assert!(t.tick(60));
    assert!(!t.tick(60));
    assert!(t.finished());
    let mut r = CountdownTimer::new(100);
    assert!(r.tick_repeating(150, 100));
    assert_eq!(r.remaining_ms, 100);
    assert!(!r.tick_repeating(50, 100));
    assert_eq!(r.remaining_ms, 50);
}

#[test]
fn horde_wave_raises_then_reverts() {
    let mut h = HordeWave::inactive();
    assert!(!h.is_active());
    h.start();
    assert!(h.is_active());
    h.tick(9_999);
    assert!(h.is_active());
    h.tick(1);
    assert!(!h.is_active());
}

#[test]
fn boss_entrance_darkens_then_spawns_then_completes() {
    let mut e = BossEntrance::start();
    assert_eq!(e.tick(500), BossEntrancePhase::Darkening);
    assert_eq!(e.tick(300), BossEntrancePhase::Spawning);
    assert_eq!(e.tick(700), BossEntrancePhase::Complete);
    assert_eq!(e.tick(10), BossEntrancePhase::Complete);
}

#[test]
fn shrine_grants_once() {
    let mut s = Shrine::new(ShrineType::Damage);
    assert_eq!(s.interact(false), None);
    assert!(!s.used);
    assert_eq!(s.interact(true), Some(ShrineType::Damage));
    assert!(s.used);
    assert_eq!(s.interact(true), None);
    assert_eq!(s.interact(true), None);
}

#[test]
fn shrine_type_draws() {
    assert_eq!(shrine_type_from_draw(0), ShrineType::Damage);
    assert_eq!(shrine_type_from_draw(1), ShrineType::Speed);
    assert_eq!(shrine_type_from_draw(2), ShrineType::Defense);
    assert_eq!(shrine_type_from_draw(3), ShrineType::CritChance);
}

#[test]
fn challenge_zone_occupancy_and_expiry() {
    let mut z = challenge_zone();
    assert!(z.occupied_by(0, 0, 100_000, 100_000));
    assert!(!z.occupied_by(0, 0, 150_000, 0));
    assert!(!z.occupied_by(0, 0, 200_000, 0));
    assert!(!z.tick(14_999));
    assert!(z.tick(1));
    let mut z2 = ChallengeZone { radius: 150_000, bonus_xp_mult: 2_000, remaining_ms: 10 };
    assert!(z2.tick(20));
}
