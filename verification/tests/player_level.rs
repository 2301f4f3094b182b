//! Classes, attacks, leveling, regeneration, pets and HUD fractions.

use arpg_core::hud::{cooldown_fraction_milli, health_fraction_milli, shield_fraction_milli,
    xp_fraction_milli};
use arpg_core::player::{
    PlayerClass, apply_level_up, attack_cooldown_ms, attack_damage, class_base, crit_from_draw,
    loot_pickup, melee_damage, nova_cooldown_ms, pet_buff, pet_heal, regen_tick, roll_crit,
};
use arpg_core::player::{nova_action, NovaAction, apply_shield_gain};
use arpg_core::progression::Level;
use arpg_core::rng::rng_from_seed;
use arpg_core::stats::{Health, Shield, Stats};

#[test]
fn class_baselines() {
    let tank = class_base(PlayerClass::Tank);
    assert_eq!(tank.max_health, 200_000);
    assert_eq!(tank.shield, 50_000);
    assert_eq!(tank.stats.armor, 50_000);
    assert_eq!(tank.stats.speed, 170_000);
    assert_eq!(tank.stats.damage, 30_000);
    assert_eq!(tank.stats.life_regen, 5_000);
    let archer = class_base(PlayerClass::Archer);
    assert_eq!(archer.max_health, 80_000);
    assert_eq!(archer.stats.attack_speed, 1_600);
    assert_eq!(archer.attack_cooldown_ms, 150);
    let mage = class_base(PlayerClass::Mage);
    assert_eq!(mage.stats.damage, 65_000);
    assert_eq!(mage.stats.attack_speed, 700);
    assert_eq!(mage.nova_cooldown_ms, 3_500);
    let tamer = class_base(PlayerClass::Tamer);
    assert_eq!(tamer.max_health, 110_000);
    assert_eq!(tamer.stats.speed, 210_000);
}

#[test]
fn nova_cooldowns_on_use() {
    assert_eq!(nova_cooldown_ms(PlayerClass::Mage), 3_000);
    assert_eq!(nova_cooldown_ms(PlayerClass::Tank), 8_000);
    assert_eq!(nova_cooldown_ms(PlayerClass::Archer), 5_000);
    assert_eq!(nova_cooldown_ms(PlayerClass::Tamer), 5_000);
}

#[test]
fn crit_doubles_with_the_default_multiplier() {
    let s = Stats {
        speed: 200_000,
        damage: 25_000,
        attack_speed: 1_000,
        crit_chance: 100,
        crit_multiplier: 2_000,
        life_regen: 2_000,
        armor: 0,
    };
    assert_eq!(attack_damage(&s, false), 25_000);
    assert_eq!(attack_damage(&s, true), 50_000);
    assert_eq!(melee_damage(25_000), 45_000);
}

#[test]
fn crit_draws() {
    assert!(crit_from_draw(100, 99));
    assert!(!crit_from_draw(100, 100));
    let mut rng = rng_from_seed(5);
    for _ in 0..100 {
        assert!(!roll_crit(0, &mut rng));
        assert!(roll_crit(1000, &mut rng));
    }
}

#[test]
fn attack_cooldown_shrinks_with_attack_speed() {
    assert_eq!(attack_cooldown_ms(400, 1_000), 400);
    assert_eq!(attack_cooldown_ms(400, 1_600), 250);
    assert_eq!(attack_cooldown_ms(250, 700), 357);
}

#[test]
fn xp_threshold_grows_by_two_fifths() {
    let mut l = Level::new();
    assert!(!l.add_xp(50));
    assert_eq!((l.level, l.xp, l.xp_to_next), (1, 50, 100));
    assert!(l.add_xp(50));
    assert_eq!((l.level, l.xp, l.xp_to_next), (2, 0, 140));
    assert!(l.add_xp(200));
    assert_eq!((l.level, l.xp, l.xp_to_next), (3, 60, 196));
    assert!(!l.add_xp(100));
    assert_eq!((l.level, l.xp, l.xp_to_next), (3, 160, 196));
}

#[test]
fn surplus_xp_levels_once_per_pickup() {
    let mut l = Level::new();
    // one huge orb levels only once; the surplus waits for the next one
    assert!(l.add_xp(1_000));
    assert_eq!(l.level, 2);
    assert_eq!(l.xp, 900);
    assert!(l.add_xp(0));
    assert_eq!(l.level, 3);
}

#[test]
fn level_up_bonuses() {
    let mut stats = Stats {
        speed: 200_000,
        damage: 25_000,
        attack_speed: 1_000,
        crit_chance: 100,
        crit_multiplier: 2_000,
        life_regen: 2_000,
        armor: 0,
    };
    let mut health = Health { current: 40_000, max: 100_000 };
    let mut points: u32 = 0;
    apply_level_up(&mut stats, &mut health, &mut points);
    assert_eq!(stats.damage, 28_000);
    assert_eq!(stats.speed, 204_000);
    assert_eq!(stats.attack_speed, 1_030);
    assert_eq!(stats.crit_chance, 115);
    assert_eq!(stats.life_regen, 2_400);
    assert_eq!(stats.armor, 4_000);
    assert_eq!(health.max, 112_000);
    assert_eq!(health.current, 112_000);
    assert_eq!(points, 1);
}

#[test]
fn crit_chance_caps_at_half() {
    let mut stats = Stats {
        speed: 200_000,
        damage: 25_000,
        attack_speed: 1_000,
        crit_chance: 495,
        crit_multiplier: 2_000,
        life_regen: 2_000,
        armor: 0,
    };
    let mut health = Health { current: 1_000, max: 1_000 };
    let mut points: u32 = 0;
    apply_level_up(&mut stats, &mut health, &mut points);
    assert_eq!(stats.crit_chance, 500);
}

#[test]
fn regeneration_heals_toward_full() {
    let mut health = Health { current: 50_000, max: 100_000 };
    let mut shield = Shield { amount: 0 };
    regen_tick(&mut health, &mut shield, 2_000, 0, 1_000);
    assert_eq!(health.current, 52_000);
    assert_eq!(shield.amount, 0);
    // at full health nothing changes
    let mut full = Health { current: 100_000, max: 100_000 };
    regen_tick(&mut full, &mut shield, 2_000, 0, 1_000);
    assert_eq!(full.current, 100_000);
}

#[test]
fn shield_regen_stops_at_half_max_health() {
    let mut health = Health { current: 100_000, max: 100_000 };
    let mut shield = Shield { amount: 49_000 };
    regen_tick(&mut health, &mut shield, 0, 8_000, 1_000);
    assert_eq!(shield.amount, 50_000);
    regen_tick(&mut health, &mut shield, 0, 8_000, 1_000);
    assert_eq!(shield.amount, 50_000);
}

#[test]
fn pet_pulses() {
    let mut health = Health { current: 90_000, max: 100_000 };
    pet_heal(&mut health);
    assert_eq!(health.current, 91_000);
    pet_heal(&mut health);
    for _ in 0..20 {
        pet_heal(&mut health);
    }
    assert_eq!(health.current, 100_000);
    let mut stats = Stats {
        speed: 200_000,
        damage: 25_000,
        attack_speed: 1_000,
        crit_chance: 100,
        crit_multiplier: 2_000,
        life_regen: 2_000,
        armor: 0,
    };
    pet_buff(&mut stats);
    assert_eq!(stats.armor, 25_000);
    assert_eq!(stats.damage, 35_000);
    // the floor never lowers better values
    pet_buff(&mut stats);
    stats.damage = 80_000;
    pet_buff(&mut stats);
    assert_eq!(stats.damage, 80_000);
}

#[test]
fn loot_grants_small_bonuses() {
    let mut stats = Stats {
        speed: 200_000,
        damage: 25_000,
        attack_speed: 1_000,
        crit_chance: 100,
        crit_multiplier: 2_000,
        life_regen: 2_000,
        armor: 0,
    };
    loot_pickup(&mut stats);
    assert_eq!(stats.damage, 27_000);
    assert_eq!(stats.crit_chance, 110);
}

#[test]
fn hud_fractions() {
    let h = Health { current: 50_000, max: 100_000 };
    assert_eq!(health_fraction_milli(&h), 500);
    let dead = Health { current: -5_000, max: 100_000 };
    assert_eq!(health_fraction_milli(&dead), 0);
    let s = Shield { amount: 25_000 };
    assert_eq!(shield_fraction_milli(&s, &h), 250);
    let mut l = Level::new();
    l.add_xp(40);
    assert_eq!(xp_fraction_milli(&l), 400);
    assert_eq!(cooldown_fraction_milli(500, 2_000), 250);
    assert_eq!(cooldown_fraction_milli(0, 2_000), 0);
}

#[test]
fn nova_actions_per_class() {
    let s = Stats {
        speed: 200_000,
        damage: 25_000,
        attack_speed: 1_000,
        crit_chance: 100,
        crit_multiplier: 2_000,
        life_regen: 2_000,
        armor: 0,
    };
    assert_eq!(
        nova_action(PlayerClass::Tank, &s),
        NovaAction::Barrier { invulnerable_ms: 2_000 }
    );
    assert_eq!(
        nova_action(PlayerClass::Archer, &s),
        NovaAction::Volley { arrow_damage: 20_000, arrows: 3, dash_speed: 1_200_000, dash_ms: 150 }
    );
    assert_eq!(nova_action(PlayerClass::Mage, &s), NovaAction::Blink { distance: 200_000 });
    assert_eq!(nova_action(PlayerClass::Tamer, &s), NovaAction::Bulwark { shield_gain: 30_000 });
    let mut shield = Shield { amount: 50_000 };
    apply_shield_gain(&mut shield, 30_000);
    assert_eq!(shield.amount, 80_000);
}
