//! The damage pipeline on concrete values.

use arpg_core::actor::Actor;
use arpg_core::damage::{
    absorb_damage, apply_leech, effective_armor, mitigate, procs_from_draws, resolve_damage,
    roll_procs,
};
use arpg_core::modifiers::neutral_mods;
use arpg_core::rng::rng_from_seed;
use arpg_core::stats::{Health, Shield, Stats};

fn plain_stats() -> Stats {
    Stats {
        speed: 200_000,
        damage: 25_000,
        attack_speed: 1_000,
        crit_chance: 100,
        crit_multiplier: 2_000,
        life_regen: 2_000,
        armor: 0,
    }
}

#[test]
fn armor_100_halves_50_raw_damage() {
    // armor 100 -> reduction 1/2 -> 50 raw becomes 25 mitigated
    assert_eq!(mitigate(50_000, 1000, 100_000), 25_000);
}

#[test]
fn armor_100_scenario_health_drops_by_25() {
    let mut stats = plain_stats();
    stats.armor = 100_000;
    let mut target = Actor::new(100_000, stats);
    let mods = neutral_mods();
    let applied = resolve_damage(&mut target, &mods, 1000, 50_000);
    assert_eq!(applied, 25_000);
    assert_eq!(target.health.current, 75_000);
}

#[test]
fn zero_armor_passes_damage_through() {
    assert_eq!(mitigate(50_000, 1000, 0), 50_000);
}

#[test]
fn reduction_fraction_never_reaches_one() {
    // even absurd armor keeps some damage coming through at this scale
    assert!(mitigate(1_000_000_000, 1000, 1_000_000_000_000) > 0);
}

#[test]
fn mitigation_decreases_as_armor_grows() {
    let lo = mitigate(50_000, 1000, 10_000);
    let mid = mitigate(50_000, 1000, 100_000);
    let hi = mitigate(50_000, 1000, 400_000);
    assert!(lo > mid && mid > hi);
}

#[test]
fn damage_multiplier_scales_raw_amount() {
    // 1.25 x 1.1 = 1.375 -> 50 raw becomes 68.75, then armor 0 passes it
    assert_eq!(mitigate(50_000, 1375, 0), 68_750);
}

#[test]
fn shield_10_against_15_breaks_and_leaks_5() {
    let mut shield = Shield { amount: 10_000 };
    let mut health = Health { current: 100_000, max: 100_000 };
    absorb_damage(&mut shield, &mut health, 15_000);
    assert_eq!(shield.amount, 0);
    assert_eq!(health.current, 95_000);
}

#[test]
fn shield_absorbs_fully_when_large_enough() {
    let mut shield = Shield { amount: 30_000 };
    let mut health = Health { current: 100_000, max: 100_000 };
    absorb_damage(&mut shield, &mut health, 15_000);
    assert_eq!(shield.amount, 15_000);
    assert_eq!(health.current, 100_000);
}

#[test]
fn shield_never_goes_negative() {
    let mut shield = Shield { amount: 5_000 };
    let mut health = Health { current: 100_000, max: 100_000 };
    absorb_damage(&mut shield, &mut health, 500_000);
    assert!(shield.amount == 0);
    assert_eq!(health.current, 100_000 - 495_000);
}

#[test]
fn invulnerable_target_drops_the_event() {
    let mut target = Actor::new(100_000, plain_stats());
    target.grant_invulnerability(500);
    let mods = neutral_mods();
    let applied = resolve_damage(&mut target, &mods, 1000, 50_000);
    assert_eq!(applied, 0);
    assert_eq!(target.health.current, 100_000);
}

#[test]
fn fire_stacks_soften_the_target() {
    // 10 stacks halve effective armor: 100 armor -> 50
    assert_eq!(effective_armor(100_000, 1000, 10), 50_000);
    // 3 stacks remove 15%
    assert_eq!(effective_armor(100_000, 1000, 3), 85_000);
    // the armor multiplier applies before the fire factor
    assert_eq!(effective_armor(100_000, 1300, 0), 130_000);
}

#[test]
fn leech_heals_and_charges_shield() {
    let mut health = Health { current: 50_000, max: 100_000 };
    let mut shield = Some(Shield { amount: 0 });
    let mut mods = neutral_mods();
    mods.life_leech = 15; // 1.5%
    mods.shield_leech = 30; // 3%
    apply_leech(&mut health, &mut shield, &mods, 100_000);
    assert_eq!(health.current, 51_500);
    assert_eq!(shield.unwrap().amount, 3_000);
}

#[test]
fn leech_caps_at_full_health_and_half_shield() {
    let mut health = Health { current: 99_900, max: 100_000 };
    let mut shield = Some(Shield { amount: 49_900 });
    let mut mods = neutral_mods();
    mods.life_leech = 1000;
    mods.shield_leech = 1000;
    apply_leech(&mut health, &mut shield, &mods, 1_000_000);
    assert_eq!(health.current, 100_000);
    assert_eq!(shield.unwrap().amount, 50_000);
}

#[test]
fn procs_follow_their_draws_exactly() {
    let mut mods = neutral_mods();
    mods.fire_chance = 200;
    mods.ice_chance = 250;
    mods.lightning_chance = 150;
    let r = procs_from_draws(&mods, 199, 250, 0);
    assert!(r.fire);
    assert!(!r.ice);
    assert!(r.lightning);
}

#[test]
fn no_chance_never_procs_certain_chance_always_does() {
    let mut rng = rng_from_seed(7);
    let mut mods = neutral_mods();
    mods.ice_chance = 1000;
    for _ in 0..200 {
        let r = roll_procs(&mods, &mut rng);
        assert!(!r.fire);
        assert!(!r.lightning);
        assert!(r.ice);
    }
}
