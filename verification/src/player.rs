//! The player: classes, attack derivation, skills, regeneration, pets
//! and loot.
//!
//! A class sets the baseline attributes, health, shield and cooldowns.
//! Attacks derive their damage from the attributes and an independent
//! critical-strike draw; skills and regeneration are explicit countdown
//! state advanced once per step.

use vstd::prelude::*;
use crate::stats::{Health, Shield, Stats, health_wf, shield_wf, stats_wf};
use crate::units::{MAX_MULT, MAX_UNITS, cap_units, min64, mul_milli, scale_milli};

verus! {

/// The four playable classes.
#[derive(Clone, Copy, Debug, PartialEq, Eq, Structural)]
pub enum PlayerClass {
    Tank,
    Archer,
    Mage,
    Tamer,
}

/// The four pet companions a tamer can field.
#[derive(Clone, Copy, Debug, PartialEq, Eq, Structural)]
pub enum PetType {
    Healer,
    Damager,
    Buffer,
    Tanker,
}

/// Everything a class decides at spawn time.
#[derive(Clone, Copy, Debug, PartialEq, Eq, Structural)]
pub struct ClassBase {
    pub stats: Stats,
    pub max_health: i64,
    pub shield: i64,
    pub attack_cooldown_ms: i64,
    pub nova_cooldown_ms: i64,
}

/// The baseline each class starts from: the default attributes with the
/// class's overrides applied.
pub open spec fn spec_class_base(class: PlayerClass) -> ClassBase {
    let base = Stats {
        speed: 200_000,
        damage: 25_000,
        attack_speed: 1_000,
        crit_chance: 100,
        crit_multiplier: 2_000,
        life_regen: 2_000,
        armor: 0,
    };
    match class {
        PlayerClass::Tank => ClassBase {
            stats: Stats { speed: 170_000, damage: 30_000, life_regen: 5_000, armor: 50_000, ..base },
            max_health: 200_000,
            shield: 50_000,
            attack_cooldown_ms: 300,
            nova_cooldown_ms: 5_000,
        },
        PlayerClass::Archer => ClassBase {
            stats: Stats { speed: 240_000, damage: 18_000, attack_speed: 1_600, ..base },
            max_health: 80_000,
            shield: 0,
            attack_cooldown_ms: 150,
            nova_cooldown_ms: 5_000,
        },
        PlayerClass::Mage => ClassBase {
            stats: Stats { damage: 65_000, attack_speed: 700, ..base },
            max_health: 70_000,
            shield: 0,
            attack_cooldown_ms: 600,
            nova_cooldown_ms: 3_500,
        },
        PlayerClass::Tamer => ClassBase {
            stats: Stats { speed: 210_000, ..base },
            max_health: 110_000,
            shield: 0,
            attack_cooldown_ms: 300,
            nova_cooldown_ms: 5_000,
        },
    }
}

/// The baseline a freshly spawned player of this class carries.
pub fn class_base(class: PlayerClass) -> (r: ClassBase)
    ensures
        r == spec_class_base(class),
        stats_wf(r.stats),
        0 < r.max_health <= MAX_UNITS,
        0 <= r.shield <= MAX_UNITS,
{
    let base = Stats {
        speed: 200_000,
        damage: 25_000,
        attack_speed: 1_000,
        crit_chance: 100,
        crit_multiplier: 2_000,
        life_regen: 2_000,
        armor: 0,
    };
    match class {
        PlayerClass::Tank => ClassBase {
            stats: Stats { speed: 170_000, damage: 30_000, life_regen: 5_000, armor: 50_000, ..base },
            max_health: 200_000,
            shield: 50_000,
            attack_cooldown_ms: 300,
            nova_cooldown_ms: 5_000,
        },
        PlayerClass::Archer => ClassBase {
            stats: Stats { speed: 240_000, damage: 18_000, attack_speed: 1_600, ..base },
            max_health: 80_000,
            shield: 0,
            attack_cooldown_ms: 150,
            nova_cooldown_ms: 5_000,
        },
        PlayerClass::Mage => ClassBase {
            stats: Stats { damage: 65_000, attack_speed: 700, ..base },
            max_health: 70_000,
            shield: 0,
            attack_cooldown_ms: 600,
            nova_cooldown_ms: 3_500,
        },
        PlayerClass::Tamer => ClassBase {
            stats: Stats { speed: 210_000, ..base },
            max_health: 110_000,
            shield: 0,
            attack_cooldown_ms: 300,
            nova_cooldown_ms: 5_000,
        },
    }
}

/// The nova cooldown a class pays on use, in milliseconds.
pub open spec fn spec_nova_cooldown_ms(class: PlayerClass) -> i64 {
    match class {
        PlayerClass::Mage => 3_000,
        PlayerClass::Tank => 8_000,
        _ => 5_000,
    }
}

/// The cooldown started when a class fires its special ability.
pub fn nova_cooldown_ms(class: PlayerClass) -> (r: i64)
    ensures
        r == spec_nova_cooldown_ms(class),
{
    match class {
        PlayerClass::Mage => 3_000,
        PlayerClass::Tank => 8_000,
        _ => 5_000,
    }
}

/// How long the dash skill waits between uses.
pub const DASH_COOLDOWN_MS: i64 = 2_000;

/// How fast a dash travels, in milli-units per second.
pub const DASH_SPEED: i64 = 900_000;

/// How long a dash lasts; the matching invulnerability window is as
/// long, and cancelling the dash early also clears the window early.
pub const DASH_DURATION_MS: i64 = 120;

/// What each class's special ability does when it fires.
#[derive(Clone, Copy, Debug, PartialEq, Eq, Structural)]
pub enum NovaAction {
    Barrier { invulnerable_ms: i64 },
    Volley { arrow_damage: i64, arrows: u32, dash_speed: i64, dash_ms: i64 },
    Blink { distance: i64 },
    Bulwark { shield_gain: i64 },
}

/// The special ability a class fires: the tank turns briefly
/// invulnerable, the archer leaps back loosing a three-arrow volley at
/// reduced damage, the mage blinks toward the aim point, the tamer
/// raises a flat shield.
pub open spec fn spec_nova_action(class: PlayerClass, s: Stats) -> NovaAction {
    match class {
        PlayerClass::Tank => NovaAction::Barrier { invulnerable_ms: 2_000 },
        PlayerClass::Archer => NovaAction::Volley {
            arrow_damage: cap_units(scale_milli(s.damage as int, 800)) as i64,
            arrows: 3,
            dash_speed: 1_200_000,
            dash_ms: 150,
        },
        PlayerClass::Mage => NovaAction::Blink { distance: 200_000 },
        PlayerClass::Tamer => NovaAction::Bulwark { shield_gain: 30_000 },
    }
}

/// Decides what firing the special ability does for this class.
pub fn nova_action(class: PlayerClass, s: &Stats) -> (r: NovaAction)
    requires
        stats_wf(*s),
    ensures
        r == spec_nova_action(class, *s),
{
    match class {
        PlayerClass::Tank => NovaAction::Barrier { invulnerable_ms: 2_000 },
        PlayerClass::Archer => NovaAction::Volley {
            arrow_damage: min64(mul_milli(s.damage, 800), MAX_UNITS),
            arrows: 3,
            dash_speed: 1_200_000,
            dash_ms: 150,
        },
        PlayerClass::Mage => NovaAction::Blink { distance: 200_000 },
        PlayerClass::Tamer => NovaAction::Bulwark { shield_gain: 30_000 },
    }
}

/// Grants a flat shield bonus, clamped to the numeric cap.
pub fn apply_shield_gain(shield: &mut Shield, gain: i64)
    requires
        shield_wf(*old(shield)),
        0 <= gain <= MAX_UNITS,
    ensures
        shield_wf(*final(shield)),
        final(shield).amount == crate::stats::add_capped(old(shield).amount as int, gain as int),
{
    shield.amount = min64(shield.amount + gain, MAX_UNITS);
}

/// Whether an attack is a critical strike: the draw falls below the
/// crit chance.
pub fn crit_from_draw(crit_chance: i64, draw: i64) -> (r: bool)
    requires
        0 <= draw < 1000,
    ensures
        r == (draw < crit_chance),
{
    draw < crit_chance
}

/// Rolls the critical-strike die for one attack. Whatever the draw: no
/// crit without a positive chance, a certain crit at a full one.
pub fn roll_crit(crit_chance: i64, rng: &mut rand::rngs::StdRng) -> (r: bool)
    ensures
        r ==> crit_chance > 0,
        crit_chance >= 1000 ==> r,
{
    let draw = crate::rng::draw_below(rng, 1000) as i64;
    crit_from_draw(crit_chance, draw)
}

/// The damage one attack carries: the damage attribute, multiplied by
/// the crit multiplier on a critical strike (the multiplier clamped to
/// the largest one the crate applies, the product to the numeric cap).
pub open spec fn spec_attack_damage(s: Stats, is_crit: bool) -> int {
    if is_crit {
        let m: int = if s.crit_multiplier <= MAX_MULT {
            s.crit_multiplier as int
        } else {
            MAX_MULT as int
        };
        cap_units(scale_milli(s.damage as int, m))
    } else {
        s.damage as int
    }
}

/// Derives one attack's damage from the attributes and the crit roll.
pub fn attack_damage(s: &Stats, is_crit: bool) -> (r: i64)
    requires
        stats_wf(*s),
    ensures
        r == spec_attack_damage(*s, is_crit),
        0 <= r <= MAX_UNITS,
{
    if is_crit {
        let m = min64(s.crit_multiplier, MAX_MULT);
        min64(mul_milli(s.damage, m), MAX_UNITS)
    } else {
        s.damage
    }
}

/// Melee arcs hit for 180% of the attack's damage.
pub fn melee_damage(attack: i64) -> (r: i64)
    requires
        0 <= attack <= MAX_UNITS,
    ensures
        r == cap_units(scale_milli(attack as int, 1800)),
        0 <= r <= MAX_UNITS,
{
    min64(mul_milli(attack, 1800), MAX_UNITS)
}

/// An attack cooldown: the base window divided by the attack-speed
/// multiplier, so faster attackers wait proportionally less.
pub fn attack_cooldown_ms(base_ms: i64, attack_speed: i64) -> (r: i64)
    requires
        0 <= base_ms <= 1_000_000,
        0 < attack_speed <= MAX_UNITS,
    ensures
        r == base_ms * 1000 / (attack_speed as int),
        0 <= r <= 1_000_000_000,
{
    proof {
        vstd::arithmetic::div_mod::lemma_div_is_ordered_by_denominator(
            base_ms * 1000,
            1,
            attack_speed as int,
        );
        vstd::arithmetic::div_mod::lemma_div_is_ordered(0, base_ms * 1000, attack_speed as int);
        vstd::arithmetic::div_mod::lemma_div_of0(attack_speed as int);
    }
    base_ms * 1000 / attack_speed
}

/// One regeneration step: health rises by the life-regen rate over the
/// elapsed time, up to full; a shield below half of maximum health
/// rises by the shield-regen rate, up to that half.
pub fn regen_tick(
    health: &mut Health,
    shield: &mut Shield,
    life_regen: i64,
    shield_regen: i64,
    delta_ms: i64,
)
    requires
        health_wf(*old(health)),
        shield_wf(*old(shield)),
        0 <= life_regen <= MAX_UNITS,
        0 <= shield_regen <= MAX_UNITS,
        0 <= delta_ms <= 1000,
    ensures
        health_wf(*final(health)),
        shield_wf(*final(shield)),
        final(health).max == old(health).max,
        final(health).current == spec_regen_health(*old(health), life_regen as int, delta_ms as int),
        final(shield).amount == spec_regen_shield(
            *old(shield),
            old(health).max as int,
            shield_regen as int,
            delta_ms as int,
        ),
{
    proof {
        rate_step_bound(life_regen as int, delta_ms as int);
        rate_step_bound(shield_regen as int, delta_ms as int);
    }
    if health.current < health.max {
        let gain = life_regen * delta_ms / 1000;
        health.current = min64(health.current + gain, health.max);
    }
    let half = mul_milli(health.max, 500);
    if shield.amount < half {
        let gain = shield_regen * delta_ms / 1000;
        shield.amount = min64(shield.amount + gain, half);
    }
}

/// Health after one regeneration step: unchanged at full, otherwise
/// raised by the rate's share of the elapsed time, at most to full.
pub open spec fn spec_regen_health(h: Health, rate: int, delta_ms: int) -> int {
    if h.current < h.max {
        let gain = rate * delta_ms / 1000;
        if h.current + gain <= h.max {
            h.current + gain
        } else {
            h.max as int
        }
    } else {
        h.current as int
    }
}

/// Shield after one regeneration step: unchanged at or above half of
/// maximum health, otherwise raised toward that half.
pub open spec fn spec_regen_shield(s: Shield, max_health: int, rate: int, delta_ms: int) -> int {
    let half = scale_milli(max_health, 500);
    if s.amount < half {
        let gain = rate * delta_ms / 1000;
        if s.amount + gain <= half {
            s.amount + gain
        } else {
            half
        }
    } else {
        s.amount as int
    }
}

/// A rate's share of up to one second stays inside the numeric cap.
proof fn rate_step_bound(rate: int, delta_ms: int)
    requires
        0 <= rate <= MAX_UNITS,
        0 <= delta_ms <= 1000,
    ensures
        0 <= rate * delta_ms / 1000 <= MAX_UNITS,
{
    vstd::arithmetic::mul::lemma_mul_nonnegative(rate, delta_ms);
    vstd::arithmetic::mul::lemma_mul_upper_bound(rate, MAX_UNITS as int, delta_ms, 1000);
    vstd::arithmetic::div_mod::lemma_div_is_ordered(rate * delta_ms, MAX_UNITS as int * 1000, 1000);
    vstd::arithmetic::div_mod::lemma_div_is_ordered(0, rate * delta_ms, 1000);
    vstd::arithmetic::div_mod::lemma_div_of0(1000);
}

/// A healer pet's pulse: one percent of maximum health, up to full.
pub fn pet_heal(health: &mut Health)
    requires
        health_wf(*old(health)),
    ensures
        health_wf(*final(health)),
        final(health).max == old(health).max,
        final(health).current == if old(health).current + old(health).max / 100 <= old(health).max {
            old(health).current + old(health).max / 100
        } else {
            old(health).max as int
        },
{
    let gain = health.max / 100;
    health.current = min64(health.current + gain, health.max);
}

/// A buffer pet's pulse: armor and damage are floored at fixed values.
pub fn pet_buff(stats: &mut Stats)
    requires
        stats_wf(*old(stats)),
    ensures
        stats_wf(*final(stats)),
        *final(stats) == (Stats {
            armor: if old(stats).armor >= 25_000 {
                old(stats).armor
            } else {
                25_000
            },
            damage: if old(stats).damage >= 35_000 {
                old(stats).damage
            } else {
                35_000
            },
            ..*old(stats)
        }),
{
    if stats.armor < 25_000 {
        stats.armor = 25_000;
    }
    if stats.damage < 35_000 {
        stats.damage = 35_000;
    }
}

/// The damage a damager pet's pulse carries, in milli-units.
pub const PET_DAMAGE: i64 = 10_000;

/// The search radius within which a damager pet picks a target.
pub const PET_ATTACK_RANGE: i64 = 250_000;

/// Picking up a loot drop: a small permanent damage and crit bonus.
pub fn loot_pickup(stats: &mut Stats)
    requires
        stats_wf(*old(stats)),
    ensures
        stats_wf(*final(stats)),
        *final(stats) == (Stats {
            damage: crate::stats::add_capped(old(stats).damage as int, 2_000) as i64,
            crit_chance: crate::stats::add_capped(old(stats).crit_chance as int, 10) as i64,
            ..*old(stats)
        }),
{
    stats.damage = if stats.damage + 2_000 <= MAX_UNITS {
        stats.damage + 2_000
    } else {
        MAX_UNITS
    };
    stats.crit_chance = if stats.crit_chance + 10 <= MAX_UNITS {
        stats.crit_chance + 10
    } else {
        MAX_UNITS
    };
}

/// One level gained: multiplicative damage, speed, attack-speed and
/// health growth, additive crit chance (capped at one half), life regen
/// and armor, a full heal, and one fresh passive point.
pub fn apply_level_up(stats: &mut Stats, health: &mut Health, points: &mut u32)
    requires
        stats_wf(*old(stats)),
        health_wf(*old(health)),
    ensures
        stats_wf(*final(stats)),
        health_wf(*final(health)),
        *final(stats) == spec_leveled_stats(*old(stats)),
        final(health).max == cap_units(scale_milli(old(health).max as int, 1_120)),
        final(health).current == final(health).max,
        *final(points) == if *old(points) < u32::MAX {
            *old(points) + 1
        } else {
            u32::MAX as int
        },
{
    stats.damage = min64(mul_milli(stats.damage, 1_120), MAX_UNITS);
    stats.speed = min64(mul_milli(stats.speed, 1_020), MAX_UNITS);
    stats.attack_speed = min64(mul_milli(stats.attack_speed, 1_030), MAX_UNITS);
    stats.crit_chance = min64(stats.crit_chance + 15, 500);
    stats.life_regen = min64(stats.life_regen + 400, MAX_UNITS);
    stats.armor = min64(stats.armor + 4_000, MAX_UNITS);
    let new_max = min64(mul_milli(health.max, 1_120), MAX_UNITS);
    proof {
        crate::units::lemma_scale_le_thousand(old(health).max as int, 1_120);
        assert(scale_milli(old(health).max as int, 1_120) >= old(health).max as int * 1_120 / 1000
            >= old(health).max as int) by {
            vstd::arithmetic::div_mod::lemma_div_multiples_vanish(old(health).max as int, 1000);
            vstd::arithmetic::mul::lemma_mul_inequality(1000, 1_120, old(health).max as int);
            vstd::arithmetic::div_mod::lemma_div_is_ordered(
                old(health).max as int * 1000,
                old(health).max as int * 1_120,
                1000,
            );
            assert(old(health).max as int * 1000 == 1000 * old(health).max as int);
        }
    }
    health.max = new_max;
    health.current = new_max;
    if *points < u32::MAX {
        *points = *points + 1;
    }
}

/// Attributes after one level: the fixed per-level growth applied.
pub open spec fn spec_leveled_stats(s: Stats) -> Stats {
    Stats {
        damage: cap_units(scale_milli(s.damage as int, 1_120)) as i64,
        speed: cap_units(scale_milli(s.speed as int, 1_020)) as i64,
        attack_speed: cap_units(scale_milli(s.attack_speed as int, 1_030)) as i64,
        crit_chance: (if s.crit_chance + 15 <= 500 {
            s.crit_chance + 15
        } else {
            500int
        }) as i64,
        crit_multiplier: s.crit_multiplier,
        life_regen: (if s.life_regen + 400 <= MAX_UNITS {
            s.life_regen + 400
        } else {
            MAX_UNITS as int
        }) as i64,
        armor: (if s.armor + 4_000 <= MAX_UNITS {
            s.armor + 4_000
        } else {
            MAX_UNITS as int
        }) as i64,
    }
}

} // verus!
