//! The spawn and difficulty-scaling director.
//!
//! Population is capped by `min(base + 2 * level, hard cap)`, doubled
//! during a horde wave; each step one uniform draw against a
//! time-growing probability decides whether to spawn. Enemy archetypes
//! scale linearly with the player's level, special spawns also with the
//! global difficulty tier. Progression events fire from a re-randomized
//! countdown; mini-boss and boss spawns run on their own timers, each
//! gated by a presence check so at most one boss-tier actor is alive.

use vstd::prelude::*;
use crate::units::{MAX_MULT, MAX_UNITS, min64, mul_milli, scale_milli};

verus! {

/// Base population cap before level scaling.
pub const MAX_ENEMIES_BASE: u32 = 8;

/// Hard population cap, before the horde multiplier.
pub const MAX_ENEMIES_CAP: u32 = 30;

/// Horde waves double the cap and the spawn probability.
pub const HORDE_SPAWN_MULTIPLIER_MILLI: i64 = 2000;

/// Seconds between boss spawns, in milliseconds.
pub const BOSS_SPAWN_INTERVAL_MS: i64 = 67_500;

/// Seconds between mini-boss spawns, in milliseconds.
pub const MINI_BOSS_SPAWN_INTERVAL_MS: i64 = 30_000;

/// Bounds of the re-randomized progression-event countdown.
pub const EVENT_MIN_INTERVAL_MS: i64 = 30_000;

/// Upper bound (exclusive) of the progression-event countdown.
pub const EVENT_MAX_INTERVAL_MS: i64 = 45_000;

/// How long a horde wave raises cap and spawn probability.
pub const HORDE_WAVE_DURATION_MS: i64 = 10_000;

/// The population cap this step: `min(8 + 2 * level, 30)`, doubled while
/// a horde wave is active.
pub open spec fn spec_population_cap(level: u32, horde: bool) -> int {
    let base: int = if 8 + 2 * level <= 30 {
        8 + 2 * level
    } else {
        30
    };
    if horde {
        2 * base
    } else {
        base
    }
}

/// The computed population cap.
pub fn population_cap(level: u32, horde: bool) -> (r: u32)
    ensures
        r == spec_population_cap(level, horde),
{
    let base: u32 = if level <= 11 {
        8 + 2 * level
    } else {
        30
    };
    let base = if base <= 30 {
        base
    } else {
        30
    };
    if horde {
        2 * base
    } else {
        base
    }
}

/// The per-step spawn probability in thousandths: a base chance growing
/// with cumulative survival time up to a ceiling, doubled during a horde
/// wave.
pub open spec fn spec_spawn_chance(survival_ms: int, horde: bool) -> int {
    let grown: int = if survival_ms / 200 <= 60 {
        survival_ms / 200
    } else {
        60
    };
    let base = 25 + grown;
    if horde {
        2 * base
    } else {
        base
    }
}

/// The spawn probability this step, in thousandths.
pub fn spawn_chance_milli(survival_ms: i64, horde: bool) -> (r: i64)
    requires
        0 <= survival_ms <= MAX_UNITS,
    ensures
        r == spec_spawn_chance(survival_ms as int, horde),
        25 <= r <= 170,
{
    let grown = min64(survival_ms / 200, 60);
    let base = 25 + grown;
    if horde {
        2 * base
    } else {
        base
    }
}

/// The memoryless spawn decision: spawn exactly when the population is
/// below the cap and the uniform draw falls under the spawn probability.
pub open spec fn spec_spawn_decision(
    live: u32,
    level: u32,
    horde: bool,
    survival_ms: int,
    draw: int,
) -> bool {
    live < spec_population_cap(level, horde) && draw < spec_spawn_chance(survival_ms, horde)
}

/// Decides one spawn from an externally made uniform draw in `0..1000`.
pub fn spawn_decision(live: u32, level: u32, horde: bool, survival_ms: i64, draw: u32) -> (r: bool)
    requires
        0 <= survival_ms <= MAX_UNITS,
        draw < 1000,
    ensures
        r == spec_spawn_decision(live, level, horde, survival_ms as int, draw as int),
        r ==> live + 1 <= spec_population_cap(level, horde),
{
    let cap = population_cap(level, horde);
    if live >= cap {
        return false;
    }
    let chance = spawn_chance_milli(survival_ms, horde);
    (draw as i64) < chance
}

/// Makes the draw and decides one spawn. Whatever the draw comes out to,
/// a spawn is only granted while the population is below the cap.
pub fn decide_spawn(
    live: u32,
    level: u32,
    horde: bool,
    survival_ms: i64,
    rng: &mut rand::rngs::StdRng,
) -> (r: bool)
    requires
        0 <= survival_ms <= MAX_UNITS,
    ensures
        r ==> live + 1 <= spec_population_cap(level, horde),
        live >= spec_population_cap(level, horde) ==> !r,
{
    let draw = crate::rng::draw_below(rng, 1000);
    spawn_decision(live, level, horde, survival_ms, draw)
}

/// Enemy population never exceeds the computed cap immediately after a
/// spawn decision in the same step: a granted spawn raises the live
/// count to at most the cap.
pub proof fn lemma_population_respects_cap(
    live: u32,
    level: u32,
    horde: bool,
    survival_ms: int,
    draw: int,
)
    requires
        spec_spawn_decision(live, level, horde, survival_ms, draw),
    ensures
        live + 1 <= spec_population_cap(level, horde),
{
}

/// The size class an enemy belongs to; it scales knockback.
#[derive(Clone, Copy, Debug, PartialEq, Eq, Structural)]
pub enum EnemySize {
    Small,
    Medium,
    Large,
    Boss,
}

/// Baseline numbers of one enemy archetype, before level scaling.
#[derive(Clone, Copy, Debug, PartialEq, Eq, Structural)]
pub struct EnemyArchetype {
    pub health: i64,
    pub damage: i64,
    pub xp: u64,
    pub speed: i64,
    pub size: EnemySize,
}

/// The archetype each uniform draw selects: a medium bruiser, a large
/// tank, or a small skirmisher.
pub open spec fn spec_enemy_archetype(kind: u32) -> EnemyArchetype {
    if kind == 0 {
        EnemyArchetype {
            health: 35_000,
            damage: 10_000,
            xp: 12,
            speed: 85_000,
            size: EnemySize::Medium,
        }
    } else if kind == 1 {
        EnemyArchetype {
            health: 70_000,
            damage: 15_000,
            xp: 30,
            speed: 60_000,
            size: EnemySize::Large,
        }
    } else {
        EnemyArchetype {
            health: 22_000,
            damage: 18_000,
            xp: 18,
            speed: 130_000,
            size: EnemySize::Small,
        }
    }
}

/// One of the enemy archetypes, selected uniformly at random upstream.
pub fn enemy_archetype(kind: u32) -> (r: EnemyArchetype)
    ensures
        r == spec_enemy_archetype(kind),
{
    if kind == 0 {
        EnemyArchetype {
            health: 35_000,
            damage: 10_000,
            xp: 12,
            speed: 85_000,
            size: EnemySize::Medium,
        }
    } else if kind == 1 {
        EnemyArchetype {
            health: 70_000,
            damage: 15_000,
            xp: 30,
            speed: 60_000,
            size: EnemySize::Large,
        }
    } else {
        EnemyArchetype {
            health: 22_000,
            damage: 18_000,
            xp: 18,
            speed: 130_000,
            size: EnemySize::Small,
        }
    }
}

/// Health grows by 25% of the baseline per level past the first.
pub open spec fn spec_health_scale(level: u32) -> int {
    cap_mult(1000 + (level - 1) * 250)
}

/// Damage grows by 15% of the baseline per level past the first.
pub open spec fn spec_damage_scale(level: u32) -> int {
    cap_mult(1000 + (level - 1) * 150)
}

/// A milli-multiplier clamped to the largest one the crate applies.
pub open spec fn cap_mult(m: int) -> int {
    if m <= MAX_MULT {
        m
    } else {
        MAX_MULT as int
    }
}

/// The level-scaling multiplier for enemy health, in thousandths.
pub fn health_scale_milli(level: u32) -> (r: i64)
    requires
        level >= 1,
    ensures
        r == spec_health_scale(level),
        1000 <= r <= MAX_MULT,
{
    min64(1000 + (level as i64 - 1) * 250, MAX_MULT)
}

/// The level-scaling multiplier for enemy damage, in thousandths.
pub fn damage_scale_milli(level: u32) -> (r: i64)
    requires
        level >= 1,
    ensures
        r == spec_damage_scale(level),
        1000 <= r <= MAX_MULT,
{
    min64(1000 + (level as i64 - 1) * 150, MAX_MULT)
}

/// What one ordinary spawn puts into the world: the drawn archetype with
/// health and damage scaled linearly by the player's level.
pub open spec fn spec_scaled_enemy(kind: u32, level: u32) -> EnemyArchetype {
    let a = spec_enemy_archetype(kind);
    EnemyArchetype {
        health: scale_milli(a.health as int, spec_health_scale(level)) as i64,
        damage: scale_milli(a.damage as int, spec_damage_scale(level)) as i64,
        ..a
    }
}

/// The enemy an ordinary spawn creates at this player level.
pub fn scaled_enemy(kind: u32, level: u32) -> (r: EnemyArchetype)
    requires
        level >= 1,
    ensures
        r == spec_scaled_enemy(kind, level),
        0 <= r.health <= MAX_UNITS,
        0 <= r.damage <= MAX_UNITS,
{
    let a = enemy_archetype(kind);
    let hs = health_scale_milli(level);
    let ds = damage_scale_milli(level);
    proof {
        scale_in_cap(a.health as int, hs as int);
        scale_in_cap(a.damage as int, ds as int);
    }
    EnemyArchetype { health: mul_milli(a.health, hs), damage: mul_milli(a.damage, ds), ..a }
}

/// Scaling a value of at most 10_000_000 milli by a capped multiplier
/// stays inside the numeric cap.
proof fn scale_in_cap(v: int, m: int)
    requires
        0 <= v <= 10_000_000,
        0 <= m <= MAX_MULT,
    ensures
        0 <= scale_milli(v, m) <= MAX_UNITS,
{
    vstd::arithmetic::mul::lemma_mul_nonnegative(v, m);
    vstd::arithmetic::mul::lemma_mul_upper_bound(v, 10_000_000, m, MAX_MULT as int);
    vstd::arithmetic::div_mod::lemma_div_is_ordered(v * m, 10_000_000 * MAX_MULT as int, 1000);
    vstd::arithmetic::div_mod::lemma_div_is_ordered(0, v * m, 1000);
    vstd::arithmetic::div_mod::lemma_div_of0(1000);
}

/// The tier-scaling multiplier special spawns use: the given step per
/// tier past the first, in thousandths. At tier zero the factor drops
/// below one, at tier one it is exactly one.
pub open spec fn spec_tier_scale(tier: u32, step: int) -> int {
    cap_mult(1000 + (tier - 1) * step)
}

/// The tier multiplier, for a per-tier step of at most 1000 milli.
pub fn tier_scale_milli(tier: u32, step: i64) -> (r: i64)
    requires
        0 <= step <= 1000,
    ensures
        r == spec_tier_scale(tier, step as int),
        0 <= r <= MAX_MULT,
{
    if tier == 0 {
        1000 - step
    } else {
        proof {
            assert(0 <= (tier as i64 - 1) * step <= 4_294_967_295_000) by (nonlinear_arith)
                requires
                    1 <= tier as i64 <= 4_294_967_295,
                    0 <= step <= 1000,
            ;
        }
        min64(1000 + (tier as i64 - 1) * step, MAX_MULT)
    }
}

} // verus!
