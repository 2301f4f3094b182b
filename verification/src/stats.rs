//! Per-actor numeric attributes, health, shield and experience levels.
//!
//! All values are milli-units (see `units`). Stat deltas are added
//! elementwise, clamped to `MAX_UNITS` so a well-formed record stays
//! well-formed under any sequence of bonuses; multiplier effects are not
//! folded in here but stack into the derived modifier record the damage
//! pipeline reads.

use vstd::prelude::*;
use crate::units::{MAX_MULT, MAX_UNITS, scale_milli};

verus! {

/// Per-actor attributes, each in milli-units.
#[derive(Clone, Copy, Debug, PartialEq, Eq, Structural)]
pub struct Stats {
    pub speed: i64,
    pub damage: i64,
    pub attack_speed: i64,
    pub crit_chance: i64,
    pub crit_multiplier: i64,
    pub life_regen: i64,
    pub armor: i64,
}

/// A well-formed stat record keeps every attribute inside the numeric cap.
pub open spec fn stats_wf(s: Stats) -> bool {
    &&& 0 <= s.speed <= MAX_UNITS
    &&& 0 <= s.damage <= MAX_UNITS
    &&& 0 <= s.attack_speed <= MAX_UNITS
    &&& 0 <= s.crit_chance <= MAX_UNITS
    &&& 0 <= s.crit_multiplier <= MAX_UNITS
    &&& 0 <= s.life_regen <= MAX_UNITS
    &&& 0 <= s.armor <= MAX_UNITS
}

/// Adding a delta to one attribute, clamped to the cap.
pub open spec fn add_capped(v: int, d: int) -> int {
    if v + d <= MAX_UNITS {
        v + d
    } else {
        MAX_UNITS as int
    }
}

/// Scaling one attribute by a milli-multiplier, clamped to the cap.
pub open spec fn mult_capped(v: int, m: int) -> int {
    if scale_milli(v, m) <= MAX_UNITS {
        scale_milli(v, m)
    } else {
        MAX_UNITS as int
    }
}

/// The record after adding a delta record elementwise, clamped.
pub open spec fn stats_plus(s: Stats, d: Stats) -> Stats {
    Stats {
        speed: add_capped(s.speed as int, d.speed as int) as i64,
        damage: add_capped(s.damage as int, d.damage as int) as i64,
        attack_speed: add_capped(s.attack_speed as int, d.attack_speed as int) as i64,
        crit_chance: add_capped(s.crit_chance as int, d.crit_chance as int) as i64,
        crit_multiplier: add_capped(s.crit_multiplier as int, d.crit_multiplier as int) as i64,
        life_regen: add_capped(s.life_regen as int, d.life_regen as int) as i64,
        armor: add_capped(s.armor as int, d.armor as int) as i64,
    }
}

impl Stats {
    /// The record with every attribute zero.
    pub fn zero() -> (r: Stats)
        ensures
            r == (Stats {
                speed: 0,
                damage: 0,
                attack_speed: 0,
                crit_chance: 0,
                crit_multiplier: 0,
                life_regen: 0,
                armor: 0,
            }),
    {
        Stats {
            speed: 0,
            damage: 0,
            attack_speed: 0,
            crit_chance: 0,
            crit_multiplier: 0,
            life_regen: 0,
            armor: 0,
        }
    }

    /// Adds a bonus record elementwise, each attribute clamped to the cap.
    pub fn add(&mut self, d: &Stats)
        requires
            stats_wf(*old(self)),
            stats_wf(*d),
        ensures
            stats_wf(*final(self)),
            *final(self) == stats_plus(*old(self), *d),
    {
        self.speed = add_field(self.speed, d.speed);
        self.damage = add_field(self.damage, d.damage);
        self.attack_speed = add_field(self.attack_speed, d.attack_speed);
        self.crit_chance = add_field(self.crit_chance, d.crit_chance);
        self.crit_multiplier = add_field(self.crit_multiplier, d.crit_multiplier);
        self.life_regen = add_field(self.life_regen, d.life_regen);
        self.armor = add_field(self.armor, d.armor);
    }
}

/// A record used as elementwise multipliers: every factor in 0..=MAX_MULT.
pub open spec fn mult_record_wf(m: Stats) -> bool {
    &&& 0 <= m.speed <= MAX_MULT
    &&& 0 <= m.damage <= MAX_MULT
    &&& 0 <= m.attack_speed <= MAX_MULT
    &&& 0 <= m.crit_chance <= MAX_MULT
    &&& 0 <= m.crit_multiplier <= MAX_MULT
    &&& 0 <= m.life_regen <= MAX_MULT
    &&& 0 <= m.armor <= MAX_MULT
}

fn add_field(v: i64, d: i64) -> (r: i64)
    requires
        0 <= v <= MAX_UNITS,
        0 <= d <= MAX_UNITS,
    ensures
        r == add_capped(v as int, d as int),
        0 <= r <= MAX_UNITS,
{
    if v + d <= MAX_UNITS {
        v + d
    } else {
        MAX_UNITS
    }
}

impl Default for Stats {
    /// The baseline player attributes before any class or passive bonus.
    fn default() -> (r: Stats)
        ensures
            r == (Stats {
                speed: 200_000,
                damage: 25_000,
                attack_speed: 1_000,
                crit_chance: 100,
                crit_multiplier: 2_000,
                life_regen: 2_000,
                armor: 0,
            }),
    {
        Stats {
            speed: 200_000,
            damage: 25_000,
            attack_speed: 1_000,
            crit_chance: 100,
            crit_multiplier: 2_000,
            life_regen: 2_000,
            armor: 0,
        }
    }
}

/// Current and maximum hit points in milli-units. `current` may go
/// negative; a non-positive value is the death condition.
#[derive(Clone, Copy, Debug, PartialEq, Eq, Structural)]
pub struct Health {
    pub current: i64,
    pub max: i64,
}

/// A well-formed health record: positive maximum inside the cap, current
/// never above the maximum (it may be negative after lethal damage).
pub open spec fn health_wf(h: Health) -> bool {
    &&& 0 < h.max <= MAX_UNITS
    &&& h.current <= h.max
    &&& -MAX_UNITS <= h.current
}

impl Health {
    /// A full health pool of the given maximum.
    pub fn new_full(max: i64) -> (r: Health)
        requires
            0 < max <= MAX_UNITS,
        ensures
            r.current == max,
            r.max == max,
            health_wf(r),
    {
        Health { current: max, max }
    }

    /// Whether the owner is dead: health has reached zero or below.
    pub fn is_dead(&self) -> (r: bool)
        ensures
            r == (self.current <= 0),
    {
        self.current <= 0
    }
}

/// A damage-absorbing pool in milli-units, never negative.
#[derive(Clone, Copy, Debug, PartialEq, Eq, Structural)]
pub struct Shield {
    pub amount: i64,
}

/// A well-formed shield holds a non-negative amount inside the cap.
pub open spec fn shield_wf(s: Shield) -> bool {
    0 <= s.amount <= MAX_UNITS
}

} // verus!
