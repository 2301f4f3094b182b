//! The damage-resolution pipeline.
//!
//! A damage event resolves in a fixed order: an invulnerable target drops
//! it outright; otherwise the target's effective armor is computed (base
//! armor, scaled up by armor-boosting passives, scaled down by active
//! fire stacks), the raw amount is scaled by the attacker's cumulative
//! damage multiplier and reduced by the armor curve
//! `armor / (armor + 100)`, the result is absorbed by the shield first
//! and any remainder subtracts from health; leech then heals a player
//! attacker and elemental procs are rolled, one independent draw each.

use vstd::prelude::*;
use crate::actor::{Actor, actor_wf, spec_invulnerable};
use crate::modifiers::{ActiveModifiers, mods_wf};
use crate::stats::{Health, Shield, health_wf, mult_capped, shield_wf};
use crate::units::{MAX_MULT, MAX_UNITS, MILLI, min64, mul_milli, scale_milli};

verus! {

/// The armor curve's pivot: 100 armor (in milli-units) halves damage.
pub const ARMOR_PIVOT: i64 = 100_000;

/// Effective-armor reduction per active fire stack, in thousandths.
pub const FIRE_ARMOR_REDUCTION_PER_STACK: i64 = 50;

/// Largest total effective-armor reduction fire stacks can reach.
pub const FIRE_MAX_ARMOR_REDUCTION: i64 = 500;

/// The milli-factor fire stacks leave of the target's armor:
/// each stack removes 5%, capped at a 50% total reduction.
pub open spec fn spec_fire_armor_factor(stacks: u32) -> int {
    let red: int = if 50 * stacks <= 500 {
        50 * stacks
    } else {
        500
    };
    1000 - red
}

/// Effective armor: the base stat scaled up by the armor multiplier,
/// then scaled down by the fire-stack factor.
pub open spec fn spec_effective_armor(base: int, armor_mult: int, stacks: u32) -> int {
    scale_milli(mult_capped(base, armor_mult), spec_fire_armor_factor(stacks))
}

/// Mitigated damage: the raw amount times the attacker's multiplier,
/// reduced by the armor curve. With the reduction fraction
/// `armor / (armor + 100_000)`, what remains is
/// `amount * mult/1000 * 100_000/(armor + 100_000)`, written as one
/// flooring division.
pub open spec fn spec_mitigated(amount: int, mult: int, armor: int) -> int {
    (amount * mult * 100) / (armor + ARMOR_PIVOT as int)
}

/// Mitigated damage as applied, capped at the numeric limit.
pub open spec fn spec_applied(amount: int, mult: int, armor: int) -> int {
    if spec_mitigated(amount, mult, armor) <= MAX_UNITS {
        spec_mitigated(amount, mult, armor)
    } else {
        MAX_UNITS as int
    }
}

/// The shield left after absorbing a hit: never negative.
pub open spec fn spec_shield_after(shield: int, d: int) -> int {
    if shield - d >= 0 {
        shield - d
    } else {
        0
    }
}

/// The health loss left after the shield absorbed its share.
pub open spec fn spec_health_loss(shield: int, d: int) -> int {
    if d - shield >= 0 {
        d - shield
    } else {
        0
    }
}

/// Health after a loss, floored at the numeric limit so overkill cannot
/// underflow (any value at or below zero is equally terminal).
pub open spec fn spec_health_after(current: int, loss: int) -> int {
    if current - loss >= -MAX_UNITS {
        current - loss
    } else {
        -MAX_UNITS as int
    }
}

/// The fire stacks the pipeline reads off a target.
pub open spec fn spec_fire_stacks(a: Actor) -> u32 {
    match a.status {
        Some(st) => st.fire_stacks,
        None => 0,
    }
}

/// For every armor value at least zero, the damage-reduction fraction
/// `armor / (armor + 100)` lies in `[0, 1)` and is strictly increasing
/// in armor; the two fractions are compared by cross-multiplication.
pub proof fn lemma_reduction_fraction_properties(a1: int, a2: int)
    requires
        0 <= a1 < a2,
    ensures
        0 <= a1 < a1 + ARMOR_PIVOT as int,
        a1 * (a2 + ARMOR_PIVOT as int) < a2 * (a1 + ARMOR_PIVOT as int),
{
    assert(a1 * (a2 + ARMOR_PIVOT as int) < a2 * (a1 + ARMOR_PIVOT as int)) by (nonlinear_arith)
        requires
            0 <= a1 < a2,
    ;
}

/// Shield absorption is applied at most once per event and never drives
/// the shield negative: from shield `s` and mitigated damage `d`, the
/// shield reads `max(0, s - d)`, the extra health loss is
/// `max(0, d - s)`, and the absorbed share and the health loss together
/// account for the whole hit.
pub proof fn lemma_shield_absorption(s: int, d: int)
    requires
        0 <= s,
        0 <= d,
    ensures
        spec_shield_after(s, d) >= 0,
        spec_shield_after(s, d) == if s - d >= 0 {
            s - d
        } else {
            0
        },
        spec_health_loss(s, d) == if d - s >= 0 {
            d - s
        } else {
            0
        },
        (s - spec_shield_after(s, d)) + spec_health_loss(s, d) == d,
{
}

/// Raising the target's armor never raises the damage that gets through.
pub proof fn lemma_mitigation_antitone(amount: int, mult: int, a1: int, a2: int)
    requires
        0 <= amount,
        0 <= mult,
        0 <= a1 <= a2,
    ensures
        spec_mitigated(amount, mult, a2) <= spec_mitigated(amount, mult, a1),
{
    vstd::arithmetic::mul::lemma_mul_nonnegative(amount, mult);
    vstd::arithmetic::mul::lemma_mul_nonnegative(amount * mult, 100);
    vstd::arithmetic::div_mod::lemma_div_is_ordered_by_denominator(
        amount * mult * 100,
        a1 + ARMOR_PIVOT as int,
        a2 + ARMOR_PIVOT as int,
    );
}

/// The effective armor of a well-formed target.
pub fn effective_armor(base: i64, armor_mult: i64, stacks: u32) -> (r: i64)
    requires
        0 <= base <= MAX_UNITS,
        0 <= armor_mult <= MAX_MULT,
        stacks <= 10,
    ensures
        r == spec_effective_armor(base as int, armor_mult as int, stacks),
        0 <= r <= MAX_UNITS,
{
    let boosted = min64(mul_milli(base, armor_mult), MAX_UNITS);
    let red = min64(50 * (stacks as i64), 500);
    let factor = 1000 - red;
    let r = mul_milli(boosted, factor);
    proof {
        crate::units::lemma_scale_milli_bounds(boosted as int, factor as int);
        vstd::arithmetic::mul::lemma_mul_upper_bound(
            boosted as int,
            MAX_UNITS as int,
            factor as int,
            1000,
        );
        vstd::arithmetic::div_mod::lemma_div_is_ordered(
            boosted * factor,
            MAX_UNITS as int * 1000,
            1000,
        );
        assert(MAX_UNITS as int * 1000 / 1000 == MAX_UNITS as int);
    }
    r
}

/// Mitigated damage as applied: exact armor-curve arithmetic, capped at
/// the numeric limit.
pub fn mitigate(amount: i64, mult: i64, armor: i64) -> (r: i64)
    requires
        0 <= amount <= MAX_UNITS,
        0 <= mult <= MAX_MULT,
        0 <= armor <= MAX_UNITS,
    ensures
        r == spec_applied(amount as int, mult as int, armor as int),
        0 <= r <= MAX_UNITS,
{
    proof {
        vstd::arithmetic::mul::lemma_mul_nonnegative(amount as int, mult as int);
        vstd::arithmetic::mul::lemma_mul_upper_bound(
            amount as int,
            MAX_UNITS as int,
            mult as int,
            MAX_MULT as int,
        );
        vstd::arithmetic::mul::lemma_mul_nonnegative(amount as int * mult as int, 100);
    }
    let num: i128 = (amount as i128) * (mult as i128) * 100;
    let den: i128 = (armor as i128) + (ARMOR_PIVOT as i128);
    let q: i128 = num / den;
    proof {
        vstd::arithmetic::div_mod::lemma_div_is_ordered(0, num as int, den as int);
        vstd::arithmetic::div_mod::lemma_div_of0(den as int);
    }
    if q > (MAX_UNITS as i128) {
        MAX_UNITS
    } else {
        q as i64
    }
}

/// Shield absorption: the shield takes `min(shield, amount)` and never
/// goes negative; only the remainder reaches health. The health floor at
/// `-MAX_UNITS` is a machine guard only: any value at or below zero is
/// already terminal, and the floor is unreachable from non-negative
/// health since a single loss is itself capped at `MAX_UNITS`.
pub fn absorb_damage(shield: &mut Shield, health: &mut Health, amount: i64)
    requires
        shield_wf(*old(shield)),
        health_wf(*old(health)),
        0 <= amount <= MAX_UNITS,
    ensures
        shield_wf(*final(shield)),
        health_wf(*final(health)),
        final(shield).amount == spec_shield_after(old(shield).amount as int, amount as int),
        final(health).current == spec_health_after(
            old(health).current as int,
            spec_health_loss(old(shield).amount as int, amount as int),
        ),
        final(health).max == old(health).max,
{
    if shield.amount >= amount {
        shield.amount = shield.amount - amount;
    } else {
        let loss = amount - shield.amount;
        shield.amount = 0;
        health.current = health_minus(health.current, loss);
    }
}

/// Health minus a loss, floored at the numeric limit.
fn health_minus(current: i64, loss: i64) -> (r: i64)
    requires
        -MAX_UNITS <= current <= MAX_UNITS,
        0 <= loss <= MAX_UNITS,
    ensures
        r == spec_health_after(current as int, loss as int),
{
    if current - loss >= -MAX_UNITS {
        current - loss
    } else {
        -MAX_UNITS
    }
}

/// The target as one damage event leaves it: untouched while
/// invulnerable; otherwise shield and health take the mitigated hit.
pub open spec fn spec_resolved_actor(
    t: Actor,
    tm: ActiveModifiers,
    mult: int,
    amount: int,
) -> Actor {
    if spec_invulnerable(t) {
        t
    } else {
        let armor = spec_effective_armor(t.stats.armor as int, tm.armor_mult as int, spec_fire_stacks(t));
        let a = spec_applied(amount, mult, armor);
        let sb: int = match t.shield {
            Some(s) => s.amount as int,
            None => 0,
        };
        Actor {
            health: Health {
                current: spec_health_after(
                    t.health.current as int,
                    spec_health_loss(sb, a),
                ) as i64,
                max: t.health.max,
            },
            shield: match t.shield {
                Some(_) => Some(Shield { amount: spec_shield_after(sb, a) as i64 }),
                None => None,
            },
            ..t
        }
    }
}

/// The damage one event applies to the target: zero while invulnerable,
/// else the mitigated amount.
pub open spec fn spec_applied_to(t: Actor, tm: ActiveModifiers, mult: int, amount: int) -> int {
    if spec_invulnerable(t) {
        0
    } else {
        let armor = spec_effective_armor(t.stats.armor as int, tm.armor_mult as int, spec_fire_stacks(t));
        spec_applied(amount, mult, armor)
    }
}

/// Resolves one damage event against a target.
///
/// An invulnerable target drops the event with no effect. Otherwise the
/// applied damage is the raw amount scaled by the attacker's damage
/// multiplier and mitigated by the target's effective armor; the shield
/// absorbs first and the remainder subtracts from health. Stats, status,
/// the shield's presence and the invulnerability window are unchanged.
pub fn resolve_damage(
    target: &mut Actor,
    target_mods: &ActiveModifiers,
    attacker_mult: i64,
    amount: i64,
) -> (applied: i64)
    requires
        actor_wf(*old(target)),
        mods_wf(*target_mods),
        0 <= attacker_mult <= MAX_MULT,
        0 <= amount <= MAX_UNITS,
    ensures
        actor_wf(*final(target)),
        0 <= applied <= MAX_UNITS,
        *final(target) == spec_resolved_actor(
            *old(target),
            *target_mods,
            attacker_mult as int,
            amount as int,
        ),
        applied == spec_applied_to(*old(target), *target_mods, attacker_mult as int, amount as int),
        spec_invulnerable(*old(target)) ==> *final(target) == *old(target) && applied == 0,
        !spec_invulnerable(*old(target)) ==> {
            let armor = spec_effective_armor(
                old(target).stats.armor as int,
                target_mods.armor_mult as int,
                spec_fire_stacks(*old(target)),
            );
            let a = spec_applied(amount as int, attacker_mult as int, armor);
            let shield_before: int = match old(target).shield {
                Some(s) => s.amount as int,
                None => 0,
            };
            &&& applied == a
            &&& final(target).health.current == spec_health_after(
                old(target).health.current as int,
                spec_health_loss(shield_before, a),
            )
            &&& final(target).health.max == old(target).health.max
            &&& match (old(target).shield, final(target).shield) {
                (Some(_), Some(s1)) => s1.amount == spec_shield_after(shield_before, a),
                (None, None) => true,
                _ => false,
            }
            &&& final(target).stats == old(target).stats
            &&& final(target).status == old(target).status
            &&& final(target).invulnerable_ms == old(target).invulnerable_ms
        },
{
    if target.is_invulnerable() {
        return 0;
    }
    let stacks: u32 = match &target.status {
        Some(st) => st.fire_stacks,
        None => 0,
    };
    let armor = effective_armor(target.stats.armor, target_mods.armor_mult, stacks);
    let applied = mitigate(amount, attacker_mult, armor);
    match target.shield {
        Some(s) => {
            let mut sh = s;
            absorb_damage(&mut sh, &mut target.health, applied);
            target.shield = Some(sh);
        },
        None => {
            target.health.current = health_minus(target.health.current, applied);
        },
    }
    applied
}

/// Leech after a player-attributed hit: health rises by the life-leech
/// share of the applied damage, capped at full health; a present shield
/// rises by the shield-leech share, capped at half of maximum health.
pub fn apply_leech(
    health: &mut Health,
    shield: &mut Option<Shield>,
    mods: &ActiveModifiers,
    applied: i64,
)
    requires
        health_wf(*old(health)),
        match *old(shield) {
            Some(s) => shield_wf(s),
            None => true,
        },
        mods_wf(*mods),
        0 <= applied <= MAX_UNITS,
    ensures
        health_wf(*final(health)),
        final(health).max == old(health).max,
        final(health).current == spec_leeched_health(*old(health), *mods, applied as int),
        *final(shield) == spec_leeched_shield(*old(shield), old(health).max as int, *mods, applied as int),
        match *final(shield) {
            Some(s) => shield_wf(s),
            None => true,
        },
{
    proof {
        crate::units::lemma_scale_milli_bounds(applied as int, mods.life_leech as int);
        vstd::arithmetic::mul::lemma_mul_upper_bound(
            applied as int,
            MAX_UNITS as int,
            mods.life_leech as int,
            MILLI as int,
        );
        vstd::arithmetic::div_mod::lemma_div_is_ordered(
            applied as int * mods.life_leech as int,
            MAX_UNITS as int * MILLI as int,
            MILLI as int,
        );
    }
    let heal = mul_milli(applied, mods.life_leech);
    health.current = min64(health.current + heal, health.max);
    if mods.shield_leech > 0 {
        match shield {
            Some(s) => {
                proof {
                    crate::units::lemma_scale_milli_bounds(applied as int, mods.shield_leech as int);
                    vstd::arithmetic::mul::lemma_mul_upper_bound(
                        applied as int,
                        MAX_UNITS as int,
                        mods.shield_leech as int,
                        MILLI as int,
                    );
                    vstd::arithmetic::div_mod::lemma_div_is_ordered(
                        applied as int * mods.shield_leech as int,
                        MAX_UNITS as int * MILLI as int,
                        MILLI as int,
                    );
                }
                let gain = mul_milli(applied, mods.shield_leech);
                let cap = mul_milli(health.max, 500);
                s.amount = min64(s.amount + gain, cap);
            },
            None => {},
        }
    }
}

/// Health after leech: current plus the life-leech share, at most full.
pub open spec fn spec_leeched_health(h: Health, mods: ActiveModifiers, applied: int) -> int {
    let healed = h.current + scale_milli(applied, mods.life_leech as int);
    if healed <= h.max {
        healed
    } else {
        h.max as int
    }
}

/// Shield after leech: with a positive shield-leech fraction, a present
/// shield rises by its share of the applied damage, capped at half of
/// maximum health; otherwise it is untouched.
pub open spec fn spec_leeched_shield(
    sh: Option<Shield>,
    max_health: int,
    mods: ActiveModifiers,
    applied: int,
) -> Option<Shield> {
    match sh {
        Some(s) => if mods.shield_leech > 0 {
            let gained = s.amount + scale_milli(applied, mods.shield_leech as int);
            let cap = scale_milli(max_health, 500);
            Some(Shield { amount: (if gained <= cap { gained } else { cap }) as i64 })
        } else {
            Some(s)
        },
        None => None,
    }
}

/// Which elemental procs one hit triggers, given three independent draws.
#[derive(Clone, Copy, Debug, PartialEq, Eq, Structural)]
pub struct ProcRoll {
    pub fire: bool,
    pub ice: bool,
    pub lightning: bool,
}

/// The deterministic core of proc rolling: a proc fires exactly when its
/// draw falls below the milli-chance.
pub fn procs_from_draws(mods: &ActiveModifiers, d_fire: i64, d_ice: i64, d_lightning: i64) -> (r:
    ProcRoll)
    requires
        mods_wf(*mods),
        0 <= d_fire < MILLI,
        0 <= d_ice < MILLI,
        0 <= d_lightning < MILLI,
    ensures
        r.fire == (d_fire < mods.fire_chance),
        r.ice == (d_ice < mods.ice_chance),
        r.lightning == (d_lightning < mods.lightning_chance),
{
    ProcRoll {
        fire: d_fire < mods.fire_chance,
        ice: d_ice < mods.ice_chance,
        lightning: d_lightning < mods.lightning_chance,
    }
}

/// Rolls the attacker's elemental procs, one independent uniform draw
/// per element. Whatever the draws come out to: an element with no
/// chance never procs, and a certain chance always does.
pub fn roll_procs(mods: &ActiveModifiers, rng: &mut rand::rngs::StdRng) -> (r: ProcRoll)
    requires
        mods_wf(*mods),
    ensures
        r.fire ==> mods.fire_chance > 0,
        r.ice ==> mods.ice_chance > 0,
        r.lightning ==> mods.lightning_chance > 0,
        mods.fire_chance == MILLI ==> r.fire,
        mods.ice_chance == MILLI ==> r.ice,
        mods.lightning_chance == MILLI ==> r.lightning,
{
    let d_fire = crate::rng::draw_below(rng, 1000) as i64;
    let d_ice = crate::rng::draw_below(rng, 1000) as i64;
    let d_lightning = crate::rng::draw_below(rng, 1000) as i64;
    procs_from_draws(mods, d_fire, d_ice, d_lightning)
}

} // verus!
