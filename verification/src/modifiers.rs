//! The derived record of active modifiers.
//!
//! Several routines (damage pipeline, death handling, regen) consume
//! behavioral flags and percentages granted by unlocked passive nodes.
//! Instead of re-scanning the unlocked id list at every use, the record
//! below is recomputed once whenever the unlocked set changes and is then
//! read by field access everywhere else.

use vstd::prelude::*;
use crate::passives::{
    PassiveEffect, PassiveTree, PlayerPassives, node_at, node_index, tree_contains, tree_wf,
    lemma_node_index_unique,
};
use crate::units::{MAX_MULT, MAX_UNITS, MILLI, min64, mul_milli};

verus! {

/// Everything the pipeline and regen routines read of an actor's
/// unlocked passives: flags, milli-probabilities, milli-fractions and
/// cumulative milli-multipliers.
#[derive(Clone, Copy, Debug, PartialEq, Eq, Structural)]
pub struct ActiveModifiers {
    pub knockback: bool,
    pub explosion: bool,
    pub ricochet: bool,
    pub fire_chance: i64,
    pub ice_chance: i64,
    pub lightning_chance: i64,
    pub mastery_fire: bool,
    pub mastery_ice: bool,
    pub mastery_lightning: bool,
    pub damage_mult: i64,
    pub armor_mult: i64,
    pub life_leech: i64,
    pub shield_leech: i64,
    pub shield_regen: i64,
}

/// Bounds every derived record obeys: probabilities and leech fractions
/// stay inside one whole (1000 milli), multipliers inside `MAX_MULT`.
pub open spec fn mods_wf(m: ActiveModifiers) -> bool {
    &&& 0 <= m.fire_chance <= MILLI
    &&& 0 <= m.ice_chance <= MILLI
    &&& 0 <= m.lightning_chance <= MILLI
    &&& 0 <= m.damage_mult <= MAX_MULT
    &&& 0 <= m.armor_mult <= MAX_MULT
    &&& 0 <= m.life_leech <= MILLI
    &&& 0 <= m.shield_leech <= MILLI
    &&& 0 <= m.shield_regen <= MAX_UNITS
}

/// The record of an actor with nothing unlocked: no flags, no chances,
/// neutral multipliers.
pub open spec fn spec_neutral_mods() -> ActiveModifiers {
    ActiveModifiers {
        knockback: false,
        explosion: false,
        ricochet: false,
        fire_chance: 0,
        ice_chance: 0,
        lightning_chance: 0,
        mastery_fire: false,
        mastery_ice: false,
        mastery_lightning: false,
        damage_mult: MILLI,
        armor_mult: MILLI,
        life_leech: 0,
        shield_leech: 0,
        shield_regen: 0,
    }
}

/// A sum of milli-fractions, saturated at one whole.
pub open spec fn frac_plus(a: int, b: int) -> int {
    if a + b <= MILLI {
        a + b
    } else {
        MILLI as int
    }
}

/// A product of milli-multipliers, saturated at `MAX_MULT`.
pub open spec fn mult_times(a: int, b: int) -> int {
    if (a * b) / (MILLI as int) <= MAX_MULT {
        (a * b) / (MILLI as int)
    } else {
        MAX_MULT as int
    }
}

/// A sum of milli-unit rates, saturated at `MAX_UNITS`.
pub open spec fn rate_plus(a: int, b: int) -> int {
    if a + b <= MAX_UNITS {
        a + b
    } else {
        MAX_UNITS as int
    }
}

/// The record after folding in one more unlocked effect.
///
/// Behavioral effects set their flag; proc chances and leech fractions
/// accumulate additively (saturated at one whole); stat multipliers stack
/// multiplicatively into the cumulative damage and armor multipliers;
/// stat additions contribute nothing here (they fold into `Stats` at
/// unlock time instead).
pub open spec fn mods_plus_effect(m: ActiveModifiers, e: PassiveEffect) -> ActiveModifiers {
    match e {
        PassiveEffect::StatAdd(_) => m,
        PassiveEffect::StatMult(s) => ActiveModifiers {
            damage_mult: mult_times(m.damage_mult as int, s.damage as int) as i64,
            armor_mult: mult_times(m.armor_mult as int, s.armor as int) as i64,
            ..m
        },
        PassiveEffect::Ricochet => ActiveModifiers { ricochet: true, ..m },
        PassiveEffect::Explosion => ActiveModifiers { explosion: true, ..m },
        PassiveEffect::Knockback => ActiveModifiers { knockback: true, ..m },
        PassiveEffect::ChanceFire(c) => ActiveModifiers {
            fire_chance: frac_plus(m.fire_chance as int, c as int) as i64,
            ..m
        },
        PassiveEffect::ChanceIce(c) => ActiveModifiers {
            ice_chance: frac_plus(m.ice_chance as int, c as int) as i64,
            ..m
        },
        PassiveEffect::ChanceLightning(c) => ActiveModifiers {
            lightning_chance: frac_plus(m.lightning_chance as int, c as int) as i64,
            ..m
        },
        PassiveEffect::MasteryFire => ActiveModifiers { mastery_fire: true, ..m },
        PassiveEffect::MasteryIce => ActiveModifiers { mastery_ice: true, ..m },
        PassiveEffect::MasteryLightning => ActiveModifiers { mastery_lightning: true, ..m },
        PassiveEffect::ShieldRegen(r) => ActiveModifiers {
            shield_regen: rate_plus(m.shield_regen as int, r as int) as i64,
            ..m
        },
        PassiveEffect::LifeLeech(l) => ActiveModifiers {
            life_leech: frac_plus(m.life_leech as int, l as int) as i64,
            ..m
        },
        PassiveEffect::ShieldLeech(l) => ActiveModifiers {
            shield_leech: frac_plus(m.shield_leech as int, l as int) as i64,
            ..m
        },
    }
}

/// The record derived from the first `n` unlocked ids. Ids that name no
/// node of the tree contribute nothing.
pub open spec fn mods_of_prefix(t: PassiveTree, ids: Seq<u32>, n: int) -> ActiveModifiers
    decreases n,
{
    if n <= 0 {
        spec_neutral_mods()
    } else {
        let prev = mods_of_prefix(t, ids, n - 1);
        if tree_contains(t, ids[n - 1]) {
            mods_plus_effect(prev, node_at(t, ids[n - 1]).effect)
        } else {
            prev
        }
    }
}

/// The record derived from the whole unlocked set.
pub open spec fn spec_active_mods(t: PassiveTree, p: PlayerPassives) -> ActiveModifiers {
    mods_of_prefix(t, p.unlocked_nodes@, p.unlocked_nodes@.len() as int)
}

/// The neutral record, for actors without passives.
pub fn neutral_mods() -> (r: ActiveModifiers)
    ensures
        r == spec_neutral_mods(),
        mods_wf(r),
{
    ActiveModifiers {
        knockback: false,
        explosion: false,
        ricochet: false,
        fire_chance: 0,
        ice_chance: 0,
        lightning_chance: 0,
        mastery_fire: false,
        mastery_ice: false,
        mastery_lightning: false,
        damage_mult: MILLI,
        armor_mult: MILLI,
        life_leech: 0,
        shield_leech: 0,
        shield_regen: 0,
    }
}

/// Recomputes the active-modifier record from the unlocked set.
pub fn derive_modifiers(tree: &PassiveTree, p: &PlayerPassives) -> (r: ActiveModifiers)
    requires
        tree_wf(*tree),
    ensures
        r == spec_active_mods(*tree, *p),
        mods_wf(r),
{
    let ids = &p.unlocked_nodes;
    let mut m = neutral_mods();
    let mut i: usize = 0;
    while i < ids.len()
        invariant
            tree_wf(*tree),
            ids == &p.unlocked_nodes,
            i <= ids@.len(),
            m == mods_of_prefix(*tree, ids@, i as int),
            mods_wf(m),
        decreases ids@.len() - i,
    {
        match tree.find_node(ids[i]) {
            None => {},
            Some(j) => {
                proof {
                    assert(tree_contains(*tree, ids@[i as int]));
                    lemma_node_index_unique(*tree, j as int, ids@[i as int]);
                    assert(crate::passives::effect_wf(tree.nodes@[j as int].effect));
                }
                m = apply_effect_to_mods(m, &tree.nodes[j].effect);
            },
        }
        i = i + 1;
    }
    m
}

/// Folds one effect into the record, exactly as `mods_plus_effect` says.
fn apply_effect_to_mods(m: ActiveModifiers, e: &PassiveEffect) -> (r: ActiveModifiers)
    requires
        mods_wf(m),
        crate::passives::effect_wf(*e),
    ensures
        r == mods_plus_effect(m, *e),
        mods_wf(r),
{
    let mut r = m;
    match e {
        PassiveEffect::StatAdd(_) => {},
        PassiveEffect::StatMult(s) => {
            r.damage_mult = min64(mul_milli(m.damage_mult, s.damage), MAX_MULT);
            r.armor_mult = min64(mul_milli(m.armor_mult, s.armor), MAX_MULT);
        },
        PassiveEffect::Ricochet => {
            r.ricochet = true;
        },
        PassiveEffect::Explosion => {
            r.explosion = true;
        },
        PassiveEffect::Knockback => {
            r.knockback = true;
        },
        PassiveEffect::ChanceFire(c) => {
            r.fire_chance = min64(m.fire_chance + *c, MILLI);
        },
        PassiveEffect::ChanceIce(c) => {
            r.ice_chance = min64(m.ice_chance + *c, MILLI);
        },
        PassiveEffect::ChanceLightning(c) => {
            r.lightning_chance = min64(m.lightning_chance + *c, MILLI);
        },
        PassiveEffect::MasteryFire => {
            r.mastery_fire = true;
        },
        PassiveEffect::MasteryIce => {
            r.mastery_ice = true;
        },
        PassiveEffect::MasteryLightning => {
            r.mastery_lightning = true;
        },
        PassiveEffect::ShieldRegen(rate) => {
            r.shield_regen = min64(m.shield_regen + *rate, MAX_UNITS);
        },
        PassiveEffect::LifeLeech(l) => {
            r.life_leech = min64(m.life_leech + *l, MILLI);
        },
        PassiveEffect::ShieldLeech(l) => {
            r.shield_leech = min64(m.shield_leech + *l, MILLI);
        },
    }
    r
}

} // verus!
