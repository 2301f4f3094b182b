//! The shared simulation context and the per-step event drain.
//!
//! Cumulative survival time, the live population count and the global
//! difficulty tier each have exactly one writer routine per step; reader
//! routines run afterward and take the fields as plain values. The
//! damage queue is drained fully once per step, strictly in arrival
//! order, so shield depletion from an earlier event is visible to a
//! later event against the same target within the same step; events
//! addressed to a missing target are dropped silently.

use vstd::prelude::*;
use crate::actor::{Actor, actor_wf, spec_invulnerable};
use crate::damage::{
    ProcRoll, apply_leech, resolve_damage, roll_procs, spec_applied_to, spec_leeched_health,
    spec_leeched_shield, spec_resolved_actor,
};
use crate::events::DamageEvent;
use crate::lifecycle::AoeEffect;
use crate::modifiers::{ActiveModifiers, mods_wf};
use crate::units::{MAX_UNITS, MILLI, cap_units, min64};

verus! {

/// The explicit simulation context: one writer per field per step,
/// readers ordered after it.
#[derive(Clone, Copy, Debug, PartialEq, Eq, Structural)]
pub struct SimContext {
    pub survival_time_ms: i64,
    pub live_enemies: u32,
    pub tier: u32,
    pub damage_dealt: i64,
    pub enemies_killed: u64,
}

/// A well-formed context keeps its accumulators inside the caps.
pub open spec fn ctx_wf(c: SimContext) -> bool {
    &&& 0 <= c.survival_time_ms <= MAX_UNITS
    &&& 0 <= c.damage_dealt <= MAX_UNITS
}

impl SimContext {
    /// The context of a fresh run.
    pub fn new() -> (r: SimContext)
        ensures
            r == (SimContext {
                survival_time_ms: 0,
                live_enemies: 0,
                tier: 0,
                damage_dealt: 0,
                enemies_killed: 0,
            }),
            ctx_wf(r),
    {
        SimContext { survival_time_ms: 0, live_enemies: 0, tier: 0, damage_dealt: 0, enemies_killed: 0 }
    }

    /// The one survival-time writer: adds this step's elapsed time,
    /// saturating at the cap.
    pub fn advance_time(&mut self, delta_ms: i64)
        requires
            ctx_wf(*old(self)),
            0 <= delta_ms <= MAX_UNITS,
        ensures
            ctx_wf(*final(self)),
            final(self).survival_time_ms == cap_units(old(self).survival_time_ms + delta_ms),
            *final(self) == (SimContext {
                survival_time_ms: final(self).survival_time_ms,
                ..*old(self)
            }),
    {
        self.survival_time_ms = min64(self.survival_time_ms + delta_ms, MAX_UNITS);
    }

    /// The one population writer: records the count tallied this step,
    /// before the spawn director consults it.
    pub fn set_live_enemies(&mut self, n: u32)
        requires
            ctx_wf(*old(self)),
        ensures
            ctx_wf(*final(self)),
            *final(self) == (SimContext { live_enemies: n, ..*old(self) }),
    {
        self.live_enemies = n;
    }

    /// Accounts damage the pipeline applied, saturating at the cap.
    pub fn record_damage(&mut self, applied: i64)
        requires
            ctx_wf(*old(self)),
            0 <= applied <= MAX_UNITS,
        ensures
            ctx_wf(*final(self)),
            final(self).damage_dealt == cap_units(old(self).damage_dealt + applied),
            *final(self) == (SimContext { damage_dealt: final(self).damage_dealt, ..*old(self) }),
    {
        self.damage_dealt = min64(self.damage_dealt + applied, MAX_UNITS);
    }

    /// Accounts this step's kills, saturating at the machine limit.
    pub fn record_kills(&mut self, kills: u32)
        requires
            ctx_wf(*old(self)),
        ensures
            ctx_wf(*final(self)),
            final(self).enemies_killed == if old(self).enemies_killed + kills <= u64::MAX {
                old(self).enemies_killed + kills
            } else {
                u64::MAX as int
            },
            *final(self) == (SimContext { enemies_killed: final(self).enemies_killed, ..*old(self) }),
    {
        self.enemies_killed = if kills as u64 <= u64::MAX - self.enemies_killed {
            self.enemies_killed + kills as u64
        } else {
            u64::MAX
        };
    }

    /// The one tier writer: a boss defeat raises the global difficulty
    /// tier consumed by subsequent scaling, saturating at the limit.
    pub fn on_boss_defeated(&mut self)
        requires
            ctx_wf(*old(self)),
        ensures
            ctx_wf(*final(self)),
            final(self).tier == if old(self).tier < u32::MAX {
                old(self).tier + 1
            } else {
                u32::MAX as int
            },
            *final(self) == (SimContext { tier: final(self).tier, ..*old(self) }),
    {
        if self.tier < u32::MAX {
            self.tier = self.tier + 1;
        }
    }
}

/// The target and running total after the first `n` queued events, in
/// arrival order: an event aimed at the target is resolved against the
/// state the previous events left (shield depletion included), one
/// aimed elsewhere is dropped silently. Events from the given player
/// carry the player's damage multiplier, others a neutral one.
pub open spec fn spec_drained(
    t: Actor,
    tm: ActiveModifiers,
    pm: ActiveModifiers,
    player_id: u64,
    target_id: u64,
    events: Seq<DamageEvent>,
    n: int,
) -> (Actor, int)
    decreases n,
{
    if n <= 0 {
        (t, 0)
    } else {
        let (prev, total) = spec_drained(t, tm, pm, player_id, target_id, events, n - 1);
        let e = events[n - 1];
        if e.target == target_id {
            let mult: int = if e.attacker == Some(player_id) {
                pm.damage_mult as int
            } else {
                MILLI as int
            };
            let applied = spec_applied_to(prev, tm, mult, e.amount as int);
            (
                spec_resolved_actor(prev, tm, mult, e.amount as int),
                cap_units(total + applied),
            )
        } else {
            (prev, total)
        }
    }
}

/// Drains one step's damage queue against one target, strictly in
/// arrival order; returns the total damage applied to it (saturating).
/// Events addressed to any other id are dropped without side effects.
pub fn drain_damage_events(
    target: &mut Actor,
    target_mods: &ActiveModifiers,
    player_mods: &ActiveModifiers,
    player_id: u64,
    target_id: u64,
    events: &Vec<DamageEvent>,
) -> (total: i64)
    requires
        actor_wf(*old(target)),
        mods_wf(*target_mods),
        mods_wf(*player_mods),
        forall|i: int| 0 <= i < events@.len() ==> 0 <= #[trigger] events@[i].amount <= MAX_UNITS,
    ensures
        actor_wf(*final(target)),
        (*final(target), total as int) == spec_drained(
            *old(target),
            *target_mods,
            *player_mods,
            player_id,
            target_id,
            events@,
            events@.len() as int,
        ),
        0 <= total <= MAX_UNITS,
{
    let mut total: i64 = 0;
    let mut i: usize = 0;
    while i < events.len()
        invariant
            actor_wf(*target),
            mods_wf(*target_mods),
            mods_wf(*player_mods),
            forall|k: int| 0 <= k < events@.len() ==> 0 <= #[trigger] events@[k].amount <= MAX_UNITS,
            i <= events@.len(),
            0 <= total <= MAX_UNITS,
            (*target, total as int) == spec_drained(
                *old(target),
                *target_mods,
                *player_mods,
                player_id,
                target_id,
                events@,
                i as int,
            ),
        decreases events@.len() - i,
    {
        let e = events[i];
        if e.target == target_id {
            let mult: i64 = match e.attacker {
                Some(a) => if a == player_id {
                    player_mods.damage_mult
                } else {
                    MILLI
                },
                None => MILLI,
            };
            let applied = resolve_damage(target, target_mods, mult, e.amount);
            total = min64(total + applied, MAX_UNITS);
        }
        i = i + 1;
    }
    total
}

/// Everything one player-attributed hit decides.
#[derive(Clone, Copy, Debug, PartialEq, Eq, Structural)]
pub struct DamageOutcome {
    pub applied: i64,
    pub knockback: bool,
    pub procs: ProcRoll,
    pub target_died: bool,
}

/// Resolves one player hit against an enemy, start to finish. An
/// invulnerable target drops the event with no side effects at all: no
/// damage, no leech, no procs, no knockback request. Otherwise the
/// pipeline mitigates and applies the damage; if any got through, the
/// player leeches life and shield from it; elemental procs are rolled,
/// one independent draw per element; knockback is requested exactly
/// when the player's knockback modifier is active.
pub fn player_hit_enemy(
    target: &mut Actor,
    target_mods: &ActiveModifiers,
    player: &mut Actor,
    player_mods: &ActiveModifiers,
    amount: i64,
    rng: &mut rand::rngs::StdRng,
) -> (r: DamageOutcome)
    requires
        actor_wf(*old(target)),
        actor_wf(*old(player)),
        mods_wf(*target_mods),
        mods_wf(*player_mods),
        0 <= amount <= MAX_UNITS,
    ensures
        actor_wf(*final(target)),
        actor_wf(*final(player)),
        *final(target) == spec_resolved_actor(
            *old(target),
            *target_mods,
            player_mods.damage_mult as int,
            amount as int,
        ),
        r.applied == spec_applied_to(
            *old(target),
            *target_mods,
            player_mods.damage_mult as int,
            amount as int,
        ),
        r.applied > 0 ==> final(player).health.current == spec_leeched_health(
            old(player).health,
            *player_mods,
            r.applied as int,
        ) && final(player).shield == spec_leeched_shield(
            old(player).shield,
            old(player).health.max as int,
            *player_mods,
            r.applied as int,
        ),
        r.applied == 0 ==> *final(player) == *old(player),
        final(player).health.max == old(player).health.max,
        final(player).stats == old(player).stats,
        r.knockback == (player_mods.knockback && !spec_invulnerable(*old(target))),
        spec_invulnerable(*old(target)) ==> !r.procs.fire && !r.procs.ice && !r.procs.lightning
            && *final(target) == *old(target) && *final(player) == *old(player),
        r.procs.fire ==> player_mods.fire_chance > 0,
        r.procs.ice ==> player_mods.ice_chance > 0,
        r.procs.lightning ==> player_mods.lightning_chance > 0,
        r.target_died == (final(target).health.current <= 0),
{
    if target.is_invulnerable() {
        return DamageOutcome {
            applied: 0,
            knockback: false,
            procs: ProcRoll { fire: false, ice: false, lightning: false },
            target_died: target.health.current <= 0,
        };
    }
    let applied = resolve_damage(target, target_mods, player_mods.damage_mult, amount);
    if applied > 0 {
        apply_leech(&mut player.health, &mut player.shield, player_mods, applied);
    }
    let procs = roll_procs(player_mods, rng);
    let target_died = target.health.current <= 0;
    DamageOutcome { applied, knockback: player_mods.knockback, procs, target_died }
}

/// The corpse explosion an enemy death leaves when the attacker has the
/// explosion modifier: a short one-tick area burst.
pub fn explosion_on_death(mods: &ActiveModifiers, owner: u64) -> (r: Option<AoeEffect>)
    requires
        mods_wf(*mods),
    ensures
        match r {
            Some(a) => {
                &&& mods.explosion
                &&& a.damage == 40_000
                &&& a.owner == owner
                &&& a.tick_interval_ms == 10
                &&& a.duration_remaining_ms == 100
                &&& crate::lifecycle::aoe_wf(a)
            },
            None => !mods.explosion,
        },
{
    if mods.explosion {
        Some(AoeEffect::new(40_000, owner, 10, 100))
    } else {
        None
    }
}

} // verus!
