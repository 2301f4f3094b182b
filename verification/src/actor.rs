//! The combat-relevant state of one simulated entity.

use vstd::prelude::*;
use crate::elemental::{ElementalStatus, status_wf};
use crate::stats::{Health, Shield, Stats, health_wf, shield_wf, stats_wf};

verus! {

/// One actor as the damage pipeline sees it: health, an optional
/// damage-absorbing shield, attributes, a time-boxed invulnerability
/// window and an optional elemental status.
pub struct Actor {
    pub health: Health,
    pub shield: Option<Shield>,
    pub stats: Stats,
    pub invulnerable_ms: i64,
    pub status: Option<ElementalStatus>,
}

/// Well-formedness of an actor: each part well-formed, the
/// invulnerability countdown never negative.
pub open spec fn actor_wf(a: Actor) -> bool {
    &&& health_wf(a.health)
    &&& match a.shield {
        Some(s) => shield_wf(s),
        None => true,
    }
    &&& stats_wf(a.stats)
    &&& a.invulnerable_ms >= 0
    &&& match a.status {
        Some(st) => status_wf(st),
        None => true,
    }
}

/// Whether the actor currently drops incoming damage events.
pub open spec fn spec_invulnerable(a: Actor) -> bool {
    a.invulnerable_ms > 0
}

impl Actor {
    /// A plain actor: full health, no shield, no status, vulnerable.
    pub fn new(max_health: i64, stats: Stats) -> (r: Actor)
        requires
            0 < max_health <= crate::units::MAX_UNITS,
            stats_wf(stats),
        ensures
            actor_wf(r),
            r.health.current == max_health,
            r.health.max == max_health,
            r.shield is None,
            r.stats == stats,
            r.invulnerable_ms == 0,
            r.status is None,
    {
        Actor {
            health: Health::new_full(max_health),
            shield: None,
            stats,
            invulnerable_ms: 0,
            status: None,
        }
    }

    /// Whether incoming damage is currently dropped.
    pub fn is_invulnerable(&self) -> (r: bool)
        ensures
            r == spec_invulnerable(*self),
    {
        self.invulnerable_ms > 0
    }

    /// Grants an invulnerability window of the given length.
    pub fn grant_invulnerability(&mut self, duration_ms: i64)
        requires
            actor_wf(*old(self)),
            duration_ms >= 0,
        ensures
            actor_wf(*final(self)),
            *final(self) == (Actor { invulnerable_ms: duration_ms, ..*old(self) }),
    {
        self.invulnerable_ms = duration_ms;
    }

    /// Counts the invulnerability window down by one step; cancelling
    /// early is expressed by a full-length tick.
    pub fn tick_invulnerability(&mut self, delta_ms: i64)
        requires
            actor_wf(*old(self)),
            delta_ms >= 0,
        ensures
            actor_wf(*final(self)),
            final(self).invulnerable_ms == if old(self).invulnerable_ms >= delta_ms {
                old(self).invulnerable_ms - delta_ms
            } else {
                0
            },
            final(self).health == old(self).health,
            final(self).shield == old(self).shield,
            final(self).stats == old(self).stats,
            final(self).status == old(self).status,
    {
        if self.invulnerable_ms >= delta_ms {
            self.invulnerable_ms = self.invulnerable_ms - delta_ms;
        } else {
            self.invulnerable_ms = 0;
        }
    }
}

} // verus!
