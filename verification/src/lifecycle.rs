//! Time-boxed transient attack instances.
//!
//! Projectiles, melee arcs and area effects carry a bounded lifetime and
//! a hit-memory set that keeps a single instance from damaging the same
//! target twice. Pierce lets a projectile pass through a fixed number of
//! additional targets; chain re-targets the nearest not-yet-hit enemy
//! within a search radius, consuming one charge, and is attempted before
//! the pierce-then-destroy fallback. Area effects re-evaluate their hit
//! set on a coarser tick, clearing the memory so targets can be re-hit
//! on later ticks.

use vstd::prelude::*;
use crate::geom::{MAX_COORD, dist_sq, in_range};
use crate::units::MAX_UNITS;

verus! {

/// How fast a projectile travels, in milli-units per second.
pub const PROJECTILE_SPEED: i64 = 550_000;

/// How long a projectile flies before despawning.
pub const PROJECTILE_LIFETIME_MS: i64 = 2_000;

/// The strike radius of a projectile.
pub const PROJECTILE_HIT_RADIUS: i64 = 65_000;

/// The strike radius of a melee arc.
pub const MELEE_HIT_RADIUS: i64 = 110_000;

/// How long a melee arc stays live.
pub const MELEE_DURATION_MS: i64 = 120;

/// How far a chain looks for its next target.
pub const CHAIN_SEARCH_RADIUS: i64 = 200_000;

/// What happens to a projectile after it strikes a target.
#[derive(Clone, Copy, Debug, PartialEq, Eq, Structural)]
pub enum ProjectileFate {
    Chained,
    Pierced,
    Destroyed,
}

/// A projectile in flight: damage, owner, pierce and chain budgets, and
/// the set of entities it has already struck.
pub struct Projectile {
    pub damage: i64,
    pub owner: u64,
    pub pierce: u32,
    pub chain_count: u32,
    pub hit_entities: Vec<u64>,
    pub is_crit: bool,
}

/// A well-formed projectile: bounded damage, no entity recorded twice.
pub open spec fn projectile_wf(p: Projectile) -> bool {
    &&& 0 <= p.damage <= MAX_UNITS
    &&& forall|i: int, j: int|
        0 <= i < j < p.hit_entities@.len() ==> p.hit_entities@[i] != p.hit_entities@[j]
}

impl Projectile {
    /// A fresh projectile that has hit nothing yet.
    pub fn new(damage: i64, owner: u64, pierce: u32, chain_count: u32, is_crit: bool) -> (r:
        Projectile)
        requires
            0 <= damage <= MAX_UNITS,
        ensures
            projectile_wf(r),
            r.damage == damage,
            r.owner == owner,
            r.pierce == pierce,
            r.chain_count == chain_count,
            r.is_crit == is_crit,
            r.hit_entities@ =~= Seq::<u64>::empty(),
    {
        Projectile { damage, owner, pierce, chain_count, hit_entities: Vec::new(), is_crit }
    }

    /// Whether this instance has already struck the entity.
    pub fn has_hit(&self, id: u64) -> (r: bool)
        ensures
            r == self.hit_entities@.contains(id),
    {
        contains_id(&self.hit_entities, id)
    }

    /// Settles one hit: the target joins the hit memory, then chain is
    /// attempted before pierce, and destruction is the last resort.
    /// With charges left and a chain target available, one chain charge
    /// is consumed; otherwise a pierce charge, if any, is consumed; with
    /// neither, the projectile is destroyed.
    pub fn on_hit(&mut self, target: u64, chain_target_available: bool) -> (fate: ProjectileFate)
        requires
            projectile_wf(*old(self)),
            !old(self).hit_entities@.contains(target),
        ensures
            projectile_wf(*final(self)),
            final(self).hit_entities@ == old(self).hit_entities@.push(target),
            final(self).damage == old(self).damage,
            final(self).owner == old(self).owner,
            final(self).is_crit == old(self).is_crit,
            fate == (if old(self).chain_count > 0 && chain_target_available {
                ProjectileFate::Chained
            } else if old(self).pierce > 0 {
                ProjectileFate::Pierced
            } else {
                ProjectileFate::Destroyed
            }),
            fate == ProjectileFate::Chained ==> final(self).chain_count == old(self).chain_count
                - 1 && final(self).pierce == old(self).pierce,
            fate == ProjectileFate::Pierced ==> final(self).pierce == old(self).pierce - 1 && final(self).chain_count == old(self).chain_count,
            fate == ProjectileFate::Destroyed ==> final(self).pierce == old(self).pierce && final(self).chain_count == old(self).chain_count,
    {
        let ghost pre = self.hit_entities@;
        self.hit_entities.push(target);
        proof {
            let post = self.hit_entities@;
            assert forall|a: int, b: int| 0 <= a < b < post.len() implies post[a] != post[b] by {
                if b < post.len() - 1 {
                    assert(pre[a] == post[a] && pre[b] == post[b]);
                } else {
                    assert(post[b] == target);
                    assert(pre.contains(pre[a]));
                }
            }
        }
        if self.chain_count > 0 && chain_target_available {
            self.chain_count = self.chain_count - 1;
            ProjectileFate::Chained
        } else if self.pierce > 0 {
            self.pierce = self.pierce - 1;
            ProjectileFate::Pierced
        } else {
            ProjectileFate::Destroyed
        }
    }
}

/// Whether a list of entity ids holds the given one.
fn contains_id(ids: &Vec<u64>, id: u64) -> (r: bool)
    ensures
        r == ids@.contains(id),
{
    let mut i: usize = 0;
    while i < ids.len()
        invariant
            i <= ids@.len(),
            forall|k: int| 0 <= k < i ==> ids@[k] != id,
        decreases ids@.len() - i,
    {
        if ids[i] == id {
            return true;
        }
        i = i + 1;
    }
    false
}

/// One candidate chain target: its entity id and position.
#[derive(Clone, Copy, Debug, PartialEq, Eq, Structural)]
pub struct TargetPos {
    pub id: u64,
    pub x: i64,
    pub y: i64,
}

/// Candidate coordinates the search accepts.
pub open spec fn targets_wf(ts: Seq<TargetPos>) -> bool {
    forall|i: int|
        0 <= i < ts.len() ==> -MAX_COORD <= #[trigger] ts[i].x <= MAX_COORD && -MAX_COORD
            <= ts[i].y <= MAX_COORD
}

/// Whether a candidate is eligible: not yet hit and strictly inside the
/// search radius around the origin.
pub open spec fn eligible(t: TargetPos, hit: Seq<u64>, ox: int, oy: int, radius: int) -> bool {
    !hit.contains(t.id) && dist_sq(t.x as int, t.y as int, ox, oy) < radius * radius
}

/// Finds the nearest not-yet-hit candidate within the search radius
/// around the origin: the result is eligible and no eligible candidate
/// lies strictly closer; none is returned exactly when no candidate is
/// eligible.
pub fn nearest_unhit(
    targets: &Vec<TargetPos>,
    hit: &Vec<u64>,
    ox: i64,
    oy: i64,
    radius: i64,
) -> (r: Option<usize>)
    requires
        targets_wf(targets@),
        -MAX_COORD <= ox <= MAX_COORD,
        -MAX_COORD <= oy <= MAX_COORD,
        0 <= radius <= MAX_COORD,
    ensures
        match r {
            Some(i) => {
                &&& i < targets@.len()
                &&& eligible(targets@[i as int], hit@, ox as int, oy as int, radius as int)
                &&& forall|j: int|
                    0 <= j < targets@.len() && eligible(
                        targets@[j],
                        hit@,
                        ox as int,
                        oy as int,
                        radius as int,
                    ) ==> dist_sq(
                        targets@[i as int].x as int,
                        targets@[i as int].y as int,
                        ox as int,
                        oy as int,
                    ) <= dist_sq(targets@[j].x as int, targets@[j].y as int, ox as int, oy as int)
            },
            None => forall|j: int|
                0 <= j < targets@.len() ==> !eligible(
                    targets@[j],
                    hit@,
                    ox as int,
                    oy as int,
                    radius as int,
                ),
        },
{
    let mut best: Option<usize> = None;
    let mut best_dist: i64 = 0;
    let mut i: usize = 0;
    while i < targets.len()
        invariant
            targets_wf(targets@),
            -MAX_COORD <= ox <= MAX_COORD,
            -MAX_COORD <= oy <= MAX_COORD,
            0 <= radius <= MAX_COORD,
            i <= targets@.len(),
            match best {
                Some(b) => {
                    &&& b < i
                    &&& eligible(targets@[b as int], hit@, ox as int, oy as int, radius as int)
                    &&& best_dist == dist_sq(
                        targets@[b as int].x as int,
                        targets@[b as int].y as int,
                        ox as int,
                        oy as int,
                    )
                    &&& forall|j: int|
                        0 <= j < i && eligible(
                            targets@[j],
                            hit@,
                            ox as int,
                            oy as int,
                            radius as int,
                        ) ==> best_dist <= dist_sq(
                            targets@[j].x as int,
                            targets@[j].y as int,
                            ox as int,
                            oy as int,
                        )
                },
                None => forall|j: int|
                    0 <= j < i ==> !eligible(targets@[j], hit@, ox as int, oy as int, radius as int),
            },
        decreases targets@.len() - i,
    {
        let t = targets[i];
        let within = in_range(t.x, t.y, ox, oy, radius);
        if within && !contains_id(hit, t.id) {
            let dx = t.x - ox;
            let dy = t.y - oy;
            proof {
                assert(dx * dx >= 0 && dy * dy >= 0 && dx * dx + dy * dy
                    <= 8_000_000_000_000_000_000) by (nonlinear_arith)
                    requires
                        -2_000_000_000 <= dx <= 2_000_000_000,
                        -2_000_000_000 <= dy <= 2_000_000_000,
                ;
            }
            let d = dx * dx + dy * dy;
            match best {
                None => {
                    best = Some(i);
                    best_dist = d;
                },
                Some(_) => {
                    if d < best_dist {
                        best = Some(i);
                        best_dist = d;
                    }
                },
            }
        }
        i = i + 1;
    }
    best
}

/// A melee arc: a short-lived sweep that strikes each target once.
pub struct MeleeAttack {
    pub damage: i64,
    pub owner: u64,
    pub remaining_ms: i64,
    pub hit_entities: Vec<u64>,
    pub is_crit: bool,
}

/// A well-formed melee arc: bounded damage and lifetime, no repeats.
pub open spec fn melee_wf(m: MeleeAttack) -> bool {
    &&& 0 <= m.damage <= MAX_UNITS
    &&& 0 <= m.remaining_ms <= MAX_UNITS
    &&& forall|i: int, j: int|
        0 <= i < j < m.hit_entities@.len() ==> m.hit_entities@[i] != m.hit_entities@[j]
}

impl MeleeAttack {
    /// A fresh arc with the given damage and duration.
    pub fn new(damage: i64, owner: u64, duration_ms: i64, is_crit: bool) -> (r: MeleeAttack)
        requires
            0 <= damage <= MAX_UNITS,
            0 <= duration_ms <= MAX_UNITS,
        ensures
            melee_wf(r),
            r.damage == damage,
            r.owner == owner,
            r.remaining_ms == duration_ms,
            r.is_crit == is_crit,
            r.hit_entities@ =~= Seq::<u64>::empty(),
    {
        MeleeAttack { damage, owner, remaining_ms: duration_ms, hit_entities: Vec::new(), is_crit }
    }

    /// Counts the arc's lifetime down; at zero it expires.
    pub fn tick(&mut self, delta_ms: i64) -> (expired: bool)
        requires
            melee_wf(*old(self)),
            0 <= delta_ms <= MAX_UNITS,
        ensures
            melee_wf(*final(self)),
            final(self).remaining_ms == if old(self).remaining_ms > delta_ms {
                old(self).remaining_ms - delta_ms
            } else {
                0
            },
            expired == (final(self).remaining_ms == 0),
            final(self).hit_entities@ == old(self).hit_entities@,
            final(self).damage == old(self).damage,
    {
        if self.remaining_ms > delta_ms {
            self.remaining_ms = self.remaining_ms - delta_ms;
            false
        } else {
            self.remaining_ms = 0;
            true
        }
    }

    /// Tries to strike a target in range: succeeds exactly once per
    /// target per arc, recording it in the hit memory.
    pub fn try_hit(&mut self, target: u64, in_arc: bool) -> (hit: bool)
        requires
            melee_wf(*old(self)),
        ensures
            melee_wf(*final(self)),
            hit == (in_arc && !old(self).hit_entities@.contains(target)),
            hit ==> final(self).hit_entities@ == old(self).hit_entities@.push(target),
            !hit ==> final(self).hit_entities@ == old(self).hit_entities@,
            final(self).damage == old(self).damage,
            final(self).remaining_ms == old(self).remaining_ms,
    {
        if in_arc && !contains_id(&self.hit_entities, target) {
            let ghost pre = self.hit_entities@;
            self.hit_entities.push(target);
            proof {
                let post = self.hit_entities@;
                assert forall|a: int, b: int| 0 <= a < b < post.len() implies post[a] != post[b] by {
                    if b < post.len() - 1 {
                        assert(pre[a] == post[a] && pre[b] == post[b]);
                    } else {
                        assert(pre.contains(pre[a]));
                    }
                }
            }
            true
        } else {
            false
        }
    }
}

/// An area effect: damage on a coarse tick, distinct from the visual
/// update; each tick clears the hit memory so the same targets can be
/// struck again on the next one.
pub struct AoeEffect {
    pub damage: i64,
    pub owner: u64,
    pub tick_remaining_ms: i64,
    pub tick_interval_ms: i64,
    pub duration_remaining_ms: i64,
    pub hit_this_tick: Vec<u64>,
}

/// A well-formed area effect: bounded damage and countdowns, a positive
/// re-hit interval, no repeats within a tick.
pub open spec fn aoe_wf(a: AoeEffect) -> bool {
    &&& 0 <= a.damage <= MAX_UNITS
    &&& 0 <= a.tick_remaining_ms <= MAX_UNITS
    &&& 0 < a.tick_interval_ms <= MAX_UNITS
    &&& 0 <= a.duration_remaining_ms <= MAX_UNITS
    &&& forall|i: int, j: int|
        0 <= i < j < a.hit_this_tick@.len() ==> a.hit_this_tick@[i] != a.hit_this_tick@[j]
}

/// What one area-effect step decides.
#[derive(Clone, Copy, Debug, PartialEq, Eq, Structural)]
pub struct AoeTick {
    pub expired: bool,
    pub new_tick: bool,
}

impl AoeEffect {
    /// A fresh area effect.
    pub fn new(damage: i64, owner: u64, tick_interval_ms: i64, duration_ms: i64) -> (r: AoeEffect)
        requires
            0 <= damage <= MAX_UNITS,
            0 < tick_interval_ms <= MAX_UNITS,
            0 <= duration_ms <= MAX_UNITS,
        ensures
            aoe_wf(r),
            r.damage == damage,
            r.owner == owner,
            r.tick_remaining_ms == tick_interval_ms,
            r.tick_interval_ms == tick_interval_ms,
            r.duration_remaining_ms == duration_ms,
            r.hit_this_tick@ =~= Seq::<u64>::empty(),
    {
        AoeEffect {
            damage,
            owner,
            tick_remaining_ms: tick_interval_ms,
            tick_interval_ms,
            duration_remaining_ms: duration_ms,
            hit_this_tick: Vec::new(),
        }
    }

    /// One simulation step: the overall duration counts down toward
    /// expiry, and when the coarser damage tick fires, the hit memory is
    /// cleared so targets can be struck again, and the tick rewinds.
    pub fn step(&mut self, delta_ms: i64) -> (r: AoeTick)
        requires
            aoe_wf(*old(self)),
            0 <= delta_ms <= MAX_UNITS,
        ensures
            aoe_wf(*final(self)),
            final(self).damage == old(self).damage,
            final(self).owner == old(self).owner,
            final(self).tick_interval_ms == old(self).tick_interval_ms,
            final(self).duration_remaining_ms == if old(self).duration_remaining_ms > delta_ms {
                old(self).duration_remaining_ms - delta_ms
            } else {
                0
            },
            r.expired == (final(self).duration_remaining_ms == 0),
            r.new_tick == (old(self).tick_remaining_ms > 0 && delta_ms >= old(self).tick_remaining_ms),
            r.new_tick ==> final(self).hit_this_tick@ =~= Seq::<u64>::empty() && final(self).tick_remaining_ms == old(self).tick_interval_ms,
            !r.new_tick ==> final(self).hit_this_tick@ == old(self).hit_this_tick@ && final(self).tick_remaining_ms == if old(self).tick_remaining_ms > delta_ms {
                old(self).tick_remaining_ms - delta_ms
            } else {
                0
            },
    {
        if self.duration_remaining_ms > delta_ms {
            self.duration_remaining_ms = self.duration_remaining_ms - delta_ms;
        } else {
            self.duration_remaining_ms = 0;
        }
        let expired = self.duration_remaining_ms == 0;
        if self.tick_remaining_ms > 0 && delta_ms >= self.tick_remaining_ms {
            self.hit_this_tick = Vec::new();
            self.tick_remaining_ms = self.tick_interval_ms;
            AoeTick { expired, new_tick: true }
        } else {
            if self.tick_remaining_ms > delta_ms {
                self.tick_remaining_ms = self.tick_remaining_ms - delta_ms;
            } else {
                self.tick_remaining_ms = 0;
            }
            AoeTick { expired, new_tick: false }
        }
    }

    /// Tries to strike a target inside the area this tick: at most once
    /// per target per tick.
    pub fn try_hit(&mut self, target: u64, in_area: bool) -> (hit: bool)
        requires
            aoe_wf(*old(self)),
        ensures
            aoe_wf(*final(self)),
            hit == (in_area && !old(self).hit_this_tick@.contains(target)),
            hit ==> final(self).hit_this_tick@ == old(self).hit_this_tick@.push(target),
            !hit ==> final(self).hit_this_tick@ == old(self).hit_this_tick@,
            final(self).damage == old(self).damage,
            final(self).duration_remaining_ms == old(self).duration_remaining_ms,
            final(self).tick_remaining_ms == old(self).tick_remaining_ms,
            final(self).tick_interval_ms == old(self).tick_interval_ms,
    {
        if in_area && !contains_id(&self.hit_this_tick, target) {
            let ghost pre = self.hit_this_tick@;
            self.hit_this_tick.push(target);
            proof {
                let post = self.hit_this_tick@;
                assert forall|a: int, b: int| 0 <= a < b < post.len() implies post[a] != post[b] by {
                    if b < post.len() - 1 {
                        assert(pre[a] == post[a] && pre[b] == post[b]);
                    } else {
                        assert(pre.contains(pre[a]));
                    }
                }
            }
            true
        } else {
            false
        }
    }
}

/// A plain bounded lifetime countdown for any transient entity.
#[derive(Clone, Copy, Debug, PartialEq, Eq, Structural)]
pub struct Lifetime {
    pub remaining_ms: i64,
}

impl Lifetime {
    /// A lifetime of the given length.
    pub fn new(duration_ms: i64) -> (r: Lifetime)
        requires
            0 <= duration_ms <= MAX_UNITS,
        ensures
            r.remaining_ms == duration_ms,
    {
        Lifetime { remaining_ms: duration_ms }
    }

    /// Counts the lifetime down; at zero the owner self-destructs.
    pub fn tick(&mut self, delta_ms: i64) -> (expired: bool)
        requires
            0 <= old(self).remaining_ms <= MAX_UNITS,
            0 <= delta_ms <= MAX_UNITS,
        ensures
            final(self).remaining_ms == if old(self).remaining_ms > delta_ms {
                old(self).remaining_ms - delta_ms
            } else {
                0
            },
            expired == (final(self).remaining_ms == 0),
    {
        if self.remaining_ms > delta_ms {
            self.remaining_ms = self.remaining_ms - delta_ms;
            false
        } else {
            self.remaining_ms = 0;
            true
        }
    }
}

} // verus!
