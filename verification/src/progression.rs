//! Progression events, their timers, and the boss gating rules.
//!
//! An independently re-randomized countdown selects uniformly among five
//! event kinds. Mini-boss and boss spawns run on separate timers; each is
//! gated by a presence check against living boss-tier actors, so at most
//! one is alive at a time. Special spawns scale with the global
//! difficulty tier, which rises by one on every boss defeat.

use vstd::prelude::*;
use crate::director::{EnemyArchetype, EnemySize, spec_health_scale, spec_damage_scale,
    spec_tier_scale, health_scale_milli, damage_scale_milli, tier_scale_milli,
    BOSS_SPAWN_INTERVAL_MS, EVENT_MIN_INTERVAL_MS, EVENT_MAX_INTERVAL_MS,
    HORDE_WAVE_DURATION_MS};
use crate::units::{MAX_UNITS, lemma_scale_le_thousand, min64, mul_milli, scale_milli};

verus! {

/// The five ordinary progression events.
#[derive(Clone, Copy, Debug, PartialEq, Eq, Structural)]
pub enum ProgressionEventType {
    EliteSpawn,
    HordeWave,
    TreasureGoblin,
    Shrine,
    ChallengeZone,
}

/// The event each uniform draw in `0..5` selects.
pub open spec fn spec_event_of_draw(draw: u32) -> ProgressionEventType {
    if draw == 0 {
        ProgressionEventType::EliteSpawn
    } else if draw == 1 {
        ProgressionEventType::HordeWave
    } else if draw == 2 {
        ProgressionEventType::TreasureGoblin
    } else if draw == 3 {
        ProgressionEventType::Shrine
    } else {
        ProgressionEventType::ChallengeZone
    }
}

/// Selects the event a uniform draw picked.
pub fn select_progression_event(draw: u32) -> (r: ProgressionEventType)
    requires
        draw < 5,
    ensures
        r == spec_event_of_draw(draw),
{
    if draw == 0 {
        ProgressionEventType::EliteSpawn
    } else if draw == 1 {
        ProgressionEventType::HordeWave
    } else if draw == 2 {
        ProgressionEventType::TreasureGoblin
    } else if draw == 3 {
        ProgressionEventType::Shrine
    } else {
        ProgressionEventType::ChallengeZone
    }
}

/// Draws the next event countdown, a fresh random interval inside the
/// configured bounds.
pub fn roll_event_interval(rng: &mut rand::rngs::StdRng) -> (r: i64)
    ensures
        EVENT_MIN_INTERVAL_MS <= r < EVENT_MAX_INTERVAL_MS,
{
    crate::rng::draw_in_range(rng, EVENT_MIN_INTERVAL_MS, EVENT_MAX_INTERVAL_MS)
}

/// A one-shot countdown decremented once per step.
#[derive(Clone, Copy, Debug, PartialEq, Eq, Structural)]
pub struct CountdownTimer {
    pub remaining_ms: i64,
}

/// A countdown never goes negative.
pub open spec fn timer_wf(t: CountdownTimer) -> bool {
    0 <= t.remaining_ms <= MAX_UNITS
}

impl CountdownTimer {
    /// A countdown of the given length.
    pub fn new(duration_ms: i64) -> (r: CountdownTimer)
        requires
            0 <= duration_ms <= MAX_UNITS,
        ensures
            r.remaining_ms == duration_ms,
            timer_wf(r),
    {
        CountdownTimer { remaining_ms: duration_ms }
    }

    /// Whether the countdown has run out.
    pub fn finished(&self) -> (r: bool)
        ensures
            r == (self.remaining_ms == 0),
    {
        self.remaining_ms == 0
    }

    /// Counts down by one step; fires on the step that crosses zero.
    pub fn tick(&mut self, delta_ms: i64) -> (fired: bool)
        requires
            timer_wf(*old(self)),
            0 <= delta_ms <= MAX_UNITS,
        ensures
            timer_wf(*final(self)),
            fired == (old(self).remaining_ms > 0 && delta_ms >= old(self).remaining_ms),
            final(self).remaining_ms == if old(self).remaining_ms > delta_ms {
                old(self).remaining_ms - delta_ms
            } else {
                0
            },
    {
        if self.remaining_ms > delta_ms {
            self.remaining_ms = self.remaining_ms - delta_ms;
            false
        } else {
            let fired = self.remaining_ms > 0;
            self.remaining_ms = 0;
            fired
        }
    }

    /// Counts a repeating timer down; on firing it rewinds to the given
    /// interval.
    pub fn tick_repeating(&mut self, delta_ms: i64, interval_ms: i64) -> (fired: bool)
        requires
            timer_wf(*old(self)),
            0 <= delta_ms <= MAX_UNITS,
            0 <= interval_ms <= MAX_UNITS,
        ensures
            timer_wf(*final(self)),
            fired == (old(self).remaining_ms > 0 && delta_ms >= old(self).remaining_ms),
            final(self).remaining_ms == if old(self).remaining_ms > delta_ms {
                old(self).remaining_ms - delta_ms
            } else if old(self).remaining_ms > 0 {
                interval_ms as int
            } else {
                0
            },
    {
        if self.remaining_ms > delta_ms {
            self.remaining_ms = self.remaining_ms - delta_ms;
            false
        } else if self.remaining_ms > 0 {
            self.remaining_ms = interval_ms;
            true
        } else {
            false
        }
    }
}

/// The temporary horde-wave state: while its countdown runs, spawn cap
/// and spawn probability are raised; when it runs out they revert.
#[derive(Clone, Copy, Debug, PartialEq, Eq, Structural)]
pub struct HordeWave {
    pub remaining_ms: i64,
}

/// The horde countdown never goes negative.
pub open spec fn horde_wf(h: HordeWave) -> bool {
    0 <= h.remaining_ms <= MAX_UNITS
}

impl HordeWave {
    /// No horde wave running.
    pub fn inactive() -> (r: HordeWave)
        ensures
            r.remaining_ms == 0,
            horde_wf(r),
    {
        HordeWave { remaining_ms: 0 }
    }

    /// Whether a horde wave is currently raising cap and probability.
    pub fn is_active(&self) -> (r: bool)
        ensures
            r == (self.remaining_ms > 0),
    {
        self.remaining_ms > 0
    }

    /// Starts a horde wave for the fixed duration.
    pub fn start(&mut self)
        ensures
            final(self).remaining_ms == HORDE_WAVE_DURATION_MS,
            horde_wf(*final(self)),
    {
        self.remaining_ms = HORDE_WAVE_DURATION_MS;
    }

    /// Counts the wave down; at zero the raised cap and probability
    /// revert on their own.
    pub fn tick(&mut self, delta_ms: i64)
        requires
            horde_wf(*old(self)),
            0 <= delta_ms <= MAX_UNITS,
        ensures
            horde_wf(*final(self)),
            final(self).remaining_ms == if old(self).remaining_ms > delta_ms {
                old(self).remaining_ms - delta_ms
            } else {
                0
            },
    {
        if self.remaining_ms > delta_ms {
            self.remaining_ms = self.remaining_ms - delta_ms;
        } else {
            self.remaining_ms = 0;
        }
    }
}

/// Whether the fixed boss interval was crossed during this step: the
/// cumulative survival time passed a multiple of the interval, and the
/// run is older than a tenth of a second.
pub open spec fn spec_boss_interval_crossed(survival_ms: int, delta_ms: int) -> bool {
    &&& survival_ms > 100
    &&& survival_ms / (BOSS_SPAWN_INTERVAL_MS as int) > (survival_ms - delta_ms) / (
    BOSS_SPAWN_INTERVAL_MS as int)
}

/// The gated boss-spawn decision: the interval must have been crossed
/// this step, and no boss and no boss entrance may be live. The presence
/// checks guarantee at most one boss-tier actor at a time.
pub open spec fn spec_boss_spawn_decision(
    survival_ms: int,
    delta_ms: int,
    boss_alive: bool,
    entrance_active: bool,
) -> bool {
    spec_boss_interval_crossed(survival_ms, delta_ms) && !boss_alive && !entrance_active
}

/// Decides a boss spawn this step.
pub fn boss_spawn_decision(
    survival_ms: i64,
    delta_ms: i64,
    boss_alive: bool,
    entrance_active: bool,
) -> (r: bool)
    requires
        0 <= delta_ms <= survival_ms <= MAX_UNITS,
    ensures
        r == spec_boss_spawn_decision(
            survival_ms as int,
            delta_ms as int,
            boss_alive,
            entrance_active,
        ),
        boss_alive ==> !r,
{
    if boss_alive || entrance_active {
        return false;
    }
    survival_ms > 100 && survival_ms / BOSS_SPAWN_INTERVAL_MS > (survival_ms - delta_ms)
        / BOSS_SPAWN_INTERVAL_MS
}

/// The gated mini-boss decision: its repeating timer fired and no
/// boss-tier actor is alive.
pub open spec fn spec_mini_boss_decision(
    timer_fired: bool,
    mini_boss_alive: bool,
    boss_alive: bool,
) -> bool {
    timer_fired && !mini_boss_alive && !boss_alive
}

/// Decides a mini-boss spawn this step.
pub fn mini_boss_decision(timer_fired: bool, mini_boss_alive: bool, boss_alive: bool) -> (r: bool)
    ensures
        r == spec_mini_boss_decision(timer_fired, mini_boss_alive, boss_alive),
        mini_boss_alive || boss_alive ==> !r,
{
    timer_fired && !mini_boss_alive && !boss_alive
}

/// With a boss-tier actor already present, a spawn trigger firing in the
/// same step creates no second one: both gated decisions refuse.
pub proof fn lemma_boss_singleton(
    survival_ms: int,
    delta_ms: int,
    timer_fired: bool,
    boss_alive: bool,
    mini_boss_alive: bool,
    entrance_active: bool,
)
    requires
        boss_alive,
    ensures
        !spec_boss_spawn_decision(survival_ms, delta_ms, boss_alive, entrance_active),
        !spec_mini_boss_decision(timer_fired, mini_boss_alive, boss_alive),
{
}

/// The elite archetype: triple-health bruiser scaled by tier and level,
/// with a following aura.
pub open spec fn spec_elite_spawn(tier: u32, level: u32) -> EnemyArchetype {
    EnemyArchetype {
        health: scale_milli(
            scale_milli(300_000, spec_tier_scale(tier, 300)),
            spec_health_scale(level),
        ) as i64,
        damage: scale_milli(
            scale_milli(20_000, spec_tier_scale(tier, 300)),
            spec_damage_scale(level),
        ) as i64,
        xp: 150,
        speed: 70_000,
        size: EnemySize::Medium,
    }
}

/// What an elite spawn puts into the world.
pub fn elite_spawn(tier: u32, level: u32) -> (r: EnemyArchetype)
    requires
        level >= 1,
    ensures
        r == spec_elite_spawn(tier, level),
        0 <= r.health <= MAX_UNITS,
        0 <= r.damage <= MAX_UNITS,
{
    let ts = tier_scale_milli(tier, 300);
    let hs = health_scale_milli(level);
    let ds = damage_scale_milli(level);
    proof {
        lemma_scale_le_thousand(300_000, ts as int);
        lemma_scale_le_thousand(scale_milli(300_000, ts as int), hs as int);
        lemma_scale_le_thousand(20_000, ts as int);
        lemma_scale_le_thousand(scale_milli(20_000, ts as int), ds as int);
    }
    EnemyArchetype {
        health: mul_milli(mul_milli(300_000, ts), hs),
        damage: mul_milli(mul_milli(20_000, ts), ds),
        xp: 150,
        speed: 70_000,
        size: EnemySize::Medium,
    }
}

/// The radius of the elite's damage aura, in milli-units.
pub const ELITE_AURA_RADIUS: i64 = 100_000;

/// The treasure goblin: harmless, fast, rich, and short-lived.
pub open spec fn spec_goblin_spawn(level: u32) -> EnemyArchetype {
    EnemyArchetype {
        health: scale_milli(50_000, spec_health_scale(level)) as i64,
        damage: 0,
        xp: 300,
        speed: 280_000,
        size: EnemySize::Small,
    }
}

/// What a treasure-goblin spawn puts into the world.
pub fn goblin_spawn(level: u32) -> (r: EnemyArchetype)
    requires
        level >= 1,
    ensures
        r == spec_goblin_spawn(level),
        0 <= r.health <= MAX_UNITS,
{
    let hs = health_scale_milli(level);
    proof {
        lemma_scale_le_thousand(50_000, hs as int);
    }
    EnemyArchetype {
        health: mul_milli(50_000, hs),
        damage: 0,
        xp: 300,
        speed: 280_000,
        size: EnemySize::Small,
    }
}

/// How long a treasure goblin lives before vanishing with its reward.
pub const TREASURE_GOBLIN_LIFETIME_MS: i64 = 5_000;

/// At the end of its lifetime the goblin self-destructs into five equal
/// reward drops; killed earlier it drops its full value through the
/// ordinary death path.
pub fn goblin_timeout_reward(xp: u64) -> (r: (u64, u64))
    ensures
        r.0 == 5,
        r.1 == xp / 5,
{
    (5, xp / 5)
}

/// The mini-boss: a tier- and level-scaled heavyweight.
pub open spec fn spec_mini_boss_spawn(tier: u32, level: u32) -> EnemyArchetype {
    EnemyArchetype {
        health: crate::units::cap_units(
            scale_milli(
                scale_milli(2_000_000, spec_tier_scale(tier, 400)),
                spec_health_scale(level),
            ),
        ) as i64,
        damage: scale_milli(
            scale_milli(40_000, spec_tier_scale(tier, 400)),
            spec_damage_scale(level),
        ) as i64,
        xp: ((300 * (tier as int)) as u64),
        speed: (100_000 + 5_000 * (tier as i64)) as i64,
        size: EnemySize::Boss,
    }
}

/// What a mini-boss spawn puts into the world.
pub fn mini_boss_spawn(tier: u32, level: u32) -> (r: EnemyArchetype)
    requires
        level >= 1,
    ensures
        r == spec_mini_boss_spawn(tier, level),
        0 <= r.health <= MAX_UNITS,
        0 <= r.damage <= MAX_UNITS,
{
    let ts = tier_scale_milli(tier, 400);
    let hs = health_scale_milli(level);
    let ds = damage_scale_milli(level);
    proof {
        lemma_scale_le_thousand(2_000_000, ts as int);
        lemma_scale_le_thousand(scale_milli(2_000_000, ts as int), hs as int);
        lemma_scale_le_thousand(40_000, ts as int);
        lemma_scale_le_thousand(scale_milli(40_000, ts as int), ds as int);
    }
    EnemyArchetype {
        health: min64(mul_milli(mul_milli(2_000_000, ts), hs), MAX_UNITS),
        damage: mul_milli(mul_milli(40_000, ts), ds),
        xp: 300 * (tier as u64),
        speed: 100_000 + 5_000 * (tier as i64),
        size: EnemySize::Boss,
    }
}

/// The boss: tier-scaled only, entering through the two-phase sequence.
pub open spec fn spec_boss_spawn(tier: u32) -> EnemyArchetype {
    EnemyArchetype {
        health: scale_milli(8_000_000, spec_tier_scale(tier, 500)) as i64,
        damage: scale_milli(80_000, spec_tier_scale(tier, 500)) as i64,
        xp: ((1000 * (tier as int)) as u64),
        speed: (140_000 + 8_000 * (tier as i64)) as i64,
        size: EnemySize::Boss,
    }
}

/// What a full boss spawn puts into the world.
pub fn boss_spawn(tier: u32) -> (r: EnemyArchetype)
    ensures
        r == spec_boss_spawn(tier),
        0 <= r.health <= MAX_UNITS,
        0 <= r.damage <= MAX_UNITS,
{
    let ts = tier_scale_milli(tier, 500);
    proof {
        lemma_scale_le_thousand(8_000_000, ts as int);
        lemma_scale_le_thousand(80_000, ts as int);
    }
    EnemyArchetype {
        health: mul_milli(8_000_000, ts),
        damage: mul_milli(80_000, ts),
        xp: 1000 * (tier as u64),
        speed: 140_000 + 8_000 * (tier as i64),
        size: EnemySize::Boss,
    }
}

/// On defeat the boss bursts into twenty equal reward drops.
pub fn boss_death_reward(xp: u64) -> (r: (u64, u64))
    ensures
        r.0 == 20,
        r.1 == xp / 20,
{
    (20, xp / 20)
}

/// The two-phase boss entrance: the screen darkens over the first half
/// of the sequence, fades back over the second while the boss activates,
/// and combat begins when the sequence completes.
#[derive(Clone, Copy, Debug, PartialEq, Eq, Structural)]
pub enum BossEntrancePhase {
    Darkening,
    Spawning,
    Complete,
}

/// The boss-entrance sequence as elapsed time against a fixed duration.
#[derive(Clone, Copy, Debug, PartialEq, Eq, Structural)]
pub struct BossEntrance {
    pub elapsed_ms: i64,
    pub duration_ms: i64,
}

/// A well-formed entrance: positive duration, elapsed within it.
pub open spec fn entrance_wf(e: BossEntrance) -> bool {
    0 < e.duration_ms <= MAX_UNITS && 0 <= e.elapsed_ms <= e.duration_ms
}

/// The phase an entrance is in: darkening through the first half,
/// spawning through the second, complete at the end.
pub open spec fn spec_entrance_phase(e: BossEntrance) -> BossEntrancePhase {
    if e.elapsed_ms >= e.duration_ms {
        BossEntrancePhase::Complete
    } else if 2 * e.elapsed_ms > e.duration_ms {
        BossEntrancePhase::Spawning
    } else {
        BossEntrancePhase::Darkening
    }
}

/// How long the full entrance sequence runs.
pub const BOSS_ENTRANCE_DURATION_MS: i64 = 1_500;

impl BossEntrance {
    /// A fresh entrance sequence of the standard length.
    pub fn start() -> (r: BossEntrance)
        ensures
            entrance_wf(r),
            r.elapsed_ms == 0,
            r.duration_ms == BOSS_ENTRANCE_DURATION_MS,
    {
        BossEntrance { elapsed_ms: 0, duration_ms: BOSS_ENTRANCE_DURATION_MS }
    }

    /// Advances the sequence and reports its phase.
    pub fn tick(&mut self, delta_ms: i64) -> (phase: BossEntrancePhase)
        requires
            entrance_wf(*old(self)),
            0 <= delta_ms <= MAX_UNITS,
        ensures
            entrance_wf(*final(self)),
            final(self).duration_ms == old(self).duration_ms,
            final(self).elapsed_ms == if old(self).elapsed_ms + delta_ms <= old(self).duration_ms {
                old(self).elapsed_ms + delta_ms
            } else {
                old(self).duration_ms as int
            },
            phase == spec_entrance_phase(*final(self)),
    {
        if self.elapsed_ms + delta_ms <= self.duration_ms {
            self.elapsed_ms = self.elapsed_ms + delta_ms;
        } else {
            self.elapsed_ms = self.duration_ms;
        }
        if self.elapsed_ms >= self.duration_ms {
            BossEntrancePhase::Complete
        } else if 2 * self.elapsed_ms > self.duration_ms {
            BossEntrancePhase::Spawning
        } else {
            BossEntrancePhase::Darkening
        }
    }
}

/// The four buffs a shrine can grant.
#[derive(Clone, Copy, Debug, PartialEq, Eq, Structural)]
pub enum ShrineType {
    Damage,
    Speed,
    Defense,
    CritChance,
}

/// The shrine type each uniform draw in `0..4` selects.
pub open spec fn spec_shrine_of_draw(draw: u32) -> ShrineType {
    if draw == 0 {
        ShrineType::Damage
    } else if draw == 1 {
        ShrineType::Speed
    } else if draw == 2 {
        ShrineType::Defense
    } else {
        ShrineType::CritChance
    }
}

/// Selects the shrine type a uniform draw picked.
pub fn shrine_type_from_draw(draw: u32) -> (r: ShrineType)
    requires
        draw < 4,
    ensures
        r == spec_shrine_of_draw(draw),
{
    if draw == 0 {
        ShrineType::Damage
    } else if draw == 1 {
        ShrineType::Speed
    } else if draw == 2 {
        ShrineType::Defense
    } else {
        ShrineType::CritChance
    }
}

/// A stationary shrine: the first overlap consumes it.
#[derive(Clone, Copy, Debug, PartialEq, Eq, Structural)]
pub struct Shrine {
    pub buff_type: ShrineType,
    pub used: bool,
}

/// How long a shrine's buff lasts once granted.
pub const SHRINE_BUFF_DURATION_MS: i64 = 30_000;

impl Shrine {
    /// A fresh, unconsumed shrine.
    pub fn new(buff_type: ShrineType) -> (r: Shrine)
        ensures
            r.buff_type == buff_type,
            !r.used,
    {
        Shrine { buff_type, used: false }
    }

    /// One player overlap check: the first overlap within pickup range
    /// grants the buff and marks the shrine consumed; every further
    /// overlap is a no-op, so consumption is idempotent.
    pub fn interact(&mut self, in_pickup_range: bool) -> (granted: Option<ShrineType>)
        ensures
            final(self).buff_type == old(self).buff_type,
            final(self).used == (old(self).used || in_pickup_range),
            granted == if !old(self).used && in_pickup_range {
                Some(old(self).buff_type)
            } else {
                None::<ShrineType>
            },
    {
        if !self.used && in_pickup_range {
            self.used = true;
            Some(self.buff_type)
        } else {
            None
        }
    }
}

/// A timed circular region granting bonus effects while occupied.
#[derive(Clone, Copy, Debug, PartialEq, Eq, Structural)]
pub struct ChallengeZone {
    pub radius: i64,
    pub bonus_xp_mult: i64,
    pub remaining_ms: i64,
}

/// The standard challenge zone: radius and double-experience bonus.
pub fn challenge_zone() -> (r: ChallengeZone)
    ensures
        r.radius == 150_000,
        r.bonus_xp_mult == 2_000,
        r.remaining_ms == 15_000,
{
    ChallengeZone { radius: 150_000, bonus_xp_mult: 2_000, remaining_ms: 15_000 }
}

impl ChallengeZone {
    /// Counts the zone down; at zero it expires and is removed.
    pub fn tick(&mut self, delta_ms: i64) -> (expired: bool)
        requires
            0 <= old(self).remaining_ms <= MAX_UNITS,
            0 <= delta_ms <= MAX_UNITS,
        ensures
            final(self).radius == old(self).radius,
            final(self).bonus_xp_mult == old(self).bonus_xp_mult,
            final(self).remaining_ms == if old(self).remaining_ms > delta_ms {
                old(self).remaining_ms - delta_ms
            } else {
                0
            },
            expired == (final(self).remaining_ms == 0),
    {
        if self.remaining_ms > delta_ms {
            self.remaining_ms = self.remaining_ms - delta_ms;
            false
        } else {
            self.remaining_ms = 0;
            true
        }
    }

    /// Whether a position occupies the zone, by squared distance.
    pub fn occupied_by(&self, zone_x: i64, zone_y: i64, px: i64, py: i64) -> (r: bool)
        requires
            -crate::geom::MAX_COORD <= zone_x <= crate::geom::MAX_COORD,
            -crate::geom::MAX_COORD <= zone_y <= crate::geom::MAX_COORD,
            -crate::geom::MAX_COORD <= px <= crate::geom::MAX_COORD,
            -crate::geom::MAX_COORD <= py <= crate::geom::MAX_COORD,
            0 <= self.radius <= crate::geom::MAX_COORD,
        ensures
            r == (crate::geom::dist_sq(zone_x as int, zone_y as int, px as int, py as int)
                < self.radius * self.radius),
    {
        crate::geom::in_range(zone_x, zone_y, px, py, self.radius)
    }
}

/// Experience and levels. Leveling multiplies the threshold by 1.4 and
/// carries surplus experience over; one call levels at most once.
#[derive(Clone, Copy, Debug, PartialEq, Eq, Structural)]
pub struct Level {
    pub level: u32,
    pub xp: u64,
    pub xp_to_next: u64,
}

/// Largest experience total the model tracks.
pub const XP_CAP: u64 = 1_000_000_000_000_000;

/// A well-formed level record: at least level one, a positive threshold,
/// both totals inside the cap.
pub open spec fn level_wf(l: Level) -> bool {
    &&& l.level >= 1
    &&& l.xp <= XP_CAP
    &&& 1 <= l.xp_to_next <= XP_CAP
}

/// The threshold after a level-up: two fifths more, capped.
pub open spec fn spec_next_threshold(t: u64) -> int {
    if t * 7 / 5 <= XP_CAP {
        t * 7 / 5
    } else {
        XP_CAP as int
    }
}

impl Level {
    /// A fresh character: level one, no experience, one hundred to go.
    pub fn new() -> (r: Level)
        ensures
            r.level == 1,
            r.xp == 0,
            r.xp_to_next == 100,
            level_wf(r),
    {
        Level { level: 1, xp: 0, xp_to_next: 100 }
    }

    /// Collects experience; returns whether a level was gained. The
    /// total saturates at the cap; when it reaches the threshold, the
    /// threshold is subtracted, the level rises by one (saturating) and
    /// the threshold grows by two fifths.
    pub fn add_xp(&mut self, amount: u64) -> (leveled: bool)
        requires
            level_wf(*old(self)),
            amount <= XP_CAP,
        ensures
            level_wf(*final(self)),
            leveled == (spec_gained_xp(*old(self), amount) >= old(self).xp_to_next),
            !leveled ==> {
                &&& final(self).level == old(self).level
                &&& final(self).xp == spec_gained_xp(*old(self), amount)
                &&& final(self).xp_to_next == old(self).xp_to_next
            },
            leveled ==> {
                &&& final(self).level == spec_level_up(old(self).level)
                &&& final(self).xp == spec_gained_xp(*old(self), amount) - old(self).xp_to_next
                &&& final(self).xp_to_next == spec_next_threshold(old(self).xp_to_next)
            },
    {
        let gained = if self.xp + amount <= XP_CAP {
            self.xp + amount
        } else {
            XP_CAP
        };
        self.xp = gained;
        if self.xp >= self.xp_to_next {
            self.xp = self.xp - self.xp_to_next;
            self.level = if self.level < u32::MAX {
                self.level + 1
            } else {
                u32::MAX
            };
            self.xp_to_next = if self.xp_to_next * 7 / 5 <= XP_CAP {
                self.xp_to_next * 7 / 5
            } else {
                XP_CAP
            };
            proof {
                vstd::arithmetic::div_mod::lemma_div_is_ordered(
                    5,
                    old(self).xp_to_next * 7,
                    5,
                );
            }
            true
        } else {
            false
        }
    }
}

/// Experience after one pickup, saturated at the cap.
pub open spec fn spec_gained_xp(l: Level, amount: u64) -> int {
    if l.xp + amount <= XP_CAP {
        l.xp + amount
    } else {
        XP_CAP as int
    }
}

/// The next level, saturating at the machine limit.
pub open spec fn spec_level_up(level: u32) -> int {
    if level < u32::MAX {
        level + 1
    } else {
        u32::MAX as int
    }
}

} // verus!
