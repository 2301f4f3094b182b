//! Camera-feedback requests and their small state machines.
//!
//! Everything here is a pure function of combat outcomes: the hit-stop
//! window is decided by whether a hit was a crit or a kill, slow motion
//! by the recent kill tally, knockback strength by the victim's size
//! class. Trauma (screen shake intensity) is a saturating accumulator.

use vstd::prelude::*;
use crate::director::EnemySize;
use crate::units::MAX_UNITS;

verus! {

/// How a landed hit is classified for feedback purposes.
#[derive(Clone, Copy, Debug, PartialEq, Eq, Structural)]
pub enum HitType {
    Normal,
    Crit,
    Kill,
}

/// Milliseconds per simulation frame.
pub const FRAME_MS: u64 = 16;

/// Hit-stop lengths in frames.
pub const HITSTOP_NORMAL_FRAMES: u64 = 4;

/// Hit-stop frames for a critical strike.
pub const HITSTOP_CRIT_FRAMES: u64 = 7;

/// Hit-stop frames for a killing blow.
pub const HITSTOP_KILL_FRAMES: u64 = 11;

/// The classification of a hit: a kill outranks a crit outranks a
/// normal hit.
pub open spec fn spec_hit_type(is_crit: bool, is_kill: bool) -> HitType {
    if is_kill {
        HitType::Kill
    } else if is_crit {
        HitType::Crit
    } else {
        HitType::Normal
    }
}

/// Classifies a hit for feedback.
pub fn hit_type_of(is_crit: bool, is_kill: bool) -> (r: HitType)
    ensures
        r == spec_hit_type(is_crit, is_kill),
{
    if is_kill {
        HitType::Kill
    } else if is_crit {
        HitType::Crit
    } else {
        HitType::Normal
    }
}

/// The hit-stop window each hit class earns, in milliseconds.
pub open spec fn spec_hitstop_ms(t: HitType) -> u64 {
    match t {
        HitType::Normal => (HITSTOP_NORMAL_FRAMES * FRAME_MS) as u64,
        HitType::Crit => (HITSTOP_CRIT_FRAMES * FRAME_MS) as u64,
        HitType::Kill => (HITSTOP_KILL_FRAMES * FRAME_MS) as u64,
    }
}

/// The hit-stop window to request for a hit class.
pub fn hitstop_ms(t: HitType) -> (r: u64)
    ensures
        r == spec_hitstop_ms(t),
{
    match t {
        HitType::Normal => HITSTOP_NORMAL_FRAMES * FRAME_MS,
        HitType::Crit => HITSTOP_CRIT_FRAMES * FRAME_MS,
        HitType::Kill => HITSTOP_KILL_FRAMES * FRAME_MS,
    }
}

/// The fixed knockback impulse, in milli-units.
pub const KNOCKBACK_FORCE: i64 = 35_000;

/// The knockback multiplier each size class takes, in thousandths:
/// light enemies fly, bosses barely move.
pub open spec fn spec_knockback_mult(size: EnemySize) -> int {
    match size {
        EnemySize::Small => 1500,
        EnemySize::Medium => 1000,
        EnemySize::Large => 500,
        EnemySize::Boss => 150,
    }
}

/// The knockback force scaled by the victim's size class.
pub fn knockback_force(size: EnemySize) -> (r: i64)
    ensures
        r == crate::units::scale_milli(KNOCKBACK_FORCE as int, spec_knockback_mult(size)),
{
    match size {
        EnemySize::Small => 52_500,
        EnemySize::Medium => 35_000,
        EnemySize::Large => 17_500,
        EnemySize::Boss => 5_250,
    }
}

/// Screen-shake intensity in thousandths, saturating at one whole.
pub fn add_trauma(trauma: i64, amount: i64) -> (r: i64)
    requires
        0 <= trauma <= 1000,
        0 <= amount <= 1000,
    ensures
        r == if trauma + amount <= 1000 {
            trauma + amount
        } else {
            1000int
        },
        0 <= r <= 1000,
{
    if trauma + amount <= 1000 {
        trauma + amount
    } else {
        1000
    }
}

/// The global hit-stop window: while active, the simulation pauses.
#[derive(Clone, Copy, Debug, PartialEq, Eq, Structural)]
pub struct HitStop {
    pub remaining_ms: i64,
    pub active: bool,
}

impl HitStop {
    /// No hit-stop pending.
    pub fn idle() -> (r: HitStop)
        ensures
            r.remaining_ms == 0,
            !r.active,
    {
        HitStop { remaining_ms: 0, active: false }
    }

    /// Starts a hit-stop window of the given length.
    pub fn trigger(&mut self, duration_ms: i64)
        requires
            0 <= duration_ms <= MAX_UNITS,
        ensures
            final(self).remaining_ms == duration_ms,
            final(self).active,
    {
        self.remaining_ms = duration_ms;
        self.active = true;
    }

    /// Counts the window down; it deactivates when it runs out.
    pub fn tick(&mut self, delta_ms: i64)
        requires
            0 <= old(self).remaining_ms <= MAX_UNITS,
            0 <= delta_ms <= MAX_UNITS,
        ensures
            final(self).remaining_ms == if old(self).active && old(self).remaining_ms > delta_ms {
                old(self).remaining_ms - delta_ms
            } else if old(self).active {
                0
            } else {
                old(self).remaining_ms as int
            },
            final(self).active == (old(self).active && old(self).remaining_ms > delta_ms),
    {
        if self.active {
            if self.remaining_ms > delta_ms {
                self.remaining_ms = self.remaining_ms - delta_ms;
            } else {
                self.remaining_ms = 0;
                self.active = false;
            }
        }
    }
}

/// The temporary time-dilation window after spectacular kills.
#[derive(Clone, Copy, Debug, PartialEq, Eq, Structural)]
pub struct SlowMotion {
    pub remaining_ms: i64,
    pub time_scale_milli: i64,
    pub active: bool,
}

impl SlowMotion {
    /// Time running normally.
    pub fn idle() -> (r: SlowMotion)
        ensures
            r.remaining_ms == 0,
            r.time_scale_milli == 1000,
            !r.active,
    {
        SlowMotion { remaining_ms: 0, time_scale_milli: 1000, active: false }
    }

    /// Starts a slow-motion window at the given time scale.
    pub fn trigger(&mut self, duration_ms: i64, time_scale_milli: i64)
        requires
            0 <= duration_ms <= MAX_UNITS,
            0 < time_scale_milli <= 1000,
        ensures
            final(self).remaining_ms == duration_ms,
            final(self).time_scale_milli == time_scale_milli,
            final(self).active,
    {
        self.remaining_ms = duration_ms;
        self.time_scale_milli = time_scale_milli;
        self.active = true;
    }

    /// Counts the window down; time returns to full speed at zero.
    pub fn tick(&mut self, delta_ms: i64)
        requires
            0 <= old(self).remaining_ms <= MAX_UNITS,
            0 <= delta_ms <= MAX_UNITS,
        ensures
            final(self).active == (old(self).active && old(self).remaining_ms > delta_ms),
            !final(self).active ==> final(self).time_scale_milli == if old(self).active {
                1000int
            } else {
                old(self).time_scale_milli as int
            },
            final(self).active ==> final(self).time_scale_milli == old(self).time_scale_milli
                && final(self).remaining_ms == old(self).remaining_ms - delta_ms,
    {
        if self.active {
            if self.remaining_ms > delta_ms {
                self.remaining_ms = self.remaining_ms - delta_ms;
            } else {
                self.remaining_ms = 0;
                self.active = false;
                self.time_scale_milli = 1000;
            }
        }
    }
}

/// The rolling kill tally behind the slow-motion rule.
#[derive(Clone, Copy, Debug, PartialEq, Eq, Structural)]
pub struct KillFeedback {
    pub recent_kills: u32,
    pub window_remaining_ms: i64,
    pub last_kill_was_crit: bool,
}

/// How long the kill tally keeps counting after the last kill.
pub const KILL_WINDOW_MS: i64 = 500;

impl KillFeedback {
    /// No recent kills.
    pub fn new() -> (r: KillFeedback)
        ensures
            r.recent_kills == 0,
            r.window_remaining_ms == 0,
            !r.last_kill_was_crit,
    {
        KillFeedback { recent_kills: 0, window_remaining_ms: 0, last_kill_was_crit: false }
    }

    /// Records this step's kills: the tally grows (saturating), the
    /// window rewinds, and a crit kill is remembered.
    pub fn record_kills(&mut self, kills: u32, any_crit_kill: bool)
        ensures
            final(self).recent_kills == if old(self).recent_kills + kills <= u32::MAX {
                old(self).recent_kills + kills
            } else {
                u32::MAX as int
            },
            final(self).window_remaining_ms == KILL_WINDOW_MS,
            final(self).last_kill_was_crit == (old(self).last_kill_was_crit || any_crit_kill),
    {
        self.recent_kills = if kills <= u32::MAX - self.recent_kills {
            self.recent_kills + kills
        } else {
            u32::MAX
        };
        self.window_remaining_ms = KILL_WINDOW_MS;
        if any_crit_kill {
            self.last_kill_was_crit = true;
        }
    }

    /// Counts the window down; when it runs out the tally resets.
    pub fn tick(&mut self, delta_ms: i64)
        requires
            0 <= old(self).window_remaining_ms <= MAX_UNITS,
            0 <= delta_ms <= MAX_UNITS,
        ensures
            old(self).window_remaining_ms > delta_ms ==> *final(self) == (KillFeedback {
                window_remaining_ms: (old(self).window_remaining_ms - delta_ms) as i64,
                ..*old(self)
            }),
            old(self).window_remaining_ms <= delta_ms ==> *final(self) == (KillFeedback {
                recent_kills: 0,
                window_remaining_ms: 0,
                last_kill_was_crit: false,
            }),
    {
        if self.window_remaining_ms > delta_ms {
            self.window_remaining_ms = self.window_remaining_ms - delta_ms;
        } else {
            self.window_remaining_ms = 0;
            self.recent_kills = 0;
            self.last_kill_was_crit = false;
        }
    }
}

/// The slow-motion rule: a kill streak of three, or any crit kill this
/// step, triggers the window unless one is already running.
pub open spec fn spec_slow_motion_due(
    recent_kills: u32,
    kills_this_step: u32,
    any_crit_kill: bool,
    already_active: bool,
) -> bool {
    (recent_kills >= 3 || (any_crit_kill && kills_this_step >= 1)) && !already_active
}

/// Whether this step's kills should start slow motion.
pub fn slow_motion_due(
    recent_kills: u32,
    kills_this_step: u32,
    any_crit_kill: bool,
    already_active: bool,
) -> (r: bool)
    ensures
        r == spec_slow_motion_due(recent_kills, kills_this_step, any_crit_kill, already_active),
{
    (recent_kills >= 3 || (any_crit_kill && kills_this_step >= 1)) && !already_active
}

} // verus!
