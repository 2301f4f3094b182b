//! The elemental status engine.
//!
//! Each afflicted actor carries three independent stack counters, one per
//! element, clamped to `0..=MAX_ELEMENTAL_STACKS`, plus one-shot trigger
//! flags that prevent a mastery burst from firing more than once while a
//! counter sits at its maximum. Stacks do not decay on their own; the
//! decay rate is configurable and may be zero.

use vstd::prelude::*;

verus! {

/// The three elements a status application can carry.
#[derive(Clone, Copy, Debug, PartialEq, Eq, Structural)]
pub enum Element {
    Fire,
    Ice,
    Lightning,
}

/// Stack counters never exceed this value.
pub const MAX_ELEMENTAL_STACKS: u32 = 10;

/// Per-actor elemental state: stack counters and one-shot burst flags.
#[derive(Clone, Copy, Debug, PartialEq, Eq, Structural)]
pub struct ElementalStatus {
    pub fire_stacks: u32,
    pub ice_stacks: u32,
    pub lightning_stacks: u32,
    pub is_ignited: bool,
    pub is_frozen: bool,
    pub is_discharged: bool,
}

/// Every counter of a well-formed status sits inside the clamp.
pub open spec fn status_wf(s: ElementalStatus) -> bool {
    &&& s.fire_stacks <= MAX_ELEMENTAL_STACKS
    &&& s.ice_stacks <= MAX_ELEMENTAL_STACKS
    &&& s.lightning_stacks <= MAX_ELEMENTAL_STACKS
}

/// One more stack, clamped at the maximum.
pub open spec fn bump_stack(v: u32) -> u32 {
    if v + 1 <= MAX_ELEMENTAL_STACKS {
        (v + 1) as u32
    } else {
        MAX_ELEMENTAL_STACKS
    }
}

/// The counter the element addresses.
pub open spec fn stacks_of(s: ElementalStatus, e: Element) -> u32 {
    match e {
        Element::Fire => s.fire_stacks,
        Element::Ice => s.ice_stacks,
        Element::Lightning => s.lightning_stacks,
    }
}

/// The one-shot burst flag the element addresses.
pub open spec fn flag_of(s: ElementalStatus, e: Element) -> bool {
    match e {
        Element::Fire => s.is_ignited,
        Element::Ice => s.is_frozen,
        Element::Lightning => s.is_discharged,
    }
}

impl ElementalStatus {
    /// A fresh status: no stacks, no flags.
    pub fn new() -> (r: ElementalStatus)
        ensures
            r == (ElementalStatus {
                fire_stacks: 0,
                ice_stacks: 0,
                lightning_stacks: 0,
                is_ignited: false,
                is_frozen: false,
                is_discharged: false,
            }),
            status_wf(r),
    {
        ElementalStatus {
            fire_stacks: 0,
            ice_stacks: 0,
            lightning_stacks: 0,
            is_ignited: false,
            is_frozen: false,
            is_discharged: false,
        }
    }

    /// Consumes one status-application event: the matching counter rises
    /// by one, clamped at the maximum; the other counters and every flag
    /// are untouched. However many applications arrive, the counter never
    /// exceeds the clamp.
    pub fn apply_status(&mut self, e: Element)
        requires
            status_wf(*old(self)),
        ensures
            status_wf(*final(self)),
            stacks_of(*final(self), e) == bump_stack(stacks_of(*old(self), e)),
            forall|o: Element| o != e ==> stacks_of(*final(self), o) == stacks_of(*old(self), o),
            final(self).is_ignited == old(self).is_ignited,
            final(self).is_frozen == old(self).is_frozen,
            final(self).is_discharged == old(self).is_discharged,
    {
        match e {
            Element::Fire => {
                if self.fire_stacks < MAX_ELEMENTAL_STACKS {
                    self.fire_stacks = self.fire_stacks + 1;
                }
            },
            Element::Ice => {
                if self.ice_stacks < MAX_ELEMENTAL_STACKS {
                    self.ice_stacks = self.ice_stacks + 1;
                }
            },
            Element::Lightning => {
                if self.lightning_stacks < MAX_ELEMENTAL_STACKS {
                    self.lightning_stacks = self.lightning_stacks + 1;
                }
            },
        }
    }

    /// Lets stacks decay by a configurable amount; a zero rate keeps the
    /// observed behavior of permanent stacks. Counters floor at zero.
    pub fn decay(&mut self, rate: u32)
        requires
            status_wf(*old(self)),
        ensures
            status_wf(*final(self)),
            final(self).fire_stacks == drop_stacks(old(self).fire_stacks, rate),
            final(self).ice_stacks == drop_stacks(old(self).ice_stacks, rate),
            final(self).lightning_stacks == drop_stacks(old(self).lightning_stacks, rate),
            final(self).is_ignited == old(self).is_ignited,
            final(self).is_frozen == old(self).is_frozen,
            final(self).is_discharged == old(self).is_discharged,
    {
        self.fire_stacks = if self.fire_stacks > rate {
            self.fire_stacks - rate
        } else {
            0
        };
        self.ice_stacks = if self.ice_stacks > rate {
            self.ice_stacks - rate
        } else {
            0
        };
        self.lightning_stacks = if self.lightning_stacks > rate {
            self.lightning_stacks - rate
        } else {
            0
        };
    }

    /// The element shown for this actor: the highest counter wins, ties
    /// broken in the fixed order fire, ice, lightning; none while every
    /// counter is zero.
    pub fn dominant_element(&self) -> (r: Option<Element>)
        ensures
            r == spec_dominant(*self),
    {
        if self.fire_stacks == 0 && self.ice_stacks == 0 && self.lightning_stacks == 0 {
            None
        } else if self.fire_stacks >= self.ice_stacks
            && self.fire_stacks >= self.lightning_stacks {
            Some(Element::Fire)
        } else if self.ice_stacks >= self.lightning_stacks {
            Some(Element::Ice)
        } else {
            Some(Element::Lightning)
        }
    }

    /// Decides one mastery burst: fires exactly when the element's
    /// counter sits at the maximum, the owner has unlocked the matching
    /// mastery, and the one-shot flag is still clear; firing sets the
    /// flag so the burst cannot repeat while the counter stays maxed.
    pub fn mastery_trigger(&mut self, e: Element, has_mastery: bool) -> (burst: bool)
        requires
            status_wf(*old(self)),
        ensures
            status_wf(*final(self)),
            burst == (stacks_of(*old(self), e) == MAX_ELEMENTAL_STACKS && has_mastery && !flag_of(
                *old(self),
                e,
            )),
            flag_of(*final(self), e) == (flag_of(*old(self), e) || burst),
            forall|o: Element| o != e ==> flag_of(*final(self), o) == flag_of(*old(self), o),
            final(self).fire_stacks == old(self).fire_stacks,
            final(self).ice_stacks == old(self).ice_stacks,
            final(self).lightning_stacks == old(self).lightning_stacks,
    {
        match e {
            Element::Fire => {
                if self.fire_stacks == MAX_ELEMENTAL_STACKS && has_mastery && !self.is_ignited {
                    self.is_ignited = true;
                    true
                } else {
                    false
                }
            },
            Element::Ice => {
                if self.ice_stacks == MAX_ELEMENTAL_STACKS && has_mastery && !self.is_frozen {
                    self.is_frozen = true;
                    true
                } else {
                    false
                }
            },
            Element::Lightning => {
                if self.lightning_stacks == MAX_ELEMENTAL_STACKS && has_mastery
                    && !self.is_discharged {
                    self.is_discharged = true;
                    true
                } else {
                    false
                }
            },
        }
    }
}

/// Stacks after one decay step: the rate is subtracted, flooring at zero.
pub open spec fn drop_stacks(v: u32, rate: u32) -> u32 {
    if v > rate {
        (v - rate) as u32
    } else {
        0
    }
}

/// The dominant element by highest counter, ties broken fire, ice,
/// lightning; none while all counters are zero.
pub open spec fn spec_dominant(s: ElementalStatus) -> Option<Element> {
    if s.fire_stacks == 0 && s.ice_stacks == 0 && s.lightning_stacks == 0 {
        None
    } else if s.fire_stacks >= s.ice_stacks && s.fire_stacks >= s.lightning_stacks {
        Some(Element::Fire)
    } else if s.ice_stacks >= s.lightning_stacks {
        Some(Element::Ice)
    } else {
        Some(Element::Lightning)
    }
}

/// The continuous burn: while the fire counter sits at the maximum, each
/// step deals damage proportional to elapsed time (300 milli-damage per
/// millisecond, i.e. 5 damage per second scaled by 60 steps a second).
pub open spec fn spec_fire_dot(s: ElementalStatus, delta_ms: i64) -> int {
    if s.fire_stacks == MAX_ELEMENTAL_STACKS {
        300 * delta_ms
    } else {
        0
    }
}

/// The damage-over-time tick an actor takes this step from a maxed fire
/// counter, in milli-units.
pub fn fire_dot_amount(s: &ElementalStatus, delta_ms: i64) -> (r: i64)
    requires
        status_wf(*s),
        0 <= delta_ms <= 1_000_000,
    ensures
        r == spec_fire_dot(*s, delta_ms),
        0 <= r <= crate::units::MAX_UNITS,
{
    if s.fire_stacks == MAX_ELEMENTAL_STACKS {
        300 * delta_ms
    } else {
        0
    }
}

/// The area burst a mastery fires as (damage, radius, damage-tick
/// interval, duration), in milli-units and milliseconds: ignition burns
/// a wide circle, shatter hits harder in a tighter one; the discharge
/// sets its flag but carries no area burst.
pub open spec fn spec_burst_params(e: Element) -> Option<(i64, i64, i64, i64)> {
    match e {
        Element::Fire => Some((60_000i64, 100_000i64, 10i64, 150i64)),
        Element::Ice => Some((80_000i64, 75_000i64, 10i64, 150i64)),
        Element::Lightning => None,
    }
}

/// The burst a triggered mastery puts into the world.
pub fn mastery_burst_params(e: Element) -> (r: Option<(i64, i64, i64, i64)>)
    ensures
        r == spec_burst_params(e),
{
    match e {
        Element::Fire => Some((60_000, 100_000, 10, 150)),
        Element::Ice => Some((80_000, 75_000, 10, 150)),
        Element::Lightning => None,
    }
}

/// Elemental stack counters never exceed the clamp: whatever sequence of
/// status applications arrives, a well-formed status stays well-formed
/// and the bumped counter reads at most the maximum.
pub proof fn lemma_stacks_never_exceed_clamp(s: ElementalStatus, e: Element)
    requires
        status_wf(s),
    ensures
        bump_stack(stacks_of(s, e)) <= MAX_ELEMENTAL_STACKS,
        stacks_of(s, e) == MAX_ELEMENTAL_STACKS ==> bump_stack(stacks_of(s, e))
            == MAX_ELEMENTAL_STACKS,
{
}

} // verus!
