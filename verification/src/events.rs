//! Transient, single-consumption messages produced and drained once per
//! simulation step.

use vstd::prelude::*;
use crate::elemental::Element;
use crate::units::MAX_UNITS;

verus! {

/// One pending hit: who is struck, by whom, for how much raw damage
/// (milli-units), and whether the attack rolled a critical strike.
#[derive(Clone, Copy, Debug, PartialEq, Eq, Structural)]
pub struct DamageEvent {
    pub target: u64,
    pub attacker: Option<u64>,
    pub amount: i64,
    pub is_crit: bool,
}

/// A well-formed damage event carries a bounded, non-negative amount.
pub open spec fn damage_event_wf(e: DamageEvent) -> bool {
    0 <= e.amount <= MAX_UNITS
}

/// One pending elemental application against a target.
#[derive(Clone, Copy, Debug, PartialEq, Eq, Structural)]
pub struct ApplyStatusEvent {
    pub target: u64,
    pub element: Element,
}

/// A request to drop an experience orb at a position (milli-units).
#[derive(Clone, Copy, Debug, PartialEq, Eq, Structural)]
pub struct SpawnXpOrbEvent {
    pub x: i64,
    pub y: i64,
    pub value: u64,
}

} // verus!
