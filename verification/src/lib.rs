//! Verified core of a wave-survival action-RPG simulation.
//!
//! The crate models the combat loop as pure state machines over integer
//! quantities: a damage-resolution pipeline with armor mitigation, shields,
//! elemental procs and leech; a passive-modifier graph of unlockable nodes;
//! an elemental status engine with clamped stack counters and one-shot
//! mastery bursts; a spawn-and-scaling director with population caps,
//! probabilistic spawn decisions and gated boss timers; and time-boxed
//! attack instances with hit memory, pierce and chain semantics.
//!
//! Every scalar quantity (health, damage, stat values, probabilities,
//! multipliers) is carried in thousandths of a unit, so the design's
//! fractional constants (a 1.25x multiplier, a 5% chance) are exact
//! integers and every formula is stated and proved exactly.

pub mod actor;
pub mod damage;
pub mod director;
pub mod elemental;
pub mod events;
pub mod feedback;
pub mod geom;
pub mod hud;
pub mod lifecycle;
pub mod modifiers;
pub mod passives;
pub mod player;
pub mod progression;
pub mod rng;
pub mod sim;
pub mod stats;
pub mod tree_data;
pub mod units;

use vstd::prelude::*;

verus! {

} // verus!
