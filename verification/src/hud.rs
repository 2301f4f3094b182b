//! HUD snapshots: the fractions the presentation layer draws.
//!
//! Each is a value in thousandths of a full bar, clamped into
//! `[0, 1000]`, computed from the simulation state alone.

use vstd::prelude::*;
use crate::progression::Level;
use crate::stats::{Health, Shield, health_wf, shield_wf};

verus! {

/// A ratio in thousandths, clamped into a full bar.
pub open spec fn spec_bar_fraction(part: int, whole: int) -> int {
    if part <= 0 {
        0
    } else if part * 1000 / whole >= 1000 {
        1000
    } else {
        part * 1000 / whole
    }
}

/// The health bar: current over maximum, in thousandths.
pub fn health_fraction_milli(h: &Health) -> (r: i64)
    requires
        health_wf(*h),
    ensures
        r == spec_bar_fraction(h.current as int, h.max as int),
        0 <= r <= 1000,
{
    bar_fraction(h.current, h.max)
}

/// The shield bar: shield over maximum health, in thousandths.
pub fn shield_fraction_milli(s: &Shield, h: &Health) -> (r: i64)
    requires
        shield_wf(*s),
        health_wf(*h),
    ensures
        r == spec_bar_fraction(s.amount as int, h.max as int),
        0 <= r <= 1000,
{
    bar_fraction(s.amount, h.max)
}

/// The experience bar: collected over required, in thousandths.
pub fn xp_fraction_milli(l: &Level) -> (r: i64)
    requires
        crate::progression::level_wf(*l),
    ensures
        r == spec_bar_fraction(l.xp as int, l.xp_to_next as int),
        0 <= r <= 1000,
{
    let part = l.xp as i64;
    let whole = l.xp_to_next as i64;
    bar_fraction(part, whole)
}

/// A cooldown overlay: time still to wait over the full window, in
/// thousandths.
pub fn cooldown_fraction_milli(remaining_ms: i64, total_ms: i64) -> (r: i64)
    requires
        0 <= remaining_ms <= crate::units::MAX_UNITS,
        0 < total_ms <= crate::units::MAX_UNITS,
    ensures
        r == spec_bar_fraction(remaining_ms as int, total_ms as int),
        0 <= r <= 1000,
{
    bar_fraction(remaining_ms, total_ms)
}

/// The clamped thousandth ratio itself.
fn bar_fraction(part: i64, whole: i64) -> (r: i64)
    requires
        -1_000_000_000_000_000 <= part <= 1_000_000_000_000_000,
        0 < whole <= 1_000_000_000_000_000,
    ensures
        r == spec_bar_fraction(part as int, whole as int),
        0 <= r <= 1000,
{
    if part <= 0 {
        return 0;
    }
    proof {
        vstd::arithmetic::div_mod::lemma_div_is_ordered(0, part * 1000, whole as int);
        vstd::arithmetic::div_mod::lemma_div_of0(whole as int);
    }
    let f = part * 1000 / whole;
    if f >= 1000 {
        1000
    } else {
        f
    }
}

} // verus!
