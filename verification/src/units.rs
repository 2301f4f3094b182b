//! Fixed-point milli-unit arithmetic shared by the whole simulation.
//!
//! One game unit is 1000 milli-units. Multipliers are also carried in
//! thousandths, so `1250` stands for a factor of 1.25 and scaling a value
//! by a multiplier is `v * m / 1000` with flooring integer division.

use vstd::prelude::*;

verus! {

/// Milli-units per whole unit.
pub const MILLI: i64 = 1000;

/// Largest magnitude a game quantity (health, damage, coordinate, time in
/// milliseconds) is allowed to take: one billion whole units. Keeping all
/// quantities inside this bound lets every product in the crate fit in an
/// `i128` intermediate and every result fit back in an `i64`.
pub const MAX_UNITS: i64 = 1_000_000_000_000;

/// Largest multiplier (in thousandths) the simulation ever applies: x1000.
pub const MAX_MULT: i64 = 1_000_000;

/// Scaling a value by a milli-multiplier: `v * m / 1000`, flooring.
pub open spec fn scale_milli(v: int, m: int) -> int {
    (v * m) / (MILLI as int)
}

/// A quantity clamped to the numeric cap.
pub open spec fn cap_units(v: int) -> int {
    if v <= MAX_UNITS {
        v
    } else {
        MAX_UNITS as int
    }
}

/// Scale a non-negative value by a non-negative milli-multiplier.
pub fn mul_milli(v: i64, m: i64) -> (r: i64)
    requires
        0 <= v <= MAX_UNITS,
        0 <= m <= MAX_MULT,
    ensures
        r == scale_milli(v as int, m as int),
        0 <= r <= v * m / 1000,
{
    proof {
        lemma_scale_milli_bounds(v as int, m as int);
    }
    (((v as i128) * (m as i128)) / 1000) as i64
}

/// The scaled value stays non-negative and below `MAX_UNITS * MAX_MULT / 1000`.
pub proof fn lemma_scale_milli_bounds(v: int, m: int)
    requires
        0 <= v,
        0 <= m,
    ensures
        0 <= scale_milli(v, m) <= v * m / 1000,
        v <= MAX_UNITS && m <= MAX_MULT ==> scale_milli(v, m)
            <= MAX_UNITS as int * MAX_MULT as int / 1000,
{
    vstd::arithmetic::mul::lemma_mul_nonnegative(v, m);
    vstd::arithmetic::div_mod::lemma_div_is_ordered_by_denominator(v * m, 1000, 1000);
    if v <= MAX_UNITS && m <= MAX_MULT {
        vstd::arithmetic::mul::lemma_mul_upper_bound(v, MAX_UNITS as int, m, MAX_MULT as int);
        vstd::arithmetic::div_mod::lemma_div_is_ordered(
            v * m,
            MAX_UNITS as int * MAX_MULT as int,
            1000,
        );
    }
}

/// Scaling by a multiplier of at most `MAX_MULT` grows a value by at
/// most a factor of one thousand.
pub proof fn lemma_scale_le_thousand(v: int, m: int)
    requires
        0 <= v,
        0 <= m <= MAX_MULT,
    ensures
        0 <= scale_milli(v, m) <= 1000 * v,
{
    vstd::arithmetic::mul::lemma_mul_nonnegative(v, m);
    vstd::arithmetic::mul::lemma_mul_upper_bound(v, v, m, MAX_MULT as int);
    vstd::arithmetic::div_mod::lemma_div_is_ordered(v * m, v * MAX_MULT as int, 1000);
    assert(v * MAX_MULT as int == 1000 * (1000 * v)) by (nonlinear_arith);
    vstd::arithmetic::div_mod::lemma_div_multiples_vanish(1000 * v, 1000);
    vstd::arithmetic::div_mod::lemma_div_is_ordered(0, v * m, 1000);
    vstd::arithmetic::div_mod::lemma_div_of0(1000);
}

/// The minimum of two machine integers.
pub fn min64(a: i64, b: i64) -> (r: i64)
    ensures
        r == if a <= b { a as int } else { b as int },
{
    if a <= b { a } else { b }
}

} // verus!
