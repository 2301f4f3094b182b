//! Integer plane geometry: range checks by squared distance, rectangle
//! overlap, and clamping to the map bounds. Coordinates are milli-units.

use vstd::prelude::*;

verus! {

/// Largest coordinate magnitude the geometry helpers accept; keeps every
/// squared distance inside an `i64`.
pub const MAX_COORD: i64 = 1_000_000_000;

/// The squared distance between two points.
pub open spec fn dist_sq(ax: int, ay: int, bx: int, by: int) -> int {
    (ax - bx) * (ax - bx) + (ay - by) * (ay - by)
}

/// Whether two points lie within the given range of each other,
/// compared by squared distance so no root is taken.
pub fn in_range(ax: i64, ay: i64, bx: i64, by: i64, range: i64) -> (r: bool)
    requires
        -MAX_COORD <= ax <= MAX_COORD,
        -MAX_COORD <= ay <= MAX_COORD,
        -MAX_COORD <= bx <= MAX_COORD,
        -MAX_COORD <= by <= MAX_COORD,
        0 <= range <= MAX_COORD,
    ensures
        r == (dist_sq(ax as int, ay as int, bx as int, by as int) < range * range),
{
    let dx = ax - bx;
    let dy = ay - by;
    proof {
        assert(dx * dx <= 4_000_000_000_000_000_000 && dx * dx >= 0) by (nonlinear_arith)
            requires
                -2_000_000_000 <= dx <= 2_000_000_000,
        ;
        assert(dy * dy <= 4_000_000_000_000_000_000 && dy * dy >= 0) by (nonlinear_arith)
            requires
                -2_000_000_000 <= dy <= 2_000_000_000,
        ;
        assert(range * range <= 1_000_000_000_000_000_000 && range * range >= 0)
            by (nonlinear_arith)
            requires
                0 <= range <= 1_000_000_000,
        ;
    }
    dx * dx + dy * dy < range * range
}

/// Axis-aligned overlap between a point with a radius and a rectangle
/// given by its center and half-extents.
pub fn point_rect_collision(
    px: i64,
    py: i64,
    cx: i64,
    cy: i64,
    half_x: i64,
    half_y: i64,
    radius: i64,
) -> (r: bool)
    requires
        -MAX_COORD <= px <= MAX_COORD,
        -MAX_COORD <= py <= MAX_COORD,
        -MAX_COORD <= cx <= MAX_COORD,
        -MAX_COORD <= cy <= MAX_COORD,
        0 <= half_x <= MAX_COORD,
        0 <= half_y <= MAX_COORD,
        0 <= radius <= MAX_COORD,
    ensures
        r == (abs_int(px - cx) < half_x + radius && abs_int(py - cy) < half_y + radius),
{
    let dist_x = if px >= cx {
        px - cx
    } else {
        cx - px
    };
    let dist_y = if py >= cy {
        py - cy
    } else {
        cy - py
    };
    dist_x < half_x + radius && dist_y < half_y + radius
}

/// The magnitude of an integer.
pub open spec fn abs_int(v: int) -> int {
    if v >= 0 {
        v
    } else {
        -v
    }
}

/// Taunt-lure positions the target choice accepts.
pub open spec fn lures_wf(ls: Seq<(i64, i64)>) -> bool {
    forall|i: int|
        0 <= i < ls.len() ==> -MAX_COORD <= #[trigger] ls[i].0 <= MAX_COORD && -MAX_COORD
            <= ls[i].1 <= MAX_COORD
}

/// Whether a lure draws an enemy standing at the given spot: it must
/// lie inside the lure radius and strictly closer than the player.
pub open spec fn lure_draws(
    lure: (i64, i64),
    ex: int,
    ey: int,
    px: int,
    py: int,
    radius: int,
) -> bool {
    &&& dist_sq(ex, ey, lure.0 as int, lure.1 as int) < radius * radius
    &&& dist_sq(ex, ey, lure.0 as int, lure.1 as int) < dist_sq(ex, ey, px, py)
}

/// Picks what an enemy walks toward: the nearest taunt lure that lies
/// inside the lure radius and closer than the player; the player when
/// no lure qualifies.
pub fn preferred_target(
    ex: i64,
    ey: i64,
    px: i64,
    py: i64,
    lures: &Vec<(i64, i64)>,
    radius: i64,
) -> (r: Option<usize>)
    requires
        -MAX_COORD <= ex <= MAX_COORD,
        -MAX_COORD <= ey <= MAX_COORD,
        -MAX_COORD <= px <= MAX_COORD,
        -MAX_COORD <= py <= MAX_COORD,
        lures_wf(lures@),
        0 <= radius <= MAX_COORD,
    ensures
        match r {
            Some(i) => {
                &&& i < lures@.len()
                &&& lure_draws(lures@[i as int], ex as int, ey as int, px as int, py as int, radius as int)
                &&& forall|j: int|
                    0 <= j < lures@.len() && lure_draws(
                        lures@[j],
                        ex as int,
                        ey as int,
                        px as int,
                        py as int,
                        radius as int,
                    ) ==> dist_sq(
                        ex as int,
                        ey as int,
                        lures@[i as int].0 as int,
                        lures@[i as int].1 as int,
                    ) <= dist_sq(ex as int, ey as int, lures@[j].0 as int, lures@[j].1 as int)
            },
            None => forall|j: int|
                0 <= j < lures@.len() ==> !lure_draws(
                    lures@[j],
                    ex as int,
                    ey as int,
                    px as int,
                    py as int,
                    radius as int,
                ),
        },
{
    proof {
        square_sum_bound(ex - px, ey - py);
    }
    let pdist: i64 = (ex - px) * (ex - px) + (ey - py) * (ey - py);
    let mut best: Option<usize> = None;
    let mut best_dist: i64 = pdist;
    let mut i: usize = 0;
    while i < lures.len()
        invariant
            -MAX_COORD <= ex <= MAX_COORD,
            -MAX_COORD <= ey <= MAX_COORD,
            -MAX_COORD <= px <= MAX_COORD,
            -MAX_COORD <= py <= MAX_COORD,
            lures_wf(lures@),
            0 <= radius <= MAX_COORD,
            i <= lures@.len(),
            pdist == dist_sq(ex as int, ey as int, px as int, py as int),
            match best {
                Some(b) => {
                    &&& b < i
                    &&& lure_draws(lures@[b as int], ex as int, ey as int, px as int, py as int, radius as int)
                    &&& best_dist == dist_sq(
                        ex as int,
                        ey as int,
                        lures@[b as int].0 as int,
                        lures@[b as int].1 as int,
                    )
                    &&& forall|j: int|
                        0 <= j < i && lure_draws(
                            lures@[j],
                            ex as int,
                            ey as int,
                            px as int,
                            py as int,
                            radius as int,
                        ) ==> best_dist <= dist_sq(
                            ex as int,
                            ey as int,
                            lures@[j].0 as int,
                            lures@[j].1 as int,
                        )
                },
                None => {
                    &&& best_dist == pdist
                    &&& forall|j: int|
                        0 <= j < i ==> !lure_draws(
                            lures@[j],
                            ex as int,
                            ey as int,
                            px as int,
                            py as int,
                            radius as int,
                        )
                },
            },
        decreases lures@.len() - i,
    {
        let (lx, ly) = lures[i];
        proof {
            square_sum_bound(ex - lx, ey - ly);
            assert(radius * radius <= 1_000_000_000_000_000_000 && radius * radius >= 0)
                by (nonlinear_arith)
                requires
                    0 <= radius <= 1_000_000_000,
            ;
        }
        let d: i64 = (ex - lx) * (ex - lx) + (ey - ly) * (ey - ly);
        if d < radius * radius && d < best_dist {
            best = Some(i);
            best_dist = d;
        }
        i = i + 1;
    }
    best
}

/// The squares of coordinates four billion milli-units apart still sum
/// inside an `i64`.
proof fn square_sum_bound(dx: int, dy: int)
    requires
        -2_000_000_000 <= dx <= 2_000_000_000,
        -2_000_000_000 <= dy <= 2_000_000_000,
    ensures
        0 <= dx * dx <= 4_000_000_000_000_000_000,
        0 <= dy * dy <= 4_000_000_000_000_000_000,
{
    assert(0 <= dx * dx <= 4_000_000_000_000_000_000) by (nonlinear_arith)
        requires
            -2_000_000_000 <= dx <= 2_000_000_000,
    ;
    assert(0 <= dy * dy <= 4_000_000_000_000_000_000) by (nonlinear_arith)
        requires
            -2_000_000_000 <= dy <= 2_000_000_000,
    ;
}

/// One coordinate clamped into `[-bounds, bounds]`.
pub fn clamp_to_bounds(v: i64, bounds: i64) -> (r: i64)
    requires
        0 <= bounds <= MAX_COORD,
        -MAX_COORD <= v <= MAX_COORD,
    ensures
        r == spec_clamp(v as int, bounds as int),
{
    if v < -bounds {
        -bounds
    } else if v > bounds {
        bounds
    } else {
        v
    }
}

/// A value clamped into `[-bounds, bounds]`.
pub open spec fn spec_clamp(v: int, bounds: int) -> int {
    if v < -bounds {
        -bounds
    } else if v > bounds {
        bounds
    } else {
        v
    }
}

} // verus!
