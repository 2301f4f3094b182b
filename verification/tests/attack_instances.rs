//! Transient attack instances: hit memory, pierce, chain, re-ticks.

use arpg_core::geom::preferred_target;
use arpg_core::lifecycle::{
    AoeEffect, Lifetime, MeleeAttack, Projectile, ProjectileFate, TargetPos, nearest_unhit,
};

#[test]
fn chain_before_pierce_before_destruction() {
    let mut p = Projectile::new(20_000, 1, 1, 1, false);
    // first hit: a chain target is available, so one charge is spent
    assert_eq!(p.on_hit(10, true), ProjectileFate::Chained);
    assert_eq!((p.chain_count, p.pierce), (0, 1));
    // second hit: no charges left to chain, pierce instead
    assert_eq!(p.on_hit(11, true), ProjectileFate::Pierced);
    assert_eq!((p.chain_count, p.pierce), (0, 0));
    // third hit: nothing left
    assert_eq!(p.on_hit(12, false), ProjectileFate::Destroyed);
    assert!(p.has_hit(10) && p.has_hit(11) && p.has_hit(12));
    assert!(!p.has_hit(13));
}

#[test]
fn chain_falls_back_to_pierce_without_a_target() {
    let mut p = Projectile::new(20_000, 1, 1, 1, true);
    assert_eq!(p.on_hit(10, false), ProjectileFate::Pierced);
    assert_eq!((p.chain_count, p.pierce), (1, 0));
    assert_eq!(p.on_hit(11, false), ProjectileFate::Destroyed);
}

#[test]
fn plain_projectile_dies_on_first_hit() {
    let mut p = Projectile::new(20_000, 1, 0, 0, false);
    assert_eq!(p.on_hit(10, true), ProjectileFate::Destroyed);
}

#[test]
fn nearest_unhit_picks_the_closest_eligible() {
    let targets = vec![
        TargetPos { id: 1, x: 150_000, y: 0 },
        TargetPos { id: 2, x: 50_000, y: 0 },
        TargetPos { id: 3, x: 10_000, y: 0 },
        TargetPos { id: 4, x: 500_000, y: 0 },
    ];
    // the nearest is already hit; the radius excludes the farthest
    let hit = vec![3u64];
    let r = nearest_unhit(&targets, &hit, 0, 0, 200_000);
    assert_eq!(r, Some(1));
    // with nothing hit the closest wins
    let r2 = nearest_unhit(&targets, &Vec::new(), 0, 0, 200_000);
    assert_eq!(r2, Some(2));
    // everything eligible hit or out of range: none
    let all_hit = vec![1u64, 2, 3];
    assert_eq!(nearest_unhit(&targets, &all_hit, 0, 0, 200_000), None);
}

#[test]
fn melee_strikes_each_target_once() {
    let mut m = MeleeAttack::new(45_000, 1, 120, false);
    assert!(m.try_hit(7, true));
    assert!(!m.try_hit(7, true));
    assert!(m.try_hit(8, true));
    assert!(!m.try_hit(9, false));
    assert!(!m.tick(100));
    assert!(m.tick(100));
}

#[test]
fn aoe_rehits_after_each_tick() {
    let mut a = AoeEffect::new(40_000, 1, 50, 200);
    assert!(a.try_hit(7, true));
    assert!(!a.try_hit(7, true));
    // the damage tick fires: memory clears, the same target can be re-hit
    let t = a.step(50);
    assert!(t.new_tick && !t.expired);
    assert!(a.try_hit(7, true));
    // a step short of the tick keeps the memory
    let t2 = a.step(20);
    assert!(!t2.new_tick);
    assert!(!a.try_hit(7, true));
}

#[test]
fn aoe_expires_with_its_duration() {
    let mut a = AoeEffect::new(40_000, 1, 10, 100);
    let t = a.step(100);
    assert!(t.expired);
}

#[test]
fn lifetime_runs_out() {
    let mut l = Lifetime::new(2_000);
    assert!(!l.tick(1_999));
    assert!(l.tick(1));
    assert!(l.tick(16));
}

#[test]
fn enemies_prefer_a_close_taunt_lure() {
    // the player stands 100 units away
    let (ex, ey, px, py) = (0i64, 0i64, 100_000i64, 0i64);
    // one lure inside the radius and closer than the player, one closer
    // still but out of the lure radius for this enemy, one farther than
    // the player
    let lures = vec![(0i64, 50_000i64), (400_000i64, 0i64), (120_000i64, 0i64)];
    assert_eq!(preferred_target(ex, ey, px, py, &lures, 300_000), Some(0));
    // no lure qualifying: the player stays the target
    let far = vec![(400_000i64, 0i64), (120_000i64, 0i64)];
    assert_eq!(preferred_target(ex, ey, px, py, &far, 300_000), None);
    // two qualifying lures: the nearest wins
    let two = vec![(0i64, 80_000i64), (0i64, 30_000i64)];
    assert_eq!(preferred_target(ex, ey, px, py, &two, 300_000), Some(1));
}
