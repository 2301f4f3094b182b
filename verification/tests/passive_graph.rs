//! The passive graph: unlock rules, derived modifiers, path tracing.

use arpg_core::modifiers::derive_modifiers;
use arpg_core::passives::{PassiveEffect, PlayerPassives, find_path_to_node};
use arpg_core::passives::{NodeCategory, node_category};
use arpg_core::stats::Stats;
use arpg_core::tree_data::passive_tree_data;

fn base_stats() -> Stats {
    Stats {
        speed: 200_000,
        damage: 25_000,
        attack_speed: 1_000,
        crit_chance: 100,
        crit_multiplier: 2_000,
        life_regen: 2_000,
        armor: 0,
    }
}

#[test]
fn standard_tree_shape() {
    let tree = passive_tree_data();
    assert_eq!(tree.nodes.len(), 23);
    assert_eq!(tree.connections.len(), 22);
    let expected_ids = [
        0u32, 200, 201, 202, 203, 204, 205, 8, 9, 10, 100, 101, 102, 104, 105, 106, 107, 11, 12,
        14, 15, 17, 18,
    ];
    for (node, want) in tree.nodes.iter().zip(expected_ids.iter()) {
        assert_eq!(node.id, *want);
    }
    // the origin is the only root
    for node in tree.nodes.iter() {
        if node.id == 0 {
            assert!(node.requirements.is_empty());
        } else {
            assert!(!node.requirements.is_empty());
        }
    }
}

#[test]
fn unlock_root_spends_point_and_adds_damage() {
    let tree = passive_tree_data();
    let mut p = PlayerPassives::new();
    p.points = 2;
    let mut stats = base_stats();
    assert!(p.unlock(&tree, &mut stats, 0));
    assert_eq!(p.points, 1);
    assert_eq!(stats.damage, 35_000);
    assert!(p.has_unlocked(0));
}

#[test]
fn unlocking_twice_is_a_no_op() {
    let tree = passive_tree_data();
    let mut p = PlayerPassives::new();
    p.points = 5;
    let mut stats = base_stats();
    assert!(p.unlock(&tree, &mut stats, 0));
    let stats_after = stats;
    let points_after = p.points;
    assert!(!p.unlock(&tree, &mut stats, 0));
    assert_eq!(p.points, points_after);
    assert_eq!(stats, stats_after);
    assert_eq!(p.unlocked_nodes, vec![0]);
}

#[test]
fn zero_points_cannot_unlock_anything() {
    let tree = passive_tree_data();
    let mut p = PlayerPassives::new();
    let mut stats = base_stats();
    assert!(!p.unlock(&tree, &mut stats, 0));
    assert!(p.unlocked_nodes.is_empty());
    assert_eq!(stats, base_stats());
}

#[test]
fn prerequisite_gate_holds() {
    let tree = passive_tree_data();
    let mut p = PlayerPassives::new();
    p.points = 10;
    let mut stats = base_stats();
    // node 12 requires 11, which requires 201, 200, 0
    assert!(!p.unlock(&tree, &mut stats, 12));
    assert!(p.unlock(&tree, &mut stats, 0));
    assert!(p.unlock(&tree, &mut stats, 200));
    assert!(p.unlock(&tree, &mut stats, 201));
    assert!(!p.unlock(&tree, &mut stats, 12));
    assert!(p.unlock(&tree, &mut stats, 11));
    assert!(p.unlock(&tree, &mut stats, 12));
}

#[test]
fn unlocked_set_only_grows() {
    let tree = passive_tree_data();
    let mut p = PlayerPassives::new();
    p.points = 10;
    let mut stats = base_stats();
    let ids = [0u32, 200, 201, 9, 204];
    for id in ids.iter() {
        let before = p.unlocked_nodes.clone();
        p.unlock(&tree, &mut stats, *id);
        for n in before.iter() {
            assert!(p.unlocked_nodes.contains(n));
        }
    }
    assert_eq!(p.unlocked_nodes, vec![0, 200, 201, 9, 204]);
}

#[test]
fn stat_mult_node_feeds_the_pipeline_once() {
    let tree = passive_tree_data();
    let mut p = PlayerPassives::new();
    p.points = 10;
    let mut stats = base_stats();
    assert!(p.unlock(&tree, &mut stats, 0)); // +10 damage
    assert!(p.unlock(&tree, &mut stats, 200)); // +15 damage
    assert_eq!(stats.damage, 50_000);
    // the multiplier node leaves the attributes alone ...
    assert!(p.unlock(&tree, &mut stats, 201)); // x1.25 damage
    assert_eq!(stats.damage, 50_000);
    assert_eq!(stats.speed, 200_000);
    // ... and lands exactly once, through the pipeline multiplier
    let mods = derive_modifiers(&tree, &p);
    assert_eq!(mods.damage_mult, 1_250);
    assert_eq!(arpg_core::damage::mitigate(stats.damage, mods.damage_mult, 0), 62_500);
}

#[test]
fn derived_modifiers_accumulate() {
    let tree = passive_tree_data();
    let mut p = PlayerPassives::new();
    p.points = 20;
    let mut stats = base_stats();
    for id in [0u32, 200, 201, 204, 8, 9, 11, 12, 203].iter() {
        assert!(p.unlock(&tree, &mut stats, *id));
    }
    let mods = derive_modifiers(&tree, &p);
    assert_eq!(mods.damage_mult, 1_375); // 1.25 x 1.1
    assert!(mods.knockback);
    assert!(mods.explosion);
    assert!(!mods.ricochet);
    assert_eq!(mods.fire_chance, 200);
    assert_eq!(mods.ice_chance, 0);
    assert!(mods.mastery_fire);
    assert_eq!(mods.life_leech, 15);
    assert_eq!(mods.armor_mult, 1_000);
}

#[test]
fn defense_branch_modifiers() {
    let tree = passive_tree_data();
    let mut p = PlayerPassives::new();
    p.points = 20;
    let mut stats = base_stats();
    for id in [0u32, 100, 101, 102, 104].iter() {
        assert!(p.unlock(&tree, &mut stats, *id));
    }
    // the armor multiplier is not folded into the attribute ...
    assert_eq!(stats.armor, 20_000);
    let mods = derive_modifiers(&tree, &p);
    // ... it scales the effective armor inside the pipeline instead
    assert_eq!(mods.armor_mult, 1_300);
    assert_eq!(arpg_core::damage::effective_armor(stats.armor, mods.armor_mult, 0), 26_000);
    assert_eq!(mods.shield_regen, 8_000);
    assert_eq!(mods.shield_leech, 30);
    assert_eq!(mods.damage_mult, 1_000);
}

#[test]
fn path_to_deep_node_follows_first_prerequisites() {
    let tree = passive_tree_data();
    let unlocked: Vec<u32> = Vec::new();
    let path = find_path_to_node(12, &tree, &unlocked);
    assert_eq!(path, vec![0, 200, 201, 11, 12]);
}

#[test]
fn path_to_unlocked_node_is_itself() {
    let tree = passive_tree_data();
    let unlocked: Vec<u32> = vec![0, 200];
    let path = find_path_to_node(200, &tree, &unlocked);
    assert_eq!(path, vec![200]);
}

#[test]
fn path_stops_at_first_unlocked_ancestor() {
    let tree = passive_tree_data();
    let unlocked: Vec<u32> = vec![0, 200, 201];
    let path = find_path_to_node(12, &tree, &unlocked);
    assert_eq!(path, vec![201, 11, 12]);
}

#[test]
fn effects_match_the_design() {
    let tree = passive_tree_data();
    for node in tree.nodes.iter() {
        match node.id {
            8 => assert!(matches!(node.effect, PassiveEffect::Knockback)),
            9 => assert!(matches!(node.effect, PassiveEffect::Explosion)),
            10 => assert!(matches!(node.effect, PassiveEffect::Ricochet)),
            11 => assert!(matches!(node.effect, PassiveEffect::ChanceFire(200))),
            14 => assert!(matches!(node.effect, PassiveEffect::ChanceIce(250))),
            17 => assert!(matches!(node.effect, PassiveEffect::ChanceLightning(150))),
            12 => assert!(matches!(node.effect, PassiveEffect::MasteryFire)),
            15 => assert!(matches!(node.effect, PassiveEffect::MasteryIce)),
            18 => assert!(matches!(node.effect, PassiveEffect::MasteryLightning)),
            102 => assert!(matches!(node.effect, PassiveEffect::ShieldRegen(8_000))),
            203 => assert!(matches!(node.effect, PassiveEffect::LifeLeech(15))),
            104 => assert!(matches!(node.effect, PassiveEffect::ShieldLeech(30))),
            _ => {}
        }
    }
}

#[test]
fn node_categories_follow_the_effects() {
    let tree = passive_tree_data();
    for node in tree.nodes.iter() {
        let cat = node_category(node.id, &node.effect);
        match node.id {
            0 => assert_eq!(cat, NodeCategory::Origin),
            200 | 201 | 202 | 204 | 205 => assert_eq!(cat, NodeCategory::Damage),
            100 | 101 | 102 | 104 | 107 | 203 | 106 => assert_eq!(cat, NodeCategory::Defense),
            8 | 9 | 10 | 105 => assert_eq!(cat, NodeCategory::Utility),
            _ => assert_eq!(cat, NodeCategory::Elemental),
        }
    }
}
