//! The standard passive-node graph the game ships with.
//!
//! Twenty-three nodes: an origin, a damage branch (flat damage, crit,
//! multiplicative damage, attack speed, leech, knockback, explosion,
//! ricochet), a defense branch (armor, armor multiplier, shield regen,
//! shield leech, life regen) and three elemental branches, each a proc
//! chance gating a mastery node.

use vstd::prelude::*;
use crate::passives::{
    PassiveEffect, PassiveNode, PassiveTree, effect_wf, tree_contains, tree_wf,
};
use crate::stats::Stats;

verus! {

/// Appends one node, keeping the tree well-formed. The id must be fresh
/// and every prerequisite must already be present.
fn push_node(t: &mut PassiveTree, id: u32, effect: PassiveEffect, requirements: Vec<u32>)
    requires
        tree_wf(*old(t)),
        effect_wf(effect),
        forall|i: int| 0 <= i < old(t).nodes@.len() ==> old(t).nodes@[i].id != id,
        forall|k: int|
            0 <= k < requirements@.len() ==> tree_contains(*old(t), requirements@[k]),
    ensures
        tree_wf(*final(t)),
        final(t).nodes@.len() == old(t).nodes@.len() + 1,
        forall|i: int| 0 <= i < old(t).nodes@.len() ==> final(t).nodes@[i] == old(t).nodes@[i],
        final(t).nodes@[old(t).nodes@.len() as int].id == id,
        final(t).nodes@[old(t).nodes@.len() as int].effect == effect,
        final(t).nodes@[old(t).nodes@.len() as int].requirements@ == requirements@,
        final(t).connections@ == old(t).connections@,
{
    let ghost pre = t.nodes@;
    let ghost reqs = requirements@;
    t.nodes.push(PassiveNode { id, effect, requirements });
    proof {
        let post = t.nodes@;
        let n = pre.len() as int;
        assert forall|a: int, b: int| 0 <= a < b < post.len() implies post[a].id != post[b].id by {
            if b < n {
                assert(pre[a].id != pre[b].id);
            }
        }
        assert forall|i: int, k: int|
            0 <= i < post.len() && 0 <= k < post[i].requirements@.len() implies #[trigger]
        crate::passives::req_defined_earlier(post, i, k) by {
            if i < n {
                assert(crate::passives::req_defined_earlier(pre, i, k));
                let j = choose|j: int| 0 <= j < i && pre[j].id == pre[i].requirements@[k];
                assert(post[j].id == post[i].requirements@[k]);
            } else {
                assert(post[i].requirements@ == reqs);
                assert(tree_contains(*old(t), reqs[k]));
                let j = choose|j: int| 0 <= j < n && pre[j].id == reqs[k];
                assert(post[j].id == post[i].requirements@[k]);
            }
        }
        assert forall|i: int| 0 <= i < post.len() implies effect_wf(#[trigger] post[i].effect) by {
            if i < n {
                assert(effect_wf(pre[i].effect));
            }
        }
    }
}

/// A requirements list of one prerequisite.
fn one_req(a: u32) -> (v: Vec<u32>)
    ensures
        v@ =~= seq![a],
{
    let mut v: Vec<u32> = Vec::new();
    v.push(a);
    v
}

/// A stat-delta record that only adds damage.
fn add_damage(d: i64) -> (r: Stats)
    requires
        0 <= d <= crate::units::MAX_UNITS,
    ensures
        r == (Stats {
            speed: 0,
            damage: d,
            attack_speed: 0,
            crit_chance: 0,
            crit_multiplier: 0,
            life_regen: 0,
            armor: 0,
        }),
{
    let mut s = Stats::zero();
    s.damage = d;
    s
}

/// A multiplier record that leaves every attribute unchanged.
fn mult_identity() -> (r: Stats)
    ensures
        r == (Stats {
            speed: 1000,
            damage: 1000,
            attack_speed: 1000,
            crit_chance: 1000,
            crit_multiplier: 1000,
            life_regen: 1000,
            armor: 1000,
        }),
{
    Stats {
        speed: 1000,
        damage: 1000,
        attack_speed: 1000,
        crit_chance: 1000,
        crit_multiplier: 1000,
        life_regen: 1000,
        armor: 1000,
    }
}

/// A stat-gain payload: the named deltas, nothing else.
pub open spec fn spec_gain(
    damage: i64,
    attack_speed: i64,
    crit_chance: i64,
    life_regen: i64,
    armor: i64,
) -> Stats {
    Stats {
        speed: 0,
        damage,
        attack_speed,
        crit_chance,
        crit_multiplier: 0,
        life_regen,
        armor,
    }
}

/// A multiplier payload: damage and armor factors, identity elsewhere.
pub open spec fn spec_boost(damage: i64, armor: i64) -> Stats {
    Stats {
        speed: 1000,
        damage,
        attack_speed: 1000,
        crit_chance: 1000,
        crit_multiplier: 1000,
        life_regen: 1000,
        armor,
    }
}

/// Node `i` of the tree carries exactly this id, effect and
/// prerequisite list.
pub open spec fn node_is(
    t: PassiveTree,
    i: int,
    id: u32,
    e: PassiveEffect,
    reqs: Seq<u32>,
) -> bool {
    &&& t.nodes@[i].id == id
    &&& t.nodes@[i].effect == e
    &&& t.nodes@[i].requirements@ =~= reqs
}

/// The standard graph, node by node and edge by edge: an origin, a
/// damage branch, a defense branch and three elemental branches.
pub open spec fn standard_tree(t: PassiveTree) -> bool {
    &&& t.nodes@.len() == 23
    &&& node_is(t, 0, 0, PassiveEffect::StatAdd(spec_gain(10_000, 0, 0, 0, 0)), Seq::<u32>::empty())
    &&& node_is(t, 1, 200, PassiveEffect::StatAdd(spec_gain(15_000, 0, 0, 0, 0)), seq![0u32])
    &&& node_is(t, 2, 201, PassiveEffect::StatMult(spec_boost(1250, 1000)), seq![200u32])
    &&& node_is(t, 3, 202, PassiveEffect::StatAdd(spec_gain(0, 0, 100, 0, 0)), seq![200u32])
    &&& node_is(t, 4, 203, PassiveEffect::LifeLeech(15), seq![201u32])
    &&& node_is(t, 5, 204, PassiveEffect::StatMult(spec_boost(1100, 1000)), seq![200u32])
    &&& node_is(t, 6, 205, PassiveEffect::StatAdd(spec_gain(0, 150, 0, 0, 0)), seq![204u32])
    &&& node_is(t, 7, 8, PassiveEffect::Knockback, seq![200u32])
    &&& node_is(t, 8, 9, PassiveEffect::Explosion, seq![201u32])
    &&& node_is(t, 9, 10, PassiveEffect::Ricochet, seq![202u32])
    &&& node_is(t, 10, 100, PassiveEffect::StatAdd(spec_gain(0, 0, 0, 0, 20_000)), seq![0u32])
    &&& node_is(t, 11, 101, PassiveEffect::StatMult(spec_boost(1000, 1300)), seq![100u32])
    &&& node_is(t, 12, 102, PassiveEffect::ShieldRegen(8_000), seq![100u32])
    &&& node_is(t, 13, 104, PassiveEffect::ShieldLeech(30), seq![102u32])
    &&& node_is(t, 14, 105, PassiveEffect::StatAdd(spec_gain(0, 0, 0, 0, 0)), seq![100u32])
    &&& node_is(t, 15, 106, PassiveEffect::StatMult(spec_boost(1000, 1150)), seq![105u32])
    &&& node_is(t, 16, 107, PassiveEffect::StatAdd(spec_gain(0, 0, 0, 5_000, 0)), seq![105u32])
    &&& node_is(t, 17, 11, PassiveEffect::ChanceFire(200), seq![201u32])
    &&& node_is(t, 18, 12, PassiveEffect::MasteryFire, seq![11u32])
    &&& node_is(t, 19, 14, PassiveEffect::ChanceIce(250), seq![102u32])
    &&& node_is(t, 20, 15, PassiveEffect::MasteryIce, seq![14u32])
    &&& node_is(t, 21, 17, PassiveEffect::ChanceLightning(150), seq![202u32])
    &&& node_is(t, 22, 18, PassiveEffect::MasteryLightning, seq![17u32])
    &&& t.connections@ =~= seq![
        (0u32, 200u32), (200u32, 201u32), (200u32, 202u32), (201u32, 203u32), (200u32, 204u32),
        (204u32, 205u32), (200u32, 8u32), (202u32, 10u32), (201u32, 9u32), (0u32, 100u32),
        (100u32, 101u32), (100u32, 102u32), (102u32, 104u32), (100u32, 105u32), (105u32, 106u32),
        (105u32, 107u32), (201u32, 11u32), (11u32, 12u32), (102u32, 14u32), (14u32, 15u32),
        (202u32, 17u32), (17u32, 18u32),
    ]
}

/// Builds the standard passive graph.
#[verifier::rlimit(100)]
pub fn passive_tree_data() -> (t: PassiveTree)
    ensures
        tree_wf(t),
        standard_tree(t),
{
    let mut t = PassiveTree { nodes: Vec::new(), connections: Vec::new() };

    push_node(&mut t, 0, PassiveEffect::StatAdd(add_damage(10_000)), Vec::new());

    push_node(&mut t, 200, PassiveEffect::StatAdd(add_damage(15_000)), one_req(0));
    let mut brutality = mult_identity();
    brutality.damage = 1250;
    push_node(&mut t, 201, PassiveEffect::StatMult(brutality), one_req(200));
    let mut precision = Stats::zero();
    precision.crit_chance = 100;
    push_node(&mut t, 202, PassiveEffect::StatAdd(precision), one_req(200));
    push_node(&mut t, 203, PassiveEffect::LifeLeech(15), one_req(201));
    let mut slaughter = mult_identity();
    slaughter.damage = 1100;
    push_node(&mut t, 204, PassiveEffect::StatMult(slaughter), one_req(200));
    let mut celerity = Stats::zero();
    celerity.attack_speed = 150;
    push_node(&mut t, 205, PassiveEffect::StatAdd(celerity), one_req(204));
    push_node(&mut t, 8, PassiveEffect::Knockback, one_req(200));
    push_node(&mut t, 9, PassiveEffect::Explosion, one_req(201));
    push_node(&mut t, 10, PassiveEffect::Ricochet, one_req(202));

    let mut guardian = Stats::zero();
    guardian.armor = 20_000;
    push_node(&mut t, 100, PassiveEffect::StatAdd(guardian), one_req(0));
    let mut aegis = mult_identity();
    aegis.armor = 1300;
    push_node(&mut t, 101, PassiveEffect::StatMult(aegis), one_req(100));
    push_node(&mut t, 102, PassiveEffect::ShieldRegen(8_000), one_req(100));
    push_node(&mut t, 104, PassiveEffect::ShieldLeech(30), one_req(102));
    push_node(&mut t, 105, PassiveEffect::StatAdd(Stats::zero()), one_req(100));
    let mut bastion = mult_identity();
    bastion.armor = 1150;
    push_node(&mut t, 106, PassiveEffect::StatMult(bastion), one_req(105));
    let mut mending = Stats::zero();
    mending.life_regen = 5_000;
    push_node(&mut t, 107, PassiveEffect::StatAdd(mending), one_req(105));

    push_node(&mut t, 11, PassiveEffect::ChanceFire(200), one_req(201));
    push_node(&mut t, 12, PassiveEffect::MasteryFire, one_req(11));
    push_node(&mut t, 14, PassiveEffect::ChanceIce(250), one_req(102));
    push_node(&mut t, 15, PassiveEffect::MasteryIce, one_req(14));
    push_node(&mut t, 17, PassiveEffect::ChanceLightning(150), one_req(202));
    push_node(&mut t, 18, PassiveEffect::MasteryLightning, one_req(17));

    push_connection(&mut t, 0, 200);
    push_connection(&mut t, 200, 201);
    push_connection(&mut t, 200, 202);
    push_connection(&mut t, 201, 203);
    push_connection(&mut t, 200, 204);
    push_connection(&mut t, 204, 205);
    push_connection(&mut t, 200, 8);
    push_connection(&mut t, 202, 10);
    push_connection(&mut t, 201, 9);
    push_connection(&mut t, 0, 100);
    push_connection(&mut t, 100, 101);
    push_connection(&mut t, 100, 102);
    push_connection(&mut t, 102, 104);
    push_connection(&mut t, 100, 105);
    push_connection(&mut t, 105, 106);
    push_connection(&mut t, 105, 107);
    push_connection(&mut t, 201, 11);
    push_connection(&mut t, 11, 12);
    push_connection(&mut t, 102, 14);
    push_connection(&mut t, 14, 15);
    push_connection(&mut t, 202, 17);
    push_connection(&mut t, 17, 18);

    proof {
        assert(standard_tree(t));
    }
    t
}

/// Appends one edge of the graph's drawing, leaving the nodes alone.
fn push_connection(t: &mut PassiveTree, a: u32, b: u32)
    requires
        tree_wf(*old(t)),
    ensures
        tree_wf(*final(t)),
        final(t).nodes@ == old(t).nodes@,
        final(t).connections@ == old(t).connections@.push((a, b)),
{
    t.connections.push((a, b));
}

} // verus!
