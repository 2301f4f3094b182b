//! The passive-modifier graph: a DAG of unlockable nodes gating stat
//! bonuses and behavioral flags.
//!
//! Nodes are static configuration; the player's progress is the set of
//! unlocked node ids plus an available point count. A node unlocks only
//! while a point is available, only once, and only if it has no
//! prerequisites or at least one prerequisite is already unlocked.
//! Additive stat effects are folded into the actor's attributes once, at
//! unlock time; multiplier and behavioral effects are summarized into a
//! derived record of active modifiers consumed by the damage pipeline
//! and regen routines, so every bonus lands exactly once.

use vstd::prelude::*;
use crate::stats::{Stats, add_capped, mult_record_wf, stats_plus, stats_wf};
use crate::units::{MAX_MULT, MAX_UNITS, MILLI, min64, mul_milli};

verus! {

/// What a passive node grants once unlocked.
///
/// `StatAdd` carries milli-unit deltas; `StatMult` carries elementwise
/// milli-multipliers where 1000 leaves an attribute unchanged. Chance,
/// leech and regen payloads are milli-fractions or milli-units per second.
#[derive(Clone, Copy, Debug, PartialEq, Eq, Structural)]
pub enum PassiveEffect {
    StatAdd(Stats),
    StatMult(Stats),
    Ricochet,
    Explosion,
    Knockback,
    ChanceFire(i64),
    ChanceIce(i64),
    ChanceLightning(i64),
    MasteryFire,
    MasteryIce,
    MasteryLightning,
    ShieldRegen(i64),
    LifeLeech(i64),
    ShieldLeech(i64),
}

/// Payload bounds every effect in a well-formed tree obeys.
pub open spec fn effect_wf(e: PassiveEffect) -> bool {
    match e {
        PassiveEffect::StatAdd(d) => stats_wf(d),
        PassiveEffect::StatMult(m) => mult_record_wf(m),
        PassiveEffect::ChanceFire(c) => 0 <= c <= MILLI,
        PassiveEffect::ChanceIce(c) => 0 <= c <= MILLI,
        PassiveEffect::ChanceLightning(c) => 0 <= c <= MILLI,
        PassiveEffect::ShieldRegen(r) => 0 <= r <= MAX_UNITS,
        PassiveEffect::LifeLeech(l) => 0 <= l <= MILLI,
        PassiveEffect::ShieldLeech(l) => 0 <= l <= MILLI,
        _ => true,
    }
}

/// One unlockable node: identity, effect, prerequisite node ids.
pub struct PassiveNode {
    pub id: u32,
    pub effect: PassiveEffect,
    pub requirements: Vec<u32>,
}

/// The static node graph. Nodes are stored in topological order:
/// every prerequisite id names a node that appears earlier in the list.
pub struct PassiveTree {
    pub nodes: Vec<PassiveNode>,
    pub connections: Vec<(u32, u32)>,
}

/// Well-formedness of the tree: ids are pairwise distinct, every
/// prerequisite refers to an earlier node (so the graph is acyclic),
/// and every effect payload is in bounds.
pub open spec fn tree_wf(t: PassiveTree) -> bool {
    &&& forall|i: int, j: int|
        0 <= i < j < t.nodes@.len() ==> t.nodes@[i].id != t.nodes@[j].id
    &&& forall|i: int, k: int|
        0 <= i < t.nodes@.len() && 0 <= k < t.nodes@[i].requirements@.len()
            ==> #[trigger] req_defined_earlier(t.nodes@, i, k)
    &&& forall|i: int| 0 <= i < t.nodes@.len() ==> effect_wf(#[trigger] t.nodes@[i].effect)
}

/// Prerequisite `k` of node `i` names a node at a smaller index.
pub open spec fn req_defined_earlier(nodes: Seq<PassiveNode>, i: int, k: int) -> bool {
    exists|j: int|
        0 <= j < i && nodes[j].id == nodes[i].requirements@[k]
}

/// Whether some node of the tree carries the given id.
pub open spec fn tree_contains(t: PassiveTree, id: u32) -> bool {
    exists|i: int| 0 <= i < t.nodes@.len() && t.nodes@[i].id == id
}

/// The index of the node with the given id (well-defined under `tree_wf`).
pub open spec fn node_index(t: PassiveTree, id: u32) -> int {
    choose|i: int| 0 <= i < t.nodes@.len() && t.nodes@[i].id == id
}

/// The node with the given id.
pub open spec fn node_at(t: PassiveTree, id: u32) -> PassiveNode {
    t.nodes@[node_index(t, id)]
}

/// In a well-formed tree, any two indices holding the same id coincide.
pub proof fn lemma_node_index_unique(t: PassiveTree, i: int, id: u32)
    requires
        tree_wf(t),
        0 <= i < t.nodes@.len(),
        t.nodes@[i].id == id,
    ensures
        node_index(t, id) == i,
        node_at(t, id) == t.nodes@[i],
{
    assert(tree_contains(t, id));
    let j = node_index(t, id);
    assert(0 <= j < t.nodes@.len() && t.nodes@[j].id == id);
    if i < j {
        assert(t.nodes@[i].id != t.nodes@[j].id);
    } else if j < i {
        assert(t.nodes@[j].id != t.nodes@[i].id);
    }
}

impl PassiveTree {
    /// Looks a node up by id, returning its position in the node list.
    pub fn find_node(&self, id: u32) -> (r: Option<usize>)
        ensures
            match r {
                Some(i) => i < self.nodes@.len() && self.nodes@[i as int].id == id,
                None => !tree_contains(*self, id),
            },
    {
        let mut i: usize = 0;
        while i < self.nodes.len()
            invariant
                i <= self.nodes@.len(),
                forall|k: int| 0 <= k < i ==> self.nodes@[k].id != id,
            decreases self.nodes@.len() - i,
        {
            if self.nodes[i].id == id {
                return Some(i);
            }
            i = i + 1;
        }
        None
    }
}

/// The player's progress through the graph: unlocked ids and points left.
pub struct PlayerPassives {
    pub unlocked_nodes: Vec<u32>,
    pub points: u32,
}

/// A well-formed progress record never lists an id twice.
pub open spec fn passives_wf(p: PlayerPassives) -> bool {
    forall|i: int, j: int|
        0 <= i < j < p.unlocked_nodes@.len()
            ==> p.unlocked_nodes@[i] != p.unlocked_nodes@[j]
}

/// When a node may be unlocked: a point is available, the node exists,
/// it is not yet unlocked, and it is a root (no prerequisites) or at
/// least one prerequisite is already unlocked.
pub open spec fn spec_can_unlock(p: PlayerPassives, t: PassiveTree, id: u32) -> bool {
    &&& p.points >= 1
    &&& !p.unlocked_nodes@.contains(id)
    &&& tree_contains(t, id)
    &&& {
        let reqs = node_at(t, id).requirements@;
        reqs.len() == 0 || exists|k: int| 0 <= k < reqs.len() && p.unlocked_nodes@.contains(reqs[k])
    }
}

/// The stat record after an unlock: additive stat effects fold into the
/// attributes once, at unlock time. Every other effect, multipliers
/// included, leaves the attributes alone: those stack into the derived
/// modifier record instead, so each bonus lands exactly once.
pub open spec fn stats_after_effect(s: Stats, e: PassiveEffect) -> Stats {
    match e {
        PassiveEffect::StatAdd(d) => stats_plus(s, d),
        _ => s,
    }
}

impl PlayerPassives {
    /// A fresh record: nothing unlocked, no points.
    pub fn new() -> (r: PlayerPassives)
        ensures
            r.unlocked_nodes@ =~= Seq::<u32>::empty(),
            r.points == 0,
            passives_wf(r),
    {
        PlayerPassives { unlocked_nodes: Vec::new(), points: 0 }
    }

    /// Whether the node with this id has been unlocked.
    pub fn has_unlocked(&self, id: u32) -> (r: bool)
        ensures
            r == self.unlocked_nodes@.contains(id),
    {
        let mut i: usize = 0;
        while i < self.unlocked_nodes.len()
            invariant
                i <= self.unlocked_nodes@.len(),
                forall|k: int| 0 <= k < i ==> self.unlocked_nodes@[k] != id,
            decreases self.unlocked_nodes@.len() - i,
        {
            if self.unlocked_nodes[i] == id {
                return true;
            }
            i = i + 1;
        }
        false
    }

    /// Whether at least one id of the list is already unlocked.
    pub fn has_any_unlocked(&self, ids: &Vec<u32>) -> (r: bool)
        ensures
            r == exists|k: int| 0 <= k < ids@.len() && self.unlocked_nodes@.contains(ids@[k]),
    {
        let mut i: usize = 0;
        while i < ids.len()
            invariant
                i <= ids@.len(),
                forall|k: int| 0 <= k < i ==> !self.unlocked_nodes@.contains(ids@[k]),
            decreases ids@.len() - i,
        {
            if self.has_unlocked(ids[i]) {
                return true;
            }
            i = i + 1;
        }
        false
    }

    /// Whether the unlock preconditions hold for this node.
    pub fn can_unlock(&self, tree: &PassiveTree, id: u32) -> (r: bool)
        requires
            tree_wf(*tree),
        ensures
            r == spec_can_unlock(*self, *tree, id),
    {
        if self.points == 0 {
            return false;
        }
        if self.has_unlocked(id) {
            return false;
        }
        match tree.find_node(id) {
            None => false,
            Some(i) => {
                proof {
                    assert(tree_contains(*tree, id));
                    lemma_node_index_unique(*tree, i as int, id);
                }
                if tree.nodes[i].requirements.len() == 0 {
                    true
                } else {
                    self.has_any_unlocked(&tree.nodes[i].requirements)
                }
            },
        }
    }

    /// Attempts to unlock a node, per the graph's rules.
    ///
    /// On success the node id joins the unlocked set, one point is spent,
    /// and an additive stat effect is folded into the given attributes
    /// (multiplier and behavioral effects take hold through the derived
    /// modifier record instead); an invalid
    /// attempt (no points, already unlocked, missing node, unmet
    /// prerequisites) is rejected with no state change. The unlocked set
    /// only ever grows.
    pub fn unlock(&mut self, tree: &PassiveTree, stats: &mut Stats, id: u32) -> (r: bool)
        requires
            passives_wf(*old(self)),
            tree_wf(*tree),
            stats_wf(*old(stats)),
        ensures
            r == spec_can_unlock(*old(self), *tree, id),
            passives_wf(*final(self)),
            stats_wf(*final(stats)),
            !r ==> *final(self) == *old(self) && *final(stats) == *old(stats),
            r ==> final(self).unlocked_nodes@ == old(self).unlocked_nodes@.push(id),
            r ==> final(self).points == old(self).points - 1,
            r ==> *final(stats) == stats_after_effect(*old(stats), node_at(*tree, id).effect),
            forall|n: u32|
                old(self).unlocked_nodes@.contains(n) ==> final(self).unlocked_nodes@.contains(n),
    {
        if !self.can_unlock(tree, id) {
            return false;
        }
        let i = match tree.find_node(id) {
            Some(i) => i,
            None => {
                proof {
                    assert(false);
                }
                return false;
            },
        };
        proof {
            lemma_same_id_same_node(*tree, i as int, node_index(*tree, id), id);
            assert(effect_wf(tree.nodes@[i as int].effect));
        }
        self.unlocked_nodes.push(id);
        self.points = self.points - 1;
        match &tree.nodes[i].effect {
            PassiveEffect::StatAdd(d) => {
                stats.add(d);
            },
            _ => {},
        }
        proof {
            let pre = old(self).unlocked_nodes@;
            let post = self.unlocked_nodes@;
            assert forall|a: int, b: int| 0 <= a < b < post.len() implies post[a] != post[b] by {
                if b < post.len() - 1 {
                    assert(pre[a] == post[a] && pre[b] == post[b]);
                } else {
                    assert(post[b] == id);
                    assert(pre.contains(pre[a]));
                }
            }
            assert forall|n: u32| pre.contains(n) implies post.contains(n) by {
                let w = choose|w: int| 0 <= w < pre.len() && pre[w] == n;
                assert(post[w] == n);
            }
        }
        true
    }
}

/// The display family a node belongs to.
#[derive(Clone, Copy, Debug, PartialEq, Eq, Structural)]
pub enum NodeCategory {
    Damage,
    Defense,
    Utility,
    Elemental,
    Origin,
}

/// The category an effect falls in: offensive stat gains are damage,
/// defensive ones defense, movement is utility; behavioral flags are
/// utility, everything elemental is elemental, regen and leech are
/// defense. Multiplier records count a field as boosted only above the
/// identity factor.
pub open spec fn spec_effect_category(e: PassiveEffect) -> NodeCategory {
    match e {
        PassiveEffect::StatAdd(s) => if s.damage > 0 || s.crit_chance > 0 || s.crit_multiplier > 0
            || s.attack_speed > 0 {
            NodeCategory::Damage
        } else if s.armor > 0 || s.life_regen > 0 {
            NodeCategory::Defense
        } else {
            NodeCategory::Utility
        },
        PassiveEffect::StatMult(s) => if s.damage > 1000 || s.crit_chance > 1000
            || s.crit_multiplier > 1000 || s.attack_speed > 1000 {
            NodeCategory::Damage
        } else if s.armor > 1000 {
            NodeCategory::Defense
        } else {
            NodeCategory::Utility
        },
        PassiveEffect::Ricochet => NodeCategory::Utility,
        PassiveEffect::Explosion => NodeCategory::Utility,
        PassiveEffect::Knockback => NodeCategory::Utility,
        PassiveEffect::ShieldRegen(_) => NodeCategory::Defense,
        PassiveEffect::LifeLeech(_) => NodeCategory::Defense,
        PassiveEffect::ShieldLeech(_) => NodeCategory::Defense,
        _ => NodeCategory::Elemental,
    }
}

/// The category shown for a node; the origin stands apart.
pub fn node_category(node_id: u32, effect: &PassiveEffect) -> (r: NodeCategory)
    ensures
        node_id == 0 ==> r == NodeCategory::Origin,
        node_id != 0 ==> r == spec_effect_category(*effect),
{
    if node_id == 0 {
        return NodeCategory::Origin;
    }
    match effect {
        PassiveEffect::StatAdd(s) => {
            if s.damage > 0 || s.crit_chance > 0 || s.crit_multiplier > 0 || s.attack_speed > 0 {
                NodeCategory::Damage
            } else if s.armor > 0 || s.life_regen > 0 {
                NodeCategory::Defense
            } else {
                NodeCategory::Utility
            }
        },
        PassiveEffect::StatMult(s) => {
            if s.damage > 1000 || s.crit_chance > 1000 || s.crit_multiplier > 1000
                || s.attack_speed > 1000 {
                NodeCategory::Damage
            } else if s.armor > 1000 {
                NodeCategory::Defense
            } else {
                NodeCategory::Utility
            }
        },
        PassiveEffect::Ricochet => NodeCategory::Utility,
        PassiveEffect::Explosion => NodeCategory::Utility,
        PassiveEffect::Knockback => NodeCategory::Utility,
        PassiveEffect::ShieldRegen(_) => NodeCategory::Defense,
        PassiveEffect::LifeLeech(_) => NodeCategory::Defense,
        PassiveEffect::ShieldLeech(_) => NodeCategory::Defense,
        _ => NodeCategory::Elemental,
    }
}

/// Whether a plain id list holds the given id.
fn contains_u32(ids: &Vec<u32>, id: u32) -> (r: bool)
    ensures
        r == ids@.contains(id),
{
    let mut i: usize = 0;
    while i < ids.len()
        invariant
            i <= ids@.len(),
            forall|k: int| 0 <= k < i ==> ids@[k] != id,
        decreases ids@.len() - i,
    {
        if ids[i] == id {
            return true;
        }
        i = i + 1;
    }
    false
}

/// A vector reversed.
fn reversed(v: &Vec<u32>) -> (r: Vec<u32>)
    ensures
        r@.len() == v@.len(),
        forall|k: int| 0 <= k < v@.len() ==> r@[k] == v@[v@.len() - 1 - k],
{
    let mut r: Vec<u32> = Vec::new();
    let mut i: usize = v.len();
    while i > 0
        invariant
            i <= v@.len(),
            r@.len() == v@.len() - i,
            forall|k: int| 0 <= k < r@.len() ==> r@[k] == v@[v@.len() - 1 - k],
        decreases i,
    {
        i = i - 1;
        r.push(v[i]);
    }
    r
}

/// The walked chain, target first: each entry names a node whose first
/// listed prerequisite is the next entry.
pub open spec fn follows_first_reqs(t: PassiveTree, s: Seq<u32>) -> bool {
    forall|k: int|
        0 <= k < s.len() - 1 ==> tree_contains(t, #[trigger] s[k]) && node_at(
            t,
            s[k],
        ).requirements@.len() > 0 && s[k + 1] == node_at(t, s[k]).requirements@[0]
}

/// The result chain, root-end first: each entry is the first listed
/// prerequisite of the next.
pub open spec fn chain_to_target(t: PassiveTree, s: Seq<u32>) -> bool {
    forall|k: int|
        0 <= k < s.len() - 1 ==> tree_contains(t, s[k + 1]) && node_at(
            t,
            s[k + 1],
        ).requirements@.len() > 0 && #[trigger] s[k] == node_at(t, s[k + 1]).requirements@[0]
}

/// Where the walk may stop: at the origin, at an already-unlocked node,
/// at an id the tree does not hold, or at a node without prerequisites.
pub open spec fn walk_stop(t: PassiveTree, unlocked: Seq<u32>, id: u32) -> bool {
    ||| id == 0
    ||| unlocked.contains(id)
    ||| !tree_contains(t, id)
    ||| node_at(t, id).requirements@.len() == 0
}

/// The path-to-root highlighting helper: starting from the target it
/// repeatedly follows each node's first listed prerequisite, stopping at
/// the origin, at an already-unlocked node, at a node without
/// prerequisites, or at an id the tree does not hold. The result runs
/// root-end first and ends at the target, each entry the first
/// prerequisite of the next; its head meets a stop condition and no
/// earlier element does, so the walk is carried all the way to its stop;
/// an already-unlocked target yields itself alone. The helper never
/// decides unlock legality.
pub fn find_path_to_node(target_id: u32, tree: &PassiveTree, unlocked: &Vec<u32>) -> (path: Vec<
    u32,
>)
    requires
        tree_wf(*tree),
    ensures
        path@.len() >= 1,
        path@[path@.len() - 1] == target_id,
        unlocked@.contains(target_id) ==> path@ =~= seq![target_id],
        chain_to_target(*tree, path@),
        walk_stop(*tree, unlocked@, path@[0]),
        forall|k: int|
            1 <= k < path@.len() - 1 ==> (#[trigger] path@[k]) != 0 && !unlocked@.contains(
                path@[k],
            ),
{
    let mut walk: Vec<u32> = Vec::new();
    walk.push(target_id);
    if contains_u32(unlocked, target_id) {
        return walk;
    }
    let mut current = target_id;
    let ghost mut bound: int = tree.nodes@.len() as int;
    while current != 0
        invariant_except_break
            tree_wf(*tree),
            walk@.len() >= 1,
            walk@[0] == target_id,
            walk@[walk@.len() - 1] == current,
            !unlocked@.contains(current),
            follows_first_reqs(*tree, walk@),
            forall|k: int|
                1 <= k < walk@.len() - 1 ==> (#[trigger] walk@[k]) != 0 && !unlocked@.contains(
                    walk@[k],
                ),
            tree_contains(*tree, current) ==> node_index(*tree, current) < bound,
            0 <= bound <= tree.nodes@.len(),
        ensures
            walk@.len() >= 1,
            walk@[0] == target_id,
            follows_first_reqs(*tree, walk@),
            walk_stop(*tree, unlocked@, walk@[walk@.len() - 1]),
            forall|k: int|
                1 <= k < walk@.len() - 1 ==> (#[trigger] walk@[k]) != 0 && !unlocked@.contains(
                    walk@[k],
                ),
        decreases bound,
    {
        match tree.find_node(current) {
            None => {
                break ;
            },
            Some(i) => {
                proof {
                    lemma_node_index_unique(*tree, i as int, current);
                }
                if tree.nodes[i].requirements.len() == 0 {
                    break ;
                }
                let req = tree.nodes[i].requirements[0];
                let ghost pre = walk@;
                walk.push(req);
                proof {
                    assert(req_defined_earlier(tree.nodes@, i as int, 0));
                    let j = choose|j: int|
                        0 <= j < i && tree.nodes@[j].id == tree.nodes@[i as int].requirements@[0];
                    assert(tree_contains(*tree, req));
                    lemma_node_index_unique(*tree, j, req);
                    bound = i as int;
                    assert forall|k: int|
                        0 <= k < walk@.len() - 1 implies tree_contains(*tree, #[trigger] walk@[k])
                        && node_at(*tree, walk@[k]).requirements@.len() > 0 && walk@[k + 1]
                        == node_at(*tree, walk@[k]).requirements@[0] by {
                        if k < pre.len() - 1 {
                            assert(pre[k] == walk@[k] && pre[k + 1] == walk@[k + 1]);
                            assert(follows_first_reqs(*tree, pre));
                            assert(tree_contains(*tree, pre[k]) && node_at(
                                *tree,
                                pre[k],
                            ).requirements@.len() > 0 && pre[k + 1] == node_at(
                                *tree,
                                pre[k],
                            ).requirements@[0]);
                        } else {
                            assert(walk@[k] == current && walk@[k + 1] == req);
                        }
                    }
                    assert(follows_first_reqs(*tree, walk@));
                    assert forall|k: int|
                        1 <= k < walk@.len() - 1 implies (#[trigger] walk@[k]) != 0
                        && !unlocked@.contains(walk@[k]) by {
                        if k < pre.len() - 1 {
                            assert(pre[k] == walk@[k]);
                        } else {
                            assert(walk@[k] == current);
                        }
                    }
                }
                current = req;
                if contains_u32(unlocked, req) {
                    break ;
                }
            },
        }
    }
    let path = reversed(&walk);
    proof {
        let n = walk@.len() as int;
        assert(path@[path@.len() - 1] == walk@[0]);
        assert(path@[0] == walk@[n - 1]);
        assert forall|k: int|
            0 <= k < path@.len() - 1 implies tree_contains(*tree, path@[k + 1]) && node_at(
            *tree,
            path@[k + 1],
        ).requirements@.len() > 0 && #[trigger] path@[k] == node_at(
            *tree,
            path@[k + 1],
        ).requirements@[0] by {
            assert(path@[k + 1] == walk@[n - 2 - k]);
            assert(path@[k] == walk@[n - 1 - k]);
            let w = n - 2 - k;
            assert(0 <= w < n - 1);
            assert(tree_contains(*tree, walk@[w]) && node_at(*tree, walk@[w]).requirements@.len()
                > 0 && walk@[w + 1] == node_at(*tree, walk@[w]).requirements@[0]);
        }
        assert(chain_to_target(*tree, path@));
        assert forall|k: int|
            1 <= k < path@.len() - 1 implies (#[trigger] path@[k]) != 0 && !unlocked@.contains(
            path@[k],
        ) by {
            assert(path@[k] == walk@[n - 1 - k]);
            let w = n - 1 - k;
            assert(1 <= w < n - 1);
            assert(walk@[w] != 0 && !unlocked@.contains(walk@[w]));
        }
    }
    path
}

/// Unlocking is idempotent: a node already in the unlocked set can never
/// satisfy the unlock preconditions again, so a repeated unlock of the
/// same node is a no-op by `unlock`'s contract.
pub proof fn lemma_unlock_idempotent(p: PlayerPassives, t: PassiveTree, id: u32)
    requires
        p.unlocked_nodes@.contains(id),
    ensures
        !spec_can_unlock(p, t, id),
{
}

/// Unlocking is monotonic: whether an unlock succeeds (appending the new
/// id) or is rejected (leaving the set alone), the unlocked set never
/// loses a member.
pub proof fn lemma_unlock_monotonic(pre: Seq<u32>, post: Seq<u32>, id: u32)
    requires
        post == pre || post == pre.push(id),
    ensures
        forall|n: u32| pre.contains(n) ==> post.contains(n),
{
    if post == pre.push(id) {
        assert forall|n: u32| pre.contains(n) implies post.contains(n) by {
            let w = choose|w: int| 0 <= w < pre.len() && pre[w] == n;
            assert(post[w] == n);
        }
    }
}

/// A prerequisite-bearing node can be unlocked only while a point is
/// available and at least one of its prerequisites is already unlocked;
/// in particular an actor with zero points can unlock nothing.
pub proof fn lemma_unlock_needs_prerequisite(p: PlayerPassives, t: PassiveTree, id: u32)
    requires
        spec_can_unlock(p, t, id),
    ensures
        p.points >= 1,
        node_at(t, id).requirements@.len() > 0 ==> exists|k: int|
            0 <= k < node_at(t, id).requirements@.len() && p.unlocked_nodes@.contains(
                node_at(t, id).requirements@[k],
            ),
{
}

/// In a well-formed tree, two indices carrying one id are the same index.
proof fn lemma_same_id_same_node(t: PassiveTree, i: int, j: int, id: u32)
    requires
        tree_wf(t),
        0 <= i < t.nodes@.len(),
        0 <= j < t.nodes@.len(),
        t.nodes@[i].id == id,
        t.nodes@[j].id == id,
    ensures
        i == j,
{
    if i < j {
        assert(t.nodes@[i].id != t.nodes@[j].id);
    } else if j < i {
        assert(t.nodes@[j].id != t.nodes@[i].id);
    }
}

} // verus!
