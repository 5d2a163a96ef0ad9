//! The order in which a registry rebuild visits the elements of a tree.
//!
//! An element is visited first, then its local nearby mounts (each as a
//! whole subtree), then its children. Its escape nearby mounts are deferred:
//! they are visited after the whole subtree that was being walked, in the
//! order they were met, each with its own deferred mounts after it.
//!
//! The tree is an arena in which every node refers only to nodes stored
//! before it (children, mounts); a reference to any other slot is ignored.
use vstd::prelude::*;

use crate::diagnostics::{
    apply_recording, cache_counters, cache_work, law_cache_counters_bounded_by_work, lemma_cache_work_concat,
    lemma_recording_concat, DiagnosticsRecorder, RegistryBuildEvent,
};
use crate::events::registry_builder::{NodeId, REGISTRY_SUBTREE_CACHE_BUDGET};
use crate::events::subtree_cache::{
    decide_subtree_cache, law_cache_events_match_budget, spec_cache_budget_after, spec_cache_events,
    spec_cache_outcome, SubtreeCacheFacts,
    SubtreeCacheOutcome,
};

verus! {

/// What a subtree's cache holds: whether its key matches the subtree's
/// current key, and the visit recorded when it was stored.
pub struct WalkChunk {
    pub key_matches: bool,
    pub order: Vec<NodeId>,
    pub deferred: Vec<usize>,
}

/// One element of a walk tree: its id, its local nearby mounts, the
/// children the walk enters (those it skips are left out), and its escape
/// nearby mounts, all as arena slots; whether its registry is damaged and
/// whether its subtree may be cached; and its subtree's cache, if any.
pub struct WalkNode {
    pub id: NodeId,
    pub local_mounts: Vec<usize>,
    pub children: Vec<usize>,
    pub escape_mounts: Vec<usize>,
    pub damaged: bool,
    pub eligible: bool,
    pub cache: Option<WalkChunk>,
}

pub struct WalkChunkView {
    pub key_matches: bool,
    pub order: Seq<NodeId>,
    pub deferred: Seq<usize>,
}

pub struct WalkNodeView {
    pub id: NodeId,
    pub local_mounts: Seq<usize>,
    pub children: Seq<usize>,
    pub escape_mounts: Seq<usize>,
    pub damaged: bool,
    pub eligible: bool,
    pub cache: Option<WalkChunkView>,
}

pub open spec fn node_view(n: WalkNode) -> WalkNodeView {
    WalkNodeView {
        id: n.id,
        local_mounts: n.local_mounts@,
        children: n.children@,
        escape_mounts: n.escape_mounts@,
        damaged: n.damaged,
        eligible: n.eligible,
        cache: match n.cache {
            Some(c) => Some(WalkChunkView { key_matches: c.key_matches, order: c.order@, deferred: c.deferred@ }),
            None => None,
        },
    }
}

pub open spec fn tree_view(tree: Seq<WalkNode>) -> Seq<WalkNodeView> {
    tree.map_values(|n: WalkNode| node_view(n))
}

/// The visit of slot `ix`: the ids visited in order, and the mounts it
/// defers.
pub open spec fn spec_visit(tree: Seq<WalkNodeView>, ix: int) -> (Seq<NodeId>, Seq<usize>)
    decreases ix + 1, 0int,
{
    if 0 <= ix < tree.len() {
        let local = spec_visit_list(tree, tree[ix].local_mounts, ix);
        let children = spec_visit_list(tree, tree[ix].children, ix);
        (
            seq![tree[ix].id] + local.0 + children.0,
            local.1 + children.1 + tree[ix].escape_mounts,
        )
    } else {
        (Seq::empty(), Seq::empty())
    }
}

/// The visits of the slots of `list` below `bound`, in order.
pub open spec fn spec_visit_list(tree: Seq<WalkNodeView>, list: Seq<usize>, bound: int) -> (Seq<NodeId>, Seq<usize>)
    decreases bound, list.len(),
{
    if list.len() == 0 {
        (Seq::empty(), Seq::empty())
    } else {
        let before = spec_visit_list(tree, list.drop_last(), bound);
        let last = list.last() as int;
        if last < bound {
            let v = spec_visit(tree, last);
            (before.0 + v.0, before.1 + v.1)
        } else {
            before
        }
    }
}

/// The visits of deferred mounts below `bound`, each followed by what it
/// defers in turn.
pub open spec fn spec_drain(tree: Seq<WalkNodeView>, deferred: Seq<usize>, bound: int) -> Seq<NodeId>
    decreases bound, deferred.len(),
{
    if deferred.len() == 0 {
        Seq::empty()
    } else {
        let before = spec_drain(tree, deferred.drop_last(), bound);
        let last = deferred.last() as int;
        if last < bound {
            let v = spec_visit(tree, last);
            before + v.0 + spec_drain(tree, v.1, last)
        } else {
            before
        }
    }
}

/// The whole walk from `root`.
pub open spec fn spec_walk_order(tree: Seq<WalkNodeView>, root: int) -> Seq<NodeId> {
    let v = spec_visit(tree, root);
    v.0 + spec_drain(tree, v.1, root)
}

fn visit(tree: &Vec<WalkNode>, ix: usize) -> (out: (Vec<NodeId>, Vec<usize>))
    ensures
        out.0@ == spec_visit(tree_view(tree@), ix as int).0,
        out.1@ == spec_visit(tree_view(tree@), ix as int).1,
    decreases ix + 1, 0int,
{
    let ghost t = tree_view(tree@);
    if ix >= tree.len() {
        return (Vec::new(), Vec::new());
    }
    let node = &tree[ix];
    assert(t[ix as int] == node_view(*node));
    let (mut order, mut deferred) = visit_list(tree, &node.local_mounts, ix);
    let (mut child_order, mut child_deferred) = visit_list(tree, &node.children, ix);
    let mut first: Vec<NodeId> = Vec::new();
    first.push(node.id);
    let ghost o1 = order@;
    let ghost o2 = child_order@;
    let ghost d1 = deferred@;
    let ghost d2 = child_deferred@;
    first.append(&mut order);
    first.append(&mut child_order);
    deferred.append(&mut child_deferred);
    let mut k: usize = 0;
    let ghost d12 = deferred@;
    while k < node.escape_mounts.len()
        invariant
            k <= node.escape_mounts@.len(),
            deferred@ == d12 + node.escape_mounts@.take(k as int),
        decreases node.escape_mounts@.len() - k,
    {
        deferred.push(node.escape_mounts[k]);
        k = k + 1;
        assert(deferred@ =~= d12 + node.escape_mounts@.take(k as int));
    }
    assert(node.escape_mounts@.take(node.escape_mounts@.len() as int) =~= node.escape_mounts@);
    assert(first@ =~= seq![node.id] + o1 + o2);
    (first, deferred)
}

fn visit_list(tree: &Vec<WalkNode>, list: &Vec<usize>, bound: usize) -> (out: (Vec<NodeId>, Vec<usize>))
    ensures
        out.0@ == spec_visit_list(tree_view(tree@), list@, bound as int).0,
        out.1@ == spec_visit_list(tree_view(tree@), list@, bound as int).1,
    decreases bound, list@.len(),
{
    let ghost t = tree_view(tree@);
    let mut order: Vec<NodeId> = Vec::new();
    let mut deferred: Vec<usize> = Vec::new();
    let mut k: usize = 0;
    while k < list.len()
        invariant
            t == tree_view(tree@),
            k <= list@.len(),
            order@ == spec_visit_list(t, list@.take(k as int), bound as int).0,
            deferred@ == spec_visit_list(t, list@.take(k as int), bound as int).1,
        decreases list@.len() - k,
    {
        assert(list@.take(k + 1).drop_last() =~= list@.take(k as int));
        let slot = list[k];
        if slot < bound {
            let (mut o, mut d) = visit(tree, slot);
            order.append(&mut o);
            deferred.append(&mut d);
        }
        k = k + 1;
    }
    assert(list@.take(list@.len() as int) =~= list@);
    (order, deferred)
}

fn drain(tree: &Vec<WalkNode>, deferred: &Vec<usize>, bound: usize) -> (order: Vec<NodeId>)
    ensures
        order@ == spec_drain(tree_view(tree@), deferred@, bound as int),
    decreases bound, deferred@.len(),
{
    let ghost t = tree_view(tree@);
    let mut order: Vec<NodeId> = Vec::new();
    let mut k: usize = 0;
    while k < deferred.len()
        invariant
            t == tree_view(tree@),
            k <= deferred@.len(),
            order@ == spec_drain(t, deferred@.take(k as int), bound as int),
        decreases deferred@.len() - k,
    {
        assert(deferred@.take(k + 1).drop_last() =~= deferred@.take(k as int));
        let slot = deferred[k];
        if slot < bound {
            let (mut o, d) = visit(tree, slot);
            let mut rest = drain(tree, &d, slot);
            order.append(&mut o);
            order.append(&mut rest);
        }
        k = k + 1;
    }
    assert(deferred@.take(deferred@.len() as int) =~= deferred@);
    order
}

/// The ids of the elements that a registry rebuild from `root` visits, in
/// visiting order.
pub fn registry_walk_order(tree: &Vec<WalkNode>, root: usize) -> (order: Vec<NodeId>)
    ensures
        order@ == spec_walk_order(tree_view(tree@), root as int),
{
    let (mut order, deferred) = visit(tree, root);
    let mut rest = drain(tree, &deferred, root);
    order.append(&mut rest);
    order
}

/// A walk starts at its root, and a root that defers nothing and has no
/// mounts or children is all that is visited.
pub proof fn law_walk_starts_at_root(tree: Seq<WalkNodeView>, root: int)
    requires
        0 <= root < tree.len(),
    ensures
        spec_walk_order(tree, root).len() > 0,
        spec_walk_order(tree, root)[0] == tree[root].id,
        tree[root].local_mounts.len() == 0 && tree[root].children.len() == 0
            && tree[root].escape_mounts.len() == 0 ==> spec_walk_order(tree, root) == seq![tree[root].id],
{
    let v = spec_visit(tree, root);
    assert(v.0[0] == tree[root].id);
    if tree[root].local_mounts.len() == 0 && tree[root].children.len() == 0
        && tree[root].escape_mounts.len() == 0 {
        assert(v.0 =~= seq![tree[root].id]);
        assert(v.1 =~= Seq::<usize>::empty());
        assert(spec_walk_order(tree, root) =~= seq![tree[root].id]);
    }
}


/// The cache decision's reading of a node.
pub open spec fn node_facts(n: WalkNodeView) -> SubtreeCacheFacts {
    SubtreeCacheFacts {
        damaged: n.damaged,
        eligible: n.eligible,
        cached_key_matches: match n.cache {
            Some(c) => Some(c.key_matches),
            None => None,
        },
    }
}

/// The tree with the visit `order`, `deferred` stored as the cache of slot
/// `ix`, its key matching.
pub open spec fn with_cache(tree: Seq<WalkNodeView>, ix: int, order: Seq<NodeId>, deferred: Seq<usize>) -> Seq<
    WalkNodeView,
> {
    tree.update(
        ix,
        WalkNodeView { cache: Some(WalkChunkView { key_matches: true, order, deferred }), ..tree[ix] },
    )
}

/// The visit of slot `ix` with `budget` units of cache budget: a cache hit
/// gives the cached visit; otherwise the node is walked as without the
/// cache, its subtrees deciding in turn, and a store keeps the visit as the
/// slot's cache. Then the budget left, the tree with the stores made, and
/// the diagnostics events of the decisions, in order.
pub open spec fn spec_visit_cached(tree: Seq<WalkNodeView>, ix: int, budget: usize) -> (
    Seq<NodeId>,
    Seq<usize>,
    usize,
    Seq<WalkNodeView>,
    Seq<RegistryBuildEvent>,
)
    decreases ix + 1, 0int,
{
    if 0 <= ix < tree.len() {
        let facts = node_facts(tree[ix]);
        let b = spec_cache_budget_after(facts, budget);
        let outcome = spec_cache_outcome(facts, budget);
        if outcome == SubtreeCacheOutcome::Hit {
            (
                tree[ix].cache.unwrap().order,
                tree[ix].cache.unwrap().deferred,
                b,
                tree,
                spec_cache_events(facts, budget),
            )
        } else {
            let local = spec_visit_list_cached(tree, tree[ix].local_mounts, ix, b);
            let children = spec_visit_list_cached(local.3, tree[ix].children, ix, local.2);
            let order = seq![tree[ix].id] + local.0 + children.0;
            let deferred = local.1 + children.1 + tree[ix].escape_mounts;
            (
                order,
                deferred,
                children.2,
                if outcome == SubtreeCacheOutcome::Store {
                    with_cache(children.3, ix, order, deferred)
                } else {
                    children.3
                },
                spec_cache_events(facts, budget) + local.4 + children.4,
            )
        }
    } else {
        (Seq::empty(), Seq::empty(), budget, tree, Seq::empty())
    }
}

pub open spec fn spec_visit_list_cached(tree: Seq<WalkNodeView>, list: Seq<usize>, bound: int, budget: usize) -> (
    Seq<NodeId>,
    Seq<usize>,
    usize,
    Seq<WalkNodeView>,
    Seq<RegistryBuildEvent>,
)
    decreases bound, list.len(),
{
    if list.len() == 0 {
        (Seq::empty(), Seq::empty(), budget, tree, Seq::empty())
    } else {
        let before = spec_visit_list_cached(tree, list.drop_last(), bound, budget);
        let last = list.last() as int;
        if last < bound {
            let v = spec_visit_cached(before.3, last, before.2);
            (before.0 + v.0, before.1 + v.1, v.2, v.3, before.4 + v.4)
        } else {
            before
        }
    }
}

pub open spec fn spec_drain_cached(tree: Seq<WalkNodeView>, deferred: Seq<usize>, bound: int, budget: usize) -> (
    Seq<NodeId>,
    usize,
    Seq<WalkNodeView>,
    Seq<RegistryBuildEvent>,
)
    decreases bound, deferred.len(),
{
    if deferred.len() == 0 {
        (Seq::empty(), budget, tree, Seq::empty())
    } else {
        let before = spec_drain_cached(tree, deferred.drop_last(), bound, budget);
        let last = deferred.last() as int;
        if last < bound {
            let v = spec_visit_cached(before.2, last, before.1);
            let rest = spec_drain_cached(v.3, v.1, last, v.2);
            (before.0 + v.0 + rest.0, rest.1, rest.2, before.3 + v.4 + rest.3)
        } else {
            before
        }
    }
}

/// The whole cached walk from `root`: the ids visited, the budget left,
/// the tree with the stores made, and the diagnostics events recorded.
pub open spec fn spec_walk_cached(tree: Seq<WalkNodeView>, root: int, budget: usize) -> (
    Seq<NodeId>,
    usize,
    Seq<WalkNodeView>,
    Seq<RegistryBuildEvent>,
) {
    let v = spec_visit_cached(tree, root, budget);
    let rest = spec_drain_cached(v.3, v.1, root, v.2);
    (v.0 + rest.0, rest.1, rest.2, v.4 + rest.3)
}

fn copy_vec<T: Copy>(v: &Vec<T>) -> (copy: Vec<T>)
    ensures
        copy@ == v@,
{
    let mut copy: Vec<T> = Vec::new();
    let mut i: usize = 0;
    while i < v.len()
        invariant
            i <= v.len(),
            copy@ == v@.take(i as int),
        decreases v.len() - i,
    {
        copy.push(v[i]);
        i = i + 1;
        assert(copy@ =~= v@.take(i as int));
    }
    assert(v@.take(v.len() as int) =~= v@);
    copy
}

fn store_cache(tree: &mut Vec<WalkNode>, ix: usize, order: &Vec<NodeId>, deferred: &Vec<usize>)
    requires
        ix < old(tree)@.len(),
    ensures
        tree_view(final(tree)@) == with_cache(tree_view(old(tree)@), ix as int, order@, deferred@),
{
    let ghost before = tree_view(tree@);
    let chunk = WalkChunk { key_matches: true, order: copy_vec(order), deferred: copy_vec(deferred) };
    let mut node = WalkNode {
        id: tree[ix].id,
        local_mounts: copy_vec(&tree[ix].local_mounts),
        children: copy_vec(&tree[ix].children),
        escape_mounts: copy_vec(&tree[ix].escape_mounts),
        damaged: tree[ix].damaged,
        eligible: tree[ix].eligible,
        cache: Some(chunk),
    };
    tree.set(ix, node);
    assert(tree_view(tree@) =~= with_cache(before, ix as int, order@, deferred@));
}

fn visit_cached(tree: &mut Vec<WalkNode>, ix: usize, budget: &mut usize, recorder: &mut DiagnosticsRecorder) -> (out: (
    Vec<NodeId>,
    Vec<usize>,
))
    ensures
        out.0@ == spec_visit_cached(tree_view(old(tree)@), ix as int, *old(budget)).0,
        out.1@ == spec_visit_cached(tree_view(old(tree)@), ix as int, *old(budget)).1,
        *final(budget) == spec_visit_cached(tree_view(old(tree)@), ix as int, *old(budget)).2,
        tree_view(final(tree)@) == spec_visit_cached(tree_view(old(tree)@), ix as int, *old(budget)).3,
        *final(recorder) == apply_recording(*old(recorder), spec_visit_cached(tree_view(old(tree)@), ix as int, *old(budget)).4),
    decreases ix + 1, 0int,
{
    let ghost t = tree_view(tree@);
    let ghost b0 = *budget;
    let ghost r0 = *recorder;
    if ix >= tree.len() {
        return (Vec::new(), Vec::new());
    }
    assert(t[ix as int] == node_view(tree@[ix as int]));
    let facts = SubtreeCacheFacts {
        damaged: tree[ix].damaged,
        eligible: tree[ix].eligible,
        cached_key_matches: match &tree[ix].cache {
            Some(c) => Some(c.key_matches),
            None => None,
        },
    };
    assert(facts == node_facts(t[ix as int]));
    let outcome = decide_subtree_cache(facts, budget, recorder);
    if outcome == SubtreeCacheOutcome::Hit {
        match &tree[ix].cache {
            Some(c) => {
                return (copy_vec(&c.order), copy_vec(&c.deferred));
            },
            None => {
                return (Vec::new(), Vec::new());
            },
        }
    }
    let id = tree[ix].id;
    let locals = copy_vec(&tree[ix].local_mounts);
    let children = copy_vec(&tree[ix].children);
    let escapes = copy_vec(&tree[ix].escape_mounts);
    let ghost ev0 = spec_cache_events(facts, b0);
    let ghost r1 = *recorder;
    let (mut order, mut deferred) = visit_list_cached(tree, &locals, ix, budget, recorder);
    let ghost ev1 = spec_visit_list_cached(t, t[ix as int].local_mounts, ix as int, spec_cache_budget_after(facts, b0)).4;
    proof {
        lemma_recording_concat(r0, ev0, ev1);
    }
    let ghost r2 = *recorder;
    let (mut child_order, mut child_deferred) = visit_list_cached(tree, &children, ix, budget, recorder);
    proof {
        let local = spec_visit_list_cached(t, t[ix as int].local_mounts, ix as int, spec_cache_budget_after(facts, b0));
        lemma_recording_concat(r0, ev0 + ev1, spec_visit_list_cached(local.3, t[ix as int].children, ix as int, local.2).4);
    }
    let mut first: Vec<NodeId> = Vec::new();
    first.push(id);
    let ghost o1 = order@;
    let ghost o2 = child_order@;
    first.append(&mut order);
    first.append(&mut child_order);
    deferred.append(&mut child_deferred);
    let mut more = escapes;
    deferred.append(&mut more);
    assert(first@ =~= seq![id] + o1 + o2);
    if outcome == SubtreeCacheOutcome::Store {
        proof {
            lemma_list_cached_keeps_shape(t, t[ix as int].local_mounts, ix as int, spec_cache_budget_after(facts, b0));
            let local = spec_visit_list_cached(t, t[ix as int].local_mounts, ix as int, spec_cache_budget_after(facts, b0));
            lemma_list_cached_keeps_shape(local.3, t[ix as int].children, ix as int, local.2);
        }
        store_cache(tree, ix, &first, &deferred);
    }
    (first, deferred)
}

fn visit_list_cached(
    tree: &mut Vec<WalkNode>,
    list: &Vec<usize>,
    bound: usize,
    budget: &mut usize,
    recorder: &mut DiagnosticsRecorder,
) -> (out: (Vec<NodeId>, Vec<usize>))
    ensures
        out.0@ == spec_visit_list_cached(tree_view(old(tree)@), list@, bound as int, *old(budget)).0,
        out.1@ == spec_visit_list_cached(tree_view(old(tree)@), list@, bound as int, *old(budget)).1,
        *final(budget) == spec_visit_list_cached(tree_view(old(tree)@), list@, bound as int, *old(budget)).2,
        tree_view(final(tree)@) == spec_visit_list_cached(tree_view(old(tree)@), list@, bound as int, *old(budget)).3,
        *final(recorder) == apply_recording(*old(recorder), spec_visit_list_cached(tree_view(old(tree)@), list@, bound as int, *old(budget)).4),
    decreases bound, list@.len(),
{
    let ghost t0 = tree_view(tree@);
    let ghost start = *budget;
    let ghost rec0 = *recorder;
    let mut order: Vec<NodeId> = Vec::new();
    let mut deferred: Vec<usize> = Vec::new();
    let mut k: usize = 0;
    while k < list.len()
        invariant
            k <= list@.len(),
            order@ == spec_visit_list_cached(t0, list@.take(k as int), bound as int, start).0,
            deferred@ == spec_visit_list_cached(t0, list@.take(k as int), bound as int, start).1,
            *budget == spec_visit_list_cached(t0, list@.take(k as int), bound as int, start).2,
            tree_view(tree@) == spec_visit_list_cached(t0, list@.take(k as int), bound as int, start).3,
            *recorder == apply_recording(rec0, spec_visit_list_cached(t0, list@.take(k as int), bound as int, start).4),
        decreases list@.len() - k,
    {
        assert(list@.take(k + 1).drop_last() =~= list@.take(k as int));
        let slot = list[k];
        if slot < bound {
            let ghost before = spec_visit_list_cached(t0, list@.take(k as int), bound as int, start);
            let (mut o, mut d) = visit_cached(tree, slot, budget, recorder);
            proof {
                lemma_recording_concat(rec0, before.4, spec_visit_cached(before.3, slot as int, before.2).4);
            }
            order.append(&mut o);
            deferred.append(&mut d);
        }
        k = k + 1;
    }
    assert(list@.take(list@.len() as int) =~= list@);
    (order, deferred)
}

fn drain_cached(
    tree: &mut Vec<WalkNode>,
    deferred: &Vec<usize>,
    bound: usize,
    budget: &mut usize,
    recorder: &mut DiagnosticsRecorder,
) -> (order: Vec<NodeId>)
    ensures
        order@ == spec_drain_cached(tree_view(old(tree)@), deferred@, bound as int, *old(budget)).0,
        *final(budget) == spec_drain_cached(tree_view(old(tree)@), deferred@, bound as int, *old(budget)).1,
        tree_view(final(tree)@) == spec_drain_cached(tree_view(old(tree)@), deferred@, bound as int, *old(budget)).2,
        *final(recorder) == apply_recording(*old(recorder), spec_drain_cached(tree_view(old(tree)@), deferred@, bound as int, *old(budget)).3),
    decreases bound, deferred@.len(),
{
    let ghost t0 = tree_view(tree@);
    let ghost start = *budget;
    let ghost rec0 = *recorder;
    let mut order: Vec<NodeId> = Vec::new();
    let mut k: usize = 0;
    while k < deferred.len()
        invariant
            k <= deferred@.len(),
            order@ == spec_drain_cached(t0, deferred@.take(k as int), bound as int, start).0,
            *budget == spec_drain_cached(t0, deferred@.take(k as int), bound as int, start).1,
            tree_view(tree@) == spec_drain_cached(t0, deferred@.take(k as int), bound as int, start).2,
            *recorder == apply_recording(rec0, spec_drain_cached(t0, deferred@.take(k as int), bound as int, start).3),
        decreases deferred@.len() - k,
    {
        assert(deferred@.take(k + 1).drop_last() =~= deferred@.take(k as int));
        let slot = deferred[k];
        if slot < bound {
            let ghost before = spec_drain_cached(t0, deferred@.take(k as int), bound as int, start);
            let (mut o, d) = visit_cached(tree, slot, budget, recorder);
            let ghost v = spec_visit_cached(before.2, slot as int, before.1);
            proof {
                lemma_recording_concat(rec0, before.3, v.4);
            }
            let mut rest = drain_cached(tree, &d, slot, budget, recorder);
            proof {
                lemma_recording_concat(rec0, before.3 + v.4, spec_drain_cached(v.3, v.1, slot as int, v.2).3);
            }
            order.append(&mut o);
            order.append(&mut rest);
        }
        k = k + 1;
    }
    assert(deferred@.take(deferred@.len() as int) =~= deferred@);
    order
}

/// The ids that a rebuild from `root` visits using the subtree caches, with
/// `cache_budget` units of budget (what is left stays in it). Cache hits
/// give the cached visits; stores keep their subtree's visit as its cache
/// in `tree`. Each decision is counted in `recorder`, as
/// `decide_subtree_cache` counts it.
pub fn registry_walk_order_cached(
    tree: &mut Vec<WalkNode>,
    root: usize,
    cache_budget: &mut usize,
    recorder: &mut DiagnosticsRecorder,
) -> (order: Vec<NodeId>)
    ensures
        order@ == spec_walk_cached(tree_view(old(tree)@), root as int, *old(cache_budget)).0,
        *final(cache_budget) == spec_walk_cached(tree_view(old(tree)@), root as int, *old(cache_budget)).1,
        tree_view(final(tree)@) == spec_walk_cached(tree_view(old(tree)@), root as int, *old(cache_budget)).2,
        *final(recorder) == apply_recording(*old(recorder), spec_walk_cached(tree_view(old(tree)@), root as int, *old(cache_budget)).3),
{
    let ghost t = tree_view(tree@);
    let ghost b0 = *cache_budget;
    let ghost r0 = *recorder;
    let (mut order, deferred) = visit_cached(tree, root, cache_budget, recorder);
    let mut rest = drain_cached(tree, &deferred, root, cache_budget, recorder);
    proof {
        let v = spec_visit_cached(t, root as int, b0);
        lemma_recording_concat(r0, v.4, spec_drain_cached(v.3, v.1, root as int, v.2).3);
    }
    order.append(&mut rest);
    order
}

/// Two trees of the same shape: the same ids, mounts and children in every
/// slot (their caches may differ).
pub open spec fn same_shape(a: Seq<WalkNodeView>, b: Seq<WalkNodeView>) -> bool {
    &&& a.len() == b.len()
    &&& forall|i: int|
        #![trigger a[i], b[i]]
        0 <= i < a.len() ==> a[i].id == b[i].id && a[i].local_mounts == b[i].local_mounts && a[i].children
            == b[i].children && a[i].escape_mounts == b[i].escape_mounts
}

proof fn lemma_shape_refl(a: Seq<WalkNodeView>)
    ensures
        same_shape(a, a),
{
}

proof fn lemma_shape_trans(a: Seq<WalkNodeView>, b: Seq<WalkNodeView>, c: Seq<WalkNodeView>)
    requires
        same_shape(a, b),
        same_shape(b, c),
    ensures
        same_shape(a, c),
{
    assert forall|i: int| 0 <= i < a.len() implies a[i].id == c[i].id && a[i].local_mounts == c[i].local_mounts
        && a[i].children == c[i].children && a[i].escape_mounts == c[i].escape_mounts by {
        assert(a[i].id == b[i].id);
        assert(b[i].id == c[i].id);
    }
}

proof fn lemma_with_cache_keeps_shape(t: Seq<WalkNodeView>, ix: int, order: Seq<NodeId>, deferred: Seq<usize>)
    requires
        0 <= ix < t.len(),
    ensures
        same_shape(t, with_cache(t, ix, order, deferred)),
{
    let u = with_cache(t, ix, order, deferred);
    assert forall|i: int| 0 <= i < t.len() implies t[i].id == u[i].id && t[i].local_mounts == u[i].local_mounts
        && t[i].children == u[i].children && t[i].escape_mounts == u[i].escape_mounts by {
        if i == ix {
        } else {
        }
    }
}

proof fn lemma_visit_cached_keeps_shape(tree: Seq<WalkNodeView>, ix: int, budget: usize)
    ensures
        same_shape(tree, spec_visit_cached(tree, ix, budget).3),
    decreases ix + 1, 0int,
{
    lemma_shape_refl(tree);
    if 0 <= ix < tree.len() {
        let facts = node_facts(tree[ix]);
        let b = spec_cache_budget_after(facts, budget);
        let outcome = spec_cache_outcome(facts, budget);
        if outcome != SubtreeCacheOutcome::Hit {
            lemma_list_cached_keeps_shape(tree, tree[ix].local_mounts, ix, b);
            let local = spec_visit_list_cached(tree, tree[ix].local_mounts, ix, b);
            lemma_list_cached_keeps_shape(local.3, tree[ix].children, ix, local.2);
            let children = spec_visit_list_cached(local.3, tree[ix].children, ix, local.2);
            lemma_shape_trans(tree, local.3, children.3);
            if outcome == SubtreeCacheOutcome::Store {
                let order = seq![tree[ix].id] + local.0 + children.0;
                let deferred = local.1 + children.1 + tree[ix].escape_mounts;
                lemma_with_cache_keeps_shape(children.3, ix, order, deferred);
                lemma_shape_trans(tree, children.3, with_cache(children.3, ix, order, deferred));
            }
        }
    }
}

proof fn lemma_list_cached_keeps_shape(tree: Seq<WalkNodeView>, list: Seq<usize>, bound: int, budget: usize)
    ensures
        same_shape(tree, spec_visit_list_cached(tree, list, bound, budget).3),
    decreases bound, list.len(),
{
    lemma_shape_refl(tree);
    if list.len() > 0 {
        lemma_list_cached_keeps_shape(tree, list.drop_last(), bound, budget);
        let before = spec_visit_list_cached(tree, list.drop_last(), bound, budget);
        let last = list.last() as int;
        if last < bound {
            lemma_visit_cached_keeps_shape(before.3, last, before.2);
            lemma_shape_trans(tree, before.3, spec_visit_cached(before.3, last, before.2).3);
        }
    }
}


proof fn lemma_visit_same_shape(a: Seq<WalkNodeView>, b: Seq<WalkNodeView>, ix: int)
    requires
        same_shape(a, b),
    ensures
        spec_visit(a, ix) == spec_visit(b, ix),
    decreases ix + 1, 0int,
{
    if 0 <= ix < a.len() {
        assert(a[ix].id == b[ix].id);
        lemma_visit_list_same_shape(a, b, a[ix].local_mounts, ix);
        lemma_visit_list_same_shape(a, b, a[ix].children, ix);
    }
}

proof fn lemma_visit_list_same_shape(a: Seq<WalkNodeView>, b: Seq<WalkNodeView>, list: Seq<usize>, bound: int)
    requires
        same_shape(a, b),
    ensures
        spec_visit_list(a, list, bound) == spec_visit_list(b, list, bound),
    decreases bound, list.len(),
{
    if list.len() > 0 {
        lemma_visit_list_same_shape(a, b, list.drop_last(), bound);
        let last = list.last() as int;
        if last < bound {
            lemma_visit_same_shape(a, b, last);
        }
    }
}

proof fn lemma_drain_same_shape(a: Seq<WalkNodeView>, b: Seq<WalkNodeView>, deferred: Seq<usize>, bound: int)
    requires
        same_shape(a, b),
    ensures
        spec_drain(a, deferred, bound) == spec_drain(b, deferred, bound),
    decreases bound, deferred.len(),
{
    if deferred.len() > 0 {
        lemma_drain_same_shape(a, b, deferred.drop_last(), bound);
        let last = deferred.last() as int;
        if last < bound {
            lemma_visit_same_shape(a, b, last);
            lemma_drain_same_shape(a, b, spec_visit(a, last).1, last);
        }
    }
}

/// Every cache whose key matches holds the visit of its subtree.
pub open spec fn caches_agree(tree: Seq<WalkNodeView>) -> bool {
    forall|i: int|
        #![trigger tree[i]]
        0 <= i < tree.len() && tree[i].cache is Some && tree[i].cache.unwrap().key_matches
            ==> tree[i].cache.unwrap().order == spec_visit(tree, i).0 && tree[i].cache.unwrap().deferred
            == spec_visit(tree, i).1
}

proof fn lemma_store_keeps_agreement(t: Seq<WalkNodeView>, ix: int, order: Seq<NodeId>, deferred: Seq<usize>)
    requires
        0 <= ix < t.len(),
        caches_agree(t),
        order == spec_visit(t, ix).0,
        deferred == spec_visit(t, ix).1,
    ensures
        caches_agree(with_cache(t, ix, order, deferred)),
{
    let u = with_cache(t, ix, order, deferred);
    lemma_with_cache_keeps_shape(t, ix, order, deferred);
    assert forall|i: int|
        #![trigger u[i]]
        0 <= i < u.len() && u[i].cache is Some && u[i].cache.unwrap().key_matches implies u[i].cache.unwrap().order
        == spec_visit(u, i).0 && u[i].cache.unwrap().deferred == spec_visit(u, i).1 by {
        lemma_visit_same_shape(t, u, i);
        if i != ix {
            assert(u[i] == t[i]);
        }
    }
}

proof fn lemma_visit_cached_agrees(tree: Seq<WalkNodeView>, ix: int, budget: usize)
    requires
        caches_agree(tree),
    ensures
        spec_visit_cached(tree, ix, budget).0 == spec_visit(tree, ix).0,
        spec_visit_cached(tree, ix, budget).1 == spec_visit(tree, ix).1,
        caches_agree(spec_visit_cached(tree, ix, budget).3),
    decreases ix + 1, 0int,
{
    if 0 <= ix < tree.len() {
        let facts = node_facts(tree[ix]);
        let b = spec_cache_budget_after(facts, budget);
        let outcome = spec_cache_outcome(facts, budget);
        if outcome != SubtreeCacheOutcome::Hit {
            lemma_visit_list_cached_agrees(tree, tree[ix].local_mounts, ix, b);
            lemma_list_cached_keeps_shape(tree, tree[ix].local_mounts, ix, b);
            let local = spec_visit_list_cached(tree, tree[ix].local_mounts, ix, b);
            lemma_visit_list_cached_agrees(local.3, tree[ix].children, ix, local.2);
            lemma_list_cached_keeps_shape(local.3, tree[ix].children, ix, local.2);
            lemma_visit_list_same_shape(tree, local.3, tree[ix].children, ix);
            let children = spec_visit_list_cached(local.3, tree[ix].children, ix, local.2);
            if outcome == SubtreeCacheOutcome::Store {
                lemma_shape_trans(tree, local.3, children.3);
                lemma_visit_same_shape(tree, children.3, ix);
                lemma_store_keeps_agreement(
                    children.3,
                    ix,
                    seq![tree[ix].id] + local.0 + children.0,
                    local.1 + children.1 + tree[ix].escape_mounts,
                );
            }
        }
    }
}

proof fn lemma_visit_list_cached_agrees(tree: Seq<WalkNodeView>, list: Seq<usize>, bound: int, budget: usize)
    requires
        caches_agree(tree),
    ensures
        spec_visit_list_cached(tree, list, bound, budget).0 == spec_visit_list(tree, list, bound).0,
        spec_visit_list_cached(tree, list, bound, budget).1 == spec_visit_list(tree, list, bound).1,
        caches_agree(spec_visit_list_cached(tree, list, bound, budget).3),
    decreases bound, list.len(),
{
    if list.len() > 0 {
        lemma_visit_list_cached_agrees(tree, list.drop_last(), bound, budget);
        lemma_list_cached_keeps_shape(tree, list.drop_last(), bound, budget);
        let before = spec_visit_list_cached(tree, list.drop_last(), bound, budget);
        let last = list.last() as int;
        if last < bound {
            lemma_visit_cached_agrees(before.3, last, before.2);
            lemma_visit_same_shape(tree, before.3, last);
        }
    }
}

proof fn lemma_drain_cached_agrees(tree: Seq<WalkNodeView>, deferred: Seq<usize>, bound: int, budget: usize)
    requires
        caches_agree(tree),
    ensures
        spec_drain_cached(tree, deferred, bound, budget).0 == spec_drain(tree, deferred, bound),
        caches_agree(spec_drain_cached(tree, deferred, bound, budget).2),
        same_shape(tree, spec_drain_cached(tree, deferred, bound, budget).2),
    decreases bound, deferred.len(),
{
    lemma_shape_refl(tree);
    if deferred.len() > 0 {
        lemma_drain_cached_agrees(tree, deferred.drop_last(), bound, budget);
        let before = spec_drain_cached(tree, deferred.drop_last(), bound, budget);
        let last = deferred.last() as int;
        if last < bound {
            lemma_visit_cached_agrees(before.2, last, before.1);
            lemma_visit_cached_keeps_shape(before.2, last, before.1);
            lemma_visit_same_shape(tree, before.2, last);
            let v = spec_visit_cached(before.2, last, before.1);
            lemma_drain_cached_agrees(v.3, v.1, last, v.2);
            lemma_shape_trans(tree, before.2, v.3);
            lemma_drain_same_shape(tree, v.3, v.1, last);
            let rest = spec_drain_cached(v.3, v.1, last, v.2);
            lemma_shape_trans(tree, v.3, rest.2);
        }
    }
}

/// The subtree cache is transparent: when every cache whose key matches
/// holds the visit of its subtree, the cached walk visits exactly what the
/// walk without the cache visits, whatever the budget, and the caches it
/// leaves still hold the visits of their subtrees.
pub proof fn law_subtree_cache_is_transparent(tree: Seq<WalkNodeView>, root: int, budget: usize)
    requires
        caches_agree(tree),
    ensures
        spec_walk_cached(tree, root, budget).0 == spec_walk_order(tree, root),
        caches_agree(spec_walk_cached(tree, root, budget).2),
{
    lemma_visit_cached_agrees(tree, root, budget);
    lemma_visit_cached_keeps_shape(tree, root, budget);
    let v = spec_visit_cached(tree, root, budget);
    lemma_drain_cached_agrees(v.3, v.1, root, v.2);
    lemma_drain_same_shape(tree, v.3, v.1, root);
}


proof fn lemma_visit_cached_work(tree: Seq<WalkNodeView>, ix: int, budget: usize)
    ensures
        spec_visit_cached(tree, ix, budget).2 <= budget,
        cache_work(spec_visit_cached(tree, ix, budget).4) == budget - spec_visit_cached(tree, ix, budget).2,
    decreases ix + 1, 0int,
{
    if 0 <= ix < tree.len() {
        let facts = node_facts(tree[ix]);
        let b = spec_cache_budget_after(facts, budget);
        law_cache_events_match_budget(facts, budget);
        if spec_cache_outcome(facts, budget) != SubtreeCacheOutcome::Hit {
            lemma_visit_list_cached_work(tree, tree[ix].local_mounts, ix, b);
            let local = spec_visit_list_cached(tree, tree[ix].local_mounts, ix, b);
            lemma_visit_list_cached_work(local.3, tree[ix].children, ix, local.2);
            let children = spec_visit_list_cached(local.3, tree[ix].children, ix, local.2);
            lemma_cache_work_concat(spec_cache_events(facts, budget), local.4);
            lemma_cache_work_concat(spec_cache_events(facts, budget) + local.4, children.4);
        }
    } else {
        reveal_with_fuel(cache_work, 1);
    }
}

proof fn lemma_visit_list_cached_work(tree: Seq<WalkNodeView>, list: Seq<usize>, bound: int, budget: usize)
    ensures
        spec_visit_list_cached(tree, list, bound, budget).2 <= budget,
        cache_work(spec_visit_list_cached(tree, list, bound, budget).4) == budget - spec_visit_list_cached(
            tree,
            list,
            bound,
            budget,
        ).2,
    decreases bound, list.len(),
{
    if list.len() == 0 {
        reveal_with_fuel(cache_work, 1);
    } else {
        lemma_visit_list_cached_work(tree, list.drop_last(), bound, budget);
        let before = spec_visit_list_cached(tree, list.drop_last(), bound, budget);
        let last = list.last() as int;
        if last < bound {
            lemma_visit_cached_work(before.3, last, before.2);
            lemma_cache_work_concat(before.4, spec_visit_cached(before.3, last, before.2).4);
        }
    }
}

proof fn lemma_drain_cached_work(tree: Seq<WalkNodeView>, deferred: Seq<usize>, bound: int, budget: usize)
    ensures
        spec_drain_cached(tree, deferred, bound, budget).1 <= budget,
        cache_work(spec_drain_cached(tree, deferred, bound, budget).3) == budget - spec_drain_cached(
            tree,
            deferred,
            bound,
            budget,
        ).1,
    decreases bound, deferred.len(),
{
    if deferred.len() == 0 {
        reveal_with_fuel(cache_work, 1);
    } else {
        lemma_drain_cached_work(tree, deferred.drop_last(), bound, budget);
        let before = spec_drain_cached(tree, deferred.drop_last(), bound, budget);
        let last = deferred.last() as int;
        if last < bound {
            lemma_visit_cached_work(before.2, last, before.1);
            let v = spec_visit_cached(before.2, last, before.1);
            lemma_drain_cached_work(v.3, v.1, last, v.2);
            lemma_cache_work_concat(before.3, v.4);
            lemma_cache_work_concat(before.3 + v.4, spec_drain_cached(v.3, v.1, last, v.2).3);
        }
    }
}

/// A cached walk does one unit of cache work (a hit, a miss or a store) per
/// unit of budget it takes, so it never does more than its budget; the hit,
/// miss and store counters it records rise by at most that much together.
pub proof fn law_cached_walk_work_within_budget(
    tree: Seq<WalkNodeView>,
    root: int,
    budget: usize,
    recorder: DiagnosticsRecorder,
)
    ensures
        spec_walk_cached(tree, root, budget).1 <= budget,
        cache_work(spec_walk_cached(tree, root, budget).3) == budget - spec_walk_cached(tree, root, budget).1,
        cache_counters(apply_recording(recorder, spec_walk_cached(tree, root, budget).3).diagnostics)
            <= cache_counters(recorder.diagnostics) + budget,
{
    lemma_visit_cached_work(tree, root, budget);
    let v = spec_visit_cached(tree, root, budget);
    lemma_drain_cached_work(v.3, v.1, root, v.2);
    lemma_cache_work_concat(v.4, spec_drain_cached(v.3, v.1, root, v.2).3);
    law_cache_counters_bounded_by_work(recorder, spec_walk_cached(tree, root, budget).3);
}


/// `n` visit events.
pub open spec fn visits(n: nat) -> Seq<RegistryBuildEvent> {
    Seq::new(n, |i: int| RegistryBuildEvent::Visit)
}

/// The ids that one registry rebuild from `root` visits, in order. With
/// scroll damage the rebuild walks without the caches and counts one visit
/// per element; otherwise it walks with the caches and a fresh budget of
/// `REGISTRY_SUBTREE_CACHE_BUDGET` units.
pub fn registry_rebuild_walk_order(
    tree: &mut Vec<WalkNode>,
    root: usize,
    scroll_damage: bool,
    recorder: &mut DiagnosticsRecorder,
) -> (order: Vec<NodeId>)
    ensures
        scroll_damage ==> {
            &&& order@ == spec_walk_order(tree_view(old(tree)@), root as int)
            &&& final(tree)@ == old(tree)@
            &&& *final(recorder) == apply_recording(*old(recorder), visits(order@.len()))
        },
        !scroll_damage ==> {
            let w = spec_walk_cached(tree_view(old(tree)@), root as int, REGISTRY_SUBTREE_CACHE_BUDGET);
            &&& order@ == w.0
            &&& tree_view(final(tree)@) == w.2
            &&& *final(recorder) == apply_recording(*old(recorder), w.3)
        },
{
    if scroll_damage {
        let order = registry_walk_order(tree, root);
        let ghost r0 = *recorder;
        let mut k: usize = 0;
        while k < order.len()
            invariant
                k <= order@.len(),
                *recorder == apply_recording(r0, visits(k as nat)),
            decreases order@.len() - k,
        {
            recorder.record_registry_visit();
            proof {
                reveal_with_fuel(apply_recording, 2);
                assert(visits((k + 1) as nat).drop_last() =~= visits(k as nat));
            }
            k = k + 1;
        }
        order
    } else {
        let mut budget = REGISTRY_SUBTREE_CACHE_BUDGET;
        registry_walk_order_cached(tree, root, &mut budget, recorder)
    }
}


proof fn lemma_visits_do_no_cache_work(n: nat)
    ensures
        cache_work(visits(n)) == 0,
    decreases n,
{
    if n > 0 {
        assert(visits(n).drop_last() =~= visits((n - 1) as nat));
        lemma_visits_do_no_cache_work((n - 1) as nat);
    } else {
        reveal_with_fuel(cache_work, 1);
    }
}

/// A rebuild with scroll damage leaves the hit, miss and store counters
/// where they were.
pub proof fn law_scroll_damaged_rebuild_does_no_cache_work(recorder: DiagnosticsRecorder, n: nat)
    ensures
        cache_counters(apply_recording(recorder, visits(n)).diagnostics) == cache_counters(recorder.diagnostics),
{
    lemma_visits_do_no_cache_work(n);
    law_cache_counters_bounded_by_work(recorder, visits(n));
}

} // verus!
