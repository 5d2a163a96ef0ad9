use emerge_skia::diagnostics::{
    reset_registry_build_diagnostics_for_benchmark, take_registry_build_diagnostics_for_benchmark,
    DiagnosticsRecorder,
};
use emerge_skia::events::registry_walk::{
    registry_rebuild_walk_order, registry_walk_order, registry_walk_order_cached, WalkChunk, WalkNode,
};

fn node(id: u64, local_mounts: Vec<usize>, children: Vec<usize>, escape_mounts: Vec<usize>) -> WalkNode {
    WalkNode {
        id,
        local_mounts,
        children,
        escape_mounts,
        damaged: false,
        eligible: true,
        cache: None,
    }
}

#[test]
fn element_then_local_mounts_then_children_then_escape_mounts() {
    let tree = vec![
        node(10, vec![], vec![], vec![]),
        node(11, vec![], vec![], vec![]),
        node(12, vec![], vec![], vec![]),
        node(13, vec![2], vec![0], vec![1]),
    ];
    assert_eq!(registry_walk_order(&tree, 3), vec![13, 12, 10, 11]);
}

#[test]
fn escape_mounts_of_descendants_wait_for_the_whole_subtree() {
    let tree = vec![
        node(20, vec![], vec![], vec![]),
        node(21, vec![], vec![], vec![0]),
        node(22, vec![], vec![], vec![]),
        node(23, vec![], vec![1, 2], vec![]),
    ];
    assert_eq!(registry_walk_order(&tree, 3), vec![23, 21, 22, 20]);
}

#[test]
fn deferred_mounts_walk_their_own_deferred_mounts_next() {
    let tree = vec![
        node(30, vec![], vec![], vec![]),
        node(31, vec![], vec![], vec![0]),
        node(32, vec![], vec![], vec![]),
        node(33, vec![], vec![], vec![1, 2]),
    ];
    assert_eq!(registry_walk_order(&tree, 3), vec![33, 31, 30, 32]);
}

#[test]
fn references_to_later_slots_are_ignored() {
    let tree = vec![node(40, vec![1], vec![1], vec![1]), node(41, vec![], vec![], vec![])];
    assert_eq!(registry_walk_order(&tree, 0), vec![40]);
    assert_eq!(registry_walk_order(&tree, 5), Vec::<u64>::new());
}

fn cached_tree(key_matches: bool) -> Vec<WalkNode> {
    let mut tree = vec![
        node(50, vec![], vec![], vec![]),
        node(51, vec![], vec![0], vec![]),
        node(52, vec![], vec![1], vec![]),
    ];
    tree[1].cache = Some(WalkChunk {
        key_matches,
        order: vec![99],
        deferred: vec![],
    });
    tree
}

#[test]
fn cached_walk_takes_matching_caches() {
    let mut tree = cached_tree(true);
    let mut budget = 10usize;
    let mut recorder = DiagnosticsRecorder::new();
    let order = registry_walk_order_cached(&mut tree, 2, &mut budget, &mut recorder);
    assert_eq!(order, vec![52, 99]);
    assert_eq!(registry_walk_order(&tree, 2), vec![52, 51, 50]);
}

#[test]
fn cached_walk_walks_past_stale_caches() {
    let mut tree = cached_tree(false);
    let mut budget = 10usize;
    let mut recorder = DiagnosticsRecorder::new();
    let order = registry_walk_order_cached(&mut tree, 2, &mut budget, &mut recorder);
    assert_eq!(order, vec![52, 51, 50]);
    assert!(budget < 10);
    let stored = tree[1].cache.as_ref().unwrap();
    assert!(stored.key_matches);
    assert_eq!(stored.order, vec![51, 50]);
    let root_cache = tree[2].cache.as_ref().unwrap();
    assert_eq!(root_cache.order, vec![52, 51, 50]);
}

#[test]
fn cached_walk_with_agreeing_caches_matches_uncached_walk() {
    let mut tree = cached_tree(true);
    tree[1].cache = Some(WalkChunk {
        key_matches: true,
        order: vec![51, 50],
        deferred: vec![],
    });
    let mut budget = 10usize;
    let mut recorder = DiagnosticsRecorder::new();
    let uncached = registry_walk_order(&tree, 2);
    assert_eq!(
        registry_walk_order_cached(&mut tree, 2, &mut budget, &mut recorder),
        uncached
    );
}

#[test]
fn cached_walk_without_budget_walks_everything() {
    let mut tree = cached_tree(true);
    let mut budget = 0usize;
    let mut recorder = DiagnosticsRecorder::new();
    let order = registry_walk_order_cached(&mut tree, 2, &mut budget, &mut recorder);
    assert_eq!(order, vec![52, 51, 50]);
    assert_eq!(budget, 0);
}

fn chain(len: usize) -> Vec<WalkNode> {
    let mut tree = Vec::new();
    for i in 0..len {
        let children = if i == 0 { vec![] } else { vec![i - 1] };
        tree.push(node(72000 + (len - 1 - i) as u64, vec![], children, vec![]));
    }
    tree
}

#[test]
fn dirty_root_with_cached_child_visits_two_and_hits_one() {
    let mut tree = chain(33);
    let root = 32;
    let mut recorder = DiagnosticsRecorder::new();
    let first = registry_rebuild_walk_order(&mut tree, root, false, &mut recorder);
    assert_eq!(first.len(), 33);
    tree[root].damaged = true;
    reset_registry_build_diagnostics_for_benchmark(&mut recorder);
    let second = registry_rebuild_walk_order(&mut tree, root, false, &mut recorder);
    let d = take_registry_build_diagnostics_for_benchmark(&mut recorder);
    assert_eq!(d.visits, 2);
    assert_eq!(d.cache_hits, 1);
    assert_eq!(second, first);
}

#[test]
fn cache_work_of_one_rebuild_stays_within_budget() {
    let mut tree: Vec<WalkNode> = (0..60).map(|i| node(i as u64, vec![], vec![], vec![])).collect();
    tree.push(node(999, vec![], (0..60).collect(), vec![]));
    let mut recorder = DiagnosticsRecorder::new();
    reset_registry_build_diagnostics_for_benchmark(&mut recorder);
    let order = registry_rebuild_walk_order(&mut tree, 60, false, &mut recorder);
    assert_eq!(order.len(), 61);
    let d = take_registry_build_diagnostics_for_benchmark(&mut recorder);
    assert_eq!(d.visits, 61);
    assert!(d.cache_hits + d.cache_misses + d.cache_stores <= 48);
    assert_eq!(d.cache_stores, 48);
}

#[test]
fn scroll_damaged_rebuild_walks_without_the_caches() {
    let mut tree = cached_tree(true);
    let mut recorder = DiagnosticsRecorder::new();
    reset_registry_build_diagnostics_for_benchmark(&mut recorder);
    let order = registry_rebuild_walk_order(&mut tree, 2, true, &mut recorder);
    assert_eq!(order, vec![52, 51, 50]);
    let d = take_registry_build_diagnostics_for_benchmark(&mut recorder);
    assert_eq!(d.visits, 3);
    assert_eq!(d.cache_hits + d.cache_misses + d.cache_stores, 0);
    assert!(tree[2].cache.is_none());
}
