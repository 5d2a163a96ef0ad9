use emerge_skia::diagnostics::{
    reset_registry_build_diagnostics_for_benchmark, take_registry_build_diagnostics_for_benchmark,
    DiagnosticsRecorder,
};
use emerge_skia::events::subtree_cache::{
    decide_subtree_cache, SubtreeCacheFacts, SubtreeCacheOutcome,
};

fn facts(damaged: bool, eligible: bool, cached_key_matches: Option<bool>) -> SubtreeCacheFacts {
    SubtreeCacheFacts {
        damaged,
        eligible,
        cached_key_matches,
    }
}

#[test]
fn matching_cache_is_a_hit_and_takes_one_unit() {
    let mut recorder = DiagnosticsRecorder::new();
    reset_registry_build_diagnostics_for_benchmark(&mut recorder);
    let mut budget = 3usize;
    let outcome = decide_subtree_cache(facts(false, true, Some(true)), &mut budget, &mut recorder);
    assert_eq!(outcome, SubtreeCacheOutcome::Hit);
    assert_eq!(budget, 2);
    let d = take_registry_build_diagnostics_for_benchmark(&mut recorder);
    assert_eq!(d.visits, 1);
    assert_eq!(d.cache_hits, 1);
    assert_eq!(d.cache_stores, 0);
}

#[test]
fn stale_cache_is_a_miss_then_a_store() {
    let mut recorder = DiagnosticsRecorder::new();
    reset_registry_build_diagnostics_for_benchmark(&mut recorder);
    let mut budget = 2usize;
    let outcome = decide_subtree_cache(facts(false, true, Some(false)), &mut budget, &mut recorder);
    assert_eq!(outcome, SubtreeCacheOutcome::Store);
    assert_eq!(budget, 0);
    let d = take_registry_build_diagnostics_for_benchmark(&mut recorder);
    assert_eq!(d.cache_misses, 1);
    assert_eq!(d.cache_stores, 1);
}

#[test]
fn miss_with_budget_for_one_try_only_is_uncached() {
    let mut recorder = DiagnosticsRecorder::new();
    let mut budget = 1usize;
    let outcome = decide_subtree_cache(facts(false, true, Some(false)), &mut budget, &mut recorder);
    assert_eq!(outcome, SubtreeCacheOutcome::Uncached);
    assert_eq!(budget, 0);
}

#[test]
fn no_cache_stores_while_budget_lasts() {
    let mut recorder = DiagnosticsRecorder::new();
    let mut budget = 1usize;
    assert_eq!(
        decide_subtree_cache(facts(false, true, None), &mut budget, &mut recorder),
        SubtreeCacheOutcome::Store
    );
    assert_eq!(
        decide_subtree_cache(facts(false, true, None), &mut budget, &mut recorder),
        SubtreeCacheOutcome::Uncached
    );
    assert_eq!(budget, 0);
}

#[test]
fn damaged_or_ineligible_subtrees_skip_the_cache() {
    let mut recorder = DiagnosticsRecorder::new();
    reset_registry_build_diagnostics_for_benchmark(&mut recorder);
    let mut budget = 5usize;
    assert_eq!(
        decide_subtree_cache(facts(true, true, Some(true)), &mut budget, &mut recorder),
        SubtreeCacheOutcome::Uncached
    );
    assert_eq!(
        decide_subtree_cache(facts(false, false, Some(true)), &mut budget, &mut recorder),
        SubtreeCacheOutcome::Uncached
    );
    assert_eq!(budget, 5);
    let d = take_registry_build_diagnostics_for_benchmark(&mut recorder);
    assert_eq!(d.visits, 2);
    assert_eq!(d.cache_damaged, 1);
    assert_eq!(d.cache_ineligible, 1);
}
