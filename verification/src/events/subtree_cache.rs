//! The subtree-cache decision of a registry rebuild.
//!
//! Each visited subtree is counted. A damaged subtree (its registry or a
//! descendant's is dirty) and one that is not cacheable are rebuilt without
//! the cache. Otherwise, while the rebuild's cache budget lasts, an existing
//! cache is tried first (one unit of budget): a matching key is a hit, any
//! other key a miss. After a miss, or with no cache, the subtree is rebuilt
//! and stored (one more unit), again while the budget lasts.
use vstd::prelude::*;

use crate::diagnostics::{apply_recording, cache_work, DiagnosticsRecorder, RegistryBuildEvent};
use crate::events::registry_builder::try_take_registry_cache_budget;

verus! {

/// How a subtree's listeners are obtained.
#[derive(Clone, Copy, Debug, PartialEq, Eq, Structural)]
pub enum SubtreeCacheOutcome {
    /// Taken from the subtree's cache.
    Hit,
    /// Rebuilt and stored as the subtree's new cache.
    Store,
    /// Rebuilt without the cache.
    Uncached,
}

/// What the decision reads of a subtree: whether its registry is damaged,
/// whether it may be cached, and, when it has a cache, whether the cache's
/// key matches the subtree's current key.
#[derive(Clone, Copy, Debug, PartialEq, Eq, Structural)]
pub struct SubtreeCacheFacts {
    pub damaged: bool,
    pub eligible: bool,
    pub cached_key_matches: Option<bool>,
}

/// Whether the cache may be used at all.
pub open spec fn cache_usable(facts: SubtreeCacheFacts) -> bool {
    !facts.damaged && facts.eligible
}

/// Whether an existing cache is tried: usable, present, and budget left.
pub open spec fn cache_tried(facts: SubtreeCacheFacts, budget: usize) -> bool {
    cache_usable(facts) && facts.cached_key_matches is Some && budget > 0
}

/// The budget left after trying the cache.
pub open spec fn budget_after_try(facts: SubtreeCacheFacts, budget: usize) -> usize {
    if cache_tried(facts, budget) {
        (budget - 1) as usize
    } else {
        budget
    }
}

/// The decision for a subtree with `budget` units left.
pub open spec fn spec_cache_outcome(facts: SubtreeCacheFacts, budget: usize) -> SubtreeCacheOutcome {
    if cache_tried(facts, budget) && facts.cached_key_matches == Some(true) {
        SubtreeCacheOutcome::Hit
    } else if cache_usable(facts) && budget_after_try(facts, budget) > 0 {
        SubtreeCacheOutcome::Store
    } else {
        SubtreeCacheOutcome::Uncached
    }
}

/// The budget left after the decision.
pub open spec fn spec_cache_budget_after(facts: SubtreeCacheFacts, budget: usize) -> usize {
    let tried = budget_after_try(facts, budget);
    if spec_cache_outcome(facts, budget) == SubtreeCacheOutcome::Store {
        (tried - 1) as usize
    } else {
        tried
    }
}

/// The diagnostics events of the decision, in order: the visit; damaged or
/// not cacheable; then a hit, or a miss, and a store.
pub open spec fn spec_cache_events(facts: SubtreeCacheFacts, budget: usize) -> Seq<RegistryBuildEvent> {
    let first = seq![RegistryBuildEvent::Visit] + (if facts.damaged {
        seq![RegistryBuildEvent::CacheDamaged]
    } else if !facts.eligible {
        seq![RegistryBuildEvent::CacheIneligible]
    } else {
        Seq::empty()
    });
    let tried = if cache_tried(facts, budget) {
        if facts.cached_key_matches == Some(true) {
            seq![RegistryBuildEvent::CacheHit]
        } else {
            seq![RegistryBuildEvent::CacheMiss]
        }
    } else {
        Seq::empty()
    };
    let stored = if spec_cache_outcome(facts, budget) == SubtreeCacheOutcome::Store {
        seq![RegistryBuildEvent::CacheStore]
    } else {
        Seq::empty()
    };
    first + tried + stored
}

/// Decides how a visited subtree's listeners are obtained, taking budget
/// and recording diagnostics as it goes.
pub fn decide_subtree_cache(
    facts: SubtreeCacheFacts,
    cache_budget: &mut usize,
    recorder: &mut DiagnosticsRecorder,
) -> (outcome: SubtreeCacheOutcome)
    ensures
        outcome == spec_cache_outcome(facts, *old(cache_budget)),
        *final(cache_budget) == spec_cache_budget_after(facts, *old(cache_budget)),
        *final(recorder) == apply_recording(*old(recorder), spec_cache_events(facts, *old(cache_budget))),
{
    let ghost budget = *cache_budget;
    let ghost start = *recorder;
    let ghost mut events: Seq<RegistryBuildEvent> = seq![RegistryBuildEvent::Visit];
    recorder.record_registry_visit();
    assert(*recorder == apply_recording(start, events)) by {
        reveal_with_fuel(apply_recording, 2);
        assert(events.drop_last() =~= Seq::<RegistryBuildEvent>::empty());
    }
    if facts.damaged {
        recorder.record_registry_cache_damaged();
        proof {
            lemma_record_one(start, events, RegistryBuildEvent::CacheDamaged);
            events = events.push(RegistryBuildEvent::CacheDamaged);
        }
    } else if !facts.eligible {
        recorder.record_registry_cache_ineligible();
        proof {
            lemma_record_one(start, events, RegistryBuildEvent::CacheIneligible);
            events = events.push(RegistryBuildEvent::CacheIneligible);
        }
    }
    let usable = !facts.damaged && facts.eligible;
    if usable && facts.cached_key_matches.is_some() && try_take_registry_cache_budget(cache_budget) {
        if facts.cached_key_matches == Some(true) {
            recorder.record_registry_cache_hit();
            proof {
                lemma_record_one(start, events, RegistryBuildEvent::CacheHit);
                events = events.push(RegistryBuildEvent::CacheHit);
                assert(events =~= spec_cache_events(facts, budget));
            }
            return SubtreeCacheOutcome::Hit;
        }
        recorder.record_registry_cache_miss();
        proof {
            lemma_record_one(start, events, RegistryBuildEvent::CacheMiss);
            events = events.push(RegistryBuildEvent::CacheMiss);
        }
    }
    if usable && try_take_registry_cache_budget(cache_budget) {
        recorder.record_registry_cache_store();
        proof {
            lemma_record_one(start, events, RegistryBuildEvent::CacheStore);
            events = events.push(RegistryBuildEvent::CacheStore);
            assert(events =~= spec_cache_events(facts, budget));
        }
        return SubtreeCacheOutcome::Store;
    }
    assert(events =~= spec_cache_events(facts, budget));
    SubtreeCacheOutcome::Uncached
}

proof fn lemma_record_one(start: DiagnosticsRecorder, events: Seq<RegistryBuildEvent>, event: RegistryBuildEvent)
    ensures
        apply_recording(start, events.push(event)) == (if apply_recording(start, events).enabled {
            DiagnosticsRecorder {
                diagnostics: crate::diagnostics::spec_with_event(
                    apply_recording(start, events).diagnostics,
                    event,
                ),
                ..apply_recording(start, events)
            }
        } else {
            apply_recording(start, events)
        }),
{
    assert(events.push(event).drop_last() =~= events);
}

/// The cache budget bounds the cache work: a hit or a store always takes
/// budget, the budget never grows, and a subtree is taken from its cache
/// only when it is undamaged, cacheable and its cache's key matches.
pub proof fn law_cache_work_takes_budget(facts: SubtreeCacheFacts, budget: usize)
    ensures
        spec_cache_budget_after(facts, budget) <= budget,
        spec_cache_outcome(facts, budget) != SubtreeCacheOutcome::Uncached ==> spec_cache_budget_after(
            facts,
            budget,
        ) < budget,
        spec_cache_outcome(facts, budget) == SubtreeCacheOutcome::Hit ==> cache_usable(facts)
            && facts.cached_key_matches == Some(true),
        !cache_usable(facts) ==> spec_cache_outcome(facts, budget) == SubtreeCacheOutcome::Uncached
            && spec_cache_budget_after(facts, budget) == budget,
{
}


/// Each hit, miss and store of a decision takes one unit of budget.
pub proof fn law_cache_events_match_budget(facts: SubtreeCacheFacts, budget: usize)
    ensures
        spec_cache_budget_after(facts, budget) <= budget,
        cache_work(spec_cache_events(facts, budget)) == budget - spec_cache_budget_after(facts, budget),
{
    let events = spec_cache_events(facts, budget);
    reveal_with_fuel(cache_work, 5);
    if events.len() >= 1 {
        assert(events[0] == RegistryBuildEvent::Visit);
    }
    let n = events.len();
    if n == 1 {
        assert(events.drop_last() =~= Seq::<RegistryBuildEvent>::empty());
    } else if n == 2 {
        assert(events.drop_last().drop_last() =~= Seq::<RegistryBuildEvent>::empty());
    } else if n == 3 {
        assert(events.drop_last().drop_last().drop_last() =~= Seq::<RegistryBuildEvent>::empty());
    } else if n == 4 {
        assert(events.drop_last().drop_last().drop_last().drop_last() =~= Seq::<RegistryBuildEvent>::empty());
    }
}

} // verus!
