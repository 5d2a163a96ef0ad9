//! Registry build diagnostics: saturating counters of subtree visits and
//! subtree-cache outcomes, recorded only while a benchmark has enabled them.
//!
//! The counters live in a recorder value that the caller owns (a benchmark
//! harness keeps one per thread); recording into a disabled recorder changes
//! nothing.
use vstd::prelude::*;

verus! {

#[derive(Clone, Copy, Debug, PartialEq, Eq, Structural)]
pub struct RegistryBuildDiagnostics {
    pub visits: u64,
    pub cache_hits: u64,
    pub cache_stores: u64,
    pub cache_ineligible: u64,
    pub cache_damaged: u64,
    pub cache_misses: u64,
}

/// One kind of registry build event that diagnostics count.
#[derive(Clone, Copy, Debug, PartialEq, Eq, Structural)]
pub enum RegistryBuildEvent {
    Visit,
    CacheHit,
    CacheStore,
    CacheIneligible,
    CacheDamaged,
    CacheMiss,
}

/// `value + 1`, or `value` when that would not fit in a `u64`.
pub open spec fn saturating_increment(value: u64) -> u64 {
    if value == u64::MAX {
        value
    } else {
        (value + 1) as u64
    }
}

/// The diagnostics after counting one event: its counter incremented with
/// saturation, every other counter unchanged.
pub open spec fn spec_with_event(
    d: RegistryBuildDiagnostics,
    event: RegistryBuildEvent,
) -> RegistryBuildDiagnostics {
    match event {
        RegistryBuildEvent::Visit => RegistryBuildDiagnostics {
            visits: saturating_increment(d.visits),
            ..d
        },
        RegistryBuildEvent::CacheHit => RegistryBuildDiagnostics {
            cache_hits: saturating_increment(d.cache_hits),
            ..d
        },
        RegistryBuildEvent::CacheStore => RegistryBuildDiagnostics {
            cache_stores: saturating_increment(d.cache_stores),
            ..d
        },
        RegistryBuildEvent::CacheIneligible => RegistryBuildDiagnostics {
            cache_ineligible: saturating_increment(d.cache_ineligible),
            ..d
        },
        RegistryBuildEvent::CacheDamaged => RegistryBuildDiagnostics {
            cache_damaged: saturating_increment(d.cache_damaged),
            ..d
        },
        RegistryBuildEvent::CacheMiss => RegistryBuildDiagnostics {
            cache_misses: saturating_increment(d.cache_misses),
            ..d
        },
    }
}

/// Every counter at zero.
pub open spec fn spec_empty_diagnostics() -> RegistryBuildDiagnostics {
    RegistryBuildDiagnostics {
        visits: 0,
        cache_hits: 0,
        cache_stores: 0,
        cache_ineligible: 0,
        cache_damaged: 0,
        cache_misses: 0,
    }
}

impl RegistryBuildDiagnostics {
    /// Every counter at zero.
    pub fn empty() -> (d: Self)
        ensures
            d == spec_empty_diagnostics(),
    {
        Self {
            visits: 0,
            cache_hits: 0,
            cache_stores: 0,
            cache_ineligible: 0,
            cache_damaged: 0,
            cache_misses: 0,
        }
    }

    /// These diagnostics with one more event of kind `event` counted.
    pub fn with_event(self, event: RegistryBuildEvent) -> (d: Self)
        ensures
            d == spec_with_event(self, event),
    {
        let mut d = self;
        match event {
            RegistryBuildEvent::Visit => d.visits = d.visits.saturating_add(1),
            RegistryBuildEvent::CacheHit => d.cache_hits = d.cache_hits.saturating_add(1),
            RegistryBuildEvent::CacheStore => d.cache_stores = d.cache_stores.saturating_add(1),
            RegistryBuildEvent::CacheIneligible => d.cache_ineligible = d.cache_ineligible.saturating_add(1),
            RegistryBuildEvent::CacheDamaged => d.cache_damaged = d.cache_damaged.saturating_add(1),
            RegistryBuildEvent::CacheMiss => d.cache_misses = d.cache_misses.saturating_add(1),
        }
        d
    }
}

impl Default for RegistryBuildDiagnostics {
    fn default() -> (d: Self)
        ensures
            d == spec_empty_diagnostics(),
    {
        Self::empty()
    }
}

/// The diagnostics state of one build thread: whether recording is enabled,
/// and the counters.
#[derive(Clone, Copy, Debug, PartialEq, Eq, Structural)]
pub struct DiagnosticsRecorder {
    pub enabled: bool,
    pub diagnostics: RegistryBuildDiagnostics,
}

impl DiagnosticsRecorder {
    /// A disabled recorder with every counter at zero.
    pub fn new() -> (r: Self)
        ensures
            !r.enabled,
            r.diagnostics == spec_empty_diagnostics(),
    {
        DiagnosticsRecorder { enabled: false, diagnostics: RegistryBuildDiagnostics::empty() }
    }

    /// Counts `event` when recording is enabled.
    pub fn update_registry_build_diagnostics(&mut self, event: RegistryBuildEvent)
        ensures
            final(self).enabled == old(self).enabled,
            final(self).diagnostics == (if old(self).enabled {
                spec_with_event(old(self).diagnostics, event)
            } else {
                old(self).diagnostics
            }),
    {
        if self.enabled {
            self.diagnostics = self.diagnostics.with_event(event);
        }
    }

    /// Counts one subtree visit.
    pub fn record_registry_visit(&mut self)
        ensures
            final(self).enabled == old(self).enabled,
            final(self).diagnostics == (if old(self).enabled {
                spec_with_event(old(self).diagnostics, RegistryBuildEvent::Visit)
            } else {
                old(self).diagnostics
            }),
    {
        self.update_registry_build_diagnostics(RegistryBuildEvent::Visit);
    }

    /// Counts one subtree-cache hit.
    pub fn record_registry_cache_hit(&mut self)
        ensures
            final(self).enabled == old(self).enabled,
            final(self).diagnostics == (if old(self).enabled {
                spec_with_event(old(self).diagnostics, RegistryBuildEvent::CacheHit)
            } else {
                old(self).diagnostics
            }),
    {
        self.update_registry_build_diagnostics(RegistryBuildEvent::CacheHit);
    }

    /// Counts one subtree-cache store.
    pub fn record_registry_cache_store(&mut self)
        ensures
            final(self).enabled == old(self).enabled,
            final(self).diagnostics == (if old(self).enabled {
                spec_with_event(old(self).diagnostics, RegistryBuildEvent::CacheStore)
            } else {
                old(self).diagnostics
            }),
    {
        self.update_registry_build_diagnostics(RegistryBuildEvent::CacheStore);
    }

    /// Counts one subtree that the cache cannot hold.
    pub fn record_registry_cache_ineligible(&mut self)
        ensures
            final(self).enabled == old(self).enabled,
            final(self).diagnostics == (if old(self).enabled {
                spec_with_event(old(self).diagnostics, RegistryBuildEvent::CacheIneligible)
            } else {
                old(self).diagnostics
            }),
    {
        self.update_registry_build_diagnostics(RegistryBuildEvent::CacheIneligible);
    }

    /// Counts one cached subtree found damaged.
    pub fn record_registry_cache_damaged(&mut self)
        ensures
            final(self).enabled == old(self).enabled,
            final(self).diagnostics == (if old(self).enabled {
                spec_with_event(old(self).diagnostics, RegistryBuildEvent::CacheDamaged)
            } else {
                old(self).diagnostics
            }),
    {
        self.update_registry_build_diagnostics(RegistryBuildEvent::CacheDamaged);
    }

    /// Counts one subtree-cache miss.
    pub fn record_registry_cache_miss(&mut self)
        ensures
            final(self).enabled == old(self).enabled,
            final(self).diagnostics == (if old(self).enabled {
                spec_with_event(old(self).diagnostics, RegistryBuildEvent::CacheMiss)
            } else {
                old(self).diagnostics
            }),
    {
        self.update_registry_build_diagnostics(RegistryBuildEvent::CacheMiss);
    }
}

impl Default for DiagnosticsRecorder {
    fn default() -> (r: Self)
        ensures
            !r.enabled,
            r.diagnostics == spec_empty_diagnostics(),
    {
        Self::new()
    }
}

/// Clears the counters and starts recording.
pub fn reset_registry_build_diagnostics_for_benchmark(recorder: &mut DiagnosticsRecorder)
    ensures
        final(recorder).enabled,
        final(recorder).diagnostics == spec_empty_diagnostics(),
{
    recorder.diagnostics = RegistryBuildDiagnostics::empty();
    recorder.enabled = true;
}

/// Stops recording and returns the counters as they stand; the counters
/// themselves are kept.
pub fn take_registry_build_diagnostics_for_benchmark(recorder: &mut DiagnosticsRecorder) -> (d:
    RegistryBuildDiagnostics)
    ensures
        !final(recorder).enabled,
        final(recorder).diagnostics == old(recorder).diagnostics,
        d == old(recorder).diagnostics,
{
    recorder.enabled = false;
    recorder.diagnostics
}

/// Events recorded between a reset and a take are counted from zero, each
/// counter saturating: the taken diagnostics are the empty diagnostics with
/// the events applied in order, and recording stops.
pub open spec fn apply_events(
    d: RegistryBuildDiagnostics,
    events: Seq<RegistryBuildEvent>,
) -> RegistryBuildDiagnostics
    decreases events.len(),
{
    if events.len() == 0 {
        d
    } else {
        spec_with_event(apply_events(d, events.drop_last()), events.last())
    }
}

/// Recording into a disabled recorder leaves its counters unchanged, for any
/// sequence of events.
pub proof fn law_disabled_recorder_ignores_events(
    recorder: DiagnosticsRecorder,
    events: Seq<RegistryBuildEvent>,
)
    requires
        !recorder.enabled,
    ensures
        apply_recording(recorder, events) == recorder,
    decreases events.len(),
{
    if events.len() > 0 {
        law_disabled_recorder_ignores_events(recorder, events.drop_last());
    }
}

/// The recorder after recording `events` in order.
pub open spec fn apply_recording(
    recorder: DiagnosticsRecorder,
    events: Seq<RegistryBuildEvent>,
) -> DiagnosticsRecorder
    decreases events.len(),
{
    if events.len() == 0 {
        recorder
    } else {
        let r = apply_recording(recorder, events.drop_last());
        if r.enabled {
            DiagnosticsRecorder { diagnostics: spec_with_event(r.diagnostics, events.last()), ..r }
        } else {
            r
        }
    }
}

/// After a reset, recording `events` leaves the recorder enabled with the
/// counters of the empty diagnostics with `events` applied in order.
pub proof fn law_recording_after_reset(
    recorder: DiagnosticsRecorder,
    events: Seq<RegistryBuildEvent>,
)
    requires
        recorder.enabled,
        recorder.diagnostics == spec_empty_diagnostics(),
    ensures
        apply_recording(recorder, events).enabled,
        apply_recording(recorder, events).diagnostics == apply_events(
            spec_empty_diagnostics(),
            events,
        ),
    decreases events.len(),
{
    if events.len() > 0 {
        law_recording_after_reset(recorder, events.drop_last());
    }
}

/// A counter never decreases when an event is counted.
pub proof fn law_counting_is_monotone(d: RegistryBuildDiagnostics, event: RegistryBuildEvent)
    ensures
        spec_with_event(d, event).visits >= d.visits,
        spec_with_event(d, event).cache_hits >= d.cache_hits,
        spec_with_event(d, event).cache_stores >= d.cache_stores,
        spec_with_event(d, event).cache_ineligible >= d.cache_ineligible,
        spec_with_event(d, event).cache_damaged >= d.cache_damaged,
        spec_with_event(d, event).cache_misses >= d.cache_misses,
{
}


/// Recording `a` then `b` is recording `a + b`.
pub proof fn lemma_recording_concat(
    recorder: DiagnosticsRecorder,
    a: Seq<RegistryBuildEvent>,
    b: Seq<RegistryBuildEvent>,
)
    ensures
        apply_recording(apply_recording(recorder, a), b) == apply_recording(recorder, a + b),
    decreases b.len(),
{
    if b.len() == 0 {
        assert(a + b =~= a);
    } else {
        lemma_recording_concat(recorder, a, b.drop_last());
        assert((a + b).drop_last() =~= a + b.drop_last());
        assert((a + b).last() == b.last());
    }
}


/// Whether an event is cache work: a hit, a miss or a store.
pub open spec fn is_cache_work(event: RegistryBuildEvent) -> bool {
    event is CacheHit || event is CacheMiss || event is CacheStore
}

/// The number of cache-work events in `events`.
pub open spec fn cache_work(events: Seq<RegistryBuildEvent>) -> nat
    decreases events.len(),
{
    if events.len() == 0 {
        0
    } else {
        cache_work(events.drop_last()) + if is_cache_work(events.last()) {
            1nat
        } else {
            0nat
        }
    }
}

pub proof fn lemma_cache_work_concat(a: Seq<RegistryBuildEvent>, b: Seq<RegistryBuildEvent>)
    ensures
        cache_work(a + b) == cache_work(a) + cache_work(b),
    decreases b.len(),
{
    if b.len() == 0 {
        assert(a + b =~= a);
    } else {
        lemma_cache_work_concat(a, b.drop_last());
        assert((a + b).drop_last() =~= a + b.drop_last());
        assert((a + b).last() == b.last());
    }
}

/// The sum of the hit, miss and store counters.
pub open spec fn cache_counters(d: RegistryBuildDiagnostics) -> int {
    d.cache_hits + d.cache_misses + d.cache_stores
}

/// Recording events raises the hit, miss and store counters together by
/// at most the number of cache-work events among them.
pub proof fn law_cache_counters_bounded_by_work(recorder: DiagnosticsRecorder, events: Seq<RegistryBuildEvent>)
    ensures
        cache_counters(apply_recording(recorder, events).diagnostics) <= cache_counters(recorder.diagnostics)
            + cache_work(events),
        cache_counters(apply_recording(recorder, events).diagnostics) >= cache_counters(recorder.diagnostics),
    decreases events.len(),
{
    if events.len() > 0 {
        law_cache_counters_bounded_by_work(recorder, events.drop_last());
    }
}

} // verus!
