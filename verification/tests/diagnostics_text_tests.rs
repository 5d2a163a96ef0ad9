use emerge_skia::diagnostics::{
    reset_registry_build_diagnostics_for_benchmark, take_registry_build_diagnostics_for_benchmark,
    DiagnosticsRecorder, RegistryBuildDiagnostics, RegistryBuildEvent,
};
use emerge_skia::text::{
    char_is_control, filter_commit_chars, push_decimal, sanitize_multiline_text,
    sanitize_single_line_text, sanitize_text_input_text,
};

#[test]
fn disabled_recorder_ignores_events() {
    let mut recorder = DiagnosticsRecorder::new();
    recorder.record_registry_visit();
    recorder.record_registry_cache_hit();
    assert_eq!(recorder.diagnostics, RegistryBuildDiagnostics::empty());
    assert_eq!(DiagnosticsRecorder::default(), recorder);
}

#[test]
fn reset_then_record_then_take() {
    let mut recorder = DiagnosticsRecorder::new();
    reset_registry_build_diagnostics_for_benchmark(&mut recorder);
    recorder.record_registry_visit();
    recorder.record_registry_visit();
    recorder.record_registry_cache_hit();
    recorder.record_registry_cache_store();
    recorder.record_registry_cache_ineligible();
    recorder.record_registry_cache_damaged();
    recorder.record_registry_cache_miss();
    recorder.update_registry_build_diagnostics(RegistryBuildEvent::CacheMiss);
    let taken = take_registry_build_diagnostics_for_benchmark(&mut recorder);
    assert_eq!(
        taken,
        RegistryBuildDiagnostics {
            visits: 2,
            cache_hits: 1,
            cache_stores: 1,
            cache_ineligible: 1,
            cache_damaged: 1,
            cache_misses: 2,
        }
    );
    assert!(!recorder.enabled);
    recorder.record_registry_visit();
    assert_eq!(recorder.diagnostics.visits, 2);

    reset_registry_build_diagnostics_for_benchmark(&mut recorder);
    assert!(recorder.enabled);
    assert_eq!(recorder.diagnostics, RegistryBuildDiagnostics::default());
}

#[test]
fn counters_saturate() {
    let full = RegistryBuildDiagnostics {
        visits: u64::MAX,
        cache_hits: 0,
        cache_stores: 0,
        cache_ineligible: 0,
        cache_damaged: 0,
        cache_misses: 0,
    };
    assert_eq!(full.with_event(RegistryBuildEvent::Visit).visits, u64::MAX);
    assert_eq!(full.with_event(RegistryBuildEvent::CacheHit).cache_hits, 1);
}

#[test]
fn control_characters() {
    assert!(char_is_control('\u{0}'));
    assert!(char_is_control('\n'));
    assert!(char_is_control('\u{7f}'));
    assert!(char_is_control('\u{9f}'));
    assert!(!char_is_control('\u{a0}'));
    assert!(!char_is_control('a'));
    assert!(!char_is_control('é'));
}

#[test]
fn single_line_sanitizing_turns_breaks_into_spaces() {
    assert_eq!(sanitize_single_line_text("a\r\nb\tc\u{7}d"), "a  b cd");
    assert_eq!(sanitize_single_line_text(""), "");
    assert_eq!(sanitize_text_input_text("x\ny", false), "x y");
}

#[test]
fn multiline_sanitizing_normalizes_line_ends() {
    assert_eq!(sanitize_multiline_text("a\r\nb\rc\nd\te\u{1b}"), "a\nb\nc\nd e");
    assert_eq!(sanitize_multiline_text("\r\r\n"), "\n\n");
    assert_eq!(sanitize_text_input_text("x\r\ny", true), "x\ny");
}

#[test]
fn commit_filter_keeps_line_controls_only() {
    assert_eq!(filter_commit_chars("a\u{7f}\nb\r\t\u{85}"), "a\nb\r\t");
}

#[test]
fn decimal_rendering() {
    let mut out = String::from("n=");
    push_decimal(&mut out, 0);
    push_decimal(&mut out, 907);
    assert_eq!(out, "n=0907");
    let mut big = String::new();
    push_decimal(&mut big, usize::MAX);
    assert_eq!(big, usize::MAX.to_string());
}

#[test]
fn sanitizing_twice_changes_nothing_more() {
    let once = sanitize_single_line_text("a\tb\r\nc\u{0}");
    assert_eq!(sanitize_single_line_text(&once), once);
    let filtered = filter_commit_chars("x\u{1}\ny\u{9f}");
    assert_eq!(filter_commit_chars(&filtered), filtered);
    let multi = sanitize_multiline_text("p\r\nq\u{2}\tr");
    assert!(multi.chars().all(|c| c == '\n' || !c.is_control()));
}
