use emerge_skia::events::contributors::{
    key_press_trackers_equal, ElementInteraction, InteractionKind, KeyBindingSpec,
    KeyPressFollowup, KeyPressTracker,
};
use emerge_skia::events::followups::ListenerAction;
use emerge_skia::events::key_bindings::key_binding_listeners_for_element;
use emerge_skia::events::registry_builder::{
    ClickPressTracker, KeyBindingMatch, Listener, ListenerMatcher, ListenerMatcherKind, Registry,
    RuntimeChange, SliderDragTracker, TextDragTracker,
};
use emerge_skia::events::runtime_listeners::{
    base_has_key_press_source, click_press_clear_actions, click_press_clear_actions_for_element,
    has_runtime_source, runtime_click_press_release_anywhere_clear_listener,
    runtime_click_press_window_blur_clear_listener, runtime_click_press_window_leave_clear_listener,
    runtime_key_press_release_listeners, runtime_key_press_window_blur_clear_listener,
    runtime_pointer_lifecycle_splitter_listener, runtime_slider_drag_move_listener,
    runtime_slider_drag_release_clear_listener, runtime_slider_drag_window_blur_clear_listener,
    runtime_slider_drag_window_leave_clear_listener, runtime_text_drag_cursor_move_listener,
    runtime_text_drag_release_clear_listener, runtime_text_drag_window_blur_clear_listener,
    runtime_text_drag_window_leave_clear_listener,
    runtime_virtual_key_release_anywhere_clear_listener,
    runtime_virtual_key_window_blur_clear_listener,
    runtime_virtual_key_window_leave_clear_listener, RuntimeCompute, VirtualKeyPhase,
    VirtualKeyTracker,
};
use emerge_skia::keys::CanonicalKey;

fn base_with(id: u64, matcher: ListenerMatcher) -> Registry<()> {
    let mut base = Registry::new();
    base.in_precedence_order(vec![Listener {
        element_id: Some(id),
        matcher,
        compute: (),
    }]);
    base
}

fn click_tracker(clear: bool) -> ClickPressTracker {
    ClickPressTracker {
        element_id: 7,
        matcher_kind: ListenerMatcherKind::CursorButtonLeftReleaseAnywhere,
        emit_click: true,
        emit_press_pointer: false,
        clear_mouse_down: clear,
    }
}

#[test]
fn click_press_clear_actions_clear_style_then_trackers() {
    assert_eq!(
        click_press_clear_actions(&click_tracker(true)),
        vec![
            ListenerAction::SetMouseDownActive {
                element_id: 7,
                active: false,
            },
            ListenerAction::RuntimeChange(RuntimeChange::ClearClickPressTracker),
            ListenerAction::RuntimeChange(RuntimeChange::ClearDragTracker),
        ]
    );
    assert_eq!(click_press_clear_actions(&click_tracker(false)).len(), 2);
    assert!(click_press_clear_actions_for_element(None).is_empty());
}

#[test]
fn click_press_clear_listeners_need_their_source() {
    let base = base_with(7, ListenerMatcher::CursorButtonLeftReleaseAnywhere);
    let tracker = click_tracker(true);
    assert!(has_runtime_source(&base, 7, ListenerMatcherKind::CursorButtonLeftReleaseAnywhere));
    assert!(!has_runtime_source(&base, 8, ListenerMatcherKind::CursorButtonLeftReleaseAnywhere));
    assert!(!has_runtime_source(&base, 7, ListenerMatcherKind::WindowBlurred));

    let anywhere = runtime_click_press_release_anywhere_clear_listener(&base, &tracker).unwrap();
    assert_eq!(anywhere.element_id, Some(7));
    assert_eq!(anywhere.matcher, ListenerMatcher::CursorButtonLeftReleaseAnywhere);
    assert_eq!(
        anywhere.compute,
        RuntimeCompute::Static(click_press_clear_actions(&tracker))
    );
    assert_eq!(
        runtime_click_press_window_blur_clear_listener(&base, &tracker)
            .unwrap()
            .matcher,
        ListenerMatcher::WindowBlurred
    );
    assert_eq!(
        runtime_click_press_window_leave_clear_listener(&base, &tracker)
            .unwrap()
            .matcher,
        ListenerMatcher::WindowCursorLeft
    );

    let empty: Registry<()> = Registry::new();
    assert!(runtime_click_press_release_anywhere_clear_listener(&empty, &tracker).is_none());
    assert!(runtime_click_press_window_blur_clear_listener(&empty, &tracker).is_none());
}

#[test]
fn text_drag_adds_move_and_clear_followups() {
    let base = base_with(3, ListenerMatcher::CursorPosAnywhere);
    let tracker = TextDragTracker {
        element_id: 3,
        matcher_kind: ListenerMatcherKind::CursorPosAnywhere,
    };
    let clear = RuntimeCompute::Static(vec![ListenerAction::RuntimeChange(
        RuntimeChange::ClearTextDragTracker,
    )]);
    let release = runtime_text_drag_release_clear_listener(&base, &tracker).unwrap();
    assert_eq!(release.matcher, ListenerMatcher::CursorButtonLeftReleaseAnywhere);
    assert_eq!(release.compute, clear);
    let moving = runtime_text_drag_cursor_move_listener(&base, &tracker).unwrap();
    assert_eq!(moving.matcher, ListenerMatcher::CursorPosAnywhere);
    assert_eq!(
        moving.compute,
        RuntimeCompute::TextInputCursorFromPointer {
            element_id: 3,
            extend_selection: true,
        }
    );
    assert_eq!(runtime_text_drag_window_blur_clear_listener(&base, &tracker).unwrap().compute, clear);
    assert_eq!(
        runtime_text_drag_window_leave_clear_listener(&base, &tracker)
            .unwrap()
            .matcher,
        ListenerMatcher::WindowCursorLeft
    );

    let other = base_with(4, ListenerMatcher::CursorPosAnywhere);
    assert!(runtime_text_drag_release_clear_listener(&other, &tracker).is_none());
    assert!(runtime_text_drag_cursor_move_listener(&other, &tracker).is_none());
}

#[test]
fn slider_drag_adds_move_and_clear_followups() {
    let base = base_with(5, ListenerMatcher::CursorPosAnywhere);
    let tracker = SliderDragTracker {
        element_id: 5,
        matcher_kind: ListenerMatcherKind::CursorPosAnywhere,
    };
    let clear = RuntimeCompute::Static(vec![ListenerAction::RuntimeChange(
        RuntimeChange::ClearSliderDragTracker,
    )]);
    assert_eq!(runtime_slider_drag_release_clear_listener(&base, &tracker).unwrap().compute, clear);
    assert_eq!(runtime_slider_drag_window_blur_clear_listener(&base, &tracker).unwrap().compute, clear);
    assert_eq!(runtime_slider_drag_window_leave_clear_listener(&base, &tracker).unwrap().compute, clear);
    assert_eq!(
        runtime_slider_drag_move_listener(&base, &tracker).unwrap().compute,
        RuntimeCompute::SliderValueFromPointer { element_id: 5 }
    );
    let empty: Registry<()> = Registry::new();
    assert!(runtime_slider_drag_move_listener(&empty, &tracker).is_none());
}

#[test]
fn virtual_key_clears_end_its_click_press() {
    let tracker = VirtualKeyTracker {
        element_id: 7,
        phase: VirtualKeyPhase::Armed,
    };
    let press = click_tracker(false);
    let expected = vec![
        ListenerAction::RuntimeChange(RuntimeChange::ClearVirtualKeyTracker),
        ListenerAction::RuntimeChange(RuntimeChange::ClearClickPressTracker),
        ListenerAction::RuntimeChange(RuntimeChange::ClearDragTracker),
    ];
    let anywhere = runtime_virtual_key_release_anywhere_clear_listener(&tracker, Some(&press));
    assert_eq!(anywhere.compute, RuntimeCompute::Static(expected));
    let blur = runtime_virtual_key_window_blur_clear_listener(&tracker, None);
    assert_eq!(blur.matcher, ListenerMatcher::WindowBlurred);
    assert_eq!(
        blur.compute,
        RuntimeCompute::DispatchBaseThenStatic(vec![ListenerAction::RuntimeChange(
            RuntimeChange::ClearVirtualKeyTracker
        )])
    );
    let leave = runtime_virtual_key_window_leave_clear_listener(&tracker, None);
    assert_eq!(leave.matcher, ListenerMatcher::WindowCursorLeft);
    let splitter = runtime_pointer_lifecycle_splitter_listener();
    assert_eq!(splitter.element_id, None);
    assert_eq!(splitter.matcher, ListenerMatcher::RawPointerLifecycle);
    assert_eq!(splitter.compute, RuntimeCompute::RedispatchPointerLifecycle);
}

fn element(id: u64) -> ElementInteraction {
    ElementInteraction {
        id,
        kind: InteractionKind::Other,
        on_click: false,
        on_press: false,
        on_mouse_down: false,
        on_mouse_up: false,
        on_mouse_move: false,
        on_mouse_enter: false,
        on_mouse_leave: false,
        on_swipe_up: false,
        on_swipe_down: false,
        on_swipe_left: false,
        on_swipe_right: false,
        on_focus: false,
        on_blur: false,
        on_change: false,
        has_on_key_down: false,
        has_on_key_up: false,
        has_on_key_press: true,
        has_mouse_over_style: false,
        has_mouse_down_style: false,
        has_virtual_key: false,
        mouse_down_active: false,
        mouse_over_active: false,
        focused_active: true,
        text_input_focused: false,
    }
}

fn tracker(id: u64, key: CanonicalKey, route: &str) -> KeyPressTracker {
    KeyPressTracker {
        source_element_id: Some(id),
        key,
        mods: 0,
        match_mode: KeyBindingMatch::Exact,
        followups: vec![KeyPressFollowup::ElixirEvent {
            element_id: id,
            route: route.to_string(),
        }],
    }
}

#[test]
fn key_press_release_listeners_group_sourced_trackers_by_key() {
    let press = [
        KeyBindingSpec {
            key: CanonicalKey::Space,
            mods: 0,
            match_mode: KeyBindingMatch::Exact,
            route: "space".to_string(),
        },
        KeyBindingSpec {
            key: CanonicalKey::Enter,
            mods: 0,
            match_mode: KeyBindingMatch::Exact,
            route: "enter".to_string(),
        },
    ];
    let mut base = Registry::new();
    base.in_precedence_order(key_binding_listeners_for_element(&element(40), &[], &press, &[]));

    assert!(base_has_key_press_source(&base, &tracker(40, CanonicalKey::Space, "space")));
    assert!(!base_has_key_press_source(&base, &tracker(40, CanonicalKey::Space, "other")));
    assert!(!base_has_key_press_source(&base, &tracker(41, CanonicalKey::Space, "space")));
    assert!(key_press_trackers_equal(
        &tracker(40, CanonicalKey::Space, "space"),
        &tracker(40, CanonicalKey::Space, "space")
    ));

    let trackers = vec![
        tracker(40, CanonicalKey::Enter, "enter"),
        tracker(40, CanonicalKey::Space, "space"),
        tracker(41, CanonicalKey::Space, "gone"),
        tracker(40, CanonicalKey::Enter, "enter"),
    ];
    let listeners = runtime_key_press_release_listeners(&base, trackers);
    assert_eq!(listeners.len(), 2);
    assert_eq!(listeners[0].matcher, ListenerMatcher::KeyReleaseTracked { key: CanonicalKey::Enter });
    assert_eq!(listeners[0].element_id, Some(40));
    match &listeners[0].compute {
        RuntimeCompute::KeyPressReleaseFollowupToBase { key, trackers } => {
            assert_eq!(*key, CanonicalKey::Enter);
            assert_eq!(trackers.len(), 2);
        }
        other => panic!("unexpected compute {:?}", other),
    }
    assert_eq!(listeners[1].matcher, ListenerMatcher::KeyReleaseTracked { key: CanonicalKey::Space });
    match &listeners[1].compute {
        RuntimeCompute::KeyPressReleaseFollowupToBase { trackers, .. } => {
            assert_eq!(trackers, &vec![tracker(40, CanonicalKey::Space, "space")]);
        }
        other => panic!("unexpected compute {:?}", other),
    }
}

#[test]
fn key_press_blur_listener_clears_all_trackers() {
    assert!(runtime_key_press_window_blur_clear_listener(&Vec::new()).is_none());
    let mut sourceless = tracker(1, CanonicalKey::A, "a");
    sourceless.source_element_id = None;
    let trackers = vec![sourceless, tracker(9, CanonicalKey::B, "b")];
    let listener = runtime_key_press_window_blur_clear_listener(&trackers).unwrap();
    assert_eq!(listener.element_id, Some(9));
    assert_eq!(listener.matcher, ListenerMatcher::WindowBlurred);
    assert_eq!(
        listener.compute,
        RuntimeCompute::DispatchBaseThenStatic(vec![ListenerAction::RuntimeChange(
            RuntimeChange::ClearKeyPressTrackers
        )])
    );
}

#[test]
fn runtime_compute_runs_static_and_base_then_static() {
    let clear = || vec![ListenerAction::RuntimeChange(RuntimeChange::ClearDragTracker)];
    let base = || {
        vec![ListenerAction::SetMouseDownActive {
            element_id: 2,
            active: false,
        }]
    };
    let input = emerge_skia::input::InputSignal::CursorPos;
    assert_eq!(
        RuntimeCompute::Static(clear()).compute_input(&input, base()),
        Some(clear())
    );
    let mut both = base();
    both.extend(clear());
    assert_eq!(
        RuntimeCompute::DispatchBaseThenStatic(clear()).compute_input(&input, base()),
        Some(both)
    );
    assert_eq!(
        RuntimeCompute::TextInputCursorFromPointer {
            element_id: 5,
            extend_selection: true,
        }
        .compute_input(&input, Vec::new()),
        Some(vec![ListenerAction::TextInputCursorAtPointer {
            element_id: 5,
            extend_selection: true,
        }])
    );
    assert_eq!(
        RuntimeCompute::RedispatchPointerLifecycle.compute_input(&input, Vec::new()),
        None
    );
}
