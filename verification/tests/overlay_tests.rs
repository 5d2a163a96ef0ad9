use emerge_skia::events::key_bindings::KeyBindingAction;
use emerge_skia::events::overlay::{runtime_overlay_listeners, RuntimeOverlayState};
use emerge_skia::events::contributors::ElementEventKind;
use emerge_skia::events::followups::ListenerAction;
use emerge_skia::events::registry_builder::{
    ClickPressTracker, Listener, ListenerMatcher, ListenerMatcherKind, RegionMatcher, Registry,
    RuntimeChange, ScrollDirection, TextDragTracker,
};
use emerge_skia::events::runtime_listeners::{
    DragTracker, RuntimeCompute, SwipeTracker, VirtualKeyPhase, VirtualKeyTracker,
};
use emerge_skia::input::{InputSignal, ACTION_RELEASE};

fn base_of(listeners: Vec<(u64, ListenerMatcher)>) -> Registry<Vec<KeyBindingAction>> {
    let mut base = Registry::new();
    base.in_precedence_order(
        listeners
            .into_iter()
            .map(|(id, matcher)| Listener {
                element_id: Some(id),
                matcher,
                compute: Vec::new(),
            })
            .collect(),
    );
    base
}

fn idle() -> RuntimeOverlayState {
    RuntimeOverlayState {
        drag: DragTracker::Inactive,
        swipe: None,
        click_press: None,
        virtual_key: None,
        key_presses: Vec::new(),
        text_drag: None,
        slider_drag: None,
    }
}

#[test]
fn idle_overlay_holds_only_the_pointer_splitter() {
    let base = base_of(Vec::new());
    let block = runtime_overlay_listeners(&base, idle());
    assert_eq!(block.len(), 1);
    assert_eq!(block[0].matcher, ListenerMatcher::RawPointerLifecycle);
    assert_eq!(block[0].compute, RuntimeCompute::RedispatchPointerLifecycle);
}

#[test]
fn click_press_and_text_drag_follow_the_precedence_table() {
    let base = base_of(vec![
        (7, ListenerMatcher::CursorButtonLeftReleaseAnywhere),
        (9, ListenerMatcher::CursorPosAnywhere),
    ]);
    let mut runtime = idle();
    runtime.click_press = Some(ClickPressTracker {
        element_id: 7,
        matcher_kind: ListenerMatcherKind::CursorButtonLeftReleaseAnywhere,
        emit_click: true,
        emit_press_pointer: false,
        clear_mouse_down: false,
    });
    runtime.text_drag = Some(TextDragTracker {
        element_id: 9,
        matcher_kind: ListenerMatcherKind::CursorPosAnywhere,
    });
    let block = runtime_overlay_listeners(&base, runtime);
    let matchers: Vec<(Option<u64>, ListenerMatcher)> =
        block.iter().map(|l| (l.element_id, l.matcher)).collect();
    assert_eq!(
        matchers,
        vec![
            (None, ListenerMatcher::RawPointerLifecycle),
            (Some(7), ListenerMatcher::CursorButtonLeftReleaseAnywhere),
            (Some(7), ListenerMatcher::WindowBlurred),
            (Some(9), ListenerMatcher::CursorButtonLeftReleaseAnywhere),
            (Some(9), ListenerMatcher::CursorPosAnywhere),
            (Some(9), ListenerMatcher::WindowBlurred),
            (Some(7), ListenerMatcher::WindowCursorLeft),
            (Some(9), ListenerMatcher::WindowCursorLeft),
        ]
    );
}

#[test]
fn trackers_whose_source_is_gone_get_no_listeners() {
    let base = base_of(Vec::new());
    let mut runtime = idle();
    runtime.text_drag = Some(TextDragTracker {
        element_id: 9,
        matcher_kind: ListenerMatcherKind::CursorPosAnywhere,
    });
    let block = runtime_overlay_listeners(&base, runtime);
    assert_eq!(block.len(), 1);
}

#[test]
fn virtual_key_clears_come_first_in_each_group() {
    let base = base_of(vec![(7, ListenerMatcher::CursorButtonLeftReleaseAnywhere)]);
    let mut runtime = idle();
    runtime.virtual_key = Some(VirtualKeyTracker {
        element_id: 3,
        phase: VirtualKeyPhase::Armed,
    });
    runtime.click_press = Some(ClickPressTracker {
        element_id: 7,
        matcher_kind: ListenerMatcherKind::CursorButtonLeftReleaseAnywhere,
        emit_click: true,
        emit_press_pointer: false,
        clear_mouse_down: false,
    });
    let block = runtime_overlay_listeners(&base, runtime);
    let matchers: Vec<(Option<u64>, ListenerMatcher)> =
        block.iter().map(|l| (l.element_id, l.matcher)).collect();
    assert_eq!(
        matchers,
        vec![
            (None, ListenerMatcher::RawPointerLifecycle),
            (Some(3), ListenerMatcher::CursorButtonLeftReleaseAnywhere),
            (Some(7), ListenerMatcher::CursorButtonLeftReleaseAnywhere),
            (Some(3), ListenerMatcher::WindowBlurred),
            (Some(7), ListenerMatcher::WindowBlurred),
            (Some(3), ListenerMatcher::WindowCursorLeft),
            (Some(7), ListenerMatcher::WindowCursorLeft),
        ]
    );
}

fn press_inside(id: u64) -> ClickPressTracker {
    ClickPressTracker {
        element_id: id,
        matcher_kind: ListenerMatcherKind::CursorButtonLeftPressInside,
        emit_click: true,
        emit_press_pointer: false,
        clear_mouse_down: false,
    }
}

#[test]
fn click_press_release_followup_yields_click_on_left_release() {
    let base = base_of(vec![(27, ListenerMatcher::Region(RegionMatcher::CursorButtonLeftPressInside))]);
    let mut runtime = idle();
    runtime.click_press = Some(press_inside(27));
    let block = runtime_overlay_listeners(&base, runtime);
    let followup = block
        .iter()
        .find(|l| l.matcher == ListenerMatcher::Region(RegionMatcher::CursorButtonLeftReleaseInside))
        .unwrap();
    assert_eq!(followup.element_id, Some(27));
    let release = InputSignal::CursorButton {
        button: "left".to_string(),
        action: ACTION_RELEASE,
        mods: 0,
    };
    assert_eq!(
        followup.compute.compute_input(&release, Vec::new()),
        Some(vec![
            ListenerAction::ElixirEvent {
                element_id: 27,
                kind: ElementEventKind::Click,
                route: None,
            },
            ListenerAction::RuntimeChange(RuntimeChange::ClearClickPressTracker),
            ListenerAction::RuntimeChange(RuntimeChange::ClearDragTracker),
        ])
    );
}

#[test]
fn active_drag_release_clear_precedes_the_click_followup() {
    let base = base_of(vec![(27, ListenerMatcher::Region(RegionMatcher::CursorButtonLeftPressInside))]);
    let mut runtime = idle();
    runtime.click_press = Some(press_inside(27));
    runtime.drag = DragTracker::Active {
        element_id: 27,
        matcher_kind: ListenerMatcherKind::CursorButtonLeftPressInside,
    };
    let block = runtime_overlay_listeners(&base, runtime);
    assert_eq!(block[1].matcher, ListenerMatcher::CursorButtonLeftReleaseAnywhere);
    assert_eq!(
        block[1].compute,
        RuntimeCompute::Static(vec![
            ListenerAction::RuntimeChange(RuntimeChange::ClearDragTracker),
            ListenerAction::RuntimeChange(RuntimeChange::ClearClickPressTracker),
        ])
    );
    assert_eq!(
        block[2].matcher,
        ListenerMatcher::Region(RegionMatcher::CursorButtonLeftReleaseInside)
    );
    let matchers: Vec<ListenerMatcher> = block.iter().map(|l| l.matcher).collect();
    assert!(matchers.contains(&ListenerMatcher::WindowBlurred));
    assert!(matchers.contains(&ListenerMatcher::WindowCursorLeft));
}

#[test]
fn scroll_splitter_leads_while_directional_scrolls_exist() {
    let base = base_of(vec![(
        5,
        ListenerMatcher::Region(RegionMatcher::CursorScrollInsideDirection {
            direction: ScrollDirection::YPos,
        }),
    )]);
    let block = runtime_overlay_listeners(&base, idle());
    assert_eq!(block.len(), 2);
    assert_eq!(block[0].matcher, ListenerMatcher::CursorScrollAny);
    assert_eq!(block[0].compute, RuntimeCompute::RedispatchScrollInput);
    assert_eq!(block[1].matcher, ListenerMatcher::RawPointerLifecycle);
}

#[test]
fn swipe_and_drag_candidates_are_cleared_on_blur_and_leave() {
    let base = base_of(vec![(8, ListenerMatcher::CursorButtonLeftReleaseAnywhere)]);
    let mut runtime = idle();
    runtime.drag = DragTracker::Candidate {
        element_id: 8,
        matcher_kind: ListenerMatcherKind::CursorButtonLeftReleaseAnywhere,
    };
    runtime.swipe = Some(SwipeTracker {
        element_id: 8,
        matcher_kind: ListenerMatcherKind::CursorButtonLeftReleaseAnywhere,
    });
    let block = runtime_overlay_listeners(&base, runtime);
    let matchers: Vec<(Option<u64>, ListenerMatcher)> =
        block.iter().map(|l| (l.element_id, l.matcher)).collect();
    assert_eq!(
        matchers,
        vec![
            (None, ListenerMatcher::RawPointerLifecycle),
            (Some(8), ListenerMatcher::CursorButtonLeftReleaseAnywhere),
            (Some(8), ListenerMatcher::WindowBlurred),
            (Some(8), ListenerMatcher::WindowBlurred),
            (Some(8), ListenerMatcher::WindowCursorLeft),
            (Some(8), ListenerMatcher::WindowCursorLeft),
        ]
    );
    assert_eq!(
        block[3].compute,
        RuntimeCompute::Static(vec![ListenerAction::RuntimeChange(RuntimeChange::ClearSwipeTracker)])
    );
}
