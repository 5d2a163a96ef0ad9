use emerge_skia::events::contributors::{
    binding_arms_text_commit_suppression, click_press_tracker_left_press_actions,
    cursor_icon_for_element, enter_press_actions, focused_slider_id, focused_text_input_id,
    has_and_active, has_swipe_listener, hover_leave_actions, is_focusable,
    key_press_followup_actions, key_press_tracker_for_binding, left_press_drag_bootstrap,
    mouse_down_style_leave_actions, mouse_down_style_left_press_actions,
    mouse_down_style_left_release_actions, mouse_down_style_window_blur_actions,
    mouse_events_cursor_pos_actions, mouse_events_left_press_actions,
    mouse_events_left_release_actions, owns_steady_cursor_inside, scroll_directions_for_element,
    swipe_handlers_for_element, text_input_emit_change, tracker_enter_actions,
    tracker_leave_actions, tracks_hover_inside, CursorIcon, ElementAction, ElementEventKind,
    ElementInteraction, InteractionKind, KeyBindingSpec, KeyPressFollowup, PointerDragBootstrap,
};
use emerge_skia::events::registry_builder::{
    ClickPressTracker, KeyBindingMatch, ListenerMatcherKind, ScrollDirection, SwipeHandlers,
};
use emerge_skia::input::{MOD_CTRL, MOD_META, MOD_SHIFT};
use emerge_skia::keys::CanonicalKey;

fn plain(id: u64) -> ElementInteraction {
    ElementInteraction {
        id,
        kind: InteractionKind::Other,
        on_click: false,
        on_press: false,
        on_mouse_down: false,
        on_mouse_up: false,
        on_mouse_move: false,
        on_mouse_enter: false,
        on_mouse_leave: false,
        on_swipe_up: false,
        on_swipe_down: false,
        on_swipe_left: false,
        on_swipe_right: false,
        on_focus: false,
        on_blur: false,
        on_change: false,
        has_on_key_down: false,
        has_on_key_up: false,
        has_on_key_press: false,
        has_mouse_over_style: false,
        has_mouse_down_style: false,
        has_virtual_key: false,
        mouse_down_active: false,
        mouse_over_active: false,
        focused_active: false,
        text_input_focused: false,
    }
}

#[test]
fn plain_element_contributes_nothing() {
    let e = plain(1);
    assert!(!is_focusable(&e));
    assert_eq!(cursor_icon_for_element(&e), None);
    assert!(!tracks_hover_inside(&e));
    assert!(!owns_steady_cursor_inside(&e, false));
    assert!(owns_steady_cursor_inside(&e, true));
    assert!(mouse_events_left_press_actions(&e).is_empty());
    assert!(tracker_enter_actions(&e).is_empty());
    assert!(hover_leave_actions(&e).is_empty());
    assert_eq!(left_press_drag_bootstrap(&e, ListenerMatcherKind::CursorPosAnywhere, &[]), None);
}

#[test]
fn cursor_icons_by_kind_and_handlers() {
    let mut text = plain(1);
    text.kind = InteractionKind::TextInput;
    assert_eq!(cursor_icon_for_element(&text), Some(CursorIcon::Text));
    let mut clickable = plain(2);
    clickable.on_click = true;
    assert_eq!(cursor_icon_for_element(&clickable), Some(CursorIcon::Pointer));
    let mut swipe = plain(3);
    swipe.on_swipe_left = true;
    assert_eq!(cursor_icon_for_element(&swipe), Some(CursorIcon::Pointer));
    assert!(has_swipe_listener(&swipe));
    assert_eq!(
        swipe_handlers_for_element(&swipe),
        SwipeHandlers {
            up: false,
            down: false,
            left: true,
            right: false,
        }
    );
}

#[test]
fn virtual_keys_are_never_focusable() {
    let mut key = plain(1);
    key.on_press = true;
    assert!(is_focusable(&key));
    key.has_virtual_key = true;
    assert!(!is_focusable(&key));
    let mut slider = plain(2);
    slider.kind = InteractionKind::Slider;
    assert!(is_focusable(&slider));
}

#[test]
fn focused_ids_by_kind() {
    let mut text = plain(5);
    text.kind = InteractionKind::TextInput;
    assert_eq!(focused_text_input_id(&text), None);
    text.text_input_focused = true;
    assert_eq!(focused_text_input_id(&text), Some(5));
    text.on_change = true;
    assert_eq!(text_input_emit_change(&text), Some(true));
    assert_eq!(text_input_emit_change(&plain(6)), None);

    let mut slider = plain(7);
    slider.kind = InteractionKind::Slider;
    slider.focused_active = true;
    assert_eq!(focused_slider_id(&slider), Some(7));
    assert_eq!(focused_slider_id(&text), None);
}

#[test]
fn mouse_events_follow_handlers() {
    let mut e = plain(3);
    e.on_mouse_down = true;
    e.on_mouse_move = true;
    assert_eq!(
        mouse_events_left_press_actions(&e),
        vec![ElementAction::ElixirEvent {
            element_id: 3,
            kind: ElementEventKind::MouseDown,
        }]
    );
    assert!(mouse_events_left_release_actions(&e).is_empty());
    assert_eq!(
        mouse_events_cursor_pos_actions(&e),
        vec![ElementAction::ElixirEvent {
            element_id: 3,
            kind: ElementEventKind::MouseMove,
        }]
    );
}

#[test]
fn hover_enter_and_leave_pair_up() {
    let mut e = plain(4);
    e.on_mouse_enter = true;
    e.on_mouse_leave = true;
    assert_eq!(
        tracker_enter_actions(&e),
        vec![
            ElementAction::ElixirEvent {
                element_id: 4,
                kind: ElementEventKind::MouseEnter,
            },
            ElementAction::SetMouseOverActive {
                element_id: 4,
                active: true,
            },
        ]
    );
    assert_eq!(
        tracker_leave_actions(&e),
        vec![
            ElementAction::ElixirEvent {
                element_id: 4,
                kind: ElementEventKind::MouseLeave,
            },
            ElementAction::SetMouseOverActive {
                element_id: 4,
                active: false,
            },
        ]
    );
    assert!(hover_leave_actions(&e).is_empty());
    e.mouse_over_active = true;
    assert_eq!(hover_leave_actions(&e), tracker_leave_actions(&e));

    let mut style_only = plain(5);
    style_only.has_mouse_over_style = true;
    assert_eq!(
        tracker_enter_actions(&style_only),
        vec![ElementAction::SetMouseOverActive {
            element_id: 5,
            active: true,
        }]
    );
}

#[test]
fn mouse_down_style_press_then_release() {
    let mut e = plain(8);
    e.has_mouse_down_style = true;
    assert_eq!(has_and_active(&e), (true, false));
    assert_eq!(
        mouse_down_style_left_press_actions(&e),
        vec![ElementAction::SetMouseDownActive {
            element_id: 8,
            active: true,
        }]
    );
    assert!(mouse_down_style_left_release_actions(&e).is_empty());
    e.mouse_down_active = true;
    assert!(mouse_down_style_left_press_actions(&e).is_empty());
    let clear = vec![ElementAction::SetMouseDownActive {
        element_id: 8,
        active: false,
    }];
    assert_eq!(mouse_down_style_left_release_actions(&e), clear);
    assert_eq!(mouse_down_style_leave_actions(&e), clear);
    assert_eq!(mouse_down_style_window_blur_actions(&e), clear);
}

#[test]
fn left_press_starts_click_tracking_for_clickable_elements() {
    let mut e = plain(9);
    assert!(click_press_tracker_left_press_actions(&e, ListenerMatcherKind::CursorPosAnywhere).is_empty());
    e.on_click = true;
    assert_eq!(
        click_press_tracker_left_press_actions(&e, ListenerMatcherKind::CursorPosAnywhere),
        vec![ElementAction::StartClickPressTracker(ClickPressTracker {
            element_id: 9,
            matcher_kind: ListenerMatcherKind::CursorPosAnywhere,
            emit_click: true,
            emit_press_pointer: false,
            clear_mouse_down: false,
        })]
    );
}

#[test]
fn drag_bootstrap_for_scrollable_elements() {
    let e = plain(10);
    let dirs = [ScrollDirection::YNeg];
    assert_eq!(
        left_press_drag_bootstrap(&e, ListenerMatcherKind::CursorPosAnywhere, &dirs),
        Some(PointerDragBootstrap {
            element_id: 10,
            matcher_kind: ListenerMatcherKind::CursorPosAnywhere,
            swipe_handlers: SwipeHandlers {
                up: false,
                down: false,
                left: false,
                right: false,
            },
            scroll_candidate: true,
        })
    );
}

#[test]
fn scroll_directions_follow_scroll_position() {
    assert_eq!(
        scroll_directions_for_element(true, true, false, true, true, true),
        vec![ScrollDirection::XNeg, ScrollDirection::YNeg, ScrollDirection::YPos]
    );
    assert!(scroll_directions_for_element(false, true, true, false, true, true).is_empty());
}

#[test]
fn enter_press_needs_press_handler_and_focus() {
    let mut e = plain(11);
    e.on_press = true;
    assert!(enter_press_actions(&e).is_empty());
    e.focused_active = true;
    assert_eq!(
        enter_press_actions(&e),
        vec![ElementAction::ElixirEvent {
            element_id: 11,
            kind: ElementEventKind::Press,
        }]
    );
}

#[test]
fn key_binding_tracker_and_followups() {
    let binding = KeyBindingSpec {
        key: CanonicalKey::S,
        mods: MOD_CTRL,
        match_mode: KeyBindingMatch::Exact,
        route: "save".to_string(),
    };
    let tracker = key_press_tracker_for_binding(12, &binding);
    assert_eq!(tracker.source_element_id, Some(12));
    assert_eq!(tracker.key, CanonicalKey::S);
    assert_eq!(tracker.mods, MOD_CTRL);
    assert_eq!(
        tracker.followups,
        vec![KeyPressFollowup::ElixirEvent {
            element_id: 12,
            route: "save".to_string(),
        }]
    );
    let events = key_press_followup_actions(&tracker);
    assert_eq!(events.len(), 1);
    assert_eq!(events[0].element_id, 12);
    assert_eq!(events[0].kind, ElementEventKind::KeyPress);
    assert_eq!(events[0].route, "save");
}

#[test]
fn text_commit_suppression_only_for_plain_text_keys_in_text_inputs() {
    assert!(binding_arms_text_commit_suppression(InteractionKind::TextInput, CanonicalKey::Enter, 0));
    assert!(binding_arms_text_commit_suppression(
        InteractionKind::TextInput,
        CanonicalKey::A,
        MOD_SHIFT
    ));
    assert!(!binding_arms_text_commit_suppression(
        InteractionKind::TextInput,
        CanonicalKey::A,
        MOD_CTRL
    ));
    assert!(!binding_arms_text_commit_suppression(
        InteractionKind::TextInput,
        CanonicalKey::A,
        MOD_META
    ));
    assert!(!binding_arms_text_commit_suppression(
        InteractionKind::TextInput,
        CanonicalKey::Escape,
        0
    ));
    assert!(!binding_arms_text_commit_suppression(InteractionKind::Other, CanonicalKey::A, 0));
}
