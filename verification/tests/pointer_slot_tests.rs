use emerge_skia::events::contributors::{
    ElementAction, ElementEventKind, ElementInteraction, InteractionKind,
};
use emerge_skia::events::pointer_slots::{
    slot_key_enter_press, slot_mouse_down_release_anywhere, slot_primary_left_press,
    slot_primary_left_release, slot_text_commit, SlotCompute,
};
use emerge_skia::events::registry_builder::{
    ClickPressTracker, ListenerMatcher, ListenerMatcherKind, RegionMatcher, ScrollDirection,
    TextDragTracker,
};
use emerge_skia::events::runtime_listeners::{VirtualKeyPhase, VirtualKeyTracker};

fn plain(id: u64) -> ElementInteraction {
    ElementInteraction {
        id,
        kind: InteractionKind::Other,
        on_click: false,
        on_press: false,
        on_mouse_down: false,
        on_mouse_up: false,
        on_mouse_move: false,
        on_mouse_enter: false,
        on_mouse_leave: false,
        on_swipe_up: false,
        on_swipe_down: false,
        on_swipe_left: false,
        on_swipe_right: false,
        on_focus: false,
        on_blur: false,
        on_change: false,
        has_on_key_down: false,
        has_on_key_up: false,
        has_on_key_press: false,
        has_mouse_over_style: false,
        has_mouse_down_style: false,
        has_virtual_key: false,
        mouse_down_active: false,
        mouse_over_active: false,
        focused_active: false,
        text_input_focused: false,
    }
}

#[test]
fn plain_element_has_no_left_press_slot() {
    assert!(slot_primary_left_press(&plain(1), true, None, &[]).is_none());
}

#[test]
fn mouse_down_press_is_static() {
    let mut e = plain(2);
    e.on_mouse_down = true;
    let l = slot_primary_left_press(&e, true, None, &[]).unwrap();
    assert_eq!(l.element_id, Some(2));
    assert_eq!(
        l.matcher,
        ListenerMatcher::Region(RegionMatcher::CursorButtonLeftPressInside)
    );
    assert_eq!(
        l.compute,
        SlotCompute::Static(vec![ElementAction::ElixirEvent {
            element_id: 2,
            kind: ElementEventKind::MouseDown,
        }])
    );
    assert!(slot_primary_left_press(&e, false, None, &[]).is_none());
}

#[test]
fn clickable_press_focuses_and_starts_trackers() {
    let mut e = plain(3);
    e.on_click = true;
    e.on_press = true;
    let l = slot_primary_left_press(&e, true, Some(false), &[]).unwrap();
    match l.compute {
        SlotCompute::StaticWithLeftPressRuntimeAugment {
            actions,
            pointer_drag,
            text_cursor_element_id,
            text_drag,
            slider_drag,
        } => {
            assert_eq!(
                actions,
                vec![
                    ElementAction::FocusTo(3),
                    ElementAction::StartClickPressTracker(ClickPressTracker {
                        element_id: 3,
                        matcher_kind: ListenerMatcherKind::CursorButtonLeftPressInside,
                        emit_click: true,
                        emit_press_pointer: true,
                        clear_mouse_down: false,
                    }),
                ]
            );
            assert!(pointer_drag.is_some());
            assert_eq!(text_cursor_element_id, None);
            assert_eq!(text_drag, None);
            assert_eq!(slider_drag, None);
        }
        other => panic!("unexpected compute {other:?}"),
    }
}

#[test]
fn text_input_press_moves_cursor_and_starts_text_drag() {
    let mut e = plain(4);
    e.kind = InteractionKind::TextInput;
    let l = slot_primary_left_press(&e, true, Some(true), &[ScrollDirection::YPos]).unwrap();
    match l.compute {
        SlotCompute::StaticWithLeftPressRuntimeAugment {
            actions,
            pointer_drag,
            text_cursor_element_id,
            text_drag,
            ..
        } => {
            assert!(actions.is_empty());
            assert!(pointer_drag.unwrap().scroll_candidate);
            assert_eq!(text_cursor_element_id, Some(4));
            assert_eq!(
                text_drag,
                Some(TextDragTracker {
                    element_id: 4,
                    matcher_kind: ListenerMatcherKind::CursorButtonLeftPressInside,
                })
            );
        }
        other => panic!("unexpected compute {other:?}"),
    }
}

#[test]
fn virtual_key_press_starts_its_tracker() {
    let mut e = plain(5);
    e.has_virtual_key = true;
    let l = slot_primary_left_press(&e, true, Some(false), &[]).unwrap();
    assert_eq!(
        l.compute,
        SlotCompute::Static(vec![ElementAction::StartVirtualKeyTracker(VirtualKeyTracker {
            element_id: 5,
            phase: VirtualKeyPhase::Armed,
        })])
    );
}

#[test]
fn release_slots_clear_mouse_down_style() {
    let mut e = plain(6);
    e.on_mouse_up = true;
    e.has_mouse_down_style = true;
    e.mouse_down_active = true;
    let inside = slot_primary_left_release(&e, true).unwrap();
    assert_eq!(
        inside.compute,
        SlotCompute::Static(vec![
            ElementAction::ElixirEvent {
                element_id: 6,
                kind: ElementEventKind::MouseUp,
            },
            ElementAction::SetMouseDownActive {
                element_id: 6,
                active: false,
            },
        ])
    );
    let anywhere = slot_mouse_down_release_anywhere(&e).unwrap();
    assert_eq!(anywhere.matcher, ListenerMatcher::CursorButtonLeftReleaseAnywhere);
    assert!(slot_mouse_down_release_anywhere(&plain(7)).is_none());
}

#[test]
fn enter_and_commit_slots_need_focus() {
    let mut e = plain(8);
    e.on_press = true;
    assert!(slot_key_enter_press(&e).is_none());
    e.focused_active = true;
    assert_eq!(
        slot_key_enter_press(&e).unwrap().matcher,
        ListenerMatcher::KeyEnterPressNoCtrlAltMeta
    );
    let mut t = plain(9);
    t.kind = InteractionKind::TextInput;
    assert!(slot_text_commit(&t).is_none());
    t.text_input_focused = true;
    assert_eq!(
        slot_text_commit(&t).unwrap().compute,
        SlotCompute::TextCommitToRuntime { element_id: 9 }
    );
}
