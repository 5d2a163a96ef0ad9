use emerge_skia::events::contributors::{
    ElementInteraction, InteractionKind, KeyBindingSpec, KeyPressFollowup,
};
use emerge_skia::events::key_bindings::{
    key_binding_listeners_for_element, push_user_key_slot_action, user_key_slot_listener,
    KeyBindingAction, UserKeySlot, UserKeySlotPhase,
};
use emerge_skia::events::registry_builder::{KeyBindingMatch, ListenerMatcher, Registry};
use emerge_skia::input::{InputSignal, ACTION_PRESS, ACTION_RELEASE, MOD_CTRL};
use emerge_skia::keys::CanonicalKey;

fn element(id: u64, kind: InteractionKind, focused: bool) -> ElementInteraction {
    ElementInteraction {
        id,
        kind,
        on_click: false,
        on_press: false,
        on_mouse_down: false,
        on_mouse_up: false,
        on_mouse_move: false,
        on_mouse_enter: false,
        on_mouse_leave: false,
        on_swipe_up: false,
        on_swipe_down: false,
        on_swipe_left: false,
        on_swipe_right: false,
        on_focus: false,
        on_blur: false,
        on_change: false,
        has_on_key_down: true,
        has_on_key_up: false,
        has_on_key_press: false,
        has_mouse_over_style: false,
        has_mouse_down_style: false,
        has_virtual_key: false,
        mouse_down_active: false,
        mouse_over_active: false,
        focused_active: focused,
        text_input_focused: false,
    }
}

fn binding(route: &str, key: CanonicalKey, mods: u8) -> KeyBindingSpec {
    KeyBindingSpec {
        route: route.to_string(),
        key,
        mods,
        match_mode: KeyBindingMatch::Exact,
    }
}

#[test]
fn focused_key_bindings_emit_key_down_and_key_up_events() {
    let e = element(37, InteractionKind::Other, true);
    let down = [binding("key_down:enter:exact:0", CanonicalKey::Enter, 0)];
    let up = [binding("key_up:escape:exact:2", CanonicalKey::Escape, MOD_CTRL)];
    let listeners = key_binding_listeners_for_element(&e, &down, &[], &up);
    assert_eq!(listeners.len(), 2);

    assert_eq!(listeners[0].element_id, Some(37));
    assert_eq!(
        listeners[0].matcher,
        ListenerMatcher::KeyDownBinding {
            key: CanonicalKey::Enter,
            mods: 0,
            match_mode: KeyBindingMatch::Exact,
        }
    );
    assert_eq!(
        listeners[0].compute,
        vec![KeyBindingAction::KeyDown {
            element_id: 37,
            route: "key_down:enter:exact:0".to_string(),
        }]
    );
    assert_eq!(
        listeners[1].matcher,
        ListenerMatcher::KeyUpBinding {
            key: CanonicalKey::Escape,
            mods: MOD_CTRL,
            match_mode: KeyBindingMatch::Exact,
        }
    );
    assert_eq!(
        listeners[1].compute,
        vec![KeyBindingAction::KeyUp {
            element_id: 37,
            route: "key_up:escape:exact:2".to_string(),
        }]
    );

    let mut registry = Registry::new();
    registry.in_precedence_order(listeners);
    let pressed = registry
        .matching_listener(
            &InputSignal::Key {
                key: CanonicalKey::Escape,
                action: ACTION_RELEASE,
                mods: MOD_CTRL,
            },
            &[],
        )
        .unwrap();
    assert_eq!(pressed.matcher.kind(), ListenerMatcher::KeyUpBinding {
        key: CanonicalKey::Escape,
        mods: MOD_CTRL,
        match_mode: KeyBindingMatch::Exact,
    }
    .kind());
}

#[test]
fn focused_text_input_enter_key_down_arms_text_commit_suppression() {
    let e = element(137, InteractionKind::TextInput, true);
    let down = [binding("key_down:enter:exact:0", CanonicalKey::Enter, 0)];
    let listeners = key_binding_listeners_for_element(&e, &down, &[], &[]);
    assert_eq!(listeners.len(), 1);
    assert_eq!(
        listeners[0].compute,
        vec![
            KeyBindingAction::KeyDown {
                element_id: 137,
                route: "key_down:enter:exact:0".to_string(),
            },
            KeyBindingAction::ArmTextCommitSuppression {
                element_id: 137,
                key: CanonicalKey::Enter,
            },
        ]
    );
}

#[test]
fn unfocused_key_bindings_are_omitted() {
    let e = element(38, InteractionKind::Other, false);
    let down = [binding("key_down:enter:exact:0", CanonicalKey::Enter, 0)];
    assert!(key_binding_listeners_for_element(&e, &down, &down, &down).is_empty());
}

#[test]
fn key_down_and_key_press_share_one_slot() {
    let e = element(39, InteractionKind::Other, true);
    let down = [binding("key_down:space:exact:0", CanonicalKey::Space, 0)];
    let press = [binding("key_press:space:exact:0", CanonicalKey::Space, 0)];
    let listeners = key_binding_listeners_for_element(&e, &down, &press, &[]);
    assert_eq!(listeners.len(), 1);
    assert!(listeners[0].matcher.matches(&InputSignal::Key {
        key: CanonicalKey::Space,
        action: ACTION_PRESS,
        mods: 0,
    }));
    match listeners[0].compute.as_slice() {
        [KeyBindingAction::KeyDown { element_id, route }, KeyBindingAction::StartKeyPressTracker(tracker)] =>
        {
            assert_eq!(*element_id, 39);
            assert_eq!(route, "key_down:space:exact:0");
            assert_eq!(tracker.key, CanonicalKey::Space);
            assert_eq!(tracker.source_element_id, Some(39));
            assert_eq!(
                tracker.followups,
                vec![KeyPressFollowup::ElixirEvent {
                    element_id: 39,
                    route: "key_press:space:exact:0".to_string(),
                }]
            );
        }
        other => panic!("unexpected actions {:?}", other),
    }
}

#[test]
fn different_modifiers_get_separate_slots() {
    let e = element(40, InteractionKind::Other, true);
    let down = [
        binding("a", CanonicalKey::S, 0),
        binding("b", CanonicalKey::S, MOD_CTRL),
        binding("c", CanonicalKey::S, 0),
    ];
    let listeners = key_binding_listeners_for_element(&e, &down, &[], &[]);
    assert_eq!(listeners.len(), 2);
    assert_eq!(
        listeners[0].compute,
        vec![
            KeyBindingAction::KeyDown {
                element_id: 40,
                route: "a".to_string(),
            },
            KeyBindingAction::KeyDown {
                element_id: 40,
                route: "c".to_string(),
            },
        ]
    );
    assert_eq!(listeners[1].compute.len(), 1);
}

#[test]
fn slot_push_appends_to_existing_slot_or_creates_one() {
    let mut slots: Vec<UserKeySlot> = Vec::new();
    let b = binding("x", CanonicalKey::X, 0);
    push_user_key_slot_action(
        &mut slots,
        UserKeySlotPhase::Up,
        &b,
        KeyBindingAction::KeyUp {
            element_id: 1,
            route: "x".to_string(),
        },
    );
    push_user_key_slot_action(
        &mut slots,
        UserKeySlotPhase::Down,
        &b,
        KeyBindingAction::ArmTextCommitSuppression {
            element_id: 1,
            key: CanonicalKey::X,
        },
    );
    push_user_key_slot_action(
        &mut slots,
        UserKeySlotPhase::Up,
        &b,
        KeyBindingAction::KeyUp {
            element_id: 1,
            route: "y".to_string(),
        },
    );
    assert_eq!(slots.len(), 2);
    assert_eq!(slots[0].phase, UserKeySlotPhase::Up);
    assert_eq!(slots[0].actions.len(), 2);
    let listener = user_key_slot_listener(1, slots.remove(1));
    assert_eq!(
        listener.matcher,
        ListenerMatcher::KeyDownBinding {
            key: CanonicalKey::X,
            mods: 0,
            match_mode: KeyBindingMatch::Exact,
        }
    );
}
