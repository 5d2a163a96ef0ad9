use emerge_skia::events::registry_builder::{ListenerInput, RegionMatcher};
use emerge_skia::events::registry_builder::{registry_child_subtree_affects_rebuild, should_skip_registry_child_subtree, RegistryRefreshFlags};
use emerge_skia::events::registry_builder::RegistryBuildAcc;
use emerge_skia::events::hover::{first_index_of, hover_stack_ids_changed, reconcile_hover_stack};
use emerge_skia::events::registry_builder::{
    click_press_tracker_for_element, consider_focus_on_mount_candidate,
    focus_build_state_from_entries, focus_cycle_targets, kind_skipped, key_modifiers_match,
    merge_focus_on_mount, synthetic_input_sequence_for_virtual_key_tap,
    try_take_registry_cache_budget, focused_window_blur_listener, key_scroll_listeners_for_element,
    window_listeners, focus_cycle_listeners, ListenerCompute, ScrollDirection, ClickPressTracker, FocusCycleTargets, FocusEntry,
    FocusOnMountTarget, GestureAxis, KeyBindingMatch, LayeredRegistryView, Listener,
    ListenerMatcher, ListenerMatcherKind, Registry, RuntimeChange, SwipeHandlers,
    VirtualKeyTapAction, REGISTRY_SUBTREE_CACHE_BUDGET,
};
use emerge_skia::events::text_edit::{
    move_left_cursor_target, move_right_cursor_target, text_key_edit_request,
    TextInputEditRequest, TextInputKeyEditKind, TextKeySnapshot,
};
use emerge_skia::input::{
    InputSignal, ACTION_PRESS, ACTION_RELEASE, MOD_ALT, MOD_CTRL, MOD_META, MOD_SHIFT,
};
use emerge_skia::events::contributors::CursorIcon;
use emerge_skia::keys::CanonicalKey;

fn key(key: CanonicalKey, action: u8, mods: u8) -> InputSignal {
    InputSignal::Key { key, action, mods }
}

fn listener(id: u64, matcher: ListenerMatcher) -> Listener<u32> {
    Listener {
        element_id: Some(id),
        matcher,
        compute: id as u32,
    }
}

#[test]
fn key_enter_press_matcher_blocks_ctrl_alt_meta_and_allows_shift() {
    let matcher = ListenerMatcher::KeyEnterPressNoCtrlAltMeta;

    assert!(matcher.matches(&key(CanonicalKey::Enter, ACTION_PRESS, 0)));
    assert!(matcher.matches(&key(CanonicalKey::Enter, ACTION_PRESS, MOD_SHIFT)));

    assert!(!matcher.matches(&key(CanonicalKey::Enter, ACTION_PRESS, MOD_CTRL)));
    assert!(!matcher.matches(&key(CanonicalKey::Enter, ACTION_PRESS, MOD_ALT)));
    assert!(!matcher.matches(&key(CanonicalKey::Enter, ACTION_PRESS, MOD_META)));
}

#[test]
fn tab_matchers_enforce_expected_modifier_behavior() {
    assert!(ListenerMatcher::KeyTabPressNoShiftCtrlAltMeta
        .matches(&key(CanonicalKey::Tab, ACTION_PRESS, 0)));
    assert!(!ListenerMatcher::KeyTabPressNoShiftCtrlAltMeta
        .matches(&key(CanonicalKey::Tab, ACTION_PRESS, MOD_SHIFT)));

    assert!(ListenerMatcher::KeyShiftTabPressNoCtrlAltMeta
        .matches(&key(CanonicalKey::Tab, ACTION_PRESS, MOD_SHIFT)));
    assert!(!ListenerMatcher::KeyShiftTabPressNoCtrlAltMeta
        .matches(&key(CanonicalKey::Tab, ACTION_PRESS, MOD_SHIFT | MOD_CTRL)));
}

#[test]
fn key_x_and_v_matchers_require_ctrl_or_meta() {
    assert!(ListenerMatcher::KeyXPressCtrlOrMeta.matches(&key(CanonicalKey::X, ACTION_PRESS, MOD_CTRL)));
    assert!(ListenerMatcher::KeyXPressCtrlOrMeta
        .matches(&key(CanonicalKey::X, ACTION_PRESS, MOD_META | MOD_ALT)));
    assert!(!ListenerMatcher::KeyXPressCtrlOrMeta.matches(&key(CanonicalKey::X, ACTION_PRESS, 0)));

    assert!(ListenerMatcher::KeyVPressCtrlOrMeta.matches(&key(CanonicalKey::V, ACTION_PRESS, MOD_CTRL)));
    assert!(ListenerMatcher::KeyVPressCtrlOrMeta.matches(&key(CanonicalKey::V, ACTION_PRESS, MOD_META)));
    assert!(!ListenerMatcher::KeyVPressCtrlOrMeta.matches(&key(CanonicalKey::V, ACTION_PRESS, 0)));
}

#[test]
fn text_commit_matcher_blocks_ctrl_or_meta_and_accepts_plain_commit() {
    let matcher = ListenerMatcher::TextCommitNoCtrlMeta;

    assert!(matcher.matches(&InputSignal::TextCommit {
        text: "a".to_string(),
        mods: 0,
    }));
    assert!(!matcher.matches(&InputSignal::TextCommit {
        text: "a".to_string(),
        mods: MOD_CTRL,
    }));
    assert!(!matcher.matches(&InputSignal::TextCommit {
        text: "a".to_string(),
        mods: MOD_META,
    }));
}

#[test]
fn key_backspace_and_delete_matchers_match_expected_keys_only() {
    assert!(ListenerMatcher::KeyBackspacePress.matches(&key(CanonicalKey::Backspace, ACTION_PRESS, 0)));
    assert!(!ListenerMatcher::KeyBackspacePress.matches(&key(CanonicalKey::Delete, ACTION_PRESS, 0)));

    assert!(ListenerMatcher::KeyDeletePress.matches(&key(CanonicalKey::Delete, ACTION_PRESS, 0)));
    assert!(!ListenerMatcher::KeyDeletePress.matches(&key(CanonicalKey::Backspace, ACTION_PRESS, 0)));
}

#[test]
fn window_focus_and_blur_matchers_match_focus_events() {
    assert!(ListenerMatcher::WindowBlurred.matches(&InputSignal::Focused { focused: false }));
    assert!(!ListenerMatcher::WindowBlurred.matches(&InputSignal::Focused { focused: true }));
}

#[test]
fn matcher_kind_ignores_binding_payload() {
    let a = ListenerMatcher::KeyDownBinding {
        key: CanonicalKey::A,
        mods: MOD_CTRL,
        match_mode: KeyBindingMatch::Exact,
    };
    let b = ListenerMatcher::KeyDownBinding {
        key: CanonicalKey::B,
        mods: 0,
        match_mode: KeyBindingMatch::All,
    };
    let c = ListenerMatcher::KeyUpBinding {
        key: CanonicalKey::A,
        mods: MOD_CTRL,
        match_mode: KeyBindingMatch::Exact,
    };
    assert_eq!(a.kind(), ListenerMatcherKind::KeyDownBinding);
    assert_eq!(a.kind(), b.kind());
    assert_ne!(a.kind(), c.kind());
}

#[test]
fn key_modifier_match_modes() {
    assert!(key_modifiers_match(MOD_CTRL, MOD_CTRL, KeyBindingMatch::Exact));
    assert!(!key_modifiers_match(MOD_CTRL | MOD_SHIFT, MOD_CTRL, KeyBindingMatch::Exact));
    assert!(key_modifiers_match(MOD_CTRL | MOD_SHIFT, MOD_CTRL, KeyBindingMatch::All));
    assert!(!key_modifiers_match(MOD_SHIFT, MOD_CTRL, KeyBindingMatch::All));
}

#[test]
fn key_binding_matchers_compare_key_action_and_mods() {
    let down = ListenerMatcher::KeyDownBinding {
        key: CanonicalKey::S,
        mods: MOD_CTRL,
        match_mode: KeyBindingMatch::Exact,
    };
    assert!(down.matches(&key(CanonicalKey::S, ACTION_PRESS, MOD_CTRL)));
    assert!(!down.matches(&key(CanonicalKey::S, ACTION_RELEASE, MOD_CTRL)));
    assert!(!down.matches(&key(CanonicalKey::S, ACTION_PRESS, MOD_CTRL | MOD_SHIFT)));
    assert!(!down.matches(&key(CanonicalKey::D, ACTION_PRESS, MOD_CTRL)));

    let release_matcher = ListenerMatcher::KeyReleaseTracked { key: CanonicalKey::S };
    assert!(release_matcher.matches(&key(CanonicalKey::S, ACTION_RELEASE, MOD_ALT)));
    assert!(!release_matcher.matches(&key(CanonicalKey::S, ACTION_PRESS, 0)));
}

#[test]
fn skipped_kinds_are_found() {
    let skip = [ListenerMatcherKind::WindowBlurred, ListenerMatcherKind::KeyDeletePress];
    assert!(kind_skipped(&skip, ListenerMatcherKind::KeyDeletePress));
    assert!(!kind_skipped(&skip, ListenerMatcherKind::KeyBackspacePress));
    assert!(!kind_skipped(&[], ListenerMatcherKind::WindowBlurred));
}

#[test]
fn later_block_takes_precedence_over_earlier_listeners() {
    let mut registry: Registry<u32> = Registry::new();
    registry.in_precedence_order(vec![
        listener(1, ListenerMatcher::WindowBlurred),
        listener(2, ListenerMatcher::WindowBlurred),
    ]);
    registry.in_precedence_order(vec![listener(3, ListenerMatcher::WindowBlurred)]);
    assert_eq!(registry.len(), 3);
    assert_eq!(registry.listener_in_precedence(0).element_id, Some(3));
    assert_eq!(registry.listener_in_precedence(1).element_id, Some(1));
    assert_eq!(registry.listener_in_precedence(2).element_id, Some(2));

    let blur = InputSignal::Focused { focused: false };
    let found = registry.matching_listener(&blur, &[]).unwrap();
    assert_eq!(found.compute, 3);
}

#[test]
fn first_match_skips_non_matching_and_skipped_listeners() {
    let mut registry: Registry<u32> = Registry::new();
    registry.in_precedence_order(vec![
        listener(1, ListenerMatcher::KeyDeletePress),
        listener(2, ListenerMatcher::KeyBackspacePress),
        listener(3, ListenerMatcher::KeyBackspacePress),
    ]);
    let backspace = key(CanonicalKey::Backspace, ACTION_PRESS, 0);
    assert_eq!(registry.matching_listener(&backspace, &[]).unwrap().compute, 2);
    assert!(registry
        .matching_listener(&backspace, &[ListenerMatcherKind::KeyBackspacePress])
        .is_none());
    let enter = key(CanonicalKey::Enter, ACTION_PRESS, 0);
    assert!(registry.matching_listener(&enter, &[]).is_none());
}

#[test]
fn extend_storage_puts_other_registry_on_top() {
    let mut base: Registry<u32> = Registry::new();
    base.in_precedence_order(vec![listener(1, ListenerMatcher::WindowResized)]);
    let mut top: Registry<u32> = Registry::new();
    top.in_precedence_order(vec![listener(2, ListenerMatcher::WindowResized)]);
    base.extend_storage_from(top);
    assert_eq!(base.len(), 2);
    assert_eq!(base.listener_in_precedence(0).element_id, Some(2));
    assert_eq!(base.listener_in_precedence(1).element_id, Some(1));
}

#[test]
fn layered_view_prefers_higher_then_falls_through() {
    let mut higher: Registry<u32> = Registry::new();
    higher.in_precedence_order(vec![listener(10, ListenerMatcher::KeyDeletePress)]);
    let mut lower: Registry<u32> = Registry::new();
    lower.in_precedence_order(vec![
        listener(20, ListenerMatcher::KeyDeletePress),
        listener(21, ListenerMatcher::KeyBackspacePress),
    ]);
    let view = LayeredRegistryView::new(&higher, &lower);
    let delete = key(CanonicalKey::Delete, ACTION_PRESS, 0);
    let backspace = key(CanonicalKey::Backspace, ACTION_PRESS, 0);
    assert_eq!(view.matching_listener(&delete, &[]).unwrap().compute, 10);
    assert_eq!(view.matching_listener(&backspace, &[]).unwrap().compute, 21);
    assert!(view
        .matching_listener(&key(CanonicalKey::Tab, ACTION_PRESS, 0), &[])
        .is_none());
}

#[test]
fn swipe_handlers_by_axis() {
    let handlers = SwipeHandlers {
        up: false,
        down: false,
        left: true,
        right: false,
    };
    assert!(handlers.any());
    assert!(handlers.any_for_axis(GestureAxis::Horizontal));
    assert!(!handlers.any_for_axis(GestureAxis::Vertical));
    let none = SwipeHandlers {
        up: false,
        down: false,
        left: false,
        right: false,
    };
    assert!(!none.any());
}

#[test]
fn click_press_tracker_only_for_its_element() {
    let tracker = ClickPressTracker {
        element_id: 7,
        matcher_kind: ListenerMatcherKind::CursorButtonLeftReleaseAnywhere,
        emit_click: true,
        emit_press_pointer: false,
        clear_mouse_down: true,
    };
    let held = Some(tracker);
    assert_eq!(click_press_tracker_for_element(&held, 7), Some(&tracker));
    assert_eq!(click_press_tracker_for_element(&held, 8), None);
    assert_eq!(click_press_tracker_for_element(&None, 7), None);
}

#[test]
fn cache_budget_runs_out() {
    let mut budget: usize = 2;
    assert!(try_take_registry_cache_budget(&mut budget));
    assert_eq!(budget, 1);
    assert!(try_take_registry_cache_budget(&mut budget));
    assert_eq!(budget, 0);
    assert!(!try_take_registry_cache_budget(&mut budget));
    assert_eq!(budget, 0);
    assert_eq!(REGISTRY_SUBTREE_CACHE_BUDGET, 48);
}

#[test]
fn focus_state_links_entries_in_a_cycle() {
    let entries = [
        FocusEntry {
            element_id: 1,
            is_currently_focused: false,
        },
        FocusEntry {
            element_id: 2,
            is_currently_focused: true,
        },
        FocusEntry {
            element_id: 3,
            is_currently_focused: false,
        },
    ];
    let state = focus_build_state_from_entries(&entries);
    assert_eq!(state.focused_id, Some(2));
    assert_eq!(state.first_focusable, Some(1));
    assert_eq!(state.last_focusable, Some(3));
    let first = state.by_id.get(&1).unwrap();
    assert_eq!(first.tab_next, Some(2));
    assert_eq!(first.tab_prev, Some(3));
    assert!(!first.is_currently_focused);
    let last = state.by_id.get(&3).unwrap();
    assert_eq!(last.tab_next, Some(1));
    assert_eq!(last.tab_prev, Some(2));
    assert!(state.by_id.get(&2).unwrap().is_currently_focused);

    assert_eq!(
        focus_cycle_targets(&state),
        Some(FocusCycleTargets {
            owner: Some(2),
            next: 3,
            previous: 1,
        })
    );
}

#[test]
fn focus_cycle_without_focus_uses_first_and_last() {
    let entries = [
        FocusEntry {
            element_id: 4,
            is_currently_focused: false,
        },
        FocusEntry {
            element_id: 5,
            is_currently_focused: false,
        },
    ];
    let state = focus_build_state_from_entries(&entries);
    assert_eq!(state.focused_id, None);
    assert_eq!(
        focus_cycle_targets(&state),
        Some(FocusCycleTargets {
            owner: None,
            next: 4,
            previous: 5,
        })
    );
    let empty = focus_build_state_from_entries(&[]);
    assert_eq!(focus_cycle_targets(&empty), None);
}

#[test]
fn only_first_focused_entry_holds_focus() {
    let entries = [
        FocusEntry {
            element_id: 1,
            is_currently_focused: true,
        },
        FocusEntry {
            element_id: 2,
            is_currently_focused: true,
        },
    ];
    let state = focus_build_state_from_entries(&entries);
    assert_eq!(state.focused_id, Some(1));
    assert!(state.by_id.get(&1).unwrap().is_currently_focused);
    assert!(!state.by_id.get(&2).unwrap().is_currently_focused);
}

#[test]
fn focus_on_mount_keeps_first_candidate_in_same_revision() {
    let mut target = None;
    consider_focus_on_mount_candidate(&mut target, 3, true, 10, 3);
    consider_focus_on_mount_candidate(&mut target, 3, true, 11, 3);
    assert_eq!(
        target,
        Some(FocusOnMountTarget {
            element_id: 10,
            mounted_at_revision: 3,
        })
    );
}

#[test]
fn focus_on_mount_prefers_newly_mounted_target() {
    let mut target = Some(FocusOnMountTarget {
        element_id: 10,
        mounted_at_revision: 2,
    });
    merge_focus_on_mount(
        &mut target,
        Some(FocusOnMountTarget {
            element_id: 11,
            mounted_at_revision: 5,
        }),
    );
    assert_eq!(target.unwrap().element_id, 11);
    merge_focus_on_mount(
        &mut target,
        Some(FocusOnMountTarget {
            element_id: 12,
            mounted_at_revision: 4,
        }),
    );
    assert_eq!(target.unwrap().element_id, 11);
    merge_focus_on_mount(&mut target, None);
    assert_eq!(target.unwrap().element_id, 11);
}

#[test]
fn focus_on_mount_ignores_elements_not_mounted_this_revision() {
    let mut target = None;
    consider_focus_on_mount_candidate(&mut target, 4, true, 10, 2);
    assert_eq!(target, None);
    consider_focus_on_mount_candidate(&mut target, 4, false, 10, 4);
    assert_eq!(target, None);
    consider_focus_on_mount_candidate(&mut target, 0, true, 10, 0);
    assert_eq!(target, None);
    consider_focus_on_mount_candidate(&mut target, 4, true, 10, 4);
    assert_eq!(target.unwrap().element_id, 10);
}

#[test]
fn virtual_key_taps_expand_to_input_sequences() {
    assert_eq!(
        synthetic_input_sequence_for_virtual_key_tap(&VirtualKeyTapAction::Text("é".to_string())),
        vec![InputSignal::TextCommit {
            text: "é".to_string(),
            mods: 0,
        }]
    );
    assert_eq!(
        synthetic_input_sequence_for_virtual_key_tap(&VirtualKeyTapAction::Key {
            key: CanonicalKey::Backspace,
            mods: 0,
        }),
        vec![
            key(CanonicalKey::Backspace, ACTION_PRESS, 0),
            key(CanonicalKey::Backspace, ACTION_RELEASE, 0),
        ]
    );
    assert_eq!(
        synthetic_input_sequence_for_virtual_key_tap(&VirtualKeyTapAction::TextAndKey {
            text: "A".to_string(),
            key: CanonicalKey::A,
            mods: MOD_SHIFT,
        }),
        vec![
            key(CanonicalKey::A, ACTION_PRESS, MOD_SHIFT),
            InputSignal::TextCommit {
                text: "A".to_string(),
                mods: MOD_SHIFT,
            },
            key(CanonicalKey::A, ACTION_RELEASE, MOD_SHIFT),
        ]
    );
}

#[test]
fn tracker_changes_require_recompose_and_state_writes_do_not() {
    assert!(RuntimeChange::StartClickPressTracker {
        element_id: 1,
        matcher_kind: ListenerMatcherKind::CursorButtonLeftReleaseAnywhere,
        emit_click: true,
        emit_press_pointer: false,
        clear_mouse_down: false,
    }
    .requires_registry_recompose());
    assert!(RuntimeChange::StartTextDragTracker {
        element_id: 1,
        matcher_kind: ListenerMatcherKind::CursorPosAnywhere,
    }
    .requires_registry_recompose());
    assert!(RuntimeChange::ClearScrollbarDrag.requires_registry_recompose());
    assert!(RuntimeChange::ClearKeyPressTrackersForKey { key: CanonicalKey::A }
        .requires_registry_recompose());
    assert!(!RuntimeChange::SetHoverStack.requires_registry_recompose());
    assert!(!RuntimeChange::SetTextInputState { element_id: 1 }.requires_registry_recompose());
    assert!(!RuntimeChange::ArmTextCommitSuppression { key: CanonicalKey::Enter }
        .requires_registry_recompose());
}

fn snapshot(cursor: u32, anchor: Option<u32>, len: u32) -> TextKeySnapshot {
    TextKeySnapshot {
        cursor,
        selection_anchor: anchor,
        content_len: len,
        multiline: false,
        up_target: cursor,
        down_target: cursor,
        home_target: 0,
        end_target: len,
    }
}

#[test]
fn text_navigation_keys_request_only_useful_moves() {
    let at_start = snapshot(0, None, 3);
    let press = key(CanonicalKey::ArrowLeft, ACTION_PRESS, 0);
    let shift = key(CanonicalKey::ArrowLeft, ACTION_PRESS, MOD_SHIFT);
    assert_eq!(text_key_edit_request(&at_start, TextInputKeyEditKind::Left, &press), None);
    assert_eq!(
        text_key_edit_request(&at_start, TextInputKeyEditKind::Right, &press),
        Some(TextInputEditRequest::MoveRight {
            extend_selection: false
        })
    );
    assert_eq!(text_key_edit_request(&at_start, TextInputKeyEditKind::Home, &press), None);
    assert_eq!(
        text_key_edit_request(&at_start, TextInputKeyEditKind::End, &shift),
        Some(TextInputEditRequest::MoveEnd {
            extend_selection: true
        })
    );
    assert_eq!(text_key_edit_request(&at_start, TextInputKeyEditKind::Up, &press), None);

    let selected = snapshot(0, Some(2), 3);
    assert_eq!(
        text_key_edit_request(&selected, TextInputKeyEditKind::Left, &press),
        Some(TextInputEditRequest::MoveLeft {
            extend_selection: false
        })
    );
    assert_eq!(text_key_edit_request(&selected, TextInputKeyEditKind::Left, &shift), None);

    let mut multiline = snapshot(4, None, 9);
    multiline.multiline = true;
    multiline.down_target = 8;
    assert_eq!(
        text_key_edit_request(&multiline, TextInputKeyEditKind::Down, &press),
        Some(TextInputEditRequest::MoveDown {
            extend_selection: false
        })
    );
    assert_eq!(
        text_key_edit_request(&multiline, TextInputKeyEditKind::Left, &InputSignal::CursorPos),
        None
    );
}

#[test]
fn horizontal_moves_collapse_selection_or_step() {
    assert_eq!(move_left_cursor_target(3, Some((1, 3)), false), 1);
    assert_eq!(move_left_cursor_target(3, Some((1, 3)), true), 2);
    assert_eq!(move_left_cursor_target(0, None, false), 0);
    assert_eq!(move_right_cursor_target(1, 5, Some((1, 4)), false), 4);
    assert_eq!(move_right_cursor_target(1, 5, None, false), 2);
    assert_eq!(move_right_cursor_target(5, 5, None, true), 5);
}

#[test]
fn hover_stack_change_compares_ids_in_order() {
    assert!(!hover_stack_ids_changed(&vec![1, 2], &vec![1, 2]));
    assert!(hover_stack_ids_changed(&vec![1, 2], &vec![2, 1]));
    assert!(hover_stack_ids_changed(&vec![1], &vec![1, 2]));
    assert!(!hover_stack_ids_changed(&vec![], &vec![]));
}

#[test]
fn hover_stack_reconcile_keeps_old_order_and_drops_missing() {
    let active = vec![5, 6, 7];
    assert_eq!(reconcile_hover_stack(&active, &vec![]), vec![0, 1, 2]);
    assert_eq!(reconcile_hover_stack(&active, &vec![7, 9, 5]), vec![2, 0]);
    assert_eq!(reconcile_hover_stack(&vec![], &vec![1]), Vec::<usize>::new());
    assert_eq!(first_index_of(&vec![3, 4, 3], 3), Some(0));
    assert_eq!(first_index_of(&vec![3, 4, 3], 8), None);
}

#[test]
fn window_listeners_emit_resize_tree_message() {
    let listeners = window_listeners();
    assert_eq!(listeners.len(), 2);
    let resize = listeners
        .iter()
        .find(|l| l.matcher == ListenerMatcher::WindowResized)
        .unwrap();
    let cursor = listeners
        .iter()
        .find(|l| l.matcher == ListenerMatcher::CursorPosAnywhere)
        .unwrap();
    assert_eq!(resize.compute, ListenerCompute::WindowResizeToTree);
    assert!(resize.matcher.matches(&InputSignal::Resized {
        width: 800,
        height: 600,
    }));
    assert_eq!(cursor.compute, ListenerCompute::SetCursor(CursorIcon::Default));
    assert!(cursor.matcher.matches(&InputSignal::CursorPos));
}

#[test]
fn focus_cycle_and_blur_listeners_follow_focus_state() {
    let entries = [
        FocusEntry {
            element_id: 15,
            is_currently_focused: true,
        },
        FocusEntry {
            element_id: 16,
            is_currently_focused: false,
        },
    ];
    let state = focus_build_state_from_entries(&entries);
    let cycle = focus_cycle_listeners(&state);
    assert_eq!(cycle.len(), 2);
    assert_eq!(cycle[0].element_id, Some(15));
    assert_eq!(cycle[0].matcher, ListenerMatcher::KeyTabPressNoShiftCtrlAltMeta);
    assert_eq!(cycle[0].compute, ListenerCompute::FocusTo(Some(16)));
    assert_eq!(cycle[1].matcher, ListenerMatcher::KeyShiftTabPressNoCtrlAltMeta);
    assert_eq!(cycle[1].compute, ListenerCompute::FocusTo(Some(16)));

    let blur = focused_window_blur_listener(&state).unwrap();
    assert_eq!(blur.element_id, Some(15));
    assert_eq!(blur.matcher, ListenerMatcher::WindowBlurred);
    assert_eq!(blur.compute, ListenerCompute::FocusTo(None));

    let unfocused = focus_build_state_from_entries(&[FocusEntry {
        element_id: 16,
        is_currently_focused: false,
    }]);
    assert!(focused_window_blur_listener(&unfocused).is_none());
    let fallback = focus_cycle_listeners(&unfocused);
    assert_eq!(fallback[0].element_id, None);
    assert_eq!(fallback[0].compute, ListenerCompute::FocusTo(Some(16)));
}

#[test]
fn key_scroll_listeners_follow_scroll_directions() {
    let listeners = key_scroll_listeners_for_element(
        40,
        &[ScrollDirection::XNeg, ScrollDirection::XPos, ScrollDirection::YNeg],
    );
    assert_eq!(listeners.len(), 3);
    assert_eq!(listeners[0].matcher, ListenerMatcher::KeyRightPressNoCtrlAltMeta);
    assert_eq!(
        listeners[0].compute,
        ListenerCompute::KeyScrollToTree {
            element_id: 40,
            dx_lines: -1,
            dy_lines: 0,
        }
    );
    assert_eq!(listeners[1].matcher, ListenerMatcher::KeyLeftPressNoCtrlAltMeta);
    assert_eq!(
        listeners[1].compute,
        ListenerCompute::KeyScrollToTree {
            element_id: 40,
            dx_lines: 1,
            dy_lines: 0,
        }
    );
    assert_eq!(listeners[2].matcher, ListenerMatcher::KeyDownPressNoCtrlAltMeta);
    assert_eq!(
        listeners[2].compute,
        ListenerCompute::KeyScrollToTree {
            element_id: 40,
            dx_lines: 0,
            dy_lines: -1,
        }
    );
    assert!(listeners
        .iter()
        .all(|l| l.element_id == Some(40)));
}

#[test]
fn build_accumulators_merge_in_subtree_order() {
    let mut root: RegistryBuildAcc<u32> = RegistryBuildAcc::for_revision(3);
    root.registry
        .in_precedence_order(vec![listener(1, ListenerMatcher::WindowBlurred)]);
    root.focus_entries.push(FocusEntry {
        element_id: 1,
        is_currently_focused: false,
    });
    root.merge_focus_on_mount(Some(FocusOnMountTarget {
        element_id: 1,
        mounted_at_revision: 2,
    }));

    let mut child: RegistryBuildAcc<u32> = RegistryBuildAcc::for_revision(3);
    child
        .registry
        .in_precedence_order(vec![listener(2, ListenerMatcher::WindowBlurred)]);
    child.focused_id = Some(2);
    child.focus_entries.push(FocusEntry {
        element_id: 2,
        is_currently_focused: true,
    });
    child.focus_on_mount = Some(FocusOnMountTarget {
        element_id: 2,
        mounted_at_revision: 3,
    });

    root.merge_acc(child);
    assert_eq!(root.current_revision, 3);
    assert_eq!(root.registry.len(), 2);
    assert_eq!(root.registry.listener_in_precedence(0).element_id, Some(2));
    assert_eq!(root.focused_id, Some(2));
    assert_eq!(root.focus_entries.len(), 2);
    assert_eq!(root.focus_entries[1].element_id, 2);
    assert_eq!(root.focus_on_mount.unwrap().element_id, 2);

    let mut later: RegistryBuildAcc<u32> = RegistryBuildAcc::for_revision(3);
    later.focused_id = Some(9);
    later.focus_on_mount = Some(FocusOnMountTarget {
        element_id: 9,
        mounted_at_revision: 3,
    });
    root.merge_acc(later);
    assert_eq!(root.focused_id, Some(2));
    assert_eq!(root.focus_on_mount.unwrap().element_id, 2);
}

#[test]
fn child_subtree_skipping_follows_dirty_and_affects_flags() {
    let clean = RegistryRefreshFlags {
        registry_dirty: false,
        registry_descendant_dirty: false,
        registry_subtree_affects: false,
    };
    let dirty = RegistryRefreshFlags {
        registry_dirty: true,
        ..clean
    };
    let stale_affects = RegistryRefreshFlags {
        registry_subtree_affects: true,
        ..clean
    };
    assert!(!registry_child_subtree_affects_rebuild(None, true, true));
    assert!(registry_child_subtree_affects_rebuild(Some(dirty), true, false));
    assert!(registry_child_subtree_affects_rebuild(Some(stale_affects), true, false));
    assert!(!registry_child_subtree_affects_rebuild(Some(stale_affects), false, false));
    assert!(registry_child_subtree_affects_rebuild(Some(clean), false, true));

    assert!(should_skip_registry_child_subtree(true, true, Some(dirty), true, true));
    assert!(!should_skip_registry_child_subtree(false, true, Some(clean), false, false));
    assert!(should_skip_registry_child_subtree(false, false, Some(clean), false, false));
    assert!(!should_skip_registry_child_subtree(false, false, Some(dirty), false, false));
}

fn button(label: &str, action: u8) -> ListenerInput {
    ListenerInput::Raw(InputSignal::CursorButton {
        button: label.to_string(),
        action,
        mods: 0,
    })
}

#[test]
fn middle_press_inside_matcher_requires_middle_press_inside_rect() {
    let matcher = RegionMatcher::CursorButtonMiddlePressInside;
    // (10, 10) lies inside the region and (200, 10) outside it.
    assert!(matcher.matches_input(&button("middle", ACTION_PRESS), true));
    assert!(!matcher.matches_input(&button("left", ACTION_PRESS), true));
    assert!(!matcher.matches_input(&button("middle", ACTION_RELEASE), true));
    assert!(!matcher.matches_input(&button("middle", ACTION_PRESS), false));
}

#[test]
fn region_matchers_check_event_kind_and_containment() {
    assert!(RegionMatcher::CursorButtonLeftPressInside.matches_input(&button("left", ACTION_PRESS), true));
    assert!(!RegionMatcher::CursorButtonLeftPressInside.matches_input(&button("left", ACTION_RELEASE), true));
    assert!(RegionMatcher::CursorButtonLeftReleaseInside.matches_input(&button("left", ACTION_RELEASE), true));
    assert!(RegionMatcher::CursorPosInside.matches_input(&ListenerInput::Raw(InputSignal::CursorPos), true));
    assert!(!RegionMatcher::CursorPosInside.matches_input(&ListenerInput::PointerEnter, true));
    assert!(RegionMatcher::PointerEnterInside.matches_input(&ListenerInput::PointerEnter, true));
    assert!(!RegionMatcher::PointerEnterInside.matches_input(&ListenerInput::PointerEnter, false));
    let leave_window = ListenerInput::PointerLeave { window_left: true };
    let leave_inside = ListenerInput::PointerLeave { window_left: false };
    assert!(RegionMatcher::CursorLocationLeaveBoundary.matches_input(&leave_window, true));
    assert!(!RegionMatcher::HoverLeaveCurrentOwner.matches_input(&leave_inside, true));
    assert!(RegionMatcher::HoverLeaveCurrentOwner.matches_input(&leave_inside, false));
    assert_eq!(
        RegionMatcher::HoverLeaveCurrentOwner.kind(),
        ListenerMatcherKind::HoverLeaveCurrentOwner
    );
}

#[test]
fn matcher_kind_uses_variant_identity_only() {
    // Regions are hit-tested outside the matcher; two left-press matchers
    // over different regions share one kind.
    let a = RegionMatcher::CursorButtonLeftPressInside;
    let b = RegionMatcher::CursorButtonLeftPressInside;
    let c = RegionMatcher::CursorButtonLeftReleaseInside;

    assert_eq!(a.kind(), ListenerMatcherKind::CursorButtonLeftPressInside);
    assert_eq!(a.kind(), b.kind());
    assert_ne!(a.kind(), c.kind());
}

fn acc_with(revision: u64, id: u64, focused: bool, mounted: u64) -> RegistryBuildAcc<u32> {
    let mut acc = RegistryBuildAcc::for_revision(revision);
    acc.registry
        .in_precedence_order(vec![listener(id, ListenerMatcher::WindowBlurred)]);
    acc.focus_entries.push(FocusEntry {
        element_id: id,
        is_currently_focused: focused,
    });
    if focused {
        acc.focused_id = Some(id);
    }
    acc.focus_on_mount = Some(FocusOnMountTarget {
        element_id: id,
        mounted_at_revision: mounted,
    });
    acc
}

#[test]
fn merging_accumulators_does_not_depend_on_grouping() {
    let mut left = acc_with(5, 1, false, 4);
    left.merge_acc(acc_with(5, 2, true, 5));
    left.merge_acc(acc_with(5, 3, true, 5));

    let mut right_tail = acc_with(5, 2, true, 5);
    right_tail.merge_acc(acc_with(5, 3, true, 5));
    let mut right = acc_with(5, 1, false, 4);
    right.merge_acc(right_tail);

    assert_eq!(left.focused_id, right.focused_id);
    assert_eq!(left.focused_id, Some(2));
    assert_eq!(left.focus_entries, right.focus_entries);
    assert_eq!(left.focus_on_mount, right.focus_on_mount);
    assert_eq!(left.focus_on_mount.unwrap().element_id, 2);
    assert_eq!(left.registry.len(), right.registry.len());
    for i in 0..left.registry.len() {
        assert_eq!(
            left.registry.listener_in_precedence(i).element_id,
            right.registry.listener_in_precedence(i).element_id
        );
    }
}

#[test]
fn region_listeners_take_part_in_first_match_dispatch() {
    let mut base: Registry<u32> = Registry::new();
    base.in_precedence_order(vec![
        listener(
            1,
            ListenerMatcher::Region(RegionMatcher::CursorButtonLeftPressInside),
        ),
        listener(2, ListenerMatcher::CursorButtonLeftReleaseAnywhere),
        listener(
            3,
            ListenerMatcher::Region(RegionMatcher::CursorButtonLeftPressInside),
        ),
    ]);
    let press = button("left", ACTION_PRESS);
    // The pointer is inside the third listener's region only.
    assert_eq!(
        base.matching_listener_at(&press, &[false, false, true], &[])
            .unwrap()
            .compute,
        3
    );
    assert_eq!(
        base.matching_listener_at(&press, &[true, false, true], &[])
            .unwrap()
            .compute,
        1
    );
    assert!(base.matching_listener_at(&press, &[false, false, false], &[]).is_none());
    let release = button("left", ACTION_RELEASE);
    assert_eq!(
        base.matching_listener_at(&release, &[true, true, true], &[])
            .unwrap()
            .compute,
        2
    );
    assert!(!ListenerMatcher::Region(RegionMatcher::CursorPosInside).matches(&InputSignal::CursorPos));

    let mut top: Registry<u32> = Registry::new();
    top.in_precedence_order(vec![listener(
        9,
        ListenerMatcher::Region(RegionMatcher::PointerEnterInside),
    )]);
    let view = LayeredRegistryView::new(&top, &base);
    assert_eq!(
        view.matching_listener_at(&ListenerInput::PointerEnter, &[true], &[false, false, false], &[])
            .unwrap()
            .compute,
        9
    );
    assert_eq!(
        view.matching_listener_at(&press, &[true], &[false, false, true], &[])
            .unwrap()
            .compute,
        3
    );
}
