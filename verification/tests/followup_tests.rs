use std::collections::{HashMap, HashSet};
use emerge_skia::events::contributors::{ElementEventKind, KeyPressFollowup, KeyPressTracker};
use emerge_skia::events::followups::{
    click_press_release_followup, key_press_release_followup, text_commit_insert,
    text_commit_to_runtime, text_cursor_action_from_input, text_delete_surrounding_action_from_input,
    text_preedit_action_from_input, ListenerAction, TextCommitCtx, TextCommitState, TextInputCompute,
};
use emerge_skia::events::registry_builder::{
    ClickPressTracker, KeyBindingMatch, ListenerMatcherKind, RuntimeChange,
};
use emerge_skia::input::{InputSignal, ACTION_PRESS, ACTION_RELEASE, MOD_CTRL, MOD_SHIFT};
use emerge_skia::keys::CanonicalKey;

fn left(action: u8) -> InputSignal {
    InputSignal::CursorButton {
        button: "left".to_string(),
        action,
        mods: 0,
    }
}

fn press_tracker(emit_click: bool, emit_press: bool, clear: bool) -> ClickPressTracker {
    ClickPressTracker {
        element_id: 91,
        matcher_kind: ListenerMatcherKind::CursorButtonLeftReleaseAnywhere,
        emit_click,
        emit_press_pointer: emit_press,
        clear_mouse_down: clear,
    }
}

#[test]
fn press_release_keeps_base_mouse_down_clear_and_adds_press() {
    let base = vec![ListenerAction::SetMouseDownActive {
        element_id: 91,
        active: false,
    }];
    let actions = click_press_release_followup(&press_tracker(false, true, true), &left(ACTION_RELEASE), base);
    assert_eq!(
        actions,
        vec![
            ListenerAction::SetMouseDownActive {
                element_id: 91,
                active: false,
            },
            ListenerAction::ElixirEvent {
                element_id: 91,
                kind: ElementEventKind::Press,
                route: None,
            },
            ListenerAction::RuntimeChange(RuntimeChange::ClearClickPressTracker),
            ListenerAction::RuntimeChange(RuntimeChange::ClearDragTracker),
        ]
    );
}

#[test]
fn click_release_clears_mouse_down_when_base_did_not() {
    let actions = click_press_release_followup(&press_tracker(true, false, true), &left(ACTION_RELEASE), Vec::new());
    assert_eq!(
        actions,
        vec![
            ListenerAction::ElixirEvent {
                element_id: 91,
                kind: ElementEventKind::Click,
                route: None,
            },
            ListenerAction::SetMouseDownActive {
                element_id: 91,
                active: false,
            },
            ListenerAction::RuntimeChange(RuntimeChange::ClearClickPressTracker),
            ListenerAction::RuntimeChange(RuntimeChange::ClearDragTracker),
        ]
    );
    assert!(click_press_release_followup(&press_tracker(true, true, true), &left(ACTION_PRESS), Vec::new())
        .is_empty());
    let right = InputSignal::CursorButton {
        button: "right".to_string(),
        action: ACTION_RELEASE,
        mods: 0,
    };
    assert!(click_press_release_followup(&press_tracker(true, true, true), &right, Vec::new()).is_empty());
}

fn space_tracker(mods: u8, route: &str) -> KeyPressTracker {
    KeyPressTracker {
        source_element_id: Some(40),
        key: CanonicalKey::Space,
        mods,
        match_mode: KeyBindingMatch::Exact,
        followups: vec![KeyPressFollowup::ElixirEvent {
            element_id: 40,
            route: route.to_string(),
        }],
    }
}

#[test]
fn key_press_release_followup_redispatches_key_up_before_key_press() {
    let base = vec![ListenerAction::ElixirEvent {
        element_id: 40,
        kind: ElementEventKind::KeyUp,
        route: Some("key_up:space:exact:0".to_string()),
    }];
    let trackers = vec![
        space_tracker(0, "key_press:space:exact:0"),
        space_tracker(MOD_SHIFT, "shifted"),
    ];
    let release = InputSignal::Key {
        key: CanonicalKey::Space,
        action: ACTION_RELEASE,
        mods: 0,
    };
    let actions = key_press_release_followup(CanonicalKey::Space, &trackers, &release, base);
    assert_eq!(
        actions,
        vec![
            ListenerAction::ElixirEvent {
                element_id: 40,
                kind: ElementEventKind::KeyUp,
                route: Some("key_up:space:exact:0".to_string()),
            },
            ListenerAction::ElixirEvent {
                element_id: 40,
                kind: ElementEventKind::KeyPress,
                route: Some("key_press:space:exact:0".to_string()),
            },
            ListenerAction::RuntimeChange(RuntimeChange::ClearKeyPressTrackersForKey {
                key: CanonicalKey::Space,
            }),
        ]
    );
    let other_key = InputSignal::Key {
        key: CanonicalKey::Enter,
        action: ACTION_RELEASE,
        mods: 0,
    };
    assert!(key_press_release_followup(CanonicalKey::Space, &trackers, &other_key, Vec::new()).is_empty());
}

struct Inputs {
    multiline: Option<bool>,
    suppressed: bool,
    taken: usize,
}

impl TextCommitCtx for Inputs {
    fn multiline_of(&self, _element_id: u64) -> Option<bool> {
        self.multiline
    }

    fn suppressed(&self, _element_id: u64) -> bool {
        self.suppressed
    }

    fn text_input_multiline(&self, _element_id: u64) -> Option<bool> {
        self.multiline
    }

    fn take_text_commit_suppression(&mut self, _element_id: u64) -> bool {
        self.taken += 1;
        std::mem::replace(&mut self.suppressed, false)
    }
}

fn commit(text: &str, mods: u8) -> InputSignal {
    InputSignal::TextCommit {
        text: text.to_string(),
        mods,
    }
}

#[test]
fn text_commit_inserts_sanitized_text() {
    assert_eq!(
        text_commit_insert(5, &commit("a\tb\n", 0), Some(false), false),
        Some(ListenerAction::TextInputInsert {
            element_id: 5,
            text: "a b ".to_string(),
        })
    );
    assert_eq!(
        text_commit_insert(5, &commit("a\r\nb", MOD_SHIFT), Some(true), false),
        Some(ListenerAction::TextInputInsert {
            element_id: 5,
            text: "a\nb".to_string(),
        })
    );
    assert_eq!(text_commit_insert(5, &commit("a", MOD_CTRL), Some(false), false), None);
    assert_eq!(text_commit_insert(5, &commit("a", 0), None, false), None);
    assert_eq!(text_commit_insert(5, &commit("a", 0), Some(false), true), None);
    assert_eq!(text_commit_insert(5, &commit("\u{7}", 0), Some(false), false), None);
}

#[test]
fn text_commit_consumes_suppression_once() {
    let mut ctx = Inputs {
        multiline: Some(false),
        suppressed: true,
        taken: 0,
    };
    assert_eq!(text_commit_to_runtime(7, &commit("a", 0), &mut ctx), None);
    assert_eq!(
        text_commit_to_runtime(7, &commit("a", 0), &mut ctx),
        Some(ListenerAction::TextInputInsert {
            element_id: 7,
            text: "a".to_string(),
        })
    );
    assert_eq!(ctx.taken, 2);
    assert_eq!(text_commit_to_runtime(7, &commit("a", MOD_CTRL), &mut ctx), None);
    assert_eq!(ctx.taken, 2);

    let mut missing = Inputs {
        multiline: None,
        suppressed: true,
        taken: 0,
    };
    assert_eq!(text_commit_to_runtime(7, &commit("a", 0), &mut missing), None);
    assert_eq!(missing.taken, 0);
}

#[test]
fn ime_events_become_preedit_and_delete_requests() {
    assert_eq!(
        text_preedit_action_from_input(
            &InputSignal::TextPreedit {
                text: "か".to_string(),
                cursor: Some((0, 3)),
            },
            4
        ),
        Some(ListenerAction::TextInputPreeditSet {
            element_id: 4,
            text: "か".to_string(),
            cursor: Some((0, 3)),
        })
    );
    assert_eq!(
        text_preedit_action_from_input(
            &InputSignal::TextPreedit {
                text: String::new(),
                cursor: None,
            },
            4
        ),
        Some(ListenerAction::TextInputPreeditClear { element_id: 4 })
    );
    assert_eq!(
        text_preedit_action_from_input(&InputSignal::TextPreeditClear, 4),
        Some(ListenerAction::TextInputPreeditClear { element_id: 4 })
    );
    assert_eq!(text_preedit_action_from_input(&InputSignal::CursorPos, 4), None);
    assert_eq!(
        text_delete_surrounding_action_from_input(
            &InputSignal::DeleteSurrounding {
                before_length: 2,
                after_length: 1,
            },
            4
        ),
        Some(ListenerAction::TextInputDeleteSurrounding {
            element_id: 4,
            before_length: 2,
            after_length: 1,
        })
    );
    assert_eq!(text_delete_surrounding_action_from_input(&InputSignal::TextPreeditClear, 4), None);
}

#[test]
fn pointer_input_moves_text_cursor() {
    let shift_press = InputSignal::CursorButton {
        button: "left".to_string(),
        action: ACTION_PRESS,
        mods: MOD_SHIFT,
    };
    assert_eq!(
        text_cursor_action_from_input(&shift_press, 8, false),
        Some(ListenerAction::TextInputCursorAtPointer {
            element_id: 8,
            extend_selection: true,
        })
    );
    assert_eq!(
        text_cursor_action_from_input(&left(ACTION_PRESS), 8, false),
        Some(ListenerAction::TextInputCursorAtPointer {
            element_id: 8,
            extend_selection: false,
        })
    );
    assert_eq!(text_cursor_action_from_input(&left(ACTION_RELEASE), 8, true), None);
    assert_eq!(
        text_cursor_action_from_input(&InputSignal::CursorPos, 8, true),
        Some(ListenerAction::TextInputCursorAtPointer {
            element_id: 8,
            extend_selection: true,
        })
    );
}

#[test]
fn text_commit_state_consumes_suppression_of_existing_inputs_only() {
    let mut state = TextCommitState {
        multiline: HashMap::from([(1u64, false), (2u64, true)]),
        suppressions: HashSet::from([1u64, 3u64]),
    };
    assert_eq!(text_commit_to_runtime(1, &commit("a", 0), &mut state), None);
    assert!(!state.suppressions.contains(&1));
    assert_eq!(
        text_commit_to_runtime(1, &commit("a\tb", 0), &mut state),
        Some(ListenerAction::TextInputInsert {
            element_id: 1,
            text: "a b".to_string(),
        })
    );
    assert_eq!(
        text_commit_to_runtime(2, &commit("x\r\ny", 0), &mut state),
        Some(ListenerAction::TextInputInsert {
            element_id: 2,
            text: "x\ny".to_string(),
        })
    );
    assert_eq!(text_commit_to_runtime(3, &commit("a", 0), &mut state), None);
    assert!(state.suppressions.contains(&3));
    assert_eq!(text_commit_to_runtime(3, &commit("a", MOD_CTRL), &mut state), None);
}

#[test]
fn text_input_compute_dispatches_each_variant() {
    let mut state = TextCommitState {
        multiline: HashMap::from([(4u64, false)]),
        suppressions: HashSet::new(),
    };
    let commit_compute = TextInputCompute::TextCommitToRuntime { element_id: 4 };
    assert_eq!(
        commit_compute.compute_input(&commit("hi", 0), &mut state),
        vec![ListenerAction::TextInputInsert {
            element_id: 4,
            text: "hi".to_string(),
        }]
    );
    assert!(commit_compute
        .compute_input(&InputSignal::TextPreeditClear, &mut state)
        .is_empty());

    let preedit = TextInputCompute::TextInputPreeditToRuntime { element_id: 4 };
    assert_eq!(
        preedit.compute_input(&InputSignal::TextPreeditClear, &mut state),
        vec![ListenerAction::TextInputPreeditClear { element_id: 4 }]
    );

    let surrounding = TextInputCompute::TextDeleteSurroundingToRuntime { element_id: 4 };
    assert_eq!(
        surrounding.compute_input(
            &InputSignal::DeleteSurrounding {
                before_length: 2,
                after_length: 1,
            },
            &mut state,
        ),
        vec![ListenerAction::TextInputDeleteSurrounding {
            element_id: 4,
            before_length: 2,
            after_length: 1,
        }]
    );

    let cursor = TextInputCompute::TextInputCursorFromPointer {
        element_id: 4,
        extend_selection: false,
    };
    assert_eq!(
        cursor.compute_input(&InputSignal::CursorPos, &mut state),
        vec![ListenerAction::TextInputCursorAtPointer {
            element_id: 4,
            extend_selection: false,
        }]
    );
    assert!(cursor.compute_input(&left(ACTION_RELEASE), &mut state).is_empty());
}
