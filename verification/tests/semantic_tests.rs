use emerge_skia::events::contributors::ElementEventKind;
use emerge_skia::events::semantic::{
    ClipboardSource, ClipboardTarget, ResolvedAction, SemanticComputeState,
};

struct CountingClipboard {
    text: Option<String>,
    reads: usize,
}

impl ClipboardSource for CountingClipboard {
    fn platform_text(&self, _target: ClipboardTarget) -> Option<String> {
        self.text.clone()
    }

    fn clipboard_text(&mut self, _target: ClipboardTarget) -> Option<String> {
        self.reads += 1;
        self.text.clone()
    }
}

#[test]
fn focus_move_blurs_previous_then_focuses_next() {
    let mut state = SemanticComputeState::new(Some(1));
    let actions = state.resolve_focus_to(Some(2));
    assert_eq!(
        actions,
        vec![
            ResolvedAction::ElixirEvent {
                element_id: 1,
                kind: ElementEventKind::Blur,
            },
            ResolvedAction::SetFocusedActive {
                element_id: 1,
                active: false,
            },
            ResolvedAction::ElixirEvent {
                element_id: 2,
                kind: ElementEventKind::Focus,
            },
            ResolvedAction::SetFocusedActive {
                element_id: 2,
                active: true,
            },
        ]
    );
    assert_eq!(state.focused_id, Some(2));
    assert!(state.resolve_focus_to(Some(2)).is_empty());
    assert_eq!(
        state.resolve_focus_to(None),
        vec![
            ResolvedAction::ElixirEvent {
                element_id: 2,
                kind: ElementEventKind::Blur,
            },
            ResolvedAction::SetFocusedActive {
                element_id: 2,
                active: false,
            },
        ]
    );
    assert_eq!(state.focused_id, None);
}

#[test]
fn noting_focus_actions_tracks_focus() {
    let mut state = SemanticComputeState::new(None);
    let mut other = SemanticComputeState::new(Some(5));
    for action in other.resolve_focus_to(Some(6)) {
        state.note_final_action(&action);
    }
    assert_eq!(state.focused_id, Some(6));
    state.note_final_action(&ResolvedAction::SetFocusedActive {
        element_id: 9,
        active: false,
    });
    assert_eq!(state.focused_id, Some(6));
    state.note_final_action(&ResolvedAction::SetFocusedActive {
        element_id: 6,
        active: false,
    });
    assert_eq!(state.focused_id, None);
}

#[test]
fn clipboard_is_read_once_and_sees_writes() {
    let mut source = CountingClipboard {
        text: Some("os".to_string()),
        reads: 0,
    };
    let mut state = SemanticComputeState::new(None);
    assert_eq!(
        state.clipboard_text(&mut source, ClipboardTarget::Clipboard),
        Some("os".to_string())
    );
    assert_eq!(
        state.clipboard_text(&mut source, ClipboardTarget::Clipboard),
        Some("os".to_string())
    );
    assert_eq!(source.reads, 1);

    state.note_final_action(&ResolvedAction::ClipboardWrite {
        target: ClipboardTarget::Clipboard,
        text: "copied".to_string(),
    });
    assert_eq!(
        state.clipboard_text(&mut source, ClipboardTarget::Clipboard),
        Some("copied".to_string())
    );
    state.set_clipboard(ClipboardTarget::Clipboard, String::new());
    assert_eq!(state.clipboard_text(&mut source, ClipboardTarget::Clipboard), None);
    assert_eq!(source.reads, 1);

    assert_eq!(
        state.clipboard_text(&mut source, ClipboardTarget::Primary),
        Some("os".to_string())
    );
    assert_eq!(source.reads, 2);
}

#[test]
fn primary_selection_write_is_appended_when_not_empty() {
    let mut source = CountingClipboard {
        text: None,
        reads: 0,
    };
    let mut state = SemanticComputeState::new(None);
    let runtime = vec![ResolvedAction::SetFocusedActive {
        element_id: 3,
        active: true,
    }];
    let actions = state.finish_with_primary_selection_write(runtime, Some("sel".to_string()));
    assert_eq!(actions.len(), 2);
    assert_eq!(
        actions[1],
        ResolvedAction::ClipboardWrite {
            target: ClipboardTarget::Primary,
            text: "sel".to_string(),
        }
    );
    assert_eq!(
        state.clipboard_text(&mut source, ClipboardTarget::Primary),
        Some("sel".to_string())
    );
    assert_eq!(source.reads, 0);

    let unchanged = state.finish_with_primary_selection_write(Vec::new(), Some(String::new()));
    assert!(unchanged.is_empty());
    let none = state.finish_with_primary_selection_write(Vec::new(), None);
    assert!(none.is_empty());
}
