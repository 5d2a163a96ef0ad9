use emerge_skia::events::semantic::{
    ClipboardSource, ClipboardTarget, PlatformClipboards, ResolvedAction, SemanticComputeState,
};
use emerge_skia::events::text_edit::TextInputEditRequest;
use emerge_skia::events::text_resolve::{
    TextInputCommandRequest, TextInputSnapshot, TextLayoutTargets,
};

struct FixedClipboard {
    text: Option<String>,
}

impl ClipboardSource for FixedClipboard {
    fn platform_text(&self, _target: ClipboardTarget) -> Option<String> {
        self.text.clone()
    }

    fn clipboard_text(&mut self, _target: ClipboardTarget) -> Option<String> {
        self.text.clone()
    }
}

fn input(content: &str, cursor: u32, anchor: Option<u32>, emit_change: bool) -> TextInputSnapshot {
    TextInputSnapshot {
        content: content.chars().collect(),
        cursor,
        selection_anchor: anchor,
        preedit: None,
        preedit_cursor: None,
        focused: true,
        emit_change,
        multiline: false,
    }
}

fn targets() -> TextLayoutTargets {
    TextLayoutTargets {
        word_left: 0,
        word_right: 0,
        home: 0,
        end: 0,
        paragraph_start: 0,
        paragraph_end: 0,
        up: 0,
        down: 0,
    }
}

fn content_of(snapshot: &TextInputSnapshot) -> String {
    snapshot.content.iter().collect()
}

#[test]
fn insert_appends_at_cursor_with_change_actions() {
    let mut state = SemanticComputeState::new(Some(17));
    let mut snapshot = input("ab", 2, None, true);
    let actions = state.resolve_text_edit(
        &mut snapshot,
        &targets(),
        17,
        TextInputEditRequest::Insert("x".to_string()),
    );
    assert_eq!(actions.len(), 5);
    assert_eq!(content_of(&snapshot), "abx");
    assert_eq!(snapshot.cursor, 3);
    assert_eq!(
        actions[0],
        ResolvedAction::SetTextInputContent {
            element_id: 17,
            content: "abx".to_string()
        }
    );
    assert_eq!(
        actions[2],
        ResolvedAction::ExpectTextInputPatchValue {
            element_id: 17,
            content: "abx".to_string()
        }
    );
    assert_eq!(
        actions[3],
        ResolvedAction::ElixirChangeEvent {
            element_id: 17,
            value: "abx".to_string()
        }
    );
    assert!(matches!(
        &actions[4],
        ResolvedAction::SetTextInputState { element_id: 17, state } if state.cursor == 3
    ));
}

#[test]
fn insert_without_change_events_skips_patch_and_event() {
    let mut state = SemanticComputeState::new(None);
    let mut snapshot = input("ab", 0, None, false);
    let actions = state.resolve_text_edit(
        &mut snapshot,
        &targets(),
        3,
        TextInputEditRequest::Insert("z".to_string()),
    );
    assert_eq!(actions.len(), 3);
    assert_eq!(content_of(&snapshot), "zab");
    assert_eq!(snapshot.cursor, 1);
}

#[test]
fn insert_replaces_selection() {
    let mut state = SemanticComputeState::new(None);
    let mut snapshot = input("hello", 1, Some(4), false);
    state.resolve_text_edit(
        &mut snapshot,
        &targets(),
        3,
        TextInputEditRequest::Insert("EY".to_string()),
    );
    assert_eq!(content_of(&snapshot), "hEYo");
    assert_eq!(snapshot.cursor, 3);
    assert_eq!(snapshot.selection_anchor, None);
}

#[test]
fn cut_writes_both_clipboards_and_removes_selection() {
    let mut state = SemanticComputeState::new(Some(17));
    let mut snapshot = input("ab", 2, Some(0), true);
    let mut source = FixedClipboard { text: None };
    let actions = state.resolve_text_command(
        &mut source,
        &mut snapshot,
        17,
        TextInputCommandRequest::Cut,
    );
    assert_eq!(actions.len(), 7);
    assert_eq!(
        actions[0],
        ResolvedAction::ClipboardWrite {
            target: ClipboardTarget::Clipboard,
            text: "ab".to_string()
        }
    );
    assert_eq!(
        actions[1],
        ResolvedAction::ClipboardWrite {
            target: ClipboardTarget::Primary,
            text: "ab".to_string()
        }
    );
    assert_eq!(content_of(&snapshot), "");
    assert_eq!(snapshot.cursor, 0);
    let pasted = state.resolve_text_command(
        &mut source,
        &mut snapshot,
        17,
        TextInputCommandRequest::Paste,
    );
    assert_eq!(content_of(&snapshot), "ab");
    assert_eq!(pasted.len(), 5);
}

#[test]
fn copy_without_selection_does_nothing() {
    let mut state = SemanticComputeState::new(None);
    let mut snapshot = input("ab", 1, None, true);
    let mut source = FixedClipboard { text: None };
    let actions = state.resolve_text_command(
        &mut source,
        &mut snapshot,
        1,
        TextInputCommandRequest::Copy,
    );
    assert!(actions.is_empty());
    assert_eq!(content_of(&snapshot), "ab");
}

#[test]
fn paste_sanitizes_for_single_line_inputs() {
    let mut state = SemanticComputeState::new(None);
    let mut snapshot = input("", 0, None, false);
    let mut source = FixedClipboard {
        text: Some("a\tb\nc".to_string()),
    };
    state.resolve_text_command(&mut source, &mut snapshot, 1, TextInputCommandRequest::Paste);
    assert_eq!(content_of(&snapshot), "a b c");
    assert_eq!(snapshot.cursor, 5);
}

#[test]
fn paste_of_empty_clipboard_does_nothing() {
    let mut state = SemanticComputeState::new(None);
    let mut snapshot = input("ab", 1, None, true);
    let mut source = FixedClipboard { text: None };
    let actions = state.resolve_text_command(
        &mut source,
        &mut snapshot,
        1,
        TextInputCommandRequest::PastePrimary,
    );
    assert!(actions.is_empty());
    assert_eq!(content_of(&snapshot), "ab");
}

#[test]
fn backspace_removes_previous_char_or_selection() {
    let mut state = SemanticComputeState::new(None);
    let mut snapshot = input("abc", 2, None, false);
    state.resolve_text_edit(&mut snapshot, &targets(), 1, TextInputEditRequest::Backspace);
    assert_eq!(content_of(&snapshot), "ac");
    assert_eq!(snapshot.cursor, 1);

    let mut selected = input("abcd", 3, Some(1), false);
    state.resolve_text_edit(&mut selected, &targets(), 1, TextInputEditRequest::Backspace);
    assert_eq!(content_of(&selected), "ad");
    assert_eq!(selected.cursor, 1);

    let mut at_start = input("ab", 0, None, false);
    let actions =
        state.resolve_text_edit(&mut at_start, &targets(), 1, TextInputEditRequest::Backspace);
    assert!(actions.is_empty());
    assert_eq!(content_of(&at_start), "ab");
}

#[test]
fn delete_removes_next_char_until_the_end() {
    let mut state = SemanticComputeState::new(None);
    let mut snapshot = input("abc", 1, None, false);
    state.resolve_text_edit(&mut snapshot, &targets(), 1, TextInputEditRequest::Delete);
    assert_eq!(content_of(&snapshot), "ac");
    let mut at_end = input("ab", 2, None, false);
    let actions = state.resolve_text_edit(&mut at_end, &targets(), 1, TextInputEditRequest::Delete);
    assert!(actions.is_empty());
}

#[test]
fn delete_to_home_uses_layout_target() {
    let mut state = SemanticComputeState::new(None);
    let mut snapshot = input("hello world", 8, None, false);
    let mut t = targets();
    t.home = 6;
    state.resolve_text_edit(&mut snapshot, &t, 1, TextInputEditRequest::DeleteToHome);
    assert_eq!(content_of(&snapshot), "hello rld");
    assert_eq!(snapshot.cursor, 6);
}

#[test]
fn delete_surrounding_clamps_to_content() {
    let mut state = SemanticComputeState::new(None);
    let mut snapshot = input("abcdef", 2, None, false);
    state.resolve_text_edit(
        &mut snapshot,
        &targets(),
        1,
        TextInputEditRequest::DeleteSurrounding {
            before_length: 5,
            after_length: 1,
        },
    );
    assert_eq!(content_of(&snapshot), "def");
    assert_eq!(snapshot.cursor, 0);
}

#[test]
fn extending_move_writes_primary_selection() {
    let mut state = SemanticComputeState::new(None);
    let mut snapshot = input("abc", 3, None, false);
    let actions = state.resolve_text_edit(
        &mut snapshot,
        &targets(),
        9,
        TextInputEditRequest::MoveLeft {
            extend_selection: true,
        },
    );
    assert_eq!(snapshot.cursor, 2);
    assert_eq!(snapshot.selection_anchor, Some(3));
    assert_eq!(actions.len(), 3);
    assert_eq!(
        actions[2],
        ResolvedAction::ClipboardWrite {
            target: ClipboardTarget::Primary,
            text: "c".to_string()
        }
    );
}

#[test]
fn plain_move_collapses_selection_to_its_start() {
    let mut state = SemanticComputeState::new(None);
    let mut snapshot = input("abcd", 3, Some(1), false);
    let actions = state.resolve_text_edit(
        &mut snapshot,
        &targets(),
        9,
        TextInputEditRequest::MoveLeft {
            extend_selection: false,
        },
    );
    assert_eq!(snapshot.cursor, 1);
    assert_eq!(snapshot.selection_anchor, None);
    assert_eq!(actions.len(), 2);
}

#[test]
fn move_that_changes_nothing_gives_no_actions() {
    let mut state = SemanticComputeState::new(None);
    let mut snapshot = input("ab", 0, None, false);
    let actions = state.resolve_text_edit(
        &mut snapshot,
        &targets(),
        9,
        TextInputEditRequest::MoveDocumentStart {
            extend_selection: false,
        },
    );
    assert!(actions.is_empty());
}

#[test]
fn select_all_selects_everything_and_writes_primary() {
    let mut state = SemanticComputeState::new(None);
    let mut snapshot = input("abc", 1, None, false);
    let mut source = FixedClipboard { text: None };
    let actions = state.resolve_text_command(
        &mut source,
        &mut snapshot,
        4,
        TextInputCommandRequest::SelectAll,
    );
    assert_eq!(snapshot.cursor, 3);
    assert_eq!(snapshot.selection_anchor, Some(0));
    assert_eq!(actions.len(), 3);
    assert_eq!(
        actions[2],
        ResolvedAction::ClipboardWrite {
            target: ClipboardTarget::Primary,
            text: "abc".to_string()
        }
    );
    let again = state.resolve_text_command(
        &mut source,
        &mut snapshot,
        4,
        TextInputCommandRequest::SelectAll,
    );
    assert!(again.is_empty());
}

#[test]
fn cut_then_insert_of_cut_text_restores_content() {
    let mut state = SemanticComputeState::new(None);
    let mut snapshot = input("hello", 4, Some(1), false);
    let mut source = FixedClipboard { text: None };
    state.resolve_text_command(&mut source, &mut snapshot, 1, TextInputCommandRequest::Cut);
    assert_eq!(content_of(&snapshot), "ho");
    state.resolve_text_edit(
        &mut snapshot,
        &targets(),
        1,
        TextInputEditRequest::Insert("ell".to_string()),
    );
    assert_eq!(content_of(&snapshot), "hello");
    assert_eq!(snapshot.cursor, 4);
}

#[test]
fn select_all_then_copy_copies_everything() {
    let mut state = SemanticComputeState::new(None);
    let mut snapshot = input("héllo", 2, None, false);
    let mut source = FixedClipboard { text: None };
    state.resolve_text_command(&mut source, &mut snapshot, 1, TextInputCommandRequest::SelectAll);
    let copied =
        state.resolve_text_command(&mut source, &mut snapshot, 1, TextInputCommandRequest::Copy);
    assert_eq!(
        copied,
        vec![
            ResolvedAction::ClipboardWrite {
                target: ClipboardTarget::Clipboard,
                text: "héllo".to_string()
            },
            ResolvedAction::ClipboardWrite {
                target: ClipboardTarget::Primary,
                text: "héllo".to_string()
            },
        ]
    );
}

#[test]
fn paste_reads_the_clipboard_and_paste_primary_the_primary_selection() {
    let mut source = PlatformClipboards {
        clipboard: Some("clip".to_string()),
        primary: Some("prim".to_string()),
    };
    let mut state = SemanticComputeState::new(None);
    let mut snapshot = input("", 0, None, false);
    state.resolve_text_command(&mut source, &mut snapshot, 1, TextInputCommandRequest::Paste);
    assert_eq!(content_of(&snapshot), "clip");
    let mut state = SemanticComputeState::new(None);
    let mut snapshot = input("", 0, None, false);
    state.resolve_text_command(
        &mut source,
        &mut snapshot,
        1,
        TextInputCommandRequest::PastePrimary,
    );
    assert_eq!(content_of(&snapshot), "prim");
}
