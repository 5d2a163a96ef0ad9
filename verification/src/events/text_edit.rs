//! Cursor-movement requests of a focused text input.
//!
//! A navigation key becomes an edit request only when it would change
//! something: moving the cursor, or collapsing a selection. The line-layout
//! targets (where Up, Down, Home and End would put the cursor) come from the
//! text layout and are handed in with the snapshot.
use vstd::prelude::*;

use crate::input::{InputSignal, MOD_SHIFT};

verus! {

/// Navigation keys that move the cursor of a text input.
#[derive(Clone, Copy, Debug, PartialEq, Eq, Structural)]
pub enum TextInputKeyEditKind {
    Left,
    Right,
    Up,
    Down,
    Home,
    End,
}

/// An edit asked of a text input: a cursor movement (extending the
/// selection or not), or a change of its content.
#[derive(Clone, Debug, PartialEq)]
pub enum TextInputEditRequest {
    MoveLeft { extend_selection: bool },
    MoveRight { extend_selection: bool },
    MoveWordLeft { extend_selection: bool },
    MoveWordRight { extend_selection: bool },
    MoveHome { extend_selection: bool },
    MoveEnd { extend_selection: bool },
    MoveParagraphStart { extend_selection: bool },
    MoveParagraphEnd { extend_selection: bool },
    MoveDocumentStart { extend_selection: bool },
    MoveDocumentEnd { extend_selection: bool },
    MoveUp { extend_selection: bool },
    MoveDown { extend_selection: bool },
    Backspace,
    Delete,
    DeleteWordBackward,
    DeleteWordForward,
    DeleteToHome,
    DeleteToEnd,
    DeleteToParagraphStart,
    DeleteToParagraphEnd,
    DeleteSurrounding { before_length: u32, after_length: u32 },
    Insert(String),
}

/// What a navigation decision reads of a text input: the cursor and the
/// selection anchor (in characters), the content length in characters, whether
/// the input is multiline, and the cursor targets of the line layout.
#[derive(Clone, Copy, Debug, PartialEq, Eq, Structural)]
pub struct TextKeySnapshot {
    pub cursor: u32,
    pub selection_anchor: Option<u32>,
    pub content_len: u32,
    pub multiline: bool,
    pub up_target: u32,
    pub down_target: u32,
    pub home_target: u32,
    pub end_target: u32,
}

pub open spec fn spec_has_selection(snapshot: TextKeySnapshot) -> bool {
    match snapshot.selection_anchor {
        Some(anchor) => anchor != snapshot.cursor,
        None => false,
    }
}

/// A move to `target` is worth asking for when the cursor goes somewhere, or,
/// without shift, when a selection would collapse.
pub open spec fn spec_can_move_to(snapshot: TextKeySnapshot, target: u32, extend_selection: bool) -> bool {
    if extend_selection {
        target != snapshot.cursor
    } else {
        target != snapshot.cursor || spec_has_selection(snapshot)
    }
}

/// Where a navigation key would put the cursor: one character back or
/// forward for Left and Right (staying put at either end), the layout's
/// targets for the others.
pub open spec fn key_step_target(snapshot: TextKeySnapshot, kind: TextInputKeyEditKind) -> u32 {
    match kind {
        TextInputKeyEditKind::Left => if snapshot.cursor > 0 {
            (snapshot.cursor - 1) as u32
        } else {
            snapshot.cursor
        },
        TextInputKeyEditKind::Right => if snapshot.cursor < snapshot.content_len {
            (snapshot.cursor + 1) as u32
        } else {
            snapshot.cursor
        },
        TextInputKeyEditKind::Up => snapshot.up_target,
        TextInputKeyEditKind::Down => snapshot.down_target,
        TextInputKeyEditKind::Home => snapshot.home_target,
        TextInputKeyEditKind::End => snapshot.end_target,
    }
}

/// The request that a navigation key names.
pub open spec fn key_request(kind: TextInputKeyEditKind, extend_selection: bool) -> TextInputEditRequest {
    match kind {
        TextInputKeyEditKind::Left => TextInputEditRequest::MoveLeft { extend_selection },
        TextInputKeyEditKind::Right => TextInputEditRequest::MoveRight { extend_selection },
        TextInputKeyEditKind::Up => TextInputEditRequest::MoveUp { extend_selection },
        TextInputKeyEditKind::Down => TextInputEditRequest::MoveDown { extend_selection },
        TextInputKeyEditKind::Home => TextInputEditRequest::MoveHome { extend_selection },
        TextInputKeyEditKind::End => TextInputEditRequest::MoveEnd { extend_selection },
    }
}

/// Whether the key is worth a request: Up and Down only in a multiline input
/// and only when the line changes; the others when the move changes
/// something.
pub open spec fn key_applies(snapshot: TextKeySnapshot, kind: TextInputKeyEditKind, extend_selection: bool) -> bool {
    match kind {
        TextInputKeyEditKind::Up | TextInputKeyEditKind::Down => snapshot.multiline
            && key_step_target(snapshot, kind) != snapshot.cursor,
        _ => spec_can_move_to(snapshot, key_step_target(snapshot, kind), extend_selection),
    }
}

/// The request of a navigation key event: shift extends the selection.
pub open spec fn spec_text_key_edit_request(
    snapshot: TextKeySnapshot,
    kind: TextInputKeyEditKind,
    input: InputSignal,
) -> Option<TextInputEditRequest> {
    match input {
        InputSignal::Key { mods, .. } => {
            let extend_selection = mods & MOD_SHIFT != 0;
            if key_applies(snapshot, kind, extend_selection) {
                Some(key_request(kind, extend_selection))
            } else {
                None
            }
        },
        _ => None,
    }
}

fn has_selection(snapshot: &TextKeySnapshot) -> (selected: bool)
    ensures
        selected == spec_has_selection(*snapshot),
{
    match snapshot.selection_anchor {
        Some(anchor) => anchor != snapshot.cursor,
        None => false,
    }
}

fn can_move_to(snapshot: &TextKeySnapshot, target: u32, extend_selection: bool) -> (can_move: bool)
    ensures
        can_move == spec_can_move_to(*snapshot, target, extend_selection),
{
    if extend_selection {
        target != snapshot.cursor
    } else {
        target != snapshot.cursor || has_selection(snapshot)
    }
}

/// The cursor movement that a navigation key asks of a text input, or `None`
/// where the input is no key event or the move would change nothing.
pub fn text_key_edit_request(
    snapshot: &TextKeySnapshot,
    kind: TextInputKeyEditKind,
    input: &InputSignal,
) -> (request: Option<TextInputEditRequest>)
    ensures
        request == spec_text_key_edit_request(*snapshot, kind, *input),
{
    let mods = match input {
        InputSignal::Key { mods, .. } => *mods,
        _ => {
            return None;
        },
    };
    let extend_selection = mods & MOD_SHIFT != 0;
    match kind {
        TextInputKeyEditKind::Left => {
            let can_move = if extend_selection {
                snapshot.cursor > 0
            } else {
                snapshot.cursor > 0 || has_selection(snapshot)
            };
            if can_move {
                Some(TextInputEditRequest::MoveLeft { extend_selection })
            } else {
                None
            }
        },
        TextInputKeyEditKind::Right => {
            let can_move = if extend_selection {
                snapshot.cursor < snapshot.content_len
            } else {
                snapshot.cursor < snapshot.content_len || has_selection(snapshot)
            };
            if can_move {
                Some(TextInputEditRequest::MoveRight { extend_selection })
            } else {
                None
            }
        },
        TextInputKeyEditKind::Up => {
            if snapshot.multiline && snapshot.up_target != snapshot.cursor {
                Some(TextInputEditRequest::MoveUp { extend_selection })
            } else {
                None
            }
        },
        TextInputKeyEditKind::Down => {
            if snapshot.multiline && snapshot.down_target != snapshot.cursor {
                Some(TextInputEditRequest::MoveDown { extend_selection })
            } else {
                None
            }
        },
        TextInputKeyEditKind::Home => {
            if can_move_to(snapshot, snapshot.home_target, extend_selection) {
                Some(TextInputEditRequest::MoveHome { extend_selection })
            } else {
                None
            }
        },
        TextInputKeyEditKind::End => {
            if can_move_to(snapshot, snapshot.end_target, extend_selection) {
                Some(TextInputEditRequest::MoveEnd { extend_selection })
            } else {
                None
            }
        },
    }
}

/// Where a Left move puts the cursor: without shift, a selection collapses to
/// its start; otherwise the cursor steps back one character, stopping at 0.
pub fn move_left_cursor_target(cursor: u32, selected_range: Option<(u32, u32)>, extend_selection: bool) -> (target: u32)
    ensures
        target == (if !extend_selection && selected_range is Some {
            selected_range.unwrap().0 as int
        } else if cursor == 0 {
            0
        } else {
            cursor - 1
        }),
{
    if !extend_selection {
        if let Some((start, _)) = selected_range {
            return start;
        }
    }
    cursor.saturating_sub(1)
}

/// Where a Right move puts the cursor: without shift, a selection collapses to
/// its end; otherwise the cursor steps forward one character, stopping at the
/// content length.
pub fn move_right_cursor_target(
    cursor: u32,
    content_len: u32,
    selected_range: Option<(u32, u32)>,
    extend_selection: bool,
) -> (target: u32)
    ensures
        target == (if !extend_selection && selected_range is Some {
            selected_range.unwrap().1 as int
        } else if cursor + 1 <= content_len {
            cursor + 1
        } else {
            content_len as int
        }),
{
    if !extend_selection {
        if let Some((_, end)) = selected_range {
            return end;
        }
    }
    if cursor < content_len {
        cursor + 1
    } else {
        content_len
    }
}

/// A key that asks for a move never asks for one that leaves the cursor where
/// it is with nothing selected.
pub proof fn law_requested_moves_change_something(
    snapshot: TextKeySnapshot,
    kind: TextInputKeyEditKind,
    input: InputSignal,
)
    requires
        spec_text_key_edit_request(snapshot, kind, input) is Some,
        !spec_has_selection(snapshot),
    ensures
        match kind {
            TextInputKeyEditKind::Left => snapshot.cursor > 0,
            TextInputKeyEditKind::Right => snapshot.cursor < snapshot.content_len,
            TextInputKeyEditKind::Up => snapshot.up_target != snapshot.cursor,
            TextInputKeyEditKind::Down => snapshot.down_target != snapshot.cursor,
            TextInputKeyEditKind::Home => snapshot.home_target != snapshot.cursor,
            TextInputKeyEditKind::End => snapshot.end_target != snapshot.cursor,
        },
{
}

} // verus!
