//! Resolution of text-input edits and commands against a snapshot of the
//! input.
//!
//! Positions are counted in characters. A move sets the cursor (keeping or
//! starting a selection when it extends one) and clears any preedit; a
//! content edit replaces the content, puts the cursor after the edit and
//! clears the selection and the preedit. Where the cursor lands for word,
//! line and paragraph moves is decided by the text layout and handed in.
use vstd::prelude::*;

use crate::events::contributors::ElementEventKind;
use crate::events::registry_builder::NodeId;
use crate::events::semantic::{
    action_model, actions_model, text_view, written, ActionModel, ClipboardSource, ClipboardTarget,
    ResolvedAction, SemanticComputeState,
};
use crate::events::text_edit::TextInputEditRequest;
use crate::text::{multiline_chars, push_char, sanitize_text_input_text, single_line_chars};

verus! {

/// The state of a text input as one dispatch sees it.
#[derive(Clone, Debug, PartialEq)]
pub struct TextInputSnapshot {
    pub content: Vec<char>,
    pub cursor: u32,
    pub selection_anchor: Option<u32>,
    pub preedit: Option<String>,
    pub preedit_cursor: Option<(u32, u32)>,
    pub focused: bool,
    pub emit_change: bool,
    pub multiline: bool,
}

/// A text input's state with its texts taken as character sequences.
pub struct TextInputModel {
    pub content: Seq<char>,
    pub cursor: u32,
    pub selection_anchor: Option<u32>,
    pub preedit: Option<Seq<char>>,
    pub preedit_cursor: Option<(u32, u32)>,
    pub focused: bool,
    pub emit_change: bool,
    pub multiline: bool,
}

impl View for TextInputSnapshot {
    type V = TextInputModel;

    open spec fn view(&self) -> TextInputModel {
        TextInputModel {
            content: self.content@,
            cursor: self.cursor,
            selection_anchor: self.selection_anchor,
            preedit: text_view(self.preedit),
            preedit_cursor: self.preedit_cursor,
            focused: self.focused,
            emit_change: self.emit_change,
            multiline: self.multiline,
        }
    }
}

/// Where the text layout puts the cursor for the moves that depend on it.
#[derive(Clone, Copy, Debug, PartialEq, Eq, Structural)]
pub struct TextLayoutTargets {
    pub word_left: u32,
    pub word_right: u32,
    pub home: u32,
    pub end: u32,
    pub paragraph_start: u32,
    pub paragraph_end: u32,
    pub up: u32,
    pub down: u32,
}

/// The commands of a text input that work with the clipboards.
#[derive(Clone, Copy, Debug, PartialEq, Eq, Structural)]
pub enum TextInputCommandRequest {
    SelectAll,
    Copy,
    Cut,
    Paste,
    PastePrimary,
}

/// A well-formed input: the content fits `u32` positions, and the cursor and
/// the anchor lie within it.
pub open spec fn text_input_wf(m: TextInputModel) -> bool {
    &&& m.content.len() <= u32::MAX
    &&& m.cursor <= m.content.len()
    &&& (m.selection_anchor matches Some(a) ==> a <= m.content.len())
}

/// The selected range, lowest position first; `None` when nothing is
/// selected.
pub open spec fn spec_selected_range(m: TextInputModel) -> Option<(u32, u32)> {
    match m.selection_anchor {
        Some(a) => if a < m.cursor {
            Some((a, m.cursor))
        } else if m.cursor < a {
            Some((m.cursor, a))
        } else {
            None
        },
        None => None,
    }
}

/// The selected text, if anything is selected.
pub open spec fn spec_selection_text(m: TextInputModel) -> Option<Seq<char>> {
    match spec_selected_range(m) {
        Some((lo, hi)) => Some(m.content.subrange(lo as int, hi as int)),
        None => None,
    }
}

/// The input after moving the cursor to `next` (clamped to the content):
/// an extending move keeps the anchor, or starts one at the old cursor; any
/// other move drops it. The preedit is cleared.
pub open spec fn spec_moved(m: TextInputModel, next: u32, extend_selection: bool) -> TextInputModel {
    TextInputModel {
        cursor: if next <= m.content.len() {
            next
        } else {
            m.content.len() as u32
        },
        selection_anchor: if extend_selection {
            match m.selection_anchor {
                Some(a) => Some(a),
                None => Some(m.cursor),
            }
        } else {
            None
        },
        preedit: None,
        preedit_cursor: None,
        ..m
    }
}

/// The input after a content edit to `content` with the cursor at
/// `cursor`: no selection and no preedit.
pub open spec fn spec_with_content(m: TextInputModel, content: Seq<char>, cursor: u32) -> TextInputModel {
    TextInputModel {
        content,
        cursor,
        selection_anchor: None,
        preedit: None,
        preedit_cursor: None,
        ..m
    }
}

/// `content` with the characters in `lo..hi` replaced by `text`.
pub open spec fn spliced(content: Seq<char>, lo: int, hi: int, text: Seq<char>) -> Seq<char> {
    content.subrange(0, lo) + text + content.subrange(hi, content.len() as int)
}

/// Inserting `text`: it replaces the selection, or goes in at the cursor,
/// and the cursor follows it. Nothing happens when there is nothing to
/// insert and nothing to replace, or when the result would not fit `u32`
/// positions.
pub open spec fn spec_insert(m: TextInputModel, text: Seq<char>) -> Option<(Seq<char>, u32)> {
    let (lo, hi) = match spec_selected_range(m) {
        Some(r) => r,
        None => (m.cursor, m.cursor),
    };
    if text.len() == 0 && lo == hi {
        None
    } else if m.content.len() - (hi - lo) + text.len() > u32::MAX {
        None
    } else {
        Some((spliced(m.content, lo as int, hi as int, text), (lo + text.len()) as u32))
    }
}

/// Removing text: the selection if there is one, else the characters in
/// `lo..hi`; nothing when that range is empty. The cursor goes to the start
/// of what was removed.
pub open spec fn spec_remove(m: TextInputModel, lo: u32, hi: u32) -> Option<(Seq<char>, u32)> {
    match spec_selected_range(m) {
        Some((s, e)) => Some((spliced(m.content, s as int, e as int, Seq::empty()), s)),
        None => if lo < hi {
            Some((spliced(m.content, lo as int, hi as int, Seq::empty()), lo))
        } else {
            None
        },
    }
}

/// The position `target` clamped to the content.
pub open spec fn clamped(m: TextInputModel, target: u32) -> u32 {
    if target <= m.content.len() {
        target
    } else {
        m.content.len() as u32
    }
}

/// Removing between the cursor and `target`.
pub open spec fn spec_remove_to(m: TextInputModel, target: u32) -> Option<(Seq<char>, u32)> {
    let t = clamped(m, target);
    if t < m.cursor {
        spec_remove(m, t, m.cursor)
    } else {
        spec_remove(m, m.cursor, t)
    }
}

/// Removing `before` characters before the cursor and `after` after it,
/// whatever is selected; nothing when that range is empty.
pub open spec fn spec_remove_surrounding(m: TextInputModel, before: u32, after: u32) -> Option<
    (Seq<char>, u32),
> {
    let lo: u32 = if before <= m.cursor {
        (m.cursor - before) as u32
    } else {
        0
    };
    let hi: u32 = if m.cursor + after <= m.content.len() {
        (m.cursor + after) as u32
    } else {
        m.content.len() as u32
    };
    if lo < hi {
        Some((spliced(m.content, lo as int, hi as int, Seq::empty()), lo))
    } else {
        None
    }
}

/// A copy of `chars`.
fn copy_chars(chars: &Vec<char>) -> (copy: Vec<char>)
    ensures
        copy@ == chars@,
{
    let mut copy: Vec<char> = Vec::new();
    let mut i: usize = 0;
    while i < chars.len()
        invariant
            i <= chars.len(),
            copy@ == chars@.subrange(0, i as int),
        decreases chars.len() - i,
    {
        copy.push(chars[i]);
        i = i + 1;
        assert(copy@ =~= chars@.subrange(0, i as int));
    }
    assert(chars@.subrange(0, chars.len() as int) =~= chars@);
    copy
}

/// The characters `lo..hi` of `chars` as a `String`.
pub fn string_of_range(chars: &Vec<char>, lo: usize, hi: usize) -> (s: String)
    requires
        lo <= hi <= chars.len(),
    ensures
        s@ == chars@.subrange(lo as int, hi as int),
{
    let mut s = String::new();
    let mut i: usize = lo;
    while i < hi
        invariant
            lo <= i <= hi <= chars.len(),
            s@ == chars@.subrange(lo as int, i as int),
        decreases hi - i,
    {
        push_char(&mut s, chars[i]);
        i = i + 1;
        assert(s@ =~= chars@.subrange(lo as int, i as int));
    }
    s
}

/// The characters of `text`.
pub fn chars_of(text: &str) -> (chars: Vec<char>)
    ensures
        chars@ == text@,
{
    let n = text.unicode_len();
    let mut chars: Vec<char> = Vec::new();
    let mut i: usize = 0;
    while i < n
        invariant
            n == text@.len(),
            i <= n,
            chars@ == text@.subrange(0, i as int),
        decreases n - i,
    {
        chars.push(text.get_char(i));
        i = i + 1;
        assert(chars@ =~= text@.subrange(0, i as int));
    }
    assert(text@.subrange(0, n as int) =~= text@);
    chars
}

/// A copy of `snapshot`.
pub fn copy_snapshot(snapshot: &TextInputSnapshot) -> (copy: TextInputSnapshot)
    ensures
        copy@ == snapshot@,
{
    TextInputSnapshot {
        content: copy_chars(&snapshot.content),
        cursor: snapshot.cursor,
        selection_anchor: snapshot.selection_anchor,
        preedit: match &snapshot.preedit {
            Some(p) => Some(p.clone()),
            None => None,
        },
        preedit_cursor: snapshot.preedit_cursor,
        focused: snapshot.focused,
        emit_change: snapshot.emit_change,
        multiline: snapshot.multiline,
    }
}

/// The model of an edit's outcome.
pub open spec fn edit_view(edit: Option<(Vec<char>, u32)>) -> Option<(Seq<char>, u32)> {
    match edit {
        Some((content, cursor)) => Some((content@, cursor)),
        None => None,
    }
}

/// An edit's outcome fits: the content fits `u32` positions and the cursor
/// lies within it.
pub open spec fn edit_fits(edit: Option<(Seq<char>, u32)>) -> bool {
    edit matches Some((content, cursor)) ==> content.len() <= u32::MAX && cursor <= content.len()
}

/// The selected range of `snapshot`.
pub fn selected_range(snapshot: &TextInputSnapshot) -> (range: Option<(u32, u32)>)
    ensures
        range == spec_selected_range(snapshot@),
{
    match snapshot.selection_anchor {
        Some(a) => if a < snapshot.cursor {
            Some((a, snapshot.cursor))
        } else if snapshot.cursor < a {
            Some((snapshot.cursor, a))
        } else {
            None
        },
        None => None,
    }
}

/// The selected text of `snapshot`.
pub fn selection_text(snapshot: &TextInputSnapshot) -> (text: Option<String>)
    requires
        text_input_wf(snapshot@),
    ensures
        text_view(text) == spec_selection_text(snapshot@),
{
    match selected_range(snapshot) {
        Some((lo, hi)) => Some(string_of_range(&snapshot.content, lo as usize, hi as usize)),
        None => None,
    }
}

/// Moves the cursor of `snapshot` to `next`; whether anything changed.
pub fn move_cursor(snapshot: &mut TextInputSnapshot, next: u32, extend_selection: bool) -> (changed: bool)
    requires
        text_input_wf(old(snapshot)@),
    ensures
        final(snapshot)@ == spec_moved(old(snapshot)@, next, extend_selection),
        changed == (final(snapshot)@ != old(snapshot)@),
        text_input_wf(final(snapshot)@),
{
    let len = snapshot.content.len();
    let target: u32 = if (next as usize) <= len {
        next
    } else {
        len as u32
    };
    let anchor = if extend_selection {
        match snapshot.selection_anchor {
            Some(a) => Some(a),
            None => Some(snapshot.cursor),
        }
    } else {
        None
    };
    let changed = target != snapshot.cursor || anchor != snapshot.selection_anchor
        || snapshot.preedit.is_some() || snapshot.preedit_cursor.is_some();
    snapshot.cursor = target;
    snapshot.selection_anchor = anchor;
    snapshot.preedit = None;
    snapshot.preedit_cursor = None;
    changed
}

/// Replaces the content of `snapshot`, with the cursor at `cursor`.
pub fn apply_content_change(snapshot: &mut TextInputSnapshot, content: Vec<char>, cursor: u32)
    ensures
        final(snapshot)@ == spec_with_content(old(snapshot)@, content@, cursor),
{
    snapshot.content = content;
    snapshot.cursor = cursor;
    snapshot.selection_anchor = None;
    snapshot.preedit = None;
    snapshot.preedit_cursor = None;
}

/// `content` with `lo..hi` replaced by `text`.
pub fn splice(content: &Vec<char>, lo: usize, hi: usize, text: &Vec<char>) -> (out: Vec<char>)
    requires
        lo <= hi <= content.len(),
    ensures
        out@ == spliced(content@, lo as int, hi as int, text@),
        out@.len() == lo + text@.len() + (content@.len() - hi),
{
    let mut out: Vec<char> = Vec::new();
    let mut i: usize = 0;
    while i < lo
        invariant
            i <= lo <= hi <= content.len(),
            out@ == content@.subrange(0, i as int),
        decreases lo - i,
    {
        out.push(content[i]);
        i = i + 1;
        assert(out@ =~= content@.subrange(0, i as int));
    }
    let mut j: usize = 0;
    while j < text.len()
        invariant
            lo <= hi <= content.len(),
            j <= text.len(),
            out@ == content@.subrange(0, lo as int) + text@.subrange(0, j as int),
        decreases text.len() - j,
    {
        out.push(text[j]);
        j = j + 1;
        assert(out@ =~= content@.subrange(0, lo as int) + text@.subrange(0, j as int));
    }
    assert(text@.subrange(0, text.len() as int) =~= text@);
    let mut k: usize = hi;
    while k < content.len()
        invariant
            lo <= hi <= k <= content.len(),
            out@ == content@.subrange(0, lo as int) + text@ + content@.subrange(hi as int, k as int),
        decreases content.len() - k,
    {
        out.push(content[k]);
        k = k + 1;
        assert(out@ =~= content@.subrange(0, lo as int) + text@ + content@.subrange(hi as int, k as int));
    }
    out
}

/// Inserting `text` into `snapshot`'s content.
pub fn insert_edit(snapshot: &TextInputSnapshot, text: &Vec<char>) -> (edit: Option<(Vec<char>, u32)>)
    requires
        text_input_wf(snapshot@),
    ensures
        edit_view(edit) == spec_insert(snapshot@, text@),
        edit_fits(edit_view(edit)),
{
    let (lo, hi) = match selected_range(snapshot) {
        Some(r) => r,
        None => (snapshot.cursor, snapshot.cursor),
    };
    if text.len() == 0 && lo == hi {
        return None;
    }
    let kept = snapshot.content.len() - ((hi - lo) as usize);
    if text.len() > (u32::MAX as usize) - kept {
        return None;
    }
    let content = splice(&snapshot.content, lo as usize, hi as usize, text);
    Some((content, (lo as usize + text.len()) as u32))
}

/// Removing the selection, or else `lo..hi`, from `snapshot`'s content.
pub fn remove_edit(snapshot: &TextInputSnapshot, lo: u32, hi: u32) -> (edit: Option<(Vec<char>, u32)>)
    requires
        text_input_wf(snapshot@),
        hi <= snapshot@.content.len(),
    ensures
        edit_view(edit) == spec_remove(snapshot@, lo, hi),
        edit_fits(edit_view(edit)),
{
    let empty: Vec<char> = Vec::new();
    match selected_range(snapshot) {
        Some((s, e)) => Some((splice(&snapshot.content, s as usize, e as usize, &empty), s)),
        None => if lo < hi {
            Some((splice(&snapshot.content, lo as usize, hi as usize, &empty), lo))
        } else {
            None
        },
    }
}

/// Removing between the cursor and `target` from `snapshot`'s content.
pub fn remove_to_edit(snapshot: &TextInputSnapshot, target: u32) -> (edit: Option<(Vec<char>, u32)>)
    requires
        text_input_wf(snapshot@),
    ensures
        edit_view(edit) == spec_remove_to(snapshot@, target),
        edit_fits(edit_view(edit)),
{
    let len = snapshot.content.len();
    let t: u32 = if (target as usize) <= len {
        target
    } else {
        len as u32
    };
    if t < snapshot.cursor {
        remove_edit(snapshot, t, snapshot.cursor)
    } else {
        remove_edit(snapshot, snapshot.cursor, t)
    }
}

/// Removing `before` characters before the cursor and `after` after it.
pub fn remove_surrounding_edit(snapshot: &TextInputSnapshot, before: u32, after: u32) -> (edit: Option<
    (Vec<char>, u32),
>)
    requires
        text_input_wf(snapshot@),
    ensures
        edit_view(edit) == spec_remove_surrounding(snapshot@, before, after),
        edit_fits(edit_view(edit)),
{
    let len = snapshot.content.len();
    let lo: u32 = if before <= snapshot.cursor {
        snapshot.cursor - before
    } else {
        0
    };
    let hi: u32 = if (snapshot.cursor as u64) + (after as u64) <= (len as u64) {
        snapshot.cursor + after
    } else {
        len as u32
    };
    if lo < hi {
        let empty: Vec<char> = Vec::new();
        Some((splice(&snapshot.content, lo as usize, hi as usize, &empty), lo))
    } else {
        None
    }
}

/// The tree update that sets an input's runtime state to `m`'s.
pub open spec fn runtime_model(element_id: NodeId, m: TextInputModel) -> ActionModel {
    ActionModel::SetTextInputRuntime {
        element_id,
        focused: m.focused,
        cursor: m.cursor,
        selection_anchor: m.selection_anchor,
        preedit: m.preedit,
        preedit_cursor: m.preedit_cursor,
    }
}

/// The actions of a runtime-only change to `m`: the tree update, then the
/// mirror of the whole state.
pub open spec fn spec_runtime_actions(element_id: NodeId, m: TextInputModel) -> Seq<ActionModel> {
    seq![runtime_model(element_id, m), ActionModel::SetTextInputState { element_id, state: m }]
}

/// The actions of a content change to `m`: the new content, the runtime
/// state, and, for an input that emits changes, the expected patch and the
/// change event; then the mirror of the whole state.
pub open spec fn spec_content_actions(element_id: NodeId, m: TextInputModel) -> Seq<ActionModel> {
    seq![
        ActionModel::SetTextInputContent { element_id, content: m.content },
        runtime_model(element_id, m),
    ] + (if m.emit_change {
        seq![
            ActionModel::ExpectTextInputPatchValue { element_id, content: m.content },
            ActionModel::ElixirChangeEvent { element_id, value: m.content },
        ]
    } else {
        Seq::empty()
    }) + seq![ActionModel::SetTextInputState { element_id, state: m }]
}

/// The write of `text` to the primary selection, when there is non-empty
/// text.
pub open spec fn primary_write(text: Option<Seq<char>>) -> Seq<ActionModel> {
    match text {
        Some(t) => if t.len() > 0 {
            seq![ActionModel::ClipboardWrite { target: ClipboardTarget::Primary, text: t }]
        } else {
            Seq::empty()
        },
        None => Seq::empty(),
    }
}

/// What a clipboard holds after a write of `text`, if there is non-empty
/// text to write.
pub open spec fn cache_after_write(before: Option<Option<Seq<char>>>, text: Option<Seq<char>>) -> Option<
    Option<Seq<char>>,
> {
    match text {
        Some(t) => if t.len() > 0 {
            Some(Some(t))
        } else {
            before
        },
        None => before,
    }
}

fn runtime_tree_action(element_id: NodeId, snapshot: &TextInputSnapshot) -> (action: ResolvedAction)
    ensures
        action_model(action) == runtime_model(element_id, snapshot@),
{
    ResolvedAction::SetTextInputRuntime {
        element_id,
        focused: snapshot.focused,
        cursor: snapshot.cursor,
        selection_anchor: snapshot.selection_anchor,
        preedit: match &snapshot.preedit {
            Some(p) => Some(p.clone()),
            None => None,
        },
        preedit_cursor: snapshot.preedit_cursor,
    }
}

/// The actions of a runtime-only change to `snapshot`.
pub fn runtime_actions(element_id: NodeId, snapshot: &TextInputSnapshot) -> (actions: Vec<ResolvedAction>)
    ensures
        actions_model(actions@) == spec_runtime_actions(element_id, snapshot@),
{
    let mut actions = Vec::new();
    actions.push(runtime_tree_action(element_id, snapshot));
    actions.push(ResolvedAction::SetTextInputState { element_id, state: copy_snapshot(snapshot) });
    assert(actions_model(actions@) =~= spec_runtime_actions(element_id, snapshot@));
    actions
}

/// The actions of a content change to `snapshot`.
pub fn content_actions(element_id: NodeId, snapshot: &TextInputSnapshot) -> (actions: Vec<ResolvedAction>)
    requires
        snapshot@.content.len() <= usize::MAX,
    ensures
        actions_model(actions@) == spec_content_actions(element_id, snapshot@),
{
    let len = snapshot.content.len();
    let mut actions = Vec::new();
    actions.push(
        ResolvedAction::SetTextInputContent {
            element_id,
            content: string_of_range(&snapshot.content, 0, len),
        },
    );
    actions.push(runtime_tree_action(element_id, snapshot));
    if snapshot.emit_change {
        actions.push(
            ResolvedAction::ExpectTextInputPatchValue {
                element_id,
                content: string_of_range(&snapshot.content, 0, len),
            },
        );
        actions.push(
            ResolvedAction::ElixirChangeEvent {
                element_id,
                value: string_of_range(&snapshot.content, 0, len),
            },
        );
    }
    actions.push(ResolvedAction::SetTextInputState { element_id, state: copy_snapshot(snapshot) });
    assert(snapshot@.content.subrange(0, len as int) =~= snapshot@.content);
    assert(actions_model(actions@) =~= spec_content_actions(element_id, snapshot@));
    actions
}

/// Without extending, a selection collapses to its start (`to_start`) or
/// end; otherwise the cursor goes to `otherwise`.
pub open spec fn collapse_or(m: TextInputModel, extend_selection: bool, to_start: bool, otherwise: u32) -> u32 {
    match spec_selected_range(m) {
        Some((lo, hi)) if !extend_selection => if to_start {
            lo
        } else {
            hi
        },
        _ => otherwise,
    }
}

/// Where a move request puts the cursor, and whether it extends the
/// selection; `None` for the requests that edit the content.
pub open spec fn spec_move_target(m: TextInputModel, t: TextLayoutTargets, request: TextInputEditRequest) -> Option<
    (u32, bool),
> {
    match request {
        TextInputEditRequest::MoveLeft { extend_selection: e } => Some(
            (
                collapse_or(
                    m,
                    e,
                    true,
                    if m.cursor > 0 {
                        (m.cursor - 1) as u32
                    } else {
                        0
                    },
                ),
                e,
            ),
        ),
        TextInputEditRequest::MoveRight { extend_selection: e } => Some(
            (
                collapse_or(
                    m,
                    e,
                    false,
                    if m.cursor < m.content.len() {
                        (m.cursor + 1) as u32
                    } else {
                        m.content.len() as u32
                    },
                ),
                e,
            ),
        ),
        TextInputEditRequest::MoveWordLeft { extend_selection: e } => Some(
            (collapse_or(m, e, true, t.word_left), e),
        ),
        TextInputEditRequest::MoveWordRight { extend_selection: e } => Some(
            (collapse_or(m, e, false, t.word_right), e),
        ),
        TextInputEditRequest::MoveHome { extend_selection: e } => Some((t.home, e)),
        TextInputEditRequest::MoveEnd { extend_selection: e } => Some((t.end, e)),
        TextInputEditRequest::MoveParagraphStart { extend_selection: e } => Some((t.paragraph_start, e)),
        TextInputEditRequest::MoveParagraphEnd { extend_selection: e } => Some((t.paragraph_end, e)),
        TextInputEditRequest::MoveDocumentStart { extend_selection: e } => Some((0, e)),
        TextInputEditRequest::MoveDocumentEnd { extend_selection: e } => Some((m.content.len() as u32, e)),
        TextInputEditRequest::MoveUp { extend_selection: e } => Some((t.up, e)),
        TextInputEditRequest::MoveDown { extend_selection: e } => Some((t.down, e)),
        _ => None,
    }
}

/// The new content and cursor of a content request; `None` when it changes
/// nothing, and for the move requests.
pub open spec fn spec_content_edit(m: TextInputModel, t: TextLayoutTargets, request: TextInputEditRequest) -> Option<
    (Seq<char>, u32),
> {
    match request {
        TextInputEditRequest::Backspace => spec_remove(
            m,
            if m.cursor > 0 {
                (m.cursor - 1) as u32
            } else {
                0
            },
            m.cursor,
        ),
        TextInputEditRequest::Delete => spec_remove(
            m,
            m.cursor,
            if m.cursor < m.content.len() {
                (m.cursor + 1) as u32
            } else {
                m.cursor
            },
        ),
        TextInputEditRequest::DeleteWordBackward => spec_remove_to(m, t.word_left),
        TextInputEditRequest::DeleteWordForward => spec_remove_to(m, t.word_right),
        TextInputEditRequest::DeleteToHome => spec_remove_to(m, t.home),
        TextInputEditRequest::DeleteToEnd => spec_remove_to(m, t.end),
        TextInputEditRequest::DeleteToParagraphStart => spec_remove_to(m, t.paragraph_start),
        TextInputEditRequest::DeleteToParagraphEnd => spec_remove_to(m, t.paragraph_end),
        TextInputEditRequest::DeleteSurrounding { before_length, after_length } =>
            spec_remove_surrounding(m, before_length, after_length),
        TextInputEditRequest::Insert(text) => spec_insert(m, text@),
        _ => None,
    }
}

/// The input after an edit request.
pub open spec fn spec_edited(m: TextInputModel, t: TextLayoutTargets, request: TextInputEditRequest) -> TextInputModel {
    match spec_move_target(m, t, request) {
        Some((next, e)) => spec_moved(m, next, e),
        None => match spec_content_edit(m, t, request) {
            Some((content, cursor)) => spec_with_content(m, content, cursor),
            None => m,
        },
    }
}

/// The text an edit request writes to the primary selection: the selection
/// that an extending move that changed something leaves.
pub open spec fn spec_edit_primary(m: TextInputModel, t: TextLayoutTargets, request: TextInputEditRequest) -> Option<
    Seq<char>,
> {
    match spec_move_target(m, t, request) {
        Some((next, e)) => if e && spec_moved(m, next, e) != m {
            spec_selection_text(spec_moved(m, next, e))
        } else {
            None
        },
        None => None,
    }
}

/// The actions of an edit request: for a move that changed something, the
/// runtime actions and the primary-selection write; for a content edit, the
/// content-change actions; nothing otherwise.
pub open spec fn spec_edit_actions(
    element_id: NodeId,
    m: TextInputModel,
    t: TextLayoutTargets,
    request: TextInputEditRequest,
) -> Seq<ActionModel> {
    match spec_move_target(m, t, request) {
        Some((next, e)) => if spec_moved(m, next, e) == m {
            Seq::empty()
        } else {
            spec_runtime_actions(element_id, spec_moved(m, next, e)) + primary_write(
                spec_edit_primary(m, t, request),
            )
        },
        None => match spec_content_edit(m, t, request) {
            Some((content, cursor)) => spec_content_actions(
                element_id,
                spec_with_content(m, content, cursor),
            ),
            None => Seq::empty(),
        },
    }
}

fn collapse_target(snapshot: &TextInputSnapshot, extend_selection: bool, to_start: bool, otherwise: u32) -> (target: u32)
    ensures
        target == collapse_or(snapshot@, extend_selection, to_start, otherwise),
{
    match selected_range(snapshot) {
        Some((lo, hi)) => if !extend_selection {
            if to_start {
                lo
            } else {
                hi
            }
        } else {
            otherwise
        },
        None => otherwise,
    }
}

fn move_target(snapshot: &TextInputSnapshot, t: &TextLayoutTargets, request: &TextInputEditRequest) -> (target: Option<
    (u32, bool),
>)
    requires
        text_input_wf(snapshot@),
    ensures
        target == spec_move_target(snapshot@, *t, *request),
{
    let len = snapshot.content.len() as u32;
    let cursor = snapshot.cursor;
    match request {
        TextInputEditRequest::MoveLeft { extend_selection } => {
            let back = if cursor > 0 {
                cursor - 1
            } else {
                0
            };
            Some((collapse_target(snapshot, *extend_selection, true, back), *extend_selection))
        },
        TextInputEditRequest::MoveRight { extend_selection } => {
            let forward = if cursor < len {
                cursor + 1
            } else {
                len
            };
            Some((collapse_target(snapshot, *extend_selection, false, forward), *extend_selection))
        },
        TextInputEditRequest::MoveWordLeft { extend_selection } => Some(
            (collapse_target(snapshot, *extend_selection, true, t.word_left), *extend_selection),
        ),
        TextInputEditRequest::MoveWordRight { extend_selection } => Some(
            (collapse_target(snapshot, *extend_selection, false, t.word_right), *extend_selection),
        ),
        TextInputEditRequest::MoveHome { extend_selection } => Some((t.home, *extend_selection)),
        TextInputEditRequest::MoveEnd { extend_selection } => Some((t.end, *extend_selection)),
        TextInputEditRequest::MoveParagraphStart { extend_selection } => Some(
            (t.paragraph_start, *extend_selection),
        ),
        TextInputEditRequest::MoveParagraphEnd { extend_selection } => Some(
            (t.paragraph_end, *extend_selection),
        ),
        TextInputEditRequest::MoveDocumentStart { extend_selection } => Some((0, *extend_selection)),
        TextInputEditRequest::MoveDocumentEnd { extend_selection } => Some((len, *extend_selection)),
        TextInputEditRequest::MoveUp { extend_selection } => Some((t.up, *extend_selection)),
        TextInputEditRequest::MoveDown { extend_selection } => Some((t.down, *extend_selection)),
        _ => None,
    }
}

fn content_edit(snapshot: &TextInputSnapshot, t: &TextLayoutTargets, request: &TextInputEditRequest) -> (edit: Option<
    (Vec<char>, u32),
>)
    requires
        text_input_wf(snapshot@),
    ensures
        edit_view(edit) == spec_content_edit(snapshot@, *t, *request),
        edit_fits(edit_view(edit)),
{
    let len = snapshot.content.len() as u32;
    let cursor = snapshot.cursor;
    match request {
        TextInputEditRequest::Backspace => {
            let back = if cursor > 0 {
                cursor - 1
            } else {
                0
            };
            remove_edit(snapshot, back, cursor)
        },
        TextInputEditRequest::Delete => {
            let forward = if cursor < len {
                cursor + 1
            } else {
                cursor
            };
            remove_edit(snapshot, cursor, forward)
        },
        TextInputEditRequest::DeleteWordBackward => remove_to_edit(snapshot, t.word_left),
        TextInputEditRequest::DeleteWordForward => remove_to_edit(snapshot, t.word_right),
        TextInputEditRequest::DeleteToHome => remove_to_edit(snapshot, t.home),
        TextInputEditRequest::DeleteToEnd => remove_to_edit(snapshot, t.end),
        TextInputEditRequest::DeleteToParagraphStart => remove_to_edit(snapshot, t.paragraph_start),
        TextInputEditRequest::DeleteToParagraphEnd => remove_to_edit(snapshot, t.paragraph_end),
        TextInputEditRequest::DeleteSurrounding { before_length, after_length } =>
            remove_surrounding_edit(snapshot, *before_length, *after_length),
        TextInputEditRequest::Insert(text) => insert_edit(snapshot, &chars_of(text.as_str())),
        _ => None,
    }
}

impl SemanticComputeState {
    /// Resolves an edit request against `snapshot`, which the edit updates:
    /// see `spec_edited` for the new state and `spec_edit_actions` for the
    /// actions. An extending move also writes the new selection to the
    /// primary selection.
    pub fn resolve_text_edit(
        &mut self,
        snapshot: &mut TextInputSnapshot,
        targets: &TextLayoutTargets,
        element_id: NodeId,
        request: TextInputEditRequest,
    ) -> (actions: Vec<ResolvedAction>)
        requires
            text_input_wf(old(snapshot)@),
        ensures
            final(snapshot)@ == spec_edited(old(snapshot)@, *targets, request),
            text_input_wf(final(snapshot)@),
            actions_model(actions@) == spec_edit_actions(element_id, old(snapshot)@, *targets, request),
            final(self).focused_id == old(self).focused_id,
            final(self).cached(ClipboardTarget::Clipboard) == old(self).cached(ClipboardTarget::Clipboard),
            final(self).cached(ClipboardTarget::Primary) == cache_after_write(
                old(self).cached(ClipboardTarget::Primary),
                spec_edit_primary(old(snapshot)@, *targets, request),
            ),
    {
        match move_target(snapshot, targets, &request) {
            Some((next, extend_selection)) => self.resolve_move(snapshot, element_id, next, extend_selection),
            None => {
                let edit = content_edit(snapshot, targets, &request);
                resolve_content_edit(snapshot, element_id, edit)
            },
        }
    }

    fn resolve_move(&mut self, snapshot: &mut TextInputSnapshot, element_id: NodeId, next: u32, extend_selection: bool) -> (actions:
        Vec<ResolvedAction>)
        requires
            text_input_wf(old(snapshot)@),
        ensures
            final(snapshot)@ == spec_moved(old(snapshot)@, next, extend_selection),
            text_input_wf(final(snapshot)@),
            actions_model(actions@) == (if spec_moved(old(snapshot)@, next, extend_selection) == old(snapshot)@ {
                Seq::empty()
            } else {
                spec_runtime_actions(element_id, spec_moved(old(snapshot)@, next, extend_selection))
                    + primary_write(
                    if extend_selection {
                        spec_selection_text(spec_moved(old(snapshot)@, next, extend_selection))
                    } else {
                        None
                    },
                )
            }),
            final(self).focused_id == old(self).focused_id,
            final(self).cached(ClipboardTarget::Clipboard) == old(self).cached(ClipboardTarget::Clipboard),
            final(self).cached(ClipboardTarget::Primary) == (if spec_moved(old(snapshot)@, next, extend_selection)
                == old(snapshot)@ {
                old(self).cached(ClipboardTarget::Primary)
            } else {
                cache_after_write(
                    old(self).cached(ClipboardTarget::Primary),
                    if extend_selection {
                        spec_selection_text(spec_moved(old(snapshot)@, next, extend_selection))
                    } else {
                        None
                    },
                )
            }),
    {
        let changed = move_cursor(snapshot, next, extend_selection);
        if !changed {
            return Vec::new();
        }
        let runtime = runtime_actions(element_id, snapshot);
        let primary = if extend_selection {
            selection_text(snapshot)
        } else {
            None
        };
        let ghost r = runtime@;
        let actions = self.finish_with_primary_selection_write(runtime, primary);
        proof {
            lemma_primary_appended(r, actions@, primary);
        }
        actions
    }
}

fn resolve_content_edit(snapshot: &mut TextInputSnapshot, element_id: NodeId, edit: Option<(Vec<char>, u32)>) -> (actions:
    Vec<ResolvedAction>)
    requires
        text_input_wf(old(snapshot)@),
        edit_fits(edit_view(edit)),
    ensures
        final(snapshot)@ == (match edit_view(edit) {
            Some((content, cursor)) => spec_with_content(old(snapshot)@, content, cursor),
            None => old(snapshot)@,
        }),
        text_input_wf(final(snapshot)@),
        actions_model(actions@) == (match edit_view(edit) {
            Some((content, cursor)) => spec_content_actions(
                element_id,
                spec_with_content(old(snapshot)@, content, cursor),
            ),
            None => Seq::empty(),
        }),
{
    match edit {
        Some((content, cursor)) => {
            apply_content_change(snapshot, content, cursor);
            content_actions(element_id, snapshot)
        },
        None => Vec::new(),
    }
}

proof fn lemma_primary_appended(runtime: Seq<ResolvedAction>, actions: Seq<ResolvedAction>, primary: Option<String>)
    requires
        match primary {
            Some(text) if text@.len() > 0 => {
                &&& actions.len() == runtime.len() + 1
                &&& actions.take(runtime.len() as int) == runtime
                &&& actions.last() matches ResolvedAction::ClipboardWrite { target, text: t }
                    && target == ClipboardTarget::Primary && t@ == text@
            },
            _ => actions == runtime,
        },
    ensures
        actions_model(actions) == actions_model(runtime) + primary_write(text_view(primary)),
{
    match primary {
        Some(text) => {
            if text@.len() > 0 {
                assert(actions =~= runtime.push(actions.last()));
                assert(actions_model(actions) =~= actions_model(runtime) + primary_write(text_view(primary)));
            } else {
                assert(actions_model(actions) =~= actions_model(runtime) + primary_write(text_view(primary)));
            }
        },
        None => {
            assert(actions_model(actions) =~= actions_model(runtime) + primary_write(text_view(primary)));
        },
    }
}

/// Text as a text input of the given kind takes it in: the multiline rules
/// for a multiline input, the single-line rules otherwise.
pub open spec fn sanitized(text: Seq<char>, multiline: bool) -> Seq<char> {
    if multiline {
        multiline_chars(text, text.len() as int)
    } else {
        single_line_chars(text)
    }
}

/// The input after Select All: cursor at the end, anchor at the start (no
/// selection when the content is empty), no preedit.
pub open spec fn spec_select_all(m: TextInputModel) -> TextInputModel {
    TextInputModel {
        cursor: if m.content.len() == 0 {
            m.cursor
        } else {
            m.content.len() as u32
        },
        selection_anchor: if m.content.len() == 0 {
            None
        } else {
            Some(0)
        },
        preedit: None,
        preedit_cursor: None,
        ..m
    }
}

/// Pasting `pasted`, taken in as the input takes text: nothing when there
/// is no text or nothing is left of it.
pub open spec fn spec_paste_edit(m: TextInputModel, pasted: Option<Seq<char>>) -> Option<(Seq<char>, u32)> {
    match pasted {
        Some(text) => if sanitized(text, m.multiline).len() == 0 {
            None
        } else {
            spec_insert(m, sanitized(text, m.multiline))
        },
        None => None,
    }
}

/// The clipboard that a paste command reads.
pub open spec fn paste_target(request: TextInputCommandRequest) -> Option<ClipboardTarget> {
    match request {
        TextInputCommandRequest::Paste => Some(ClipboardTarget::Clipboard),
        TextInputCommandRequest::PastePrimary => Some(ClipboardTarget::Primary),
        _ => None,
    }
}

/// The content edit of a command, given the text a paste reads.
pub open spec fn spec_command_edit(m: TextInputModel, request: TextInputCommandRequest, pasted: Option<Seq<char>>) -> Option<
    (Seq<char>, u32),
> {
    match request {
        TextInputCommandRequest::Cut => match spec_selected_range(m) {
            Some((lo, hi)) => Some((spliced(m.content, lo as int, hi as int, Seq::empty()), lo)),
            None => None,
        },
        TextInputCommandRequest::Paste | TextInputCommandRequest::PastePrimary => spec_paste_edit(m, pasted),
        _ => None,
    }
}

/// The input after a command.
pub open spec fn spec_command_edited(m: TextInputModel, request: TextInputCommandRequest, pasted: Option<Seq<char>>) -> TextInputModel {
    match request {
        TextInputCommandRequest::SelectAll => spec_select_all(m),
        _ => match spec_command_edit(m, request, pasted) {
            Some((content, cursor)) => spec_with_content(m, content, cursor),
            None => m,
        },
    }
}

/// The text a command writes to the clipboard.
pub open spec fn spec_command_copied(m: TextInputModel, request: TextInputCommandRequest) -> Option<Seq<char>> {
    match request {
        TextInputCommandRequest::Copy | TextInputCommandRequest::Cut => spec_selection_text(m),
        _ => None,
    }
}

/// The text a command writes to the primary selection.
pub open spec fn spec_command_primary(m: TextInputModel, request: TextInputCommandRequest) -> Option<Seq<char>> {
    match request {
        TextInputCommandRequest::SelectAll => if spec_select_all(m) != m {
            spec_selection_text(spec_select_all(m))
        } else {
            None
        },
        TextInputCommandRequest::Copy | TextInputCommandRequest::Cut => spec_selection_text(m),
        _ => None,
    }
}

/// The writes of `text` to the clipboard and then the primary selection.
pub open spec fn both_writes(text: Seq<char>) -> Seq<ActionModel> {
    seq![
        ActionModel::ClipboardWrite { target: ClipboardTarget::Clipboard, text },
        ActionModel::ClipboardWrite { target: ClipboardTarget::Primary, text },
    ]
}

/// The actions of a command: Select All as a move; Copy writes the
/// selection to both clipboards; Cut does too and then removes it; a paste
/// inserts what it read.
pub open spec fn spec_command_actions(
    element_id: NodeId,
    m: TextInputModel,
    request: TextInputCommandRequest,
    pasted: Option<Seq<char>>,
) -> Seq<ActionModel> {
    match request {
        TextInputCommandRequest::SelectAll => if spec_select_all(m) == m {
            Seq::empty()
        } else {
            spec_runtime_actions(element_id, spec_select_all(m)) + primary_write(
                spec_selection_text(spec_select_all(m)),
            )
        },
        TextInputCommandRequest::Copy => match spec_selection_text(m) {
            Some(text) => both_writes(text),
            None => Seq::empty(),
        },
        _ => {
            let copied = match spec_command_copied(m, request) {
                Some(text) => both_writes(text),
                None => Seq::empty(),
            };
            match spec_command_edit(m, request, pasted) {
                Some((content, cursor)) => copied + spec_content_actions(
                    element_id,
                    spec_with_content(m, content, cursor),
                ),
                None => Seq::empty(),
            }
        },
    }
}

/// What a clipboard's cache holds after `text` was read from it.
pub open spec fn read_text(entry: Option<Option<Seq<char>>>) -> Option<Seq<char>> {
    match entry {
        Some(text) => text,
        None => None,
    }
}

/// The text a paste command takes: what the cache of its clipboard holds
/// once read; nothing for the other commands.
pub open spec fn pasted_text(state: SemanticComputeState, request: TextInputCommandRequest) -> Option<Seq<char>> {
    match paste_target(request) {
        Some(target) => read_text(state.cached(target)),
        None => None,
    }
}

impl SemanticComputeState {
    fn write_both(&mut self, text: String) -> (actions: Vec<ResolvedAction>)
        ensures
            actions_model(actions@) == both_writes(text@),
            final(self).focused_id == old(self).focused_id,
            final(self).cached(ClipboardTarget::Clipboard) == Some(written(text@)),
            final(self).cached(ClipboardTarget::Primary) == Some(written(text@)),
    {
        self.set_clipboard(ClipboardTarget::Clipboard, text.clone());
        self.set_clipboard(ClipboardTarget::Primary, text.clone());
        let mut actions = Vec::new();
        actions.push(ResolvedAction::ClipboardWrite { target: ClipboardTarget::Clipboard, text: text.clone() });
        actions.push(ResolvedAction::ClipboardWrite { target: ClipboardTarget::Primary, text });
        assert(actions_model(actions@) =~= both_writes(text@));
        actions
    }

    /// Resolves a clipboard command against `snapshot`, which the command
    /// updates. A paste reads its clipboard through `source` unless this
    /// dispatch has seen it already (Paste reads the clipboard, PastePrimary
    /// the primary selection); the contract states the outcome in terms of
    /// the text the cache then holds, which is what the platform held when
    /// the cache was empty.
    pub fn resolve_text_command<S: ClipboardSource>(
        &mut self,
        source: &mut S,
        snapshot: &mut TextInputSnapshot,
        element_id: NodeId,
        request: TextInputCommandRequest,
    ) -> (actions: Vec<ResolvedAction>)
        requires
            text_input_wf(old(snapshot)@),
        ensures
            final(snapshot)@ == spec_command_edited(old(snapshot)@, request, pasted_text(*final(self), request)),
            text_input_wf(final(snapshot)@),
            actions_model(actions@) == spec_command_actions(
                element_id,
                old(snapshot)@,
                request,
                pasted_text(*final(self), request),
            ),
            final(self).focused_id == old(self).focused_id,
            match paste_target(request) {
                Some(target) => {
                    &&& final(self).cached(target) is Some
                    &&& old(self).cached(target) is Some ==> final(self).cached(target) == old(self).cached(
                        target,
                    )
                    &&& old(self).cached(target) is None ==> pasted_text(*final(self), request) == text_view(
                        old(source).platform_text(target),
                    )
                    &&& final(self).cached(crate::events::semantic::other_target(target)) == old(
                        self,
                    ).cached(crate::events::semantic::other_target(target))
                },
                None => {
                    &&& final(self).cached(ClipboardTarget::Clipboard) == cache_after_write(
                        old(self).cached(ClipboardTarget::Clipboard),
                        spec_command_copied(old(snapshot)@, request),
                    )
                    &&& final(self).cached(ClipboardTarget::Primary) == cache_after_write(
                        old(self).cached(ClipboardTarget::Primary),
                        spec_command_primary(old(snapshot)@, request),
                    )
                },
            },
    {
        match request {
            TextInputCommandRequest::SelectAll => {
                let len = snapshot.content.len();
                let target: u32 = if len == 0 {
                    snapshot.cursor
                } else {
                    len as u32
                };
                let anchor: Option<u32> = if len == 0 {
                    None
                } else {
                    Some(0)
                };
                let ghost m = snapshot@;
                let changed = target != snapshot.cursor || anchor != snapshot.selection_anchor
                    || snapshot.preedit.is_some() || snapshot.preedit_cursor.is_some();
                snapshot.cursor = target;
                snapshot.selection_anchor = anchor;
                snapshot.preedit = None;
                snapshot.preedit_cursor = None;
                assert(snapshot@ == spec_select_all(m));
                if !changed {
                    return Vec::new();
                }
                let runtime = runtime_actions(element_id, snapshot);
                let primary = selection_text(snapshot);
                let ghost r = runtime@;
                let actions = self.finish_with_primary_selection_write(runtime, primary);
                proof {
                    lemma_primary_appended(r, actions@, primary);
                }
                actions
            },
            TextInputCommandRequest::Copy => {
                match selection_text(snapshot) {
                    Some(text) => {
                        proof {
                            lemma_selection_nonempty(snapshot@);
                        }
                        self.write_both(text)
                    },
                    None => Vec::new(),
                }
            },
            TextInputCommandRequest::Cut => {
                match selected_range(snapshot) {
                    Some((lo, hi)) => {
                        let text = string_of_range(&snapshot.content, lo as usize, hi as usize);
                        proof {
                            lemma_selection_nonempty(snapshot@);
                        }
                        let empty: Vec<char> = Vec::new();
                        let content = splice(&snapshot.content, lo as usize, hi as usize, &empty);
                        let mut actions = self.write_both(text);
                        let ghost written = actions@;
                        let mut rest = resolve_content_edit(snapshot, element_id, Some((content, lo)));
                        let ghost tail = rest@;
                        actions.append(&mut rest);
                        proof {
                            assert(actions_model(actions@) =~= actions_model(written) + actions_model(tail));
                        }
                        actions
                    },
                    None => Vec::new(),
                }
            },
            TextInputCommandRequest::Paste => self.resolve_text_paste(
                source,
                snapshot,
                element_id,
                ClipboardTarget::Clipboard,
            ),
            TextInputCommandRequest::PastePrimary => self.resolve_text_paste(
                source,
                snapshot,
                element_id,
                ClipboardTarget::Primary,
            ),
        }
    }

    fn resolve_text_paste<S: ClipboardSource>(
        &mut self,
        source: &mut S,
        snapshot: &mut TextInputSnapshot,
        element_id: NodeId,
        target: ClipboardTarget,
    ) -> (actions: Vec<ResolvedAction>)
        requires
            text_input_wf(old(snapshot)@),
        ensures
            final(snapshot)@ == (match spec_paste_edit(old(snapshot)@, read_text(final(self).cached(target))) {
                Some((content, cursor)) => spec_with_content(old(snapshot)@, content, cursor),
                None => old(snapshot)@,
            }),
            text_input_wf(final(snapshot)@),
            actions_model(actions@) == (match spec_paste_edit(
                old(snapshot)@,
                read_text(final(self).cached(target)),
            ) {
                Some((content, cursor)) => spec_content_actions(
                    element_id,
                    spec_with_content(old(snapshot)@, content, cursor),
                ),
                None => Seq::empty(),
            }),
            final(self).focused_id == old(self).focused_id,
            final(self).cached(target) is Some,
            old(self).cached(target) is Some ==> final(self).cached(target) == old(self).cached(target),
            old(self).cached(target) is None ==> read_text(final(self).cached(target)) == text_view(
                old(source).platform_text(target),
            ),
            final(self).cached(crate::events::semantic::other_target(target)) == old(self).cached(
                crate::events::semantic::other_target(target),
            ),
    {
        let pasted = self.clipboard_text(source, target);
        match pasted {
            Some(text) => {
                let clean = sanitize_text_input_text(text.as_str(), snapshot.multiline);
                let chars = chars_of(clean.as_str());
                if chars.len() == 0 {
                    return Vec::new();
                }
                let edit = insert_edit(snapshot, &chars);
                resolve_content_edit(snapshot, element_id, edit)
            },
            None => Vec::new(),
        }
    }
}

/// A selection holds at least one character.
proof fn lemma_selection_nonempty(m: TextInputModel)
    requires
        text_input_wf(m),
    ensures
        spec_selection_text(m) matches Some(text) ==> text.len() > 0,
{
}


/// Select All followed by Copy copies the whole content.
pub proof fn law_select_all_then_copy_copies_content(m: TextInputModel)
    requires
        text_input_wf(m),
        m.content.len() > 0,
    ensures
        spec_command_copied(
            spec_command_edited(m, TextInputCommandRequest::SelectAll, None),
            TextInputCommandRequest::Copy,
        ) == Some(m.content),
{
    assert(m.content.subrange(0, m.content.len() as int) =~= m.content);
}

/// Cutting the selection and then inserting the cut text gives back the
/// content, with the cursor at the end of the re-inserted text.
pub proof fn law_cut_then_insert_restores_content(m: TextInputModel)
    requires
        text_input_wf(m),
        spec_selected_range(m) is Some,
    ensures
        ({
            let cut = spec_command_edited(m, TextInputCommandRequest::Cut, None);
            let text = spec_command_copied(m, TextInputCommandRequest::Cut);
            let range = spec_selected_range(m).unwrap();
            &&& text is Some
            &&& spec_insert(cut, text.unwrap()) == Some((m.content, range.1))
        }),
{
    let (lo, hi) = spec_selected_range(m).unwrap();
    let cut = spec_command_edited(m, TextInputCommandRequest::Cut, None);
    let text = m.content.subrange(lo as int, hi as int);
    assert(cut.content =~= m.content.subrange(0, lo as int) + m.content.subrange(hi as int, m.content.len() as int));
    assert(spec_selected_range(cut) is None);
    assert(cut.cursor == lo);
    assert(cut.content.subrange(0, lo as int) =~= m.content.subrange(0, lo as int));
    assert(cut.content.subrange(lo as int, cut.content.len() as int) =~= m.content.subrange(
        hi as int,
        m.content.len() as int,
    ));
    assert(spliced(cut.content, lo as int, lo as int, text) =~= m.content);
}


/// An edit that acts mirrors the state it leaves: its actions include the
/// mirror of the edited input.
pub proof fn law_edit_actions_mirror_edited_state(
    element_id: NodeId,
    m: TextInputModel,
    t: TextLayoutTargets,
    request: TextInputEditRequest,
)
    requires
        text_input_wf(m),
        spec_edit_actions(element_id, m, t, request).len() > 0,
    ensures
        spec_edit_actions(element_id, m, t, request).contains(
            ActionModel::SetTextInputState { element_id, state: spec_edited(m, t, request) },
        ),
{
    let actions = spec_edit_actions(element_id, m, t, request);
    let mirror = ActionModel::SetTextInputState { element_id, state: spec_edited(m, t, request) };
    match spec_move_target(m, t, request) {
        Some((next, e)) => {
            assert(actions[1] == mirror);
        },
        None => {
            assert(actions[actions.len() - 1] == mirror);
        },
    }
}


/// A plain (non-extending) Left or Right move over a selection collapses
/// it: Right (and Word Right) to its higher end, Left (and Word Left) to
/// its lower end, whatever the layout says, leaving no anchor.
pub proof fn law_plain_horizontal_move_collapses_selection(m: TextInputModel, t: TextLayoutTargets)
    requires
        text_input_wf(m),
        m.selection_anchor is Some,
        m.selection_anchor.unwrap() != m.cursor,
    ensures
        ({
            let a = m.selection_anchor.unwrap();
            let high = if a < m.cursor {
                m.cursor
            } else {
                a
            };
            let low = if a < m.cursor {
                a
            } else {
                m.cursor
            };
            &&& spec_edited(m, t, TextInputEditRequest::MoveRight { extend_selection: false }).cursor == high
            &&& spec_edited(m, t, TextInputEditRequest::MoveRight { extend_selection: false }).selection_anchor
                is None
            &&& spec_edited(m, t, TextInputEditRequest::MoveWordRight { extend_selection: false }).cursor
                == high
            &&& spec_edited(m, t, TextInputEditRequest::MoveLeft { extend_selection: false }).cursor == low
            &&& spec_edited(m, t, TextInputEditRequest::MoveLeft { extend_selection: false }).selection_anchor
                is None
            &&& spec_edited(m, t, TextInputEditRequest::MoveWordLeft { extend_selection: false }).cursor
                == low
        }),
{
}


/// Without a selection, Backspace removes exactly the character before the
/// cursor and steps back over it, and Delete removes exactly the character
/// at the cursor, leaving the cursor where it is; at the ends they do
/// nothing.
pub proof fn law_backspace_and_delete_remove_one_character(m: TextInputModel, t: TextLayoutTargets)
    requires
        text_input_wf(m),
        m.selection_anchor is None,
    ensures
        m.cursor > 0 ==> spec_edited(m, t, TextInputEditRequest::Backspace).content == m.content.remove(
            m.cursor - 1,
        ) && spec_edited(m, t, TextInputEditRequest::Backspace).cursor == m.cursor - 1,
        m.cursor == 0 ==> spec_edited(m, t, TextInputEditRequest::Backspace) == m,
        m.cursor < m.content.len() ==> spec_edited(m, t, TextInputEditRequest::Delete).content
            == m.content.remove(m.cursor as int) && spec_edited(m, t, TextInputEditRequest::Delete).cursor
            == m.cursor,
        m.cursor == m.content.len() ==> spec_edited(m, t, TextInputEditRequest::Delete) == m,
{
    if m.cursor > 0 {
        assert(spliced(m.content, m.cursor - 1, m.cursor as int, Seq::empty()) =~= m.content.remove(
            m.cursor - 1,
        ));
    }
    if m.cursor < m.content.len() {
        assert(spliced(m.content, m.cursor as int, m.cursor + 1, Seq::empty()) =~= m.content.remove(
            m.cursor as int,
        ));
    }
}

/// Without a selection, inserting non-empty text keeps what was before and
/// after the cursor, puts the text between them, and moves the cursor to
/// its end.
pub proof fn law_insert_goes_in_at_the_cursor(m: TextInputModel, t: TextLayoutTargets, text: String)
    requires
        text_input_wf(m),
        m.selection_anchor is None,
        text@.len() > 0,
        m.content.len() + text@.len() <= u32::MAX,
    ensures
        ({
            let n = spec_edited(m, t, TextInputEditRequest::Insert(text));
            &&& n.content.len() == m.content.len() + text@.len()
            &&& n.content.subrange(0, m.cursor as int) == m.content.subrange(0, m.cursor as int)
            &&& n.content.subrange(m.cursor as int, m.cursor + text@.len()) == text@
            &&& n.content.subrange(m.cursor + text@.len(), n.content.len() as int) == m.content.subrange(
                m.cursor as int,
                m.content.len() as int,
            )
            &&& n.cursor == m.cursor + text@.len()
            &&& n.selection_anchor is None
        }),
{
    let n = spec_edited(m, t, TextInputEditRequest::Insert(text));
    let c = m.cursor as int;
    assert(n.content.subrange(0, c) =~= m.content.subrange(0, c));
    assert(n.content.subrange(c, c + text@.len()) =~= text@);
    assert(n.content.subrange(c + text@.len(), n.content.len() as int) =~= m.content.subrange(
        c,
        m.content.len() as int,
    ));
}

/// An extending Left or Right move steps the cursor by one character
/// (stopping at the ends) and keeps the anchor, or starts it at the old
/// cursor.
pub proof fn law_extending_moves_step_and_keep_the_anchor(m: TextInputModel, t: TextLayoutTargets)
    requires
        text_input_wf(m),
    ensures
        ({
            let anchor = if m.selection_anchor is Some {
                m.selection_anchor.unwrap()
            } else {
                m.cursor
            };
            let right = spec_edited(m, t, TextInputEditRequest::MoveRight { extend_selection: true });
            let left = spec_edited(m, t, TextInputEditRequest::MoveLeft { extend_selection: true });
            &&& right.cursor == (if m.cursor < m.content.len() {
                m.cursor + 1
            } else {
                m.cursor as int
            })
            &&& right.selection_anchor == Some(anchor)
            &&& left.cursor == (if m.cursor > 0 {
                m.cursor - 1
            } else {
                0
            })
            &&& left.selection_anchor == Some(anchor)
            &&& right.content == m.content
        }),
{
}

} // verus!
