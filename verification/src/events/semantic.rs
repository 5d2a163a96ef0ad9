//! Semantic resolution state of one dispatch: which element holds focus and
//! what the clipboards hold, as seen by the actions resolved so far.
//!
//! Focus moves produce blur and focus events with the matching focused-state
//! updates, and later actions of the same dispatch see the new focus. The
//! clipboards are read from the platform at most once per dispatch; writes
//! made during the dispatch are seen by later reads.
use vstd::prelude::*;

use crate::events::contributors::ElementEventKind;
use crate::events::registry_builder::NodeId;
use crate::events::text_resolve::{TextInputModel, TextInputSnapshot};

verus! {

/// The system clipboard, or the primary selection.
#[derive(Clone, Copy, Debug, PartialEq, Eq, Structural)]
pub enum ClipboardTarget {
    Clipboard,
    Primary,
}

/// Reads a clipboard of the platform.
pub trait ClipboardSource {
    /// The text that the platform's `target` holds, if any.
    spec fn platform_text(&self, target: ClipboardTarget) -> Option<String>;

    /// The text held by `target`, if any.
    fn clipboard_text(&mut self, target: ClipboardTarget) -> (text: Option<String>)
        ensures
            text_view(text) == text_view(old(self).platform_text(target)),
    ;
}

/// The texts of the platform's clipboard and primary selection, as read
/// for one dispatch.
pub struct PlatformClipboards {
    pub clipboard: Option<String>,
    pub primary: Option<String>,
}

impl ClipboardSource for PlatformClipboards {
    open spec fn platform_text(&self, target: ClipboardTarget) -> Option<String> {
        match target {
            ClipboardTarget::Clipboard => self.clipboard,
            ClipboardTarget::Primary => self.primary,
        }
    }

    fn clipboard_text(&mut self, target: ClipboardTarget) -> (text: Option<String>) {
        match target {
            ClipboardTarget::Clipboard => clone_text(&self.clipboard),
            ClipboardTarget::Primary => clone_text(&self.primary),
        }
    }
}

/// A resolved action that the semantic state takes note of.
#[derive(Debug, PartialEq)]
pub enum ResolvedAction {
    /// An element event forwarded to Elixir.
    ElixirEvent { element_id: NodeId, kind: ElementEventKind },
    /// A change event forwarded to Elixir, carrying the input's new content.
    ElixirChangeEvent { element_id: NodeId, value: String },
    /// Set or clear an element's focused state in the tree.
    SetFocusedActive { element_id: NodeId, active: bool },
    /// Write text to a clipboard.
    ClipboardWrite { target: ClipboardTarget, text: String },
    /// Replace a text input's content in the tree.
    SetTextInputContent { element_id: NodeId, content: String },
    /// Set a text input's runtime state (focus, cursor, selection, preedit)
    /// in the tree.
    SetTextInputRuntime {
        element_id: NodeId,
        focused: bool,
        cursor: u32,
        selection_anchor: Option<u32>,
        preedit: Option<String>,
        preedit_cursor: Option<(u32, u32)>,
    },
    /// Tell the runtime to expect Elixir to patch the input's value to
    /// `content`.
    ExpectTextInputPatchValue { element_id: NodeId, content: String },
    /// Mirror a text input's whole state into the event runtime.
    SetTextInputState { element_id: NodeId, state: TextInputSnapshot },
}

/// A resolved action with its texts taken as character sequences.
pub enum ActionModel {
    ElixirEvent { element_id: NodeId, kind: ElementEventKind },
    ElixirChangeEvent { element_id: NodeId, value: Seq<char> },
    SetFocusedActive { element_id: NodeId, active: bool },
    ClipboardWrite { target: ClipboardTarget, text: Seq<char> },
    SetTextInputContent { element_id: NodeId, content: Seq<char> },
    SetTextInputRuntime {
        element_id: NodeId,
        focused: bool,
        cursor: u32,
        selection_anchor: Option<u32>,
        preedit: Option<Seq<char>>,
        preedit_cursor: Option<(u32, u32)>,
    },
    ExpectTextInputPatchValue { element_id: NodeId, content: Seq<char> },
    SetTextInputState { element_id: NodeId, state: TextInputModel },
}

/// The model of one action.
pub open spec fn action_model(action: ResolvedAction) -> ActionModel {
    match action {
        ResolvedAction::ElixirEvent { element_id, kind } => ActionModel::ElixirEvent { element_id, kind },
        ResolvedAction::ElixirChangeEvent { element_id, value } => ActionModel::ElixirChangeEvent {
            element_id,
            value: value@,
        },
        ResolvedAction::SetFocusedActive { element_id, active } => ActionModel::SetFocusedActive {
            element_id,
            active,
        },
        ResolvedAction::ClipboardWrite { target, text } => ActionModel::ClipboardWrite {
            target,
            text: text@,
        },
        ResolvedAction::SetTextInputContent { element_id, content } =>
            ActionModel::SetTextInputContent { element_id, content: content@ },
        ResolvedAction::SetTextInputRuntime {
            element_id,
            focused,
            cursor,
            selection_anchor,
            preedit,
            preedit_cursor,
        } => ActionModel::SetTextInputRuntime {
            element_id,
            focused,
            cursor,
            selection_anchor,
            preedit: text_view(preedit),
            preedit_cursor,
        },
        ResolvedAction::ExpectTextInputPatchValue { element_id, content } =>
            ActionModel::ExpectTextInputPatchValue { element_id, content: content@ },
        ResolvedAction::SetTextInputState { element_id, state } => ActionModel::SetTextInputState {
            element_id,
            state: state@,
        },
    }
}

/// The models of a sequence of actions.
pub open spec fn actions_model(actions: Seq<ResolvedAction>) -> Seq<ActionModel> {
    actions.map_values(|action: ResolvedAction| action_model(action))
}

/// Focus and clipboard state of one dispatch. A clipboard field is `None`
/// until the clipboard has been read or written; then it holds what the
/// clipboard has (`None` for empty).
#[derive(Debug)]
pub struct SemanticComputeState {
    pub focused_id: Option<NodeId>,
    pub clipboard: Option<Option<String>>,
    pub primary: Option<Option<String>>,
}

pub open spec fn cache_view(entry: Option<Option<String>>) -> Option<Option<Seq<char>>> {
    match entry {
        Some(Some(text)) => Some(Some(text@)),
        Some(None) => Some(None),
        None => None,
    }
}

pub open spec fn text_view(text: Option<String>) -> Option<Seq<char>> {
    match text {
        Some(t) => Some(t@),
        None => None,
    }
}

/// What a write of `text` leaves in a clipboard: nothing for empty text.
pub open spec fn written(text: Seq<char>) -> Option<Seq<char>> {
    if text.len() == 0 {
        None
    } else {
        Some(text)
    }
}

/// The focused element after noting a focused-state update.
pub open spec fn spec_note_focus(focused: Option<NodeId>, element_id: NodeId, active: bool) -> Option<
    NodeId,
> {
    if active {
        Some(element_id)
    } else if focused == Some(element_id) {
        None
    } else {
        focused
    }
}

/// The focused element after noting each action of `actions` in order.
pub open spec fn focus_after_notes(focused: Option<NodeId>, actions: Seq<ResolvedAction>) -> Option<
    NodeId,
>
    decreases actions.len(),
{
    if actions.len() == 0 {
        focused
    } else {
        let before = focus_after_notes(focused, actions.drop_last());
        match actions.last() {
            ResolvedAction::SetFocusedActive { element_id, active } => spec_note_focus(
                before,
                element_id,
                active,
            ),
            _ => before,
        }
    }
}

/// The actions of a focus move from `previous` to `next`: blur then clear
/// the previous element, focus then set the next one. Nothing when focus
/// does not move.
pub open spec fn spec_focus_transition(previous: Option<NodeId>, next: Option<NodeId>) -> Seq<
    ResolvedAction,
> {
    if previous == next {
        Seq::empty()
    } else {
        (match previous {
            Some(p) => seq![
                ResolvedAction::ElixirEvent { element_id: p, kind: ElementEventKind::Blur },
                ResolvedAction::SetFocusedActive { element_id: p, active: false },
            ],
            None => Seq::empty(),
        }) + (match next {
            Some(n) => seq![
                ResolvedAction::ElixirEvent { element_id: n, kind: ElementEventKind::Focus },
                ResolvedAction::SetFocusedActive { element_id: n, active: true },
            ],
            None => Seq::empty(),
        })
    }
}

impl SemanticComputeState {
    /// The cache entry of `target`.
    pub open spec fn cached(&self, target: ClipboardTarget) -> Option<Option<Seq<char>>> {
        match target {
            ClipboardTarget::Clipboard => cache_view(self.clipboard),
            ClipboardTarget::Primary => cache_view(self.primary),
        }
    }

    /// A dispatch that starts with `focused_id` focused and nothing read.
    pub fn new(focused_id: Option<NodeId>) -> (state: Self)
        ensures
            state.focused_id == focused_id,
            state.cached(ClipboardTarget::Clipboard) is None,
            state.cached(ClipboardTarget::Primary) is None,
    {
        SemanticComputeState { focused_id, clipboard: None, primary: None }
    }

    /// The text of `target`: what this dispatch saw of it before, or else
    /// what `source` reads now, which is then kept.
    pub fn clipboard_text<S: ClipboardSource>(&mut self, source: &mut S, target: ClipboardTarget) -> (text:
        Option<String>)
        ensures
            final(self).focused_id == old(self).focused_id,
            old(self).cached(target) matches Some(seen) ==> text_view(text) == seen,
            old(self).cached(target) is None ==> text_view(text) == text_view(old(source).platform_text(target)),
            final(self).cached(target) == Some(text_view(text)),
            final(self).cached(other_target(target)) == old(self).cached(other_target(target)),
    {
        let entry = match target {
            ClipboardTarget::Clipboard => &self.clipboard,
            ClipboardTarget::Primary => &self.primary,
        };
        match entry {
            Some(seen) => {
                return clone_text(seen);
            },
            None => {},
        }
        let text = source.clipboard_text(target);
        let kept = clone_text(&text);
        match target {
            ClipboardTarget::Clipboard => self.clipboard = Some(kept),
            ClipboardTarget::Primary => self.primary = Some(kept),
        }
        text
    }

    /// Records a write of `text` to `target`: empty text leaves it empty.
    pub fn set_clipboard(&mut self, target: ClipboardTarget, text: String)
        ensures
            final(self).focused_id == old(self).focused_id,
            final(self).cached(target) == Some(written(text@)),
            final(self).cached(other_target(target)) == old(self).cached(other_target(target)),
    {
        let entry = if text.as_str().is_empty() {
            None
        } else {
            Some(text)
        };
        proof {
            if entry is Some {
                assert(text@.len() != 0);
            }
        }
        match target {
            ClipboardTarget::Clipboard => self.clipboard = Some(entry),
            ClipboardTarget::Primary => self.primary = Some(entry),
        }
    }

    /// Takes note of a final action: clipboard writes update the clipboard,
    /// focused-state updates move the focus. Text-input updates change
    /// nothing here: the snapshots of text inputs are held by the caller.
    pub fn note_final_action(&mut self, action: &ResolvedAction)
        ensures
            match *action {
                ResolvedAction::ClipboardWrite { target, text } => {
                    &&& final(self).focused_id == old(self).focused_id
                    &&& final(self).cached(target) == Some(written(text@))
                    &&& final(self).cached(other_target(target)) == old(self).cached(
                        other_target(target),
                    )
                },
                ResolvedAction::SetFocusedActive { element_id, active } => {
                    &&& final(self).focused_id == spec_note_focus(
                        old(self).focused_id,
                        element_id,
                        active,
                    )
                    &&& final(self).cached(ClipboardTarget::Clipboard) == old(self).cached(
                        ClipboardTarget::Clipboard,
                    )
                    &&& final(self).cached(ClipboardTarget::Primary) == old(self).cached(
                        ClipboardTarget::Primary,
                    )
                },
                _ => {
                    &&& final(self).focused_id == old(self).focused_id
                    &&& final(self).cached(ClipboardTarget::Clipboard) == old(self).cached(
                        ClipboardTarget::Clipboard,
                    )
                    &&& final(self).cached(ClipboardTarget::Primary) == old(self).cached(
                        ClipboardTarget::Primary,
                    )
                },
            },
    {
        match action {
            ResolvedAction::ClipboardWrite { target, text } => {
                self.set_clipboard(*target, text.clone());
            },
            ResolvedAction::SetFocusedActive { element_id, active } => {
                if *active {
                    self.focused_id = Some(*element_id);
                } else if self.focused_id == Some(*element_id) {
                    self.focused_id = None;
                }
            },
            _ => {},
        }
    }

    /// Moves focus to `next`: the blur and focus actions of the move, and
    /// the new focus kept for the rest of the dispatch.
    pub fn resolve_focus_to(&mut self, next: Option<NodeId>) -> (actions: Vec<ResolvedAction>)
        ensures
            actions@ == spec_focus_transition(old(self).focused_id, next),
            final(self).focused_id == next,
            final(self).cached(ClipboardTarget::Clipboard) == old(self).cached(ClipboardTarget::Clipboard),
            final(self).cached(ClipboardTarget::Primary) == old(self).cached(ClipboardTarget::Primary),
    {
        let previous = self.focused_id;
        let mut actions = Vec::new();
        if previous == next {
            return actions;
        }
        self.focused_id = next;
        match previous {
            Some(p) => {
                actions.push(ResolvedAction::ElixirEvent { element_id: p, kind: ElementEventKind::Blur });
                actions.push(ResolvedAction::SetFocusedActive { element_id: p, active: false });
            },
            None => {},
        }
        match next {
            Some(n) => {
                actions.push(ResolvedAction::ElixirEvent { element_id: n, kind: ElementEventKind::Focus });
                actions.push(ResolvedAction::SetFocusedActive { element_id: n, active: true });
            },
            None => {},
        }
        assert(actions@ =~= spec_focus_transition(previous, next));
        actions
    }

    /// `runtime_actions`, then, for non-empty `primary` text, a write of it
    /// to the primary selection, which is kept as the primary's text.
    pub fn finish_with_primary_selection_write(
        &mut self,
        runtime_actions: Vec<ResolvedAction>,
        primary: Option<String>,
    ) -> (actions: Vec<ResolvedAction>)
        ensures
            final(self).focused_id == old(self).focused_id,
            final(self).cached(ClipboardTarget::Clipboard) == old(self).cached(ClipboardTarget::Clipboard),
            match primary {
                Some(text) if text@.len() > 0 => {
                    &&& actions@.len() == runtime_actions@.len() + 1
                    &&& actions@.take(runtime_actions@.len() as int) == runtime_actions@
                    &&& actions@.last() matches ResolvedAction::ClipboardWrite { target, text: t }
                        && target == ClipboardTarget::Primary && t@ == text@
                    &&& final(self).cached(ClipboardTarget::Primary) == Some(Some(text@))
                },
                _ => {
                    &&& actions@ == runtime_actions@
                    &&& final(self).cached(ClipboardTarget::Primary) == old(self).cached(
                        ClipboardTarget::Primary,
                    )
                },
            },
    {
        let mut actions = runtime_actions;
        match primary {
            Some(text) => {
                if !text.as_str().is_empty() {
                    self.set_clipboard(ClipboardTarget::Primary, text.clone());
                    let ghost before = actions@;
                    actions.push(ResolvedAction::ClipboardWrite { target: ClipboardTarget::Primary, text });
                    assert(actions@.take(before.len() as int) =~= before);
                }
            },
            None => {},
        }
        actions
    }
}

/// The other clipboard.
pub open spec fn other_target(target: ClipboardTarget) -> ClipboardTarget {
    match target {
        ClipboardTarget::Clipboard => ClipboardTarget::Primary,
        ClipboardTarget::Primary => ClipboardTarget::Clipboard,
    }
}

fn clone_text(text: &Option<String>) -> (copy: Option<String>)
    ensures
        text_view(copy) == text_view(*text),
{
    match text {
        Some(t) => Some(t.clone()),
        None => None,
    }
}

/// Noting the actions of a focus move, from the focus it started at, ends
/// at the focus the move went to: the focused-state updates that a move
/// emits agree with the focus it keeps.
pub proof fn law_noted_focus_transition_agrees(previous: Option<NodeId>, next: Option<NodeId>)
    ensures
        focus_after_notes(previous, spec_focus_transition(previous, next)) == next,
{
    let actions = spec_focus_transition(previous, next);
    if previous != next {
        reveal_with_fuel(focus_after_notes, 5);
        match (previous, next) {
            (Some(p), Some(n)) => {
                assert(actions.drop_last() =~= seq![
                    ResolvedAction::ElixirEvent { element_id: p, kind: ElementEventKind::Blur },
                    ResolvedAction::SetFocusedActive { element_id: p, active: false },
                    ResolvedAction::ElixirEvent { element_id: n, kind: ElementEventKind::Focus },
                ]);
                assert(actions.drop_last().drop_last() =~= seq![
                    ResolvedAction::ElixirEvent { element_id: p, kind: ElementEventKind::Blur },
                    ResolvedAction::SetFocusedActive { element_id: p, active: false },
                ]);
                assert(actions.drop_last().drop_last().drop_last() =~= seq![
                    ResolvedAction::ElixirEvent { element_id: p, kind: ElementEventKind::Blur },
                ]);
                assert(actions.drop_last().drop_last().drop_last().drop_last() =~= Seq::<
                    ResolvedAction,
                >::empty());
            },
            (Some(p), None) => {
                assert(actions.drop_last() =~= seq![
                    ResolvedAction::ElixirEvent { element_id: p, kind: ElementEventKind::Blur },
                ]);
                assert(actions.drop_last().drop_last() =~= Seq::<ResolvedAction>::empty());
            },
            (None, Some(n)) => {
                assert(actions.drop_last() =~= seq![
                    ResolvedAction::ElixirEvent { element_id: n, kind: ElementEventKind::Focus },
                ]);
                assert(actions.drop_last().drop_last() =~= Seq::<ResolvedAction>::empty());
            },
            (None, None) => {},
        }
    }
}

/// Moving focus where it already is does nothing.
pub proof fn law_focus_move_is_idempotent(focused: Option<NodeId>)
    ensures
        spec_focus_transition(focused, focused).len() == 0,
{
}

} // verus!
