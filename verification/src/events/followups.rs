//! Release followups and text commits: what the runtime listeners layered
//! over the base registry compute once their release or commit arrives.
//!
//! A release followup first lets the base registry handle the release (the
//! base actions are handed in), then adds what the tracked press promised:
//! click and press events, the mouse-down style clear that the base did not
//! already do, key-press events of the trackers whose modifiers still match,
//! and the clearing of the trackers themselves.
use vstd::prelude::*;
use std::collections::{HashMap, HashSet};

use crate::events::contributors::{ElementEventKind, KeyPressFollowup, KeyPressTracker};
use crate::events::registry_builder::{
    spec_key_modifiers_match, spec_matches, key_modifiers_match, ClickPressTracker, ListenerMatcher,
    NodeId, RuntimeChange,
};
use crate::input::{InputSignal, ACTION_PRESS, MOD_CTRL, MOD_META, MOD_SHIFT};
use crate::keys::CanonicalKey;
use crate::text::{multiline_chars, single_line_chars, sanitize_text_input_text};

verus! {

/// An action computed by a listener.
#[derive(Debug, PartialEq)]
pub enum ListenerAction {
    /// An element event forwarded to Elixir, with its route if it has one.
    ElixirEvent { element_id: NodeId, kind: ElementEventKind, route: Option<String> },
    /// Set or clear an element's mouse-down style state.
    SetMouseDownActive { element_id: NodeId, active: bool },
    /// A change of runtime tracking state.
    RuntimeChange(RuntimeChange),
    /// Insert text into a text input at its cursor.
    TextInputInsert { element_id: NodeId, text: String },
    /// Set a text input's preedit text, with its cursor range.
    TextInputPreeditSet { element_id: NodeId, text: String, cursor: Option<(u32, u32)> },
    /// Clear a text input's preedit text.
    TextInputPreeditClear { element_id: NodeId },
    /// Delete text around a text input's cursor, in UTF-8 bytes.
    TextInputDeleteSurrounding { element_id: NodeId, before_length: u32, after_length: u32 },
    /// Move a text input's cursor to the pointer position of the input.
    TextInputCursorAtPointer { element_id: NodeId, extend_selection: bool },
}

/// A listener action with its strings as character sequences.
pub ghost enum ListenerActionView {
    ElixirEvent { element_id: NodeId, kind: ElementEventKind, route: Option<Seq<char>> },
    SetMouseDownActive { element_id: NodeId, active: bool },
    RuntimeChange(RuntimeChange),
    TextInputInsert { element_id: NodeId, text: Seq<char> },
    TextInputPreeditSet { element_id: NodeId, text: Seq<char>, cursor: Option<(u32, u32)> },
    TextInputPreeditClear { element_id: NodeId },
    TextInputDeleteSurrounding { element_id: NodeId, before_length: u32, after_length: u32 },
    TextInputCursorAtPointer { element_id: NodeId, extend_selection: bool },
}

impl View for ListenerAction {
    type V = ListenerActionView;

    open spec fn view(&self) -> ListenerActionView {
        match self {
            ListenerAction::ElixirEvent { element_id, kind, route } => ListenerActionView::ElixirEvent {
                element_id: *element_id,
                kind: *kind,
                route: match route {
                    Some(r) => Some(r@),
                    None => None,
                },
            },
            ListenerAction::SetMouseDownActive { element_id, active } => {
                ListenerActionView::SetMouseDownActive { element_id: *element_id, active: *active }
            },
            ListenerAction::RuntimeChange(change) => ListenerActionView::RuntimeChange(*change),
            ListenerAction::TextInputInsert { element_id, text } => ListenerActionView::TextInputInsert {
                element_id: *element_id,
                text: text@,
            },
            ListenerAction::TextInputPreeditSet { element_id, text, cursor } => {
                ListenerActionView::TextInputPreeditSet {
                    element_id: *element_id,
                    text: text@,
                    cursor: *cursor,
                }
            },
            ListenerAction::TextInputPreeditClear { element_id } => {
                ListenerActionView::TextInputPreeditClear { element_id: *element_id }
            },
            ListenerAction::TextInputDeleteSurrounding { element_id, before_length, after_length } => {
                ListenerActionView::TextInputDeleteSurrounding {
                    element_id: *element_id,
                    before_length: *before_length,
                    after_length: *after_length,
                }
            },
            ListenerAction::TextInputCursorAtPointer { element_id, extend_selection } => {
                ListenerActionView::TextInputCursorAtPointer {
                    element_id: *element_id,
                    extend_selection: *extend_selection,
                }
            },
        }
    }
}

pub open spec fn actions_view(actions: Seq<ListenerAction>) -> Seq<ListenerActionView> {
    actions.map_values(|a: ListenerAction| a@)
}

/// An element event without a route.
pub open spec fn event_view(element_id: NodeId, kind: ElementEventKind) -> ListenerActionView {
    ListenerActionView::ElixirEvent { element_id, kind, route: None }
}

pub open spec fn clears_mouse_down_of(a: ListenerActionView, element_id: NodeId) -> bool {
    a == ListenerActionView::SetMouseDownActive { element_id, active: false }
}

/// What a click/press tracker adds after the base actions of a left
/// release: a click and a press event as the tracker says, the mouse-down
/// style clear unless the base already cleared it, and the clearing of the
/// click/press and drag trackers.
pub open spec fn spec_click_press_followup(
    tracker: ClickPressTracker,
    base: Seq<ListenerActionView>,
) -> Seq<ListenerActionView> {
    let base_clears = exists|i: int| 0 <= i < base.len() && clears_mouse_down_of(#[trigger] base[i], tracker.element_id);
    (if tracker.emit_click {
        seq![event_view(tracker.element_id, ElementEventKind::Click)]
    } else {
        Seq::empty()
    }) + (if tracker.emit_press_pointer {
        seq![event_view(tracker.element_id, ElementEventKind::Press)]
    } else {
        Seq::empty()
    }) + (if tracker.clear_mouse_down && !base_clears {
        seq![ListenerActionView::SetMouseDownActive { element_id: tracker.element_id, active: false }]
    } else {
        Seq::empty()
    }) + seq![
        ListenerActionView::RuntimeChange(RuntimeChange::ClearClickPressTracker),
        ListenerActionView::RuntimeChange(RuntimeChange::ClearDragTracker),
    ]
}

/// Whether some base action clears the mouse-down style of `element_id`.
fn base_clears_mouse_down(base: &Vec<ListenerAction>, element_id: NodeId) -> (clears: bool)
    ensures
        clears == exists|i: int|
            0 <= i < base@.len() && clears_mouse_down_of(#[trigger] actions_view(base@)[i], element_id),
{
    let ghost v = actions_view(base@);
    let mut k: usize = 0;
    while k < base.len()
        invariant
            k <= base@.len(),
            v == actions_view(base@),
            v.len() == base@.len(),
            forall|j: int| 0 <= j < k ==> !clears_mouse_down_of(#[trigger] v[j], element_id),
        decreases base@.len() - k,
    {
        match &base[k] {
            ListenerAction::SetMouseDownActive { element_id: id, active } => {
                if *id == element_id && !*active {
                    assert(clears_mouse_down_of(v[k as int], element_id));
                    return true;
                }
            },
            _ => {},
        }
        assert(!clears_mouse_down_of(v[k as int], element_id));
        k = k + 1;
    }
    false
}

/// The followup of a click/press tracker: nothing unless `input` is a left
/// release; then the base actions of the release followed by what the
/// tracker adds.
pub fn click_press_release_followup(
    tracker: &ClickPressTracker,
    input: &InputSignal,
    base: Vec<ListenerAction>,
) -> (actions: Vec<ListenerAction>)
    ensures
        actions_view(actions@) == if spec_matches(ListenerMatcher::CursorButtonLeftReleaseAnywhere, *input) {
            actions_view(base@) + spec_click_press_followup(*tracker, actions_view(base@))
        } else {
            Seq::empty()
        },
{
    if !ListenerMatcher::CursorButtonLeftReleaseAnywhere.matches(input) {
        let none: Vec<ListenerAction> = Vec::new();
        assert(actions_view(none@) =~= Seq::<ListenerActionView>::empty());
        return none;
    }
    let element_id = tracker.element_id;
    let base_clears = base_clears_mouse_down(&base, element_id);
    let ghost base_view = actions_view(base@);
    let mut actions = base;
    let ghost tail = spec_click_press_followup(*tracker, base_view);
    let ghost mut added: Seq<ListenerActionView> = Seq::empty();
    if tracker.emit_click {
        actions.push(ListenerAction::ElixirEvent { element_id, kind: ElementEventKind::Click, route: None });
        proof {
            added = added.push(event_view(element_id, ElementEventKind::Click));
        }
    }
    if tracker.emit_press_pointer {
        actions.push(ListenerAction::ElixirEvent { element_id, kind: ElementEventKind::Press, route: None });
        proof {
            added = added.push(event_view(element_id, ElementEventKind::Press));
        }
    }
    if tracker.clear_mouse_down && !base_clears {
        actions.push(ListenerAction::SetMouseDownActive { element_id, active: false });
        proof {
            added = added.push(ListenerActionView::SetMouseDownActive { element_id, active: false });
        }
    }
    actions.push(ListenerAction::RuntimeChange(RuntimeChange::ClearClickPressTracker));
    actions.push(ListenerAction::RuntimeChange(RuntimeChange::ClearDragTracker));
    proof {
        added = added.push(ListenerActionView::RuntimeChange(RuntimeChange::ClearClickPressTracker));
        added = added.push(ListenerActionView::RuntimeChange(RuntimeChange::ClearDragTracker));
        assert(added =~= tail);
        assert(actions_view(actions@) =~= base_view + tail);
    }
    actions
}

/// The key-press events of a tracker's followups, in order.
pub open spec fn spec_followup_events(followups: Seq<KeyPressFollowup>) -> Seq<ListenerActionView>
    decreases followups.len(),
{
    if followups.len() == 0 {
        Seq::empty()
    } else {
        spec_followup_events(followups.drop_last()).push(
            match followups.last() {
                KeyPressFollowup::ElixirEvent { element_id, route } => ListenerActionView::ElixirEvent {
                    element_id,
                    kind: ElementEventKind::KeyPress,
                    route: Some(route@),
                },
            },
        )
    }
}

/// The key-press events of the trackers whose modifiers match `mods`, in
/// tracker order.
pub open spec fn spec_matching_tracker_events(trackers: Seq<KeyPressTracker>, mods: u8) -> Seq<
    ListenerActionView,
>
    decreases trackers.len(),
{
    if trackers.len() == 0 {
        Seq::empty()
    } else {
        let t = trackers.last();
        spec_matching_tracker_events(trackers.drop_last(), mods) + if spec_key_modifiers_match(
            mods,
            t.mods,
            t.match_mode,
        ) {
            spec_followup_events(t.followups@)
        } else {
            Seq::empty()
        }
    }
}

/// Appends the key-press events of `followups` to `actions`.
fn push_followup_events(actions: &mut Vec<ListenerAction>, followups: &Vec<KeyPressFollowup>)
    ensures
        actions_view(final(actions)@) == actions_view(old(actions)@) + spec_followup_events(followups@),
{
    let ghost start = actions_view(actions@);
    let mut k: usize = 0;
    while k < followups.len()
        invariant
            k <= followups@.len(),
            actions_view(actions@) == start + spec_followup_events(followups@.take(k as int)),
        decreases followups@.len() - k,
    {
        let ghost before = actions@;
        assert(followups@.take(k + 1).drop_last() =~= followups@.take(k as int));
        match &followups[k] {
            KeyPressFollowup::ElixirEvent { element_id, route } => {
                actions.push(
                    ListenerAction::ElixirEvent {
                        element_id: *element_id,
                        kind: ElementEventKind::KeyPress,
                        route: Some(route.clone()),
                    },
                );
            },
        }
        assert(actions_view(actions@) =~= actions_view(before).push(actions@.last()@));
        k = k + 1;
    }
    assert(followups@.take(followups@.len() as int) =~= followups@);
}

/// The followup of the key-press trackers of `key`: nothing unless `input`
/// releases `key`; then the base actions of the release, the key-press
/// events of every tracker whose modifiers match the release's, and the
/// clearing of the trackers of `key`.
pub fn key_press_release_followup(
    key: CanonicalKey,
    trackers: &Vec<KeyPressTracker>,
    input: &InputSignal,
    base: Vec<ListenerAction>,
) -> (actions: Vec<ListenerAction>)
    ensures
        actions_view(actions@) == if spec_matches(ListenerMatcher::KeyReleaseTracked { key }, *input) {
            actions_view(base@) + spec_matching_tracker_events(trackers@, key_mods(*input)) + seq![
                ListenerActionView::RuntimeChange(RuntimeChange::ClearKeyPressTrackersForKey { key }),
            ]
        } else {
            Seq::empty()
        },
{
    let mods = match input {
        InputSignal::Key { mods, .. } => *mods,
        _ => {
            let none: Vec<ListenerAction> = Vec::new();
            assert(actions_view(none@) =~= Seq::<ListenerActionView>::empty());
            return none;
        },
    };
    if !(ListenerMatcher::KeyReleaseTracked { key }).matches(input) {
        let none: Vec<ListenerAction> = Vec::new();
        assert(actions_view(none@) =~= Seq::<ListenerActionView>::empty());
        return none;
    }
    let ghost base_view = actions_view(base@);
    let mut actions = base;
    let mut k: usize = 0;
    while k < trackers.len()
        invariant
            k <= trackers@.len(),
            actions_view(actions@) == base_view + spec_matching_tracker_events(trackers@.take(k as int), mods),
        decreases trackers@.len() - k,
    {
        let tracker = &trackers[k];
        assert(trackers@.take(k + 1).drop_last() =~= trackers@.take(k as int));
        assert(trackers@.take(k + 1).last() == *tracker);
        if key_modifiers_match(mods, tracker.mods, tracker.match_mode) {
            push_followup_events(&mut actions, &tracker.followups);
        }
        k = k + 1;
    }
    assert(trackers@.take(trackers@.len() as int) =~= trackers@);
    let ghost before = actions@;
    actions.push(ListenerAction::RuntimeChange(RuntimeChange::ClearKeyPressTrackersForKey { key }));
    assert(actions_view(actions@) =~= actions_view(before).push(
        ListenerActionView::RuntimeChange(RuntimeChange::ClearKeyPressTrackersForKey { key }),
    ));
    actions
}

/// The text that a commit inserts into a text input, if any: only a commit
/// without Ctrl or Meta, into an existing input (`multiline` is `None` when
/// there is none), not suppressed, whose sanitized text is not empty.
pub open spec fn spec_text_commit_insert(
    input: InputSignal,
    multiline: Option<bool>,
    suppressed: bool,
) -> Option<Seq<char>> {
    match input {
        InputSignal::TextCommit { text, mods } => if mods & (MOD_CTRL | MOD_META) != 0 {
            None
        } else { match multiline {
            None => None,
            Some(m) => if suppressed {
                None
            } else {
                let filtered = if m {
                    multiline_chars(text@, text@.len() as int)
                } else {
                    single_line_chars(text@)
                };
                if filtered.len() == 0 {
                    None
                } else {
                    Some(filtered)
                }
            },
        } },
        _ => None,
    }
}

/// The modifiers of a key event.
pub open spec fn key_mods(input: InputSignal) -> u8 {
    match input {
        InputSignal::Key { mods, .. } => mods,
        _ => 0,
    }
}

/// The dispatcher state that a text commit reads: which text inputs exist
/// and whether they are multiline, and which of them have a text-commit
/// suppression armed.
pub trait TextCommitCtx {
    /// Whether the text input `element_id` is multiline; `None` when there
    /// is no such text input.
    spec fn multiline_of(&self, element_id: NodeId) -> Option<bool>;

    /// Whether a text-commit suppression is armed for `element_id`.
    spec fn suppressed(&self, element_id: NodeId) -> bool;

    /// Whether the text input `element_id` is multiline; `None` when there
    /// is no such text input.
    fn text_input_multiline(&self, element_id: NodeId) -> (multiline: Option<bool>)
        ensures
            multiline == self.multiline_of(element_id),
    ;

    /// Whether a commit into `element_id` is suppressed, consuming the
    /// suppression of that input and changing nothing else.
    fn take_text_commit_suppression(&mut self, element_id: NodeId) -> (suppressed: bool)
        ensures
            suppressed == old(self).suppressed(element_id),
            !final(self).suppressed(element_id),
            forall|id: NodeId| id != element_id ==> final(self).suppressed(id) == old(self).suppressed(id),
            forall|id: NodeId| final(self).multiline_of(id) == old(self).multiline_of(id),
    ;
}

/// The text inputs of a dispatch, by element: whether each is multiline,
/// and the inputs whose next text commit is suppressed.
pub struct TextCommitState {
    pub multiline: HashMap<NodeId, bool>,
    pub suppressions: HashSet<NodeId>,
}

impl TextCommitCtx for TextCommitState {
    open spec fn multiline_of(&self, element_id: NodeId) -> Option<bool> {
        if self.multiline@.contains_key(element_id) {
            Some(self.multiline@[element_id])
        } else {
            None
        }
    }

    open spec fn suppressed(&self, element_id: NodeId) -> bool {
        self.suppressions@.contains(element_id)
    }

    fn text_input_multiline(&self, element_id: NodeId) -> (multiline: Option<bool>) {
        broadcast use vstd::std_specs::hash::group_hash_axioms;

        match self.multiline.get(&element_id) {
            Some(m) => Some(*m),
            None => None,
        }
    }

    fn take_text_commit_suppression(&mut self, element_id: NodeId) -> (suppressed: bool) {
        broadcast use vstd::std_specs::hash::group_hash_axioms;

        self.suppressions.remove(&element_id)
    }
}

/// What a commit asks of text input `element_id`, as an action view.
pub open spec fn spec_commit_action(
    element_id: NodeId,
    input: InputSignal,
    multiline: Option<bool>,
    suppressed: bool,
) -> Option<ListenerActionView> {
    match spec_text_commit_insert(input, multiline, suppressed) {
        Some(text) => Some(insert_view(element_id, text)),
        None => None,
    }
}

/// The insertion that a text commit asks of text input `element_id`, given
/// whether the input is multiline and whether the commit is suppressed.
pub fn text_commit_insert(
    element_id: NodeId,
    input: &InputSignal,
    multiline: Option<bool>,
    suppressed: bool,
) -> (action: Option<ListenerAction>)
    ensures
        match spec_text_commit_insert(*input, multiline, suppressed) {
            Some(text) => action is Some && action->0@ == insert_view(element_id, text),
            None => action is None,
        },
{
    let text = match input {
        InputSignal::TextCommit { text, mods } => {
            if *mods & (MOD_CTRL | MOD_META) != 0 {
                return None;
            }
            text
        },
        _ => {
            return None;
        },
    };
    let m = match multiline {
        Some(m) => m,
        None => {
            return None;
        },
    };
    if suppressed {
        return None;
    }
    let filtered = sanitize_text_input_text(text.as_str(), m);
    if filtered.as_str().is_empty() {
        return None;
    }
    Some(ListenerAction::TextInputInsert { element_id, text: filtered })
}

/// A text commit into `element_id`: for a commit without Ctrl or Meta the
/// input's state is read and, for an existing input, its suppression is
/// consumed; the insertion then follows `text_commit_insert` on what was
/// read.
pub fn text_commit_to_runtime<C: TextCommitCtx>(
    element_id: NodeId,
    input: &InputSignal,
    ctx: &mut C,
) -> (action: Option<ListenerAction>)
    ensures
        view_of(action) == spec_commit_action(
            element_id,
            *input,
            old(ctx).multiline_of(element_id),
            old(ctx).suppressed(element_id),
        ),
        forall|id: NodeId| final(ctx).multiline_of(id) == old(ctx).multiline_of(id),
        forall|id: NodeId|
            final(ctx).suppressed(id) == if id == element_id && is_plain_commit(*input) && old(
                ctx,
            ).multiline_of(element_id) is Some {
                false
            } else {
                old(ctx).suppressed(id)
            },
{
    let plain = match input {
        InputSignal::TextCommit { mods, .. } => *mods & (MOD_CTRL | MOD_META) == 0,
        _ => false,
    };
    if !plain {
        return None;
    }
    let multiline = ctx.text_input_multiline(element_id);
    let suppressed = match multiline {
        Some(_) => ctx.take_text_commit_suppression(element_id),
        None => false,
    };
    text_commit_insert(element_id, input, multiline, suppressed)
}

/// An insertion of `text` into text input `element_id`.
pub open spec fn insert_view(element_id: NodeId, text: Seq<char>) -> ListenerActionView {
    ListenerActionView::TextInputInsert { element_id, text }
}

/// A text commit without Ctrl or Meta.
pub open spec fn is_plain_commit(input: InputSignal) -> bool {
    match input {
        InputSignal::TextCommit { mods, .. } => mods & (MOD_CTRL | MOD_META) == 0,
        _ => false,
    }
}

/// The preedit request of an IME event: a non-empty preedit sets the text
/// and its cursor, an empty one or a clear event clears it.
pub open spec fn spec_preedit_action(input: InputSignal, element_id: NodeId) -> Option<ListenerActionView> {
    match input {
        InputSignal::TextPreedit { text, cursor } => if text@.len() == 0 {
            Some(ListenerActionView::TextInputPreeditClear { element_id })
        } else {
            Some(ListenerActionView::TextInputPreeditSet { element_id, text: text@, cursor })
        },
        InputSignal::TextPreeditClear => Some(ListenerActionView::TextInputPreeditClear { element_id }),
        _ => None,
    }
}

pub open spec fn view_of(action: Option<ListenerAction>) -> Option<ListenerActionView> {
    match action {
        Some(a) => Some(a@),
        None => None,
    }
}

/// The preedit action that an IME event asks of text input `element_id`.
pub fn text_preedit_action_from_input(input: &InputSignal, element_id: NodeId) -> (action: Option<
    ListenerAction,
>)
    ensures
        view_of(action) == spec_preedit_action(*input, element_id),
{
    match input {
        InputSignal::TextPreedit { text, cursor } => if text.as_str().is_empty() {
            Some(ListenerAction::TextInputPreeditClear { element_id })
        } else {
            Some(ListenerAction::TextInputPreeditSet { element_id, text: text.clone(), cursor: *cursor })
        },
        InputSignal::TextPreeditClear => Some(ListenerAction::TextInputPreeditClear { element_id }),
        _ => None,
    }
}

/// The deletion that an IME delete-surrounding request asks of text input
/// `element_id`; nothing for other events.
pub fn text_delete_surrounding_action_from_input(input: &InputSignal, element_id: NodeId) -> (action:
    Option<ListenerAction>)
    ensures
        view_of(action) == match *input {
            InputSignal::DeleteSurrounding { before_length, after_length } => Some(
                ListenerActionView::TextInputDeleteSurrounding { element_id, before_length, after_length },
            ),
            _ => None,
        },
{
    match input {
        InputSignal::DeleteSurrounding { before_length, after_length } => Some(
            ListenerAction::TextInputDeleteSurrounding {
                element_id,
                before_length: *before_length,
                after_length: *after_length,
            },
        ),
        _ => None,
    }
}

/// The cursor move that a pointer input asks of text input `element_id`: a
/// press moves it, extending the selection when asked or with Shift held;
/// a move moves it, extending the selection when asked.
pub fn text_cursor_action_from_input(input: &InputSignal, element_id: NodeId, extend_selection: bool) -> (action:
    Option<ListenerAction>)
    ensures
        view_of(action) == match *input {
            InputSignal::CursorButton { action, mods, .. } => if action == ACTION_PRESS {
                Some(
                    ListenerActionView::TextInputCursorAtPointer {
                        element_id,
                        extend_selection: extend_selection || mods & MOD_SHIFT != 0,
                    },
                )
            } else {
                None
            },
            InputSignal::CursorPos => Some(
                ListenerActionView::TextInputCursorAtPointer { element_id, extend_selection },
            ),
            _ => None,
        },
{
    match input {
        InputSignal::CursorButton { action, mods, .. } => if *action == ACTION_PRESS {
            Some(
                ListenerAction::TextInputCursorAtPointer {
                    element_id,
                    extend_selection: extend_selection || *mods & MOD_SHIFT != 0,
                },
            )
        } else {
            None
        },
        InputSignal::CursorPos => Some(ListenerAction::TextInputCursorAtPointer { element_id, extend_selection }),
        _ => None,
    }
}


/// What a text input's listener computes once matched.
#[derive(Clone, Copy, Debug, PartialEq, Eq, Structural)]
pub enum TextInputCompute {
    /// Insert committed text.
    TextCommitToRuntime { element_id: NodeId },
    /// Set or clear the preedit.
    TextInputPreeditToRuntime { element_id: NodeId },
    /// Delete around the cursor.
    TextDeleteSurroundingToRuntime { element_id: NodeId },
    /// Move the cursor to the pointer.
    TextInputCursorFromPointer { element_id: NodeId, extend_selection: bool },
}

/// The actions of at most one action.
pub open spec fn optional_actions(action: Option<ListenerActionView>) -> Seq<ListenerActionView> {
    match action {
        Some(a) => seq![a],
        None => Seq::empty(),
    }
}

/// The element whose input a text computation serves.
pub open spec fn text_compute_element(compute: TextInputCompute) -> NodeId {
    match compute {
        TextInputCompute::TextCommitToRuntime { element_id } => element_id,
        TextInputCompute::TextInputPreeditToRuntime { element_id } => element_id,
        TextInputCompute::TextDeleteSurroundingToRuntime { element_id } => element_id,
        TextInputCompute::TextInputCursorFromPointer { element_id, .. } => element_id,
    }
}

/// The actions of a text computation on `input`, given the input's
/// multiline flag and commit suppression as the context holds them.
pub open spec fn spec_text_compute(
    compute: TextInputCompute,
    input: InputSignal,
    multiline: Option<bool>,
    suppressed: bool,
) -> Seq<ListenerActionView> {
    match compute {
        TextInputCompute::TextCommitToRuntime { element_id } => optional_actions(
            spec_commit_action(element_id, input, multiline, suppressed),
        ),
        TextInputCompute::TextInputPreeditToRuntime { element_id } => optional_actions(
            spec_preedit_action(input, element_id),
        ),
        TextInputCompute::TextDeleteSurroundingToRuntime { element_id } => optional_actions(
            match input {
                InputSignal::DeleteSurrounding { before_length, after_length } => Some(
                    ListenerActionView::TextInputDeleteSurrounding { element_id, before_length, after_length },
                ),
                _ => None,
            },
        ),
        TextInputCompute::TextInputCursorFromPointer { element_id, extend_selection } => optional_actions(
            match input {
                InputSignal::CursorButton { action, mods, .. } => if action == ACTION_PRESS {
                    Some(
                        ListenerActionView::TextInputCursorAtPointer {
                            element_id,
                            extend_selection: extend_selection || mods & MOD_SHIFT != 0,
                        },
                    )
                } else {
                    None
                },
                InputSignal::CursorPos => Some(
                    ListenerActionView::TextInputCursorAtPointer { element_id, extend_selection },
                ),
                _ => None,
            },
        ),
    }
}

pub(crate) fn as_actions(action: Option<ListenerAction>) -> (actions: Vec<ListenerAction>)
    ensures
        actions_view(actions@) == optional_actions(view_of(action)),
{
    let mut actions = Vec::new();
    match action {
        Some(a) => {
            actions.push(a);
        },
        None => {},
    }
    assert(actions_view(actions@) =~= optional_actions(view_of(action)));
    actions
}

impl TextInputCompute {
    /// The actions of this computation on `input`. Only a plain commit into
    /// an existing input touches `ctx`: it consumes that input's suppression.
    pub fn compute_input<C: TextCommitCtx>(&self, input: &InputSignal, ctx: &mut C) -> (actions: Vec<
        ListenerAction,
    >)
        ensures
            actions_view(actions@) == spec_text_compute(
                *self,
                *input,
                old(ctx).multiline_of(text_compute_element(*self)),
                old(ctx).suppressed(text_compute_element(*self)),
            ),
            forall|id: NodeId| final(ctx).multiline_of(id) == old(ctx).multiline_of(id),
            forall|id: NodeId|
                final(ctx).suppressed(id) == if id == text_compute_element(*self)
                    && *self is TextCommitToRuntime && is_plain_commit(*input) && old(ctx).multiline_of(
                    id,
                ) is Some {
                    false
                } else {
                    old(ctx).suppressed(id)
                },
    {
        match self {
            TextInputCompute::TextCommitToRuntime { element_id } => as_actions(
                text_commit_to_runtime(*element_id, input, ctx),
            ),
            TextInputCompute::TextInputPreeditToRuntime { element_id } => as_actions(
                text_preedit_action_from_input(input, *element_id),
            ),
            TextInputCompute::TextDeleteSurroundingToRuntime { element_id } => as_actions(
                text_delete_surrounding_action_from_input(input, *element_id),
            ),
            TextInputCompute::TextInputCursorFromPointer { element_id, extend_selection } => as_actions(
                text_cursor_action_from_input(input, *element_id, *extend_selection),
            ),
        }
    }
}


/// A copy of `action`.
pub fn copy_action(action: &ListenerAction) -> (copy: ListenerAction)
    ensures
        copy@ == action@,
{
    match action {
        ListenerAction::ElixirEvent { element_id, kind, route } => ListenerAction::ElixirEvent {
            element_id: *element_id,
            kind: *kind,
            route: match route {
                Some(r) => Some(r.clone()),
                None => None,
            },
        },
        ListenerAction::SetMouseDownActive { element_id, active } => ListenerAction::SetMouseDownActive {
            element_id: *element_id,
            active: *active,
        },
        ListenerAction::RuntimeChange(change) => ListenerAction::RuntimeChange(*change),
        ListenerAction::TextInputInsert { element_id, text } => ListenerAction::TextInputInsert {
            element_id: *element_id,
            text: text.clone(),
        },
        ListenerAction::TextInputPreeditSet { element_id, text, cursor } => ListenerAction::TextInputPreeditSet {
            element_id: *element_id,
            text: text.clone(),
            cursor: *cursor,
        },
        ListenerAction::TextInputPreeditClear { element_id } => ListenerAction::TextInputPreeditClear {
            element_id: *element_id,
        },
        ListenerAction::TextInputDeleteSurrounding { element_id, before_length, after_length } =>
            ListenerAction::TextInputDeleteSurrounding {
            element_id: *element_id,
            before_length: *before_length,
            after_length: *after_length,
        },
        ListenerAction::TextInputCursorAtPointer { element_id, extend_selection } =>
            ListenerAction::TextInputCursorAtPointer {
            element_id: *element_id,
            extend_selection: *extend_selection,
        },
    }
}

/// `actions` followed by copies of `more`.
pub fn append_copies(actions: Vec<ListenerAction>, more: &Vec<ListenerAction>) -> (all: Vec<ListenerAction>)
    ensures
        actions_view(all@) == actions_view(actions@) + actions_view(more@),
{
    let mut all = actions;
    let ghost start = all@;
    let mut i: usize = 0;
    while i < more.len()
        invariant
            i <= more@.len(),
            actions_view(all@) == actions_view(start) + actions_view(more@.take(i as int)),
        decreases more@.len() - i,
    {
        let ghost before = all@;
        all.push(copy_action(&more[i]));
        assert(actions_view(all@) =~= actions_view(before).push(more@[i as int]@));
        assert(actions_view(more@.take(i + 1)) =~= actions_view(more@.take(i as int)).push(more@[i as int]@));
        i = i + 1;
    }
    assert(more@.take(more@.len() as int) =~= more@);
    all
}

} // verus!
