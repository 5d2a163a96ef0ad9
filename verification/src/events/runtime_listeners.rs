//! Runtime listeners: the listeners that in-flight interactions (a pressed
//! element, held keys, a text or slider drag, a pressed virtual key) layer
//! over the base registry.
//!
//! A tracker only gets its listeners while the base registry still holds the
//! listener that started it; a tracker whose source is gone is dropped
//! silently. Release, window-blur and window-leave listeners clear the
//! trackers, so that no interaction outlives the pointer or the window focus.
use vstd::prelude::*;

use crate::events::contributors::{
    key_press_tracker_view, key_press_trackers_equal, KeyPressFollowup, KeyPressTracker,
    KeyPressTrackerView,
};
use crate::events::followups::{
    actions_view, append_copies, as_actions, click_press_release_followup, key_mods,
    key_press_release_followup, spec_click_press_followup,
    spec_matching_tracker_events, spec_text_compute, text_cursor_action_from_input, ListenerAction,
    ListenerActionView, TextInputCompute,
};
use crate::events::registry_builder::spec_matches;
use crate::input::InputSignal;
use crate::events::hover::{lemma_first_index, spec_first_index};
use crate::events::contributors::{InteractionKind, KeyBindingSpec};
use crate::events::key_bindings::{
    actions_view as binding_actions_view, binding_signature, followup_view, is_slot_listener,
    spec_down_slots, spec_key_binding_slots, spec_press_slots, spec_push_slot_action, spec_up_slots,
    KeyBindingAction, KeyBindingActionView, SlotSignature, UserKeySlotPhase, UserKeySlotView,
};
use crate::events::registry_builder::{
    spec_matcher_kind, ClickPressTracker, Listener, ListenerMatcher, ListenerMatcherKind, NodeId, RegionMatcher,
    Registry, RuntimeChange, SliderDragTracker, TextDragTracker,
};
use crate::keys::CanonicalKey;

verus! {

/// What a runtime listener computes once matched.
#[derive(Debug, PartialEq)]
pub enum RuntimeCompute {
    /// Fixed actions.
    Static(Vec<ListenerAction>),
    /// The base registry's actions for the same input, then fixed actions.
    DispatchBaseThenStatic(Vec<ListenerAction>),
    /// Move a text input's cursor to the pointer.
    TextInputCursorFromPointer { element_id: NodeId, extend_selection: bool },
    /// Set a slider's value from the pointer.
    SliderValueFromPointer { element_id: NodeId },
    /// Split raw pointer input into its lifecycle events and dispatch them.
    RedispatchPointerLifecycle,
    /// The base registry's actions for a key release, then the key-press
    /// followups of the trackers of that key.
    KeyPressReleaseFollowupToBase { key: CanonicalKey, trackers: Vec<KeyPressTracker> },
    /// The base registry's actions for a left release, then the click/press
    /// followups of `tracker`.
    ClickPressReleaseFollowupToBase { tracker: ClickPressTracker },
    /// Split scroll input into directional scrolls and dispatch them.
    RedispatchScrollInput,
}

/// Where a pointer drag stands: nothing pressed, a press that may become a
/// drag, or a drag under way, each with the element and the matcher kind of
/// the listener that started it.
#[derive(Clone, Copy, Debug, PartialEq, Eq, Structural)]
pub enum DragTracker {
    Inactive,
    Candidate { element_id: NodeId, matcher_kind: ListenerMatcherKind },
    Active { element_id: NodeId, matcher_kind: ListenerMatcherKind },
}

/// A swipe under way: the element and the matcher kind of the listener
/// that started it.
#[derive(Clone, Copy, Debug, PartialEq, Eq, Structural)]
pub struct SwipeTracker {
    pub element_id: NodeId,
    pub matcher_kind: ListenerMatcherKind,
}

/// Where a virtual key's press stands.
#[derive(Clone, Copy, Debug, PartialEq, Eq, Structural)]
pub enum VirtualKeyPhase {
    Armed,
    Repeating,
    Cancelled,
}

/// A pressed virtual key.
#[derive(Clone, Copy, Debug, PartialEq, Eq, Structural)]
pub struct VirtualKeyTracker {
    pub element_id: NodeId,
    pub phase: VirtualKeyPhase,
}

pub open spec fn change_view(change: RuntimeChange) -> ListenerActionView {
    ListenerActionView::RuntimeChange(change)
}

/// What ends a click/press: the mouse-down style clear if the tracker owes
/// one, then the clearing of the click/press and drag trackers.
pub open spec fn spec_click_press_clear(tracker: ClickPressTracker) -> Seq<ListenerActionView> {
    (if tracker.clear_mouse_down {
        seq![ListenerActionView::SetMouseDownActive { element_id: tracker.element_id, active: false }]
    } else {
        Seq::empty()
    }) + seq![
        change_view(RuntimeChange::ClearClickPressTracker),
        change_view(RuntimeChange::ClearDragTracker),
    ]
}

pub open spec fn spec_click_press_clear_for(click_press: Option<ClickPressTracker>) -> Seq<
    ListenerActionView,
> {
    match click_press {
        Some(t) => spec_click_press_clear(t),
        None => Seq::empty(),
    }
}

/// Whether `l` is a fixed-actions listener of `element_id` on `matcher`
/// whose actions are `actions`.
pub open spec fn is_static_listener(
    l: Listener<RuntimeCompute>,
    element_id: Option<NodeId>,
    matcher: ListenerMatcher,
    actions: Seq<ListenerActionView>,
) -> bool {
    &&& l.element_id == element_id
    &&& l.matcher == matcher
    &&& l.compute matches RuntimeCompute::Static(a) && actions_view(a@) == actions
}

/// Like `is_static_listener`, for a listener that lets the base registry
/// handle the input first.
pub open spec fn is_base_then_static_listener(
    l: Listener<RuntimeCompute>,
    element_id: Option<NodeId>,
    matcher: ListenerMatcher,
    actions: Seq<ListenerActionView>,
) -> bool {
    &&& l.element_id == element_id
    &&& l.matcher == matcher
    &&& l.compute matches RuntimeCompute::DispatchBaseThenStatic(a) && actions_view(a@) == actions
}

/// The actions that end a click/press.
pub fn click_press_clear_actions(tracker: &ClickPressTracker) -> (actions: Vec<ListenerAction>)
    ensures
        actions_view(actions@) == spec_click_press_clear(*tracker),
{
    let mut actions = Vec::new();
    if tracker.clear_mouse_down {
        actions.push(ListenerAction::SetMouseDownActive { element_id: tracker.element_id, active: false });
    }
    actions.push(ListenerAction::RuntimeChange(RuntimeChange::ClearClickPressTracker));
    actions.push(ListenerAction::RuntimeChange(RuntimeChange::ClearDragTracker));
    assert(actions_view(actions@) =~= spec_click_press_clear(*tracker));
    actions
}

/// The actions that end a click/press, if there is one.
pub fn click_press_clear_actions_for_element(click_press: Option<&ClickPressTracker>) -> (actions: Vec<
    ListenerAction,
>)
    ensures
        actions_view(actions@) == spec_click_press_clear_for(
            match click_press {
                Some(t) => Some(*t),
                None => None,
            },
        ),
{
    match click_press {
        Some(tracker) => click_press_clear_actions(tracker),
        None => {
            let none: Vec<ListenerAction> = Vec::new();
            assert(actions_view(none@) =~= Seq::<ListenerActionView>::empty());
            none
        },
    }
}

/// Whether the base registry still holds a listener of `element_id` with a
/// matcher of kind `kind`: the listener that started a tracker.
pub open spec fn spec_has_runtime_source<C>(
    base: Seq<Listener<C>>,
    element_id: NodeId,
    kind: ListenerMatcherKind,
) -> bool {
    exists|i: int|
        0 <= i < base.len() && (#[trigger] base[i]).element_id == Some(element_id) && spec_matcher_kind(
            base[i].matcher,
        ) == kind
}

/// Whether the source listener of a tracker is still in `base`.
pub fn has_runtime_source<C>(base: &Registry<C>, element_id: NodeId, kind: ListenerMatcherKind) -> (found:
    bool)
    ensures
        found == spec_has_runtime_source(base.precedence(), element_id, kind),
{
    let n = base.len();
    let ghost prec = base.precedence();
    let mut i: usize = 0;
    while i < n
        invariant
            n == base.storage().len(),
            prec == base.precedence(),
            prec.len() == n,
            i <= n,
            forall|j: int|
                0 <= j < i ==> !((#[trigger] prec[j]).element_id == Some(element_id) && spec_matcher_kind(
                    prec[j].matcher,
                ) == kind),
        decreases n - i,
    {
        let listener = base.listener_in_precedence(i);
        if listener.element_id == Some(element_id) && listener.matcher.kind() == kind {
            return true;
        }
        i = i + 1;
    }
    false
}

fn static_listener(element_id: NodeId, matcher: ListenerMatcher, actions: Vec<ListenerAction>) -> (l:
    Listener<RuntimeCompute>)
    ensures
        is_static_listener(l, Some(element_id), matcher, actions_view(actions@)),
{
    Listener { element_id: Some(element_id), matcher, compute: RuntimeCompute::Static(actions) }
}

fn one_change(change: RuntimeChange) -> (actions: Vec<ListenerAction>)
    ensures
        actions_view(actions@) == seq![change_view(change)],
{
    let mut actions = Vec::new();
    actions.push(ListenerAction::RuntimeChange(change));
    assert(actions_view(actions@) =~= seq![change_view(change)]);
    actions
}

/// A listener that ends the click/press of `tracker` on inputs of `matcher`,
/// while the press's source listener is still in `base`.
pub open spec fn spec_click_press_clear_listener<C>(
    base: Seq<Listener<C>>,
    tracker: ClickPressTracker,
    matcher: ListenerMatcher,
    l: Option<Listener<RuntimeCompute>>,
) -> bool {
    if spec_has_runtime_source(base, tracker.element_id, tracker.matcher_kind) {
        l is Some && is_static_listener(
            l->0,
            Some(tracker.element_id),
            matcher,
            spec_click_press_clear(tracker),
        )
    } else {
        l is None
    }
}

fn click_press_clear_listener<C>(
    base: &Registry<C>,
    tracker: &ClickPressTracker,
    matcher: ListenerMatcher,
) -> (l: Option<Listener<RuntimeCompute>>)
    ensures
        spec_click_press_clear_listener(base.precedence(), *tracker, matcher, l),
{
    if !has_runtime_source(base, tracker.element_id, tracker.matcher_kind) {
        return None;
    }
    Some(static_listener(tracker.element_id, matcher, click_press_clear_actions(tracker)))
}

/// A left release anywhere ends the click/press.
pub fn runtime_click_press_release_anywhere_clear_listener<C>(
    base: &Registry<C>,
    tracker: &ClickPressTracker,
) -> (l: Option<Listener<RuntimeCompute>>)
    ensures
        spec_click_press_clear_listener(
            base.precedence(),
            *tracker,
            ListenerMatcher::CursorButtonLeftReleaseAnywhere,
            l,
        ),
{
    click_press_clear_listener(base, tracker, ListenerMatcher::CursorButtonLeftReleaseAnywhere)
}

/// Losing window focus ends the click/press.
pub fn runtime_click_press_window_blur_clear_listener<C>(
    base: &Registry<C>,
    tracker: &ClickPressTracker,
) -> (l: Option<Listener<RuntimeCompute>>)
    ensures
        spec_click_press_clear_listener(base.precedence(), *tracker, ListenerMatcher::WindowBlurred, l),
{
    click_press_clear_listener(base, tracker, ListenerMatcher::WindowBlurred)
}

/// The cursor leaving the window ends the click/press.
pub fn runtime_click_press_window_leave_clear_listener<C>(
    base: &Registry<C>,
    tracker: &ClickPressTracker,
) -> (l: Option<Listener<RuntimeCompute>>)
    ensures
        spec_click_press_clear_listener(base.precedence(), *tracker, ListenerMatcher::WindowCursorLeft, l),
{
    click_press_clear_listener(base, tracker, ListenerMatcher::WindowCursorLeft)
}

/// A listener that clears a drag tracker with `clear` on inputs of
/// `matcher`, while the drag's source listener is still in `base`.
pub open spec fn spec_drag_clear_listener<C>(
    base: Seq<Listener<C>>,
    element_id: NodeId,
    kind: ListenerMatcherKind,
    matcher: ListenerMatcher,
    clear: RuntimeChange,
    l: Option<Listener<RuntimeCompute>>,
) -> bool {
    if spec_has_runtime_source(base, element_id, kind) {
        l is Some && is_static_listener(l->0, Some(element_id), matcher, seq![change_view(clear)])
    } else {
        l is None
    }
}

fn drag_clear_listener<C>(
    base: &Registry<C>,
    element_id: NodeId,
    kind: ListenerMatcherKind,
    matcher: ListenerMatcher,
    clear: RuntimeChange,
) -> (l: Option<Listener<RuntimeCompute>>)
    ensures
        spec_drag_clear_listener(base.precedence(), element_id, kind, matcher, clear, l),
{
    if !has_runtime_source(base, element_id, kind) {
        return None;
    }
    Some(static_listener(element_id, matcher, one_change(clear)))
}

/// A left release anywhere ends the text drag.
pub fn runtime_text_drag_release_clear_listener<C>(base: &Registry<C>, tracker: &TextDragTracker) -> (l:
    Option<Listener<RuntimeCompute>>)
    ensures
        spec_drag_clear_listener(
            base.precedence(),
            tracker.element_id,
            tracker.matcher_kind,
            ListenerMatcher::CursorButtonLeftReleaseAnywhere,
            RuntimeChange::ClearTextDragTracker,
            l,
        ),
{
    drag_clear_listener(
        base,
        tracker.element_id,
        tracker.matcher_kind,
        ListenerMatcher::CursorButtonLeftReleaseAnywhere,
        RuntimeChange::ClearTextDragTracker,
    )
}

/// Losing window focus ends the text drag.
pub fn runtime_text_drag_window_blur_clear_listener<C>(base: &Registry<C>, tracker: &TextDragTracker) -> (l:
    Option<Listener<RuntimeCompute>>)
    ensures
        spec_drag_clear_listener(
            base.precedence(),
            tracker.element_id,
            tracker.matcher_kind,
            ListenerMatcher::WindowBlurred,
            RuntimeChange::ClearTextDragTracker,
            l,
        ),
{
    drag_clear_listener(
        base,
        tracker.element_id,
        tracker.matcher_kind,
        ListenerMatcher::WindowBlurred,
        RuntimeChange::ClearTextDragTracker,
    )
}

/// The cursor leaving the window ends the text drag.
pub fn runtime_text_drag_window_leave_clear_listener<C>(base: &Registry<C>, tracker: &TextDragTracker) -> (l:
    Option<Listener<RuntimeCompute>>)
    ensures
        spec_drag_clear_listener(
            base.precedence(),
            tracker.element_id,
            tracker.matcher_kind,
            ListenerMatcher::WindowCursorLeft,
            RuntimeChange::ClearTextDragTracker,
            l,
        ),
{
    drag_clear_listener(
        base,
        tracker.element_id,
        tracker.matcher_kind,
        ListenerMatcher::WindowCursorLeft,
        RuntimeChange::ClearTextDragTracker,
    )
}

/// While a text drag lasts, every cursor move extends the selection to the
/// pointer.
pub fn runtime_text_drag_cursor_move_listener<C>(base: &Registry<C>, tracker: &TextDragTracker) -> (l:
    Option<Listener<RuntimeCompute>>)
    ensures
        if spec_has_runtime_source(base.precedence(), tracker.element_id, tracker.matcher_kind) {
            l == Some(
                Listener {
                    element_id: Some(tracker.element_id),
                    matcher: ListenerMatcher::CursorPosAnywhere,
                    compute: RuntimeCompute::TextInputCursorFromPointer {
                        element_id: tracker.element_id,
                        extend_selection: true,
                    },
                },
            )
        } else {
            l is None
        },
{
    if !has_runtime_source(base, tracker.element_id, tracker.matcher_kind) {
        return None;
    }
    Some(
        Listener {
            element_id: Some(tracker.element_id),
            matcher: ListenerMatcher::CursorPosAnywhere,
            compute: RuntimeCompute::TextInputCursorFromPointer {
                element_id: tracker.element_id,
                extend_selection: true,
            },
        },
    )
}

/// A left release anywhere ends the slider drag.
pub fn runtime_slider_drag_release_clear_listener<C>(base: &Registry<C>, tracker: &SliderDragTracker) -> (l:
    Option<Listener<RuntimeCompute>>)
    ensures
        spec_drag_clear_listener(
            base.precedence(),
            tracker.element_id,
            tracker.matcher_kind,
            ListenerMatcher::CursorButtonLeftReleaseAnywhere,
            RuntimeChange::ClearSliderDragTracker,
            l,
        ),
{
    drag_clear_listener(
        base,
        tracker.element_id,
        tracker.matcher_kind,
        ListenerMatcher::CursorButtonLeftReleaseAnywhere,
        RuntimeChange::ClearSliderDragTracker,
    )
}

/// Losing window focus ends the slider drag.
pub fn runtime_slider_drag_window_blur_clear_listener<C>(base: &Registry<C>, tracker: &SliderDragTracker) -> (l:
    Option<Listener<RuntimeCompute>>)
    ensures
        spec_drag_clear_listener(
            base.precedence(),
            tracker.element_id,
            tracker.matcher_kind,
            ListenerMatcher::WindowBlurred,
            RuntimeChange::ClearSliderDragTracker,
            l,
        ),
{
    drag_clear_listener(
        base,
        tracker.element_id,
        tracker.matcher_kind,
        ListenerMatcher::WindowBlurred,
        RuntimeChange::ClearSliderDragTracker,
    )
}

/// The cursor leaving the window ends the slider drag.
pub fn runtime_slider_drag_window_leave_clear_listener<C>(base: &Registry<C>, tracker: &SliderDragTracker) -> (l:
    Option<Listener<RuntimeCompute>>)
    ensures
        spec_drag_clear_listener(
            base.precedence(),
            tracker.element_id,
            tracker.matcher_kind,
            ListenerMatcher::WindowCursorLeft,
            RuntimeChange::ClearSliderDragTracker,
            l,
        ),
{
    drag_clear_listener(
        base,
        tracker.element_id,
        tracker.matcher_kind,
        ListenerMatcher::WindowCursorLeft,
        RuntimeChange::ClearSliderDragTracker,
    )
}

/// While a slider drag lasts, every cursor move sets the value from the
/// pointer.
pub fn runtime_slider_drag_move_listener<C>(base: &Registry<C>, tracker: &SliderDragTracker) -> (l: Option<
    Listener<RuntimeCompute>,
>)
    ensures
        if spec_has_runtime_source(base.precedence(), tracker.element_id, tracker.matcher_kind) {
            l == Some(
                Listener {
                    element_id: Some(tracker.element_id),
                    matcher: ListenerMatcher::CursorPosAnywhere,
                    compute: RuntimeCompute::SliderValueFromPointer { element_id: tracker.element_id },
                },
            )
        } else {
            l is None
        },
{
    if !has_runtime_source(base, tracker.element_id, tracker.matcher_kind) {
        return None;
    }
    Some(
        Listener {
            element_id: Some(tracker.element_id),
            matcher: ListenerMatcher::CursorPosAnywhere,
            compute: RuntimeCompute::SliderValueFromPointer { element_id: tracker.element_id },
        },
    )
}

/// What ends a virtual-key press: clearing the virtual-key tracker and
/// ending the element's click/press, if any.
pub open spec fn spec_virtual_key_clear(click_press: Option<ClickPressTracker>) -> Seq<ListenerActionView> {
    seq![change_view(RuntimeChange::ClearVirtualKeyTracker)] + spec_click_press_clear_for(click_press)
}

fn virtual_key_clear_actions(click_press: Option<&ClickPressTracker>) -> (actions: Vec<ListenerAction>)
    ensures
        actions_view(actions@) == spec_virtual_key_clear(
            match click_press {
                Some(t) => Some(*t),
                None => None,
            },
        ),
{
    let mut actions = one_change(RuntimeChange::ClearVirtualKeyTracker);
    let mut rest = click_press_clear_actions_for_element(click_press);
    let ghost first = actions@;
    let ghost second = rest@;
    actions.append(&mut rest);
    assert(actions_view(actions@) =~= actions_view(first) + actions_view(second));
    actions
}

/// A left release anywhere ends the virtual-key press.
pub fn runtime_virtual_key_release_anywhere_clear_listener(
    tracker: &VirtualKeyTracker,
    click_press: Option<&ClickPressTracker>,
) -> (l: Listener<RuntimeCompute>)
    ensures
        is_static_listener(
            l,
            Some(tracker.element_id),
            ListenerMatcher::CursorButtonLeftReleaseAnywhere,
            spec_virtual_key_clear(
                match click_press {
                    Some(t) => Some(*t),
                    None => None,
                },
            ),
        ),
{
    static_listener(
        tracker.element_id,
        ListenerMatcher::CursorButtonLeftReleaseAnywhere,
        virtual_key_clear_actions(click_press),
    )
}

/// Losing window focus ends the virtual-key press, after the base registry
/// has handled the blur.
pub fn runtime_virtual_key_window_blur_clear_listener(
    tracker: &VirtualKeyTracker,
    click_press: Option<&ClickPressTracker>,
) -> (l: Listener<RuntimeCompute>)
    ensures
        is_base_then_static_listener(
            l,
            Some(tracker.element_id),
            ListenerMatcher::WindowBlurred,
            spec_virtual_key_clear(
                match click_press {
                    Some(t) => Some(*t),
                    None => None,
                },
            ),
        ),
{
    Listener {
        element_id: Some(tracker.element_id),
        matcher: ListenerMatcher::WindowBlurred,
        compute: RuntimeCompute::DispatchBaseThenStatic(virtual_key_clear_actions(click_press)),
    }
}

/// The cursor leaving the window ends the virtual-key press, after the base
/// registry has handled the leave.
pub fn runtime_virtual_key_window_leave_clear_listener(
    tracker: &VirtualKeyTracker,
    click_press: Option<&ClickPressTracker>,
) -> (l: Listener<RuntimeCompute>)
    ensures
        is_base_then_static_listener(
            l,
            Some(tracker.element_id),
            ListenerMatcher::WindowCursorLeft,
            spec_virtual_key_clear(
                match click_press {
                    Some(t) => Some(*t),
                    None => None,
                },
            ),
        ),
{
    Listener {
        element_id: Some(tracker.element_id),
        matcher: ListenerMatcher::WindowCursorLeft,
        compute: RuntimeCompute::DispatchBaseThenStatic(virtual_key_clear_actions(click_press)),
    }
}

/// The listener that splits raw pointer input into lifecycle events.
pub fn runtime_pointer_lifecycle_splitter_listener() -> (l: Listener<RuntimeCompute>)
    ensures
        l == (Listener {
            element_id: None,
            matcher: ListenerMatcher::RawPointerLifecycle,
            compute: RuntimeCompute::RedispatchPointerLifecycle,
        }),
{
    Listener {
        element_id: None,
        matcher: ListenerMatcher::RawPointerLifecycle,
        compute: RuntimeCompute::RedispatchPointerLifecycle,
    }
}

/// The first source element of `trackers`.
pub open spec fn spec_first_source(trackers: Seq<KeyPressTrackerView>) -> Option<NodeId>
    decreases trackers.len(),
{
    if trackers.len() == 0 {
        None
    } else {
        match spec_first_source(trackers.drop_last()) {
            Some(id) => Some(id),
            None => trackers.last().source_element_id,
        }
    }
}

pub open spec fn trackers_view(trackers: Seq<KeyPressTracker>) -> Seq<KeyPressTrackerView> {
    trackers.map_values(|t: KeyPressTracker| key_press_tracker_view(t))
}

fn first_source(trackers: &Vec<KeyPressTracker>) -> (source: Option<NodeId>)
    ensures
        source == spec_first_source(trackers_view(trackers@)),
{
    let ghost v = trackers_view(trackers@);
    let mut k: usize = 0;
    let mut found: Option<NodeId> = None;
    while k < trackers.len()
        invariant
            k <= trackers@.len(),
            v == trackers_view(trackers@),
            v.len() == trackers@.len(),
            found == spec_first_source(v.take(k as int)),
        decreases trackers@.len() - k,
    {
        assert(v.take(k + 1).drop_last() =~= v.take(k as int));
        assert(v.take(k + 1).last() == key_press_tracker_view(trackers@[k as int]));
        if found.is_none() {
            found = trackers[k].source_element_id;
        }
        k = k + 1;
    }
    assert(v.take(v.len() as int) =~= v);
    found
}

/// While keys are held, losing window focus clears every key-press tracker
/// after the base registry has handled the blur; nothing without trackers.
pub fn runtime_key_press_window_blur_clear_listener(trackers: &Vec<KeyPressTracker>) -> (l: Option<
    Listener<RuntimeCompute>,
>)
    ensures
        if trackers@.len() == 0 {
            l is None
        } else {
            l is Some && is_base_then_static_listener(
                l->0,
                spec_first_source(trackers_view(trackers@)),
                ListenerMatcher::WindowBlurred,
                seq![change_view(RuntimeChange::ClearKeyPressTrackers)],
            )
        },
{
    if trackers.len() == 0 {
        return None;
    }
    Some(
        Listener {
            element_id: first_source(trackers),
            matcher: ListenerMatcher::WindowBlurred,
            compute: RuntimeCompute::DispatchBaseThenStatic(
                one_change(RuntimeChange::ClearKeyPressTrackers),
            ),
        },
    )
}

/// Whether `a` starts a tracker equal to `t`.
pub open spec fn starts_tracker(a: KeyBindingAction, t: KeyPressTrackerView) -> bool {
    match a {
        KeyBindingAction::StartKeyPressTracker(s) => key_press_tracker_view(s) == t,
        _ => false,
    }
}

/// Whether some key-binding listener of `base` starts a tracker equal to `t`.
pub open spec fn spec_has_key_press_source(
    base: Seq<Listener<Vec<KeyBindingAction>>>,
    t: KeyPressTrackerView,
) -> bool {
    exists|i: int, j: int|
        0 <= i < base.len() && 0 <= j < base[i].compute@.len() && starts_tracker(
            #[trigger] base[i].compute@[j],
            t,
        )
}

/// Whether `actions` starts a tracker equal to `tracker`.
fn actions_start_tracker(actions: &Vec<KeyBindingAction>, tracker: &KeyPressTracker) -> (found: bool)
    ensures
        found == exists|j: int|
            0 <= j < actions@.len() && starts_tracker(#[trigger] actions@[j], key_press_tracker_view(*tracker)),
{
    let mut k: usize = 0;
    while k < actions.len()
        invariant
            k <= actions@.len(),
            forall|j: int|
                0 <= j < k ==> !starts_tracker(#[trigger] actions@[j], key_press_tracker_view(*tracker)),
        decreases actions@.len() - k,
    {
        match &actions[k] {
            KeyBindingAction::StartKeyPressTracker(s) => {
                if key_press_trackers_equal(s, tracker) {
                    return true;
                }
            },
            _ => {},
        }
        k = k + 1;
    }
    false
}

/// Whether the base key-binding listeners still start `tracker`: a held key
/// keeps its release followup only while its binding exists.
pub fn base_has_key_press_source(base: &Registry<Vec<KeyBindingAction>>, tracker: &KeyPressTracker) -> (found:
    bool)
    ensures
        found == spec_has_key_press_source(base.precedence(), key_press_tracker_view(*tracker)),
{
    let n = base.len();
    let ghost prec = base.precedence();
    let ghost t = key_press_tracker_view(*tracker);
    let mut i: usize = 0;
    while i < n
        invariant
            n == base.storage().len(),
            prec == base.precedence(),
            prec.len() == n,
            t == key_press_tracker_view(*tracker),
            i <= n,
            forall|a: int, j: int|
                0 <= a < i && 0 <= j < prec[a].compute@.len() ==> !starts_tracker(
                    #[trigger] prec[a].compute@[j],
                    t,
                ),
        decreases n - i,
    {
        let listener = base.listener_in_precedence(i);
        if actions_start_tracker(&listener.compute, tracker) {
            return true;
        }
        i = i + 1;
    }
    false
}

/// The keys of key groups.
pub open spec fn group_keys(groups: Seq<(CanonicalKey, Seq<KeyPressTrackerView>)>) -> Seq<CanonicalKey> {
    groups.map_values(|g: (CanonicalKey, Seq<KeyPressTrackerView>)| g.0)
}

/// Key-press trackers grouped by key, in order of first appearance, each
/// group keeping tracker order.
pub open spec fn spec_group_by_key(trackers: Seq<KeyPressTrackerView>) -> Seq<
    (CanonicalKey, Seq<KeyPressTrackerView>),
>
    decreases trackers.len(),
{
    if trackers.len() == 0 {
        Seq::empty()
    } else {
        let groups = spec_group_by_key(trackers.drop_last());
        let t = trackers.last();
        match spec_first_index(group_keys(groups), t.key) {
            Some(i) => groups.update(i, (t.key, groups[i].1.push(t))),
            None => groups.push((t.key, seq![t])),
        }
    }
}

/// The trackers of `trackers` whose binding is still in `base`, in order.
pub open spec fn spec_sourced(
    base: Seq<Listener<Vec<KeyBindingAction>>>,
    trackers: Seq<KeyPressTrackerView>,
) -> Seq<KeyPressTrackerView>
    decreases trackers.len(),
{
    if trackers.len() == 0 {
        Seq::empty()
    } else {
        let kept = spec_sourced(base, trackers.drop_last());
        if spec_has_key_press_source(base, trackers.last()) {
            kept.push(trackers.last())
        } else {
            kept
        }
    }
}

/// Whether `l` is the release listener of key group `g`.
pub open spec fn is_key_release_listener(
    l: Listener<RuntimeCompute>,
    g: (CanonicalKey, Seq<KeyPressTrackerView>),
) -> bool {
    &&& l.element_id == spec_first_source(g.1)
    &&& l.matcher == ListenerMatcher::KeyReleaseTracked { key: g.0 }
    &&& l.compute matches RuntimeCompute::KeyPressReleaseFollowupToBase { key, trackers } && key == g.0
        && trackers_view(trackers@) == g.1
}

/// A group of trackers of one key.
struct KeyGroup {
    key: CanonicalKey,
    trackers: Vec<KeyPressTracker>,
}

spec fn groups_view(groups: Seq<KeyGroup>) -> Seq<(CanonicalKey, Seq<KeyPressTrackerView>)> {
    groups.map_values(|g: KeyGroup| (g.key, trackers_view(g.trackers@)))
}

fn find_group(groups: &Vec<KeyGroup>, key: CanonicalKey) -> (found: Option<usize>)
    ensures
        match found {
            Some(i) => spec_first_index(
                group_keys(groups_view(groups@)),
                key,
            ) == Some(i as int),
            None => spec_first_index(
                group_keys(groups_view(groups@)),
                key,
            ) is None,
        },
{
    let ghost keys = group_keys(groups_view(groups@));
    proof {
        lemma_first_index(keys, key);
    }
    let mut k: usize = 0;
    while k < groups.len()
        invariant
            k <= groups@.len(),
            keys == group_keys(groups_view(groups@)),
            keys.len() == groups@.len(),
            forall|j: int| 0 <= j < k ==> keys[j] != key,
            match spec_first_index(keys, key) {
                Some(i) => 0 <= i < keys.len() && keys[i] == key && forall|j: int| 0 <= j < i ==> keys[j] != key,
                None => forall|j: int| 0 <= j < keys.len() ==> keys[j] != key,
            },
        decreases groups.len() - k,
    {
        assert(keys[k as int] == groups@[k as int].key);
        if groups[k].key == key {
            return Some(k);
        }
        k = k + 1;
    }
    None
}

/// The release listeners of held keys: trackers whose binding is gone are
/// dropped, the rest are grouped by key, and each group becomes one
/// release listener owned by the group's first source element.
pub fn runtime_key_press_release_listeners(
    base: &Registry<Vec<KeyBindingAction>>,
    trackers: Vec<KeyPressTracker>,
) -> (listeners: Vec<Listener<RuntimeCompute>>)
    ensures
        ({
            let groups = spec_group_by_key(spec_sourced(base.precedence(), trackers_view(trackers@)));
            &&& listeners@.len() == groups.len()
            &&& forall|i: int|
                0 <= i < groups.len() ==> is_key_release_listener(#[trigger] listeners@[i], groups[i])
        }),
{
    let ghost all = trackers_view(trackers@);
    let ghost prec = base.precedence();
    let mut rest = trackers;
    let mut groups: Vec<KeyGroup> = Vec::new();
    let n = rest.len();
    let mut k: usize = 0;
    while k < n
        invariant
            k <= n,
            n == all.len(),
            prec == base.precedence(),
            rest@.len() == n - k,
            trackers_view(rest@) == all.skip(k as int),
            groups_view(groups@) == spec_group_by_key(spec_sourced(prec, all.take(k as int))),
        decreases n - k,
    {
        let ghost before_rest = rest@;
        let tracker = rest.remove(0);
        assert(rest@ =~= before_rest.skip(1));
        assert(trackers_view(rest@) =~= trackers_view(before_rest).skip(1));
        assert(all.skip(k as int).skip(1) =~= all.skip(k + 1));
        assert(tracker == before_rest[0]);
        assert(trackers_view(before_rest)[0] == key_press_tracker_view(before_rest[0]));
        assert(all.skip(k as int)[0] == all[k as int]);
        assert(key_press_tracker_view(tracker) == all[k as int]);
        assert(all.take(k + 1).drop_last() =~= all.take(k as int));
        assert(all.take(k + 1).last() == all[k as int]);
        let ghost prefix = spec_sourced(prec, all.take(k as int));
        if base_has_key_press_source(base, &tracker) {
            let ghost before = groups_view(groups@);
            let ghost tv = key_press_tracker_view(tracker);
            assert(spec_sourced(prec, all.take(k + 1)) == prefix.push(tv));
            assert(prefix.push(tv).drop_last() =~= prefix);
            let key = tracker.key;
            proof {
                lemma_first_index(
                    group_keys(before),
                    key,
                );
            }
            match find_group(&groups, key) {
                Some(i) => {
                    let mut group = groups.remove(i);
                    let ghost old_trackers = group.trackers@;
                    group.trackers.push(tracker);
                    assert(trackers_view(group.trackers@) =~= trackers_view(old_trackers).push(tv));
                    groups.insert(i, group);
                    assert(groups_view(groups@) =~= before.update(
                        i as int,
                        (key, before[i as int].1.push(tv)),
                    ));
                },
                None => {
                    let mut grouped = Vec::new();
                    grouped.push(tracker);
                    assert(trackers_view(grouped@) =~= seq![tv]);
                    groups.push(KeyGroup { key, trackers: grouped });
                    assert(groups_view(groups@) =~= before.push((key, seq![tv])));
                },
            }
        }
        k = k + 1;
    }
    assert(all.take(n as int) =~= all);
    let ghost final_groups = groups_view(groups@);
    let mut listeners: Vec<Listener<RuntimeCompute>> = Vec::new();
    let m = groups.len();
    let mut k: usize = 0;
    while k < m
        invariant
            k <= m,
            m == final_groups.len(),
            groups@.len() == m - k,
            groups_view(groups@) == final_groups.skip(k as int),
            listeners@.len() == k,
            forall|i: int| 0 <= i < k ==> is_key_release_listener(#[trigger] listeners@[i], final_groups[i]),
        decreases m - k,
    {
        let ghost before = groups@;
        let group = groups.remove(0);
        assert(groups@ =~= before.skip(1));
        assert(groups_view(groups@) =~= groups_view(before).skip(1));
        assert(final_groups.skip(k as int).skip(1) =~= final_groups.skip(k + 1));
        assert(group == before[0]);
        assert(groups_view(before)[0] == (before[0].key, trackers_view(before[0].trackers@)));
        assert(final_groups.skip(k as int)[0] == final_groups[k as int]);
        assert((group.key, trackers_view(group.trackers@)) == final_groups[k as int]);
        let source = first_source(&group.trackers);
        let key = group.key;
        listeners.push(
            Listener {
                element_id: source,
                matcher: ListenerMatcher::KeyReleaseTracked { key },
                compute: RuntimeCompute::KeyPressReleaseFollowupToBase { key, trackers: group.trackers },
            },
        );
        k = k + 1;
    }
    listeners
}

/// Held keys get one release listener per key, and each listener follows
/// up only trackers of its own key.
pub proof fn law_one_release_listener_per_key(trackers: Seq<KeyPressTrackerView>)
    ensures
        group_keys(spec_group_by_key(trackers)).no_duplicates(),
        forall|i: int, j: int|
            0 <= i < spec_group_by_key(trackers).len() && 0 <= j < spec_group_by_key(trackers)[i].1.len()
                ==> (#[trigger] spec_group_by_key(trackers)[i].1[j]).key == spec_group_by_key(trackers)[i].0,
    decreases trackers.len(),
{
    if trackers.len() > 0 {
        let prefix = trackers.drop_last();
        law_one_release_listener_per_key(prefix);
        let groups = spec_group_by_key(prefix);
        let t = trackers.last();
        let keys = group_keys(groups);
        lemma_first_index(keys, t.key);
        let result = spec_group_by_key(trackers);
        match spec_first_index(keys, t.key) {
            Some(i) => {
                assert(group_keys(result) =~= keys);
                assert forall|a: int, j: int|
                    0 <= a < result.len() && 0 <= j < result[a].1.len() implies (
                    #[trigger] result[a].1[j]).key == result[a].0 by {
                    if a == i {
                        if j < groups[a].1.len() {
                            assert(result[a].1[j] == groups[a].1[j]);
                        }
                    } else {
                        assert(result[a] == groups[a]);
                    }
                }
            },
            None => {
                assert(group_keys(result) =~= keys.push(t.key));
                assert forall|a: int, j: int|
                    0 <= a < result.len() && 0 <= j < result[a].1.len() implies (
                    #[trigger] result[a].1[j]).key == result[a].0 by {
                    if a < groups.len() {
                        assert(result[a] == groups[a]);
                    }
                }
            },
        }
    }
}

/// The key-press tracker action that binding `b` of element `id` puts in
/// its key-down slot.
pub open spec fn press_action(id: NodeId, b: KeyBindingSpec) -> KeyBindingActionView {
    KeyBindingActionView::StartKeyPressTracker {
        source_element_id: Some(id),
        key: b.key,
        mods: b.mods,
        match_mode: b.match_mode,
        followups: seq![(id, b.route@)],
    }
}

/// Whether some slot holds action `a`.
pub open spec fn slots_hold(slots: Seq<UserKeySlotView>, a: KeyBindingActionView) -> bool {
    exists|i: int, j: int| 0 <= i < slots.len() && 0 <= j < slots[i].actions.len() && #[trigger] slots[i].actions[j] == a
}

proof fn lemma_push_keeps_and_adds(slots: Seq<UserKeySlotView>, sig: SlotSignature, b: KeyBindingActionView, a: KeyBindingActionView)
    ensures
        slots_hold(slots, a) ==> slots_hold(spec_push_slot_action(slots, sig, b), a),
        slots_hold(spec_push_slot_action(slots, sig, b), b),
{
    let sigs = crate::events::key_bindings::signatures(slots);
    lemma_first_index(sigs, sig);
    let after = spec_push_slot_action(slots, sig, b);
    match spec_first_index(sigs, sig) {
        Some(k) => {
            assert(after[k].actions[slots[k].actions.len() as int] == b);
            if slots_hold(slots, a) {
                let (i, j) = choose|i: int, j: int| 0 <= i < slots.len() && 0 <= j < slots[i].actions.len() && #[trigger] slots[i].actions[j] == a;
                assert(after[i].actions[j] == a);
            }
        },
        None => {
            assert(after[slots.len() as int].actions[0] == b);
            if slots_hold(slots, a) {
                let (i, j) = choose|i: int, j: int| 0 <= i < slots.len() && 0 <= j < slots[i].actions.len() && #[trigger] slots[i].actions[j] == a;
                assert(after[i].actions[j] == a);
            }
        },
    }
}

proof fn lemma_press_slots_hold(start: Seq<UserKeySlotView>, id: NodeId, press: Seq<KeyBindingSpec>, k: int)
    requires
        0 <= k < press.len(),
    ensures
        slots_hold(spec_press_slots(start, id, press), press_action(id, press[k])),
    decreases press.len(),
{
    let prefix = press.drop_last();
    let b = press.last();
    let before = spec_press_slots(start, id, prefix);
    lemma_push_keeps_and_adds(before, binding_signature(UserKeySlotPhase::Down, b), press_action(id, b), press_action(id, press[k]));
    if k < press.len() - 1 {
        assert(prefix[k] == press[k]);
        lemma_press_slots_hold(start, id, prefix, k);
    }
}

proof fn lemma_up_slots_keep(start: Seq<UserKeySlotView>, id: NodeId, up: Seq<KeyBindingSpec>, a: KeyBindingActionView)
    requires
        slots_hold(start, a),
    ensures
        slots_hold(spec_up_slots(start, id, up), a),
    decreases up.len(),
{
    if up.len() > 0 {
        let b = up.last();
        lemma_up_slots_keep(start, id, up.drop_last(), a);
        lemma_push_keeps_and_adds(
            spec_up_slots(start, id, up.drop_last()),
            binding_signature(UserKeySlotPhase::Up, b),
            KeyBindingActionView::KeyUp { element_id: id, route: b.route@ },
            a,
        );
    }
}

/// A key press started by a key-press binding of a focused element keeps
/// its source: listeners built from that element's bindings hold the start
/// of exactly that tracker, so the release listener of the held key is
/// kept while those listeners are in the base registry.
pub proof fn law_bound_key_press_has_source(
    id: NodeId,
    kind: InteractionKind,
    on_key_down: Seq<KeyBindingSpec>,
    on_key_press: Seq<KeyBindingSpec>,
    on_key_up: Seq<KeyBindingSpec>,
    k: int,
    listeners: Seq<Listener<Vec<KeyBindingAction>>>,
)
    requires
        0 <= k < on_key_press.len(),
        listeners.len() == spec_key_binding_slots(id, kind, on_key_down, on_key_press, on_key_up).len(),
        forall|i: int|
            0 <= i < listeners.len() ==> is_slot_listener(
                #[trigger] listeners[i],
                id,
                spec_key_binding_slots(id, kind, on_key_down, on_key_press, on_key_up)[i],
            ),
    ensures
        spec_has_key_press_source(
            listeners,
            KeyPressTrackerView {
                source_element_id: Some(id),
                key: on_key_press[k].key,
                mods: on_key_press[k].mods,
                match_mode: on_key_press[k].match_mode,
                followups: seq![(id, on_key_press[k].route@)],
            },
        ),
{
    let slots = spec_key_binding_slots(id, kind, on_key_down, on_key_press, on_key_up);
    let a = press_action(id, on_key_press[k]);
    let pressed = spec_press_slots(spec_down_slots(id, kind, on_key_down), id, on_key_press);
    lemma_press_slots_hold(spec_down_slots(id, kind, on_key_down), id, on_key_press, k);
    lemma_up_slots_keep(pressed, id, on_key_up, a);
    let (i, j) = choose|i: int, j: int| 0 <= i < slots.len() && 0 <= j < slots[i].actions.len() && #[trigger] slots[i].actions[j] == a;
    let l = listeners[i];
    assert(is_slot_listener(l, id, slots[i]));
    assert(binding_actions_view(l.compute@)[j] == a);
    let action = l.compute@[j];
    assert(action@ == a);
    match action {
        KeyBindingAction::StartKeyPressTracker(t) => {
            assert(t.followups@.map_values(|f: KeyPressFollowup| followup_view(f)) == seq![(id, on_key_press[k].route@)]);
            assert(key_press_tracker_view(t).followups =~= t.followups@.map_values(|f: KeyPressFollowup| followup_view(f))) by {
                assert forall|x: int| 0 <= x < t.followups@.len() implies #[trigger] key_press_tracker_view(t).followups[x]
                    == t.followups@.map_values(|f: KeyPressFollowup| followup_view(f))[x] by {
                    match t.followups@[x] {
                        KeyPressFollowup::ElixirEvent { .. } => {},
                    }
                }
            }
            assert(starts_tracker(action, KeyPressTrackerView {
                source_element_id: Some(id),
                key: on_key_press[k].key,
                mods: on_key_press[k].mods,
                match_mode: on_key_press[k].match_mode,
                followups: seq![(id, on_key_press[k].route@)],
            }));
        },
        _ => {},
    }
}


/// What a runtime listener's computation gives for `input`, with `base`
/// the base registry's actions for it; `None` for the computations that
/// need the pointer position or a redispatch, which the caller performs.
pub open spec fn spec_runtime_compute(
    compute: RuntimeCompute,
    input: InputSignal,
    base: Seq<ListenerActionView>,
) -> Option<Seq<ListenerActionView>> {
    match compute {
        RuntimeCompute::Static(a) => Some(actions_view(a@)),
        RuntimeCompute::DispatchBaseThenStatic(a) => Some(base + actions_view(a@)),
        RuntimeCompute::TextInputCursorFromPointer { element_id, extend_selection } => Some(
            spec_text_compute(
                TextInputCompute::TextInputCursorFromPointer { element_id, extend_selection },
                input,
                None,
                false,
            ),
        ),
        RuntimeCompute::KeyPressReleaseFollowupToBase { key, trackers } => Some(
            if spec_matches(ListenerMatcher::KeyReleaseTracked { key }, input) {
                base + spec_matching_tracker_events(trackers@, key_mods(input)) + seq![
                    ListenerActionView::RuntimeChange(RuntimeChange::ClearKeyPressTrackersForKey { key }),
                ]
            } else {
                Seq::empty()
            },
        ),
        RuntimeCompute::ClickPressReleaseFollowupToBase { tracker } => Some(
            if spec_matches(ListenerMatcher::CursorButtonLeftReleaseAnywhere, input) {
                base + spec_click_press_followup(tracker, base)
            } else {
                Seq::empty()
            },
        ),
        _ => None,
    }
}

impl RuntimeCompute {
    /// The actions of this computation for `input`, given the base
    /// registry's actions for it.
    pub fn compute_input(&self, input: &InputSignal, base: Vec<ListenerAction>) -> (actions: Option<Vec<ListenerAction>>)
        ensures
            match actions {
                Some(a) => spec_runtime_compute(*self, *input, actions_view(base@)) == Some(actions_view(a@)),
                None => spec_runtime_compute(*self, *input, actions_view(base@)) is None,
            },
    {
        match self {
            RuntimeCompute::Static(a) => Some(append_copies(Vec::new(), a)),
            RuntimeCompute::DispatchBaseThenStatic(a) => Some(append_copies(base, a)),
            RuntimeCompute::TextInputCursorFromPointer { element_id, extend_selection } => {
                Some(as_actions(text_cursor_action_from_input(input, *element_id, *extend_selection)))
            },
            RuntimeCompute::KeyPressReleaseFollowupToBase { key, trackers } => Some(
                key_press_release_followup(*key, trackers, input, base),
            ),
            RuntimeCompute::ClickPressReleaseFollowupToBase { tracker } => Some(
                click_press_release_followup(tracker, input, base),
            ),
            _ => None,
        }
    }
}


/// What ends a drag: clearing the drag and the click/press trackers.
pub open spec fn spec_drag_tracker_clear() -> Seq<ListenerActionView> {
    seq![change_view(RuntimeChange::ClearDragTracker), change_view(RuntimeChange::ClearClickPressTracker)]
}

/// The element and source kind of a drag in one of the given phases.
pub open spec fn drag_source(drag: DragTracker, candidate: bool, active: bool) -> Option<(NodeId, ListenerMatcherKind)> {
    match drag {
        DragTracker::Candidate { element_id, matcher_kind } => if candidate {
            Some((element_id, matcher_kind))
        } else {
            None
        },
        DragTracker::Active { element_id, matcher_kind } => if active {
            Some((element_id, matcher_kind))
        } else {
            None
        },
        DragTracker::Inactive => None,
    }
}

/// A drag clear on `matcher` for a drag in one of the given phases, while
/// the drag's source listener is still in `base`.
pub open spec fn spec_drag_tracker_clear_listener<C>(
    base: Seq<Listener<C>>,
    drag: DragTracker,
    candidate: bool,
    active: bool,
    matcher: ListenerMatcher,
    l: Option<Listener<RuntimeCompute>>,
) -> bool {
    match drag_source(drag, candidate, active) {
        Some((id, kind)) => if spec_has_runtime_source(base, id, kind) {
            l is Some && is_static_listener(l->0, Some(id), matcher, spec_drag_tracker_clear())
        } else {
            l is None
        },
        None => l is None,
    }
}

fn drag_tracker_clear_listener<C>(
    base: &Registry<C>,
    drag: &DragTracker,
    candidate: bool,
    active: bool,
    matcher: ListenerMatcher,
) -> (l: Option<Listener<RuntimeCompute>>)
    ensures
        spec_drag_tracker_clear_listener(base.precedence(), *drag, candidate, active, matcher, l),
{
    let (id, kind) = match drag {
        DragTracker::Candidate { element_id, matcher_kind } => if candidate {
            (*element_id, *matcher_kind)
        } else {
            return None;
        },
        DragTracker::Active { element_id, matcher_kind } => if active {
            (*element_id, *matcher_kind)
        } else {
            return None;
        },
        DragTracker::Inactive => {
            return None;
        },
    };
    if !has_runtime_source(base, id, kind) {
        return None;
    }
    let mut actions: Vec<ListenerAction> = Vec::new();
    actions.push(ListenerAction::RuntimeChange(RuntimeChange::ClearDragTracker));
    actions.push(ListenerAction::RuntimeChange(RuntimeChange::ClearClickPressTracker));
    assert(actions@[0]@ == change_view(RuntimeChange::ClearDragTracker));
    assert(actions@[1]@ == change_view(RuntimeChange::ClearClickPressTracker));
    assert(actions_view(actions@) =~= spec_drag_tracker_clear());
    Some(static_listener(id, matcher, actions))
}

/// A left release anywhere ends an active drag.
pub fn runtime_drag_active_release_clear_listener<C>(base: &Registry<C>, drag: &DragTracker) -> (l: Option<
    Listener<RuntimeCompute>,
>)
    ensures
        spec_drag_tracker_clear_listener(
            base.precedence(),
            *drag,
            false,
            true,
            ListenerMatcher::CursorButtonLeftReleaseAnywhere,
            l,
        ),
{
    drag_tracker_clear_listener(base, drag, false, true, ListenerMatcher::CursorButtonLeftReleaseAnywhere)
}

/// A left release anywhere ends a drag candidate.
pub fn runtime_drag_candidate_release_anywhere_clear_listener<C>(base: &Registry<C>, drag: &DragTracker) -> (l:
    Option<Listener<RuntimeCompute>>)
    ensures
        spec_drag_tracker_clear_listener(
            base.precedence(),
            *drag,
            true,
            false,
            ListenerMatcher::CursorButtonLeftReleaseAnywhere,
            l,
        ),
{
    drag_tracker_clear_listener(base, drag, true, false, ListenerMatcher::CursorButtonLeftReleaseAnywhere)
}

/// Losing window focus ends a drag candidate or a drag.
pub fn runtime_drag_window_blur_clear_listener<C>(base: &Registry<C>, drag: &DragTracker) -> (l: Option<
    Listener<RuntimeCompute>,
>)
    ensures
        spec_drag_tracker_clear_listener(base.precedence(), *drag, true, true, ListenerMatcher::WindowBlurred, l),
{
    drag_tracker_clear_listener(base, drag, true, true, ListenerMatcher::WindowBlurred)
}

/// The cursor leaving the window ends a drag candidate or a drag.
pub fn runtime_drag_window_leave_clear_listener<C>(base: &Registry<C>, drag: &DragTracker) -> (l: Option<
    Listener<RuntimeCompute>,
>)
    ensures
        spec_drag_tracker_clear_listener(base.precedence(), *drag, true, true, ListenerMatcher::WindowCursorLeft, l),
{
    drag_tracker_clear_listener(base, drag, true, true, ListenerMatcher::WindowCursorLeft)
}

/// Losing window focus ends the swipe.
pub fn runtime_swipe_window_blur_clear_listener<C>(base: &Registry<C>, tracker: &SwipeTracker) -> (l: Option<
    Listener<RuntimeCompute>,
>)
    ensures
        spec_drag_clear_listener(
            base.precedence(),
            tracker.element_id,
            tracker.matcher_kind,
            ListenerMatcher::WindowBlurred,
            RuntimeChange::ClearSwipeTracker,
            l,
        ),
{
    drag_clear_listener(
        base,
        tracker.element_id,
        tracker.matcher_kind,
        ListenerMatcher::WindowBlurred,
        RuntimeChange::ClearSwipeTracker,
    )
}

/// The cursor leaving the window ends the swipe.
pub fn runtime_swipe_window_leave_clear_listener<C>(base: &Registry<C>, tracker: &SwipeTracker) -> (l: Option<
    Listener<RuntimeCompute>,
>)
    ensures
        spec_drag_clear_listener(
            base.precedence(),
            tracker.element_id,
            tracker.matcher_kind,
            ListenerMatcher::WindowCursorLeft,
            RuntimeChange::ClearSwipeTracker,
            l,
        ),
{
    drag_clear_listener(
        base,
        tracker.element_id,
        tracker.matcher_kind,
        ListenerMatcher::WindowCursorLeft,
        RuntimeChange::ClearSwipeTracker,
    )
}

/// The release listener of a click/press that started with a left press
/// inside the element: a left release inside the same region (the
/// containment answer for it is the press region's) runs the click/press
/// followups after the base registry's release. Nothing when the press's
/// source is gone or was no press inside a region.
pub open spec fn spec_click_press_release_listener<C>(
    base: Seq<Listener<C>>,
    tracker: ClickPressTracker,
) -> Option<Listener<RuntimeCompute>> {
    if spec_has_runtime_source(base, tracker.element_id, tracker.matcher_kind) && tracker.matcher_kind
        == ListenerMatcherKind::CursorButtonLeftPressInside {
        Some(
            Listener {
                element_id: Some(tracker.element_id),
                matcher: ListenerMatcher::Region(RegionMatcher::CursorButtonLeftReleaseInside),
                compute: RuntimeCompute::ClickPressReleaseFollowupToBase { tracker },
            },
        )
    } else {
        None
    }
}

pub fn runtime_click_press_release_listener<C>(base: &Registry<C>, tracker: &ClickPressTracker) -> (l: Option<
    Listener<RuntimeCompute>,
>)
    ensures
        l == spec_click_press_release_listener(base.precedence(), *tracker),
{
    if tracker.matcher_kind != ListenerMatcherKind::CursorButtonLeftPressInside {
        return None;
    }
    if !has_runtime_source(base, tracker.element_id, tracker.matcher_kind) {
        return None;
    }
    Some(
        Listener {
            element_id: Some(tracker.element_id),
            matcher: ListenerMatcher::Region(RegionMatcher::CursorButtonLeftReleaseInside),
            compute: RuntimeCompute::ClickPressReleaseFollowupToBase { tracker: *tracker },
        },
    )
}

/// Whether `base` holds a directional scroll listener.
pub open spec fn spec_has_directional_scroll<C>(base: Seq<Listener<C>>) -> bool {
    exists|i: int|
        0 <= i < base.len() && spec_matcher_kind((#[trigger] base[i]).matcher)
            == ListenerMatcherKind::CursorScrollInsideDirection
}

/// While the base registry has directional scroll listeners, scroll input
/// is split into directional scrolls first.
pub fn runtime_scroll_input_splitter_listener<C>(base: &Registry<C>) -> (l: Option<Listener<RuntimeCompute>>)
    ensures
        l == (if spec_has_directional_scroll(base.precedence()) {
            Some(
                Listener {
                    element_id: None,
                    matcher: ListenerMatcher::CursorScrollAny,
                    compute: RuntimeCompute::RedispatchScrollInput,
                },
            )
        } else {
            None
        }),
{
    let n = base.len();
    let ghost prec = base.precedence();
    let mut i: usize = 0;
    while i < n
        invariant
            n == base.storage().len(),
            prec == base.precedence(),
            prec.len() == n,
            i <= n,
            forall|j: int|
                0 <= j < i ==> spec_matcher_kind((#[trigger] prec[j]).matcher)
                    != ListenerMatcherKind::CursorScrollInsideDirection,
        decreases n - i,
    {
        let listener = base.listener_in_precedence(i);
        if listener.matcher.kind() == ListenerMatcherKind::CursorScrollInsideDirection {
            return Some(
                Listener {
                    element_id: None,
                    matcher: ListenerMatcher::CursorScrollAny,
                    compute: RuntimeCompute::RedispatchScrollInput,
                },
            );
        }
        i = i + 1;
    }
    None
}

} // verus!
