//! The runtime overlay: the listeners of in-flight interactions, assembled
//! in precedence order over the base registry.
//!
//! The order is the overlay's precedence table: the scroll-input splitter
//! (while directional scroll listeners exist) and the pointer-lifecycle
//! splitter; the release clear of an active drag; key releases of held
//! keys; the click/press release followup; the release-anywhere clears of a
//! drag candidate, a virtual key and a click/press; the window-blur clears
//! (drag, virtual key, held keys, swipe, click/press); the slider and text
//! drags (release, move, blur); and the window-leave clears (drag, virtual
//! key, swipe, click/press, text drag, slider drag). The listeners whose
//! computation or matching reads pointer coordinates (the drag move and
//! threshold, the swipe release, the scrollbar drag, a virtual key's own
//! release and leave-cancel) are not part of this block.
use vstd::prelude::*;

use crate::events::contributors::{KeyPressTracker, KeyPressTrackerView};
use crate::events::followups::ListenerActionView;
use crate::events::key_bindings::KeyBindingAction;
use crate::events::registry_builder::{
    click_press_tracker_for_element, ClickPressTracker, Listener, ListenerMatcher, ListenerMatcherKind,
    NodeId, Registry, RuntimeChange, SliderDragTracker, TextDragTracker,
};
use crate::events::runtime_listeners::{
    drag_source, runtime_click_press_release_listener, runtime_drag_active_release_clear_listener,
    runtime_drag_candidate_release_anywhere_clear_listener, runtime_drag_window_blur_clear_listener,
    runtime_drag_window_leave_clear_listener, runtime_scroll_input_splitter_listener,
    runtime_swipe_window_blur_clear_listener, runtime_swipe_window_leave_clear_listener,
    spec_click_press_release_listener, spec_drag_tracker_clear, spec_has_directional_scroll, DragTracker,
    SwipeTracker,
};
use crate::events::runtime_listeners::{
    change_view, runtime_click_press_release_anywhere_clear_listener,
    runtime_click_press_window_blur_clear_listener, runtime_click_press_window_leave_clear_listener,
    runtime_key_press_release_listeners, runtime_key_press_window_blur_clear_listener,
    runtime_pointer_lifecycle_splitter_listener, runtime_slider_drag_move_listener,
    runtime_slider_drag_release_clear_listener, runtime_slider_drag_window_blur_clear_listener,
    runtime_slider_drag_window_leave_clear_listener, runtime_text_drag_cursor_move_listener,
    runtime_text_drag_release_clear_listener, runtime_text_drag_window_blur_clear_listener,
    runtime_text_drag_window_leave_clear_listener, runtime_virtual_key_release_anywhere_clear_listener,
    runtime_virtual_key_window_blur_clear_listener, runtime_virtual_key_window_leave_clear_listener,
    spec_click_press_clear, spec_first_source, spec_group_by_key, spec_has_runtime_source, spec_sourced,
    spec_virtual_key_clear, trackers_view, RuntimeCompute, VirtualKeyTracker,
};

verus! {

/// What a runtime listener computes, with its actions taken as views.
pub enum RuntimeComputeView {
    Static(Seq<ListenerActionView>),
    DispatchBaseThenStatic(Seq<ListenerActionView>),
    TextInputCursorFromPointer { element_id: NodeId, extend_selection: bool },
    SliderValueFromPointer { element_id: NodeId },
    RedispatchPointerLifecycle,
    KeyPressReleaseFollowupToBase { key: crate::keys::CanonicalKey, trackers: Seq<KeyPressTrackerView> },
    ClickPressReleaseFollowupToBase { tracker: ClickPressTracker },
    RedispatchScrollInput,
}

/// A runtime listener, with its computation taken as a view.
pub struct RuntimeListenerView {
    pub element_id: Option<NodeId>,
    pub matcher: ListenerMatcher,
    pub compute: RuntimeComputeView,
}

pub open spec fn runtime_listener_view(l: Listener<RuntimeCompute>) -> RuntimeListenerView {
    RuntimeListenerView {
        element_id: l.element_id,
        matcher: l.matcher,
        compute: match l.compute {
            RuntimeCompute::Static(a) => RuntimeComputeView::Static(
                crate::events::followups::actions_view(a@),
            ),
            RuntimeCompute::DispatchBaseThenStatic(a) => RuntimeComputeView::DispatchBaseThenStatic(
                crate::events::followups::actions_view(a@),
            ),
            RuntimeCompute::TextInputCursorFromPointer { element_id, extend_selection } =>
                RuntimeComputeView::TextInputCursorFromPointer { element_id, extend_selection },
            RuntimeCompute::SliderValueFromPointer { element_id } =>
                RuntimeComputeView::SliderValueFromPointer { element_id },
            RuntimeCompute::RedispatchPointerLifecycle => RuntimeComputeView::RedispatchPointerLifecycle,
            RuntimeCompute::KeyPressReleaseFollowupToBase { key, trackers } =>
                RuntimeComputeView::KeyPressReleaseFollowupToBase { key, trackers: trackers_view(trackers@) },
            RuntimeCompute::ClickPressReleaseFollowupToBase { tracker } =>
                RuntimeComputeView::ClickPressReleaseFollowupToBase { tracker },
            RuntimeCompute::RedispatchScrollInput => RuntimeComputeView::RedispatchScrollInput,
        },
    }
}

pub open spec fn block_view(block: Seq<Listener<RuntimeCompute>>) -> Seq<RuntimeListenerView> {
    block.map_values(|l: Listener<RuntimeCompute>| runtime_listener_view(l))
}

/// The in-flight interactions that the overlay serves.
pub struct RuntimeOverlayState {
    pub drag: DragTracker,
    pub swipe: Option<SwipeTracker>,
    pub click_press: Option<ClickPressTracker>,
    pub virtual_key: Option<VirtualKeyTracker>,
    pub key_presses: Vec<KeyPressTracker>,
    pub text_drag: Option<TextDragTracker>,
    pub slider_drag: Option<SliderDragTracker>,
}

pub open spec fn static_view(element_id: NodeId, matcher: ListenerMatcher, actions: Seq<ListenerActionView>) -> RuntimeListenerView {
    RuntimeListenerView {
        element_id: Some(element_id),
        matcher,
        compute: RuntimeComputeView::Static(actions),
    }
}

pub open spec fn base_then_static_view(
    element_id: Option<NodeId>,
    matcher: ListenerMatcher,
    actions: Seq<ListenerActionView>,
) -> RuntimeListenerView {
    RuntimeListenerView { element_id, matcher, compute: RuntimeComputeView::DispatchBaseThenStatic(actions) }
}

/// The click/press tracker of `element_id`, if that is the one held.
pub open spec fn click_press_of(click_press: Option<ClickPressTracker>, element_id: NodeId) -> Option<
    ClickPressTracker,
> {
    match click_press {
        Some(t) => if t.element_id == element_id {
            Some(t)
        } else {
            None
        },
        None => None,
    }
}

/// A click/press clear on `matcher`, while the press's source is in `base`.
pub open spec fn click_clear_block<C>(
    base: Seq<Listener<C>>,
    click_press: Option<ClickPressTracker>,
    matcher: ListenerMatcher,
) -> Seq<RuntimeListenerView> {
    match click_press {
        Some(t) => if spec_has_runtime_source(base, t.element_id, t.matcher_kind) {
            seq![static_view(t.element_id, matcher, spec_click_press_clear(t))]
        } else {
            Seq::empty()
        },
        None => Seq::empty(),
    }
}

/// A drag clear on `matcher`, while the drag's source is in `base`.
pub open spec fn drag_clear_block<C>(
    base: Seq<Listener<C>>,
    drag: Option<(NodeId, ListenerMatcherKind)>,
    matcher: ListenerMatcher,
    clear: RuntimeChange,
) -> Seq<RuntimeListenerView> {
    match drag {
        Some((id, kind)) => if spec_has_runtime_source(base, id, kind) {
            seq![static_view(id, matcher, seq![change_view(clear)])]
        } else {
            Seq::empty()
        },
        None => Seq::empty(),
    }
}

/// A drag's pointer-move listener, while the drag's source is in `base`.
pub open spec fn drag_move_block<C>(
    base: Seq<Listener<C>>,
    drag: Option<(NodeId, ListenerMatcherKind)>,
    compute: RuntimeComputeView,
) -> Seq<RuntimeListenerView> {
    match drag {
        Some((id, kind)) => if spec_has_runtime_source(base, id, kind) {
            seq![RuntimeListenerView { element_id: Some(id), matcher: ListenerMatcher::CursorPosAnywhere, compute }]
        } else {
            Seq::empty()
        },
        None => Seq::empty(),
    }
}

pub open spec fn text_drag_of(t: Option<TextDragTracker>) -> Option<(NodeId, ListenerMatcherKind)> {
    match t {
        Some(d) => Some((d.element_id, d.matcher_kind)),
        None => None,
    }
}

pub open spec fn slider_drag_of(t: Option<SliderDragTracker>) -> Option<(NodeId, ListenerMatcherKind)> {
    match t {
        Some(d) => Some((d.element_id, d.matcher_kind)),
        None => None,
    }
}

/// A virtual-key clear: `base_first` lets the base registry handle the input
/// first.
pub open spec fn virtual_key_block(
    virtual_key: Option<VirtualKeyTracker>,
    click_press: Option<ClickPressTracker>,
    matcher: ListenerMatcher,
    base_first: bool,
) -> Seq<RuntimeListenerView> {
    match virtual_key {
        Some(v) => {
            let actions = spec_virtual_key_clear(click_press_of(click_press, v.element_id));
            if base_first {
                seq![base_then_static_view(Some(v.element_id), matcher, actions)]
            } else {
                seq![static_view(v.element_id, matcher, actions)]
            }
        },
        None => Seq::empty(),
    }
}

/// The release listeners of held keys, one per key group.
pub open spec fn key_release_block(
    base: Seq<Listener<Vec<KeyBindingAction>>>,
    trackers: Seq<KeyPressTrackerView>,
) -> Seq<RuntimeListenerView> {
    spec_group_by_key(spec_sourced(base, trackers)).map_values(
        |g: (crate::keys::CanonicalKey, Seq<KeyPressTrackerView>)|
            RuntimeListenerView {
                element_id: spec_first_source(g.1),
                matcher: ListenerMatcher::KeyReleaseTracked { key: g.0 },
                compute: RuntimeComputeView::KeyPressReleaseFollowupToBase { key: g.0, trackers: g.1 },
            },
    )
}

/// The window-blur clear of held keys.
pub open spec fn key_blur_block(trackers: Seq<KeyPressTrackerView>) -> Seq<RuntimeListenerView> {
    if trackers.len() == 0 {
        Seq::empty()
    } else {
        seq![
            base_then_static_view(
                spec_first_source(trackers),
                ListenerMatcher::WindowBlurred,
                seq![change_view(RuntimeChange::ClearKeyPressTrackers)],
            ),
        ]
    }
}

/// A drag clear on `matcher` for a drag in one of the given phases.
pub open spec fn drag_tracker_block<C>(
    base: Seq<Listener<C>>,
    drag: DragTracker,
    candidate: bool,
    active: bool,
    matcher: ListenerMatcher,
) -> Seq<RuntimeListenerView> {
    match drag_source(drag, candidate, active) {
        Some((id, kind)) => if spec_has_runtime_source(base, id, kind) {
            seq![static_view(id, matcher, spec_drag_tracker_clear())]
        } else {
            Seq::empty()
        },
        None => Seq::empty(),
    }
}

pub open spec fn swipe_of(t: Option<SwipeTracker>) -> Option<(NodeId, ListenerMatcherKind)> {
    match t {
        Some(d) => Some((d.element_id, d.matcher_kind)),
        None => None,
    }
}

/// The click/press release followup listener.
pub open spec fn click_release_block<C>(base: Seq<Listener<C>>, click_press: Option<ClickPressTracker>) -> Seq<
    RuntimeListenerView,
> {
    match click_press {
        Some(t) => match spec_click_press_release_listener(base, t) {
            Some(l) => seq![runtime_listener_view(l)],
            None => Seq::empty(),
        },
        None => Seq::empty(),
    }
}

/// The scroll-input splitter.
pub open spec fn scroll_splitter_block<C>(base: Seq<Listener<C>>) -> Seq<RuntimeListenerView> {
    if spec_has_directional_scroll(base) {
        seq![
            RuntimeListenerView {
                element_id: None,
                matcher: ListenerMatcher::CursorScrollAny,
                compute: RuntimeComputeView::RedispatchScrollInput,
            },
        ]
    } else {
        Seq::empty()
    }
}

/// The release listeners: an active drag's clear, held keys' releases,
/// the click/press followup, then the release-anywhere clears of a drag
/// candidate, a virtual key and a click/press.
pub open spec fn release_section(
    base: Seq<Listener<Vec<KeyBindingAction>>>,
    drag: DragTracker,
    keys: Seq<KeyPressTrackerView>,
    cp: Option<ClickPressTracker>,
    vk: Option<VirtualKeyTracker>,
) -> Seq<RuntimeListenerView> {
    drag_tracker_block(base, drag, false, true, ListenerMatcher::CursorButtonLeftReleaseAnywhere)
        + key_release_block(base, keys) + click_release_block(base, cp) + drag_tracker_block(
        base,
        drag,
        true,
        false,
        ListenerMatcher::CursorButtonLeftReleaseAnywhere,
    ) + virtual_key_block(vk, cp, ListenerMatcher::CursorButtonLeftReleaseAnywhere, false) + click_clear_block(
        base,
        cp,
        ListenerMatcher::CursorButtonLeftReleaseAnywhere,
    )
}

/// The window-blur clears: drag, virtual key, held keys, swipe, click/press.
pub open spec fn blur_section(
    base: Seq<Listener<Vec<KeyBindingAction>>>,
    drag: DragTracker,
    keys: Seq<KeyPressTrackerView>,
    swipe: Option<SwipeTracker>,
    cp: Option<ClickPressTracker>,
    vk: Option<VirtualKeyTracker>,
) -> Seq<RuntimeListenerView> {
    drag_tracker_block(base, drag, true, true, ListenerMatcher::WindowBlurred) + virtual_key_block(
        vk,
        cp,
        ListenerMatcher::WindowBlurred,
        true,
    ) + key_blur_block(keys) + drag_clear_block(
        base,
        swipe_of(swipe),
        ListenerMatcher::WindowBlurred,
        RuntimeChange::ClearSwipeTracker,
    ) + click_clear_block(base, cp, ListenerMatcher::WindowBlurred)
}

/// A drag of a slider or text input: release clear, pointer move, blur
/// clear.
pub open spec fn drag_section(
    base: Seq<Listener<Vec<KeyBindingAction>>>,
    drag: Option<(NodeId, ListenerMatcherKind)>,
    clear: RuntimeChange,
    compute: RuntimeComputeView,
) -> Seq<RuntimeListenerView> {
    drag_clear_block(base, drag, ListenerMatcher::CursorButtonLeftReleaseAnywhere, clear) + drag_move_block(
        base,
        drag,
        compute,
    ) + drag_clear_block(base, drag, ListenerMatcher::WindowBlurred, clear)
}

pub open spec fn slider_compute(slider: Option<(NodeId, ListenerMatcherKind)>) -> RuntimeComputeView {
    RuntimeComputeView::SliderValueFromPointer {
        element_id: match slider {
            Some((id, _)) => id,
            None => 0,
        },
    }
}

pub open spec fn text_compute(text: Option<(NodeId, ListenerMatcherKind)>) -> RuntimeComputeView {
    RuntimeComputeView::TextInputCursorFromPointer {
        element_id: match text {
            Some((id, _)) => id,
            None => 0,
        },
        extend_selection: true,
    }
}

/// The window-leave clears of the pointer interactions: drag, virtual key,
/// swipe, click/press.
pub open spec fn pointer_leave_section(
    base: Seq<Listener<Vec<KeyBindingAction>>>,
    drag: DragTracker,
    swipe: Option<SwipeTracker>,
    cp: Option<ClickPressTracker>,
    vk: Option<VirtualKeyTracker>,
) -> Seq<RuntimeListenerView> {
    drag_tracker_block(base, drag, true, true, ListenerMatcher::WindowCursorLeft) + virtual_key_block(
        vk,
        cp,
        ListenerMatcher::WindowCursorLeft,
        true,
    ) + drag_clear_block(base, swipe_of(swipe), ListenerMatcher::WindowCursorLeft, RuntimeChange::ClearSwipeTracker)
        + click_clear_block(base, cp, ListenerMatcher::WindowCursorLeft)
}

/// The window-leave clears of the text and slider drags.
pub open spec fn drag_leave_section(
    base: Seq<Listener<Vec<KeyBindingAction>>>,
    text: Option<TextDragTracker>,
    slider: Option<SliderDragTracker>,
) -> Seq<RuntimeListenerView> {
    drag_clear_block(base, text_drag_of(text), ListenerMatcher::WindowCursorLeft, RuntimeChange::ClearTextDragTracker)
        + drag_clear_block(
        base,
        slider_drag_of(slider),
        ListenerMatcher::WindowCursorLeft,
        RuntimeChange::ClearSliderDragTracker,
    )
}

/// The overlay block of `runtime` over `base`, in precedence order.
pub open spec fn spec_overlay_block(base: Seq<Listener<Vec<KeyBindingAction>>>, runtime: RuntimeOverlayState) -> Seq<
    RuntimeListenerView,
> {
    let keys = trackers_view(runtime.key_presses@);
    let slider = slider_drag_of(runtime.slider_drag);
    let text = text_drag_of(runtime.text_drag);
    scroll_splitter_block(base) + seq![
        RuntimeListenerView {
            element_id: None,
            matcher: ListenerMatcher::RawPointerLifecycle,
            compute: RuntimeComputeView::RedispatchPointerLifecycle,
        },
    ] + release_section(base, runtime.drag, keys, runtime.click_press, runtime.virtual_key) + blur_section(
        base,
        runtime.drag,
        keys,
        runtime.swipe,
        runtime.click_press,
        runtime.virtual_key,
    ) + drag_section(base, slider, RuntimeChange::ClearSliderDragTracker, slider_compute(slider)) + drag_section(
        base,
        text,
        RuntimeChange::ClearTextDragTracker,
        text_compute(text),
    ) + pointer_leave_section(base, runtime.drag, runtime.swipe, runtime.click_press, runtime.virtual_key)
        + drag_leave_section(base, runtime.text_drag, runtime.slider_drag)
}

fn push_opt(block: &mut Vec<Listener<RuntimeCompute>>, l: Option<Listener<RuntimeCompute>>)
    ensures
        block_view(final(block)@) == block_view(old(block)@) + match l {
            Some(x) => seq![runtime_listener_view(x)],
            None => Seq::<RuntimeListenerView>::empty(),
        },
{
    let ghost before = block@;
    match l {
        Some(x) => {
            block.push(x);
            assert(block_view(block@) =~= block_view(before) + seq![runtime_listener_view(x)]);
        },
        None => {
            assert(block_view(block@) =~= block_view(before) + Seq::<RuntimeListenerView>::empty());
        },
    }
}

fn emit_drag(
    block: &mut Vec<Listener<RuntimeCompute>>,
    base: &Registry<Vec<KeyBindingAction>>,
    drag: DragTracker,
    candidate: bool,
    active: bool,
    matcher: ListenerMatcher,
)
    requires
        (!candidate && active && matcher == ListenerMatcher::CursorButtonLeftReleaseAnywhere) || (candidate
            && !active && matcher == ListenerMatcher::CursorButtonLeftReleaseAnywhere) || (candidate && active
            && (matcher == ListenerMatcher::WindowBlurred || matcher == ListenerMatcher::WindowCursorLeft)),
    ensures
        block_view(final(block)@) == block_view(old(block)@) + drag_tracker_block(
            base.precedence(),
            drag,
            candidate,
            active,
            matcher,
        ),
{
    let l = if !candidate {
        runtime_drag_active_release_clear_listener(base, &drag)
    } else if !active {
        runtime_drag_candidate_release_anywhere_clear_listener(base, &drag)
    } else if matcher == ListenerMatcher::WindowBlurred {
        runtime_drag_window_blur_clear_listener(base, &drag)
    } else {
        runtime_drag_window_leave_clear_listener(base, &drag)
    };
    push_opt(block, l);
}

fn emit_virtual_key(
    block: &mut Vec<Listener<RuntimeCompute>>,
    vk: Option<VirtualKeyTracker>,
    cp: Option<ClickPressTracker>,
    matcher: ListenerMatcher,
    base_first: bool,
)
    requires
        (matcher == ListenerMatcher::CursorButtonLeftReleaseAnywhere && !base_first) || (base_first && (matcher
            == ListenerMatcher::WindowBlurred || matcher == ListenerMatcher::WindowCursorLeft)),
    ensures
        block_view(final(block)@) == block_view(old(block)@) + virtual_key_block(vk, cp, matcher, base_first),
{
    let cp_ref = &cp;
    match vk {
        Some(v) => {
            let tracker = click_press_tracker_for_element(cp_ref, v.element_id);
            let l = if !base_first {
                runtime_virtual_key_release_anywhere_clear_listener(&v, tracker)
            } else if matcher == ListenerMatcher::WindowBlurred {
                runtime_virtual_key_window_blur_clear_listener(&v, tracker)
            } else {
                runtime_virtual_key_window_leave_clear_listener(&v, tracker)
            };
            push_opt(block, Some(l));
        },
        None => {
            assert(block_view(block@) =~= block_view(block@) + Seq::<RuntimeListenerView>::empty());
        },
    }
}

fn emit_click_clear(
    block: &mut Vec<Listener<RuntimeCompute>>,
    base: &Registry<Vec<KeyBindingAction>>,
    cp: Option<ClickPressTracker>,
    matcher: ListenerMatcher,
)
    requires
        matcher == ListenerMatcher::CursorButtonLeftReleaseAnywhere || matcher == ListenerMatcher::WindowBlurred
            || matcher == ListenerMatcher::WindowCursorLeft,
    ensures
        block_view(final(block)@) == block_view(old(block)@) + click_clear_block(base.precedence(), cp, matcher),
{
    match cp {
        Some(t) => {
            let l = if matcher == ListenerMatcher::CursorButtonLeftReleaseAnywhere {
                runtime_click_press_release_anywhere_clear_listener(base, &t)
            } else if matcher == ListenerMatcher::WindowBlurred {
                runtime_click_press_window_blur_clear_listener(base, &t)
            } else {
                runtime_click_press_window_leave_clear_listener(base, &t)
            };
            push_opt(block, l);
        },
        None => {
            assert(block_view(block@) =~= block_view(block@) + Seq::<RuntimeListenerView>::empty());
        },
    }
}

fn emit_swipe(
    block: &mut Vec<Listener<RuntimeCompute>>,
    base: &Registry<Vec<KeyBindingAction>>,
    swipe: Option<SwipeTracker>,
    matcher: ListenerMatcher,
)
    requires
        matcher == ListenerMatcher::WindowBlurred || matcher == ListenerMatcher::WindowCursorLeft,
    ensures
        block_view(final(block)@) == block_view(old(block)@) + drag_clear_block(
            base.precedence(),
            swipe_of(swipe),
            matcher,
            RuntimeChange::ClearSwipeTracker,
        ),
{
    match swipe {
        Some(w) => {
            let l = if matcher == ListenerMatcher::WindowBlurred {
                runtime_swipe_window_blur_clear_listener(base, &w)
            } else {
                runtime_swipe_window_leave_clear_listener(base, &w)
            };
            push_opt(block, l);
        },
        None => {
            assert(block_view(block@) =~= block_view(block@) + Seq::<RuntimeListenerView>::empty());
        },
    }
}

#[verifier::spinoff_prover]
fn emit_release_section(
    block: &mut Vec<Listener<RuntimeCompute>>,
    base: &Registry<Vec<KeyBindingAction>>,
    drag: DragTracker,
    trackers: Vec<KeyPressTracker>,
    cp: Option<ClickPressTracker>,
    vk: Option<VirtualKeyTracker>,
)
    ensures
        block_view(final(block)@) == block_view(old(block)@) + release_section(
            base.precedence(),
            drag,
            trackers_view(trackers@),
            cp,
            vk,
        ),
{
    let ghost prec = base.precedence();
    let ghost keys = trackers_view(trackers@);
    let ghost v0 = block_view(block@);
    emit_drag(block, base, drag, false, true, ListenerMatcher::CursorButtonLeftReleaseAnywhere);
    let ghost v1 = block_view(block@);
    let mut releases = runtime_key_press_release_listeners(base, trackers);
    let ghost rel = releases@;
    assert(block_view(rel) =~= key_release_block(prec, keys));
    let ghost before = block@;
    block.append(&mut releases);
    assert(block_view(block@) =~= block_view(before) + block_view(rel));
    let ghost v2 = block_view(block@);
    match cp {
        Some(t) => push_opt(block, runtime_click_press_release_listener(base, &t)),
        None => {},
    }
    assert(block_view(block@) =~= v2 + click_release_block(prec, cp));
    let ghost v3 = block_view(block@);
    emit_drag(block, base, drag, true, false, ListenerMatcher::CursorButtonLeftReleaseAnywhere);
    let ghost v4 = block_view(block@);
    emit_virtual_key(block, vk, cp, ListenerMatcher::CursorButtonLeftReleaseAnywhere, false);
    let ghost v5 = block_view(block@);
    emit_click_clear(block, base, cp, ListenerMatcher::CursorButtonLeftReleaseAnywhere);
    assert(block_view(block@) =~= v0 + release_section(prec, drag, keys, cp, vk));
}

#[verifier::spinoff_prover]
fn emit_blur_section(
    block: &mut Vec<Listener<RuntimeCompute>>,
    base: &Registry<Vec<KeyBindingAction>>,
    drag: DragTracker,
    trackers: &Vec<KeyPressTracker>,
    swipe: Option<SwipeTracker>,
    cp: Option<ClickPressTracker>,
    vk: Option<VirtualKeyTracker>,
)
    ensures
        block_view(final(block)@) == block_view(old(block)@) + blur_section(
            base.precedence(),
            drag,
            trackers_view(trackers@),
            swipe,
            cp,
            vk,
        ),
{
    let ghost prec = base.precedence();
    let ghost v0 = block_view(block@);
    emit_drag(block, base, drag, true, true, ListenerMatcher::WindowBlurred);
    emit_virtual_key(block, vk, cp, ListenerMatcher::WindowBlurred, true);
    let ghost v2 = block_view(block@);
    push_opt(block, runtime_key_press_window_blur_clear_listener(trackers));
    assert(block_view(block@) =~= v2 + key_blur_block(trackers_view(trackers@)));
    emit_swipe(block, base, swipe, ListenerMatcher::WindowBlurred);
    emit_click_clear(block, base, cp, ListenerMatcher::WindowBlurred);
    assert(block_view(block@) =~= v0 + blur_section(prec, drag, trackers_view(trackers@), swipe, cp, vk));
}

fn emit_slider_section(
    block: &mut Vec<Listener<RuntimeCompute>>,
    base: &Registry<Vec<KeyBindingAction>>,
    slider: Option<SliderDragTracker>,
)
    ensures
        block_view(final(block)@) == block_view(old(block)@) + drag_section(
            base.precedence(),
            slider_drag_of(slider),
            RuntimeChange::ClearSliderDragTracker,
            slider_compute(slider_drag_of(slider)),
        ),
{
    let ghost prec = base.precedence();
    let ghost sl = slider_drag_of(slider);
    let ghost start = block_view(block@);
    match slider {
        Some(d) => {
            push_opt(block, runtime_slider_drag_release_clear_listener(base, &d));
            push_opt(block, runtime_slider_drag_move_listener(base, &d));
            push_opt(block, runtime_slider_drag_window_blur_clear_listener(base, &d));
        },
        None => {},
    }
    assert(block_view(block@) =~= start + drag_section(prec, sl, RuntimeChange::ClearSliderDragTracker, slider_compute(sl)));
}

fn emit_text_section(
    block: &mut Vec<Listener<RuntimeCompute>>,
    base: &Registry<Vec<KeyBindingAction>>,
    text: Option<TextDragTracker>,
)
    ensures
        block_view(final(block)@) == block_view(old(block)@) + drag_section(
            base.precedence(),
            text_drag_of(text),
            RuntimeChange::ClearTextDragTracker,
            text_compute(text_drag_of(text)),
        ),
{
    let ghost prec = base.precedence();
    let ghost tx = text_drag_of(text);
    let ghost start = block_view(block@);
    match text {
        Some(d) => {
            push_opt(block, runtime_text_drag_release_clear_listener(base, &d));
            push_opt(block, runtime_text_drag_cursor_move_listener(base, &d));
            push_opt(block, runtime_text_drag_window_blur_clear_listener(base, &d));
        },
        None => {},
    }
    assert(block_view(block@) =~= start + drag_section(prec, tx, RuntimeChange::ClearTextDragTracker, text_compute(tx)));
}

fn emit_drag_leaves(
    block: &mut Vec<Listener<RuntimeCompute>>,
    base: &Registry<Vec<KeyBindingAction>>,
    text: Option<TextDragTracker>,
    slider: Option<SliderDragTracker>,
)
    ensures
        block_view(final(block)@) == block_view(old(block)@) + drag_leave_section(base.precedence(), text, slider),
{
    let ghost v0 = block_view(block@);
    match text {
        Some(d) => push_opt(block, runtime_text_drag_window_leave_clear_listener(base, &d)),
        None => {},
    }
    match slider {
        Some(d) => push_opt(block, runtime_slider_drag_window_leave_clear_listener(base, &d)),
        None => {},
    }
    assert(block_view(block@) =~= v0 + drag_leave_section(base.precedence(), text, slider));
}

#[verifier::spinoff_prover]
fn emit_pointer_leaves(
    block: &mut Vec<Listener<RuntimeCompute>>,
    base: &Registry<Vec<KeyBindingAction>>,
    drag: DragTracker,
    swipe: Option<SwipeTracker>,
    cp: Option<ClickPressTracker>,
    vk: Option<VirtualKeyTracker>,
)
    ensures
        block_view(final(block)@) == block_view(old(block)@) + pointer_leave_section(
            base.precedence(),
            drag,
            swipe,
            cp,
            vk,
        ),
{
    let ghost v0 = block_view(block@);
    emit_drag(block, base, drag, true, true, ListenerMatcher::WindowCursorLeft);
    emit_virtual_key(block, vk, cp, ListenerMatcher::WindowCursorLeft, true);
    emit_swipe(block, base, swipe, ListenerMatcher::WindowCursorLeft);
    emit_click_clear(block, base, cp, ListenerMatcher::WindowCursorLeft);
    assert(block_view(block@) =~= v0 + pointer_leave_section(base.precedence(), drag, swipe, cp, vk));
}

/// The overlay listeners of `runtime` over `base`, in precedence order.
pub fn runtime_overlay_listeners(base: &Registry<Vec<KeyBindingAction>>, runtime: RuntimeOverlayState) -> (block:
    Vec<Listener<RuntimeCompute>>)
    ensures
        block_view(block@) == spec_overlay_block(base.precedence(), runtime),
{
    let ghost prec = base.precedence();
    let ghost rt = runtime;
    let ghost keys = trackers_view(runtime.key_presses@);
    let RuntimeOverlayState { drag, swipe, click_press, virtual_key, key_presses, text_drag, slider_drag } = runtime;
    let mut block: Vec<Listener<RuntimeCompute>> = Vec::new();
    push_opt(&mut block, runtime_scroll_input_splitter_listener(base));
    push_opt(&mut block, Some(runtime_pointer_lifecycle_splitter_listener()));
    let ghost head = block_view(block@);
    assert(head =~= scroll_splitter_block(prec) + seq![
        RuntimeListenerView {
            element_id: None,
            matcher: ListenerMatcher::RawPointerLifecycle,
            compute: RuntimeComputeView::RedispatchPointerLifecycle,
        },
    ]);
    let mut blur: Vec<Listener<RuntimeCompute>> = Vec::new();
    assert(block_view(blur@) =~= Seq::<RuntimeListenerView>::empty());
    emit_blur_section(&mut blur, base, drag, &key_presses, swipe, click_press, virtual_key);
    let ghost blur_view = block_view(blur@);
    emit_release_section(&mut block, base, drag, key_presses, click_press, virtual_key);
    let ghost b1 = block_view(block@);
    let ghost mid = block@;
    block.append(&mut blur);
    assert(block_view(block@) =~= block_view(mid) + blur_view);
    emit_slider_section(&mut block, base, slider_drag);
    emit_text_section(&mut block, base, text_drag);
    emit_pointer_leaves(&mut block, base, drag, swipe, click_press, virtual_key);
    emit_drag_leaves(&mut block, base, text_drag, slider_drag);
    assert(block_view(block@) =~= spec_overlay_block(prec, rt));
    block
}


} // verus!
