//! Pointer and keyboard slots of an element: the listeners that its
//! interaction attributes give it, one per slot.
//!
//! A pointer slot exists only for an element with a pointer region (the
//! region itself is geometry and is handed to the matcher by the caller
//! through the containment answer).
use vstd::prelude::*;

use crate::events::contributors::{
    click_press_tracker_left_press_actions, enter_press_actions, focused_text_input_id, is_focusable,
    left_press_drag_bootstrap, mouse_down_style_left_press_actions, mouse_down_style_left_release_actions,
    mouse_events_left_press_actions, mouse_events_left_release_actions, one_if, spec_is_focusable,
    spec_swipe_handlers, spec_has_swipe_listener, ElementAction, ElementEventKind, ElementInteraction,
    InteractionKind, PointerDragBootstrap,
};
use crate::events::registry_builder::{
    Listener, ListenerMatcher, ListenerMatcherKind, NodeId, RegionMatcher, ScrollDirection,
    SliderDragTracker, TextDragTracker,
};
use crate::events::runtime_listeners::{VirtualKeyPhase, VirtualKeyTracker};

verus! {

/// What an element slot's listener computes once matched.
#[derive(Debug, PartialEq)]
pub enum SlotCompute {
    /// Fixed actions.
    Static(Vec<ElementAction>),
    /// Fixed actions, then the runtime trackers that a left press starts:
    /// drag tracking, a text cursor move, a text or slider drag.
    StaticWithLeftPressRuntimeAugment {
        actions: Vec<ElementAction>,
        pointer_drag: Option<PointerDragBootstrap>,
        text_cursor_element_id: Option<NodeId>,
        text_drag: Option<TextDragTracker>,
        slider_drag: Option<SliderDragTracker>,
    },
    /// Insert committed text into the text input.
    TextCommitToRuntime { element_id: NodeId },
}

/// The actions of a left press on `e`: the mouse-down event, the
/// mouse-down style, the virtual-key tracker, a focus move when the element
/// is focusable and not focused yet (`focused` is `None` without focus
/// data), and the click/press tracker.
pub open spec fn spec_left_press_actions(e: ElementInteraction, focused: Option<bool>) -> Seq<ElementAction> {
    let kind = ListenerMatcherKind::CursorButtonLeftPressInside;
    (if e.on_mouse_down {
        seq![ElementAction::ElixirEvent { element_id: e.id, kind: ElementEventKind::MouseDown }]
    } else {
        Seq::empty()
    }) + (if e.has_mouse_down_style && !e.mouse_down_active {
        seq![ElementAction::SetMouseDownActive { element_id: e.id, active: true }]
    } else {
        Seq::empty()
    }) + (if e.has_virtual_key {
        seq![
            ElementAction::StartVirtualKeyTracker(
                VirtualKeyTracker { element_id: e.id, phase: VirtualKeyPhase::Armed },
            ),
        ]
    } else {
        Seq::empty()
    }) + (if focused == Some(false) && spec_is_focusable(e) {
        seq![ElementAction::FocusTo(e.id)]
    } else {
        Seq::empty()
    }) + (if e.on_click || e.on_press || e.has_mouse_down_style {
        seq![
            ElementAction::StartClickPressTracker(
                crate::events::registry_builder::ClickPressTracker {
                    element_id: e.id,
                    matcher_kind: kind,
                    emit_click: e.on_click,
                    emit_press_pointer: e.on_press,
                    clear_mouse_down: e.has_mouse_down_style,
                },
            ),
        ]
    } else {
        Seq::empty()
    })
}

/// The drag bootstrap of a left press on `e`.
pub open spec fn spec_left_press_drag(e: ElementInteraction, scroll_directions: Seq<ScrollDirection>) -> Option<
    PointerDragBootstrap,
> {
    if e.on_click || e.on_press || spec_has_swipe_listener(e) || scroll_directions.len() > 0 {
        Some(
            PointerDragBootstrap {
                element_id: e.id,
                matcher_kind: ListenerMatcherKind::CursorButtonLeftPressInside,
                swipe_handlers: spec_swipe_handlers(e),
                scroll_candidate: scroll_directions.len() > 0,
            },
        )
    } else {
        None
    }
}

/// The primary left-press slot of `e`, as its parts: the element, the
/// fixed actions, and the runtime trackers; `None` without a region or
/// when the press would do nothing.
pub open spec fn spec_primary_left_press(
    e: ElementInteraction,
    has_region: bool,
    focused: Option<bool>,
    scroll_directions: Seq<ScrollDirection>,
) -> Option<
    (Seq<ElementAction>, Option<PointerDragBootstrap>, Option<NodeId>, Option<TextDragTracker>, Option<SliderDragTracker>),
> {
    let kind = ListenerMatcherKind::CursorButtonLeftPressInside;
    let actions = spec_left_press_actions(e, focused);
    let drag = spec_left_press_drag(e, scroll_directions);
    let text_cursor = if e.kind == InteractionKind::TextInput {
        Some(e.id)
    } else {
        None
    };
    let text_drag = if e.kind == InteractionKind::TextInput {
        Some(TextDragTracker { element_id: e.id, matcher_kind: kind })
    } else {
        None
    };
    let slider_drag = if e.kind == InteractionKind::Slider {
        Some(SliderDragTracker { element_id: e.id, matcher_kind: kind })
    } else {
        None
    };
    if !has_region || (actions.len() == 0 && drag is None && text_cursor is None && slider_drag is None) {
        None
    } else {
        Some((actions, drag, text_cursor, text_drag, slider_drag))
    }
}

fn append(actions: &mut Vec<ElementAction>, more: Vec<ElementAction>)
    ensures
        final(actions)@ == old(actions)@ + more@,
{
    let mut more = more;
    actions.append(&mut more);
}

/// The listener of a left press inside `element`: its fixed actions, and,
/// when the press starts runtime tracking, the trackers it starts.
pub fn slot_primary_left_press(
    element: &ElementInteraction,
    has_region: bool,
    focused: Option<bool>,
    scroll_directions: &[ScrollDirection],
) -> (listener: Option<Listener<SlotCompute>>)
    ensures
        match spec_primary_left_press(*element, has_region, focused, scroll_directions@) {
            None => listener is None,
            Some((actions, drag, text_cursor, text_drag, slider_drag)) => {
                &&& listener is Some
                &&& listener->0.element_id == Some(element.id)
                &&& listener->0.matcher == ListenerMatcher::Region(RegionMatcher::CursorButtonLeftPressInside)
                &&& if drag is None && text_cursor is None && slider_drag is None {
                    listener->0.compute matches SlotCompute::Static(a) && a@ == actions
                } else {
                    listener->0.compute matches SlotCompute::StaticWithLeftPressRuntimeAugment {
                        actions: a,
                        pointer_drag,
                        text_cursor_element_id,
                        text_drag: td,
                        slider_drag: sd,
                    } && a@ == actions && pointer_drag == drag && text_cursor_element_id == text_cursor && td
                        == text_drag && sd == slider_drag
                }
            },
        },
{
    if !has_region {
        return None;
    }
    let kind = ListenerMatcherKind::CursorButtonLeftPressInside;
    let mut actions = mouse_events_left_press_actions(element);
    append(&mut actions, mouse_down_style_left_press_actions(element));
    append(
        &mut actions,
        one_if(
            element.has_virtual_key,
            ElementAction::StartVirtualKeyTracker(
                VirtualKeyTracker { element_id: element.id, phase: VirtualKeyPhase::Armed },
            ),
        ),
    );
    let unfocused = match focused {
        Some(f) => !f,
        None => false,
    };
    append(&mut actions, one_if(unfocused && is_focusable(element), ElementAction::FocusTo(element.id)));
    append(&mut actions, click_press_tracker_left_press_actions(element, kind));
    let pointer_drag = left_press_drag_bootstrap(element, kind, scroll_directions);
    let is_text = element.kind == InteractionKind::TextInput;
    let text_cursor_element_id = if is_text {
        Some(element.id)
    } else {
        None
    };
    let text_drag = if is_text {
        Some(TextDragTracker { element_id: element.id, matcher_kind: kind })
    } else {
        None
    };
    let slider_drag = if element.kind == InteractionKind::Slider {
        Some(SliderDragTracker { element_id: element.id, matcher_kind: kind })
    } else {
        None
    };
    let ghost expected = spec_left_press_actions(*element, focused);
    assert(actions@ =~= expected);
    let runtime = pointer_drag.is_some() || is_text || slider_drag.is_some();
    if actions.len() == 0 && !runtime {
        return None;
    }
    let compute = if runtime {
        SlotCompute::StaticWithLeftPressRuntimeAugment {
            actions,
            pointer_drag,
            text_cursor_element_id,
            text_drag,
            slider_drag,
        }
    } else {
        SlotCompute::Static(actions)
    };
    Some(
        Listener {
            element_id: Some(element.id),
            matcher: ListenerMatcher::Region(RegionMatcher::CursorButtonLeftPressInside),
            compute,
        },
    )
}

/// The actions of a left release inside `e`: the mouse-up event, then the
/// mouse-down style clear.
pub open spec fn spec_left_release_actions(e: ElementInteraction) -> Seq<ElementAction> {
    (if e.on_mouse_up {
        seq![ElementAction::ElixirEvent { element_id: e.id, kind: ElementEventKind::MouseUp }]
    } else {
        Seq::empty()
    }) + (if e.has_mouse_down_style && e.mouse_down_active {
        seq![ElementAction::SetMouseDownActive { element_id: e.id, active: false }]
    } else {
        Seq::empty()
    })
}

/// Whether `l` is a fixed-actions slot listener of `e` on `matcher`.
pub open spec fn is_static_slot(
    l: Listener<SlotCompute>,
    e: ElementInteraction,
    matcher: ListenerMatcher,
    actions: Seq<ElementAction>,
) -> bool {
    &&& l.element_id == Some(e.id)
    &&& l.matcher == matcher
    &&& l.compute matches SlotCompute::Static(a) && a@ == actions
}

fn static_slot(element: &ElementInteraction, matcher: ListenerMatcher, actions: Vec<ElementAction>) -> (l: Option<
    Listener<SlotCompute>,
>)
    ensures
        if actions@.len() == 0 {
            l is None
        } else {
            l is Some && is_static_slot(l->0, *element, matcher, actions@)
        },
{
    if actions.len() == 0 {
        None
    } else {
        Some(Listener { element_id: Some(element.id), matcher, compute: SlotCompute::Static(actions) })
    }
}

/// The listener of a left release inside `element`.
pub fn slot_primary_left_release(element: &ElementInteraction, has_region: bool) -> (l: Option<
    Listener<SlotCompute>,
>)
    ensures
        if has_region && spec_left_release_actions(*element).len() > 0 {
            l is Some && is_static_slot(
                l->0,
                *element,
                ListenerMatcher::Region(RegionMatcher::CursorButtonLeftReleaseInside),
                spec_left_release_actions(*element),
            )
        } else {
            l is None
        },
{
    if !has_region {
        return None;
    }
    let mut actions = mouse_events_left_release_actions(element);
    append(&mut actions, mouse_down_style_left_release_actions(element));
    assert(actions@ =~= spec_left_release_actions(*element));
    static_slot(element, ListenerMatcher::Region(RegionMatcher::CursorButtonLeftReleaseInside), actions)
}

/// The listener that clears an active mouse-down style on a left release
/// anywhere.
pub fn slot_mouse_down_release_anywhere(element: &ElementInteraction) -> (l: Option<Listener<SlotCompute>>)
    ensures
        if element.has_mouse_down_style && element.mouse_down_active {
            l is Some && is_static_slot(
                l->0,
                *element,
                ListenerMatcher::CursorButtonLeftReleaseAnywhere,
                seq![ElementAction::SetMouseDownActive { element_id: element.id, active: false }],
            )
        } else {
            l is None
        },
{
    static_slot(element, ListenerMatcher::CursorButtonLeftReleaseAnywhere, mouse_down_style_left_release_actions(element))
}

/// The listener of a focused Enter press for elements with a press handler.
pub fn slot_key_enter_press(element: &ElementInteraction) -> (l: Option<Listener<SlotCompute>>)
    ensures
        if element.on_press && element.focused_active {
            l is Some && is_static_slot(
                l->0,
                *element,
                ListenerMatcher::KeyEnterPressNoCtrlAltMeta,
                seq![ElementAction::ElixirEvent { element_id: element.id, kind: ElementEventKind::Press }],
            )
        } else {
            l is None
        },
{
    static_slot(element, ListenerMatcher::KeyEnterPressNoCtrlAltMeta, enter_press_actions(element))
}

/// The text-commit listener of a focused text input.
pub fn slot_text_commit(element: &ElementInteraction) -> (l: Option<Listener<SlotCompute>>)
    ensures
        if element.kind == InteractionKind::TextInput && element.text_input_focused {
            l == Some(
                Listener {
                    element_id: Some(element.id),
                    matcher: ListenerMatcher::TextCommitNoCtrlMeta,
                    compute: SlotCompute::TextCommitToRuntime { element_id: element.id },
                },
            )
        } else {
            l is None
        },
{
    match focused_text_input_id(element) {
        Some(id) => Some(
            Listener {
                element_id: Some(id),
                matcher: ListenerMatcher::TextCommitNoCtrlMeta,
                compute: SlotCompute::TextCommitToRuntime { element_id: id },
            },
        ),
        None => None,
    }
}


/// A left press on an unfocused text input or slider without a virtual key
/// (with a pointer region) moves focus to it.
pub proof fn law_press_focuses_unfocused_text_inputs(e: ElementInteraction, scroll_directions: Seq<ScrollDirection>)
    requires
        !e.has_virtual_key,
        e.kind == InteractionKind::TextInput || e.kind == InteractionKind::Slider,
    ensures
        spec_primary_left_press(e, true, Some(false), scroll_directions) is Some,
        spec_primary_left_press(e, true, Some(false), scroll_directions).unwrap().0.contains(
            ElementAction::FocusTo(e.id),
        ),
{
    crate::events::contributors::law_text_inputs_and_sliders_are_focusable(e);
    let actions = spec_left_press_actions(e, Some(false));
    let before = (if e.on_mouse_down {
        seq![ElementAction::ElixirEvent { element_id: e.id, kind: ElementEventKind::MouseDown }]
    } else {
        Seq::empty()
    }) + (if e.has_mouse_down_style && !e.mouse_down_active {
        seq![ElementAction::SetMouseDownActive { element_id: e.id, active: true }]
    } else {
        Seq::empty()
    }) + Seq::<ElementAction>::empty();
    assert(actions[before.len() as int] == ElementAction::FocusTo(e.id));
}

} // verus!
