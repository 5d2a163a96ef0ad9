//! Attribute contributors: what an element's interaction attributes and
//! runtime flags contribute to its listeners — the events and tree updates a
//! press, release, move, hover or key press produces, and the facts
//! (focusability, cursor, hover tracking) that decide which listeners exist.
use vstd::prelude::*;

use crate::events::registry_builder::{
    ClickPressTracker, KeyBindingMatch, ListenerMatcherKind, NodeId, ScrollDirection, SwipeHandlers,
};
use crate::input::{MOD_CTRL, MOD_META};
use crate::keys::CanonicalKey;

verus! {

/// The element kinds that interaction logic tells apart.
#[derive(Clone, Copy, Debug, PartialEq, Eq, Structural)]
pub enum InteractionKind {
    /// Text input or multiline text input.
    TextInput,
    Slider,
    Other,
}

/// An element's interaction attributes and runtime flags.
#[derive(Clone, Copy, Debug, PartialEq, Eq, Structural)]
pub struct ElementInteraction {
    pub id: NodeId,
    pub kind: InteractionKind,
    pub on_click: bool,
    pub on_press: bool,
    pub on_mouse_down: bool,
    pub on_mouse_up: bool,
    pub on_mouse_move: bool,
    pub on_mouse_enter: bool,
    pub on_mouse_leave: bool,
    pub on_swipe_up: bool,
    pub on_swipe_down: bool,
    pub on_swipe_left: bool,
    pub on_swipe_right: bool,
    pub on_focus: bool,
    pub on_blur: bool,
    pub on_change: bool,
    pub has_on_key_down: bool,
    pub has_on_key_up: bool,
    pub has_on_key_press: bool,
    /// A `mouse_over` style is set.
    pub has_mouse_over_style: bool,
    /// A `mouse_down` style is set.
    pub has_mouse_down_style: bool,
    /// A virtual-key spec is set.
    pub has_virtual_key: bool,
    pub mouse_down_active: bool,
    pub mouse_over_active: bool,
    pub focused_active: bool,
    pub text_input_focused: bool,
}

/// Element event kinds that contributors emit.
#[derive(Clone, Copy, Debug, PartialEq, Eq, Structural)]
pub enum ElementEventKind {
    MouseDown,
    MouseUp,
    MouseMove,
    MouseEnter,
    MouseLeave,
    Press,
    Click,
    KeyDown,
    KeyUp,
    KeyPress,
    Focus,
    Blur,
}

/// An action a contributor adds to a listener.
#[derive(Clone, Copy, Debug, PartialEq, Eq, Structural)]
pub enum ElementAction {
    /// An element event forwarded to Elixir.
    ElixirEvent { element_id: NodeId, kind: ElementEventKind },
    /// Set or clear the element's mouse-down style state.
    SetMouseDownActive { element_id: NodeId, active: bool },
    /// Set or clear the element's hover style state.
    SetMouseOverActive { element_id: NodeId, active: bool },
    /// Begin click/press followup tracking.
    StartClickPressTracker(ClickPressTracker),
    /// Begin virtual-key press tracking.
    StartVirtualKeyTracker(crate::events::runtime_listeners::VirtualKeyTracker),
    /// Move focus to the element.
    FocusTo(NodeId),
}

/// A mouse cursor shape.
#[derive(Clone, Copy, Debug, PartialEq, Eq, Structural)]
pub enum CursorIcon {
    Default,
    Text,
    Pointer,
}

/// The actions of `entries` that are present, in order.
pub open spec fn present(entries: Seq<Option<ElementAction>>) -> Seq<ElementAction>
    decreases entries.len(),
{
    if entries.len() == 0 {
        Seq::empty()
    } else {
        match entries.last() {
            Some(a) => present(entries.drop_last()).push(a),
            None => present(entries.drop_last()),
        }
    }
}

pub(crate) fn one_if(condition: bool, action: ElementAction) -> (actions: Vec<ElementAction>)
    ensures
        actions@ == if condition {
            seq![action]
        } else {
            Seq::<ElementAction>::empty()
        },
{
    let mut actions = Vec::new();
    if condition {
        actions.push(action);
    }
    actions
}

// ----------------------------------------------------------------------------
// Element facts
// ----------------------------------------------------------------------------

pub open spec fn spec_swipe_handlers(e: ElementInteraction) -> SwipeHandlers {
    SwipeHandlers {
        up: e.on_swipe_up,
        down: e.on_swipe_down,
        left: e.on_swipe_left,
        right: e.on_swipe_right,
    }
}

pub fn swipe_handlers_for_element(element: &ElementInteraction) -> (handlers: SwipeHandlers)
    ensures
        handlers == spec_swipe_handlers(*element),
{
    SwipeHandlers {
        up: element.on_swipe_up,
        down: element.on_swipe_down,
        left: element.on_swipe_left,
        right: element.on_swipe_right,
    }
}

pub open spec fn spec_has_swipe_listener(e: ElementInteraction) -> bool {
    e.on_swipe_up || e.on_swipe_down || e.on_swipe_left || e.on_swipe_right
}

pub fn has_swipe_listener(element: &ElementInteraction) -> (has: bool)
    ensures
        has == spec_has_swipe_listener(*element),
{
    swipe_handlers_for_element(element).any()
}

/// The id of a text input that holds text focus.
pub fn focused_text_input_id(element: &ElementInteraction) -> (id: Option<NodeId>)
    ensures
        id == if element.kind == InteractionKind::TextInput && element.text_input_focused {
            Some(element.id)
        } else {
            None
        },
{
    if element.kind != InteractionKind::TextInput {
        return None;
    }
    if !element.text_input_focused {
        return None;
    }
    Some(element.id)
}

/// The id of a slider that holds focus.
pub fn focused_slider_id(element: &ElementInteraction) -> (id: Option<NodeId>)
    ensures
        id == if element.kind == InteractionKind::Slider && element.focused_active {
            Some(element.id)
        } else {
            None
        },
{
    if element.kind != InteractionKind::Slider || !element.focused_active {
        return None;
    }
    Some(element.id)
}

/// For a text input, whether edits emit change events; nothing for other
/// kinds.
pub fn text_input_emit_change(element: &ElementInteraction) -> (emit: Option<bool>)
    ensures
        emit == if element.kind == InteractionKind::TextInput {
            Some(element.on_change)
        } else {
            None
        },
{
    if element.kind == InteractionKind::TextInput {
        Some(element.on_change)
    } else {
        None
    }
}

pub open spec fn spec_cursor_icon(e: ElementInteraction) -> Option<CursorIcon> {
    if e.kind == InteractionKind::TextInput {
        Some(CursorIcon::Text)
    } else if e.kind == InteractionKind::Slider || e.on_click || e.on_press || e.on_mouse_down
        || spec_has_swipe_listener(e) || e.has_virtual_key {
        Some(CursorIcon::Pointer)
    } else {
        None
    }
}

/// The cursor shown over an element: a text cursor over text inputs, a
/// pointer over sliders and anything clickable, pressable, swipeable or
/// acting as a virtual key.
pub fn cursor_icon_for_element(element: &ElementInteraction) -> (icon: Option<CursorIcon>)
    ensures
        icon == spec_cursor_icon(*element),
{
    if element.kind == InteractionKind::TextInput {
        Some(CursorIcon::Text)
    } else if element.kind == InteractionKind::Slider || element.on_click || element.on_press
        || element.on_mouse_down || has_swipe_listener(element) || element.has_virtual_key {
        Some(CursorIcon::Pointer)
    } else {
        None
    }
}

pub open spec fn spec_tracks_hover_inside(e: ElementInteraction) -> bool {
    e.has_mouse_over_style || e.on_mouse_enter || e.on_mouse_leave
}

/// Whether the element tracks hover: a hover style or an enter or leave
/// handler.
pub fn tracks_hover_inside(element: &ElementInteraction) -> (tracks: bool)
    ensures
        tracks == spec_tracks_hover_inside(*element),
{
    element.has_mouse_over_style || element.on_mouse_enter || element.on_mouse_leave
}

pub open spec fn spec_is_focusable(e: ElementInteraction) -> bool {
    !e.has_virtual_key && (e.kind == InteractionKind::TextInput || e.kind == InteractionKind::Slider
        || e.on_press || e.on_focus || e.on_blur || e.has_on_key_down || e.has_on_key_up
        || e.has_on_key_press)
}

/// Whether Tab can focus the element: never a virtual key; otherwise text
/// inputs, sliders, and elements with press, focus, blur or key handlers.
pub fn is_focusable(element: &ElementInteraction) -> (focusable: bool)
    ensures
        focusable == spec_is_focusable(*element),
{
    !element.has_virtual_key && (element.kind == InteractionKind::TextInput || element.kind
        == InteractionKind::Slider || element.on_press || element.on_focus || element.on_blur
        || element.has_on_key_down || element.has_on_key_up || element.has_on_key_press)
}

pub open spec fn spec_owns_steady_cursor_inside(e: ElementInteraction, has_scrollbar_hover: bool) -> bool {
    spec_cursor_icon(e) is Some || e.on_mouse_move || spec_tracks_hover_inside(e) || e.on_mouse_down
        || e.on_mouse_up || e.has_mouse_down_style || e.mouse_down_active || spec_is_focusable(e)
        || has_scrollbar_hover
}

/// Whether the element owns the cursor while the pointer is inside it, so
/// that cursor-position listeners stop there.
pub fn owns_steady_cursor_inside(element: &ElementInteraction, has_scrollbar_hover: bool) -> (owns:
    bool)
    ensures
        owns == spec_owns_steady_cursor_inside(*element, has_scrollbar_hover),
{
    cursor_icon_for_element(element).is_some() || element.on_mouse_move || tracks_hover_inside(
        element,
    ) || element.on_mouse_down || element.on_mouse_up || element.has_mouse_down_style
        || element.mouse_down_active || is_focusable(element) || has_scrollbar_hover
}

/// Every element that shows a cursor, tracks hover or is focusable owns the
/// cursor while the pointer is inside it.
pub proof fn law_interactive_elements_own_cursor(e: ElementInteraction, has_scrollbar_hover: bool)
    requires
        spec_cursor_icon(e) is Some || spec_tracks_hover_inside(e) || spec_is_focusable(e),
    ensures
        spec_owns_steady_cursor_inside(e, has_scrollbar_hover),
{
}

// ----------------------------------------------------------------------------
// Mouse events
// ----------------------------------------------------------------------------

/// A left press emits a mouse-down event when the element asks for one.
pub fn mouse_events_left_press_actions(element: &ElementInteraction) -> (actions: Vec<ElementAction>)
    ensures
        actions@ == if element.on_mouse_down {
            seq![ElementAction::ElixirEvent { element_id: element.id, kind: ElementEventKind::MouseDown }]
        } else {
            Seq::<ElementAction>::empty()
        },
{
    one_if(
        element.on_mouse_down,
        ElementAction::ElixirEvent { element_id: element.id, kind: ElementEventKind::MouseDown },
    )
}

/// A left release emits a mouse-up event when the element asks for one.
pub fn mouse_events_left_release_actions(element: &ElementInteraction) -> (actions: Vec<ElementAction>)
    ensures
        actions@ == if element.on_mouse_up {
            seq![ElementAction::ElixirEvent { element_id: element.id, kind: ElementEventKind::MouseUp }]
        } else {
            Seq::<ElementAction>::empty()
        },
{
    one_if(
        element.on_mouse_up,
        ElementAction::ElixirEvent { element_id: element.id, kind: ElementEventKind::MouseUp },
    )
}

/// A cursor move emits a mouse-move event when the element asks for one.
pub fn mouse_events_cursor_pos_actions(element: &ElementInteraction) -> (actions: Vec<ElementAction>)
    ensures
        actions@ == if element.on_mouse_move {
            seq![ElementAction::ElixirEvent { element_id: element.id, kind: ElementEventKind::MouseMove }]
        } else {
            Seq::<ElementAction>::empty()
        },
{
    one_if(
        element.on_mouse_move,
        ElementAction::ElixirEvent { element_id: element.id, kind: ElementEventKind::MouseMove },
    )
}

// ----------------------------------------------------------------------------
// Hover
// ----------------------------------------------------------------------------

/// Entering emits a mouse-enter event when asked for, then, when the element
/// tracks hover, sets its hover state.
pub open spec fn spec_tracker_enter_actions(e: ElementInteraction) -> Seq<ElementAction> {
    present(
        seq![
            if e.on_mouse_enter {
                Some(ElementAction::ElixirEvent { element_id: e.id, kind: ElementEventKind::MouseEnter })
            } else {
                None
            },
            if spec_tracks_hover_inside(e) {
                Some(ElementAction::SetMouseOverActive { element_id: e.id, active: true })
            } else {
                None
            },
        ],
    )
}

/// Leaving emits a mouse-leave event when asked for, then, when the element
/// tracks hover, clears its hover state.
pub open spec fn spec_tracker_leave_actions(e: ElementInteraction) -> Seq<ElementAction> {
    present(
        seq![
            if e.on_mouse_leave {
                Some(ElementAction::ElixirEvent { element_id: e.id, kind: ElementEventKind::MouseLeave })
            } else {
                None
            },
            if spec_tracks_hover_inside(e) {
                Some(ElementAction::SetMouseOverActive { element_id: e.id, active: false })
            } else {
                None
            },
        ],
    )
}

proof fn lemma_present_pair(a: Option<ElementAction>, b: Option<ElementAction>)
    ensures
        present(seq![a, b]) == (match a {
            Some(x) => seq![x],
            None => Seq::<ElementAction>::empty(),
        }) + (match b {
            Some(y) => seq![y],
            None => Seq::<ElementAction>::empty(),
        }),
{
    let s = seq![a, b];
    let one = seq![a];
    assert(s.drop_last() =~= one);
    assert(s.last() == b);
    assert(one.drop_last() =~= Seq::<Option<ElementAction>>::empty());
    assert(one.last() == a);
    assert(present(Seq::<Option<ElementAction>>::empty()) == Seq::<ElementAction>::empty());
    assert(present(one) == present(one.drop_last()) + (match a {
        Some(x) => seq![x],
        None => Seq::<ElementAction>::empty(),
    })) by {
        match a {
            Some(x) => {
                assert(present(one) == present(one.drop_last()).push(x));
                assert(present(one.drop_last()).push(x) =~= present(one.drop_last()) + seq![x]);
            },
            None => {
                assert(present(one.drop_last()) + Seq::<ElementAction>::empty() =~= present(one.drop_last()));
            },
        }
    }
    assert(present(one) =~= match a {
        Some(x) => seq![x],
        None => Seq::<ElementAction>::empty(),
    });
    assert(present(s) =~= (match a {
        Some(x) => seq![x],
        None => Seq::<ElementAction>::empty(),
    }) + (match b {
        Some(y) => seq![y],
        None => Seq::<ElementAction>::empty(),
    }));
}

pub fn tracker_enter_actions(element: &ElementInteraction) -> (actions: Vec<ElementAction>)
    ensures
        actions@ == spec_tracker_enter_actions(*element),
{
    let mut actions = Vec::new();
    if element.on_mouse_enter {
        actions.push(ElementAction::ElixirEvent { element_id: element.id, kind: ElementEventKind::MouseEnter });
    }
    if tracks_hover_inside(element) {
        actions.push(ElementAction::SetMouseOverActive { element_id: element.id, active: true });
    }
    proof {
        lemma_present_pair(
            if element.on_mouse_enter {
                Some(ElementAction::ElixirEvent { element_id: element.id, kind: ElementEventKind::MouseEnter })
            } else {
                None
            },
            if spec_tracks_hover_inside(*element) {
                Some(ElementAction::SetMouseOverActive { element_id: element.id, active: true })
            } else {
                None
            },
        );
    }
    assert(actions@ =~= spec_tracker_enter_actions(*element));
    actions
}

pub fn tracker_leave_actions(element: &ElementInteraction) -> (actions: Vec<ElementAction>)
    ensures
        actions@ == spec_tracker_leave_actions(*element),
{
    let mut actions = Vec::new();
    if element.on_mouse_leave {
        actions.push(ElementAction::ElixirEvent { element_id: element.id, kind: ElementEventKind::MouseLeave });
    }
    if tracks_hover_inside(element) {
        actions.push(ElementAction::SetMouseOverActive { element_id: element.id, active: false });
    }
    proof {
        lemma_present_pair(
            if element.on_mouse_leave {
                Some(ElementAction::ElixirEvent { element_id: element.id, kind: ElementEventKind::MouseLeave })
            } else {
                None
            },
            if spec_tracks_hover_inside(*element) {
                Some(ElementAction::SetMouseOverActive { element_id: element.id, active: false })
            } else {
                None
            },
        );
    }
    assert(actions@ =~= spec_tracker_leave_actions(*element));
    actions
}

/// Leaving an element whose hover state is active runs its leave actions;
/// otherwise nothing.
pub fn hover_leave_actions(element: &ElementInteraction) -> (actions: Vec<ElementAction>)
    ensures
        actions@ == if element.mouse_over_active {
            spec_tracker_leave_actions(*element)
        } else {
            Seq::<ElementAction>::empty()
        },
{
    if element.mouse_over_active {
        tracker_leave_actions(element)
    } else {
        Vec::new()
    }
}

/// Entering sets the hover state exactly when leaving clears it, and both
/// touch it only for elements that track hover.
pub proof fn law_hover_enter_and_leave_pair_up(e: ElementInteraction)
    ensures
        spec_tracker_enter_actions(e).contains(
            ElementAction::SetMouseOverActive { element_id: e.id, active: true },
        ) == spec_tracks_hover_inside(e),
        spec_tracker_leave_actions(e).contains(
            ElementAction::SetMouseOverActive { element_id: e.id, active: false },
        ) == spec_tracks_hover_inside(e),
{
    let enter_event = if e.on_mouse_enter {
        Some(ElementAction::ElixirEvent { element_id: e.id, kind: ElementEventKind::MouseEnter })
    } else {
        None
    };
    let set = if spec_tracks_hover_inside(e) {
        Some(ElementAction::SetMouseOverActive { element_id: e.id, active: true })
    } else {
        None
    };
    lemma_present_pair(enter_event, set);
    let leave_event = if e.on_mouse_leave {
        Some(ElementAction::ElixirEvent { element_id: e.id, kind: ElementEventKind::MouseLeave })
    } else {
        None
    };
    let clear = if spec_tracks_hover_inside(e) {
        Some(ElementAction::SetMouseOverActive { element_id: e.id, active: false })
    } else {
        None
    };
    lemma_present_pair(leave_event, clear);
    let target_on = ElementAction::SetMouseOverActive { element_id: e.id, active: true };
    let target_off = ElementAction::SetMouseOverActive { element_id: e.id, active: false };
    if spec_tracks_hover_inside(e) {
        let en = spec_tracker_enter_actions(e);
        assert(en[en.len() - 1] == target_on);
        let le = spec_tracker_leave_actions(e);
        assert(le[le.len() - 1] == target_off);
    } else {
        assert(!spec_tracker_enter_actions(e).contains(target_on));
        assert(!spec_tracker_leave_actions(e).contains(target_off));
    }
}

// ----------------------------------------------------------------------------
// Mouse-down style
// ----------------------------------------------------------------------------

/// Whether the element has a mouse-down style, and whether it is active.
pub fn has_and_active(element: &ElementInteraction) -> (result: (bool, bool))
    ensures
        result == (element.has_mouse_down_style, element.mouse_down_active),
{
    (element.has_mouse_down_style, element.mouse_down_active)
}

/// A left press activates an inactive mouse-down style.
pub fn mouse_down_style_left_press_actions(element: &ElementInteraction) -> (actions: Vec<ElementAction>)
    ensures
        actions@ == if element.has_mouse_down_style && !element.mouse_down_active {
            seq![ElementAction::SetMouseDownActive { element_id: element.id, active: true }]
        } else {
            Seq::<ElementAction>::empty()
        },
{
    let (has_style, active) = has_and_active(element);
    one_if(
        has_style && !active,
        ElementAction::SetMouseDownActive { element_id: element.id, active: true },
    )
}

/// A left release deactivates an active mouse-down style.
pub fn mouse_down_style_left_release_actions(element: &ElementInteraction) -> (actions: Vec<
    ElementAction,
>)
    ensures
        actions@ == if element.has_mouse_down_style && element.mouse_down_active {
            seq![ElementAction::SetMouseDownActive { element_id: element.id, active: false }]
        } else {
            Seq::<ElementAction>::empty()
        },
{
    let (has_style, active) = has_and_active(element);
    one_if(
        has_style && active,
        ElementAction::SetMouseDownActive { element_id: element.id, active: false },
    )
}

/// Leaving deactivates an active mouse-down style.
pub fn mouse_down_style_leave_actions(element: &ElementInteraction) -> (actions: Vec<ElementAction>)
    ensures
        actions@ == if element.has_mouse_down_style && element.mouse_down_active {
            seq![ElementAction::SetMouseDownActive { element_id: element.id, active: false }]
        } else {
            Seq::<ElementAction>::empty()
        },
{
    let (has_style, active) = has_and_active(element);
    one_if(
        has_style && active,
        ElementAction::SetMouseDownActive { element_id: element.id, active: false },
    )
}

/// Losing window focus deactivates an active mouse-down style.
pub fn mouse_down_style_window_blur_actions(element: &ElementInteraction) -> (actions: Vec<
    ElementAction,
>)
    ensures
        actions@ == if element.has_mouse_down_style && element.mouse_down_active {
            seq![ElementAction::SetMouseDownActive { element_id: element.id, active: false }]
        } else {
            Seq::<ElementAction>::empty()
        },
{
    let (has_style, active) = has_and_active(element);
    one_if(
        has_style && active,
        ElementAction::SetMouseDownActive { element_id: element.id, active: false },
    )
}

/// The mouse-down state after applying `actions` for element `id`, starting
/// from `active`.
pub open spec fn mouse_down_after(id: NodeId, active: bool, actions: Seq<ElementAction>) -> bool
    decreases actions.len(),
{
    if actions.len() == 0 {
        active
    } else {
        match actions.last() {
            ElementAction::SetMouseDownActive { element_id, active: a } => if element_id == id {
                a
            } else {
                mouse_down_after(id, active, actions.drop_last())
            },
            _ => mouse_down_after(id, active, actions.drop_last()),
        }
    }
}

/// With a mouse-down style, a press activates the style and the following
/// release deactivates it: press then release comes back to inactive.
pub proof fn law_mouse_down_press_then_release(e: ElementInteraction)
    requires
        e.has_mouse_down_style,
        !e.mouse_down_active,
    ensures
        mouse_down_after(
            e.id,
            e.mouse_down_active,
            seq![ElementAction::SetMouseDownActive { element_id: e.id, active: true }],
        ),
        !mouse_down_after(
            e.id,
            true,
            seq![ElementAction::SetMouseDownActive { element_id: e.id, active: false }],
        ),
{
}

// ----------------------------------------------------------------------------
// Click/press tracking, drag bootstrap, keyboard press
// ----------------------------------------------------------------------------

/// A left press starts click/press tracking when the element emits clicks
/// or pointer presses, or has a mouse-down style to clear.
pub fn click_press_tracker_left_press_actions(
    element: &ElementInteraction,
    matcher_kind: ListenerMatcherKind,
) -> (actions: Vec<ElementAction>)
    ensures
        actions@ == if element.on_click || element.on_press || element.has_mouse_down_style {
            seq![
                ElementAction::StartClickPressTracker(
                    ClickPressTracker {
                        element_id: element.id,
                        matcher_kind,
                        emit_click: element.on_click,
                        emit_press_pointer: element.on_press,
                        clear_mouse_down: element.has_mouse_down_style,
                    },
                ),
            ]
        } else {
            Seq::<ElementAction>::empty()
        },
{
    let emit_click = element.on_click;
    let emit_press_pointer = element.on_press;
    let clear_mouse_down = element.has_mouse_down_style;
    one_if(
        emit_click || emit_press_pointer || clear_mouse_down,
        ElementAction::StartClickPressTracker(
            ClickPressTracker {
                element_id: element.id,
                matcher_kind,
                emit_click,
                emit_press_pointer,
                clear_mouse_down,
            },
        ),
    )
}

/// What a left press needs to start drag tracking.
#[derive(Clone, Copy, Debug, PartialEq, Eq, Structural)]
pub struct PointerDragBootstrap {
    pub element_id: NodeId,
    pub matcher_kind: ListenerMatcherKind,
    pub swipe_handlers: SwipeHandlers,
    pub scroll_candidate: bool,
}

/// A left press bootstraps drag tracking for clickable, pressable or
/// swipeable elements and for elements that can scroll in some direction.
pub fn left_press_drag_bootstrap(
    element: &ElementInteraction,
    matcher_kind: ListenerMatcherKind,
    scroll_directions: &[ScrollDirection],
) -> (bootstrap: Option<PointerDragBootstrap>)
    ensures
        bootstrap == if element.on_click || element.on_press || spec_has_swipe_listener(*element)
            || scroll_directions@.len() > 0 {
            Some(
                PointerDragBootstrap {
                    element_id: element.id,
                    matcher_kind,
                    swipe_handlers: spec_swipe_handlers(*element),
                    scroll_candidate: scroll_directions@.len() > 0,
                },
            )
        } else {
            None
        },
{
    let swipe_handlers = swipe_handlers_for_element(element);
    let scroll_candidate = scroll_directions.len() > 0;
    if element.on_click || element.on_press || swipe_handlers.any() || scroll_candidate {
        Some(
            PointerDragBootstrap {
                element_id: element.id,
                matcher_kind,
                swipe_handlers,
                scroll_candidate,
            },
        )
    } else {
        None
    }
}

/// The directions the wheel can scroll an element: along an axis with a
/// scrollbar, towards the end while not at the end, and towards the start
/// while not at the start.
pub fn scroll_directions_for_element(
    scrollbar_x: bool,
    x_before_end: bool,
    x_after_start: bool,
    scrollbar_y: bool,
    y_before_end: bool,
    y_after_start: bool,
) -> (directions: Vec<ScrollDirection>)
    ensures
        directions@ == (if scrollbar_x && x_before_end {
            seq![ScrollDirection::XNeg]
        } else {
            Seq::empty()
        }) + (if scrollbar_x && x_after_start {
            seq![ScrollDirection::XPos]
        } else {
            Seq::empty()
        }) + (if scrollbar_y && y_before_end {
            seq![ScrollDirection::YNeg]
        } else {
            Seq::empty()
        }) + (if scrollbar_y && y_after_start {
            seq![ScrollDirection::YPos]
        } else {
            Seq::empty()
        }),
{
    let mut directions = Vec::new();
    if scrollbar_x && x_before_end {
        directions.push(ScrollDirection::XNeg);
    }
    if scrollbar_x && x_after_start {
        directions.push(ScrollDirection::XPos);
    }
    if scrollbar_y && y_before_end {
        directions.push(ScrollDirection::YNeg);
    }
    if scrollbar_y && y_after_start {
        directions.push(ScrollDirection::YPos);
    }
    assert(directions@ =~= (if scrollbar_x && x_before_end {
        seq![ScrollDirection::XNeg]
    } else {
        Seq::empty()
    }) + (if scrollbar_x && x_after_start {
        seq![ScrollDirection::XPos]
    } else {
        Seq::empty()
    }) + (if scrollbar_y && y_before_end {
        seq![ScrollDirection::YNeg]
    } else {
        Seq::empty()
    }) + (if scrollbar_y && y_after_start {
        seq![ScrollDirection::YPos]
    } else {
        Seq::empty()
    }));
    directions
}

/// A focused Enter press emits a press event for elements with a press
/// handler.
pub fn enter_press_actions(element: &ElementInteraction) -> (actions: Vec<ElementAction>)
    ensures
        actions@ == if element.on_press && element.focused_active {
            seq![ElementAction::ElixirEvent { element_id: element.id, kind: ElementEventKind::Press }]
        } else {
            Seq::<ElementAction>::empty()
        },
{
    one_if(
        element.on_press && element.focused_active,
        ElementAction::ElixirEvent { element_id: element.id, kind: ElementEventKind::Press },
    )
}

// ----------------------------------------------------------------------------
// Key bindings
// ----------------------------------------------------------------------------

/// A user key binding of an element.
#[derive(Debug, PartialEq)]
pub struct KeyBindingSpec {
    pub key: CanonicalKey,
    pub mods: u8,
    pub match_mode: KeyBindingMatch,
    pub route: String,
}

#[derive(Debug, PartialEq)]
pub enum KeyPressFollowup {
    ElixirEvent { element_id: NodeId, route: String },
}

/// Completed key-press tracking: which key press, from which element, and
/// what its release sends.
#[derive(Debug, PartialEq)]
pub struct KeyPressTracker {
    pub source_element_id: Option<NodeId>,
    pub key: CanonicalKey,
    pub mods: u8,
    pub match_mode: KeyBindingMatch,
    pub followups: Vec<KeyPressFollowup>,
}

/// A key-press tracker with its routes as character sequences.
pub ghost struct KeyPressTrackerView {
    pub source_element_id: Option<NodeId>,
    pub key: CanonicalKey,
    pub mods: u8,
    pub match_mode: KeyBindingMatch,
    pub followups: Seq<(NodeId, Seq<char>)>,
}

pub open spec fn key_press_followup_view(f: KeyPressFollowup) -> (NodeId, Seq<char>) {
    match f {
        KeyPressFollowup::ElixirEvent { element_id, route } => (element_id, route@),
    }
}

pub open spec fn key_press_tracker_view(t: KeyPressTracker) -> KeyPressTrackerView {
    KeyPressTrackerView {
        source_element_id: t.source_element_id,
        key: t.key,
        mods: t.mods,
        match_mode: t.match_mode,
        followups: t.followups@.map_values(|f: KeyPressFollowup| key_press_followup_view(f)),
    }
}

/// Whether two trackers are the same: same source, key, modifiers, match
/// mode and followups.
pub fn key_press_trackers_equal(a: &KeyPressTracker, b: &KeyPressTracker) -> (same: bool)
    ensures
        same == (key_press_tracker_view(*a) == key_press_tracker_view(*b)),
{
    let ghost va = key_press_tracker_view(*a);
    let ghost vb = key_press_tracker_view(*b);
    if a.source_element_id != b.source_element_id || a.key != b.key || a.mods != b.mods
        || a.match_mode != b.match_mode || a.followups.len() != b.followups.len() {
        assert(va != vb) by {
            if a.followups.len() != b.followups.len() {
                assert(va.followups.len() != vb.followups.len());
            }
        }
        return false;
    }
    let n = a.followups.len();
    let mut k: usize = 0;
    while k < n
        invariant
            n == a.followups@.len(),
            n == b.followups@.len(),
            k <= n,
            va == key_press_tracker_view(*a),
            vb == key_press_tracker_view(*b),
            forall|j: int| 0 <= j < k ==> va.followups[j] == vb.followups[j],
        decreases n - k,
    {
        assert(va.followups[k as int] == key_press_followup_view(a.followups@[k as int]));
        assert(vb.followups[k as int] == key_press_followup_view(b.followups@[k as int]));
        match (&a.followups[k], &b.followups[k]) {
            (
                KeyPressFollowup::ElixirEvent { element_id: ia, route: ra },
                KeyPressFollowup::ElixirEvent { element_id: ib, route: rb },
            ) => {
                if *ia != *ib || !ra.eq(rb) {
                    assert(va.followups[k as int] != vb.followups[k as int]);
                    return false;
                }
            },
        }
        k = k + 1;
    }
    assert(va.followups =~= vb.followups);
    true
}

/// An element event that carries a route name as its payload.
#[derive(Debug, PartialEq)]
pub struct RoutedEvent {
    pub element_id: NodeId,
    pub kind: ElementEventKind,
    pub route: String,
}

/// The events that a completed key press sends: one `KeyPress` event per
/// followup, in order, on the followup's element and route.
pub fn key_press_followup_actions(tracker: &KeyPressTracker) -> (events: Vec<RoutedEvent>)
    ensures
        events@.len() == tracker.followups@.len(),
        forall|i: int|
            0 <= i < events@.len() ==> #[trigger] events@[i].kind == ElementEventKind::KeyPress
                && match tracker.followups@[i] {
                KeyPressFollowup::ElixirEvent { element_id, route } => events@[i].element_id
                    == element_id && events@[i].route@ == route@,
            },
{
    let mut events: Vec<RoutedEvent> = Vec::new();
    let mut k: usize = 0;
    while k < tracker.followups.len()
        invariant
            k <= tracker.followups@.len(),
            events@.len() == k,
            forall|i: int|
                0 <= i < k ==> #[trigger] events@[i].kind == ElementEventKind::KeyPress
                    && match tracker.followups@[i] {
                    KeyPressFollowup::ElixirEvent { element_id, route } => events@[i].element_id
                        == element_id && events@[i].route@ == route@,
                },
        decreases tracker.followups@.len() - k,
    {
        match &tracker.followups[k] {
            KeyPressFollowup::ElixirEvent { element_id, route } => {
                events.push(
                    RoutedEvent {
                        element_id: *element_id,
                        kind: ElementEventKind::KeyPress,
                        route: route.clone(),
                    },
                );
            },
        }
        k = k + 1;
    }
    events
}

/// The tracker a binding's key press starts: the binding's key, modifiers
/// and match mode, with one followup event on the binding's route.
pub fn key_press_tracker_for_binding(element_id: NodeId, binding: &KeyBindingSpec) -> (tracker:
    KeyPressTracker)
    ensures
        tracker.source_element_id == Some(element_id),
        tracker.key == binding.key,
        tracker.mods == binding.mods,
        tracker.match_mode == binding.match_mode,
        tracker.followups@.len() == 1,
        tracker.followups@[0] matches KeyPressFollowup::ElixirEvent { element_id: id, route } && id
            == element_id && route@ == binding.route@,
{
    let mut followups = Vec::new();
    followups.push(KeyPressFollowup::ElixirEvent { element_id, route: binding.route.clone() });
    KeyPressTracker {
        source_element_id: Some(element_id),
        key: binding.key,
        mods: binding.mods,
        match_mode: binding.match_mode,
        followups,
    }
}

/// Keys whose key-down in a text input also commits text.
pub open spec fn spec_is_text_producing_key(key: CanonicalKey) -> bool {
    match key {
        CanonicalKey::A | CanonicalKey::B | CanonicalKey::C | CanonicalKey::D | CanonicalKey::E
        | CanonicalKey::F | CanonicalKey::G | CanonicalKey::H | CanonicalKey::I | CanonicalKey::J
        | CanonicalKey::K | CanonicalKey::L | CanonicalKey::M | CanonicalKey::N | CanonicalKey::O
        | CanonicalKey::P | CanonicalKey::Q | CanonicalKey::R | CanonicalKey::S | CanonicalKey::T
        | CanonicalKey::U | CanonicalKey::V | CanonicalKey::W | CanonicalKey::X | CanonicalKey::Y
        | CanonicalKey::Z | CanonicalKey::Digit0 | CanonicalKey::Digit1 | CanonicalKey::Digit2
        | CanonicalKey::Digit3 | CanonicalKey::Digit4 | CanonicalKey::Digit5 | CanonicalKey::Digit6
        | CanonicalKey::Digit7 | CanonicalKey::Digit8 | CanonicalKey::Digit9 | CanonicalKey::Minus
        | CanonicalKey::Equal | CanonicalKey::Plus | CanonicalKey::Asterisk
        | CanonicalKey::LeftBracket | CanonicalKey::RightBracket | CanonicalKey::Backslash
        | CanonicalKey::Semicolon | CanonicalKey::Apostrophe | CanonicalKey::Grave
        | CanonicalKey::Comma | CanonicalKey::Period | CanonicalKey::Slash | CanonicalKey::Space
        | CanonicalKey::Tab | CanonicalKey::Enter => true,
        _ => false,
    }
}

/// Whether a key binding on this element must suppress the text commit that
/// follows its key-down: in a text input, for a text-producing key held
/// without Ctrl or Meta.
pub fn binding_arms_text_commit_suppression(kind: InteractionKind, key: CanonicalKey, mods: u8) -> (arms:
    bool)
    ensures
        arms == (kind == InteractionKind::TextInput && mods & (MOD_CTRL | MOD_META) == 0
            && spec_is_text_producing_key(key)),
{
    if kind != InteractionKind::TextInput || (mods & (MOD_CTRL | MOD_META)) != 0 {
        return false;
    }
    match key {
        CanonicalKey::A | CanonicalKey::B | CanonicalKey::C | CanonicalKey::D | CanonicalKey::E
        | CanonicalKey::F | CanonicalKey::G | CanonicalKey::H | CanonicalKey::I | CanonicalKey::J
        | CanonicalKey::K | CanonicalKey::L | CanonicalKey::M | CanonicalKey::N | CanonicalKey::O
        | CanonicalKey::P | CanonicalKey::Q | CanonicalKey::R | CanonicalKey::S | CanonicalKey::T
        | CanonicalKey::U | CanonicalKey::V | CanonicalKey::W | CanonicalKey::X | CanonicalKey::Y
        | CanonicalKey::Z | CanonicalKey::Digit0 | CanonicalKey::Digit1 | CanonicalKey::Digit2
        | CanonicalKey::Digit3 | CanonicalKey::Digit4 | CanonicalKey::Digit5 | CanonicalKey::Digit6
        | CanonicalKey::Digit7 | CanonicalKey::Digit8 | CanonicalKey::Digit9 | CanonicalKey::Minus
        | CanonicalKey::Equal | CanonicalKey::Plus | CanonicalKey::Asterisk
        | CanonicalKey::LeftBracket | CanonicalKey::RightBracket | CanonicalKey::Backslash
        | CanonicalKey::Semicolon | CanonicalKey::Apostrophe | CanonicalKey::Grave
        | CanonicalKey::Comma | CanonicalKey::Period | CanonicalKey::Slash | CanonicalKey::Space
        | CanonicalKey::Tab | CanonicalKey::Enter => true,
        _ => false,
    }
}


/// Every text input and slider without a virtual key is focusable, and no
/// element with a virtual key is.
pub proof fn law_text_inputs_and_sliders_are_focusable(e: ElementInteraction)
    ensures
        e.kind == InteractionKind::TextInput && !e.has_virtual_key ==> spec_is_focusable(e),
        e.kind == InteractionKind::Slider && !e.has_virtual_key ==> spec_is_focusable(e),
        e.has_virtual_key ==> !spec_is_focusable(e),
{
}

} // verus!
