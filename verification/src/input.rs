//! Input event filtering and the shared normalization helpers used by the
//! platform backends.
//!
//! Pointer coordinates, scroll deltas and scale factors are floating-point
//! values; the filtering and matching logic never reads them, so the event
//! model here (`InputSignal`) carries everything else an event holds.
use vstd::prelude::*;

use crate::keys::CanonicalKey;

pub mod keyboard;
pub mod pointer;

verus! {

// ============================================================================
// Input Mask (for filtering events)
// ============================================================================

pub const INPUT_MASK_KEY: u32 = 0x01;

pub const INPUT_MASK_CODEPOINT: u32 = 0x02;

pub const INPUT_MASK_CURSOR_POS: u32 = 0x04;

pub const INPUT_MASK_CURSOR_BUTTON: u32 = 0x08;

pub const INPUT_MASK_CURSOR_SCROLL: u32 = 0x10;

pub const INPUT_MASK_CURSOR_ENTER: u32 = 0x20;

pub const INPUT_MASK_RESIZE: u32 = 0x40;

pub const INPUT_MASK_FOCUS: u32 = 0x80;

/// All input events enabled.
pub const INPUT_MASK_ALL: u32 = 0xFF;

// ============================================================================
// Modifier keys and actions
// ============================================================================

pub const MOD_SHIFT: u8 = 0x01;

pub const MOD_CTRL: u8 = 0x02;

pub const MOD_ALT: u8 = 0x04;

pub const MOD_META: u8 = 0x08;

pub const ACTION_RELEASE: u8 = 0;

pub const ACTION_PRESS: u8 = 1;

// ============================================================================
// Input events
// ============================================================================

/// An input event with every field that filtering and matching read.
///
/// Pointer positions, scroll deltas and scale factors are left out: they are
/// floating-point values that no decision in this library depends on.
#[derive(Clone, Debug, PartialEq)]
pub enum InputSignal {
    /// Mouse cursor position changed.
    CursorPos,
    /// Mouse button pressed/released.
    CursorButton { button: String, action: u8, mods: u8 },
    /// Mouse scroll wheel (pixel deltas).
    CursorScroll,
    /// Mouse scroll wheel (line deltas, normalized later).
    CursorScrollLines,
    /// Keyboard key pressed/released.
    Key { key: CanonicalKey, action: u8, mods: u8 },
    /// Text input commit (may contain multiple chars).
    TextCommit { text: String, mods: u8 },
    /// IME preedit text update for the focused text input.
    TextPreedit { text: String, cursor: Option<(u32, u32)> },
    /// IME preedit text cleared.
    TextPreeditClear,
    /// IME requests deletion of surrounding text in UTF-8 byte lengths.
    DeleteSurrounding { before_length: u32, after_length: u32 },
    /// Cursor entered/exited the window.
    CursorEntered { entered: bool },
    /// Window resized.
    Resized { width: u32, height: u32 },
    /// Window focused/unfocused.
    Focused { focused: bool },
}

/// The mask bit that enables delivery of an event.
pub open spec fn spec_event_mask(event: InputSignal) -> u32 {
    match event {
        InputSignal::Key { .. } => INPUT_MASK_KEY,
        InputSignal::TextCommit { .. }
        | InputSignal::TextPreedit { .. }
        | InputSignal::TextPreeditClear
        | InputSignal::DeleteSurrounding { .. } => INPUT_MASK_CODEPOINT,
        InputSignal::CursorPos => INPUT_MASK_CURSOR_POS,
        InputSignal::CursorButton { .. } => INPUT_MASK_CURSOR_BUTTON,
        InputSignal::CursorScroll | InputSignal::CursorScrollLines => INPUT_MASK_CURSOR_SCROLL,
        InputSignal::CursorEntered { .. } => INPUT_MASK_CURSOR_ENTER,
        InputSignal::Resized { .. } => INPUT_MASK_RESIZE,
        InputSignal::Focused { .. } => INPUT_MASK_FOCUS,
    }
}

impl InputSignal {
    /// The mask bit that enables delivery of this event.
    pub fn event_mask(&self) -> (mask: u32)
        ensures
            mask == spec_event_mask(*self),
    {
        match self {
            InputSignal::Key { .. } => INPUT_MASK_KEY,
            InputSignal::TextCommit { .. }
            | InputSignal::TextPreedit { .. }
            | InputSignal::TextPreeditClear
            | InputSignal::DeleteSurrounding { .. } => INPUT_MASK_CODEPOINT,
            InputSignal::CursorPos => INPUT_MASK_CURSOR_POS,
            InputSignal::CursorButton { .. } => INPUT_MASK_CURSOR_BUTTON,
            InputSignal::CursorScroll | InputSignal::CursorScrollLines => INPUT_MASK_CURSOR_SCROLL,
            InputSignal::CursorEntered { .. } => INPUT_MASK_CURSOR_ENTER,
            InputSignal::Resized { .. } => INPUT_MASK_RESIZE,
            InputSignal::Focused { .. } => INPUT_MASK_FOCUS,
        }
    }
}

// ============================================================================
// Input Handler
// ============================================================================

/// Filters input events by a bit mask before they are delivered.
pub struct InputHandler {
    mask: u32,
}

impl InputHandler {
    /// The current filter mask.
    pub closed spec fn spec_mask(&self) -> u32 {
        self.mask
    }

    /// A handler that accepts every event.
    pub fn new() -> (handler: Self)
        ensures
            handler.spec_mask() == INPUT_MASK_ALL,
    {
        Self { mask: INPUT_MASK_ALL }
    }

    /// Set the input mask for filtering events.
    pub fn set_mask(&mut self, mask: u32)
        ensures
            final(self).spec_mask() == mask,
    {
        self.mask = mask;
    }

    /// The current filter mask.
    pub fn mask(&self) -> (mask: u32)
        ensures
            mask == self.spec_mask(),
    {
        self.mask
    }

    /// Whether the current mask lets `event` through.
    pub fn accepts(&self, event: &InputSignal) -> (accepted: bool)
        ensures
            accepted == (self.spec_mask() & spec_event_mask(*event) != 0),
    {
        let event_mask = event.event_mask();
        self.mask & event_mask != 0
    }
}

impl Default for InputHandler {
    fn default() -> (handler: Self)
        ensures
            handler.spec_mask() == INPUT_MASK_ALL,
    {
        Self::new()
    }
}

// ============================================================================
// Modifier names
// ============================================================================

/// A modifier key as it is named to event observers.
#[derive(Clone, Copy, Debug, PartialEq, Eq, Structural)]
pub enum ModifierName {
    Shift,
    Ctrl,
    Alt,
    Meta,
}

/// The names of the modifiers held in `mods`, in the order shift, ctrl,
/// alt, meta.
pub open spec fn spec_modifier_names(mods: u8) -> Seq<ModifierName> {
    (if mods & MOD_SHIFT != 0 {
        seq![ModifierName::Shift]
    } else {
        Seq::empty()
    }) + (if mods & MOD_CTRL != 0 {
        seq![ModifierName::Ctrl]
    } else {
        Seq::empty()
    }) + (if mods & MOD_ALT != 0 {
        seq![ModifierName::Alt]
    } else {
        Seq::empty()
    }) + (if mods & MOD_META != 0 {
        seq![ModifierName::Meta]
    } else {
        Seq::empty()
    })
}

/// The names of the modifiers held in `mods`, as events report them.
pub fn modifier_names(mods: u8) -> (names: Vec<ModifierName>)
    ensures
        names@ == spec_modifier_names(mods),
{
    let mut names = Vec::new();
    if mods & MOD_SHIFT != 0 {
        names.push(ModifierName::Shift);
    }
    if mods & MOD_CTRL != 0 {
        names.push(ModifierName::Ctrl);
    }
    if mods & MOD_ALT != 0 {
        names.push(ModifierName::Alt);
    }
    if mods & MOD_META != 0 {
        names.push(ModifierName::Meta);
    }
    assert(names@ =~= spec_modifier_names(mods));
    names
}


/// Each event kind has its own mask bit, and a mask accepts an event
/// exactly when it has that bit, whatever its other bits.
pub proof fn law_each_event_kind_has_its_own_mask_bit(event: InputSignal, mask: u32)
    ensures
        event is Key ==> spec_event_mask(event) == INPUT_MASK_KEY,
        event is TextCommit || event is TextPreedit || event is TextPreeditClear || event is DeleteSurrounding
            ==> spec_event_mask(event) == INPUT_MASK_CODEPOINT,
        event is CursorPos ==> spec_event_mask(event) == INPUT_MASK_CURSOR_POS,
        event is CursorButton ==> spec_event_mask(event) == INPUT_MASK_CURSOR_BUTTON,
        event is CursorScroll || event is CursorScrollLines ==> spec_event_mask(event) == INPUT_MASK_CURSOR_SCROLL,
        event is CursorEntered ==> spec_event_mask(event) == INPUT_MASK_CURSOR_ENTER,
        event is Resized ==> spec_event_mask(event) == INPUT_MASK_RESIZE,
        event is Focused ==> spec_event_mask(event) == INPUT_MASK_FOCUS,
        event is CursorButton ==> ((mask & spec_event_mask(event) != 0) <==> (mask & 0x08u32 != 0)),
        event is CursorPos ==> ((mask & spec_event_mask(event) != 0) <==> (mask & 0x04u32 != 0)),
        event is Key ==> ((mask & spec_event_mask(event) != 0) <==> (mask & 0x01u32 != 0)),
{
}

} // verus!
