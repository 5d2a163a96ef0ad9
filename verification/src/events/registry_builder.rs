//! # Registry Builder
//!
//! Listener registries are matched in precedence order and the first
//! matching listener wins.
//!
//! `Registry` stores listeners from lowest precedence to highest precedence;
//! reads go through precedence order. Builders emit a block of listeners
//! from highest to lowest precedence with `in_precedence_order`, and the
//! block lands on top of what the registry already held.
//!
//! Matchers here are the ones decided by key, action, modifier, button and
//! event-kind alone; matchers that hit-test pointer positions against element
//! geometry are floating-point code outside this library.
use vstd::prelude::*;

use crate::input::pointer::str_equals;
use crate::input::{InputSignal, ACTION_PRESS, ACTION_RELEASE, MOD_ALT, MOD_CTRL, MOD_META, MOD_SHIFT};
use crate::events::contributors::CursorIcon;
use crate::keys::CanonicalKey;
use std::collections::HashMap;

verus! {

/// Identity of an element of the retained tree.
pub type NodeId = u64;

/// How a key binding compares modifiers.
#[derive(Clone, Copy, Debug, PartialEq, Eq, Structural)]
pub enum KeyBindingMatch {
    /// The held modifiers are exactly the required ones.
    Exact,
    /// The held modifiers include all of the required ones.
    All,
}

pub open spec fn spec_key_modifiers_match(actual: u8, required: u8, mode: KeyBindingMatch) -> bool {
    match mode {
        KeyBindingMatch::Exact => actual == required,
        KeyBindingMatch::All => actual & required == required,
    }
}

pub fn key_modifiers_match(actual: u8, required: u8, match_mode: KeyBindingMatch) -> (matched: bool)
    ensures
        matched == spec_key_modifiers_match(actual, required, match_mode),
{
    match match_mode {
        KeyBindingMatch::Exact => actual == required,
        KeyBindingMatch::All => actual & required == required,
    }
}

/// Stable matcher identity for source lookup: the variant only.
#[derive(Clone, Copy, Debug, PartialEq, Eq, Structural)]
pub enum ListenerMatcherKind {
    CursorButtonLeftPressInside,
    CursorButtonLeftReleaseInside,
    CursorButtonLeftReleaseAnywhere,
    CursorButtonMiddlePressInside,
    CursorPosInside,
    PointerEnterInside,
    CursorPosAnywhere,
    CursorPosDistanceFromPointExceeded,
    CursorScrollAny,
    RawPointerLifecycle,
    CursorScrollInsideDirection,
    KeyEnterPressNoCtrlAltMeta,
    KeyLeftPressNoCtrlAltMeta,
    KeyRightPressNoCtrlAltMeta,
    KeyHomePressNoCtrlAltMeta,
    KeyEndPressNoCtrlAltMeta,
    KeyUpPressNoCtrlAltMeta,
    KeyDownPressNoCtrlAltMeta,
    KeyPageUpPressNoCtrlAltMeta,
    KeyPageDownPressNoCtrlAltMeta,
    KeyTabPressNoShiftCtrlAltMeta,
    KeyShiftTabPressNoCtrlAltMeta,
    KeyAPressCtrlOrMeta,
    KeyCPressCtrlOrMeta,
    KeyXPressCtrlOrMeta,
    KeyVPressCtrlOrMeta,
    KeyBackspacePress,
    KeyDeletePress,
    KeyDownBinding,
    KeyUpBinding,
    KeyReleaseTracked,
    TextCommitNoCtrlMeta,
    TextPreeditAny,
    TextPreeditClear,
    TextDeleteSurroundingAny,
    WindowBlurred,
    WindowCursorLeft,
    WindowResized,
    CursorLocationLeaveBoundary,
    HoverLeaveCurrentOwner,
}

/// A match rule decided without pointer geometry.
#[derive(Clone, Copy, Debug, PartialEq, Eq, Structural)]
pub enum ListenerMatcher {
    /// Any left-button release, wherever the pointer is.
    CursorButtonLeftReleaseAnywhere,
    /// Any cursor position update.
    CursorPosAnywhere,
    /// Any scroll input.
    CursorScrollAny,
    /// Raw cursor position, left release or window leave.
    RawPointerLifecycle,
    /// Enter press without Ctrl/Alt/Meta.
    KeyEnterPressNoCtrlAltMeta,
    /// Left press without Ctrl/Alt/Meta.
    KeyLeftPressNoCtrlAltMeta,
    /// Right press without Ctrl/Alt/Meta.
    KeyRightPressNoCtrlAltMeta,
    /// Home press without Ctrl/Alt/Meta.
    KeyHomePressNoCtrlAltMeta,
    /// End press without Ctrl/Alt/Meta.
    KeyEndPressNoCtrlAltMeta,
    /// Up press without Ctrl/Alt/Meta.
    KeyUpPressNoCtrlAltMeta,
    /// Down press without Ctrl/Alt/Meta.
    KeyDownPressNoCtrlAltMeta,
    /// PageUp press without Ctrl/Alt/Meta.
    KeyPageUpPressNoCtrlAltMeta,
    /// PageDown press without Ctrl/Alt/Meta.
    KeyPageDownPressNoCtrlAltMeta,
    /// Tab press without Shift/Ctrl/Alt/Meta.
    KeyTabPressNoShiftCtrlAltMeta,
    /// Shift+Tab press without Ctrl/Alt/Meta.
    KeyShiftTabPressNoCtrlAltMeta,
    /// A press with Ctrl or Meta.
    KeyAPressCtrlOrMeta,
    /// C press with Ctrl or Meta.
    KeyCPressCtrlOrMeta,
    /// X press with Ctrl or Meta.
    KeyXPressCtrlOrMeta,
    /// V press with Ctrl or Meta.
    KeyVPressCtrlOrMeta,
    /// Backspace press.
    KeyBackspacePress,
    /// Delete press.
    KeyDeletePress,
    /// A focused user key-down binding.
    KeyDownBinding { key: CanonicalKey, mods: u8, match_mode: KeyBindingMatch },
    /// A focused user key-up binding.
    KeyUpBinding { key: CanonicalKey, mods: u8, match_mode: KeyBindingMatch },
    /// Release of a tracked key, whatever the modifiers.
    KeyReleaseTracked { key: CanonicalKey },
    /// Text commit without Ctrl/Meta.
    TextCommitNoCtrlMeta,
    /// Any text preedit.
    TextPreeditAny,
    /// Text preedit clear.
    TextPreeditClear,
    /// Any IME delete-surrounding request.
    TextDeleteSurroundingAny,
    /// Window focus lost.
    WindowBlurred,
    /// Cursor left the window.
    WindowCursorLeft,
    /// Window resized.
    WindowResized,
    /// A matcher that hit-tests the pointer against a region; dispatch
    /// answers whether the pointer lies inside it.
    Region(RegionMatcher),
}

pub open spec fn spec_matcher_kind(m: ListenerMatcher) -> ListenerMatcherKind {
    match m {
        ListenerMatcher::CursorButtonLeftReleaseAnywhere => ListenerMatcherKind::CursorButtonLeftReleaseAnywhere,
        ListenerMatcher::CursorPosAnywhere => ListenerMatcherKind::CursorPosAnywhere,
        ListenerMatcher::CursorScrollAny => ListenerMatcherKind::CursorScrollAny,
        ListenerMatcher::RawPointerLifecycle => ListenerMatcherKind::RawPointerLifecycle,
        ListenerMatcher::KeyEnterPressNoCtrlAltMeta => ListenerMatcherKind::KeyEnterPressNoCtrlAltMeta,
        ListenerMatcher::KeyLeftPressNoCtrlAltMeta => ListenerMatcherKind::KeyLeftPressNoCtrlAltMeta,
        ListenerMatcher::KeyRightPressNoCtrlAltMeta => ListenerMatcherKind::KeyRightPressNoCtrlAltMeta,
        ListenerMatcher::KeyHomePressNoCtrlAltMeta => ListenerMatcherKind::KeyHomePressNoCtrlAltMeta,
        ListenerMatcher::KeyEndPressNoCtrlAltMeta => ListenerMatcherKind::KeyEndPressNoCtrlAltMeta,
        ListenerMatcher::KeyUpPressNoCtrlAltMeta => ListenerMatcherKind::KeyUpPressNoCtrlAltMeta,
        ListenerMatcher::KeyDownPressNoCtrlAltMeta => ListenerMatcherKind::KeyDownPressNoCtrlAltMeta,
        ListenerMatcher::KeyPageUpPressNoCtrlAltMeta => ListenerMatcherKind::KeyPageUpPressNoCtrlAltMeta,
        ListenerMatcher::KeyPageDownPressNoCtrlAltMeta => ListenerMatcherKind::KeyPageDownPressNoCtrlAltMeta,
        ListenerMatcher::KeyTabPressNoShiftCtrlAltMeta => ListenerMatcherKind::KeyTabPressNoShiftCtrlAltMeta,
        ListenerMatcher::KeyShiftTabPressNoCtrlAltMeta => ListenerMatcherKind::KeyShiftTabPressNoCtrlAltMeta,
        ListenerMatcher::KeyAPressCtrlOrMeta => ListenerMatcherKind::KeyAPressCtrlOrMeta,
        ListenerMatcher::KeyCPressCtrlOrMeta => ListenerMatcherKind::KeyCPressCtrlOrMeta,
        ListenerMatcher::KeyXPressCtrlOrMeta => ListenerMatcherKind::KeyXPressCtrlOrMeta,
        ListenerMatcher::KeyVPressCtrlOrMeta => ListenerMatcherKind::KeyVPressCtrlOrMeta,
        ListenerMatcher::KeyBackspacePress => ListenerMatcherKind::KeyBackspacePress,
        ListenerMatcher::KeyDeletePress => ListenerMatcherKind::KeyDeletePress,
        ListenerMatcher::KeyDownBinding { .. } => ListenerMatcherKind::KeyDownBinding,
        ListenerMatcher::KeyUpBinding { .. } => ListenerMatcherKind::KeyUpBinding,
        ListenerMatcher::KeyReleaseTracked { .. } => ListenerMatcherKind::KeyReleaseTracked,
        ListenerMatcher::TextCommitNoCtrlMeta => ListenerMatcherKind::TextCommitNoCtrlMeta,
        ListenerMatcher::TextPreeditAny => ListenerMatcherKind::TextPreeditAny,
        ListenerMatcher::TextPreeditClear => ListenerMatcherKind::TextPreeditClear,
        ListenerMatcher::TextDeleteSurroundingAny => ListenerMatcherKind::TextDeleteSurroundingAny,
        ListenerMatcher::WindowBlurred => ListenerMatcherKind::WindowBlurred,
        ListenerMatcher::WindowCursorLeft => ListenerMatcherKind::WindowCursorLeft,
        ListenerMatcher::WindowResized => ListenerMatcherKind::WindowResized,
        ListenerMatcher::Region(r) => spec_region_matcher_kind(r),
    }
}

/// A key event's key, action and modifiers, if `e` is a key event.
pub open spec fn spec_raw_key(e: InputSignal) -> Option<(CanonicalKey, u8, u8)> {
    match e {
        InputSignal::Key { key, action, mods } => Some((key, action, mods)),
        _ => None,
    }
}

/// A press of `key` with none of Ctrl, Alt, Meta held.
pub open spec fn key_press_no_ctrl_alt_meta(e: InputSignal, key: CanonicalKey) -> bool {
    spec_raw_key(e) matches Some((k, action, mods)) && action == ACTION_PRESS && k == key && mods
        & (MOD_CTRL | MOD_ALT | MOD_META) == 0
}

/// A press of `key` with Ctrl or Meta held.
pub open spec fn key_press_ctrl_or_meta(e: InputSignal, key: CanonicalKey) -> bool {
    spec_raw_key(e) matches Some((k, action, mods)) && action == ACTION_PRESS && k == key && mods
        & (MOD_CTRL | MOD_META) != 0
}

/// Whether matcher `m` accepts event `e`.
pub open spec fn spec_matches(m: ListenerMatcher, e: InputSignal) -> bool {
    match m {
        ListenerMatcher::CursorButtonLeftReleaseAnywhere => e matches InputSignal::CursorButton {
            button,
            action,
            ..
        } && button@ == "left"@ && action == ACTION_RELEASE,
        ListenerMatcher::CursorPosAnywhere => e is CursorPos,
        ListenerMatcher::CursorScrollAny => e is CursorScroll || e is CursorScrollLines,
        ListenerMatcher::RawPointerLifecycle => e is CursorPos || (e matches InputSignal::CursorEntered {
            entered,
        } && !entered) || (e matches InputSignal::CursorButton { button, action, .. } && button@
            == "left"@ && action == ACTION_RELEASE),
        ListenerMatcher::KeyEnterPressNoCtrlAltMeta => key_press_no_ctrl_alt_meta(e, CanonicalKey::Enter),
        ListenerMatcher::KeyLeftPressNoCtrlAltMeta => key_press_no_ctrl_alt_meta(e, CanonicalKey::ArrowLeft),
        ListenerMatcher::KeyRightPressNoCtrlAltMeta => key_press_no_ctrl_alt_meta(e, CanonicalKey::ArrowRight),
        ListenerMatcher::KeyHomePressNoCtrlAltMeta => key_press_no_ctrl_alt_meta(e, CanonicalKey::Home),
        ListenerMatcher::KeyEndPressNoCtrlAltMeta => key_press_no_ctrl_alt_meta(e, CanonicalKey::End),
        ListenerMatcher::KeyUpPressNoCtrlAltMeta => key_press_no_ctrl_alt_meta(e, CanonicalKey::ArrowUp),
        ListenerMatcher::KeyDownPressNoCtrlAltMeta => key_press_no_ctrl_alt_meta(e, CanonicalKey::ArrowDown),
        ListenerMatcher::KeyPageUpPressNoCtrlAltMeta => key_press_no_ctrl_alt_meta(e, CanonicalKey::PageUp),
        ListenerMatcher::KeyPageDownPressNoCtrlAltMeta => key_press_no_ctrl_alt_meta(e, CanonicalKey::PageDown),
        ListenerMatcher::KeyTabPressNoShiftCtrlAltMeta => spec_raw_key(e) matches Some((k, action, mods))
            && action == ACTION_PRESS && k == CanonicalKey::Tab && mods & (MOD_SHIFT | MOD_CTRL
            | MOD_ALT | MOD_META) == 0,
        ListenerMatcher::KeyShiftTabPressNoCtrlAltMeta => spec_raw_key(e) matches Some((k, action, mods))
            && action == ACTION_PRESS && k == CanonicalKey::Tab && mods & MOD_SHIFT != 0 && mods & (
        MOD_CTRL | MOD_ALT | MOD_META) == 0,
        ListenerMatcher::KeyAPressCtrlOrMeta => key_press_ctrl_or_meta(e, CanonicalKey::A),
        ListenerMatcher::KeyCPressCtrlOrMeta => key_press_ctrl_or_meta(e, CanonicalKey::C),
        ListenerMatcher::KeyXPressCtrlOrMeta => key_press_ctrl_or_meta(e, CanonicalKey::X),
        ListenerMatcher::KeyVPressCtrlOrMeta => key_press_ctrl_or_meta(e, CanonicalKey::V),
        ListenerMatcher::KeyBackspacePress => spec_raw_key(e) matches Some((k, action, _)) && action
            == ACTION_PRESS && k == CanonicalKey::Backspace,
        ListenerMatcher::KeyDeletePress => spec_raw_key(e) matches Some((k, action, _)) && action
            == ACTION_PRESS && k == CanonicalKey::Delete,
        ListenerMatcher::KeyDownBinding { key, mods, match_mode } => spec_raw_key(e) matches Some(
            (k, action, m),
        ) && action == ACTION_PRESS && k == key && spec_key_modifiers_match(m, mods, match_mode),
        ListenerMatcher::KeyUpBinding { key, mods, match_mode } => spec_raw_key(e) matches Some(
            (k, action, m),
        ) && action == ACTION_RELEASE && k == key && spec_key_modifiers_match(m, mods, match_mode),
        ListenerMatcher::KeyReleaseTracked { key } => spec_raw_key(e) matches Some((k, action, _))
            && action == ACTION_RELEASE && k == key,
        ListenerMatcher::TextCommitNoCtrlMeta => e matches InputSignal::TextCommit { mods, .. } && mods
            & (MOD_CTRL | MOD_META) == 0,
        ListenerMatcher::TextPreeditAny => e is TextPreedit,
        ListenerMatcher::TextPreeditClear => e is TextPreeditClear,
        ListenerMatcher::TextDeleteSurroundingAny => e is DeleteSurrounding,
        ListenerMatcher::WindowBlurred => e matches InputSignal::Focused { focused } && !focused,
        ListenerMatcher::WindowCursorLeft => e matches InputSignal::CursorEntered { entered } && !entered,
        ListenerMatcher::WindowResized => e is Resized,
        ListenerMatcher::Region(_) => false,
    }
}

fn raw_key(input: &InputSignal) -> (key: Option<(CanonicalKey, u8, u8)>)
    ensures
        key == spec_raw_key(*input),
{
    match input {
        InputSignal::Key { key, action, mods } => Some((*key, *action, *mods)),
        _ => None,
    }
}

fn matches_key_press_no_ctrl_alt_meta(input: &InputSignal, key: CanonicalKey) -> (matched: bool)
    ensures
        matched == key_press_no_ctrl_alt_meta(*input, key),
{
    match raw_key(input) {
        Some((k, action, mods)) => action == ACTION_PRESS && k == key && mods & (MOD_CTRL
            | MOD_ALT | MOD_META) == 0,
        None => false,
    }
}

fn matches_key_press_ctrl_or_meta(input: &InputSignal, key: CanonicalKey) -> (matched: bool)
    ensures
        matched == key_press_ctrl_or_meta(*input, key),
{
    match raw_key(input) {
        Some((k, action, mods)) => action == ACTION_PRESS && k == key && mods & (MOD_CTRL
            | MOD_META) != 0,
        None => false,
    }
}

fn is_left_release(input: &InputSignal) -> (matched: bool)
    ensures
        matched == (*input matches InputSignal::CursorButton { button, action, .. } && button@
            == "left"@ && action == ACTION_RELEASE),
{
    match input {
        InputSignal::CursorButton { button, action, .. } => *action == ACTION_RELEASE
            && str_equals(button.as_str(), "left"),
        _ => false,
    }
}

impl ListenerMatcher {
    /// Returns matcher identity (variant only).
    pub fn kind(&self) -> (kind: ListenerMatcherKind)
        ensures
            kind == spec_matcher_kind(*self),
    {
        match self {
            ListenerMatcher::CursorButtonLeftReleaseAnywhere => ListenerMatcherKind::CursorButtonLeftReleaseAnywhere,
            ListenerMatcher::CursorPosAnywhere => ListenerMatcherKind::CursorPosAnywhere,
            ListenerMatcher::CursorScrollAny => ListenerMatcherKind::CursorScrollAny,
            ListenerMatcher::RawPointerLifecycle => ListenerMatcherKind::RawPointerLifecycle,
            ListenerMatcher::KeyEnterPressNoCtrlAltMeta => ListenerMatcherKind::KeyEnterPressNoCtrlAltMeta,
            ListenerMatcher::KeyLeftPressNoCtrlAltMeta => ListenerMatcherKind::KeyLeftPressNoCtrlAltMeta,
            ListenerMatcher::KeyRightPressNoCtrlAltMeta => ListenerMatcherKind::KeyRightPressNoCtrlAltMeta,
            ListenerMatcher::KeyHomePressNoCtrlAltMeta => ListenerMatcherKind::KeyHomePressNoCtrlAltMeta,
            ListenerMatcher::KeyEndPressNoCtrlAltMeta => ListenerMatcherKind::KeyEndPressNoCtrlAltMeta,
            ListenerMatcher::KeyUpPressNoCtrlAltMeta => ListenerMatcherKind::KeyUpPressNoCtrlAltMeta,
            ListenerMatcher::KeyDownPressNoCtrlAltMeta => ListenerMatcherKind::KeyDownPressNoCtrlAltMeta,
            ListenerMatcher::KeyPageUpPressNoCtrlAltMeta => ListenerMatcherKind::KeyPageUpPressNoCtrlAltMeta,
            ListenerMatcher::KeyPageDownPressNoCtrlAltMeta => ListenerMatcherKind::KeyPageDownPressNoCtrlAltMeta,
            ListenerMatcher::KeyTabPressNoShiftCtrlAltMeta => ListenerMatcherKind::KeyTabPressNoShiftCtrlAltMeta,
            ListenerMatcher::KeyShiftTabPressNoCtrlAltMeta => ListenerMatcherKind::KeyShiftTabPressNoCtrlAltMeta,
            ListenerMatcher::KeyAPressCtrlOrMeta => ListenerMatcherKind::KeyAPressCtrlOrMeta,
            ListenerMatcher::KeyCPressCtrlOrMeta => ListenerMatcherKind::KeyCPressCtrlOrMeta,
            ListenerMatcher::KeyXPressCtrlOrMeta => ListenerMatcherKind::KeyXPressCtrlOrMeta,
            ListenerMatcher::KeyVPressCtrlOrMeta => ListenerMatcherKind::KeyVPressCtrlOrMeta,
            ListenerMatcher::KeyBackspacePress => ListenerMatcherKind::KeyBackspacePress,
            ListenerMatcher::KeyDeletePress => ListenerMatcherKind::KeyDeletePress,
            ListenerMatcher::KeyDownBinding { .. } => ListenerMatcherKind::KeyDownBinding,
            ListenerMatcher::KeyUpBinding { .. } => ListenerMatcherKind::KeyUpBinding,
            ListenerMatcher::KeyReleaseTracked { .. } => ListenerMatcherKind::KeyReleaseTracked,
            ListenerMatcher::TextCommitNoCtrlMeta => ListenerMatcherKind::TextCommitNoCtrlMeta,
            ListenerMatcher::TextPreeditAny => ListenerMatcherKind::TextPreeditAny,
            ListenerMatcher::TextPreeditClear => ListenerMatcherKind::TextPreeditClear,
            ListenerMatcher::TextDeleteSurroundingAny => ListenerMatcherKind::TextDeleteSurroundingAny,
            ListenerMatcher::WindowBlurred => ListenerMatcherKind::WindowBlurred,
            ListenerMatcher::WindowCursorLeft => ListenerMatcherKind::WindowCursorLeft,
            ListenerMatcher::WindowResized => ListenerMatcherKind::WindowResized,
            ListenerMatcher::Region(r) => r.kind(),
        }
    }

    /// Whether this matcher accepts the raw input event `input` without a
    /// hit test: a region matcher never does (see `matches_at`).
    pub fn matches(&self, input: &InputSignal) -> (matched: bool)
        ensures
            matched == spec_matches(*self, *input),
    {
        self.matches_input(input)
    }

    /// Whether this matcher accepts `input` without a hit test: a region
    /// matcher never does (see `matches_at`).
    pub fn matches_input(&self, input: &InputSignal) -> (matched: bool)
        ensures
            matched == spec_matches(*self, *input),
    {
        match self {
            ListenerMatcher::CursorButtonLeftReleaseAnywhere => is_left_release(input),
            ListenerMatcher::CursorPosAnywhere => matches!(input, InputSignal::CursorPos),
            ListenerMatcher::CursorScrollAny => matches!(
                input,
                InputSignal::CursorScroll | InputSignal::CursorScrollLines
            ),
            ListenerMatcher::RawPointerLifecycle => {
                let pos_or_left = match input {
                    InputSignal::CursorPos => true,
                    InputSignal::CursorEntered { entered } => !*entered,
                    _ => false,
                };
                pos_or_left || is_left_release(input)
            },
            ListenerMatcher::KeyEnterPressNoCtrlAltMeta => matches_key_press_no_ctrl_alt_meta(input, CanonicalKey::Enter),
            ListenerMatcher::KeyLeftPressNoCtrlAltMeta => matches_key_press_no_ctrl_alt_meta(input, CanonicalKey::ArrowLeft),
            ListenerMatcher::KeyRightPressNoCtrlAltMeta => matches_key_press_no_ctrl_alt_meta(input, CanonicalKey::ArrowRight),
            ListenerMatcher::KeyHomePressNoCtrlAltMeta => matches_key_press_no_ctrl_alt_meta(input, CanonicalKey::Home),
            ListenerMatcher::KeyEndPressNoCtrlAltMeta => matches_key_press_no_ctrl_alt_meta(input, CanonicalKey::End),
            ListenerMatcher::KeyUpPressNoCtrlAltMeta => matches_key_press_no_ctrl_alt_meta(input, CanonicalKey::ArrowUp),
            ListenerMatcher::KeyDownPressNoCtrlAltMeta => matches_key_press_no_ctrl_alt_meta(input, CanonicalKey::ArrowDown),
            ListenerMatcher::KeyPageUpPressNoCtrlAltMeta => matches_key_press_no_ctrl_alt_meta(input, CanonicalKey::PageUp),
            ListenerMatcher::KeyPageDownPressNoCtrlAltMeta => matches_key_press_no_ctrl_alt_meta(input, CanonicalKey::PageDown),
            ListenerMatcher::KeyTabPressNoShiftCtrlAltMeta => match raw_key(input) {
                Some((k, action, mods)) => action == ACTION_PRESS && k == CanonicalKey::Tab && mods
                    & (MOD_SHIFT | MOD_CTRL | MOD_ALT | MOD_META) == 0,
                None => false,
            },
            ListenerMatcher::KeyShiftTabPressNoCtrlAltMeta => match raw_key(input) {
                Some((k, action, mods)) => action == ACTION_PRESS && k == CanonicalKey::Tab && mods
                    & MOD_SHIFT != 0 && mods & (MOD_CTRL | MOD_ALT | MOD_META) == 0,
                None => false,
            },
            ListenerMatcher::KeyAPressCtrlOrMeta => matches_key_press_ctrl_or_meta(input, CanonicalKey::A),
            ListenerMatcher::KeyCPressCtrlOrMeta => matches_key_press_ctrl_or_meta(input, CanonicalKey::C),
            ListenerMatcher::KeyXPressCtrlOrMeta => matches_key_press_ctrl_or_meta(input, CanonicalKey::X),
            ListenerMatcher::KeyVPressCtrlOrMeta => matches_key_press_ctrl_or_meta(input, CanonicalKey::V),
            ListenerMatcher::KeyBackspacePress => match raw_key(input) {
                Some((k, action, _)) => action == ACTION_PRESS && k == CanonicalKey::Backspace,
                None => false,
            },
            ListenerMatcher::KeyDeletePress => match raw_key(input) {
                Some((k, action, _)) => action == ACTION_PRESS && k == CanonicalKey::Delete,
                None => false,
            },
            ListenerMatcher::KeyDownBinding { key, mods, match_mode } => match raw_key(input) {
                Some((k, action, m)) => action == ACTION_PRESS && k == *key && key_modifiers_match(
                    m,
                    *mods,
                    *match_mode,
                ),
                None => false,
            },
            ListenerMatcher::KeyUpBinding { key, mods, match_mode } => match raw_key(input) {
                Some((k, action, m)) => action == ACTION_RELEASE && k == *key && key_modifiers_match(
                    m,
                    *mods,
                    *match_mode,
                ),
                None => false,
            },
            ListenerMatcher::KeyReleaseTracked { key } => match raw_key(input) {
                Some((k, action, _)) => action == ACTION_RELEASE && k == *key,
                None => false,
            },
            ListenerMatcher::TextCommitNoCtrlMeta => match input {
                InputSignal::TextCommit { mods, .. } => *mods & (MOD_CTRL | MOD_META) == 0,
                _ => false,
            },
            ListenerMatcher::TextPreeditAny => matches!(input, InputSignal::TextPreedit { .. }),
            ListenerMatcher::TextPreeditClear => matches!(input, InputSignal::TextPreeditClear),
            ListenerMatcher::TextDeleteSurroundingAny => matches!(input, InputSignal::DeleteSurrounding { .. }),
            ListenerMatcher::WindowBlurred => match input {
                InputSignal::Focused { focused } => !*focused,
                _ => false,
            },
            ListenerMatcher::WindowCursorLeft => match input {
                InputSignal::CursorEntered { entered } => !*entered,
                _ => false,
            },
            ListenerMatcher::WindowResized => matches!(input, InputSignal::Resized { .. }),
            ListenerMatcher::Region(_) => false,
        }
    }
}


// ============================================================================
// Listeners and the precedence-ordered registry
// ============================================================================

/// A listener: optional source element, match rule, and the computation
/// that produces its actions once matched.
#[derive(Debug)]
pub struct Listener<C> {
    /// Optional source element id for this listener.
    pub element_id: Option<NodeId>,
    /// Match rule for this listener.
    pub matcher: ListenerMatcher,
    /// Computation that generates output actions for this listener.
    pub compute: C,
}

/// Whether `l` may take `input`: its matcher kind is not skipped and its
/// matcher accepts the input.
pub open spec fn selectable<C>(
    l: Listener<C>,
    input: InputSignal,
    skip: Seq<ListenerMatcherKind>,
) -> bool {
    !skip.contains(spec_matcher_kind(l.matcher)) && spec_matches(l.matcher, input)
}

/// `i` is the first position of `s` whose listener may take `input`.
pub open spec fn is_first_selectable<C>(
    s: Seq<Listener<C>>,
    i: int,
    input: InputSignal,
    skip: Seq<ListenerMatcherKind>,
) -> bool {
    &&& 0 <= i < s.len()
    &&& selectable(s[i], input, skip)
    &&& forall|j: int| 0 <= j < i ==> !#[trigger] selectable(s[j], input, skip)
}

/// No listener of `s` may take `input`.
pub open spec fn none_selectable<C>(
    s: Seq<Listener<C>>,
    input: InputSignal,
    skip: Seq<ListenerMatcherKind>,
) -> bool {
    forall|j: int| 0 <= j < s.len() ==> !#[trigger] selectable(s[j], input, skip)
}

/// `found` is the listener that first-match dispatch over `s` picks for
/// `input`: the first one in `s` that may take it, or none if none may.
pub open spec fn first_match_result<C>(
    s: Seq<Listener<C>>,
    input: InputSignal,
    skip: Seq<ListenerMatcherKind>,
    found: Option<Listener<C>>,
) -> bool {
    match found {
        Some(l) => exists|i: int| is_first_selectable(s, i, input, skip) && s[i] == l,
        None => none_selectable(s, input, skip),
    }
}

/// Whether `l` may take `input` in a dispatch that answers `inside` for its
/// region: its matcher kind is not skipped and its matcher accepts the
/// input.
pub open spec fn selectable_at<C>(
    l: Listener<C>,
    input: ListenerInput,
    inside: bool,
    skip: Seq<ListenerMatcherKind>,
) -> bool {
    !skip.contains(spec_matcher_kind(l.matcher)) && spec_matches_at(l.matcher, input, inside)
}

/// `i` is the first position of `s` whose listener may take `input`, the
/// listener at position `j` being answered `inside[j]`.
pub open spec fn is_first_selectable_at<C>(
    s: Seq<Listener<C>>,
    inside: Seq<bool>,
    i: int,
    input: ListenerInput,
    skip: Seq<ListenerMatcherKind>,
) -> bool {
    &&& 0 <= i < s.len()
    &&& selectable_at(s[i], input, inside[i], skip)
    &&& forall|j: int| 0 <= j < i ==> !#[trigger] selectable_at(s[j], input, inside[j], skip)
}

/// `found` is what first-match dispatch over `s`, with hit-test answers
/// `inside`, picks for `input`.
pub open spec fn first_match_result_at<C>(
    s: Seq<Listener<C>>,
    inside: Seq<bool>,
    input: ListenerInput,
    skip: Seq<ListenerMatcherKind>,
    found: Option<Listener<C>>,
) -> bool {
    match found {
        Some(l) => exists|i: int| is_first_selectable_at(s, inside, i, input, skip) && s[i] == l,
        None => forall|j: int| 0 <= j < s.len() ==> !#[trigger] selectable_at(s[j], input, inside[j], skip),
    }
}

/// The listener a lookup found, by value.
pub open spec fn deref_found<C>(found: Option<&Listener<C>>) -> Option<Listener<C>> {
    match found {
        Some(l) => Some(*l),
        None => None,
    }
}

// ============================================================================
// Region matchers
// ============================================================================

/// What a listener is matched against: a raw input event, or the pointer
/// entering or leaving a tracked element (`window_left` when the pointer
/// left the window itself).
#[derive(Clone, Debug, PartialEq)]
pub enum ListenerInput {
    Raw(InputSignal),
    PointerEnter,
    PointerLeave { window_left: bool },
}

/// Matchers that hit-test the pointer against an element's region.
#[derive(Clone, Copy, Debug, PartialEq, Eq, Structural)]
pub enum RegionMatcher {
    /// Left press inside the region.
    CursorButtonLeftPressInside,
    /// Left release inside the region.
    CursorButtonLeftReleaseInside,
    /// Middle press inside the region.
    CursorButtonMiddlePressInside,
    /// Cursor move inside the region.
    CursorPosInside,
    /// The pointer entering, inside the region.
    PointerEnterInside,
    /// The pointer leaving the region or the window.
    CursorLocationLeaveBoundary,
    /// The pointer leaving the hover owner's region or the window.
    HoverLeaveCurrentOwner,
    /// A scroll inside the region that moves in `direction`; for this
    /// matcher the containment answer covers the direction too.
    CursorScrollInsideDirection { direction: ScrollDirection },
}

pub open spec fn is_button(e: InputSignal, label: Seq<char>, act: u8) -> bool {
    e matches InputSignal::CursorButton { button, action, .. } && button@ == label && action == act
}

/// Whether a region matcher accepts `input`, where `inside` tells whether
/// the pointer position of the input lies inside the matcher's region.
pub open spec fn spec_region_matches(m: RegionMatcher, input: ListenerInput, inside: bool) -> bool {
    match m {
        RegionMatcher::CursorButtonLeftPressInside => input matches ListenerInput::Raw(e) && is_button(
            e,
            "left"@,
            ACTION_PRESS,
        ) && inside,
        RegionMatcher::CursorButtonLeftReleaseInside => input matches ListenerInput::Raw(e) && is_button(
            e,
            "left"@,
            ACTION_RELEASE,
        ) && inside,
        RegionMatcher::CursorButtonMiddlePressInside => input matches ListenerInput::Raw(e) && is_button(
            e,
            "middle"@,
            ACTION_PRESS,
        ) && inside,
        RegionMatcher::CursorPosInside => input matches ListenerInput::Raw(e) && e is CursorPos && inside,
        RegionMatcher::PointerEnterInside => input is PointerEnter && inside,
        RegionMatcher::CursorLocationLeaveBoundary | RegionMatcher::HoverLeaveCurrentOwner => input matches ListenerInput::PointerLeave { window_left } && (window_left || !inside),
        RegionMatcher::CursorScrollInsideDirection { .. } => input matches ListenerInput::Raw(e) && (e is CursorScroll
            || e is CursorScrollLines) && inside,
    }
}

fn is_button_event(e: &InputSignal, label: &str, act: u8) -> (matched: bool)
    ensures
        matched == is_button(*e, label@, act),
{
    match e {
        InputSignal::CursorButton { button, action, .. } => *action == act && str_equals(button.as_str(), label),
        _ => false,
    }
}

impl RegionMatcher {
    /// Whether this matcher accepts `input`, given whether the input's
    /// pointer position lies inside the matcher's region.
    pub fn matches_input(&self, input: &ListenerInput, inside: bool) -> (matched: bool)
        ensures
            matched == spec_region_matches(*self, *input, inside),
    {
        match self {
            RegionMatcher::CursorButtonLeftPressInside => match input {
                ListenerInput::Raw(e) => is_button_event(e, "left", ACTION_PRESS) && inside,
                _ => false,
            },
            RegionMatcher::CursorButtonLeftReleaseInside => match input {
                ListenerInput::Raw(e) => is_button_event(e, "left", ACTION_RELEASE) && inside,
                _ => false,
            },
            RegionMatcher::CursorButtonMiddlePressInside => match input {
                ListenerInput::Raw(e) => is_button_event(e, "middle", ACTION_PRESS) && inside,
                _ => false,
            },
            RegionMatcher::CursorPosInside => match input {
                ListenerInput::Raw(InputSignal::CursorPos) => inside,
                _ => false,
            },
            RegionMatcher::PointerEnterInside => match input {
                ListenerInput::PointerEnter => inside,
                _ => false,
            },
            RegionMatcher::CursorLocationLeaveBoundary | RegionMatcher::HoverLeaveCurrentOwner => match input {
                ListenerInput::PointerLeave { window_left } => *window_left || !inside,
                _ => false,
            },
            RegionMatcher::CursorScrollInsideDirection { .. } => match input {
                ListenerInput::Raw(InputSignal::CursorScroll) | ListenerInput::Raw(InputSignal::CursorScrollLines) =>
                    inside,
                _ => false,
            },
        }
    }

    /// The kind of this matcher.
    pub fn kind(&self) -> (kind: ListenerMatcherKind)
        ensures
            kind == spec_region_matcher_kind(*self),
    {
        match self {
            RegionMatcher::CursorButtonLeftPressInside => ListenerMatcherKind::CursorButtonLeftPressInside,
            RegionMatcher::CursorButtonLeftReleaseInside => ListenerMatcherKind::CursorButtonLeftReleaseInside,
            RegionMatcher::CursorButtonMiddlePressInside => ListenerMatcherKind::CursorButtonMiddlePressInside,
            RegionMatcher::CursorPosInside => ListenerMatcherKind::CursorPosInside,
            RegionMatcher::PointerEnterInside => ListenerMatcherKind::PointerEnterInside,
            RegionMatcher::CursorLocationLeaveBoundary => ListenerMatcherKind::CursorLocationLeaveBoundary,
            RegionMatcher::HoverLeaveCurrentOwner => ListenerMatcherKind::HoverLeaveCurrentOwner,
            RegionMatcher::CursorScrollInsideDirection { .. } => ListenerMatcherKind::CursorScrollInsideDirection,
        }
    }
}

pub open spec fn spec_region_matcher_kind(m: RegionMatcher) -> ListenerMatcherKind {
    match m {
        RegionMatcher::CursorButtonLeftPressInside => ListenerMatcherKind::CursorButtonLeftPressInside,
        RegionMatcher::CursorButtonLeftReleaseInside => ListenerMatcherKind::CursorButtonLeftReleaseInside,
        RegionMatcher::CursorButtonMiddlePressInside => ListenerMatcherKind::CursorButtonMiddlePressInside,
        RegionMatcher::CursorPosInside => ListenerMatcherKind::CursorPosInside,
        RegionMatcher::PointerEnterInside => ListenerMatcherKind::PointerEnterInside,
        RegionMatcher::CursorLocationLeaveBoundary => ListenerMatcherKind::CursorLocationLeaveBoundary,
        RegionMatcher::HoverLeaveCurrentOwner => ListenerMatcherKind::HoverLeaveCurrentOwner,
        RegionMatcher::CursorScrollInsideDirection { .. } => ListenerMatcherKind::CursorScrollInsideDirection,
    }
}

/// Whether matcher `m` accepts `input`, where `inside` tells whether the
/// pointer position of the input lies inside the matcher's region (read
/// only by region matchers).
pub open spec fn spec_matches_at(m: ListenerMatcher, input: ListenerInput, inside: bool) -> bool {
    match m {
        ListenerMatcher::Region(r) => spec_region_matches(r, input, inside),
        _ => input matches ListenerInput::Raw(e) && spec_matches(m, e),
    }
}

impl ListenerMatcher {
    /// Whether this matcher accepts `input`, given whether the input's
    /// pointer position lies inside this matcher's region.
    pub fn matches_at(&self, input: &ListenerInput, inside: bool) -> (matched: bool)
        ensures
            matched == spec_matches_at(*self, *input, inside),
    {
        match self {
            ListenerMatcher::Region(r) => r.matches_input(input, inside),
            _ => match input {
                ListenerInput::Raw(e) => self.matches_input(e),
                _ => false,
            },
        }
    }
}

/// A pointer leaving the window leaves every region, wherever it was.
pub proof fn law_window_leave_leaves_every_region(m: RegionMatcher, inside: bool)
    requires
        m == RegionMatcher::CursorLocationLeaveBoundary || m == RegionMatcher::HoverLeaveCurrentOwner,
    ensures
        spec_region_matches(m, ListenerInput::PointerLeave { window_left: true }, inside),
{
}

/// Whether `kind` occurs in `skip`.
pub fn kind_skipped(skip: &[ListenerMatcherKind], kind: ListenerMatcherKind) -> (skipped: bool)
    ensures
        skipped == skip@.contains(kind),
{
    let mut i: usize = 0;
    while i < skip.len()
        invariant
            i <= skip@.len(),
            forall|j: int| 0 <= j < i ==> skip@[j] != kind,
        decreases skip@.len() - i,
    {
        if skip[i] == kind {
            assert(skip@[i as int] == kind);
            return true;
        }
        i = i + 1;
    }
    false
}

/// Listener registry: storage runs from lowest to highest precedence, so
/// the end of the storage is the top of the stack.
#[derive(Debug)]
pub struct Registry<C> {
    listeners: Vec<Listener<C>>,
}

impl<C> Registry<C> {
    /// The listeners in storage order, lowest precedence first.
    pub closed spec fn storage(&self) -> Seq<Listener<C>> {
        self.listeners@
    }

    /// The listeners in precedence order, highest precedence first.
    pub open spec fn precedence(&self) -> Seq<Listener<C>> {
        self.storage().reverse()
    }

    /// An empty registry.
    pub fn new() -> (r: Self)
        ensures
            r.storage() == Seq::<Listener<C>>::empty(),
    {
        Registry { listeners: Vec::new() }
    }

    /// Number of listeners.
    pub fn len(&self) -> (n: usize)
        ensures
            n == self.storage().len(),
    {
        self.listeners.len()
    }

    /// Emits one precedence-ordered block of listeners, `block[0]` of highest
    /// precedence, on top of the registry: the block, in its order, comes
    /// before every listener already held.
    pub fn in_precedence_order(&mut self, block: Vec<Listener<C>>)
        ensures
            final(self).storage() == old(self).storage() + block@.reverse(),
            final(self).precedence() == block@ + old(self).precedence(),
    {
        let ghost start = self.listeners@;
        let ghost emitted = block@;
        let mut block = block;
        while block.len() > 0
            invariant
                self.listeners@ == start + emitted.subrange(block@.len() as int, emitted.len() as int).reverse(),
                block@ == emitted.subrange(0, block@.len() as int),
                block@.len() <= emitted.len(),
            decreases block@.len(),
        {
            let ghost n = block@.len();
            let listener = block.pop().unwrap();
            assert(listener == emitted[n - 1]);
            assert(emitted.subrange(n - 1, emitted.len() as int).reverse() =~= emitted.subrange(
                n as int,
                emitted.len() as int,
            ).reverse().push(listener));
            self.listeners.push(listener);
            assert(block@ =~= emitted.subrange(0, block@.len() as int));
        }
        assert(emitted.subrange(0, emitted.len() as int) =~= emitted);
        proof {
            lemma_reverse_concat(start, emitted.reverse());
            assert(emitted.reverse().reverse() =~= emitted);
        }
    }

    /// Appends the storage of `other` above this registry's storage, so
    /// every listener of `other` takes precedence over the ones already held.
    pub fn extend_storage_from(&mut self, other: Registry<C>)
        ensures
            final(self).storage() == old(self).storage() + other.storage(),
            final(self).precedence() == other.precedence() + old(self).precedence(),
    {
        let mut other = other;
        self.listeners.append(&mut other.listeners);
        proof {
            lemma_reverse_concat(old(self).storage(), other.storage());
        }
    }

    /// The listener at position `i` of precedence order.
    pub fn listener_in_precedence(&self, i: usize) -> (l: &Listener<C>)
        requires
            i < self.storage().len(),
        ensures
            *l == self.precedence()[i as int],
    {
        &self.listeners[self.listeners.len() - 1 - i]
    }

    /// The first listener in precedence order whose matcher kind is not in
    /// `skip_matchers` and whose matcher accepts `input`.
    pub fn matching_listener(&self, input: &InputSignal, skip_matchers: &[ListenerMatcherKind]) -> (found:
        Option<&Listener<C>>)
        ensures
            first_match_result(self.precedence(), *input, skip_matchers@, deref_found(found)),
    {
        let n = self.listeners.len();
        let ghost prec = self.precedence();
        let mut i: usize = 0;
        while i < n
            invariant
                n == self.listeners@.len(),
                prec == self.precedence(),
                i <= n,
                forall|j: int| 0 <= j < i ==> !#[trigger] selectable(prec[j], *input, skip_matchers@),
            decreases n - i,
        {
            let listener = &self.listeners[n - 1 - i];
            assert(*listener == prec[i as int]);
            if !kind_skipped(skip_matchers, listener.matcher.kind()) && listener.matcher.matches_input(
                input,
            ) {
                assert(is_first_selectable(prec, i as int, *input, skip_matchers@));
                return Some(listener);
            }
            i = i + 1;
        }
        None
    }
}

impl<C> Registry<C> {
    /// The first listener in precedence order whose matcher kind is not in
    /// `skip_matchers` and whose matcher accepts `input`, where
    /// `inside[i]` tells whether the pointer lies inside the region of the
    /// listener at precedence position `i`.
    pub fn matching_listener_at(
        &self,
        input: &ListenerInput,
        inside: &[bool],
        skip_matchers: &[ListenerMatcherKind],
    ) -> (found: Option<&Listener<C>>)
        requires
            inside@.len() == self.storage().len(),
        ensures
            first_match_result_at(self.precedence(), inside@, *input, skip_matchers@, deref_found(found)),
    {
        let n = self.listeners.len();
        let ghost prec = self.precedence();
        let mut i: usize = 0;
        while i < n
            invariant
                n == self.listeners@.len(),
                n == inside@.len(),
                prec == self.precedence(),
                i <= n,
                forall|j: int|
                    0 <= j < i ==> !#[trigger] selectable_at(prec[j], *input, inside@[j], skip_matchers@),
            decreases n - i,
        {
            let listener = &self.listeners[n - 1 - i];
            assert(*listener == prec[i as int]);
            if !kind_skipped(skip_matchers, listener.matcher.kind()) && listener.matcher.matches_at(
                input,
                inside[i],
            ) {
                assert(is_first_selectable_at(prec, inside@, i as int, *input, skip_matchers@));
                return Some(listener);
            }
            i = i + 1;
        }
        None
    }
}

/// Reversing a concatenation reverses and swaps its parts.
pub proof fn lemma_reverse_concat<T>(a: Seq<T>, b: Seq<T>)
    ensures
        (a + b).reverse() == b.reverse() + a.reverse(),
{
    assert((a + b).reverse() =~= b.reverse() + a.reverse());
}

/// A higher-precedence registry layered above a lower one, read as one
/// precedence order without merging them.
pub struct LayeredRegistryView<'a, C> {
    pub higher: &'a Registry<C>,
    pub lower: &'a Registry<C>,
}

impl<'a, C> LayeredRegistryView<'a, C> {
    /// The combined precedence order: every listener of `higher`, then every
    /// listener of `lower`.
    pub open spec fn precedence(&self) -> Seq<Listener<C>> {
        self.higher.precedence() + self.lower.precedence()
    }

    pub fn new(higher: &'a Registry<C>, lower: &'a Registry<C>) -> (view: Self)
        ensures
            view.higher == higher,
            view.lower == lower,
    {
        LayeredRegistryView { higher, lower }
    }

    /// The first listener of the combined precedence order whose matcher
    /// kind is not skipped and whose matcher accepts `input`.
    pub fn matching_listener(&self, input: &InputSignal, skip_matchers: &[ListenerMatcherKind]) -> (found:
        Option<&'a Listener<C>>)
        ensures
            first_match_result(self.precedence(), *input, skip_matchers@, deref_found(found)),
    {
        let higher = self.higher.matching_listener(input, skip_matchers);
        match higher {
            Some(listener) => {
                proof {
                    let s = self.precedence();
                    let h = self.higher.precedence();
                    let i = choose|i: int| is_first_selectable(h, i, *input, skip_matchers@) && h[i] == *listener;
                    assert(is_first_selectable(s, i, *input, skip_matchers@));
                }
                Some(listener)
            },
            None => {
                let lower = self.lower.matching_listener(input, skip_matchers);
                proof {
                    let s = self.precedence();
                    let h = self.higher.precedence();
                    let l = self.lower.precedence();
                    match lower {
                        Some(listener) => {
                            let i = choose|i: int| is_first_selectable(l, i, *input, skip_matchers@) && l[i] == *listener;
                            assert(s[h.len() + i] == l[i]);
                            assert forall|j: int| 0 <= j < h.len() + i implies !#[trigger] selectable(s[j], *input, skip_matchers@) by {
                                if j < h.len() {
                                    assert(s[j] == h[j]);
                                } else {
                                    assert(s[j] == l[j - h.len()]);
                                }
                            }
                            assert(is_first_selectable(s, h.len() + i, *input, skip_matchers@));
                        },
                        None => {
                            assert forall|j: int| 0 <= j < s.len() implies !#[trigger] selectable(s[j], *input, skip_matchers@) by {
                                if j < h.len() {
                                    assert(s[j] == h[j]);
                                } else {
                                    assert(s[j] == l[j - h.len()]);
                                }
                            }
                        },
                    }
                }
                lower
            },
        }
    }
}


impl<'a, C> LayeredRegistryView<'a, C> {
    /// The first listener of the combined precedence order that may take
    /// `input`, with hit-test answers `higher_inside` for the higher
    /// registry's listeners and `lower_inside` for the lower one's, each in
    /// its precedence order.
    pub fn matching_listener_at(
        &self,
        input: &ListenerInput,
        higher_inside: &[bool],
        lower_inside: &[bool],
        skip_matchers: &[ListenerMatcherKind],
    ) -> (found: Option<&'a Listener<C>>)
        requires
            higher_inside@.len() == self.higher.storage().len(),
            lower_inside@.len() == self.lower.storage().len(),
        ensures
            first_match_result_at(
                self.precedence(),
                higher_inside@ + lower_inside@,
                *input,
                skip_matchers@,
                deref_found(found),
            ),
    {
        let ghost h = self.higher.precedence();
        let ghost l = self.lower.precedence();
        let ghost hi = higher_inside@;
        let ghost li = lower_inside@;
        match self.higher.matching_listener_at(input, higher_inside, skip_matchers) {
            Some(listener) => {
                proof {
                    law_higher_precedence_wins_at(h, l, hi, li, *input, skip_matchers@, *listener);
                }
                Some(listener)
            },
            None => {
                let lower = self.lower.matching_listener_at(input, lower_inside, skip_matchers);
                proof {
                    law_lower_precedence_on_fallthrough_at(h, l, hi, li, *input, skip_matchers@, deref_found(lower));
                }
                lower
            },
        }
    }
}

/// With hit tests, too, higher precedence shadows lower: when dispatch over
/// `higher` picks a listener, dispatch over `higher` followed by `lower`
/// (with the answers in the same order) picks the same one.
pub proof fn law_higher_precedence_wins_at<C>(
    higher: Seq<Listener<C>>,
    lower: Seq<Listener<C>>,
    higher_inside: Seq<bool>,
    lower_inside: Seq<bool>,
    input: ListenerInput,
    skip: Seq<ListenerMatcherKind>,
    l: Listener<C>,
)
    requires
        higher_inside.len() == higher.len(),
        first_match_result_at(higher, higher_inside, input, skip, Some(l)),
    ensures
        first_match_result_at(higher + lower, higher_inside + lower_inside, input, skip, Some(l)),
{
    let i = choose|i: int| is_first_selectable_at(higher, higher_inside, i, input, skip) && higher[i] == l;
    let s = higher + lower;
    let a = higher_inside + lower_inside;
    assert(s[i] == higher[i] && a[i] == higher_inside[i]);
    assert forall|j: int| 0 <= j < i implies !#[trigger] selectable_at(s[j], input, a[j], skip) by {
        assert(s[j] == higher[j] && a[j] == higher_inside[j]);
    }
    assert(is_first_selectable_at(s, a, i, input, skip));
}

/// With hit tests, too, when nothing in `higher` takes an input, dispatch
/// over `higher` followed by `lower` falls through to what dispatch over
/// `lower` picks.
pub proof fn law_lower_precedence_on_fallthrough_at<C>(
    higher: Seq<Listener<C>>,
    lower: Seq<Listener<C>>,
    higher_inside: Seq<bool>,
    lower_inside: Seq<bool>,
    input: ListenerInput,
    skip: Seq<ListenerMatcherKind>,
    found: Option<Listener<C>>,
)
    requires
        higher_inside.len() == higher.len(),
        lower_inside.len() == lower.len(),
        first_match_result_at(higher, higher_inside, input, skip, None),
        first_match_result_at(lower, lower_inside, input, skip, found),
    ensures
        first_match_result_at(higher + lower, higher_inside + lower_inside, input, skip, found),
{
    let s = higher + lower;
    let a = higher_inside + lower_inside;
    let n = higher.len();
    assert forall|j: int| 0 <= j < n implies !#[trigger] selectable_at(s[j], input, a[j], skip) by {
        assert(s[j] == higher[j] && a[j] == higher_inside[j]);
    }
    match found {
        Some(l) => {
            let i = choose|i: int| is_first_selectable_at(lower, lower_inside, i, input, skip) && lower[i] == l;
            assert(s[n + i] == lower[i] && a[n + i] == lower_inside[i]);
            assert forall|j: int| 0 <= j < n + i implies !#[trigger] selectable_at(s[j], input, a[j], skip) by {
                if j >= n {
                    assert(s[j] == lower[j - n] && a[j] == lower_inside[j - n]);
                }
            }
            assert(is_first_selectable_at(s, a, n + i, input, skip));
        },
        None => {
            assert forall|j: int| 0 <= j < s.len() implies !#[trigger] selectable_at(s[j], input, a[j], skip) by {
                if j >= n {
                    assert(s[j] == lower[j - n] && a[j] == lower_inside[j - n]);
                }
            }
        },
    }
}

/// With hit tests, too, first-match dispatch picks at most one listener.
pub proof fn law_first_match_at_is_unique<C>(
    s: Seq<Listener<C>>,
    inside: Seq<bool>,
    input: ListenerInput,
    skip: Seq<ListenerMatcherKind>,
    a: Option<Listener<C>>,
    b: Option<Listener<C>>,
)
    requires
        first_match_result_at(s, inside, input, skip, a),
        first_match_result_at(s, inside, input, skip, b),
    ensures
        a == b,
{
    match (a, b) {
        (Some(la), Some(lb)) => {
            let i = choose|i: int| is_first_selectable_at(s, inside, i, input, skip) && s[i] == la;
            let j = choose|j: int| is_first_selectable_at(s, inside, j, input, skip) && s[j] == lb;
            if i < j {
                assert(!selectable_at(s[i], input, inside[i], skip));
            } else if j < i {
                assert(!selectable_at(s[j], input, inside[j], skip));
            }
        },
        (Some(la), None) => {
            let i = choose|i: int| is_first_selectable_at(s, inside, i, input, skip) && s[i] == la;
            assert(!selectable_at(s[i], input, inside[i], skip));
        },
        (None, Some(lb)) => {
            let j = choose|j: int| is_first_selectable_at(s, inside, j, input, skip) && s[j] == lb;
            assert(!selectable_at(s[j], input, inside[j], skip));
        },
        (None, None) => {},
    }
}

/// First-match dispatch picks at most one listener: two results that both
/// satisfy the dispatch contract over the same listeners are equal.
pub proof fn law_first_match_is_unique<C>(
    s: Seq<Listener<C>>,
    input: InputSignal,
    skip: Seq<ListenerMatcherKind>,
    a: Option<Listener<C>>,
    b: Option<Listener<C>>,
)
    requires
        first_match_result(s, input, skip, a),
        first_match_result(s, input, skip, b),
    ensures
        a == b,
{
    match (a, b) {
        (Some(la), Some(lb)) => {
            let i = choose|i: int| is_first_selectable(s, i, input, skip) && s[i] == la;
            let j = choose|j: int| is_first_selectable(s, j, input, skip) && s[j] == lb;
            if i < j {
                assert(!selectable(s[i], input, skip));
            } else if j < i {
                assert(!selectable(s[j], input, skip));
            }
        },
        (Some(la), None) => {
            let i = choose|i: int| is_first_selectable(s, i, input, skip) && s[i] == la;
            assert(!selectable(s[i], input, skip));
        },
        (None, Some(lb)) => {
            let j = choose|j: int| is_first_selectable(s, j, input, skip) && s[j] == lb;
            assert(!selectable(s[j], input, skip));
        },
        (None, None) => {},
    }
}

/// Listeners of higher precedence shadow lower ones: when dispatch over
/// `higher` picks a listener, dispatch over `higher` followed by `lower`
/// picks the same one. This holds of a layered view, of a block emitted with
/// `in_precedence_order`, and of storage appended with
/// `extend_storage_from`.
pub proof fn law_higher_precedence_wins<C>(
    higher: Seq<Listener<C>>,
    lower: Seq<Listener<C>>,
    input: InputSignal,
    skip: Seq<ListenerMatcherKind>,
    l: Listener<C>,
)
    requires
        first_match_result(higher, input, skip, Some(l)),
    ensures
        first_match_result(higher + lower, input, skip, Some(l)),
{
    let i = choose|i: int| is_first_selectable(higher, i, input, skip) && higher[i] == l;
    let s = higher + lower;
    assert(s[i] == higher[i]);
    assert forall|j: int| 0 <= j < i implies !#[trigger] selectable(s[j], input, skip) by {
        assert(s[j] == higher[j]);
    }
    assert(is_first_selectable(s, i, input, skip));
}

/// When nothing in `higher` takes an input, dispatch over `higher`
/// followed by `lower` falls through to what dispatch over `lower` picks.
pub proof fn law_lower_precedence_on_fallthrough<C>(
    higher: Seq<Listener<C>>,
    lower: Seq<Listener<C>>,
    input: InputSignal,
    skip: Seq<ListenerMatcherKind>,
    found: Option<Listener<C>>,
)
    requires
        none_selectable(higher, input, skip),
        first_match_result(lower, input, skip, found),
    ensures
        first_match_result(higher + lower, input, skip, found),
{
    let s = higher + lower;
    match found {
        Some(l) => {
            let i = choose|i: int| is_first_selectable(lower, i, input, skip) && lower[i] == l;
            assert(s[higher.len() + i] == lower[i]);
            assert forall|j: int| 0 <= j < higher.len() + i implies !#[trigger] selectable(s[j], input, skip) by {
                if j < higher.len() {
                    assert(s[j] == higher[j]);
                } else {
                    assert(s[j] == lower[j - higher.len()]);
                }
            }
            assert(is_first_selectable(s, higher.len() + i, input, skip));
        },
        None => {
            assert forall|j: int| 0 <= j < s.len() implies !#[trigger] selectable(s[j], input, skip) by {
                if j < higher.len() {
                    assert(s[j] == higher[j]);
                } else {
                    assert(s[j] == lower[j - higher.len()]);
                }
            }
        },
    }
}

// ============================================================================
// Interaction state
// ============================================================================

/// Swipe directions an element listens for.
#[derive(Clone, Copy, Debug, PartialEq, Eq, Structural)]
pub struct SwipeHandlers {
    pub up: bool,
    pub down: bool,
    pub left: bool,
    pub right: bool,
}

#[derive(Clone, Copy, Debug, PartialEq, Eq, Structural)]
pub enum GestureAxis {
    Horizontal,
    Vertical,
}

#[derive(Clone, Copy, Debug, PartialEq, Eq, Structural)]
pub enum DragScrollMode {
    Locked,
    Biaxial,
}

#[derive(Clone, Copy, Debug, PartialEq, Eq, Structural)]
pub enum ScrollDirection {
    XNeg,
    XPos,
    YNeg,
    YPos,
}

impl SwipeHandlers {
    /// Whether any direction is handled.
    pub fn any(self) -> (handled: bool)
        ensures
            handled == (self.up || self.down || self.left || self.right),
    {
        self.up || self.down || self.left || self.right
    }

    /// Whether a direction along `axis` is handled: left or right for the
    /// horizontal axis, up or down for the vertical one.
    pub fn any_for_axis(self, axis: GestureAxis) -> (handled: bool)
        ensures
            handled == match axis {
                GestureAxis::Horizontal => self.left || self.right,
                GestureAxis::Vertical => self.up || self.down,
            },
    {
        match axis {
            GestureAxis::Horizontal => self.left || self.right,
            GestureAxis::Vertical => self.up || self.down,
        }
    }
}

/// Pointer click/press tracker state used to rematerialize release followups.
#[derive(Clone, Copy, Debug, PartialEq, Eq, Structural)]
pub struct ClickPressTracker {
    pub element_id: NodeId,
    pub matcher_kind: ListenerMatcherKind,
    pub emit_click: bool,
    pub emit_press_pointer: bool,
    pub clear_mouse_down: bool,
}

/// Text-selection drag tracker state used to rematerialize cursor followups.
#[derive(Clone, Copy, Debug, PartialEq, Eq, Structural)]
pub struct TextDragTracker {
    pub element_id: NodeId,
    pub matcher_kind: ListenerMatcherKind,
}

/// Slider drag tracker state used to rematerialize value followups.
#[derive(Clone, Copy, Debug, PartialEq, Eq, Structural)]
pub struct SliderDragTracker {
    pub element_id: NodeId,
    pub matcher_kind: ListenerMatcherKind,
}

/// The click/press tracker, if there is one and it belongs to `element_id`.
pub fn click_press_tracker_for_element(
    click_press: &Option<ClickPressTracker>,
    element_id: NodeId,
) -> (tracker: Option<&ClickPressTracker>)
    ensures
        match *click_press {
            Some(t) => if t.element_id == element_id {
                tracker == Some(&t)
            } else {
                tracker is None
            },
            None => tracker is None,
        },
{
    match click_press {
        Some(tracker) => if tracker.element_id == element_id {
            Some(tracker)
        } else {
            None
        },
        None => None,
    }
}

/// Takes one unit of the subtree-cache budget: `false` and no change when
/// the budget is spent, otherwise `true` with the budget one smaller.
pub fn try_take_registry_cache_budget(cache_budget: &mut usize) -> (taken: bool)
    ensures
        taken == (*old(cache_budget) > 0),
        *final(cache_budget) == if *old(cache_budget) > 0 {
            (*old(cache_budget) - 1) as usize
        } else {
            0
        },
{
    let remaining = *cache_budget;
    if remaining == 0 {
        return false;
    }
    *cache_budget = remaining - 1;
    true
}

/// The registry refresh flags of an element.
#[derive(Clone, Copy, Debug, PartialEq, Eq, Structural)]
pub struct RegistryRefreshFlags {
    /// The element's own listeners must be rebuilt.
    pub registry_dirty: bool,
    /// Some descendant's listeners must be rebuilt.
    pub registry_descendant_dirty: bool,
    /// The subtree contributes to the registry, as cached on the element.
    pub registry_subtree_affects: bool,
}

pub open spec fn spec_subtree_affects_rebuild(
    child: Option<RegistryRefreshFlags>,
    root_cached_subtree_affects_registry: bool,
    tree_subtree_affects_registry: bool,
) -> bool {
    match child {
        None => false,
        Some(flags) => if flags.registry_dirty || flags.registry_descendant_dirty {
            true
        } else if root_cached_subtree_affects_registry {
            flags.registry_subtree_affects
        } else {
            tree_subtree_affects_registry
        },
    }
}

/// Whether a child subtree matters to a registry rebuild: never for a
/// missing child; always when its listeners or a descendant's are dirty;
/// otherwise as the cached per-element flag says when the tree caches it at
/// the root, and as the tree's own answer (`tree_subtree_affects_registry`)
/// when not.
pub fn registry_child_subtree_affects_rebuild(
    child: Option<RegistryRefreshFlags>,
    root_cached_subtree_affects_registry: bool,
    tree_subtree_affects_registry: bool,
) -> (affects: bool)
    ensures
        affects == spec_subtree_affects_rebuild(
            child,
            root_cached_subtree_affects_registry,
            tree_subtree_affects_registry,
        ),
{
    let flags = match child {
        Some(flags) => flags,
        None => {
            return false;
        },
    };
    if flags.registry_dirty || flags.registry_descendant_dirty {
        return true;
    }
    if root_cached_subtree_affects_registry {
        return flags.registry_subtree_affects;
    }
    tree_subtree_affects_registry
}

/// Whether a registry build skips a child subtree: when the viewport culls
/// it; otherwise, outside a front nearby root, when it does not matter to
/// the rebuild.
pub fn should_skip_registry_child_subtree(
    culled_by_viewport: bool,
    front_nearby_root: bool,
    child: Option<RegistryRefreshFlags>,
    root_cached_subtree_affects_registry: bool,
    tree_subtree_affects_registry: bool,
) -> (skip: bool)
    ensures
        skip == (culled_by_viewport || (!front_nearby_root && !spec_subtree_affects_rebuild(
            child,
            root_cached_subtree_affects_registry,
            tree_subtree_affects_registry,
        ))),
{
    if culled_by_viewport {
        return true;
    }
    if front_nearby_root {
        return false;
    }
    !registry_child_subtree_affects_rebuild(
        child,
        root_cached_subtree_affects_registry,
        tree_subtree_affects_registry,
    )
}

/// The subtree-cache budget of one registry build.
pub const REGISTRY_SUBTREE_CACHE_BUDGET: usize = 48;


// ============================================================================
// Focus order
// ============================================================================

/// A focusable element in tab order.
#[derive(Clone, Copy, Debug, PartialEq, Eq, Structural)]
pub struct FocusEntry {
    pub element_id: NodeId,
    pub is_currently_focused: bool,
}

/// Focus facts of one focusable element: whether it holds focus, and the
/// elements before and after it in the tab cycle.
#[derive(Clone, Copy, Debug, PartialEq, Eq, Structural)]
pub struct ElementFocusMeta {
    pub is_currently_focused: bool,
    pub tab_next: Option<NodeId>,
    pub tab_prev: Option<NodeId>,
}

/// Focus facts of a whole tree: the focused element, the ends of the tab
/// order, and per-element tab neighbours.
#[derive(Debug)]
pub struct FocusBuildState {
    pub focused_id: Option<NodeId>,
    pub first_focusable: Option<NodeId>,
    pub last_focusable: Option<NodeId>,
    pub by_id: HashMap<NodeId, ElementFocusMeta>,
}

/// Position of the first focused entry, if any.
pub open spec fn first_focused_index(entries: Seq<FocusEntry>) -> Option<int>
    decreases entries.len(),
{
    if entries.len() == 0 {
        None
    } else {
        match first_focused_index(entries.drop_last()) {
            Some(i) => Some(i),
            None => if entries.last().is_currently_focused {
                Some(entries.len() - 1)
            } else {
                None
            },
        }
    }
}

/// The first focused position is a focused position within the entries.
pub proof fn lemma_first_focused_index_in_range(entries: Seq<FocusEntry>)
    ensures
        first_focused_index(entries) matches Some(i) ==> 0 <= i < entries.len()
            && entries[i].is_currently_focused,
    decreases entries.len(),
{
    if entries.len() > 0 {
        lemma_first_focused_index_in_range(entries.drop_last());
    }
}

/// Position after `i` in the tab cycle of `n` entries.
pub open spec fn tab_next_index(n: int, i: int) -> int {
    (i + 1) % n
}

/// Position before `i` in the tab cycle of `n` entries.
pub open spec fn tab_prev_index(n: int, i: int) -> int {
    if i == 0 {
        n - 1
    } else {
        i - 1
    }
}

/// The focus facts of entry `i`: it holds focus when it is the first
/// focused entry, and its tab neighbours wrap around the ends.
pub open spec fn spec_entry_meta(entries: Seq<FocusEntry>, i: int) -> ElementFocusMeta {
    ElementFocusMeta {
        is_currently_focused: first_focused_index(entries) == Some(i),
        tab_next: Some(entries[tab_next_index(entries.len() as int, i)].element_id),
        tab_prev: Some(entries[tab_prev_index(entries.len() as int, i)].element_id),
    }
}

/// The per-element facts of the first `k` entries, a later entry of the
/// same element replacing an earlier one.
pub open spec fn spec_meta_map(entries: Seq<FocusEntry>, k: int) -> Map<NodeId, ElementFocusMeta>
    decreases k,
{
    if k <= 0 {
        Map::empty()
    } else {
        spec_meta_map(entries, k - 1).insert(entries[k - 1].element_id, spec_entry_meta(entries, k - 1))
    }
}

pub fn focus_build_state_from_entries(entries: &[FocusEntry]) -> (state: FocusBuildState)
    ensures
        state.focused_id == match first_focused_index(entries@) {
            Some(i) => Some(entries@[i].element_id),
            None => None,
        },
        state.first_focusable == if entries@.len() == 0 {
            None
        } else {
            Some(entries@[0].element_id)
        },
        state.last_focusable == if entries@.len() == 0 {
            None
        } else {
            Some(entries@.last().element_id)
        },
        state.by_id@ == spec_meta_map(entries@, entries@.len() as int),
{
    broadcast use vstd::std_specs::hash::group_hash_axioms;

    let n = entries.len();
    let mut focused_index: Option<usize> = None;
    let mut k: usize = 0;
    while k < n
        invariant
            n == entries@.len(),
            k <= n,
            match first_focused_index(entries@.take(k as int)) {
                Some(i) => focused_index == Some(i as usize),
                None => focused_index is None,
            },
        decreases n - k,
    {
        assert(entries@.take(k + 1).drop_last() =~= entries@.take(k as int));
        proof {
            lemma_first_focused_index_in_range(entries@.take(k as int));
        }
        if focused_index.is_none() && entries[k].is_currently_focused {
            focused_index = Some(k);
        }
        k = k + 1;
    }
    assert(entries@.take(n as int) =~= entries@);
    proof {
        lemma_first_focused_index_in_range(entries@);
    }
    let focused_id = match focused_index {
        Some(index) => Some(entries[index].element_id),
        None => None,
    };
    let first_focusable = if n == 0 {
        None
    } else {
        Some(entries[0].element_id)
    };
    let last_focusable = if n == 0 {
        None
    } else {
        Some(entries[n - 1].element_id)
    };
    let mut by_id: HashMap<NodeId, ElementFocusMeta> = HashMap::new();
    let mut index: usize = 0;
    while index < n
        invariant
            n == entries@.len(),
            index <= n,
            match first_focused_index(entries@) {
                Some(i) => focused_index == Some(i as usize),
                None => focused_index is None,
            },
            by_id@ == spec_meta_map(entries@, index as int),
        decreases n - index,
    {
        let next_index = (index + 1) % n;
        let prev_index = if index == 0 {
            n - 1
        } else {
            index - 1
        };
        let is_focused = match focused_index {
            Some(f) => f == index,
            None => false,
        };
        let meta = ElementFocusMeta {
            is_currently_focused: is_focused,
            tab_next: Some(entries[next_index].element_id),
            tab_prev: Some(entries[prev_index].element_id),
        };
        proof {
            lemma_first_focused_index_in_range(entries@);
        }
        assert(meta == spec_entry_meta(entries@, index as int));
        by_id.insert(entries[index].element_id, meta);
        index = index + 1;
    }
    FocusBuildState { focused_id, first_focusable, last_focusable, by_id }
}

/// No two entries name the same element.
pub open spec fn distinct_entries(entries: Seq<FocusEntry>) -> bool {
    forall|i: int, j: int|
        0 <= i < entries.len() && 0 <= j < entries.len() && i != j ==> entries[i].element_id
            != entries[j].element_id
}

proof fn lemma_meta_map_lookup(entries: Seq<FocusEntry>, k: int, i: int)
    requires
        distinct_entries(entries),
        0 <= i < k <= entries.len(),
    ensures
        spec_meta_map(entries, k).contains_key(entries[i].element_id),
        spec_meta_map(entries, k)[entries[i].element_id] == spec_entry_meta(entries, i),
    decreases k,
{
    if i < k - 1 {
        lemma_meta_map_lookup(entries, k - 1, i);
    }
}

/// In a tab order naming each element once, every element's facts are those
/// of its own entry, and Tab then Shift+Tab (or Shift+Tab then Tab) comes
/// back to where it started.
pub proof fn law_tab_cycle_round_trip(entries: Seq<FocusEntry>, i: int)
    requires
        distinct_entries(entries),
        0 <= i < entries.len(),
    ensures
        ({
            let m = spec_meta_map(entries, entries.len() as int);
            let id = entries[i].element_id;
            &&& m.contains_key(id)
            &&& m[id] == spec_entry_meta(entries, i)
            &&& m.contains_key(m[id].tab_next->0)
            &&& m[m[id].tab_next->0].tab_prev == Some(id)
            &&& m.contains_key(m[id].tab_prev->0)
            &&& m[m[id].tab_prev->0].tab_next == Some(id)
        }),
{
    let n = entries.len() as int;
    let j = tab_next_index(n, i);
    let p = tab_prev_index(n, i);
    assert(0 <= j < n);
    assert(0 <= p < n);
    lemma_meta_map_lookup(entries, n, i);
    lemma_meta_map_lookup(entries, n, j);
    lemma_meta_map_lookup(entries, n, p);
    if i + 1 < n {
        vstd::arithmetic::div_mod::lemma_small_mod((i + 1) as nat, n as nat);
        assert(j == i + 1);
    } else {
        vstd::arithmetic::div_mod::lemma_mod_self_0(n);
        assert(j == 0);
    }
    if p + 1 < n {
        vstd::arithmetic::div_mod::lemma_small_mod((p + 1) as nat, n as nat);
    } else {
        vstd::arithmetic::div_mod::lemma_mod_self_0(n);
    }
    assert(tab_prev_index(n, j) == i);
    assert(tab_next_index(n, p) == i);
}

/// At most one element holds focus in the focus facts.
pub proof fn law_single_focused_element(entries: Seq<FocusEntry>, i: int, j: int)
    requires
        0 <= i < entries.len(),
        0 <= j < entries.len(),
        spec_entry_meta(entries, i).is_currently_focused,
        spec_entry_meta(entries, j).is_currently_focused,
    ensures
        i == j,
{
}

/// The Tab and Shift+Tab targets of a tree: from the focused element to its
/// tab neighbours, or, with nothing focused, to the first and last
/// focusable elements.
#[derive(Clone, Copy, Debug, PartialEq, Eq, Structural)]
pub struct FocusCycleTargets {
    /// The focused element the listeners belong to, if any.
    pub owner: Option<NodeId>,
    /// Where Tab moves focus.
    pub next: NodeId,
    /// Where Shift+Tab moves focus.
    pub previous: NodeId,
}

pub open spec fn spec_focus_cycle_targets(
    focused_id: Option<NodeId>,
    first: Option<NodeId>,
    last: Option<NodeId>,
    by_id: Map<NodeId, ElementFocusMeta>,
) -> Option<FocusCycleTargets> {
    match focused_id {
        Some(f) => if by_id.contains_key(f) && by_id[f].tab_next is Some && by_id[f].tab_prev is Some {
            Some(
                FocusCycleTargets {
                    owner: Some(f),
                    next: by_id[f].tab_next->0,
                    previous: by_id[f].tab_prev->0,
                },
            )
        } else {
            None
        },
        None => match (first, last) {
            (Some(n), Some(p)) => Some(FocusCycleTargets { owner: None, next: n, previous: p }),
            _ => None,
        },
    }
}

/// The Tab and Shift+Tab focus targets that the focus-cycle listeners
/// carry, or nothing when no such listeners are emitted.
pub fn focus_cycle_targets(state: &FocusBuildState) -> (targets: Option<FocusCycleTargets>)
    ensures
        targets == spec_focus_cycle_targets(
            state.focused_id,
            state.first_focusable,
            state.last_focusable,
            state.by_id@,
        ),
{
    broadcast use vstd::std_specs::hash::group_hash_axioms;

    match state.focused_id {
        Some(focused_id) => {
            let meta = match state.by_id.get(&focused_id) {
                Some(meta) => meta,
                None => return None,
            };
            match (meta.tab_next, meta.tab_prev) {
                (Some(next), Some(previous)) => Some(
                    FocusCycleTargets { owner: Some(focused_id), next, previous },
                ),
                _ => None,
            }
        },
        None => match (state.first_focusable, state.last_focusable) {
            (Some(next), Some(previous)) => Some(FocusCycleTargets { owner: None, next, previous }),
            _ => None,
        },
    }
}


// ============================================================================
// Built-in listeners
// ============================================================================

/// What a built-in listener does once matched.
#[derive(Clone, Copy, Debug, PartialEq, Eq, Structural)]
pub enum ListenerCompute {
    /// Forward the window size to the tree.
    WindowResizeToTree,
    /// Show a cursor shape.
    SetCursor(CursorIcon),
    /// Move focus to an element, or clear it.
    FocusTo(Option<NodeId>),
    /// Scroll an element by whole lines along each axis.
    KeyScrollToTree { element_id: NodeId, dx_lines: i8, dy_lines: i8 },
}

/// The window-level listeners in precedence order: the resize forwarder,
/// then the default cursor for any cursor move that nothing else took.
pub fn window_listeners() -> (listeners: Vec<Listener<ListenerCompute>>)
    ensures
        listeners@ == seq![
            Listener {
                element_id: None,
                matcher: ListenerMatcher::WindowResized,
                compute: ListenerCompute::WindowResizeToTree,
            },
            Listener {
                element_id: None,
                matcher: ListenerMatcher::CursorPosAnywhere,
                compute: ListenerCompute::SetCursor(CursorIcon::Default),
            },
        ],
{
    let mut listeners = Vec::new();
    listeners.push(
        Listener {
            element_id: None,
            matcher: ListenerMatcher::WindowResized,
            compute: ListenerCompute::WindowResizeToTree,
        },
    );
    listeners.push(
        Listener {
            element_id: None,
            matcher: ListenerMatcher::CursorPosAnywhere,
            compute: ListenerCompute::SetCursor(CursorIcon::Default),
        },
    );
    listeners
}

/// The Tab and Shift+Tab listeners of a tree in precedence order, owned by
/// the focused element if any; none when the focus state gives no targets.
pub fn focus_cycle_listeners(state: &FocusBuildState) -> (listeners: Vec<Listener<ListenerCompute>>)
    ensures
        listeners@ == match spec_focus_cycle_targets(
            state.focused_id,
            state.first_focusable,
            state.last_focusable,
            state.by_id@,
        ) {
            Some(t) => seq![
                Listener {
                    element_id: t.owner,
                    matcher: ListenerMatcher::KeyTabPressNoShiftCtrlAltMeta,
                    compute: ListenerCompute::FocusTo(Some(t.next)),
                },
                Listener {
                    element_id: t.owner,
                    matcher: ListenerMatcher::KeyShiftTabPressNoCtrlAltMeta,
                    compute: ListenerCompute::FocusTo(Some(t.previous)),
                },
            ],
            None => Seq::empty(),
        },
{
    let mut listeners = Vec::new();
    match focus_cycle_targets(state) {
        Some(targets) => {
            listeners.push(
                Listener {
                    element_id: targets.owner,
                    matcher: ListenerMatcher::KeyTabPressNoShiftCtrlAltMeta,
                    compute: ListenerCompute::FocusTo(Some(targets.next)),
                },
            );
            listeners.push(
                Listener {
                    element_id: targets.owner,
                    matcher: ListenerMatcher::KeyShiftTabPressNoCtrlAltMeta,
                    compute: ListenerCompute::FocusTo(Some(targets.previous)),
                },
            );
        },
        None => {},
    }
    listeners
}

/// With an element focused, a window blur clears focus; the listener
/// belongs to the focused element.
pub fn focused_window_blur_listener(state: &FocusBuildState) -> (listener: Option<
    Listener<ListenerCompute>,
>)
    ensures
        listener == match state.focused_id {
            Some(id) => Some(
                Listener {
                    element_id: Some(id),
                    matcher: ListenerMatcher::WindowBlurred,
                    compute: ListenerCompute::FocusTo(None),
                },
            ),
            None => None,
        },
{
    match state.focused_id {
        Some(id) => Some(
            Listener {
                element_id: Some(id),
                matcher: ListenerMatcher::WindowBlurred,
                compute: ListenerCompute::FocusTo(None),
            },
        ),
        None => None,
    }
}

/// The arrow key that scrolls in `direction`, and the scroll step in lines
/// along x and y: content moving towards negative x is revealed by the
/// right arrow, and so on.
pub open spec fn spec_key_scroll(element_id: NodeId, direction: ScrollDirection) -> Listener<
    ListenerCompute,
> {
    let (matcher, dx, dy) = match direction {
        ScrollDirection::XNeg => (ListenerMatcher::KeyRightPressNoCtrlAltMeta, -1i8, 0i8),
        ScrollDirection::XPos => (ListenerMatcher::KeyLeftPressNoCtrlAltMeta, 1i8, 0i8),
        ScrollDirection::YNeg => (ListenerMatcher::KeyDownPressNoCtrlAltMeta, 0i8, -1i8),
        ScrollDirection::YPos => (ListenerMatcher::KeyUpPressNoCtrlAltMeta, 0i8, 1i8),
    };
    Listener {
        element_id: Some(element_id),
        matcher,
        compute: ListenerCompute::KeyScrollToTree { element_id, dx_lines: dx, dy_lines: dy },
    }
}

/// One arrow-key scroll listener per scroll direction of the element, in
/// the order of the directions.
pub fn key_scroll_listeners_for_element(element_id: NodeId, directions: &[ScrollDirection]) -> (listeners:
    Vec<Listener<ListenerCompute>>)
    ensures
        listeners@ == directions@.map_values(|d: ScrollDirection| spec_key_scroll(element_id, d)),
{
    let mut listeners = Vec::new();
    let mut k: usize = 0;
    while k < directions.len()
        invariant
            k <= directions@.len(),
            listeners@ == directions@.take(k as int).map_values(
                |d: ScrollDirection| spec_key_scroll(element_id, d),
            ),
        decreases directions@.len() - k,
    {
        let (matcher, dx, dy) = match directions[k] {
            ScrollDirection::XNeg => (ListenerMatcher::KeyRightPressNoCtrlAltMeta, -1i8, 0i8),
            ScrollDirection::XPos => (ListenerMatcher::KeyLeftPressNoCtrlAltMeta, 1i8, 0i8),
            ScrollDirection::YNeg => (ListenerMatcher::KeyDownPressNoCtrlAltMeta, 0i8, -1i8),
            ScrollDirection::YPos => (ListenerMatcher::KeyUpPressNoCtrlAltMeta, 0i8, 1i8),
        };
        listeners.push(
            Listener {
                element_id: Some(element_id),
                matcher,
                compute: ListenerCompute::KeyScrollToTree { element_id, dx_lines: dx, dy_lines: dy },
            },
        );
        assert(directions@.take(k + 1) =~= directions@.take(k as int).push(directions@[k as int]));
        assert(listeners@ =~= directions@.take(k + 1).map_values(
            |d: ScrollDirection| spec_key_scroll(element_id, d),
        ));
        k = k + 1;
    }
    assert(directions@.take(directions@.len() as int) =~= directions@);
    listeners
}

// ============================================================================
// Focus on mount
// ============================================================================

/// An element that asked for focus when mounted, with the tree revision it
/// was mounted at.
#[derive(Clone, Copy, Debug, PartialEq, Eq, Structural)]
pub struct FocusOnMountTarget {
    pub element_id: NodeId,
    pub mounted_at_revision: u64,
}

/// The focus-on-mount target kept when `candidate` is offered after
/// `current`: a candidate replaces the current target only when mounted at a
/// strictly later revision, so the first one of a revision stays.
pub open spec fn spec_merge_focus_on_mount(
    current: Option<FocusOnMountTarget>,
    candidate: Option<FocusOnMountTarget>,
) -> Option<FocusOnMountTarget> {
    match candidate {
        None => current,
        Some(c) => match current {
            None => Some(c),
            Some(e) => if c.mounted_at_revision > e.mounted_at_revision {
                Some(c)
            } else {
                current
            },
        },
    }
}

pub fn merge_focus_on_mount(
    focus_on_mount: &mut Option<FocusOnMountTarget>,
    candidate: Option<FocusOnMountTarget>,
)
    ensures
        *final(focus_on_mount) == spec_merge_focus_on_mount(*old(focus_on_mount), candidate),
{
    let candidate = match candidate {
        Some(candidate) => candidate,
        None => return,
    };
    let should_replace = match focus_on_mount {
        None => true,
        Some(existing) => candidate.mounted_at_revision > existing.mounted_at_revision,
    };
    if should_replace {
        *focus_on_mount = Some(candidate);
    }
}

/// Offers an element as focus-on-mount target during a build at revision
/// `current_revision`: only an element with the focus-on-mount attribute,
/// mounted at that very (non-zero) revision, is offered.
pub fn consider_focus_on_mount_candidate(
    focus_on_mount: &mut Option<FocusOnMountTarget>,
    current_revision: u64,
    wants_focus_on_mount: bool,
    element_id: NodeId,
    mounted_at_revision: u64,
)
    ensures
        *final(focus_on_mount) == if !wants_focus_on_mount || current_revision == 0
            || mounted_at_revision != current_revision {
            *old(focus_on_mount)
        } else {
            spec_merge_focus_on_mount(
                *old(focus_on_mount),
                Some(FocusOnMountTarget { element_id, mounted_at_revision }),
            )
        },
{
    if !wants_focus_on_mount || current_revision == 0 || mounted_at_revision != current_revision {
        return;
    }
    merge_focus_on_mount(
        focus_on_mount,
        Some(FocusOnMountTarget { element_id, mounted_at_revision }),
    );
}

/// The target kept after offering `candidates` in order, starting from
/// none.
pub open spec fn merged_focus_on_mount(candidates: Seq<FocusOnMountTarget>) -> Option<
    FocusOnMountTarget,
>
    decreases candidates.len(),
{
    if candidates.len() == 0 {
        None
    } else {
        spec_merge_focus_on_mount(
            merged_focus_on_mount(candidates.drop_last()),
            Some(candidates.last()),
        )
    }
}

/// Offering candidates in order keeps the first candidate of the latest
/// revision: it is one of the candidates, no candidate has a later
/// revision, and every earlier candidate has an earlier revision.
pub proof fn law_focus_on_mount_keeps_first_latest(candidates: Seq<FocusOnMountTarget>)
    requires
        candidates.len() > 0,
    ensures
        exists|k: int|
            0 <= k < candidates.len() && merged_focus_on_mount(candidates) == Some(candidates[k])
                && (forall|j: int|
                0 <= j < candidates.len() ==> #[trigger] candidates[j].mounted_at_revision
                    <= candidates[k].mounted_at_revision) && (forall|j: int|
                0 <= j < k ==> #[trigger] candidates[j].mounted_at_revision
                    < candidates[k].mounted_at_revision),
    decreases candidates.len(),
{
    let n = candidates.len() as int;
    let last = candidates.last();
    if n == 1 {
        assert(candidates.drop_last().len() == 0);
        assert(merged_focus_on_mount(candidates) == Some(candidates[0]));
    } else {
        let prefix = candidates.drop_last();
        law_focus_on_mount_keeps_first_latest(prefix);
        let k = choose|k: int|
            0 <= k < prefix.len() && merged_focus_on_mount(prefix) == Some(prefix[k]) && (forall|
                j: int,
            |
                0 <= j < prefix.len() ==> #[trigger] prefix[j].mounted_at_revision
                    <= prefix[k].mounted_at_revision) && (forall|j: int|
                0 <= j < k ==> #[trigger] prefix[j].mounted_at_revision
                    < prefix[k].mounted_at_revision);
        if last.mounted_at_revision > prefix[k].mounted_at_revision {
            assert forall|j: int| 0 <= j < n implies #[trigger] candidates[j].mounted_at_revision
                <= candidates[n - 1].mounted_at_revision by {
                if j < n - 1 {
                    assert(candidates[j] == prefix[j]);
                }
            }
            assert forall|j: int| 0 <= j < n - 1 implies #[trigger] candidates[j].mounted_at_revision
                < candidates[n - 1].mounted_at_revision by {
                assert(candidates[j] == prefix[j]);
            }
        } else {
            assert(candidates[k] == prefix[k]);
            assert forall|j: int| 0 <= j < n implies #[trigger] candidates[j].mounted_at_revision
                <= candidates[k].mounted_at_revision by {
                if j < n - 1 {
                    assert(candidates[j] == prefix[j]);
                }
            }
            assert forall|j: int| 0 <= j < k implies #[trigger] candidates[j].mounted_at_revision
                < candidates[k].mounted_at_revision by {
                assert(candidates[j] == prefix[j]);
            }
        }
    }
}

// ============================================================================
// Build accumulator
// ============================================================================

/// What a registry build accumulates over a subtree: the listeners, the
/// focused element, the focusable elements in tab order and the
/// focus-on-mount target, for the tree revision being built.
pub struct RegistryBuildAcc<C> {
    pub current_revision: u64,
    pub registry: Registry<C>,
    pub focused_id: Option<NodeId>,
    pub focus_entries: Vec<FocusEntry>,
    pub focus_on_mount: Option<FocusOnMountTarget>,
}

/// The accumulated values of a build, as plain values.
pub ghost struct AccView<C> {
    pub storage: Seq<Listener<C>>,
    pub focused_id: Option<NodeId>,
    pub focus_entries: Seq<FocusEntry>,
    pub focus_on_mount: Option<FocusOnMountTarget>,
}

impl<C> RegistryBuildAcc<C> {
    pub open spec fn acc_view(&self) -> AccView<C> {
        AccView {
            storage: self.registry.storage(),
            focused_id: self.focused_id,
            focus_entries: self.focus_entries@,
            focus_on_mount: self.focus_on_mount,
        }
    }

    /// An empty accumulator for a build of revision `current_revision`.
    pub fn for_revision(current_revision: u64) -> (acc: Self)
        ensures
            acc.current_revision == current_revision,
            acc.acc_view() == empty_acc_view::<C>(),
    {
        let acc = RegistryBuildAcc {
            current_revision,
            registry: Registry::new(),
            focused_id: None,
            focus_entries: Vec::new(),
            focus_on_mount: None,
        };
        assert(acc.acc_view().focus_entries =~= Seq::<FocusEntry>::empty());
        acc
    }

    /// Offers a focus-on-mount target: it replaces the current one only when
    /// mounted at a strictly later revision.
    pub fn merge_focus_on_mount(&mut self, candidate: Option<FocusOnMountTarget>)
        ensures
            final(self).focus_on_mount == spec_merge_focus_on_mount(old(self).focus_on_mount, candidate),
            final(self).current_revision == old(self).current_revision,
            final(self).focused_id == old(self).focused_id,
            final(self).focus_entries@ == old(self).focus_entries@,
            final(self).registry.storage() == old(self).registry.storage(),
    {
        merge_focus_on_mount(&mut self.focus_on_mount, candidate);
    }

    /// Appends the accumulator of a later subtree: its listeners above ours,
    /// its focus entries after ours; the first focused element found is
    /// kept; focus-on-mount targets merge.
    pub fn merge_acc(&mut self, acc: RegistryBuildAcc<C>)
        ensures
            final(self).current_revision == old(self).current_revision,
            final(self).acc_view() == spec_merge_acc(old(self).acc_view(), acc.acc_view()),
    {
        let ghost before = self.acc_view();
        let ghost other = acc.acc_view();
        let mut acc = acc;
        self.registry.extend_storage_from(acc.registry);
        if self.focused_id.is_none() {
            self.focused_id = acc.focused_id;
        }
        self.focus_entries.append(&mut acc.focus_entries);
        self.merge_focus_on_mount(acc.focus_on_mount);
        assert(self.acc_view().focus_entries =~= before.focus_entries + other.focus_entries);
    }
}

pub open spec fn empty_acc_view<C>() -> AccView<C> {
    AccView {
        storage: Seq::empty(),
        focused_id: None,
        focus_entries: Seq::empty(),
        focus_on_mount: None,
    }
}

/// The accumulation of `a` followed by `b`.
pub open spec fn spec_merge_acc<C>(a: AccView<C>, b: AccView<C>) -> AccView<C> {
    AccView {
        storage: a.storage + b.storage,
        focused_id: if a.focused_id is None {
            b.focused_id
        } else {
            a.focused_id
        },
        focus_entries: a.focus_entries + b.focus_entries,
        focus_on_mount: spec_merge_focus_on_mount(a.focus_on_mount, b.focus_on_mount),
    }
}

/// Subtree accumulators can be merged in any grouping: merging `b` into `a`
/// and then `c` gives what merging `a` with the merge of `b` and `c` gives.
/// A build may therefore reuse a cached subtree's merged accumulator.
pub proof fn law_merge_acc_is_associative<C>(a: AccView<C>, b: AccView<C>, c: AccView<C>)
    ensures
        spec_merge_acc(spec_merge_acc(a, b), c) == spec_merge_acc(a, spec_merge_acc(b, c)),
{
    assert((a.storage + b.storage) + c.storage =~= a.storage + (b.storage + c.storage));
    assert((a.focus_entries + b.focus_entries) + c.focus_entries =~= a.focus_entries + (b.focus_entries
        + c.focus_entries));
}

/// Merging an empty accumulator, on either side, changes nothing.
pub proof fn law_empty_acc_is_neutral<C>(a: AccView<C>)
    ensures
        spec_merge_acc(empty_acc_view(), a) == a,
        spec_merge_acc(a, empty_acc_view()) == a,
{
    assert(Seq::<Listener<C>>::empty() + a.storage =~= a.storage);
    assert(a.storage + Seq::<Listener<C>>::empty() =~= a.storage);
    assert(Seq::<FocusEntry>::empty() + a.focus_entries =~= a.focus_entries);
    assert(a.focus_entries + Seq::<FocusEntry>::empty() =~= a.focus_entries);
}

// ============================================================================
// Virtual keys
// ============================================================================

/// What tapping a virtual key sends.
#[derive(Debug, PartialEq)]
pub enum VirtualKeyTapAction {
    /// Commit text.
    Text(String),
    /// Press and release a key.
    Key { key: CanonicalKey, mods: u8 },
    /// Press a key, commit text, release the key.
    TextAndKey { text: String, key: CanonicalKey, mods: u8 },
}

/// The synthetic input a tap sends: a text commit without modifiers; a key
/// press then release; or a key press, a text commit with the key's
/// modifiers, then the release.
pub fn synthetic_input_sequence_for_virtual_key_tap(tap: &VirtualKeyTapAction) -> (events: Vec<
    InputSignal,
>)
    ensures
        match *tap {
            VirtualKeyTapAction::Text(text) => {
                &&& events@.len() == 1
                &&& events@[0] matches InputSignal::TextCommit { text: t, mods } && t@ == text@
                    && mods == 0
            },
            VirtualKeyTapAction::Key { key, mods } => events@ == seq![
                InputSignal::Key { key, action: ACTION_PRESS, mods },
                InputSignal::Key { key, action: ACTION_RELEASE, mods },
            ],
            VirtualKeyTapAction::TextAndKey { text, key, mods } => {
                &&& events@.len() == 3
                &&& events@[0] == InputSignal::Key { key, action: ACTION_PRESS, mods }
                &&& events@[1] matches InputSignal::TextCommit { text: t, mods: m } && t@ == text@
                    && m == mods
                &&& events@[2] == InputSignal::Key { key, action: ACTION_RELEASE, mods }
            },
        },
{
    match tap {
        VirtualKeyTapAction::Text(text) => {
            let mut events = Vec::new();
            events.push(InputSignal::TextCommit { text: text.clone(), mods: 0 });
            events
        },
        VirtualKeyTapAction::Key { key, mods } => {
            let mut events = Vec::new();
            events.push(InputSignal::Key { key: *key, action: ACTION_PRESS, mods: *mods });
            events.push(InputSignal::Key { key: *key, action: ACTION_RELEASE, mods: *mods });
            events
        },
        VirtualKeyTapAction::TextAndKey { text, key, mods } => {
            let mut events = Vec::new();
            events.push(InputSignal::Key { key: *key, action: ACTION_PRESS, mods: *mods });
            events.push(InputSignal::TextCommit { text: text.clone(), mods: *mods });
            events.push(InputSignal::Key { key: *key, action: ACTION_RELEASE, mods: *mods });
            events
        },
    }
}

/// The runtime-state changes that a listener can request. The trackers that
/// start an interaction carry what the tracker holds; payloads of pointer
/// positions, key-press followups, and text and slider values are left to
/// the runtime that applies them.
#[derive(Clone, Copy, Debug, PartialEq, Eq, Structural)]
pub enum RuntimeChange {
    StartClickPressTracker {
        element_id: NodeId,
        matcher_kind: ListenerMatcherKind,
        emit_click: bool,
        emit_press_pointer: bool,
        clear_mouse_down: bool,
    },
    StartVirtualKeyTracker { tracker: crate::events::runtime_listeners::VirtualKeyTracker },
    StartKeyPressTracker,
    StartDragTracker,
    PromoteDragTracker,
    StartTextDragTracker { element_id: NodeId, matcher_kind: ListenerMatcherKind },
    StartSliderDragTracker { element_id: NodeId, matcher_kind: ListenerMatcherKind },
    ClearDragTracker,
    UpdateDragTrackerPointer,
    ClearClickPressTracker,
    StartSwipeTracker,
    ClearSwipeTracker,
    CancelVirtualKeyTracker,
    ClearVirtualKeyTracker,
    ClearKeyPressTrackersForKey { key: CanonicalKey },
    ClearKeyPressTrackers,
    StartScrollbarDrag,
    UpdateScrollbarDragCurrentScroll,
    ClearScrollbarDrag,
    ClearTextDragTracker,
    ClearSliderDragTracker,
    SetSliderState { element_id: NodeId },
    SetTextInputState { element_id: NodeId },
    ArmTextCommitSuppression { key: CanonicalKey },
    ExpectTextInputPatchValue { element_id: NodeId },
    ExpectSliderPatchValue { element_id: NodeId },
    SetHoverStack,
}

/// The changes that alter the runtime listeners layered over the base
/// registry: starting, promoting, updating or clearing a tracker.
pub open spec fn spec_requires_registry_recompose(change: RuntimeChange) -> bool {
    !(change is SetSliderState || change is SetTextInputState || change is ArmTextCommitSuppression
        || change is ExpectTextInputPatchValue || change is ExpectSliderPatchValue
        || change is SetHoverStack)
}

impl RuntimeChange {
    /// Whether applying this change means the combined registry must be
    /// composed again.
    pub fn requires_registry_recompose(&self) -> (recompose: bool)
        ensures
            recompose == spec_requires_registry_recompose(*self),
    {
        match self {
            RuntimeChange::SetSliderState { .. }
            | RuntimeChange::SetTextInputState { .. }
            | RuntimeChange::ArmTextCommitSuppression { .. }
            | RuntimeChange::ExpectTextInputPatchValue { .. }
            | RuntimeChange::ExpectSliderPatchValue { .. }
            | RuntimeChange::SetHoverStack => false,
            _ => true,
        }
    }
}


/// In All mode a key binding fires exactly when every required modifier is
/// held: a required modifier that is not held means no match, and holding
/// more modifiers than required does not matter. A key-down binding in All
/// mode thus fires on a press of its key exactly then.
pub proof fn law_all_mode_needs_every_required_modifier(
    actual: u8,
    required: u8,
    bit: u8,
    key: CanonicalKey,
)
    ensures
        required & bit != 0 && actual & bit == 0 ==> !spec_key_modifiers_match(
            actual,
            required,
            KeyBindingMatch::All,
        ),
        spec_key_modifiers_match(actual, required, KeyBindingMatch::All) <==> (actual | required) == actual,
        spec_matches(
            ListenerMatcher::KeyDownBinding { key, mods: required, match_mode: KeyBindingMatch::All },
            InputSignal::Key { key, action: ACTION_PRESS, mods: actual },
        ) <==> (actual | required) == actual,
{
    let m = spec_key_modifiers_match(actual, required, KeyBindingMatch::All);
    assert(m == (actual & required == required));
    assert(required & bit != 0 && actual & bit == 0 ==> !(actual & required == required)) by (bit_vector);
    assert((actual & required == required) == ((actual | required) == actual)) by (bit_vector);
}


/// In Exact mode a key binding fires only on exactly its modifiers: any
/// extra or missing modifier means no match.
pub proof fn law_exact_mode_needs_exactly_the_modifiers(actual: u8, required: u8)
    ensures
        spec_key_modifiers_match(required, required, KeyBindingMatch::Exact),
        actual != required ==> !spec_key_modifiers_match(actual, required, KeyBindingMatch::Exact),
{
}

} // verus!
