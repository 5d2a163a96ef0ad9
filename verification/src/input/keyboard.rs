//! Keyboard normalization shared by the platform backends.
use vstd::prelude::*;

use crate::input::{MOD_ALT, MOD_CTRL, MOD_META, MOD_SHIFT};
use crate::keys::CanonicalKey;
use crate::text::{commit_chars, filter_commit_chars};

verus! {

/// The modifier bit set with `MOD_SHIFT`, `MOD_CTRL`, `MOD_ALT` and
/// `MOD_META` set exactly for the flags that are true.
pub open spec fn spec_modifier_bits(shift: bool, ctrl: bool, alt: bool, meta: bool) -> u8 {
    ((if shift { MOD_SHIFT } else { 0u8 }) | (if ctrl { MOD_CTRL } else { 0u8 }) | (if alt {
        MOD_ALT
    } else {
        0u8
    }) | (if meta { MOD_META } else { 0u8 })) as u8
}

pub fn modifier_bits(shift: bool, ctrl: bool, alt: bool, meta: bool) -> (mods: u8)
    ensures
        mods == spec_modifier_bits(shift, ctrl, alt, meta),
        (mods & MOD_SHIFT != 0) == shift,
        (mods & MOD_CTRL != 0) == ctrl,
        (mods & MOD_ALT != 0) == alt,
        (mods & MOD_META != 0) == meta,
        mods & 0xf0 == 0,
{
    let ghost s: u8 = if shift { 1 } else { 0 };
    let ghost c: u8 = if ctrl { 2 } else { 0 };
    let ghost a: u8 = if alt { 4 } else { 0 };
    let ghost m: u8 = if meta { 8 } else { 0 };
    assert(forall|x: u8| #[trigger] (x | 0u8) == x) by (bit_vector);
    assert(forall|x: u8| #[trigger] (0u8 | x) == x) by (bit_vector);
    let mut mods: u8 = 0;
    if shift {
        mods = mods | MOD_SHIFT;
    }
    assert(mods == s);
    if ctrl {
        mods = mods | MOD_CTRL;
    }
    assert(mods == (s | c));
    if alt {
        mods = mods | MOD_ALT;
    }
    assert(mods == (s | c | a));
    if meta {
        mods = mods | MOD_META;
    }
    assert(mods == (s | c | a | m));
    assert((s == 0 || s == 1) && (c == 0 || c == 2) && (a == 0 || a == 4) && (m == 0 || m == 8)
        ==> (((s | c | a | m) & 1 != 0) == (s == 1) && ((s | c | a | m) & 2 != 0) == (c == 2)
        && ((s | c | a | m) & 4 != 0) == (a == 4) && ((s | c | a | m) & 8 != 0) == (m == 8)
        && (s | c | a | m) & 0xf0 == 0)) by (bit_vector);
    mods
}

/// Committed text with control characters removed (newline, carriage return
/// and tab kept), or nothing when no character is left.
pub open spec fn spec_normalize_commit_text(text: Seq<char>) -> Option<Seq<char>> {
    if commit_chars(text).len() == 0 {
        None
    } else {
        Some(commit_chars(text))
    }
}

pub fn normalize_commit_text(text: &str) -> (normalized: Option<String>)
    ensures
        normalized is Some == spec_normalize_commit_text(text@) is Some,
        normalized matches Some(s) ==> Some(s@) == spec_normalize_commit_text(text@),
{
    let filtered = filter_commit_chars(text);
    if filtered.unicode_len() == 0 {
        None
    } else {
        Some(filtered)
    }
}

/// The named keys whose key-down text is not committed: navigation,
/// editing, modifier, lock and function keys.
pub open spec fn spec_suppress_text_commit_for_key(key: CanonicalKey) -> bool {
    match key {
        CanonicalKey::Escape | CanonicalKey::Backspace | CanonicalKey::Delete
        | CanonicalKey::Insert | CanonicalKey::Home | CanonicalKey::End | CanonicalKey::PageUp
        | CanonicalKey::PageDown | CanonicalKey::ArrowLeft | CanonicalKey::ArrowRight
        | CanonicalKey::ArrowUp | CanonicalKey::ArrowDown | CanonicalKey::Shift
        | CanonicalKey::Control | CanonicalKey::Alt | CanonicalKey::AltGraph | CanonicalKey::Super
        | CanonicalKey::CapsLock | CanonicalKey::NumLock | CanonicalKey::ScrollLock
        | CanonicalKey::PrintScreen | CanonicalKey::Pause | CanonicalKey::ContextMenu
        | CanonicalKey::F1 | CanonicalKey::F2 | CanonicalKey::F3 | CanonicalKey::F4
        | CanonicalKey::F5 | CanonicalKey::F6 | CanonicalKey::F7 | CanonicalKey::F8
        | CanonicalKey::F9 | CanonicalKey::F10 | CanonicalKey::F11 | CanonicalKey::F12
        | CanonicalKey::F13 | CanonicalKey::F14 | CanonicalKey::F15 | CanonicalKey::F16
        | CanonicalKey::F17 | CanonicalKey::F18 | CanonicalKey::F19 | CanonicalKey::F20
        | CanonicalKey::F21 | CanonicalKey::F22 | CanonicalKey::F23 | CanonicalKey::F24 => true,
        _ => false,
    }
}

pub fn suppress_text_commit_for_key(key: CanonicalKey) -> (suppress: bool)
    ensures
        suppress == spec_suppress_text_commit_for_key(key),
{
    match key {
        CanonicalKey::Escape | CanonicalKey::Backspace | CanonicalKey::Delete
        | CanonicalKey::Insert | CanonicalKey::Home | CanonicalKey::End | CanonicalKey::PageUp
        | CanonicalKey::PageDown | CanonicalKey::ArrowLeft | CanonicalKey::ArrowRight
        | CanonicalKey::ArrowUp | CanonicalKey::ArrowDown | CanonicalKey::Shift
        | CanonicalKey::Control | CanonicalKey::Alt | CanonicalKey::AltGraph | CanonicalKey::Super
        | CanonicalKey::CapsLock | CanonicalKey::NumLock | CanonicalKey::ScrollLock
        | CanonicalKey::PrintScreen | CanonicalKey::Pause | CanonicalKey::ContextMenu
        | CanonicalKey::F1 | CanonicalKey::F2 | CanonicalKey::F3 | CanonicalKey::F4
        | CanonicalKey::F5 | CanonicalKey::F6 | CanonicalKey::F7 | CanonicalKey::F8
        | CanonicalKey::F9 | CanonicalKey::F10 | CanonicalKey::F11 | CanonicalKey::F12
        | CanonicalKey::F13 | CanonicalKey::F14 | CanonicalKey::F15 | CanonicalKey::F16
        | CanonicalKey::F17 | CanonicalKey::F18 | CanonicalKey::F19 | CanonicalKey::F20
        | CanonicalKey::F21 | CanonicalKey::F22 | CanonicalKey::F23 | CanonicalKey::F24 => true,
        _ => false,
    }
}

/// Text a key-down commits: nothing under Ctrl or Meta or for a suppressed
/// key, otherwise the normalized text.
pub open spec fn spec_text_commit_from_key_and_text(
    key: CanonicalKey,
    mods: u8,
    text: Seq<char>,
) -> Option<Seq<char>> {
    if mods & (MOD_CTRL | MOD_META) != 0 || spec_suppress_text_commit_for_key(key) {
        None
    } else {
        spec_normalize_commit_text(text)
    }
}

pub fn text_commit_from_key_and_text(key: CanonicalKey, mods: u8, text: &str) -> (commit: Option<
    String,
>)
    ensures
        commit is Some == spec_text_commit_from_key_and_text(key, mods, text@) is Some,
        commit matches Some(s) ==> Some(s@) == spec_text_commit_from_key_and_text(key, mods, text@),
{
    if mods & (MOD_CTRL | MOD_META) != 0 || suppress_text_commit_for_key(key) {
        return None;
    }
    normalize_commit_text(text)
}


/// Keys that move the cursor.
pub open spec fn is_navigation_key(key: CanonicalKey) -> bool {
    key == CanonicalKey::ArrowLeft || key == CanonicalKey::ArrowRight || key == CanonicalKey::ArrowUp || key
        == CanonicalKey::ArrowDown || key == CanonicalKey::Home || key == CanonicalKey::End || key
        == CanonicalKey::PageUp || key == CanonicalKey::PageDown
}

/// Keys that edit or cancel.
pub open spec fn is_editing_key(key: CanonicalKey) -> bool {
    key == CanonicalKey::Escape || key == CanonicalKey::Backspace || key == CanonicalKey::Delete || key
        == CanonicalKey::Insert
}

/// Modifier, lock and system keys.
pub open spec fn is_modifier_lock_or_system_key(key: CanonicalKey) -> bool {
    key == CanonicalKey::Shift || key == CanonicalKey::Control || key == CanonicalKey::Alt || key
        == CanonicalKey::AltGraph || key == CanonicalKey::Super || key == CanonicalKey::CapsLock || key
        == CanonicalKey::NumLock || key == CanonicalKey::ScrollLock || key == CanonicalKey::PrintScreen
        || key == CanonicalKey::Pause || key == CanonicalKey::ContextMenu
}

/// The function keys F1 to F24.
pub open spec fn is_function_key(key: CanonicalKey) -> bool {
    key == CanonicalKey::F1 || key == CanonicalKey::F2 || key == CanonicalKey::F3 || key == CanonicalKey::F4
        || key == CanonicalKey::F5 || key == CanonicalKey::F6 || key == CanonicalKey::F7 || key
        == CanonicalKey::F8 || key == CanonicalKey::F9 || key == CanonicalKey::F10 || key
        == CanonicalKey::F11 || key == CanonicalKey::F12 || key == CanonicalKey::F13 || key
        == CanonicalKey::F14 || key == CanonicalKey::F15 || key == CanonicalKey::F16 || key
        == CanonicalKey::F17 || key == CanonicalKey::F18 || key == CanonicalKey::F19 || key
        == CanonicalKey::F20 || key == CanonicalKey::F21 || key == CanonicalKey::F22 || key
        == CanonicalKey::F23 || key == CanonicalKey::F24
}

/// A key-down of a navigation, editing, modifier, lock, system or function
/// key commits no text, whatever text it carries; a key-down of any other
/// key without Ctrl or Meta commits its normalized text.
pub proof fn law_named_keys_commit_no_text(key: CanonicalKey, mods: u8, text: Seq<char>)
    ensures
        is_navigation_key(key) || is_editing_key(key) || is_modifier_lock_or_system_key(key)
            || is_function_key(key) ==> spec_text_commit_from_key_and_text(key, mods, text) is None,
        !(is_navigation_key(key) || is_editing_key(key) || is_modifier_lock_or_system_key(key)
            || is_function_key(key)) && mods & (MOD_CTRL | MOD_META) == 0 ==> spec_text_commit_from_key_and_text(
            key,
            mods,
            text,
        ) == spec_normalize_commit_text(text),
{
}

} // verus!
