use vstd::prelude::*;
use vstd::string::*;

use crate::text::push_char;

verus! {

/// Canonical, layout-independent key identity shared by backends.
#[derive(Clone, Copy, Debug, PartialEq, Eq, Structural)]
pub enum CanonicalKey {
    A, B, C, D, E, F, G, H, I, J, K, L, M, N, O, P, Q, R, S, T, U, V, W, X, Y, Z,
    Digit0, Digit1, Digit2, Digit3, Digit4, Digit5, Digit6, Digit7, Digit8, Digit9,
    Space, Enter, Tab, Escape, Backspace, Delete, Insert, Home, End, PageUp, PageDown,
    ArrowLeft, ArrowRight, ArrowUp, ArrowDown,
    Shift, Control, Alt, AltGraph, Super, CapsLock, NumLock, ScrollLock, PrintScreen, Pause,
    ContextMenu,
    F1, F2, F3, F4, F5, F6, F7, F8, F9, F10, F11, F12,
    F13, F14, F15, F16, F17, F18, F19, F20, F21, F22, F23, F24,
    Apostrophe, Asterisk, Backslash, Comma, Equal, Grave, LeftBracket, Minus, Period, Plus,
    RightBracket, Semicolon, Slash,
}

pub open spec fn is_ascii_upper(c: char) -> bool {
    65 <= (c as u32) && (c as u32) <= 90
}

/// The lower-case letter of an upper-case ASCII letter.
pub open spec fn ascii_lower(c: char) -> char {
    (((c as u32) + 32) as u8) as char
}

/// A variant name in snake case: each upper-case ASCII letter becomes lower
/// case, preceded by `_` unless it is the first character.
pub open spec fn snake_case(name: Seq<char>) -> Seq<char>
    decreases name.len(),
{
    if name.len() == 0 {
        Seq::empty()
    } else {
        let before = snake_case(name.drop_last());
        let c = name.last();
        if is_ascii_upper(c) {
            (if name.len() > 1 {
                before.push('_')
            } else {
                before
            }).push(ascii_lower(c))
        } else {
            before.push(c)
        }
    }
}

/// The atom name of a key from its variant name (`PageUp` is `page_up`).
pub fn key_atom_name(variant: &str) -> (name: String)
    ensures
        name@ == snake_case(variant@),
{
    let n = variant.unicode_len();
    let mut name = String::new();
    let mut i: usize = 0;
    while i < n
        invariant
            n == variant@.len(),
            i <= n,
            name@ == snake_case(variant@.take(i as int)),
        decreases n - i,
    {
        let c = variant.get_char(i);
        assert(variant@.take(i + 1).drop_last() =~= variant@.take(i as int));
        assert(variant@.take(i + 1).last() == c);
        let code = c as u32;
        if 65 <= code && code <= 90 {
            if i > 0 {
                push_char(&mut name, '_');
            }
            push_char(&mut name, ((code + 32) as u8) as char);
        } else {
            push_char(&mut name, c);
        }
        i = i + 1;
    }
    assert(variant@.take(n as int) =~= variant@);
    name
}

} // verus!
