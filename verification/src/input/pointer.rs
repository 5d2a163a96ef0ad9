//! Pointer normalization shared by the platform backends.
use vstd::prelude::*;

use vstd::string::*;

use crate::input::{InputSignal, ACTION_PRESS, ACTION_RELEASE};

verus! {

pub const BUTTON_LEFT: &'static str = "left";

pub const BUTTON_RIGHT: &'static str = "right";

pub const BUTTON_MIDDLE: &'static str = "middle";

pub const BUTTON_BACK: &'static str = "back";

pub const BUTTON_FORWARD: &'static str = "forward";

pub const BUTTON_OTHER: &'static str = "other";

/// Equality of two string slices: same length and the same character at
/// every position.
pub(crate) fn str_equals(a: &str, b: &str) -> (equal: bool)
    ensures
        equal == (a@ == b@),
{
    let n = a.unicode_len();
    if n != b.unicode_len() {
        return false;
    }
    let mut i: usize = 0;
    while i < n
        invariant
            n == a@.len(),
            n == b@.len(),
            i <= n,
            forall|j: int| 0 <= j < i ==> a@[j] == b@[j],
        decreases n - i,
    {
        if a.get_char(i) != b.get_char(i) {
            return false;
        }
        i = i + 1;
    }
    assert(a@ =~= b@);
    true
}

/// The label a backend reports for a button: one of the five known labels,
/// or `"other"` for anything else.
pub open spec fn spec_canonical_button_label(label: Seq<char>) -> Seq<char> {
    if label == "left"@ {
        "left"@
    } else if label == "right"@ {
        "right"@
    } else if label == "middle"@ {
        "middle"@
    } else if label == "back"@ {
        "back"@
    } else if label == "forward"@ {
        "forward"@
    } else {
        "other"@
    }
}

pub fn canonical_button_label(label: &str) -> (canonical: &'static str)
    ensures
        canonical@ == spec_canonical_button_label(label@),
{
    if str_equals(label, "left") {
        "left"
    } else if str_equals(label, "right") {
        "right"
    } else if str_equals(label, "middle") {
        "middle"
    } else if str_equals(label, "back") {
        "back"
    } else if str_equals(label, "forward") {
        "forward"
    } else {
        "other"
    }
}

/// A button event for a press or release of `button`, its label made
/// canonical.
pub fn cursor_button_event(button: &str, pressed: bool, mods: u8) -> (event: InputSignal)
    ensures
        event matches InputSignal::CursorButton { button: b, action, mods: m } && b@
            == spec_canonical_button_label(button@) && action == (if pressed {
            ACTION_PRESS
        } else {
            ACTION_RELEASE
        }) && m == mods,
{
    let label = canonical_button_label(button);
    InputSignal::CursorButton {
        button: String::from_str(label),
        action: if pressed {
            ACTION_PRESS
        } else {
            ACTION_RELEASE
        },
        mods,
    }
}

} // verus!
