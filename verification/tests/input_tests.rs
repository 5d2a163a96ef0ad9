use emerge_skia::input::{modifier_names, ModifierName};
use emerge_skia::input::keyboard;
use emerge_skia::input::pointer;
use emerge_skia::input::{
    InputHandler, InputSignal, ACTION_PRESS, ACTION_RELEASE, INPUT_MASK_ALL, INPUT_MASK_KEY,
    INPUT_MASK_RESIZE, MOD_ALT, MOD_CTRL, MOD_META, MOD_SHIFT,
};
use emerge_skia::keys::CanonicalKey;

#[test]
fn keyboard_helpers_pack_modifiers_and_filter_text() {
    assert_eq!(
        keyboard::modifier_bits(true, true, false, true),
        MOD_SHIFT | MOD_CTRL | MOD_META
    );
    assert_eq!(
        keyboard::normalize_commit_text("a\u{7f}\nb"),
        Some("a\nb".to_string())
    );
    assert_eq!(keyboard::normalize_commit_text("\u{7f}"), None);
}

#[test]
fn keyboard_text_commit_suppression_matches_shortcut_and_named_key_rules() {
    assert_eq!(
        keyboard::text_commit_from_key_and_text(CanonicalKey::A, 0, "a"),
        Some("a".to_string())
    );
    assert_eq!(
        keyboard::text_commit_from_key_and_text(CanonicalKey::A, MOD_CTRL, "a"),
        None
    );
    assert_eq!(
        keyboard::text_commit_from_key_and_text(CanonicalKey::ArrowLeft, 0, "\u{f702}"),
        None
    );
    assert!(keyboard::suppress_text_commit_for_key(CanonicalKey::F24));
}

#[test]
fn pointer_button_labels_are_canonical() {
    assert_eq!(pointer::canonical_button_label("left"), "left");
    assert_eq!(pointer::canonical_button_label("right"), "right");
    assert_eq!(pointer::canonical_button_label("middle"), "middle");
    assert_eq!(pointer::canonical_button_label("back"), "back");
    assert_eq!(pointer::canonical_button_label("forward"), "forward");
    assert_eq!(pointer::canonical_button_label("unknown"), "other");
    assert_eq!(pointer::canonical_button_label("Left"), "other");
    assert_eq!(pointer::canonical_button_label(""), "other");
}

#[test]
fn pointer_button_event_carries_canonical_label_and_action() {
    assert_eq!(
        pointer::cursor_button_event("forward", true, MOD_META),
        InputSignal::CursorButton {
            button: "forward".to_string(),
            action: ACTION_PRESS,
            mods: MOD_META,
        }
    );
    assert_eq!(
        pointer::cursor_button_event("wheel", false, 0),
        InputSignal::CursorButton {
            button: "other".to_string(),
            action: ACTION_RELEASE,
            mods: 0,
        }
    );
}

#[test]
fn modifier_bits_each_flag() {
    assert_eq!(keyboard::modifier_bits(false, false, false, false), 0);
    assert_eq!(keyboard::modifier_bits(true, false, false, false), MOD_SHIFT);
    assert_eq!(keyboard::modifier_bits(false, true, false, false), MOD_CTRL);
    assert_eq!(keyboard::modifier_bits(false, false, true, false), MOD_ALT);
    assert_eq!(keyboard::modifier_bits(false, false, false, true), MOD_META);
    assert_eq!(keyboard::modifier_bits(true, true, true, true), 0x0f);
}

#[test]
fn commit_text_keeps_tab_and_carriage_return_and_drops_c1_controls() {
    assert_eq!(
        keyboard::normalize_commit_text("a\tb\rc\u{1b}d\u{85}e\u{a0}"),
        Some("a\tb\rcde\u{a0}".to_string())
    );
    assert_eq!(keyboard::normalize_commit_text(""), None);
    assert_eq!(keyboard::normalize_commit_text("\u{0}\u{9f}"), None);
}

#[test]
fn text_commit_meta_and_alt_rules() {
    assert_eq!(
        keyboard::text_commit_from_key_and_text(CanonicalKey::A, MOD_META, "a"),
        None
    );
    assert_eq!(
        keyboard::text_commit_from_key_and_text(CanonicalKey::A, MOD_ALT | MOD_SHIFT, "å"),
        Some("å".to_string())
    );
    assert_eq!(
        keyboard::text_commit_from_key_and_text(CanonicalKey::Space, 0, " "),
        Some(" ".to_string())
    );
    assert!(!keyboard::suppress_text_commit_for_key(CanonicalKey::Enter));
    assert!(keyboard::suppress_text_commit_for_key(CanonicalKey::Escape));
}

#[test]
fn input_handler_filters_by_mask() {
    let mut handler = InputHandler::new();
    assert_eq!(handler.mask(), INPUT_MASK_ALL);
    let key = InputSignal::Key {
        key: CanonicalKey::A,
        action: ACTION_PRESS,
        mods: 0,
    };
    let resize = InputSignal::Resized {
        width: 800,
        height: 600,
    };
    assert!(handler.accepts(&key));
    assert!(handler.accepts(&resize));
    handler.set_mask(INPUT_MASK_KEY);
    assert!(handler.accepts(&key));
    assert!(!handler.accepts(&resize));
    assert!(!handler.accepts(&InputSignal::TextPreeditClear));
    handler.set_mask(INPUT_MASK_RESIZE);
    assert!(!handler.accepts(&key));
    assert!(handler.accepts(&resize));
    handler.set_mask(0);
    assert!(!handler.accepts(&InputSignal::CursorPos));
    let default_handler = InputHandler::default();
    assert!(default_handler.accepts(&InputSignal::Focused { focused: true }));
}

#[test]
fn event_masks_per_kind() {
    assert_eq!(InputSignal::CursorPos.event_mask(), 0x04);
    assert_eq!(InputSignal::CursorScrollLines.event_mask(), 0x10);
    assert_eq!(
        InputSignal::DeleteSurrounding {
            before_length: 1,
            after_length: 2
        }
        .event_mask(),
        0x02
    );
    assert_eq!(InputSignal::CursorEntered { entered: false }.event_mask(), 0x20);
    assert_eq!(InputSignal::Focused { focused: false }.event_mask(), 0x80);
}

#[test]
fn modifier_names_follow_bit_order() {
    assert_eq!(modifier_names(0), Vec::<ModifierName>::new());
    assert_eq!(
        modifier_names(MOD_META | MOD_SHIFT),
        vec![ModifierName::Shift, ModifierName::Meta]
    );
    assert_eq!(
        modifier_names(MOD_SHIFT | MOD_CTRL | MOD_ALT | MOD_META),
        vec![
            ModifierName::Shift,
            ModifierName::Ctrl,
            ModifierName::Alt,
            ModifierName::Meta
        ]
    );
}

#[test]
fn pointer_button_helper_normalizes_labels_and_actions() {
    assert_eq!(pointer::canonical_button_label("left"), "left");
    assert_eq!(pointer::canonical_button_label("back"), "back");
    assert_eq!(pointer::canonical_button_label("unknown"), "other");

    assert_eq!(
        pointer::cursor_button_event("forward", true, MOD_META),
        InputSignal::CursorButton {
            button: "forward".to_string(),
            action: ACTION_PRESS,
            mods: MOD_META,
        }
    );
}

#[test]
fn key_atom_names_are_snake_case_variant_names() {
    assert_eq!(emerge_skia::keys::key_atom_name("PageUp"), "page_up");
    assert_eq!(emerge_skia::keys::key_atom_name("A"), "a");
    assert_eq!(emerge_skia::keys::key_atom_name("Digit0"), "digit0");
    assert_eq!(emerge_skia::keys::key_atom_name("F12"), "f12");
    assert_eq!(emerge_skia::keys::key_atom_name("ArrowLeft"), "arrow_left");
    assert_eq!(emerge_skia::keys::key_atom_name(""), "");
}
