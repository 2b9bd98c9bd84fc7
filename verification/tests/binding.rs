use cinny_ptt::binding::{key_binding, mouse_binding, parse_binding, PttTrigger};
use cinny_ptt::keys::{
    is_modifier_key, monio_key_to_string, string_to_monio_key, Button, Key,
};
use cinny_ptt::modifiers::{mask_from_prefix, modifier_mask, modifier_prefix_from_mask};
use cinny_ptt::mouse::{mouse_button_to_string, string_to_monio_button};

#[test]
fn plain_key_binding() {
    assert_eq!(
        parse_binding("key:Space"),
        Some(PttTrigger::Key { key: Key::Space, modifiers: 0 })
    );
}

#[test]
fn key_binding_with_modifiers() {
    assert_eq!(
        parse_binding("key:Shift+Ctrl+KeyA"),
        Some(PttTrigger::Key { key: Key::KeyA, modifiers: 3 })
    );
    assert_eq!(
        parse_binding("key:Meta+Alt+F12"),
        Some(PttTrigger::Key { key: Key::F12, modifiers: 12 })
    );
}

#[test]
fn unknown_prefix_words_are_ignored() {
    assert_eq!(
        parse_binding("key:Hyper+Alt+Num7"),
        Some(PttTrigger::Key { key: Key::Num7, modifiers: 4 })
    );
    assert_eq!(
        parse_binding("key:+Space"),
        Some(PttTrigger::Key { key: Key::Space, modifiers: 0 })
    );
}

#[test]
fn malformed_key_bindings() {
    assert_eq!(parse_binding("key:Space+"), None);
    assert_eq!(parse_binding("key:"), None);
    assert_eq!(parse_binding("key:space"), None);
    assert_eq!(parse_binding("key:F13"), None);
    assert_eq!(parse_binding("key:Insert"), None);
    assert_eq!(parse_binding("Space"), None);
    assert_eq!(parse_binding(""), None);
    assert_eq!(parse_binding("KEY:Space"), None);
}

#[test]
fn mouse_bindings() {
    assert_eq!(parse_binding("mouse:Left"), Some(PttTrigger::Mouse(Button::Left)));
    assert_eq!(parse_binding("mouse:Button5"), Some(PttTrigger::Mouse(Button::Button5)));
    assert_eq!(parse_binding("mouse:x9"), Some(PttTrigger::Mouse(Button::Unknown(9))));
    assert_eq!(parse_binding("mouse:x+9"), Some(PttTrigger::Mouse(Button::Unknown(9))));
    assert_eq!(parse_binding("mouse:x009"), Some(PttTrigger::Mouse(Button::Unknown(9))));
    assert_eq!(parse_binding("mouse:x255"), Some(PttTrigger::Mouse(Button::Unknown(255))));
    assert_eq!(parse_binding("mouse:x256"), None);
    assert_eq!(parse_binding("mouse:x"), None);
    assert_eq!(parse_binding("mouse:x-1"), None);
    assert_eq!(parse_binding("mouse:left"), None);
    assert_eq!(parse_binding("mouse:"), None);
}

#[test]
fn button_numbers_read_like_std() {
    let samples = [
        "", "+", "-", "0", "7", "+7", "-7", "007", "255", "256", "1000", "25a", " 5", "5 ",
        "++5", "99999999999999999999", "+0", "٣",
    ];
    for s in samples {
        let name = format!("x{}", s);
        let expected = s.parse::<u8>().ok().map(Button::Unknown);
        assert_eq!(string_to_monio_button(&name), expected, "for {:?}", name);
    }
}

#[test]
fn key_names() {
    assert_eq!(monio_key_to_string(Key::KeyA), "KeyA");
    assert_eq!(monio_key_to_string(Key::F13), "F13");
    assert_eq!(monio_key_to_string(Key::BracketRight), "BracketRight");
    assert_eq!(monio_key_to_string(Key::Unknown(42)), "Unknown(42)");
    assert_eq!(monio_key_to_string(Key::Unknown(0)), "Unknown(0)");
    assert_eq!(monio_key_to_string(Key::Unknown(4294967295)), "Unknown(4294967295)");
}

#[test]
fn key_lookup() {
    assert_eq!(string_to_monio_key("ArrowLeft"), Some(Key::ArrowLeft));
    assert_eq!(string_to_monio_key("MetaRight"), Some(Key::MetaRight));
    assert_eq!(string_to_monio_key("Grave"), Some(Key::Grave));
    assert_eq!(string_to_monio_key("NumLock"), None);
    assert_eq!(string_to_monio_key("Unknown(3)"), None);
    assert_eq!(string_to_monio_key(""), None);
}

#[test]
fn button_names() {
    assert_eq!(mouse_button_to_string(Button::Middle), "Middle");
    assert_eq!(mouse_button_to_string(Button::Unknown(7)), "x7");
    assert_eq!(mouse_button_to_string(Button::Unknown(200)), "x200");
    assert_eq!(string_to_monio_button("Right"), Some(Button::Right));
}

#[test]
fn modifier_prefixes() {
    assert_eq!(modifier_prefix_from_mask(0), "");
    assert_eq!(modifier_prefix_from_mask(15), "Shift+Ctrl+Alt+Meta+");
    assert_eq!(modifier_prefix_from_mask(1 | 8 | 16 | 256), "Shift+Meta+");
    assert_eq!(mask_from_prefix("Shift+Meta+"), 9);
    assert_eq!(mask_from_prefix("Ctrl+ctrl+"), 2);
    assert_eq!(mask_from_prefix(""), 0);
    assert_eq!(mask_from_prefix("Alt"), 4);
    assert_eq!(mask_from_prefix("Alt+Alt+"), 4);
    assert_eq!(modifier_mask(0xffff_ffff), 15);
    assert_eq!(modifier_mask(16 | 32 | 256), 0);
}

#[test]
fn modifier_keys() {
    assert!(is_modifier_key(Key::ShiftLeft));
    assert!(is_modifier_key(Key::MetaRight));
    assert!(!is_modifier_key(Key::CapsLock));
    assert!(!is_modifier_key(Key::Unknown(50)));
}

#[test]
fn captured_bindings_read_back() {
    let b = key_binding(Key::KeyT, 2 | 4 | 32);
    assert_eq!(b, "key:Ctrl+Alt+KeyT");
    assert_eq!(parse_binding(&b), Some(PttTrigger::Key { key: Key::KeyT, modifiers: 6 }));
    let m = mouse_binding(Button::Unknown(12));
    assert_eq!(m, "mouse:x12");
    assert_eq!(parse_binding(&m), Some(PttTrigger::Mouse(Button::Unknown(12))));
    for mask in 0u32..16 {
        let b = key_binding(Key::Slash, mask);
        assert_eq!(parse_binding(&b), Some(PttTrigger::Key { key: Key::Slash, modifiers: mask }));
    }
}

#[test]
fn unbindable_key_capture_is_refused() {
    let b = key_binding(Key::F13, 1);
    assert_eq!(b, "key:Shift+F13");
    assert_eq!(parse_binding(&b), None);
}

#[test]
fn every_bindable_name_reads_back() {
    let names = [
        "Space",
        "Tab",
        "Enter",
        "Escape",
        "Backspace",
        "Delete",
        "Home",
        "End",
        "PageUp",
        "PageDown",
        "ArrowUp",
        "ArrowDown",
        "ArrowLeft",
        "ArrowRight",
        "CapsLock",
        "F1",
        "F2",
        "F3",
        "F4",
        "F5",
        "F6",
        "F7",
        "F8",
        "F9",
        "F10",
        "F11",
        "F12",
        "KeyA",
        "KeyB",
        "KeyC",
        "KeyD",
        "KeyE",
        "KeyF",
        "KeyG",
        "KeyH",
        "KeyI",
        "KeyJ",
        "KeyK",
        "KeyL",
        "KeyM",
        "KeyN",
        "KeyO",
        "KeyP",
        "KeyQ",
        "KeyR",
        "KeyS",
        "KeyT",
        "KeyU",
        "KeyV",
        "KeyW",
        "KeyX",
        "KeyY",
        "KeyZ",
        "Num0",
        "Num1",
        "Num2",
        "Num3",
        "Num4",
        "Num5",
        "Num6",
        "Num7",
        "Num8",
        "Num9",
        "Minus",
        "Equal",
        "BracketLeft",
        "BracketRight",
        "Backslash",
        "Semicolon",
        "Quote",
        "Comma",
        "Period",
        "Slash",
        "Grave",
        "ShiftLeft",
        "ShiftRight",
        "ControlLeft",
        "ControlRight",
        "AltLeft",
        "AltRight",
        "MetaLeft",
        "MetaRight",
    ];
    for name in names {
        let key = string_to_monio_key(name).unwrap();
        assert_eq!(monio_key_to_string(key), name);
        let binding = format!("key:Alt+{}", name);
        assert_eq!(parse_binding(&binding), Some(PttTrigger::Key { key, modifiers: 4 }));
    }
}
