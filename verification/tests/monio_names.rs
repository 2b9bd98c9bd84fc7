use cinny_ptt::keys::{monio_key_to_string, Key};
use cinny_ptt::mouse::mouse_button_to_string;
use cinny_ptt::keys::Button;

#[test]
fn key_names_match_monio_debug_names() {
    let pairs: Vec<(monio::Key, Key)> = vec![
        (monio::Key::KeyA, Key::KeyA),
        (monio::Key::KeyB, Key::KeyB),
        (monio::Key::KeyC, Key::KeyC),
        (monio::Key::KeyD, Key::KeyD),
        (monio::Key::KeyE, Key::KeyE),
        (monio::Key::KeyF, Key::KeyF),
        (monio::Key::KeyG, Key::KeyG),
        (monio::Key::KeyH, Key::KeyH),
        (monio::Key::KeyI, Key::KeyI),
        (monio::Key::KeyJ, Key::KeyJ),
        (monio::Key::KeyK, Key::KeyK),
        (monio::Key::KeyL, Key::KeyL),
        (monio::Key::KeyM, Key::KeyM),
        (monio::Key::KeyN, Key::KeyN),
        (monio::Key::KeyO, Key::KeyO),
        (monio::Key::KeyP, Key::KeyP),
        (monio::Key::KeyQ, Key::KeyQ),
        (monio::Key::KeyR, Key::KeyR),
        (monio::Key::KeyS, Key::KeyS),
        (monio::Key::KeyT, Key::KeyT),
        (monio::Key::KeyU, Key::KeyU),
        (monio::Key::KeyV, Key::KeyV),
        (monio::Key::KeyW, Key::KeyW),
        (monio::Key::KeyX, Key::KeyX),
        (monio::Key::KeyY, Key::KeyY),
        (monio::Key::KeyZ, Key::KeyZ),
        (monio::Key::Num0, Key::Num0),
        (monio::Key::Num1, Key::Num1),
        (monio::Key::Num2, Key::Num2),
        (monio::Key::Num3, Key::Num3),
        (monio::Key::Num4, Key::Num4),
        (monio::Key::Num5, Key::Num5),
        (monio::Key::Num6, Key::Num6),
        (monio::Key::Num7, Key::Num7),
        (monio::Key::Num8, Key::Num8),
        (monio::Key::Num9, Key::Num9),
        (monio::Key::F1, Key::F1),
        (monio::Key::F2, Key::F2),
        (monio::Key::F3, Key::F3),
        (monio::Key::F4, Key::F4),
        (monio::Key::F5, Key::F5),
        (monio::Key::F6, Key::F6),
        (monio::Key::F7, Key::F7),
        (monio::Key::F8, Key::F8),
        (monio::Key::F9, Key::F9),
        (monio::Key::F10, Key::F10),
        (monio::Key::F11, Key::F11),
        (monio::Key::F12, Key::F12),
        (monio::Key::F13, Key::F13),
        (monio::Key::F14, Key::F14),
        (monio::Key::F15, Key::F15),
        (monio::Key::F16, Key::F16),
        (monio::Key::F17, Key::F17),
        (monio::Key::F18, Key::F18),
        (monio::Key::F19, Key::F19),
        (monio::Key::F20, Key::F20),
        (monio::Key::F21, Key::F21),
        (monio::Key::F22, Key::F22),
        (monio::Key::F23, Key::F23),
        (monio::Key::F24, Key::F24),
        (monio::Key::ShiftLeft, Key::ShiftLeft),
        (monio::Key::ShiftRight, Key::ShiftRight),
        (monio::Key::ControlLeft, Key::ControlLeft),
        (monio::Key::ControlRight, Key::ControlRight),
        (monio::Key::AltLeft, Key::AltLeft),
        (monio::Key::AltRight, Key::AltRight),
        (monio::Key::MetaLeft, Key::MetaLeft),
        (monio::Key::MetaRight, Key::MetaRight),
        (monio::Key::Escape, Key::Escape),
        (monio::Key::Tab, Key::Tab),
        (monio::Key::CapsLock, Key::CapsLock),
        (monio::Key::Space, Key::Space),
        (monio::Key::Enter, Key::Enter),
        (monio::Key::Backspace, Key::Backspace),
        (monio::Key::Insert, Key::Insert),
        (monio::Key::Delete, Key::Delete),
        (monio::Key::Home, Key::Home),
        (monio::Key::End, Key::End),
        (monio::Key::PageUp, Key::PageUp),
        (monio::Key::PageDown, Key::PageDown),
        (monio::Key::ArrowUp, Key::ArrowUp),
        (monio::Key::ArrowDown, Key::ArrowDown),
        (monio::Key::ArrowLeft, Key::ArrowLeft),
        (monio::Key::ArrowRight, Key::ArrowRight),
        (monio::Key::NumLock, Key::NumLock),
        (monio::Key::ScrollLock, Key::ScrollLock),
        (monio::Key::PrintScreen, Key::PrintScreen),
        (monio::Key::Pause, Key::Pause),
        (monio::Key::Grave, Key::Grave),
        (monio::Key::Minus, Key::Minus),
        (monio::Key::Equal, Key::Equal),
        (monio::Key::BracketLeft, Key::BracketLeft),
        (monio::Key::BracketRight, Key::BracketRight),
        (monio::Key::Backslash, Key::Backslash),
        (monio::Key::Semicolon, Key::Semicolon),
        (monio::Key::Quote, Key::Quote),
        (monio::Key::Comma, Key::Comma),
        (monio::Key::Period, Key::Period),
        (monio::Key::Slash, Key::Slash),
        (monio::Key::Numpad0, Key::Numpad0),
        (monio::Key::Numpad1, Key::Numpad1),
        (monio::Key::Numpad2, Key::Numpad2),
        (monio::Key::Numpad3, Key::Numpad3),
        (monio::Key::Numpad4, Key::Numpad4),
        (monio::Key::Numpad5, Key::Numpad5),
        (monio::Key::Numpad6, Key::Numpad6),
        (monio::Key::Numpad7, Key::Numpad7),
        (monio::Key::Numpad8, Key::Numpad8),
        (monio::Key::Numpad9, Key::Numpad9),
        (monio::Key::NumpadAdd, Key::NumpadAdd),
        (monio::Key::NumpadSubtract, Key::NumpadSubtract),
        (monio::Key::NumpadMultiply, Key::NumpadMultiply),
        (monio::Key::NumpadDivide, Key::NumpadDivide),
        (monio::Key::NumpadDecimal, Key::NumpadDecimal),
        (monio::Key::NumpadEnter, Key::NumpadEnter),
        (monio::Key::NumpadEqual, Key::NumpadEqual),
        (monio::Key::VolumeUp, Key::VolumeUp),
        (monio::Key::VolumeDown, Key::VolumeDown),
        (monio::Key::VolumeMute, Key::VolumeMute),
        (monio::Key::MediaPlayPause, Key::MediaPlayPause),
        (monio::Key::MediaStop, Key::MediaStop),
        (monio::Key::MediaNext, Key::MediaNext),
        (monio::Key::MediaPrevious, Key::MediaPrevious),
        (monio::Key::BrowserBack, Key::BrowserBack),
        (monio::Key::BrowserForward, Key::BrowserForward),
        (monio::Key::BrowserRefresh, Key::BrowserRefresh),
        (monio::Key::BrowserStop, Key::BrowserStop),
        (monio::Key::BrowserSearch, Key::BrowserSearch),
        (monio::Key::BrowserFavorites, Key::BrowserFavorites),
        (monio::Key::BrowserHome, Key::BrowserHome),
        (monio::Key::LaunchMail, Key::LaunchMail),
        (monio::Key::LaunchApp1, Key::LaunchApp1),
        (monio::Key::LaunchApp2, Key::LaunchApp2),
        (monio::Key::IntlBackslash, Key::IntlBackslash),
        (monio::Key::IntlYen, Key::IntlYen),
        (monio::Key::IntlRo, Key::IntlRo),
        (monio::Key::ContextMenu, Key::ContextMenu),
        (monio::Key::Unknown(77), Key::Unknown(77)),
    ];
    for (theirs, ours) in pairs {
        assert_eq!(format!("{:?}", theirs), monio_key_to_string(ours));
    }
}

#[test]
fn monio_modifier_masks() {
    assert_eq!(cinny_ptt::modifiers::modifier_prefix_from_mask(monio::state::MASK_SHIFT), "Shift+");
    assert_eq!(cinny_ptt::modifiers::modifier_prefix_from_mask(monio::state::MASK_CTRL), "Ctrl+");
    assert_eq!(cinny_ptt::modifiers::modifier_prefix_from_mask(monio::state::MASK_ALT), "Alt+");
    assert_eq!(cinny_ptt::modifiers::modifier_prefix_from_mask(monio::state::MASK_META), "Meta+");
    assert_eq!(cinny_ptt::modifiers::modifier_prefix_from_mask(monio::state::MASK_CAPS_LOCK), "");
}

#[test]
fn unknown_button_names_use_x_and_the_number() {
    for n in [0u8, 1, 6, 42, 255] {
        assert_eq!(mouse_button_to_string(Button::Unknown(n)), format!("x{}", n));
    }
}
