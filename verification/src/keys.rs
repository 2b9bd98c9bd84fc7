//! The keys and mouse buttons that an input hook reports, with the names
//! that a stored binding spells them by.
use vstd::prelude::*;
use vstd::string::*;

use crate::text::{append_decimal, decimal, digits_value, lemma_decimal_reads_back, no_plus, text_eq};

verus! {

/// A keyboard key, as the input hook reports it.
#[derive(Clone, Copy, Debug, PartialEq, Eq, Structural)]
pub enum Key {
    KeyA,
    KeyB,
    KeyC,
    KeyD,
    KeyE,
    KeyF,
    KeyG,
    KeyH,
    KeyI,
    KeyJ,
    KeyK,
    KeyL,
    KeyM,
    KeyN,
    KeyO,
    KeyP,
    KeyQ,
    KeyR,
    KeyS,
    KeyT,
    KeyU,
    KeyV,
    KeyW,
    KeyX,
    KeyY,
    KeyZ,
    Num0,
    Num1,
    Num2,
    Num3,
    Num4,
    Num5,
    Num6,
    Num7,
    Num8,
    Num9,
    F1,
    F2,
    F3,
    F4,
    F5,
    F6,
    F7,
    F8,
    F9,
    F10,
    F11,
    F12,
    F13,
    F14,
    F15,
    F16,
    F17,
    F18,
    F19,
    F20,
    F21,
    F22,
    F23,
    F24,
    ShiftLeft,
    ShiftRight,
    ControlLeft,
    ControlRight,
    AltLeft,
    AltRight,
    MetaLeft,
    MetaRight,
    Escape,
    Tab,
    CapsLock,
    Space,
    Enter,
    Backspace,
    Insert,
    Delete,
    Home,
    End,
    PageUp,
    PageDown,
    ArrowUp,
    ArrowDown,
    ArrowLeft,
    ArrowRight,
    NumLock,
    ScrollLock,
    PrintScreen,
    Pause,
    Grave,
    Minus,
    Equal,
    BracketLeft,
    BracketRight,
    Backslash,
    Semicolon,
    Quote,
    Comma,
    Period,
    Slash,
    Numpad0,
    Numpad1,
    Numpad2,
    Numpad3,
    Numpad4,
    Numpad5,
    Numpad6,
    Numpad7,
    Numpad8,
    Numpad9,
    NumpadAdd,
    NumpadSubtract,
    NumpadMultiply,
    NumpadDivide,
    NumpadDecimal,
    NumpadEnter,
    NumpadEqual,
    VolumeUp,
    VolumeDown,
    VolumeMute,
    MediaPlayPause,
    MediaStop,
    MediaNext,
    MediaPrevious,
    BrowserBack,
    BrowserForward,
    BrowserRefresh,
    BrowserStop,
    BrowserSearch,
    BrowserFavorites,
    BrowserHome,
    LaunchMail,
    LaunchApp1,
    LaunchApp2,
    IntlBackslash,
    IntlYen,
    IntlRo,
    ContextMenu,
    /// A key that has no name of its own, with the raw code the platform gave.
    Unknown(u32),
}

/// A mouse button, as the input hook reports it.
#[derive(Clone, Copy, Debug, PartialEq, Eq, Structural)]
pub enum Button {
    Left,
    Right,
    Middle,
    Button4,
    Button5,
    /// A button that has no name of its own, with its number.
    Unknown(u8),
}

/// What an input event reports.
#[derive(Clone, Copy, Debug, PartialEq, Eq, Structural)]
pub enum EventType {
    HookEnabled,
    HookDisabled,
    KeyPressed,
    KeyReleased,
    KeyTyped,
    MousePressed,
    MouseReleased,
    MouseClicked,
    MouseMoved,
    MouseDragged,
    MouseWheel,
}

/// The name of a key: the variant's own name, and `Unknown(` with the raw
/// code in decimal and `)` for a key without one.
pub open spec fn key_name(k: Key) -> Seq<char> {
    match k {
        Key::KeyA => "KeyA"@,
        Key::KeyB => "KeyB"@,
        Key::KeyC => "KeyC"@,
        Key::KeyD => "KeyD"@,
        Key::KeyE => "KeyE"@,
        Key::KeyF => "KeyF"@,
        Key::KeyG => "KeyG"@,
        Key::KeyH => "KeyH"@,
        Key::KeyI => "KeyI"@,
        Key::KeyJ => "KeyJ"@,
        Key::KeyK => "KeyK"@,
        Key::KeyL => "KeyL"@,
        Key::KeyM => "KeyM"@,
        Key::KeyN => "KeyN"@,
        Key::KeyO => "KeyO"@,
        Key::KeyP => "KeyP"@,
        Key::KeyQ => "KeyQ"@,
        Key::KeyR => "KeyR"@,
        Key::KeyS => "KeyS"@,
        Key::KeyT => "KeyT"@,
        Key::KeyU => "KeyU"@,
        Key::KeyV => "KeyV"@,
        Key::KeyW => "KeyW"@,
        Key::KeyX => "KeyX"@,
        Key::KeyY => "KeyY"@,
        Key::KeyZ => "KeyZ"@,
        Key::Num0 => "Num0"@,
        Key::Num1 => "Num1"@,
        Key::Num2 => "Num2"@,
        Key::Num3 => "Num3"@,
        Key::Num4 => "Num4"@,
        Key::Num5 => "Num5"@,
        Key::Num6 => "Num6"@,
        Key::Num7 => "Num7"@,
        Key::Num8 => "Num8"@,
        Key::Num9 => "Num9"@,
        Key::F1 => "F1"@,
        Key::F2 => "F2"@,
        Key::F3 => "F3"@,
        Key::F4 => "F4"@,
        Key::F5 => "F5"@,
        Key::F6 => "F6"@,
        Key::F7 => "F7"@,
        Key::F8 => "F8"@,
        Key::F9 => "F9"@,
        Key::F10 => "F10"@,
        Key::F11 => "F11"@,
        Key::F12 => "F12"@,
        Key::F13 => "F13"@,
        Key::F14 => "F14"@,
        Key::F15 => "F15"@,
        Key::F16 => "F16"@,
        Key::F17 => "F17"@,
        Key::F18 => "F18"@,
        Key::F19 => "F19"@,
        Key::F20 => "F20"@,
        Key::F21 => "F21"@,
        Key::F22 => "F22"@,
        Key::F23 => "F23"@,
        Key::F24 => "F24"@,
        Key::ShiftLeft => "ShiftLeft"@,
        Key::ShiftRight => "ShiftRight"@,
        Key::ControlLeft => "ControlLeft"@,
        Key::ControlRight => "ControlRight"@,
        Key::AltLeft => "AltLeft"@,
        Key::AltRight => "AltRight"@,
        Key::MetaLeft => "MetaLeft"@,
        Key::MetaRight => "MetaRight"@,
        Key::Escape => "Escape"@,
        Key::Tab => "Tab"@,
        Key::CapsLock => "CapsLock"@,
        Key::Space => "Space"@,
        Key::Enter => "Enter"@,
        Key::Backspace => "Backspace"@,
        Key::Insert => "Insert"@,
        Key::Delete => "Delete"@,
        Key::Home => "Home"@,
        Key::End => "End"@,
        Key::PageUp => "PageUp"@,
        Key::PageDown => "PageDown"@,
        Key::ArrowUp => "ArrowUp"@,
        Key::ArrowDown => "ArrowDown"@,
        Key::ArrowLeft => "ArrowLeft"@,
        Key::ArrowRight => "ArrowRight"@,
        Key::NumLock => "NumLock"@,
        Key::ScrollLock => "ScrollLock"@,
        Key::PrintScreen => "PrintScreen"@,
        Key::Pause => "Pause"@,
        Key::Grave => "Grave"@,
        Key::Minus => "Minus"@,
        Key::Equal => "Equal"@,
        Key::BracketLeft => "BracketLeft"@,
        Key::BracketRight => "BracketRight"@,
        Key::Backslash => "Backslash"@,
        Key::Semicolon => "Semicolon"@,
        Key::Quote => "Quote"@,
        Key::Comma => "Comma"@,
        Key::Period => "Period"@,
        Key::Slash => "Slash"@,
        Key::Numpad0 => "Numpad0"@,
        Key::Numpad1 => "Numpad1"@,
        Key::Numpad2 => "Numpad2"@,
        Key::Numpad3 => "Numpad3"@,
        Key::Numpad4 => "Numpad4"@,
        Key::Numpad5 => "Numpad5"@,
        Key::Numpad6 => "Numpad6"@,
        Key::Numpad7 => "Numpad7"@,
        Key::Numpad8 => "Numpad8"@,
        Key::Numpad9 => "Numpad9"@,
        Key::NumpadAdd => "NumpadAdd"@,
        Key::NumpadSubtract => "NumpadSubtract"@,
        Key::NumpadMultiply => "NumpadMultiply"@,
        Key::NumpadDivide => "NumpadDivide"@,
        Key::NumpadDecimal => "NumpadDecimal"@,
        Key::NumpadEnter => "NumpadEnter"@,
        Key::NumpadEqual => "NumpadEqual"@,
        Key::VolumeUp => "VolumeUp"@,
        Key::VolumeDown => "VolumeDown"@,
        Key::VolumeMute => "VolumeMute"@,
        Key::MediaPlayPause => "MediaPlayPause"@,
        Key::MediaStop => "MediaStop"@,
        Key::MediaNext => "MediaNext"@,
        Key::MediaPrevious => "MediaPrevious"@,
        Key::BrowserBack => "BrowserBack"@,
        Key::BrowserForward => "BrowserForward"@,
        Key::BrowserRefresh => "BrowserRefresh"@,
        Key::BrowserStop => "BrowserStop"@,
        Key::BrowserSearch => "BrowserSearch"@,
        Key::BrowserFavorites => "BrowserFavorites"@,
        Key::BrowserHome => "BrowserHome"@,
        Key::LaunchMail => "LaunchMail"@,
        Key::LaunchApp1 => "LaunchApp1"@,
        Key::LaunchApp2 => "LaunchApp2"@,
        Key::IntlBackslash => "IntlBackslash"@,
        Key::IntlYen => "IntlYen"@,
        Key::IntlRo => "IntlRo"@,
        Key::ContextMenu => "ContextMenu"@,
        Key::Unknown(code) => "Unknown("@ + decimal(code as nat) + ")"@,
    }
}

/// The keys that a binding may name: the ones whose name the binding grammar
/// accepts after `key:`.
pub open spec fn is_bindable_key(k: Key) -> bool {
    k is Space
        || k is Tab
        || k is Enter
        || k is Escape
        || k is Backspace
        || k is Delete
        || k is Home
        || k is End
        || k is PageUp
        || k is PageDown
        || k is ArrowUp
        || k is ArrowDown
        || k is ArrowLeft
        || k is ArrowRight
        || k is CapsLock
        || k is F1
        || k is F2
        || k is F3
        || k is F4
        || k is F5
        || k is F6
        || k is F7
        || k is F8
        || k is F9
        || k is F10
        || k is F11
        || k is F12
        || k is KeyA
        || k is KeyB
        || k is KeyC
        || k is KeyD
        || k is KeyE
        || k is KeyF
        || k is KeyG
        || k is KeyH
        || k is KeyI
        || k is KeyJ
        || k is KeyK
        || k is KeyL
        || k is KeyM
        || k is KeyN
        || k is KeyO
        || k is KeyP
        || k is KeyQ
        || k is KeyR
        || k is KeyS
        || k is KeyT
        || k is KeyU
        || k is KeyV
        || k is KeyW
        || k is KeyX
        || k is KeyY
        || k is KeyZ
        || k is Num0
        || k is Num1
        || k is Num2
        || k is Num3
        || k is Num4
        || k is Num5
        || k is Num6
        || k is Num7
        || k is Num8
        || k is Num9
        || k is Minus
        || k is Equal
        || k is BracketLeft
        || k is BracketRight
        || k is Backslash
        || k is Semicolon
        || k is Quote
        || k is Comma
        || k is Period
        || k is Slash
        || k is Grave
        || k is ShiftLeft
        || k is ShiftRight
        || k is ControlLeft
        || k is ControlRight
        || k is AltLeft
        || k is AltRight
        || k is MetaLeft
        || k is MetaRight
}

/// The bindable key whose name is `s`, if any.
pub open spec fn key_from_name(s: Seq<char>) -> Option<Key> {
    if exists|k: Key| is_bindable_key(k) && key_name(k) == s {
        Some(choose|k: Key| is_bindable_key(k) && key_name(k) == s)
    } else {
        None
    }
}

/// The modifier keys: both Shift, Control, Alt and Meta keys.
pub open spec fn is_modifier(k: Key) -> bool {
    ||| k is ShiftLeft
    ||| k is ShiftRight
    ||| k is ControlLeft
    ||| k is ControlRight
    ||| k is AltLeft
    ||| k is AltRight
    ||| k is MetaLeft
    ||| k is MetaRight
}

/// Tells bindable keys apart by their names: a few characters of a name
/// (and its length) decide which bindable key it belongs to.
spec fn bindable_key_by_name(s: Seq<char>) -> Key {
    if s[s.len() - 1] == 'e' {
        if s[0] == 'S' {
            Key::Space
        } else if s[0] == 'E' {
            Key::Escape
        } else if s[0] == 'B' {
            Key::Backspace
        } else if s[0] == 'D' {
            Key::Delete
        } else if s[0] == 'H' {
            Key::Home
        } else if s[0] == 'Q' {
            Key::Quote
        } else {
            Key::Grave
        }
    } else if s[s.len() - 1] == 'b' {
        Key::Tab
    } else if s[s.len() - 1] == 'r' {
        Key::Enter
    } else if s[s.len() - 1] == 'd' {
        if s.len() == 3 {
            Key::End
        } else {
            Key::Period
        }
    } else if s[s.len() - 1] == 'p' {
        if s.len() == 6 {
            Key::PageUp
        } else {
            Key::ArrowUp
        }
    } else if s[s.len() - 1] == 'n' {
        if s[0] == 'P' {
            Key::PageDown
        } else if s[0] == 'A' {
            Key::ArrowDown
        } else {
            Key::Semicolon
        }
    } else if s[s.len() - 1] == 't' {
        if s[3] == 'o' {
            if s.len() == 9 {
                Key::ArrowLeft
            } else {
                Key::ArrowRight
            }
        } else if s[3] == 'c' {
            if s.len() == 11 {
                Key::BracketLeft
            } else {
                Key::BracketRight
            }
        } else if s[3] == 'f' {
            if s.len() == 9 {
                Key::ShiftLeft
            } else {
                Key::ShiftRight
            }
        } else if s[3] == 't' {
            if s.len() == 11 {
                Key::ControlLeft
            } else {
                Key::ControlRight
            }
        } else if s[3] == 'L' {
            Key::AltLeft
        } else if s[3] == 'R' {
            Key::AltRight
        } else {
            if s.len() == 8 {
                Key::MetaLeft
            } else {
                Key::MetaRight
            }
        }
    } else if s[s.len() - 1] == 'k' {
        Key::CapsLock
    } else if s[s.len() - 1] == '1' {
        if s.len() == 2 {
            Key::F1
        } else if s.len() == 3 {
            Key::F11
        } else {
            Key::Num1
        }
    } else if s[s.len() - 1] == '2' {
        if s.len() == 2 {
            Key::F2
        } else if s.len() == 3 {
            Key::F12
        } else {
            Key::Num2
        }
    } else if s[s.len() - 1] == '3' {
        if s.len() == 2 {
            Key::F3
        } else {
            Key::Num3
        }
    } else if s[s.len() - 1] == '4' {
        if s.len() == 2 {
            Key::F4
        } else {
            Key::Num4
        }
    } else if s[s.len() - 1] == '5' {
        if s.len() == 2 {
            Key::F5
        } else {
            Key::Num5
        }
    } else if s[s.len() - 1] == '6' {
        if s.len() == 2 {
            Key::F6
        } else {
            Key::Num6
        }
    } else if s[s.len() - 1] == '7' {
        if s.len() == 2 {
            Key::F7
        } else {
            Key::Num7
        }
    } else if s[s.len() - 1] == '8' {
        if s.len() == 2 {
            Key::F8
        } else {
            Key::Num8
        }
    } else if s[s.len() - 1] == '9' {
        if s.len() == 2 {
            Key::F9
        } else {
            Key::Num9
        }
    } else if s[s.len() - 1] == '0' {
        if s.len() == 3 {
            Key::F10
        } else {
            Key::Num0
        }
    } else if s[s.len() - 1] == 'A' {
        Key::KeyA
    } else if s[s.len() - 1] == 'B' {
        Key::KeyB
    } else if s[s.len() - 1] == 'C' {
        Key::KeyC
    } else if s[s.len() - 1] == 'D' {
        Key::KeyD
    } else if s[s.len() - 1] == 'E' {
        Key::KeyE
    } else if s[s.len() - 1] == 'F' {
        Key::KeyF
    } else if s[s.len() - 1] == 'G' {
        Key::KeyG
    } else if s[s.len() - 1] == 'H' {
        Key::KeyH
    } else if s[s.len() - 1] == 'I' {
        Key::KeyI
    } else if s[s.len() - 1] == 'J' {
        Key::KeyJ
    } else if s[s.len() - 1] == 'K' {
        Key::KeyK
    } else if s[s.len() - 1] == 'L' {
        Key::KeyL
    } else if s[s.len() - 1] == 'M' {
        Key::KeyM
    } else if s[s.len() - 1] == 'N' {
        Key::KeyN
    } else if s[s.len() - 1] == 'O' {
        Key::KeyO
    } else if s[s.len() - 1] == 'P' {
        Key::KeyP
    } else if s[s.len() - 1] == 'Q' {
        Key::KeyQ
    } else if s[s.len() - 1] == 'R' {
        Key::KeyR
    } else if s[s.len() - 1] == 'S' {
        Key::KeyS
    } else if s[s.len() - 1] == 'T' {
        Key::KeyT
    } else if s[s.len() - 1] == 'U' {
        Key::KeyU
    } else if s[s.len() - 1] == 'V' {
        Key::KeyV
    } else if s[s.len() - 1] == 'W' {
        Key::KeyW
    } else if s[s.len() - 1] == 'X' {
        Key::KeyX
    } else if s[s.len() - 1] == 'Y' {
        Key::KeyY
    } else if s[s.len() - 1] == 'Z' {
        Key::KeyZ
    } else if s[s.len() - 1] == 's' {
        Key::Minus
    } else if s[s.len() - 1] == 'l' {
        Key::Equal
    } else if s[s.len() - 1] == 'h' {
        if s.len() == 9 {
            Key::Backslash
        } else {
            Key::Slash
        }
    } else {
        Key::Comma
    }
}

/// Every bindable key's name leads back to that key.
proof fn lemma_bindable_name_decides(k: Key)
    requires
        is_bindable_key(k),
    ensures
        bindable_key_by_name(key_name(k)) == k,
{
    match k {
        Key::Space => {
            reveal_strlit("Space");
        },
        Key::Tab => {
            reveal_strlit("Tab");
        },
        Key::Enter => {
            reveal_strlit("Enter");
        },
        Key::Escape => {
            reveal_strlit("Escape");
        },
        Key::Backspace => {
            reveal_strlit("Backspace");
        },
        Key::Delete => {
            reveal_strlit("Delete");
        },
        Key::Home => {
            reveal_strlit("Home");
        },
        Key::End => {
            reveal_strlit("End");
        },
        Key::PageUp => {
            reveal_strlit("PageUp");
        },
        Key::PageDown => {
            reveal_strlit("PageDown");
        },
        Key::ArrowUp => {
            reveal_strlit("ArrowUp");
        },
        Key::ArrowDown => {
            reveal_strlit("ArrowDown");
        },
        Key::ArrowLeft => {
            reveal_strlit("ArrowLeft");
        },
        Key::ArrowRight => {
            reveal_strlit("ArrowRight");
        },
        Key::CapsLock => {
            reveal_strlit("CapsLock");
        },
        Key::F1 => {
            reveal_strlit("F1");
        },
        Key::F2 => {
            reveal_strlit("F2");
        },
        Key::F3 => {
            reveal_strlit("F3");
        },
        Key::F4 => {
            reveal_strlit("F4");
        },
        Key::F5 => {
            reveal_strlit("F5");
        },
        Key::F6 => {
            reveal_strlit("F6");
        },
        Key::F7 => {
            reveal_strlit("F7");
        },
        Key::F8 => {
            reveal_strlit("F8");
        },
        Key::F9 => {
            reveal_strlit("F9");
        },
        Key::F10 => {
            reveal_strlit("F10");
        },
        Key::F11 => {
            reveal_strlit("F11");
        },
        Key::F12 => {
            reveal_strlit("F12");
        },
        Key::KeyA => {
            reveal_strlit("KeyA");
        },
        Key::KeyB => {
            reveal_strlit("KeyB");
        },
        Key::KeyC => {
            reveal_strlit("KeyC");
        },
        Key::KeyD => {
            reveal_strlit("KeyD");
        },
        Key::KeyE => {
            reveal_strlit("KeyE");
        },
        Key::KeyF => {
            reveal_strlit("KeyF");
        },
        Key::KeyG => {
            reveal_strlit("KeyG");
        },
        Key::KeyH => {
            reveal_strlit("KeyH");
        },
        Key::KeyI => {
            reveal_strlit("KeyI");
        },
        Key::KeyJ => {
            reveal_strlit("KeyJ");
        },
        Key::KeyK => {
            reveal_strlit("KeyK");
        },
        Key::KeyL => {
            reveal_strlit("KeyL");
        },
        Key::KeyM => {
            reveal_strlit("KeyM");
        },
        Key::KeyN => {
            reveal_strlit("KeyN");
        },
        Key::KeyO => {
            reveal_strlit("KeyO");
        },
        Key::KeyP => {
            reveal_strlit("KeyP");
        },
        Key::KeyQ => {
            reveal_strlit("KeyQ");
        },
        Key::KeyR => {
            reveal_strlit("KeyR");
        },
        Key::KeyS => {
            reveal_strlit("KeyS");
        },
        Key::KeyT => {
            reveal_strlit("KeyT");
        },
        Key::KeyU => {
            reveal_strlit("KeyU");
        },
        Key::KeyV => {
            reveal_strlit("KeyV");
        },
        Key::KeyW => {
            reveal_strlit("KeyW");
        },
        Key::KeyX => {
            reveal_strlit("KeyX");
        },
        Key::KeyY => {
            reveal_strlit("KeyY");
        },
        Key::KeyZ => {
            reveal_strlit("KeyZ");
        },
        Key::Num0 => {
            reveal_strlit("Num0");
        },
        Key::Num1 => {
            reveal_strlit("Num1");
        },
        Key::Num2 => {
            reveal_strlit("Num2");
        },
        Key::Num3 => {
            reveal_strlit("Num3");
        },
        Key::Num4 => {
            reveal_strlit("Num4");
        },
        Key::Num5 => {
            reveal_strlit("Num5");
        },
        Key::Num6 => {
            reveal_strlit("Num6");
        },
        Key::Num7 => {
            reveal_strlit("Num7");
        },
        Key::Num8 => {
            reveal_strlit("Num8");
        },
        Key::Num9 => {
            reveal_strlit("Num9");
        },
        Key::Minus => {
            reveal_strlit("Minus");
        },
        Key::Equal => {
            reveal_strlit("Equal");
        },
        Key::BracketLeft => {
            reveal_strlit("BracketLeft");
        },
        Key::BracketRight => {
            reveal_strlit("BracketRight");
        },
        Key::Backslash => {
            reveal_strlit("Backslash");
        },
        Key::Semicolon => {
            reveal_strlit("Semicolon");
        },
        Key::Quote => {
            reveal_strlit("Quote");
        },
        Key::Comma => {
            reveal_strlit("Comma");
        },
        Key::Period => {
            reveal_strlit("Period");
        },
        Key::Slash => {
            reveal_strlit("Slash");
        },
        Key::Grave => {
            reveal_strlit("Grave");
        },
        Key::ShiftLeft => {
            reveal_strlit("ShiftLeft");
        },
        Key::ShiftRight => {
            reveal_strlit("ShiftRight");
        },
        Key::ControlLeft => {
            reveal_strlit("ControlLeft");
        },
        Key::ControlRight => {
            reveal_strlit("ControlRight");
        },
        Key::AltLeft => {
            reveal_strlit("AltLeft");
        },
        Key::AltRight => {
            reveal_strlit("AltRight");
        },
        Key::MetaLeft => {
            reveal_strlit("MetaLeft");
        },
        Key::MetaRight => {
            reveal_strlit("MetaRight");
        },
        _ => {},
    }
}

/// No two bindable keys share a name.
pub proof fn lemma_bindable_names_distinct(a: Key, b: Key)
    requires
        is_bindable_key(a),
        is_bindable_key(b),
        key_name(a) == key_name(b),
    ensures
        a == b,
{
    lemma_bindable_name_decides(a);
    lemma_bindable_name_decides(b);
}

/// Whether `key` is one of the modifier keys.
pub fn is_modifier_key(key: Key) -> (b: bool)
    ensures
        b == is_modifier(key),
{
    matches!(
        key,
        Key::ShiftLeft
            | Key::ShiftRight
            | Key::ControlLeft
            | Key::ControlRight
            | Key::AltLeft
            | Key::AltRight
            | Key::MetaLeft
            | Key::MetaRight
    )
}

/// The name of `key`, as a binding spells it.
pub fn monio_key_to_string(key: Key) -> (s: String)
    ensures
        s@ == key_name(key),
{
    let mut s = String::new();
    match key {
        Key::KeyA => s.append("KeyA"),
        Key::KeyB => s.append("KeyB"),
        Key::KeyC => s.append("KeyC"),
        Key::KeyD => s.append("KeyD"),
        Key::KeyE => s.append("KeyE"),
        Key::KeyF => s.append("KeyF"),
        Key::KeyG => s.append("KeyG"),
        Key::KeyH => s.append("KeyH"),
        Key::KeyI => s.append("KeyI"),
        Key::KeyJ => s.append("KeyJ"),
        Key::KeyK => s.append("KeyK"),
        Key::KeyL => s.append("KeyL"),
        Key::KeyM => s.append("KeyM"),
        Key::KeyN => s.append("KeyN"),
        Key::KeyO => s.append("KeyO"),
        Key::KeyP => s.append("KeyP"),
        Key::KeyQ => s.append("KeyQ"),
        Key::KeyR => s.append("KeyR"),
        Key::KeyS => s.append("KeyS"),
        Key::KeyT => s.append("KeyT"),
        Key::KeyU => s.append("KeyU"),
        Key::KeyV => s.append("KeyV"),
        Key::KeyW => s.append("KeyW"),
        Key::KeyX => s.append("KeyX"),
        Key::KeyY => s.append("KeyY"),
        Key::KeyZ => s.append("KeyZ"),
        Key::Num0 => s.append("Num0"),
        Key::Num1 => s.append("Num1"),
        Key::Num2 => s.append("Num2"),
        Key::Num3 => s.append("Num3"),
        Key::Num4 => s.append("Num4"),
        Key::Num5 => s.append("Num5"),
        Key::Num6 => s.append("Num6"),
        Key::Num7 => s.append("Num7"),
        Key::Num8 => s.append("Num8"),
        Key::Num9 => s.append("Num9"),
        Key::F1 => s.append("F1"),
        Key::F2 => s.append("F2"),
        Key::F3 => s.append("F3"),
        Key::F4 => s.append("F4"),
        Key::F5 => s.append("F5"),
        Key::F6 => s.append("F6"),
        Key::F7 => s.append("F7"),
        Key::F8 => s.append("F8"),
        Key::F9 => s.append("F9"),
        Key::F10 => s.append("F10"),
        Key::F11 => s.append("F11"),
        Key::F12 => s.append("F12"),
        Key::F13 => s.append("F13"),
        Key::F14 => s.append("F14"),
        Key::F15 => s.append("F15"),
        Key::F16 => s.append("F16"),
        Key::F17 => s.append("F17"),
        Key::F18 => s.append("F18"),
        Key::F19 => s.append("F19"),
        Key::F20 => s.append("F20"),
        Key::F21 => s.append("F21"),
        Key::F22 => s.append("F22"),
        Key::F23 => s.append("F23"),
        Key::F24 => s.append("F24"),
        Key::ShiftLeft => s.append("ShiftLeft"),
        Key::ShiftRight => s.append("ShiftRight"),
        Key::ControlLeft => s.append("ControlLeft"),
        Key::ControlRight => s.append("ControlRight"),
        Key::AltLeft => s.append("AltLeft"),
        Key::AltRight => s.append("AltRight"),
        Key::MetaLeft => s.append("MetaLeft"),
        Key::MetaRight => s.append("MetaRight"),
        Key::Escape => s.append("Escape"),
        Key::Tab => s.append("Tab"),
        Key::CapsLock => s.append("CapsLock"),
        Key::Space => s.append("Space"),
        Key::Enter => s.append("Enter"),
        Key::Backspace => s.append("Backspace"),
        Key::Insert => s.append("Insert"),
        Key::Delete => s.append("Delete"),
        Key::Home => s.append("Home"),
        Key::End => s.append("End"),
        Key::PageUp => s.append("PageUp"),
        Key::PageDown => s.append("PageDown"),
        Key::ArrowUp => s.append("ArrowUp"),
        Key::ArrowDown => s.append("ArrowDown"),
        Key::ArrowLeft => s.append("ArrowLeft"),
        Key::ArrowRight => s.append("ArrowRight"),
        Key::NumLock => s.append("NumLock"),
        Key::ScrollLock => s.append("ScrollLock"),
        Key::PrintScreen => s.append("PrintScreen"),
        Key::Pause => s.append("Pause"),
        Key::Grave => s.append("Grave"),
        Key::Minus => s.append("Minus"),
        Key::Equal => s.append("Equal"),
        Key::BracketLeft => s.append("BracketLeft"),
        Key::BracketRight => s.append("BracketRight"),
        Key::Backslash => s.append("Backslash"),
        Key::Semicolon => s.append("Semicolon"),
        Key::Quote => s.append("Quote"),
        Key::Comma => s.append("Comma"),
        Key::Period => s.append("Period"),
        Key::Slash => s.append("Slash"),
        Key::Numpad0 => s.append("Numpad0"),
        Key::Numpad1 => s.append("Numpad1"),
        Key::Numpad2 => s.append("Numpad2"),
        Key::Numpad3 => s.append("Numpad3"),
        Key::Numpad4 => s.append("Numpad4"),
        Key::Numpad5 => s.append("Numpad5"),
        Key::Numpad6 => s.append("Numpad6"),
        Key::Numpad7 => s.append("Numpad7"),
        Key::Numpad8 => s.append("Numpad8"),
        Key::Numpad9 => s.append("Numpad9"),
        Key::NumpadAdd => s.append("NumpadAdd"),
        Key::NumpadSubtract => s.append("NumpadSubtract"),
        Key::NumpadMultiply => s.append("NumpadMultiply"),
        Key::NumpadDivide => s.append("NumpadDivide"),
        Key::NumpadDecimal => s.append("NumpadDecimal"),
        Key::NumpadEnter => s.append("NumpadEnter"),
        Key::NumpadEqual => s.append("NumpadEqual"),
        Key::VolumeUp => s.append("VolumeUp"),
        Key::VolumeDown => s.append("VolumeDown"),
        Key::VolumeMute => s.append("VolumeMute"),
        Key::MediaPlayPause => s.append("MediaPlayPause"),
        Key::MediaStop => s.append("MediaStop"),
        Key::MediaNext => s.append("MediaNext"),
        Key::MediaPrevious => s.append("MediaPrevious"),
        Key::BrowserBack => s.append("BrowserBack"),
        Key::BrowserForward => s.append("BrowserForward"),
        Key::BrowserRefresh => s.append("BrowserRefresh"),
        Key::BrowserStop => s.append("BrowserStop"),
        Key::BrowserSearch => s.append("BrowserSearch"),
        Key::BrowserFavorites => s.append("BrowserFavorites"),
        Key::BrowserHome => s.append("BrowserHome"),
        Key::LaunchMail => s.append("LaunchMail"),
        Key::LaunchApp1 => s.append("LaunchApp1"),
        Key::LaunchApp2 => s.append("LaunchApp2"),
        Key::IntlBackslash => s.append("IntlBackslash"),
        Key::IntlYen => s.append("IntlYen"),
        Key::IntlRo => s.append("IntlRo"),
        Key::ContextMenu => s.append("ContextMenu"),
        Key::Unknown(code) => {
            s.append("Unknown(");
            append_decimal(&mut s, code);
            s.append(")");
        },
    }
    s
}

/// The bindable key that `name` spells, if any.
pub fn string_to_monio_key(name: &str) -> (r: Option<Key>)
    ensures
        r == key_from_name(name@),
{
    let r = if text_eq(name, "Space") {
        Some(Key::Space)
    } else if text_eq(name, "Tab") {
        Some(Key::Tab)
    } else if text_eq(name, "Enter") {
        Some(Key::Enter)
    } else if text_eq(name, "Escape") {
        Some(Key::Escape)
    } else if text_eq(name, "Backspace") {
        Some(Key::Backspace)
    } else if text_eq(name, "Delete") {
        Some(Key::Delete)
    } else if text_eq(name, "Home") {
        Some(Key::Home)
    } else if text_eq(name, "End") {
        Some(Key::End)
    } else if text_eq(name, "PageUp") {
        Some(Key::PageUp)
    } else if text_eq(name, "PageDown") {
        Some(Key::PageDown)
    } else if text_eq(name, "ArrowUp") {
        Some(Key::ArrowUp)
    } else if text_eq(name, "ArrowDown") {
        Some(Key::ArrowDown)
    } else if text_eq(name, "ArrowLeft") {
        Some(Key::ArrowLeft)
    } else if text_eq(name, "ArrowRight") {
        Some(Key::ArrowRight)
    } else if text_eq(name, "CapsLock") {
        Some(Key::CapsLock)
    } else if text_eq(name, "F1") {
        Some(Key::F1)
    } else if text_eq(name, "F2") {
        Some(Key::F2)
    } else if text_eq(name, "F3") {
        Some(Key::F3)
    } else if text_eq(name, "F4") {
        Some(Key::F4)
    } else if text_eq(name, "F5") {
        Some(Key::F5)
    } else if text_eq(name, "F6") {
        Some(Key::F6)
    } else if text_eq(name, "F7") {
        Some(Key::F7)
    } else if text_eq(name, "F8") {
        Some(Key::F8)
    } else if text_eq(name, "F9") {
        Some(Key::F9)
    } else if text_eq(name, "F10") {
        Some(Key::F10)
    } else if text_eq(name, "F11") {
        Some(Key::F11)
    } else if text_eq(name, "F12") {
        Some(Key::F12)
    } else if text_eq(name, "KeyA") {
        Some(Key::KeyA)
    } else if text_eq(name, "KeyB") {
        Some(Key::KeyB)
    } else if text_eq(name, "KeyC") {
        Some(Key::KeyC)
    } else if text_eq(name, "KeyD") {
        Some(Key::KeyD)
    } else if text_eq(name, "KeyE") {
        Some(Key::KeyE)
    } else if text_eq(name, "KeyF") {
        Some(Key::KeyF)
    } else if text_eq(name, "KeyG") {
        Some(Key::KeyG)
    } else if text_eq(name, "KeyH") {
        Some(Key::KeyH)
    } else if text_eq(name, "KeyI") {
        Some(Key::KeyI)
    } else if text_eq(name, "KeyJ") {
        Some(Key::KeyJ)
    } else if text_eq(name, "KeyK") {
        Some(Key::KeyK)
    } else if text_eq(name, "KeyL") {
        Some(Key::KeyL)
    } else if text_eq(name, "KeyM") {
        Some(Key::KeyM)
    } else if text_eq(name, "KeyN") {
        Some(Key::KeyN)
    } else if text_eq(name, "KeyO") {
        Some(Key::KeyO)
    } else if text_eq(name, "KeyP") {
        Some(Key::KeyP)
    } else if text_eq(name, "KeyQ") {
        Some(Key::KeyQ)
    } else if text_eq(name, "KeyR") {
        Some(Key::KeyR)
    } else if text_eq(name, "KeyS") {
        Some(Key::KeyS)
    } else if text_eq(name, "KeyT") {
        Some(Key::KeyT)
    } else if text_eq(name, "KeyU") {
        Some(Key::KeyU)
    } else if text_eq(name, "KeyV") {
        Some(Key::KeyV)
    } else if text_eq(name, "KeyW") {
        Some(Key::KeyW)
    } else if text_eq(name, "KeyX") {
        Some(Key::KeyX)
    } else if text_eq(name, "KeyY") {
        Some(Key::KeyY)
    } else if text_eq(name, "KeyZ") {
        Some(Key::KeyZ)
    } else if text_eq(name, "Num0") {
        Some(Key::Num0)
    } else if text_eq(name, "Num1") {
        Some(Key::Num1)
    } else if text_eq(name, "Num2") {
        Some(Key::Num2)
    } else if text_eq(name, "Num3") {
        Some(Key::Num3)
    } else if text_eq(name, "Num4") {
        Some(Key::Num4)
    } else if text_eq(name, "Num5") {
        Some(Key::Num5)
    } else if text_eq(name, "Num6") {
        Some(Key::Num6)
    } else if text_eq(name, "Num7") {
        Some(Key::Num7)
    } else if text_eq(name, "Num8") {
        Some(Key::Num8)
    } else if text_eq(name, "Num9") {
        Some(Key::Num9)
    } else if text_eq(name, "Minus") {
        Some(Key::Minus)
    } else if text_eq(name, "Equal") {
        Some(Key::Equal)
    } else if text_eq(name, "BracketLeft") {
        Some(Key::BracketLeft)
    } else if text_eq(name, "BracketRight") {
        Some(Key::BracketRight)
    } else if text_eq(name, "Backslash") {
        Some(Key::Backslash)
    } else if text_eq(name, "Semicolon") {
        Some(Key::Semicolon)
    } else if text_eq(name, "Quote") {
        Some(Key::Quote)
    } else if text_eq(name, "Comma") {
        Some(Key::Comma)
    } else if text_eq(name, "Period") {
        Some(Key::Period)
    } else if text_eq(name, "Slash") {
        Some(Key::Slash)
    } else if text_eq(name, "Grave") {
        Some(Key::Grave)
    } else if text_eq(name, "ShiftLeft") {
        Some(Key::ShiftLeft)
    } else if text_eq(name, "ShiftRight") {
        Some(Key::ShiftRight)
    } else if text_eq(name, "ControlLeft") {
        Some(Key::ControlLeft)
    } else if text_eq(name, "ControlRight") {
        Some(Key::ControlRight)
    } else if text_eq(name, "AltLeft") {
        Some(Key::AltLeft)
    } else if text_eq(name, "AltRight") {
        Some(Key::AltRight)
    } else if text_eq(name, "MetaLeft") {
        Some(Key::MetaLeft)
    } else if text_eq(name, "MetaRight") {
        Some(Key::MetaRight)
    } else {
        None
    };
    proof {
        match r {
            Some(k) => {
                assert(is_bindable_key(k) && key_name(k) == name@);
                assert forall|j: Key| is_bindable_key(j) && key_name(j) == name@ implies j == k by {
                    lemma_bindable_names_distinct(j, k);
                }
            },
            None => {
                assert(!exists|k: Key| is_bindable_key(k) && key_name(k) == name@);
            },
        }
    }
    r
}

/// The name of a bindable key holds no `+` sign, so that it can follow a
/// modifier prefix.
pub proof fn lemma_bindable_name_has_no_plus(k: Key)
    requires
        is_bindable_key(k),
    ensures
        no_plus(key_name(k)),
{
    match k {
        Key::Space => {
            reveal_strlit("Space");
            assert(key_name(k) =~= seq!['S', 'p', 'a', 'c', 'e']);
        },
        Key::Tab => {
            reveal_strlit("Tab");
            assert(key_name(k) =~= seq!['T', 'a', 'b']);
        },
        Key::Enter => {
            reveal_strlit("Enter");
            assert(key_name(k) =~= seq!['E', 'n', 't', 'e', 'r']);
        },
        Key::Escape => {
            reveal_strlit("Escape");
            assert(key_name(k) =~= seq!['E', 's', 'c', 'a', 'p', 'e']);
        },
        Key::Backspace => {
            reveal_strlit("Backspace");
            assert(key_name(k) =~= seq!['B', 'a', 'c', 'k', 's', 'p', 'a', 'c', 'e']);
        },
        Key::Delete => {
            reveal_strlit("Delete");
            assert(key_name(k) =~= seq!['D', 'e', 'l', 'e', 't', 'e']);
        },
        Key::Home => {
            reveal_strlit("Home");
            assert(key_name(k) =~= seq!['H', 'o', 'm', 'e']);
        },
        Key::End => {
            reveal_strlit("End");
            assert(key_name(k) =~= seq!['E', 'n', 'd']);
        },
        Key::PageUp => {
            reveal_strlit("PageUp");
            assert(key_name(k) =~= seq!['P', 'a', 'g', 'e', 'U', 'p']);
        },
        Key::PageDown => {
            reveal_strlit("PageDown");
            assert(key_name(k) =~= seq!['P', 'a', 'g', 'e', 'D', 'o', 'w', 'n']);
        },
        Key::ArrowUp => {
            reveal_strlit("ArrowUp");
            assert(key_name(k) =~= seq!['A', 'r', 'r', 'o', 'w', 'U', 'p']);
        },
        Key::ArrowDown => {
            reveal_strlit("ArrowDown");
            assert(key_name(k) =~= seq!['A', 'r', 'r', 'o', 'w', 'D', 'o', 'w', 'n']);
        },
        Key::ArrowLeft => {
            reveal_strlit("ArrowLeft");
            assert(key_name(k) =~= seq!['A', 'r', 'r', 'o', 'w', 'L', 'e', 'f', 't']);
        },
        Key::ArrowRight => {
            reveal_strlit("ArrowRight");
            assert(key_name(k) =~= seq!['A', 'r', 'r', 'o', 'w', 'R', 'i', 'g', 'h', 't']);
        },
        Key::CapsLock => {
            reveal_strlit("CapsLock");
            assert(key_name(k) =~= seq!['C', 'a', 'p', 's', 'L', 'o', 'c', 'k']);
        },
        Key::F1 => {
            reveal_strlit("F1");
            assert(key_name(k) =~= seq!['F', '1']);
        },
        Key::F2 => {
            reveal_strlit("F2");
            assert(key_name(k) =~= seq!['F', '2']);
        },
        Key::F3 => {
            reveal_strlit("F3");
            assert(key_name(k) =~= seq!['F', '3']);
        },
        Key::F4 => {
            reveal_strlit("F4");
            assert(key_name(k) =~= seq!['F', '4']);
        },
        Key::F5 => {
            reveal_strlit("F5");
            assert(key_name(k) =~= seq!['F', '5']);
        },
        Key::F6 => {
            reveal_strlit("F6");
            assert(key_name(k) =~= seq!['F', '6']);
        },
        Key::F7 => {
            reveal_strlit("F7");
            assert(key_name(k) =~= seq!['F', '7']);
        },
        Key::F8 => {
            reveal_strlit("F8");
            assert(key_name(k) =~= seq!['F', '8']);
        },
        Key::F9 => {
            reveal_strlit("F9");
            assert(key_name(k) =~= seq!['F', '9']);
        },
        Key::F10 => {
            reveal_strlit("F10");
            assert(key_name(k) =~= seq!['F', '1', '0']);
        },
        Key::F11 => {
            reveal_strlit("F11");
            assert(key_name(k) =~= seq!['F', '1', '1']);
        },
        Key::F12 => {
            reveal_strlit("F12");
            assert(key_name(k) =~= seq!['F', '1', '2']);
        },
        Key::KeyA => {
            reveal_strlit("KeyA");
            assert(key_name(k) =~= seq!['K', 'e', 'y', 'A']);
        },
        Key::KeyB => {
            reveal_strlit("KeyB");
            assert(key_name(k) =~= seq!['K', 'e', 'y', 'B']);
        },
        Key::KeyC => {
            reveal_strlit("KeyC");
            assert(key_name(k) =~= seq!['K', 'e', 'y', 'C']);
        },
        Key::KeyD => {
            reveal_strlit("KeyD");
            assert(key_name(k) =~= seq!['K', 'e', 'y', 'D']);
        },
        Key::KeyE => {
            reveal_strlit("KeyE");
            assert(key_name(k) =~= seq!['K', 'e', 'y', 'E']);
        },
        Key::KeyF => {
            reveal_strlit("KeyF");
            assert(key_name(k) =~= seq!['K', 'e', 'y', 'F']);
        },
        Key::KeyG => {
            reveal_strlit("KeyG");
            assert(key_name(k) =~= seq!['K', 'e', 'y', 'G']);
        },
        Key::KeyH => {
            reveal_strlit("KeyH");
            assert(key_name(k) =~= seq!['K', 'e', 'y', 'H']);
        },
        Key::KeyI => {
            reveal_strlit("KeyI");
            assert(key_name(k) =~= seq!['K', 'e', 'y', 'I']);
        },
        Key::KeyJ => {
            reveal_strlit("KeyJ");
            assert(key_name(k) =~= seq!['K', 'e', 'y', 'J']);
        },
        Key::KeyK => {
            reveal_strlit("KeyK");
            assert(key_name(k) =~= seq!['K', 'e', 'y', 'K']);
        },
        Key::KeyL => {
            reveal_strlit("KeyL");
            assert(key_name(k) =~= seq!['K', 'e', 'y', 'L']);
        },
        Key::KeyM => {
            reveal_strlit("KeyM");
            assert(key_name(k) =~= seq!['K', 'e', 'y', 'M']);
        },
        Key::KeyN => {
            reveal_strlit("KeyN");
            assert(key_name(k) =~= seq!['K', 'e', 'y', 'N']);
        },
        Key::KeyO => {
            reveal_strlit("KeyO");
            assert(key_name(k) =~= seq!['K', 'e', 'y', 'O']);
        },
        Key::KeyP => {
            reveal_strlit("KeyP");
            assert(key_name(k) =~= seq!['K', 'e', 'y', 'P']);
        },
        Key::KeyQ => {
            reveal_strlit("KeyQ");
            assert(key_name(k) =~= seq!['K', 'e', 'y', 'Q']);
        },
        Key::KeyR => {
            reveal_strlit("KeyR");
            assert(key_name(k) =~= seq!['K', 'e', 'y', 'R']);
        },
        Key::KeyS => {
            reveal_strlit("KeyS");
            assert(key_name(k) =~= seq!['K', 'e', 'y', 'S']);
        },
        Key::KeyT => {
            reveal_strlit("KeyT");
            assert(key_name(k) =~= seq!['K', 'e', 'y', 'T']);
        },
        Key::KeyU => {
            reveal_strlit("KeyU");
            assert(key_name(k) =~= seq!['K', 'e', 'y', 'U']);
        },
        Key::KeyV => {
            reveal_strlit("KeyV");
            assert(key_name(k) =~= seq!['K', 'e', 'y', 'V']);
        },
        Key::KeyW => {
            reveal_strlit("KeyW");
            assert(key_name(k) =~= seq!['K', 'e', 'y', 'W']);
        },
        Key::KeyX => {
            reveal_strlit("KeyX");
            assert(key_name(k) =~= seq!['K', 'e', 'y', 'X']);
        },
        Key::KeyY => {
            reveal_strlit("KeyY");
            assert(key_name(k) =~= seq!['K', 'e', 'y', 'Y']);
        },
        Key::KeyZ => {
            reveal_strlit("KeyZ");
            assert(key_name(k) =~= seq!['K', 'e', 'y', 'Z']);
        },
        Key::Num0 => {
            reveal_strlit("Num0");
            assert(key_name(k) =~= seq!['N', 'u', 'm', '0']);
        },
        Key::Num1 => {
            reveal_strlit("Num1");
            assert(key_name(k) =~= seq!['N', 'u', 'm', '1']);
        },
        Key::Num2 => {
            reveal_strlit("Num2");
            assert(key_name(k) =~= seq!['N', 'u', 'm', '2']);
        },
        Key::Num3 => {
            reveal_strlit("Num3");
            assert(key_name(k) =~= seq!['N', 'u', 'm', '3']);
        },
        Key::Num4 => {
            reveal_strlit("Num4");
            assert(key_name(k) =~= seq!['N', 'u', 'm', '4']);
        },
        Key::Num5 => {
            reveal_strlit("Num5");
            assert(key_name(k) =~= seq!['N', 'u', 'm', '5']);
        },
        Key::Num6 => {
            reveal_strlit("Num6");
            assert(key_name(k) =~= seq!['N', 'u', 'm', '6']);
        },
        Key::Num7 => {
            reveal_strlit("Num7");
            assert(key_name(k) =~= seq!['N', 'u', 'm', '7']);
        },
        Key::Num8 => {
            reveal_strlit("Num8");
            assert(key_name(k) =~= seq!['N', 'u', 'm', '8']);
        },
        Key::Num9 => {
            reveal_strlit("Num9");
            assert(key_name(k) =~= seq!['N', 'u', 'm', '9']);
        },
        Key::Minus => {
            reveal_strlit("Minus");
            assert(key_name(k) =~= seq!['M', 'i', 'n', 'u', 's']);
        },
        Key::Equal => {
            reveal_strlit("Equal");
            assert(key_name(k) =~= seq!['E', 'q', 'u', 'a', 'l']);
        },
        Key::BracketLeft => {
            reveal_strlit("BracketLeft");
            assert(key_name(k) =~= seq!['B', 'r', 'a', 'c', 'k', 'e', 't', 'L', 'e', 'f', 't']);
        },
        Key::BracketRight => {
            reveal_strlit("BracketRight");
            assert(key_name(k) =~= seq!['B', 'r', 'a', 'c', 'k', 'e', 't', 'R', 'i', 'g', 'h', 't']);
        },
        Key::Backslash => {
            reveal_strlit("Backslash");
            assert(key_name(k) =~= seq!['B', 'a', 'c', 'k', 's', 'l', 'a', 's', 'h']);
        },
        Key::Semicolon => {
            reveal_strlit("Semicolon");
            assert(key_name(k) =~= seq!['S', 'e', 'm', 'i', 'c', 'o', 'l', 'o', 'n']);
        },
        Key::Quote => {
            reveal_strlit("Quote");
            assert(key_name(k) =~= seq!['Q', 'u', 'o', 't', 'e']);
        },
        Key::Comma => {
            reveal_strlit("Comma");
            assert(key_name(k) =~= seq!['C', 'o', 'm', 'm', 'a']);
        },
        Key::Period => {
            reveal_strlit("Period");
            assert(key_name(k) =~= seq!['P', 'e', 'r', 'i', 'o', 'd']);
        },
        Key::Slash => {
            reveal_strlit("Slash");
            assert(key_name(k) =~= seq!['S', 'l', 'a', 's', 'h']);
        },
        Key::Grave => {
            reveal_strlit("Grave");
            assert(key_name(k) =~= seq!['G', 'r', 'a', 'v', 'e']);
        },
        Key::ShiftLeft => {
            reveal_strlit("ShiftLeft");
            assert(key_name(k) =~= seq!['S', 'h', 'i', 'f', 't', 'L', 'e', 'f', 't']);
        },
        Key::ShiftRight => {
            reveal_strlit("ShiftRight");
            assert(key_name(k) =~= seq!['S', 'h', 'i', 'f', 't', 'R', 'i', 'g', 'h', 't']);
        },
        Key::ControlLeft => {
            reveal_strlit("ControlLeft");
            assert(key_name(k) =~= seq!['C', 'o', 'n', 't', 'r', 'o', 'l', 'L', 'e', 'f', 't']);
        },
        Key::ControlRight => {
            reveal_strlit("ControlRight");
            assert(key_name(k) =~= seq!['C', 'o', 'n', 't', 'r', 'o', 'l', 'R', 'i', 'g', 'h', 't']);
        },
        Key::AltLeft => {
            reveal_strlit("AltLeft");
            assert(key_name(k) =~= seq!['A', 'l', 't', 'L', 'e', 'f', 't']);
        },
        Key::AltRight => {
            reveal_strlit("AltRight");
            assert(key_name(k) =~= seq!['A', 'l', 't', 'R', 'i', 'g', 'h', 't']);
        },
        Key::MetaLeft => {
            reveal_strlit("MetaLeft");
            assert(key_name(k) =~= seq!['M', 'e', 't', 'a', 'L', 'e', 'f', 't']);
        },
        Key::MetaRight => {
            reveal_strlit("MetaRight");
            assert(key_name(k) =~= seq!['M', 'e', 't', 'a', 'R', 'i', 'g', 'h', 't']);
        },
        _ => {},
    }
}

/// A bindable key's name reads back as that key.
pub proof fn lemma_key_name_reads_back(k: Key)
    requires
        is_bindable_key(k),
    ensures
        key_from_name(key_name(k)) == Some(k),
{
    let s = key_name(k);
    assert(is_bindable_key(k) && key_name(k) == s);
    let c = choose|c: Key| is_bindable_key(c) && key_name(c) == s;
    lemma_bindable_names_distinct(c, k);
}

/// Tells all keys apart by their names: a name that begins with `U` is
/// that of an unnamed key, whose code is the number in the parentheses;
/// otherwise a few characters of the name (and its length) decide the key.
spec fn key_by_name(s: Seq<char>) -> Key {
    if s[0] == 'U' {
        Key::Unknown(digits_value(s.subrange(8, s.len() - 1)) as u32)
    } else {
        if s[s.len() - 1] == 'A' {
            Key::KeyA
        } else if s[s.len() - 1] == 'B' {
            Key::KeyB
        } else if s[s.len() - 1] == 'C' {
            Key::KeyC
        } else if s[s.len() - 1] == 'D' {
            Key::KeyD
        } else if s[s.len() - 1] == 'E' {
            Key::KeyE
        } else if s[s.len() - 1] == 'F' {
            Key::KeyF
        } else if s[s.len() - 1] == 'G' {
            Key::KeyG
        } else if s[s.len() - 1] == 'H' {
            Key::KeyH
        } else if s[s.len() - 1] == 'I' {
            Key::KeyI
        } else if s[s.len() - 1] == 'J' {
            Key::KeyJ
        } else if s[s.len() - 1] == 'K' {
            Key::KeyK
        } else if s[s.len() - 1] == 'L' {
            Key::KeyL
        } else if s[s.len() - 1] == 'M' {
            Key::KeyM
        } else if s[s.len() - 1] == 'N' {
            Key::KeyN
        } else if s[s.len() - 1] == 'O' {
            Key::KeyO
        } else if s[s.len() - 1] == 'P' {
            Key::KeyP
        } else if s[s.len() - 1] == 'Q' {
            Key::KeyQ
        } else if s[s.len() - 1] == 'R' {
            Key::KeyR
        } else if s[s.len() - 1] == 'S' {
            Key::KeyS
        } else if s[s.len() - 1] == 'T' {
            Key::KeyT
        } else if s[s.len() - 1] == 'U' {
            Key::KeyU
        } else if s[s.len() - 1] == 'V' {
            Key::KeyV
        } else if s[s.len() - 1] == 'W' {
            Key::KeyW
        } else if s[s.len() - 1] == 'X' {
            Key::KeyX
        } else if s[s.len() - 1] == 'Y' {
            Key::KeyY
        } else if s[s.len() - 1] == 'Z' {
            Key::KeyZ
        } else if s[s.len() - 1] == '0' {
            if s[s.len() - 2] == 'm' {
                Key::Num0
            } else if s[s.len() - 2] == '1' {
                Key::F10
            } else if s[s.len() - 2] == '2' {
                Key::F20
            } else {
                Key::Numpad0
            }
        } else if s[s.len() - 1] == '1' {
            if s[s.len() - 2] == 'm' {
                Key::Num1
            } else if s[s.len() - 2] == 'F' {
                Key::F1
            } else if s[s.len() - 2] == '1' {
                Key::F11
            } else if s[s.len() - 2] == '2' {
                Key::F21
            } else if s[s.len() - 2] == 'd' {
                Key::Numpad1
            } else {
                Key::LaunchApp1
            }
        } else if s[s.len() - 1] == '2' {
            if s[s.len() - 2] == 'm' {
                Key::Num2
            } else if s[s.len() - 2] == 'F' {
                Key::F2
            } else if s[s.len() - 2] == '1' {
                Key::F12
            } else if s[s.len() - 2] == '2' {
                Key::F22
            } else if s[s.len() - 2] == 'd' {
                Key::Numpad2
            } else {
                Key::LaunchApp2
            }
        } else if s[s.len() - 1] == '3' {
            if s[s.len() - 2] == 'm' {
                Key::Num3
            } else if s[s.len() - 2] == 'F' {
                Key::F3
            } else if s[s.len() - 2] == '1' {
                Key::F13
            } else if s[s.len() - 2] == '2' {
                Key::F23
            } else {
                Key::Numpad3
            }
        } else if s[s.len() - 1] == '4' {
            if s[s.len() - 2] == 'm' {
                Key::Num4
            } else if s[s.len() - 2] == 'F' {
                Key::F4
            } else if s[s.len() - 2] == '1' {
                Key::F14
            } else if s[s.len() - 2] == '2' {
                Key::F24
            } else {
                Key::Numpad4
            }
        } else if s[s.len() - 1] == '5' {
            if s.len() == 4 {
                Key::Num5
            } else if s.len() == 2 {
                Key::F5
            } else if s.len() == 3 {
                Key::F15
            } else {
                Key::Numpad5
            }
        } else if s[s.len() - 1] == '6' {
            if s.len() == 4 {
                Key::Num6
            } else if s.len() == 2 {
                Key::F6
            } else if s.len() == 3 {
                Key::F16
            } else {
                Key::Numpad6
            }
        } else if s[s.len() - 1] == '7' {
            if s.len() == 4 {
                Key::Num7
            } else if s.len() == 2 {
                Key::F7
            } else if s.len() == 3 {
                Key::F17
            } else {
                Key::Numpad7
            }
        } else if s[s.len() - 1] == '8' {
            if s.len() == 4 {
                Key::Num8
            } else if s.len() == 2 {
                Key::F8
            } else if s.len() == 3 {
                Key::F18
            } else {
                Key::Numpad8
            }
        } else if s[s.len() - 1] == '9' {
            if s.len() == 4 {
                Key::Num9
            } else if s.len() == 2 {
                Key::F9
            } else if s.len() == 3 {
                Key::F19
            } else {
                Key::Numpad9
            }
        } else if s[s.len() - 1] == 't' {
            if s[3] == 'f' {
                if s.len() == 9 {
                    Key::ShiftLeft
                } else {
                    Key::ShiftRight
                }
            } else if s[3] == 't' {
                if s.len() == 11 {
                    Key::ControlLeft
                } else {
                    Key::ControlRight
                }
            } else if s[3] == 'L' {
                Key::AltLeft
            } else if s[3] == 'R' {
                Key::AltRight
            } else if s[3] == 'a' {
                if s.len() == 8 {
                    Key::MetaLeft
                } else {
                    Key::MetaRight
                }
            } else if s[3] == 'e' {
                Key::Insert
            } else if s[3] == 'o' {
                if s.len() == 9 {
                    Key::ArrowLeft
                } else {
                    Key::ArrowRight
                }
            } else if s[3] == 'c' {
                if s.len() == 11 {
                    Key::BracketLeft
                } else {
                    Key::BracketRight
                }
            } else if s[3] == 'p' {
                Key::NumpadSubtract
            } else {
                Key::MediaNext
            }
        } else if s[s.len() - 1] == 'e' {
            if s[0] == 'E' {
                Key::Escape
            } else if s[0] == 'S' {
                Key::Space
            } else if s[0] == 'B' {
                if s.len() == 9 {
                    Key::Backspace
                } else {
                    Key::BrowserHome
                }
            } else if s[0] == 'D' {
                Key::Delete
            } else if s[0] == 'H' {
                Key::Home
            } else if s[0] == 'P' {
                Key::Pause
            } else if s[0] == 'G' {
                Key::Grave
            } else if s[0] == 'Q' {
                Key::Quote
            } else if s[0] == 'N' {
                Key::NumpadDivide
            } else if s[0] == 'V' {
                Key::VolumeMute
            } else {
                Key::MediaPlayPause
            }
        } else if s[s.len() - 1] == 'b' {
            Key::Tab
        } else if s[s.len() - 1] == 'k' {
            if s.len() == 8 {
                Key::CapsLock
            } else if s.len() == 7 {
                Key::NumLock
            } else if s.len() == 10 {
                Key::ScrollLock
            } else {
                Key::BrowserBack
            }
        } else if s[s.len() - 1] == 'r' {
            if s.len() == 5 {
                Key::Enter
            } else {
                Key::NumpadEnter
            }
        } else if s[s.len() - 1] == 'd' {
            if s.len() == 3 {
                Key::End
            } else if s.len() == 6 {
                Key::Period
            } else if s.len() == 9 {
                Key::NumpadAdd
            } else {
                Key::BrowserForward
            }
        } else if s[s.len() - 1] == 'p' {
            if s.len() == 6 {
                Key::PageUp
            } else if s.len() == 7 {
                Key::ArrowUp
            } else if s.len() == 8 {
                Key::VolumeUp
            } else if s.len() == 9 {
                Key::MediaStop
            } else {
                Key::BrowserStop
            }
        } else if s[s.len() - 1] == 'n' {
            if s[2] == 'g' {
                Key::PageDown
            } else if s[2] == 'r' {
                Key::ArrowDown
            } else if s[2] == 'i' {
                Key::PrintScreen
            } else if s[2] == 'm' {
                Key::Semicolon
            } else if s[2] == 'l' {
                Key::VolumeDown
            } else {
                Key::IntlYen
            }
        } else if s[s.len() - 1] == 's' {
            if s.len() == 5 {
                Key::Minus
            } else if s.len() == 13 {
                Key::MediaPrevious
            } else {
                Key::BrowserFavorites
            }
        } else if s[s.len() - 1] == 'l' {
            if s.len() == 5 {
                Key::Equal
            } else if s.len() == 13 {
                Key::NumpadDecimal
            } else if s.len() == 11 {
                Key::NumpadEqual
            } else {
                Key::LaunchMail
            }
        } else if s[s.len() - 1] == 'h' {
            if s.len() == 9 {
                Key::Backslash
            } else if s.len() == 5 {
                Key::Slash
            } else if s.len() == 14 {
                Key::BrowserRefresh
            } else {
                if s[0] == 'B' {
                    Key::BrowserSearch
                } else {
                    Key::IntlBackslash
                }
            }
        } else if s[s.len() - 1] == 'a' {
            Key::Comma
        } else if s[s.len() - 1] == 'y' {
            Key::NumpadMultiply
        } else if s[s.len() - 1] == 'o' {
            Key::IntlRo
        } else {
            Key::ContextMenu
        }
    }
}

/// Every key's name leads back to that key.
proof fn lemma_name_decides_key(k: Key)
    ensures
        key_by_name(key_name(k)) == k,
{
    match k {
        Key::KeyA => {
            reveal_strlit("KeyA");
        },
        Key::KeyB => {
            reveal_strlit("KeyB");
        },
        Key::KeyC => {
            reveal_strlit("KeyC");
        },
        Key::KeyD => {
            reveal_strlit("KeyD");
        },
        Key::KeyE => {
            reveal_strlit("KeyE");
        },
        Key::KeyF => {
            reveal_strlit("KeyF");
        },
        Key::KeyG => {
            reveal_strlit("KeyG");
        },
        Key::KeyH => {
            reveal_strlit("KeyH");
        },
        Key::KeyI => {
            reveal_strlit("KeyI");
        },
        Key::KeyJ => {
            reveal_strlit("KeyJ");
        },
        Key::KeyK => {
            reveal_strlit("KeyK");
        },
        Key::KeyL => {
            reveal_strlit("KeyL");
        },
        Key::KeyM => {
            reveal_strlit("KeyM");
        },
        Key::KeyN => {
            reveal_strlit("KeyN");
        },
        Key::KeyO => {
            reveal_strlit("KeyO");
        },
        Key::KeyP => {
            reveal_strlit("KeyP");
        },
        Key::KeyQ => {
            reveal_strlit("KeyQ");
        },
        Key::KeyR => {
            reveal_strlit("KeyR");
        },
        Key::KeyS => {
            reveal_strlit("KeyS");
        },
        Key::KeyT => {
            reveal_strlit("KeyT");
        },
        Key::KeyU => {
            reveal_strlit("KeyU");
        },
        Key::KeyV => {
            reveal_strlit("KeyV");
        },
        Key::KeyW => {
            reveal_strlit("KeyW");
        },
        Key::KeyX => {
            reveal_strlit("KeyX");
        },
        Key::KeyY => {
            reveal_strlit("KeyY");
        },
        Key::KeyZ => {
            reveal_strlit("KeyZ");
        },
        Key::Num0 => {
            reveal_strlit("Num0");
        },
        Key::Num1 => {
            reveal_strlit("Num1");
        },
        Key::Num2 => {
            reveal_strlit("Num2");
        },
        Key::Num3 => {
            reveal_strlit("Num3");
        },
        Key::Num4 => {
            reveal_strlit("Num4");
        },
        Key::Num5 => {
            reveal_strlit("Num5");
        },
        Key::Num6 => {
            reveal_strlit("Num6");
        },
        Key::Num7 => {
            reveal_strlit("Num7");
        },
        Key::Num8 => {
            reveal_strlit("Num8");
        },
        Key::Num9 => {
            reveal_strlit("Num9");
        },
        Key::F1 => {
            reveal_strlit("F1");
        },
        Key::F2 => {
            reveal_strlit("F2");
        },
        Key::F3 => {
            reveal_strlit("F3");
        },
        Key::F4 => {
            reveal_strlit("F4");
        },
        Key::F5 => {
            reveal_strlit("F5");
        },
        Key::F6 => {
            reveal_strlit("F6");
        },
        Key::F7 => {
            reveal_strlit("F7");
        },
        Key::F8 => {
            reveal_strlit("F8");
        },
        Key::F9 => {
            reveal_strlit("F9");
        },
        Key::F10 => {
            reveal_strlit("F10");
        },
        Key::F11 => {
            reveal_strlit("F11");
        },
        Key::F12 => {
            reveal_strlit("F12");
        },
        Key::F13 => {
            reveal_strlit("F13");
        },
        Key::F14 => {
            reveal_strlit("F14");
        },
        Key::F15 => {
            reveal_strlit("F15");
        },
        Key::F16 => {
            reveal_strlit("F16");
        },
        Key::F17 => {
            reveal_strlit("F17");
        },
        Key::F18 => {
            reveal_strlit("F18");
        },
        Key::F19 => {
            reveal_strlit("F19");
        },
        Key::F20 => {
            reveal_strlit("F20");
        },
        Key::F21 => {
            reveal_strlit("F21");
        },
        Key::F22 => {
            reveal_strlit("F22");
        },
        Key::F23 => {
            reveal_strlit("F23");
        },
        Key::F24 => {
            reveal_strlit("F24");
        },
        Key::ShiftLeft => {
            reveal_strlit("ShiftLeft");
        },
        Key::ShiftRight => {
            reveal_strlit("ShiftRight");
        },
        Key::ControlLeft => {
            reveal_strlit("ControlLeft");
        },
        Key::ControlRight => {
            reveal_strlit("ControlRight");
        },
        Key::AltLeft => {
            reveal_strlit("AltLeft");
        },
        Key::AltRight => {
            reveal_strlit("AltRight");
        },
        Key::MetaLeft => {
            reveal_strlit("MetaLeft");
        },
        Key::MetaRight => {
            reveal_strlit("MetaRight");
        },
        Key::Escape => {
            reveal_strlit("Escape");
        },
        Key::Tab => {
            reveal_strlit("Tab");
        },
        Key::CapsLock => {
            reveal_strlit("CapsLock");
        },
        Key::Space => {
            reveal_strlit("Space");
        },
        Key::Enter => {
            reveal_strlit("Enter");
        },
        Key::Backspace => {
            reveal_strlit("Backspace");
        },
        Key::Insert => {
            reveal_strlit("Insert");
        },
        Key::Delete => {
            reveal_strlit("Delete");
        },
        Key::Home => {
            reveal_strlit("Home");
        },
        Key::End => {
            reveal_strlit("End");
        },
        Key::PageUp => {
            reveal_strlit("PageUp");
        },
        Key::PageDown => {
            reveal_strlit("PageDown");
        },
        Key::ArrowUp => {
            reveal_strlit("ArrowUp");
        },
        Key::ArrowDown => {
            reveal_strlit("ArrowDown");
        },
        Key::ArrowLeft => {
            reveal_strlit("ArrowLeft");
        },
        Key::ArrowRight => {
            reveal_strlit("ArrowRight");
        },
        Key::NumLock => {
            reveal_strlit("NumLock");
        },
        Key::ScrollLock => {
            reveal_strlit("ScrollLock");
        },
        Key::PrintScreen => {
            reveal_strlit("PrintScreen");
        },
        Key::Pause => {
            reveal_strlit("Pause");
        },
        Key::Grave => {
            reveal_strlit("Grave");
        },
        Key::Minus => {
            reveal_strlit("Minus");
        },
        Key::Equal => {
            reveal_strlit("Equal");
        },
        Key::BracketLeft => {
            reveal_strlit("BracketLeft");
        },
        Key::BracketRight => {
            reveal_strlit("BracketRight");
        },
        Key::Backslash => {
            reveal_strlit("Backslash");
        },
        Key::Semicolon => {
            reveal_strlit("Semicolon");
        },
        Key::Quote => {
            reveal_strlit("Quote");
        },
        Key::Comma => {
            reveal_strlit("Comma");
        },
        Key::Period => {
            reveal_strlit("Period");
        },
        Key::Slash => {
            reveal_strlit("Slash");
        },
        Key::Numpad0 => {
            reveal_strlit("Numpad0");
        },
        Key::Numpad1 => {
            reveal_strlit("Numpad1");
        },
        Key::Numpad2 => {
            reveal_strlit("Numpad2");
        },
        Key::Numpad3 => {
            reveal_strlit("Numpad3");
        },
        Key::Numpad4 => {
            reveal_strlit("Numpad4");
        },
        Key::Numpad5 => {
            reveal_strlit("Numpad5");
        },
        Key::Numpad6 => {
            reveal_strlit("Numpad6");
        },
        Key::Numpad7 => {
            reveal_strlit("Numpad7");
        },
        Key::Numpad8 => {
            reveal_strlit("Numpad8");
        },
        Key::Numpad9 => {
            reveal_strlit("Numpad9");
        },
        Key::NumpadAdd => {
            reveal_strlit("NumpadAdd");
        },
        Key::NumpadSubtract => {
            reveal_strlit("NumpadSubtract");
        },
        Key::NumpadMultiply => {
            reveal_strlit("NumpadMultiply");
        },
        Key::NumpadDivide => {
            reveal_strlit("NumpadDivide");
        },
        Key::NumpadDecimal => {
            reveal_strlit("NumpadDecimal");
        },
        Key::NumpadEnter => {
            reveal_strlit("NumpadEnter");
        },
        Key::NumpadEqual => {
            reveal_strlit("NumpadEqual");
        },
        Key::VolumeUp => {
            reveal_strlit("VolumeUp");
        },
        Key::VolumeDown => {
            reveal_strlit("VolumeDown");
        },
        Key::VolumeMute => {
            reveal_strlit("VolumeMute");
        },
        Key::MediaPlayPause => {
            reveal_strlit("MediaPlayPause");
        },
        Key::MediaStop => {
            reveal_strlit("MediaStop");
        },
        Key::MediaNext => {
            reveal_strlit("MediaNext");
        },
        Key::MediaPrevious => {
            reveal_strlit("MediaPrevious");
        },
        Key::BrowserBack => {
            reveal_strlit("BrowserBack");
        },
        Key::BrowserForward => {
            reveal_strlit("BrowserForward");
        },
        Key::BrowserRefresh => {
            reveal_strlit("BrowserRefresh");
        },
        Key::BrowserStop => {
            reveal_strlit("BrowserStop");
        },
        Key::BrowserSearch => {
            reveal_strlit("BrowserSearch");
        },
        Key::BrowserFavorites => {
            reveal_strlit("BrowserFavorites");
        },
        Key::BrowserHome => {
            reveal_strlit("BrowserHome");
        },
        Key::LaunchMail => {
            reveal_strlit("LaunchMail");
        },
        Key::LaunchApp1 => {
            reveal_strlit("LaunchApp1");
        },
        Key::LaunchApp2 => {
            reveal_strlit("LaunchApp2");
        },
        Key::IntlBackslash => {
            reveal_strlit("IntlBackslash");
        },
        Key::IntlYen => {
            reveal_strlit("IntlYen");
        },
        Key::IntlRo => {
            reveal_strlit("IntlRo");
        },
        Key::ContextMenu => {
            reveal_strlit("ContextMenu");
        },
        Key::Unknown(code) => {
            reveal_strlit("Unknown(");
            reveal_strlit(")");
            lemma_decimal_reads_back(code as nat);
            let s = key_name(k);
            assert(s[0] == 'U');
            assert(s.subrange(8, s.len() - 1) =~= decimal(code as nat));
        },
    }
}

/// No two keys, named or not, share a name: the name of the key that an
/// event reports determines that key.
pub proof fn lemma_key_names_distinct(a: Key, b: Key)
    requires
        key_name(a) == key_name(b),
    ensures
        a == b,
{
    lemma_name_decides_key(a);
    lemma_name_decides_key(b);
}

/// No key's name holds a `+` sign, so a name written after a modifier
/// prefix is found again after the last `+`.
pub proof fn lemma_key_name_has_no_plus(k: Key)
    ensures
        no_plus(key_name(k)),
{
    match k {
        Key::KeyA => {
            reveal_strlit("KeyA");
            assert(key_name(k) =~= seq!['K', 'e', 'y', 'A']);
        },
        Key::KeyB => {
            reveal_strlit("KeyB");
            assert(key_name(k) =~= seq!['K', 'e', 'y', 'B']);
        },
        Key::KeyC => {
            reveal_strlit("KeyC");
            assert(key_name(k) =~= seq!['K', 'e', 'y', 'C']);
        },
        Key::KeyD => {
            reveal_strlit("KeyD");
            assert(key_name(k) =~= seq!['K', 'e', 'y', 'D']);
        },
        Key::KeyE => {
            reveal_strlit("KeyE");
            assert(key_name(k) =~= seq!['K', 'e', 'y', 'E']);
        },
        Key::KeyF => {
            reveal_strlit("KeyF");
            assert(key_name(k) =~= seq!['K', 'e', 'y', 'F']);
        },
        Key::KeyG => {
            reveal_strlit("KeyG");
            assert(key_name(k) =~= seq!['K', 'e', 'y', 'G']);
        },
        Key::KeyH => {
            reveal_strlit("KeyH");
            assert(key_name(k) =~= seq!['K', 'e', 'y', 'H']);
        },
        Key::KeyI => {
            reveal_strlit("KeyI");
            assert(key_name(k) =~= seq!['K', 'e', 'y', 'I']);
        },
        Key::KeyJ => {
            reveal_strlit("KeyJ");
            assert(key_name(k) =~= seq!['K', 'e', 'y', 'J']);
        },
        Key::KeyK => {
            reveal_strlit("KeyK");
            assert(key_name(k) =~= seq!['K', 'e', 'y', 'K']);
        },
        Key::KeyL => {
            reveal_strlit("KeyL");
            assert(key_name(k) =~= seq!['K', 'e', 'y', 'L']);
        },
        Key::KeyM => {
            reveal_strlit("KeyM");
            assert(key_name(k) =~= seq!['K', 'e', 'y', 'M']);
        },
        Key::KeyN => {
            reveal_strlit("KeyN");
            assert(key_name(k) =~= seq!['K', 'e', 'y', 'N']);
        },
        Key::KeyO => {
            reveal_strlit("KeyO");
            assert(key_name(k) =~= seq!['K', 'e', 'y', 'O']);
        },
        Key::KeyP => {
            reveal_strlit("KeyP");
            assert(key_name(k) =~= seq!['K', 'e', 'y', 'P']);
        },
        Key::KeyQ => {
            reveal_strlit("KeyQ");
            assert(key_name(k) =~= seq!['K', 'e', 'y', 'Q']);
        },
        Key::KeyR => {
            reveal_strlit("KeyR");
            assert(key_name(k) =~= seq!['K', 'e', 'y', 'R']);
        },
        Key::KeyS => {
            reveal_strlit("KeyS");
            assert(key_name(k) =~= seq!['K', 'e', 'y', 'S']);
        },
        Key::KeyT => {
            reveal_strlit("KeyT");
            assert(key_name(k) =~= seq!['K', 'e', 'y', 'T']);
        },
        Key::KeyU => {
            reveal_strlit("KeyU");
            assert(key_name(k) =~= seq!['K', 'e', 'y', 'U']);
        },
        Key::KeyV => {
            reveal_strlit("KeyV");
            assert(key_name(k) =~= seq!['K', 'e', 'y', 'V']);
        },
        Key::KeyW => {
            reveal_strlit("KeyW");
            assert(key_name(k) =~= seq!['K', 'e', 'y', 'W']);
        },
        Key::KeyX => {
            reveal_strlit("KeyX");
            assert(key_name(k) =~= seq!['K', 'e', 'y', 'X']);
        },
        Key::KeyY => {
            reveal_strlit("KeyY");
            assert(key_name(k) =~= seq!['K', 'e', 'y', 'Y']);
        },
        Key::KeyZ => {
            reveal_strlit("KeyZ");
            assert(key_name(k) =~= seq!['K', 'e', 'y', 'Z']);
        },
        Key::Num0 => {
            reveal_strlit("Num0");
            assert(key_name(k) =~= seq!['N', 'u', 'm', '0']);
        },
        Key::Num1 => {
            reveal_strlit("Num1");
            assert(key_name(k) =~= seq!['N', 'u', 'm', '1']);
        },
        Key::Num2 => {
            reveal_strlit("Num2");
            assert(key_name(k) =~= seq!['N', 'u', 'm', '2']);
        },
        Key::Num3 => {
            reveal_strlit("Num3");
            assert(key_name(k) =~= seq!['N', 'u', 'm', '3']);
        },
        Key::Num4 => {
            reveal_strlit("Num4");
            assert(key_name(k) =~= seq!['N', 'u', 'm', '4']);
        },
        Key::Num5 => {
            reveal_strlit("Num5");
            assert(key_name(k) =~= seq!['N', 'u', 'm', '5']);
        },
        Key::Num6 => {
            reveal_strlit("Num6");
            assert(key_name(k) =~= seq!['N', 'u', 'm', '6']);
        },
        Key::Num7 => {
            reveal_strlit("Num7");
            assert(key_name(k) =~= seq!['N', 'u', 'm', '7']);
        },
        Key::Num8 => {
            reveal_strlit("Num8");
            assert(key_name(k) =~= seq!['N', 'u', 'm', '8']);
        },
        Key::Num9 => {
            reveal_strlit("Num9");
            assert(key_name(k) =~= seq!['N', 'u', 'm', '9']);
        },
        Key::F1 => {
            reveal_strlit("F1");
            assert(key_name(k) =~= seq!['F', '1']);
        },
        Key::F2 => {
            reveal_strlit("F2");
            assert(key_name(k) =~= seq!['F', '2']);
        },
        Key::F3 => {
            reveal_strlit("F3");
            assert(key_name(k) =~= seq!['F', '3']);
        },
        Key::F4 => {
            reveal_strlit("F4");
            assert(key_name(k) =~= seq!['F', '4']);
        },
        Key::F5 => {
            reveal_strlit("F5");
            assert(key_name(k) =~= seq!['F', '5']);
        },
        Key::F6 => {
            reveal_strlit("F6");
            assert(key_name(k) =~= seq!['F', '6']);
        },
        Key::F7 => {
            reveal_strlit("F7");
            assert(key_name(k) =~= seq!['F', '7']);
        },
        Key::F8 => {
            reveal_strlit("F8");
            assert(key_name(k) =~= seq!['F', '8']);
        },
        Key::F9 => {
            reveal_strlit("F9");
            assert(key_name(k) =~= seq!['F', '9']);
        },
        Key::F10 => {
            reveal_strlit("F10");
            assert(key_name(k) =~= seq!['F', '1', '0']);
        },
        Key::F11 => {
            reveal_strlit("F11");
            assert(key_name(k) =~= seq!['F', '1', '1']);
        },
        Key::F12 => {
            reveal_strlit("F12");
            assert(key_name(k) =~= seq!['F', '1', '2']);
        },
        Key::F13 => {
            reveal_strlit("F13");
            assert(key_name(k) =~= seq!['F', '1', '3']);
        },
        Key::F14 => {
            reveal_strlit("F14");
            assert(key_name(k) =~= seq!['F', '1', '4']);
        },
        Key::F15 => {
            reveal_strlit("F15");
            assert(key_name(k) =~= seq!['F', '1', '5']);
        },
        Key::F16 => {
            reveal_strlit("F16");
            assert(key_name(k) =~= seq!['F', '1', '6']);
        },
        Key::F17 => {
            reveal_strlit("F17");
            assert(key_name(k) =~= seq!['F', '1', '7']);
        },
        Key::F18 => {
            reveal_strlit("F18");
            assert(key_name(k) =~= seq!['F', '1', '8']);
        },
        Key::F19 => {
            reveal_strlit("F19");
            assert(key_name(k) =~= seq!['F', '1', '9']);
        },
        Key::F20 => {
            reveal_strlit("F20");
            assert(key_name(k) =~= seq!['F', '2', '0']);
        },
        Key::F21 => {
            reveal_strlit("F21");
            assert(key_name(k) =~= seq!['F', '2', '1']);
        },
        Key::F22 => {
            reveal_strlit("F22");
            assert(key_name(k) =~= seq!['F', '2', '2']);
        },
        Key::F23 => {
            reveal_strlit("F23");
            assert(key_name(k) =~= seq!['F', '2', '3']);
        },
        Key::F24 => {
            reveal_strlit("F24");
            assert(key_name(k) =~= seq!['F', '2', '4']);
        },
        Key::ShiftLeft => {
            reveal_strlit("ShiftLeft");
            assert(key_name(k) =~= seq!['S', 'h', 'i', 'f', 't', 'L', 'e', 'f', 't']);
        },
        Key::ShiftRight => {
            reveal_strlit("ShiftRight");
            assert(key_name(k) =~= seq!['S', 'h', 'i', 'f', 't', 'R', 'i', 'g', 'h', 't']);
        },
        Key::ControlLeft => {
            reveal_strlit("ControlLeft");
            assert(key_name(k) =~= seq!['C', 'o', 'n', 't', 'r', 'o', 'l', 'L', 'e', 'f', 't']);
        },
        Key::ControlRight => {
            reveal_strlit("ControlRight");
            assert(key_name(k) =~= seq!['C', 'o', 'n', 't', 'r', 'o', 'l', 'R', 'i', 'g', 'h', 't']);
        },
        Key::AltLeft => {
            reveal_strlit("AltLeft");
            assert(key_name(k) =~= seq!['A', 'l', 't', 'L', 'e', 'f', 't']);
        },
        Key::AltRight => {
            reveal_strlit("AltRight");
            assert(key_name(k) =~= seq!['A', 'l', 't', 'R', 'i', 'g', 'h', 't']);
        },
        Key::MetaLeft => {
            reveal_strlit("MetaLeft");
            assert(key_name(k) =~= seq!['M', 'e', 't', 'a', 'L', 'e', 'f', 't']);
        },
        Key::MetaRight => {
            reveal_strlit("MetaRight");
            assert(key_name(k) =~= seq!['M', 'e', 't', 'a', 'R', 'i', 'g', 'h', 't']);
        },
        Key::Escape => {
            reveal_strlit("Escape");
            assert(key_name(k) =~= seq!['E', 's', 'c', 'a', 'p', 'e']);
        },
        Key::Tab => {
            reveal_strlit("Tab");
            assert(key_name(k) =~= seq!['T', 'a', 'b']);
        },
        Key::CapsLock => {
            reveal_strlit("CapsLock");
            assert(key_name(k) =~= seq!['C', 'a', 'p', 's', 'L', 'o', 'c', 'k']);
        },
        Key::Space => {
            reveal_strlit("Space");
            assert(key_name(k) =~= seq!['S', 'p', 'a', 'c', 'e']);
        },
        Key::Enter => {
            reveal_strlit("Enter");
            assert(key_name(k) =~= seq!['E', 'n', 't', 'e', 'r']);
        },
        Key::Backspace => {
            reveal_strlit("Backspace");
            assert(key_name(k) =~= seq!['B', 'a', 'c', 'k', 's', 'p', 'a', 'c', 'e']);
        },
        Key::Insert => {
            reveal_strlit("Insert");
            assert(key_name(k) =~= seq!['I', 'n', 's', 'e', 'r', 't']);
        },
        Key::Delete => {
            reveal_strlit("Delete");
            assert(key_name(k) =~= seq!['D', 'e', 'l', 'e', 't', 'e']);
        },
        Key::Home => {
            reveal_strlit("Home");
            assert(key_name(k) =~= seq!['H', 'o', 'm', 'e']);
        },
        Key::End => {
            reveal_strlit("End");
            assert(key_name(k) =~= seq!['E', 'n', 'd']);
        },
        Key::PageUp => {
            reveal_strlit("PageUp");
            assert(key_name(k) =~= seq!['P', 'a', 'g', 'e', 'U', 'p']);
        },
        Key::PageDown => {
            reveal_strlit("PageDown");
            assert(key_name(k) =~= seq!['P', 'a', 'g', 'e', 'D', 'o', 'w', 'n']);
        },
        Key::ArrowUp => {
            reveal_strlit("ArrowUp");
            assert(key_name(k) =~= seq!['A', 'r', 'r', 'o', 'w', 'U', 'p']);
        },
        Key::ArrowDown => {
            reveal_strlit("ArrowDown");
            assert(key_name(k) =~= seq!['A', 'r', 'r', 'o', 'w', 'D', 'o', 'w', 'n']);
        },
        Key::ArrowLeft => {
            reveal_strlit("ArrowLeft");
            assert(key_name(k) =~= seq!['A', 'r', 'r', 'o', 'w', 'L', 'e', 'f', 't']);
        },
        Key::ArrowRight => {
            reveal_strlit("ArrowRight");
            assert(key_name(k) =~= seq!['A', 'r', 'r', 'o', 'w', 'R', 'i', 'g', 'h', 't']);
        },
        Key::NumLock => {
            reveal_strlit("NumLock");
            assert(key_name(k) =~= seq!['N', 'u', 'm', 'L', 'o', 'c', 'k']);
        },
        Key::ScrollLock => {
            reveal_strlit("ScrollLock");
            assert(key_name(k) =~= seq!['S', 'c', 'r', 'o', 'l', 'l', 'L', 'o', 'c', 'k']);
        },
        Key::PrintScreen => {
            reveal_strlit("PrintScreen");
            assert(key_name(k) =~= seq!['P', 'r', 'i', 'n', 't', 'S', 'c', 'r', 'e', 'e', 'n']);
        },
        Key::Pause => {
            reveal_strlit("Pause");
            assert(key_name(k) =~= seq!['P', 'a', 'u', 's', 'e']);
        },
        Key::Grave => {
            reveal_strlit("Grave");
            assert(key_name(k) =~= seq!['G', 'r', 'a', 'v', 'e']);
        },
        Key::Minus => {
            reveal_strlit("Minus");
            assert(key_name(k) =~= seq!['M', 'i', 'n', 'u', 's']);
        },
        Key::Equal => {
            reveal_strlit("Equal");
            assert(key_name(k) =~= seq!['E', 'q', 'u', 'a', 'l']);
        },
        Key::BracketLeft => {
            reveal_strlit("BracketLeft");
            assert(key_name(k) =~= seq!['B', 'r', 'a', 'c', 'k', 'e', 't', 'L', 'e', 'f', 't']);
        },
        Key::BracketRight => {
            reveal_strlit("BracketRight");
            assert(key_name(k) =~= seq!['B', 'r', 'a', 'c', 'k', 'e', 't', 'R', 'i', 'g', 'h', 't']);
        },
        Key::Backslash => {
            reveal_strlit("Backslash");
            assert(key_name(k) =~= seq!['B', 'a', 'c', 'k', 's', 'l', 'a', 's', 'h']);
        },
        Key::Semicolon => {
            reveal_strlit("Semicolon");
            assert(key_name(k) =~= seq!['S', 'e', 'm', 'i', 'c', 'o', 'l', 'o', 'n']);
        },
        Key::Quote => {
            reveal_strlit("Quote");
            assert(key_name(k) =~= seq!['Q', 'u', 'o', 't', 'e']);
        },
        Key::Comma => {
            reveal_strlit("Comma");
            assert(key_name(k) =~= seq!['C', 'o', 'm', 'm', 'a']);
        },
        Key::Period => {
            reveal_strlit("Period");
            assert(key_name(k) =~= seq!['P', 'e', 'r', 'i', 'o', 'd']);
        },
        Key::Slash => {
            reveal_strlit("Slash");
            assert(key_name(k) =~= seq!['S', 'l', 'a', 's', 'h']);
        },
        Key::Numpad0 => {
            reveal_strlit("Numpad0");
            assert(key_name(k) =~= seq!['N', 'u', 'm', 'p', 'a', 'd', '0']);
        },
        Key::Numpad1 => {
            reveal_strlit("Numpad1");
            assert(key_name(k) =~= seq!['N', 'u', 'm', 'p', 'a', 'd', '1']);
        },
        Key::Numpad2 => {
            reveal_strlit("Numpad2");
            assert(key_name(k) =~= seq!['N', 'u', 'm', 'p', 'a', 'd', '2']);
        },
        Key::Numpad3 => {
            reveal_strlit("Numpad3");
            assert(key_name(k) =~= seq!['N', 'u', 'm', 'p', 'a', 'd', '3']);
        },
        Key::Numpad4 => {
            reveal_strlit("Numpad4");
            assert(key_name(k) =~= seq!['N', 'u', 'm', 'p', 'a', 'd', '4']);
        },
        Key::Numpad5 => {
            reveal_strlit("Numpad5");
            assert(key_name(k) =~= seq!['N', 'u', 'm', 'p', 'a', 'd', '5']);
        },
        Key::Numpad6 => {
            reveal_strlit("Numpad6");
            assert(key_name(k) =~= seq!['N', 'u', 'm', 'p', 'a', 'd', '6']);
        },
        Key::Numpad7 => {
            reveal_strlit("Numpad7");
            assert(key_name(k) =~= seq!['N', 'u', 'm', 'p', 'a', 'd', '7']);
        },
        Key::Numpad8 => {
            reveal_strlit("Numpad8");
            assert(key_name(k) =~= seq!['N', 'u', 'm', 'p', 'a', 'd', '8']);
        },
        Key::Numpad9 => {
            reveal_strlit("Numpad9");
            assert(key_name(k) =~= seq!['N', 'u', 'm', 'p', 'a', 'd', '9']);
        },
        Key::NumpadAdd => {
            reveal_strlit("NumpadAdd");
            assert(key_name(k) =~= seq!['N', 'u', 'm', 'p', 'a', 'd', 'A', 'd', 'd']);
        },
        Key::NumpadSubtract => {
            reveal_strlit("NumpadSubtract");
            assert(key_name(k) =~= seq!['N', 'u', 'm', 'p', 'a', 'd', 'S', 'u', 'b', 't', 'r', 'a', 'c', 't']);
        },
        Key::NumpadMultiply => {
            reveal_strlit("NumpadMultiply");
            assert(key_name(k) =~= seq!['N', 'u', 'm', 'p', 'a', 'd', 'M', 'u', 'l', 't', 'i', 'p', 'l', 'y']);
        },
        Key::NumpadDivide => {
            reveal_strlit("NumpadDivide");
            assert(key_name(k) =~= seq!['N', 'u', 'm', 'p', 'a', 'd', 'D', 'i', 'v', 'i', 'd', 'e']);
        },
        Key::NumpadDecimal => {
            reveal_strlit("NumpadDecimal");
            assert(key_name(k) =~= seq!['N', 'u', 'm', 'p', 'a', 'd', 'D', 'e', 'c', 'i', 'm', 'a', 'l']);
        },
        Key::NumpadEnter => {
            reveal_strlit("NumpadEnter");
            assert(key_name(k) =~= seq!['N', 'u', 'm', 'p', 'a', 'd', 'E', 'n', 't', 'e', 'r']);
        },
        Key::NumpadEqual => {
            reveal_strlit("NumpadEqual");
            assert(key_name(k) =~= seq!['N', 'u', 'm', 'p', 'a', 'd', 'E', 'q', 'u', 'a', 'l']);
        },
        Key::VolumeUp => {
            reveal_strlit("VolumeUp");
            assert(key_name(k) =~= seq!['V', 'o', 'l', 'u', 'm', 'e', 'U', 'p']);
        },
        Key::VolumeDown => {
            reveal_strlit("VolumeDown");
            assert(key_name(k) =~= seq!['V', 'o', 'l', 'u', 'm', 'e', 'D', 'o', 'w', 'n']);
        },
        Key::VolumeMute => {
            reveal_strlit("VolumeMute");
            assert(key_name(k) =~= seq!['V', 'o', 'l', 'u', 'm', 'e', 'M', 'u', 't', 'e']);
        },
        Key::MediaPlayPause => {
            reveal_strlit("MediaPlayPause");
            assert(key_name(k) =~= seq!['M', 'e', 'd', 'i', 'a', 'P', 'l', 'a', 'y', 'P', 'a', 'u', 's', 'e']);
        },
        Key::MediaStop => {
            reveal_strlit("MediaStop");
            assert(key_name(k) =~= seq!['M', 'e', 'd', 'i', 'a', 'S', 't', 'o', 'p']);
        },
        Key::MediaNext => {
            reveal_strlit("MediaNext");
            assert(key_name(k) =~= seq!['M', 'e', 'd', 'i', 'a', 'N', 'e', 'x', 't']);
        },
        Key::MediaPrevious => {
            reveal_strlit("MediaPrevious");
            assert(key_name(k) =~= seq!['M', 'e', 'd', 'i', 'a', 'P', 'r', 'e', 'v', 'i', 'o', 'u', 's']);
        },
        Key::BrowserBack => {
            reveal_strlit("BrowserBack");
            assert(key_name(k) =~= seq!['B', 'r', 'o', 'w', 's', 'e', 'r', 'B', 'a', 'c', 'k']);
        },
        Key::BrowserForward => {
            reveal_strlit("BrowserForward");
            assert(key_name(k) =~= seq!['B', 'r', 'o', 'w', 's', 'e', 'r', 'F', 'o', 'r', 'w', 'a', 'r', 'd']);
        },
        Key::BrowserRefresh => {
            reveal_strlit("BrowserRefresh");
            assert(key_name(k) =~= seq!['B', 'r', 'o', 'w', 's', 'e', 'r', 'R', 'e', 'f', 'r', 'e', 's', 'h']);
        },
        Key::BrowserStop => {
            reveal_strlit("BrowserStop");
            assert(key_name(k) =~= seq!['B', 'r', 'o', 'w', 's', 'e', 'r', 'S', 't', 'o', 'p']);
        },
        Key::BrowserSearch => {
            reveal_strlit("BrowserSearch");
            assert(key_name(k) =~= seq!['B', 'r', 'o', 'w', 's', 'e', 'r', 'S', 'e', 'a', 'r', 'c', 'h']);
        },
        Key::BrowserFavorites => {
            reveal_strlit("BrowserFavorites");
            assert(key_name(k) =~= seq!['B', 'r', 'o', 'w', 's', 'e', 'r', 'F', 'a', 'v', 'o', 'r', 'i', 't', 'e', 's']);
        },
        Key::BrowserHome => {
            reveal_strlit("BrowserHome");
            assert(key_name(k) =~= seq!['B', 'r', 'o', 'w', 's', 'e', 'r', 'H', 'o', 'm', 'e']);
        },
        Key::LaunchMail => {
            reveal_strlit("LaunchMail");
            assert(key_name(k) =~= seq!['L', 'a', 'u', 'n', 'c', 'h', 'M', 'a', 'i', 'l']);
        },
        Key::LaunchApp1 => {
            reveal_strlit("LaunchApp1");
            assert(key_name(k) =~= seq!['L', 'a', 'u', 'n', 'c', 'h', 'A', 'p', 'p', '1']);
        },
        Key::LaunchApp2 => {
            reveal_strlit("LaunchApp2");
            assert(key_name(k) =~= seq!['L', 'a', 'u', 'n', 'c', 'h', 'A', 'p', 'p', '2']);
        },
        Key::IntlBackslash => {
            reveal_strlit("IntlBackslash");
            assert(key_name(k) =~= seq!['I', 'n', 't', 'l', 'B', 'a', 'c', 'k', 's', 'l', 'a', 's', 'h']);
        },
        Key::IntlYen => {
            reveal_strlit("IntlYen");
            assert(key_name(k) =~= seq!['I', 'n', 't', 'l', 'Y', 'e', 'n']);
        },
        Key::IntlRo => {
            reveal_strlit("IntlRo");
            assert(key_name(k) =~= seq!['I', 'n', 't', 'l', 'R', 'o']);
        },
        Key::ContextMenu => {
            reveal_strlit("ContextMenu");
            assert(key_name(k) =~= seq!['C', 'o', 'n', 't', 'e', 'x', 't', 'M', 'e', 'n', 'u']);
        },
        Key::Unknown(code) => {
            reveal_strlit("Unknown(");
            reveal_strlit(")");
            lemma_decimal_reads_back(code as nat);
            let d = decimal(code as nat);
            let s = key_name(k);
            assert(s =~= seq!['U', 'n', 'k', 'n', 'o', 'w', 'n', '('] + d + seq![')']);
            assert forall|i: int| 0 <= i < s.len() implies s[i] != '+' by {
                if 8 <= i < s.len() - 1 {
                    assert(s[i] == d[i - 8]);
                }
            }
        },
    }
}

/// Exactly the left and right Shift, Control, Alt and Meta keys are
/// modifiers; every other key, named or not, is not.
pub proof fn lemma_modifier_keys_are_the_eight(k: Key)
    ensures
        is_modifier(k) <==> (k == Key::ShiftLeft || k == Key::ShiftRight || k == Key::ControlLeft
            || k == Key::ControlRight || k == Key::AltLeft || k == Key::AltRight || k
            == Key::MetaLeft || k == Key::MetaRight),
{
}

} // verus!
