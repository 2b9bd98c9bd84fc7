use cinny_ptt::keys::{Button, EventType, Key};
use cinny_ptt::ptt::{
    ptt_register, ptt_start_capture, ptt_stop_capture, ptt_unregister, start_hook, InputEvent,
    PttEmission, PttState,
};

fn key_event(event_type: EventType, key: Key, mask: u32) -> InputEvent {
    InputEvent { event_type, mask, key: Some(key), button: None }
}

fn mouse_event(event_type: EventType, button: Button) -> InputEvent {
    InputEvent { event_type, mask: 0, key: None, button: Some(button) }
}

fn pressed(e: Option<PttEmission>) -> Option<bool> {
    match e {
        Some(PttEmission::PressState(p)) => Some(p),
        _ => None,
    }
}

fn captured(e: Option<PttEmission>) -> Option<String> {
    match e {
        Some(PttEmission::Captured(s)) => Some(s),
        _ => None,
    }
}

#[test]
fn new_state_is_idle() {
    let s = PttState::new();
    assert_eq!(s.binding(), None);
    assert!(!s.is_active());
    assert!(!s.is_capturing());
    assert!(!s.hook_started());
}

#[test]
fn register_then_press_and_release() {
    let mut s = PttState::new();
    assert_eq!(ptt_register(&mut s, "key:Ctrl+Space".to_string()), Ok(true));
    assert!(s.is_active());
    assert_eq!(s.binding(), Some("key:Ctrl+Space".to_string()));
    let mut st = s;
    assert_eq!(pressed(st.handle_event(&key_event(EventType::KeyPressed, Key::Space, 2))), Some(true));
    // Caps Lock in the mask does not count as a modifier.
    assert_eq!(pressed(st.handle_event(&key_event(EventType::KeyPressed, Key::Space, 2 | 16))), Some(true));
    // Wrong modifiers: no press.
    assert!(st.handle_event(&key_event(EventType::KeyPressed, Key::Space, 0)).is_none());
    assert!(st.handle_event(&key_event(EventType::KeyPressed, Key::Space, 3)).is_none());
    // Release is reported whatever is held.
    assert_eq!(pressed(st.handle_event(&key_event(EventType::KeyReleased, Key::Space, 0))), Some(false));
    // Other keys and event kinds are ignored.
    assert!(st.handle_event(&key_event(EventType::KeyPressed, Key::KeyA, 2)).is_none());
    assert!(st.handle_event(&key_event(EventType::KeyTyped, Key::Space, 2)).is_none());
    assert!(st.handle_event(&mouse_event(EventType::MousePressed, Button::Left)).is_none());
}

#[test]
fn mouse_binding_press_and_release() {
    let mut s = PttState::new();
    assert_eq!(ptt_register(&mut s, "mouse:Button4".to_string()), Ok(true));
    assert_eq!(pressed(s.handle_event(&mouse_event(EventType::MousePressed, Button::Button4))), Some(true));
    assert_eq!(pressed(s.handle_event(&mouse_event(EventType::MouseReleased, Button::Button4))), Some(false));
    assert!(s.handle_event(&mouse_event(EventType::MouseClicked, Button::Button4)).is_none());
    assert!(s.handle_event(&mouse_event(EventType::MousePressed, Button::Button5)).is_none());
}

#[test]
fn invalid_binding_is_refused() {
    let mut s = PttState::new();
    assert_eq!(ptt_register(&mut s, "bogus".to_string()), Err("Invalid binding: bogus".to_string()));
    assert!(!s.is_active());
    assert_eq!(s.binding(), None);
    assert!(!s.hook_started());
}

#[test]
fn unregister_silences() {
    let mut s = PttState::new();
    assert_eq!(ptt_register(&mut s, "key:F5".to_string()), Ok(true));
    assert_eq!(ptt_unregister(&mut s), Ok(()));
    assert!(!s.is_active());
    assert_eq!(s.binding(), None);
    assert!(s.handle_event(&key_event(EventType::KeyPressed, Key::F5, 0)).is_none());
    assert!(s.handle_event(&key_event(EventType::KeyReleased, Key::F5, 0)).is_none());
}

#[test]
fn hook_is_started_once() {
    let mut s = PttState::new();
    assert!(start_hook(&mut s));
    assert!(!start_hook(&mut s));
    assert_eq!(ptt_register(&mut s, "key:Tab".to_string()), Ok(false));
    assert_eq!(ptt_start_capture(&mut s), Ok(false));
}

#[test]
fn capture_takes_first_non_modifier_press() {
    let mut s = PttState::new();
    assert_eq!(ptt_start_capture(&mut s), Ok(true));
    assert!(s.is_capturing());
    // Modifier presses, releases and moves are not captured.
    assert!(s.handle_event(&key_event(EventType::KeyPressed, Key::ShiftLeft, 1)).is_none());
    assert!(s.handle_event(&key_event(EventType::KeyReleased, Key::KeyA, 1)).is_none());
    assert!(s.handle_event(&InputEvent { event_type: EventType::MouseMoved, mask: 0, key: None, button: None }).is_none());
    assert!(s.is_capturing());
    let got = captured(s.handle_event(&key_event(EventType::KeyPressed, Key::KeyT, 1 | 4)));
    assert_eq!(got, Some("key:Shift+Alt+KeyT".to_string()));
    assert!(!s.is_capturing());
    // Once captured, the hook is back to push-to-talk mode (inactive here).
    assert!(s.handle_event(&key_event(EventType::KeyPressed, Key::KeyT, 5)).is_none());
}

#[test]
fn capture_then_register_then_press() {
    let mut s = PttState::new();
    assert_eq!(ptt_start_capture(&mut s), Ok(true));
    let b = captured(s.handle_event(&mouse_event(EventType::MousePressed, Button::Unknown(8)))).unwrap();
    assert_eq!(b, "mouse:x8");
    assert_eq!(ptt_register(&mut s, b), Ok(false));
    assert_eq!(pressed(s.handle_event(&mouse_event(EventType::MousePressed, Button::Unknown(8)))), Some(true));
    assert_eq!(pressed(s.handle_event(&mouse_event(EventType::MouseReleased, Button::Unknown(8)))), Some(false));
}

#[test]
fn capture_overrides_push_to_talk() {
    let mut s = PttState::new();
    assert_eq!(ptt_register(&mut s, "key:KeyQ".to_string()), Ok(true));
    assert_eq!(ptt_start_capture(&mut s), Ok(false));
    // While capturing, a release of the bound key reports nothing.
    assert!(s.handle_event(&key_event(EventType::KeyReleased, Key::KeyQ, 0)).is_none());
    assert_eq!(ptt_stop_capture(&mut s), Ok(()));
    assert!(!s.is_capturing());
    assert_eq!(pressed(s.handle_event(&key_event(EventType::KeyPressed, Key::KeyQ, 0))), Some(true));
}
