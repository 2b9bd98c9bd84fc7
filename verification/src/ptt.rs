//! Push-to-talk state and the decisions of the input hook.
//!
//! The shell keeps one `PttState` behind a lock. Its commands (register a
//! binding, drop it, start and stop capturing one) and every event that the
//! global input hook reports go through the functions here; each returns
//! what the shell must do: start the hook, or emit an event to the frontend.
use vstd::prelude::*;
use vstd::string::*;

use crate::binding::{
    binding_trigger, key_binding, key_binding_text, lemma_key_binding_round_trip,
    lemma_mouse_binding_determines_button, lemma_mouse_binding_round_trip, mouse_binding, mouse_binding_text, parse_binding, PttTrigger,
};
use crate::keys::{
    is_bindable_key, is_modifier, is_modifier_key, lemma_modifier_keys_are_the_eight, Button,
    EventType, Key,
};
use crate::mouse::button_name;
use crate::modifiers::{modifier_bits, modifier_mask};

verus! {

/// What the input hook reports of one event, as far as push-to-talk reads
/// it: its kind, the modifier and button mask, the key of a keyboard event
/// and the button of a mouse event.
#[derive(Clone, Copy, Debug, PartialEq, Eq, Structural)]
pub struct InputEvent {
    pub event_type: EventType,
    pub mask: u32,
    pub key: Option<Key>,
    pub button: Option<Button>,
}

/// What the shell must tell the frontend after an event.
#[derive(Debug)]
pub enum PttEmission {
    /// A binding was captured (the `ptt-captured` event).
    Captured(String),
    /// The push-to-talk trigger went down (`true`) or up (`false`) (the
    /// `ptt-state` event).
    PressState(bool),
}

/// The meaning of an emission.
pub enum EmissionModel {
    Captured(Seq<char>),
    PressState(bool),
}

/// The meaning of an optional emission.
pub open spec fn emission_model(e: Option<PttEmission>) -> Option<EmissionModel> {
    match e {
        Some(PttEmission::Captured(s)) => Some(EmissionModel::Captured(s@)),
        Some(PttEmission::PressState(b)) => Some(EmissionModel::PressState(b)),
        None => None,
    }
}

/// The push-to-talk state: the registered binding, whether push-to-talk is
/// active, whether the next press is to be captured as a new binding, and
/// whether the input hook has been started.
pub struct PttState {
    binding: Option<String>,
    active: bool,
    capture_mode: bool,
    hook_started: bool,
}

/// The meaning of a `PttState`.
pub struct PttModel {
    pub binding: Option<Seq<char>>,
    pub active: bool,
    pub capture_mode: bool,
    pub hook_started: bool,
}

impl View for PttState {
    type V = PttModel;

    closed spec fn view(&self) -> PttModel {
        PttModel {
            binding: match self.binding {
                Some(b) => Some(b@),
                None => None,
            },
            active: self.active,
            capture_mode: self.capture_mode,
            hook_started: self.hook_started,
        }
    }
}

/// The binding that an event is captured as, if it can be: a key press of a
/// key other than a modifier, with the modifiers held, or a press of a mouse
/// button.
pub open spec fn captured_binding(ev: InputEvent) -> Option<Seq<char>> {
    match ev.event_type {
        EventType::KeyPressed => match ev.key {
            Some(k) => if is_modifier(k) {
                None
            } else {
                Some(key_binding_text(k, ev.mask))
            },
            None => None,
        },
        EventType::MousePressed => match ev.button {
            Some(b) => Some(mouse_binding_text(b)),
            None => None,
        },
        _ => None,
    }
}

/// Whether an event presses (`true`) or releases (`false`) a trigger, if it
/// does either: a key is pressed only with exactly its modifiers held, and
/// released whatever is held.
pub open spec fn trigger_change(t: PttTrigger, ev: InputEvent) -> Option<bool> {
    match t {
        PttTrigger::Key { key, modifiers } => match ev.event_type {
            EventType::KeyPressed => if ev.key == Some(key) && ev.mask & modifier_bits()
                == modifiers {
                Some(true)
            } else {
                None
            },
            EventType::KeyReleased => if ev.key == Some(key) {
                Some(false)
            } else {
                None
            },
            _ => None,
        },
        PttTrigger::Mouse(target) => match ev.event_type {
            EventType::MousePressed => if ev.button == Some(target) {
                Some(true)
            } else {
                None
            },
            EventType::MouseReleased => if ev.button == Some(target) {
                Some(false)
            } else {
                None
            },
            _ => None,
        },
    }
}

/// What the hook emits for an event: in capture mode the captured binding
/// (if the event can be captured) and nothing else; otherwise, while
/// push-to-talk is active with a well-formed binding, the change of its
/// trigger.
pub open spec fn hook_emission(m: PttModel, ev: InputEvent) -> Option<EmissionModel> {
    if m.capture_mode {
        match captured_binding(ev) {
            Some(b) => Some(EmissionModel::Captured(b)),
            None => None,
        }
    } else if !m.active {
        None
    } else {
        match m.binding {
            Some(b) => match binding_trigger(b) {
                Some(t) => match trigger_change(t, ev) {
                    Some(p) => Some(EmissionModel::PressState(p)),
                    None => None,
                },
                None => None,
            },
            None => None,
        }
    }
}

/// The state after the hook has seen an event: a capture ends capture mode,
/// and nothing else changes.
pub open spec fn hook_next(m: PttModel, ev: InputEvent) -> PttModel {
    if m.capture_mode && captured_binding(ev) is Some {
        PttModel { capture_mode: false, ..m }
    } else {
        m
    }
}

/// The state once the hook has been asked for.
pub open spec fn with_hook(m: PttModel) -> PttModel {
    PttModel { hook_started: true, ..m }
}

/// The state after a well-formed binding is registered.
pub open spec fn registered(m: PttModel, binding: Seq<char>) -> PttModel {
    PttModel { binding: Some(binding), active: true, hook_started: true, ..m }
}

/// The state after the binding is dropped.
pub open spec fn unregistered(m: PttModel) -> PttModel {
    PttModel { binding: None, active: false, ..m }
}

/// The message that a binding is refused with.
pub open spec fn invalid_binding_message(binding: Seq<char>) -> Seq<char> {
    "Invalid binding: "@ + binding
}

impl PttState {
    /// No binding, inactive, not capturing, no hook.
    pub fn new() -> (s: Self)
        ensures
            s@ == (PttModel { binding: None, active: false, capture_mode: false, hook_started: false }),
    {
        PttState { binding: None, active: false, capture_mode: false, hook_started: false }
    }

    /// The registered binding, if any.
    pub fn binding(&self) -> (b: Option<String>)
        ensures
            match b {
                Some(s) => self@.binding == Some(s@),
                None => self@.binding is None,
            },
    {
        match &self.binding {
            Some(s) => Some(s.clone()),
            None => None,
        }
    }

    /// Whether push-to-talk is active.
    pub fn is_active(&self) -> (b: bool)
        ensures
            b == self@.active,
    {
        self.active
    }

    /// Whether the next press is to be captured as a binding.
    pub fn is_capturing(&self) -> (b: bool)
        ensures
            b == self@.capture_mode,
    {
        self.capture_mode
    }

    /// Whether the input hook has been started.
    pub fn hook_started(&self) -> (b: bool)
        ensures
            b == self@.hook_started,
    {
        self.hook_started
    }

    /// Decides what an event from the input hook leads to.
    pub fn handle_event(&mut self, event: &InputEvent) -> (r: Option<PttEmission>)
        ensures
            final(self)@ == hook_next(old(self)@, *event),
            emission_model(r) == hook_emission(old(self)@, *event),
    {
        if self.capture_mode {
            let captured = match event.event_type {
                EventType::KeyPressed => match event.key {
                    Some(k) => if is_modifier_key(k) {
                        None
                    } else {
                        Some(key_binding(k, event.mask))
                    },
                    None => None,
                },
                EventType::MousePressed => match event.button {
                    Some(b) => Some(mouse_binding(b)),
                    None => None,
                },
                _ => None,
            };
            return match captured {
                Some(b) => {
                    self.capture_mode = false;
                    Some(PttEmission::Captured(b))
                },
                None => None,
            };
        }
        if !self.active {
            return None;
        }
        let trigger = match &self.binding {
            Some(b) => match parse_binding(b.as_str()) {
                Some(t) => t,
                None => {
                    return None;
                },
            },
            None => {
                return None;
            },
        };
        let modifiers_held = modifier_mask(event.mask);
        let pressed = match trigger {
            PttTrigger::Key { key, modifiers } => match event.event_type {
                EventType::KeyPressed => match event.key {
                    Some(k) => if k == key && modifiers_held == modifiers {
                        Some(true)
                    } else {
                        None
                    },
                    None => None,
                },
                EventType::KeyReleased => match event.key {
                    Some(k) => if k == key {
                        Some(false)
                    } else {
                        None
                    },
                    None => None,
                },
                _ => None,
            },
            PttTrigger::Mouse(target) => match event.event_type {
                EventType::MousePressed => match event.button {
                    Some(b) => if b == target {
                        Some(true)
                    } else {
                        None
                    },
                    None => None,
                },
                EventType::MouseReleased => match event.button {
                    Some(b) => if b == target {
                        Some(false)
                    } else {
                        None
                    },
                    None => None,
                },
                _ => None,
            },
        };
        match pressed {
            Some(p) => Some(PttEmission::PressState(p)),
            None => None,
        }
    }
}

/// Asks for the input hook: `true` when the shell must start it now, which
/// happens once; later requests find it running.
pub fn start_hook(state: &mut PttState) -> (start: bool)
    ensures
        start == !old(state)@.hook_started,
        final(state)@ == with_hook(old(state)@),
{
    if state.hook_started {
        return false;
    }
    state.hook_started = true;
    true
}

/// Registers `binding` and makes push-to-talk active. A binding that does
/// not read as a trigger is refused with `Invalid binding: ` and the binding,
/// and nothing changes. On success the result says whether the shell must
/// start the input hook now.
pub fn ptt_register(state: &mut PttState, binding: String) -> (r: Result<bool, String>)
    ensures
        match r {
            Ok(start) => {
                &&& binding_trigger(binding@) is Some
                &&& final(state)@ == registered(old(state)@, binding@)
                &&& start == !old(state)@.hook_started
            },
            Err(e) => {
                &&& binding_trigger(binding@) is None
                &&& final(state)@ == old(state)@
                &&& e@ == invalid_binding_message(binding@)
            },
        },
{
    if parse_binding(binding.as_str()).is_none() {
        let mut message = String::new();
        message.append("Invalid binding: ");
        message.append(binding.as_str());
        return Err(message);
    }
    state.binding = Some(binding);
    state.active = true;
    let start = start_hook(state);
    Ok(start)
}

/// Drops the binding and makes push-to-talk inactive.
pub fn ptt_unregister(state: &mut PttState) -> (r: Result<(), String>)
    ensures
        r is Ok,
        final(state)@ == unregistered(old(state)@),
{
    state.active = false;
    state.binding = None;
    Ok(())
}

/// Makes the next capturable press become a binding. The result says whether
/// the shell must start the input hook now.
pub fn ptt_start_capture(state: &mut PttState) -> (r: Result<bool, String>)
    ensures
        r == Ok::<bool, String>(!old(state)@.hook_started),
        final(state)@ == with_hook(PttModel { capture_mode: true, ..old(state)@ }),
{
    state.capture_mode = true;
    let start = start_hook(state);
    Ok(start)
}

/// Leaves capture mode.
pub fn ptt_stop_capture(state: &mut PttState) -> (r: Result<(), String>)
    ensures
        r is Ok,
        final(state)@ == (PttModel { capture_mode: false, ..old(state)@ }),
{
    state.capture_mode = false;
    Ok(())
}

/// Once the binding is dropped, and while nothing is being captured, no
/// event makes the hook emit anything or change the state.
pub proof fn lemma_unregistered_is_silent(m: PttModel, ev: InputEvent)
    requires
        !m.capture_mode,
    ensures
        hook_emission(unregistered(m), ev) is None,
        hook_next(unregistered(m), ev) == unregistered(m),
{
}

/// While a binding is being captured, no event is reported as a press or a
/// release of the registered trigger.
pub proof fn lemma_capture_never_reports_presses(m: PttModel, ev: InputEvent)
    requires
        m.capture_mode,
    ensures
        !(hook_emission(m, ev) matches Some(EmissionModel::PressState(_))),
{
}

/// A press that repeats a captured one: the same kind of event, with the
/// same key or button and the same modifiers held.
pub open spec fn repeats_press(captured: InputEvent, ev: InputEvent) -> bool {
    &&& ev.event_type == captured.event_type
    &&& ev.key == captured.key
    &&& ev.button == captured.button
    &&& ev.mask & modifier_bits() == captured.mask & modifier_bits()
}

/// The release of what a captured event pressed.
pub open spec fn releases_press(captured: InputEvent, ev: InputEvent) -> bool {
    &&& ev.event_type == (if captured.event_type == EventType::KeyPressed {
        EventType::KeyReleased
    } else {
        EventType::MouseReleased
    })
    &&& ev.key == captured.key
    &&& ev.button == captured.button
}

/// Whether a captured event names something that a binding can hold: every
/// mouse button, and the keys whose names the grammar accepts.
pub open spec fn capture_is_bindable(ev: InputEvent) -> bool {
    ev.event_type == EventType::KeyPressed ==> (ev.key matches Some(k) && is_bindable_key(k))
}

/// A captured binding of a bindable key or of a mouse button is accepted
/// when it is registered, and stands for the key with the modifiers that
/// were held, or for the button.
pub proof fn lemma_captured_binding_is_accepted(ev: InputEvent)
    requires
        captured_binding(ev) is Some,
        capture_is_bindable(ev),
    ensures
        binding_trigger(captured_binding(ev)->0) == (match ev.event_type {
            EventType::KeyPressed => Some(
                PttTrigger::Key { key: ev.key->0, modifiers: ev.mask & modifier_bits() },
            ),
            _ => Some(PttTrigger::Mouse(ev.button->0)),
        }),
{
    match ev.event_type {
        EventType::KeyPressed => {
            lemma_key_binding_round_trip(ev.key->0, ev.mask);
        },
        _ => {
            lemma_mouse_binding_round_trip(ev.button->0);
        },
    }
}

/// Capturing a press and registering what was captured makes the same press
/// report the trigger down, and its release report it up.
pub proof fn lemma_capture_then_register(
    m: PttModel,
    captured: InputEvent,
    press: InputEvent,
    release: InputEvent,
)
    requires
        m.capture_mode,
        captured_binding(captured) is Some,
        capture_is_bindable(captured),
        repeats_press(captured, press),
        releases_press(captured, release),
    ensures
        hook_emission(m, captured) == Some(EmissionModel::Captured(captured_binding(captured)->0)),
        ({
            let after = registered(hook_next(m, captured), captured_binding(captured)->0);
            &&& hook_emission(after, press) == Some(EmissionModel::PressState(true))
            &&& hook_emission(after, release) == Some(EmissionModel::PressState(false))
        }),
{
    lemma_captured_binding_is_accepted(captured);
}

/// While push-to-talk is active with a key trigger and nothing is being
/// captured: a press of the bound key with exactly its Shift, Control, Alt
/// and Meta bits held reports the trigger down; a release of the bound key,
/// whatever is held, reports it up; every other event (other keys pressed or
/// released, the bound key with other modifiers, mouse events) reports
/// nothing. No event changes the state.
pub proof fn lemma_key_trigger_reports(
    m: PttModel,
    binding: Seq<char>,
    key: Key,
    modifiers: u32,
    ev: InputEvent,
)
    requires
        !m.capture_mode,
        m.active,
        m.binding == Some(binding),
        binding_trigger(binding) == Some(PttTrigger::Key { key, modifiers }),
    ensures
        hook_next(m, ev) == m,
        hook_emission(m, ev) == if ev.event_type == EventType::KeyPressed && ev.key == Some(key)
            && ev.mask & 15u32 == modifiers {
            Some(EmissionModel::PressState(true))
        } else if ev.event_type == EventType::KeyReleased && ev.key == Some(key) {
            Some(EmissionModel::PressState(false))
        } else {
            None
        },
        ev.event_type == EventType::KeyReleased && ev.key != Some(key) ==> hook_emission(m, ev) is None,
{
}

/// While push-to-talk is active with a mouse trigger and nothing is being
/// captured: a press of the bound button reports the trigger down, its
/// release reports it up, and every other event reports nothing. No event
/// changes the state.
pub proof fn lemma_mouse_trigger_reports(
    m: PttModel,
    binding: Seq<char>,
    target: Button,
    ev: InputEvent,
)
    requires
        !m.capture_mode,
        m.active,
        m.binding == Some(binding),
        binding_trigger(binding) == Some(PttTrigger::Mouse(target)),
    ensures
        hook_next(m, ev) == m,
        hook_emission(m, ev) == if ev.event_type == EventType::MousePressed && ev.button == Some(
            target,
        ) {
            Some(EmissionModel::PressState(true))
        } else if ev.event_type == EventType::MouseReleased && ev.button == Some(target) {
            Some(EmissionModel::PressState(false))
        } else {
            None
        },
{
}

/// In capture mode, a press of one of the eight modifier keys (left and
/// right Shift, Control, Alt, Meta) is skipped: nothing is emitted and
/// capture mode stays on, so that the key pressed with it is captured next.
pub proof fn lemma_capture_skips_modifier_presses(m: PttModel, ev: InputEvent, k: Key)
    requires
        m.capture_mode,
        ev.event_type == EventType::KeyPressed,
        ev.key == Some(k),
        k == Key::ShiftLeft || k == Key::ShiftRight || k == Key::ControlLeft || k
            == Key::ControlRight || k == Key::AltLeft || k == Key::AltRight || k == Key::MetaLeft
            || k == Key::MetaRight,
    ensures
        hook_emission(m, ev) is None,
        hook_next(m, ev) == m,
        hook_next(m, ev).capture_mode,
{
}

/// In capture mode, a press of any other key, named or not, is captured:
/// the binding written for it names that key and the modifiers held (see
/// `lemma_key_binding_parts`), and capture mode ends with nothing else
/// changed.
pub proof fn lemma_capture_takes_key_presses(m: PttModel, ev: InputEvent, k: Key)
    requires
        m.capture_mode,
        ev.event_type == EventType::KeyPressed,
        ev.key == Some(k),
        !(k == Key::ShiftLeft || k == Key::ShiftRight || k == Key::ControlLeft || k
            == Key::ControlRight || k == Key::AltLeft || k == Key::AltRight || k == Key::MetaLeft
            || k == Key::MetaRight),
    ensures
        hook_emission(m, ev) == Some(EmissionModel::Captured(key_binding_text(k, ev.mask))),
        hook_next(m, ev) == (PttModel {
            binding: m.binding,
            active: m.active,
            capture_mode: false,
            hook_started: m.hook_started,
        }),
{
    lemma_modifier_keys_are_the_eight(k);
}

/// In capture mode, a press of any mouse button (the side buttons and the
/// unnamed ones included) is captured as `mouse:` and that button's name,
/// which reads back as that button, and capture mode ends with nothing else
/// changed.
pub proof fn lemma_capture_takes_button_presses(m: PttModel, ev: InputEvent, b: Button)
    requires
        m.capture_mode,
        ev.event_type == EventType::MousePressed,
        ev.button == Some(b),
    ensures
        hook_emission(m, ev) == Some(EmissionModel::Captured(mouse_binding_text(b))),
        mouse_binding_text(b).take(6) == "mouse:"@,
        mouse_binding_text(b).skip(6) == button_name(b),
        binding_trigger(mouse_binding_text(b)) == Some(PttTrigger::Mouse(b)),
        hook_next(m, ev) == (PttModel {
            binding: m.binding,
            active: m.active,
            capture_mode: false,
            hook_started: m.hook_started,
        }),
{
    lemma_mouse_binding_determines_button(b, b);
    lemma_mouse_binding_round_trip(b);
}

/// In capture mode, events other than a key press with a key or a mouse
/// press with a button are ignored: nothing is emitted and capture mode
/// stays on.
pub proof fn lemma_capture_ignores_other_events(m: PttModel, ev: InputEvent)
    requires
        m.capture_mode,
        !(ev.event_type == EventType::KeyPressed && ev.key is Some),
        !(ev.event_type == EventType::MousePressed && ev.button is Some),
    ensures
        hook_emission(m, ev) is None,
        hook_next(m, ev) == m,
{
}

/// A refused binding is quoted whole after `Invalid binding: `, so the
/// message tells which binding was refused.
pub proof fn lemma_invalid_binding_message_quotes_binding(a: Seq<char>, b: Seq<char>)
    ensures
        invalid_binding_message(a).take(17) == "Invalid binding: "@,
        invalid_binding_message(a).skip(17) == a,
        invalid_binding_message(a) == invalid_binding_message(b) ==> a == b,
{
    reveal_strlit("Invalid binding: ");
    assert(invalid_binding_message(a).take(17) =~= "Invalid binding: "@);
    assert(invalid_binding_message(a).skip(17) =~= a);
    assert(invalid_binding_message(b).skip(17) =~= b);
}

} // verus!
