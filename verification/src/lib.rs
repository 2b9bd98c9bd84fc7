//! Push-to-talk key and mouse bindings: the binding grammar, the decisions
//! that an input hook makes on each event, and the few pure rules around the
//! desktop shell (Wayland detection, permission prompts, portal errors).
pub mod text;
pub mod keys;
pub mod modifiers;
pub mod mouse;
pub mod binding;
pub mod ptt;
pub mod desktop;
