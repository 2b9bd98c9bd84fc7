# cinny_ptt

Global push-to-talk for the Cinny desktop client, as a verified library.

- `src/binding.rs`: the binding grammar (`key:Shift+Ctrl+KeyT`,
  `mouse:Button4`, `mouse:x9`), how a captured press is written down, and
  the proofs that a captured binding reads back as what was pressed.
- `src/keys.rs`, `src/mouse.rs`, `src/modifiers.rs`: key and button names and
  the modifier prefix, each with its reading and writing proved to agree.
- `src/ptt.rs`: the push-to-talk state and what the input hook does with each
  event (capture a binding, or report the trigger going down and up).
- `src/desktop.rs`: Wayland detection, permission prompt texts, portal error
  messages and the local asset address.
- `src/text.rs`: character helpers and decimal numbers.
- `app/`: the Tauri shell that holds the input hook, the D-Bus portal and the
  window, and hands every decision to the library.
