use cinny_ptt::desktop::{
    describe_permission_request, is_wayland, localhost_url, permission_prompt,
    portal_failure_message, shortcut_ptt_state, stop_session, PermissionRequestKind, PortalStep, ShortcutSignal,
};

#[test]
fn wayland_detection() {
    assert!(is_wayland(Some("wayland"), false));
    assert!(is_wayland(None, true));
    assert!(is_wayland(Some("x11"), true));
    assert!(!is_wayland(Some("x11"), false));
    assert!(!is_wayland(Some("Wayland"), false));
    assert!(!is_wayland(None, false));
}

#[test]
fn permission_labels() {
    let label = |kind| describe_permission_request(kind);
    assert_eq!(
        label(PermissionRequestKind::UserMedia { audio: true, video: true }).as_deref(),
        Some("use your microphone and camera")
    );
    assert_eq!(
        label(PermissionRequestKind::UserMedia { audio: true, video: false }).as_deref(),
        Some("use your microphone")
    );
    assert_eq!(
        label(PermissionRequestKind::UserMedia { audio: false, video: true }).as_deref(),
        Some("use your camera")
    );
    assert_eq!(
        label(PermissionRequestKind::UserMedia { audio: false, video: false }).as_deref(),
        Some("use a media device")
    );
    assert_eq!(label(PermissionRequestKind::Notification).as_deref(), Some("show desktop notifications"));
    assert_eq!(label(PermissionRequestKind::Geolocation).as_deref(), Some("access your location"));
    assert_eq!(label(PermissionRequestKind::PointerLock).as_deref(), Some("lock your mouse pointer"));
    assert_eq!(label(PermissionRequestKind::DeviceInfo).as_deref(), Some("see your media device list"));
    assert_eq!(label(PermissionRequestKind::Other), None);
}

#[test]
fn permission_prompt_text() {
    assert_eq!(permission_prompt("use your camera"), "Cinny wants to use your camera.");
}

#[test]
fn portal_failures() {
    assert_eq!(
        portal_failure_message(PortalStep::BindShortcuts, "denied"),
        "Failed to bind shortcuts: denied"
    );
    assert_eq!(portal_failure_message(PortalStep::CheckSessionPath, "bad"), "Invalid session path: bad");
    assert_eq!(
        portal_failure_message(PortalStep::ConnectSessionBus, ""),
        "Failed to connect to D-Bus session bus: "
    );
}

#[test]
fn shortcut_signals() {
    assert!(shortcut_ptt_state(ShortcutSignal::Activated));
    assert!(!shortcut_ptt_state(ShortcutSignal::Deactivated));
}

#[test]
fn localhost_address() {
    assert_eq!(localhost_url(44548), "http://localhost:44548");
    assert_eq!(localhost_url(0), "http://localhost:0");
}

#[test]
fn stopping_without_a_session() {
    let mut slot = None;
    assert_eq!(stop_session(&mut slot), Ok(()));
    assert!(slot.is_none());
}
