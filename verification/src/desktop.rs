//! The pure rules around the desktop shell: telling a Wayland session from
//! its environment, the texts of webview permission prompts, the errors of
//! the Wayland global-shortcut portal, and the address that bundled assets
//! are served from.
use vstd::prelude::*;
use vstd::string::*;

use crate::text::{all_digits, append_decimal, decimal, digits_value, lemma_decimal_reads_back, text_eq};

verus! {

/// Whether the session is a Wayland one: `XDG_SESSION_TYPE` is `wayland`, or
/// `WAYLAND_DISPLAY` is set. `xdg_session_type` is the value of the first
/// variable when it is set and readable; `wayland_display_set` says whether
/// the second one is set and readable.
pub fn is_wayland(xdg_session_type: Option<&str>, wayland_display_set: bool) -> (r: bool)
    ensures
        r == ((xdg_session_type matches Some(t) && t@ == "wayland"@) || wayland_display_set),
{
    let by_type = match xdg_session_type {
        Some(t) => text_eq(t, "wayland"),
        None => false,
    };
    by_type || wayland_display_set
}

/// The kinds of permission request that a webview makes.
#[derive(Clone, Copy, Debug, PartialEq, Eq, Structural)]
pub enum PermissionRequestKind {
    /// Access to media devices, for audio, video, both or neither.
    UserMedia { audio: bool, video: bool },
    Notification,
    Geolocation,
    PointerLock,
    DeviceInfo,
    /// Any other kind of request.
    Other,
}

/// What the user is asked to allow, for the kinds of request that are asked
/// about; other requests are denied without asking.
pub open spec fn permission_label(kind: PermissionRequestKind) -> Option<Seq<char>> {
    match kind {
        PermissionRequestKind::UserMedia { audio, video } => Some(
            if audio && video {
                "use your microphone and camera"@
            } else if audio {
                "use your microphone"@
            } else if video {
                "use your camera"@
            } else {
                "use a media device"@
            },
        ),
        PermissionRequestKind::Notification => Some("show desktop notifications"@),
        PermissionRequestKind::Geolocation => Some("access your location"@),
        PermissionRequestKind::PointerLock => Some("lock your mouse pointer"@),
        PermissionRequestKind::DeviceInfo => Some("see your media device list"@),
        PermissionRequestKind::Other => None,
    }
}

/// What the user is asked to allow for a permission request.
pub fn describe_permission_request(kind: PermissionRequestKind) -> (r: Option<String>)
    ensures
        match r {
            Some(s) => permission_label(kind) == Some(s@),
            None => permission_label(kind) is None,
        },
{
    let label = match kind {
        PermissionRequestKind::UserMedia { audio, video } => if audio && video {
            "use your microphone and camera"
        } else if audio {
            "use your microphone"
        } else if video {
            "use your camera"
        } else {
            "use a media device"
        },
        PermissionRequestKind::Notification => "show desktop notifications",
        PermissionRequestKind::Geolocation => "access your location",
        PermissionRequestKind::PointerLock => "lock your mouse pointer",
        PermissionRequestKind::DeviceInfo => "see your media device list",
        PermissionRequestKind::Other => {
            return None;
        },
    };
    let mut s = String::new();
    s.append(label);
    Some(s)
}

/// The text of the dialog that asks about a permission.
pub open spec fn permission_prompt_text(label: Seq<char>) -> Seq<char> {
    "Cinny wants to "@ + label + "."@
}

/// The text of the dialog that asks the user to allow `label`.
pub fn permission_prompt(label: &str) -> (s: String)
    ensures
        s@ == permission_prompt_text(label@),
{
    let mut s = String::new();
    s.append("Cinny wants to ");
    s.append(label);
    s.append(".");
    s
}

/// The steps of opening a global-shortcut session with the desktop portal.
#[derive(Clone, Copy, Debug, PartialEq, Eq, Structural)]
pub enum PortalStep {
    ConnectSessionBus,
    CreateProxy,
    CreateSession,
    CheckSessionPath,
    BindShortcuts,
    ListenActivated,
    ListenDeactivated,
}

/// What a failed step is reported as, before the cause.
pub open spec fn portal_failure_prefix(step: PortalStep) -> Seq<char> {
    match step {
        PortalStep::ConnectSessionBus => "Failed to connect to D-Bus session bus: "@,
        PortalStep::CreateProxy => "Failed to create GlobalShortcuts proxy: "@,
        PortalStep::CreateSession => "Failed to create GlobalShortcuts session: "@,
        PortalStep::CheckSessionPath => "Invalid session path: "@,
        PortalStep::BindShortcuts => "Failed to bind shortcuts: "@,
        PortalStep::ListenActivated => "Failed to listen for Activated signal: "@,
        PortalStep::ListenDeactivated => "Failed to listen for Deactivated signal: "@,
    }
}

/// The error that opening the session ends with when `step` fails with
/// `cause`.
pub fn portal_failure_message(step: PortalStep, cause: &str) -> (e: String)
    ensures
        e@ == portal_failure_prefix(step) + cause@,
{
    let prefix = match step {
        PortalStep::ConnectSessionBus => "Failed to connect to D-Bus session bus: ",
        PortalStep::CreateProxy => "Failed to create GlobalShortcuts proxy: ",
        PortalStep::CreateSession => "Failed to create GlobalShortcuts session: ",
        PortalStep::CheckSessionPath => "Invalid session path: ",
        PortalStep::BindShortcuts => "Failed to bind shortcuts: ",
        PortalStep::ListenActivated => "Failed to listen for Activated signal: ",
        PortalStep::ListenDeactivated => "Failed to listen for Deactivated signal: ",
    };
    let mut e = String::new();
    e.append(prefix);
    e.append(cause);
    e
}

/// The signals of the push-to-talk shortcut.
#[derive(Clone, Copy, Debug, PartialEq, Eq, Structural)]
pub enum ShortcutSignal {
    Activated,
    Deactivated,
}

/// The push-to-talk state that a shortcut signal reports: down when the
/// shortcut is activated, up when it is deactivated.
pub fn shortcut_ptt_state(signal: ShortcutSignal) -> (pressed: bool)
    ensures
        pressed == (signal == ShortcutSignal::Activated),
{
    match signal {
        ShortcutSignal::Activated => true,
        ShortcutSignal::Deactivated => false,
    }
}

/// The address on the local machine that serves the bundled frontend on
/// `port`.
pub fn localhost_url(port: u16) -> (url: String)
    ensures
        url@ == "http://localhost:"@ + decimal(port as nat),
{
    let mut url = String::new();
    url.append("http://localhost:");
    append_decimal(&mut url, port as u32);
    url
}

/// `zbus::Connection`, a connection to a D-Bus bus; held, never looked into.
#[verifier::external_type_specification]
#[verifier::external_body]
pub struct ExConnection(zbus::Connection);

/// `zbus::zvariant::OwnedObjectPath`, a D-Bus object path; held, never looked
/// into.
#[verifier::external_type_specification]
#[verifier::external_body]
pub struct ExOwnedObjectPath(zbus::zvariant::OwnedObjectPath);

/// An open global-shortcut session: the bus connection that keeps it alive
/// and the portal's path of the session.
pub struct WaylandPttSession {
    connection: zbus::Connection,
    session_path: Option<zbus::zvariant::OwnedObjectPath>,
}

impl WaylandPttSession {
    /// The session opened on `connection` at `session_path`.
    pub fn new(connection: zbus::Connection, session_path: zbus::zvariant::OwnedObjectPath) -> (s:
        Self)
        ensures
            s.connection() == connection,
            s.session_path() == Some(session_path),
    {
        WaylandPttSession { connection, session_path: Some(session_path) }
    }

    /// The connection that keeps the session alive.
    pub closed spec fn connection(&self) -> zbus::Connection {
        self.connection
    }

    /// The portal's path of the session, while it is held.
    pub closed spec fn session_path(&self) -> Option<zbus::zvariant::OwnedObjectPath> {
        self.session_path
    }
}

/// Keeps a newly opened session in `slot`, in place of any earlier one.
pub fn keep_session(slot: &mut Option<WaylandPttSession>, session: WaylandPttSession)
    ensures
        *final(slot) == Some(session),
{
    *slot = Some(session);
}

/// Closes the push-to-talk session: its path is let go and the session is
/// dropped, which closes its connection. This never fails.
pub fn stop_session(slot: &mut Option<WaylandPttSession>) -> (r: Result<(), String>)
    ensures
        r is Ok,
        *final(slot) is None,
{
    if let Some(s) = slot {
        s.session_path = None;
    }
    *slot = None;
    Ok(())
}

/// The prompt holds the whole label: `Cinny wants to `, then every character
/// of the label, then `.`; so different labels give different prompts.
pub proof fn lemma_prompt_holds_whole_label(label: Seq<char>, other: Seq<char>)
    ensures
        permission_prompt_text(label).len() == label.len() + 16,
        permission_prompt_text(label).take(15) == "Cinny wants to "@,
        permission_prompt_text(label).subrange(15, 15 + label.len() as int) == label,
        permission_prompt_text(label).last() == '.',
        permission_prompt_text(label) == permission_prompt_text(other) ==> label == other,
{
    reveal_strlit("Cinny wants to ");
    reveal_strlit(".");
    let p = permission_prompt_text(label);
    assert(p.take(15) =~= "Cinny wants to "@);
    assert(p.subrange(15, 15 + label.len() as int) =~= label);
    let q = permission_prompt_text(other);
    assert(q.subrange(15, 15 + other.len() as int) =~= other);
}

/// Every kind of request that is asked about is described, and differently
/// from every other kind: in particular each combination of microphone and
/// camera gets its own wording, and only requests of no known kind go
/// undescribed.
pub proof fn lemma_permission_labels_distinct(a: PermissionRequestKind, b: PermissionRequestKind)
    ensures
        permission_label(a) is None <==> a == PermissionRequestKind::Other,
        permission_label(a) is Some && permission_label(a) == permission_label(b) ==> a == b,
{
    reveal_strlit("use your microphone and camera");
    reveal_strlit("use your microphone");
    reveal_strlit("use your camera");
    reveal_strlit("use a media device");
    reveal_strlit("show desktop notifications");
    reveal_strlit("access your location");
    reveal_strlit("lock your mouse pointer");
    reveal_strlit("see your media device list");
    if permission_label(a) is Some && permission_label(a) == permission_label(b) {
        let la = permission_label(a)->0;
        assert(la.len() > 9);
        assert(la[9] == permission_label(b)->0[9]);
        assert(la[4] == permission_label(b)->0[4]);
        assert(la[0] == permission_label(b)->0[0]);
    }
}

/// A portal error ends with the whole cause, and its beginning tells which
/// step failed: different steps are reported differently.
pub proof fn lemma_portal_failure_names_step(a: PortalStep, b: PortalStep, cause: Seq<char>)
    ensures
        ({
            let e = portal_failure_prefix(a) + cause;
            e.subrange(e.len() - cause.len(), e.len() as int) == cause
        }),
        portal_failure_prefix(a) == portal_failure_prefix(b) ==> a == b,
        portal_failure_prefix(a).len() > 0,
{
    reveal_strlit("Failed to connect to D-Bus session bus: ");
    reveal_strlit("Failed to create GlobalShortcuts proxy: ");
    reveal_strlit("Failed to create GlobalShortcuts session: ");
    reveal_strlit("Invalid session path: ");
    reveal_strlit("Failed to bind shortcuts: ");
    reveal_strlit("Failed to listen for Activated signal: ");
    reveal_strlit("Failed to listen for Deactivated signal: ");
    let e = portal_failure_prefix(a) + cause;
    assert(e.subrange(e.len() - cause.len(), e.len() as int) =~= cause);
    if portal_failure_prefix(a) == portal_failure_prefix(b) {
        let pa = portal_failure_prefix(a);
        let pb = portal_failure_prefix(b);
        assert(pa[10] == pb[10]);
        assert(pa[17] == pb[17]);
        assert(pa[0] == pb[0]);
    }
}

/// The local address is `http://localhost:` followed by the port number in
/// decimal, which reads back as the port.
pub proof fn lemma_localhost_url_names_port(port: u16)
    ensures
        ({
            let url = "http://localhost:"@ + decimal(port as nat);
            &&& url.take(17) == "http://localhost:"@
            &&& all_digits(url.skip(17))
            &&& url.skip(17).len() > 0
            &&& digits_value(url.skip(17)) == port
        }),
{
    reveal_strlit("http://localhost:");
    let url = "http://localhost:"@ + decimal(port as nat);
    assert(url.take(17) =~= "http://localhost:"@);
    assert(url.skip(17) =~= decimal(port as nat));
    lemma_decimal_reads_back(port as nat);
}

} // verus!
