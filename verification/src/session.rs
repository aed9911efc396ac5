//! Detection of the graphical session from the signals of the environment.

use crate::text::{ascii_lowercase, eq_ignore_ascii_case};
use vstd::prelude::*;

verus! {

/// The name of the variable that states the session type.
pub const SESSION_TYPE_VARIABLE: &'static str = "XDG_SESSION_TYPE";

/// The name of the variable that holds the Wayland display handle.
pub const WAYLAND_DISPLAY_VARIABLE: &'static str = "WAYLAND_DISPLAY";

/// The name of the variable that holds the X11 display handle.
pub const X11_DISPLAY_VARIABLE: &'static str = "DISPLAY";

/// What the environment says of the graphical session, as read in one probe.
#[derive(Clone, Debug, PartialEq, Eq)]
pub struct SessionSignals {
    /// The declared session type, where one is declared in valid Unicode.
    pub session_type: Option<String>,
    /// Whether a Wayland display handle is present, whatever it holds.
    pub wayland_display: bool,
    /// Whether an X11 display handle is present, whatever it holds.
    pub x11_display: bool,
}

/// The kind of the graphical session, worked out anew from each probe.
#[derive(Clone, Copy, Debug, PartialEq, Eq, Structural)]
pub enum SessionKind {
    Wayland,
    X11,
    Unknown,
}

/// The mathematical form of [`SessionSignals`].
pub struct SessionView {
    pub session_type: Option<Seq<char>>,
    pub wayland_display: bool,
    pub x11_display: bool,
}

impl View for SessionSignals {
    type V = SessionView;

    open spec fn view(&self) -> SessionView {
        SessionView {
            session_type: match self.session_type {
                Some(name) => Some(name@),
                None => None,
            },
            wayland_display: self.wayland_display,
            x11_display: self.x11_display,
        }
    }
}

impl SessionView {
    /// Whether the declared session type is `name`, letter case of ASCII
    /// letters aside.
    pub open spec fn declares(self, name: Seq<char>) -> bool {
        self.session_type matches Some(declared) && ascii_lowercase(declared) == ascii_lowercase(
            name,
        )
    }

    /// A Wayland session is detected when the session type says so, or else
    /// when a Wayland display handle is present.
    pub open spec fn has_wayland(self) -> bool {
        self.declares("wayland"@) || self.wayland_display
    }

    /// An X11 session is detected when the session type says so, or else
    /// when an X11 display handle is present.
    pub open spec fn has_x11(self) -> bool {
        self.declares("x11"@) || self.x11_display
    }

    /// The kind of the session. Where both sessions are detected, as with
    /// X11 applications served under Wayland, the session is a Wayland
    /// session.
    pub open spec fn kind(self) -> SessionKind {
        if self.has_wayland() {
            SessionKind::Wayland
        } else if self.has_x11() {
            SessionKind::X11
        } else {
            SessionKind::Unknown
        }
    }
}

fn declares(signals: &SessionSignals, name: &str) -> (declared: bool)
    ensures
        declared == signals@.declares(name@),
{
    match &signals.session_type {
        Some(value) => eq_ignore_ascii_case(value.as_str(), name),
        None => false,
    }
}

/// Whether the signals show a Wayland session.
pub fn session_has_wayland(signals: &SessionSignals) -> (detected: bool)
    ensures
        detected == signals@.has_wayland(),
{
    if declares(signals, "wayland") {
        return true;
    }
    signals.wayland_display
}

/// Whether the signals show an X11 session.
pub fn session_has_x11(signals: &SessionSignals) -> (detected: bool)
    ensures
        detected == signals@.has_x11(),
{
    if declares(signals, "x11") {
        return true;
    }
    signals.x11_display
}

/// The kind of session that the signals show.
pub fn session_kind(signals: &SessionSignals) -> (kind: SessionKind)
    ensures
        kind == signals@.kind(),
{
    if session_has_wayland(signals) {
        SessionKind::Wayland
    } else if session_has_x11(signals) {
        SessionKind::X11
    } else {
        SessionKind::Unknown
    }
}

/// The truth table of session detection. A session type that names the
/// session decides alone; without it the display handle decides; with
/// neither the session is not detected. The two detectors do not depend on
/// each other's handle.
pub proof fn session_truth_table(signals: SessionView)
    ensures
        signals.declares("wayland"@) ==> signals.has_wayland(),
        signals.declares("x11"@) ==> signals.has_x11(),
        !signals.declares("wayland"@) ==> signals.has_wayland() == signals.wayland_display,
        !signals.declares("x11"@) ==> signals.has_x11() == signals.x11_display,
        signals.session_type is None && !signals.wayland_display ==> !signals.has_wayland(),
        signals.session_type is None && !signals.x11_display ==> !signals.has_x11(),
        !(signals.declares("wayland"@) && signals.declares("x11"@)),
{
    reveal_strlit("wayland");
    reveal_strlit("x11");
    if signals.declares("wayland"@) && signals.declares("x11"@) {
        let declared = signals.session_type->0;
        assert(ascii_lowercase(declared).len() == declared.len());
        assert(ascii_lowercase("wayland"@).len() == 7);
        assert(ascii_lowercase("x11"@).len() == 3);
    }
}

} // verus!
