use text_inject::session::{
    session_has_wayland, session_has_x11, session_kind, SessionKind, SessionSignals,
    SESSION_TYPE_VARIABLE, WAYLAND_DISPLAY_VARIABLE, X11_DISPLAY_VARIABLE,
};

fn signals(session_type: Option<&str>, wayland_display: bool, x11_display: bool) -> SessionSignals {
    SessionSignals {
        session_type: session_type.map(|name| name.to_string()),
        wayland_display,
        x11_display,
    }
}

#[test]
fn detects_wayland_session_from_env() {
    assert!(session_has_wayland(&signals(Some("wayland"), false, false)));
}

#[test]
fn detects_x11_session_from_env() {
    assert!(session_has_x11(&signals(Some("x11"), false, false)));
}

#[test]
fn detects_wayland_session_from_display_fallback() {
    assert!(session_has_wayland(&signals(None, true, false)));
}

#[test]
fn detects_x11_session_from_display_fallback() {
    assert!(session_has_x11(&signals(None, false, true)));
}

#[test]
fn session_type_is_matched_whatever_the_letter_case() {
    for name in ["wayland", "WAYLAND", "Wayland", "wAyLaNd"] {
        assert!(session_has_wayland(&signals(Some(name), false, false)), "{name}");
        assert!(!session_has_x11(&signals(Some(name), false, false)), "{name}");
    }
    for name in ["x11", "X11"] {
        assert!(session_has_x11(&signals(Some(name), false, false)), "{name}");
        assert!(!session_has_wayland(&signals(Some(name), false, false)), "{name}");
    }
}

#[test]
fn session_type_must_match_as_a_whole() {
    for name in ["", "way", "waylandx", " wayland", "wayland ", "x", "x111", "tty", "mir"] {
        assert!(!session_has_wayland(&signals(Some(name), false, false)), "{name:?}");
        assert!(!session_has_x11(&signals(Some(name), false, false)), "{name:?}");
    }
}

#[test]
fn only_ascii_letters_are_folded() {
    // A fullwidth X and an accented W are letters, but not ASCII ones.
    assert!(!session_has_x11(&signals(Some("\u{ff38}11"), false, false)));
    assert!(!session_has_wayland(&signals(Some("ẂAYLAND"), false, false)));
}

#[test]
fn absent_signals_detect_nothing() {
    let none = signals(None, false, false);
    assert!(!session_has_wayland(&none));
    assert!(!session_has_x11(&none));
}

#[test]
fn session_detection_follows_the_truth_table() {
    let types: [Option<&str>; 4] = [None, Some("wayland"), Some("x11"), Some("tty")];
    for session_type in types {
        for wayland_display in [false, true] {
            for x11_display in [false, true] {
                let probe = signals(session_type, wayland_display, x11_display);
                let wayland = session_type == Some("wayland") || wayland_display;
                let x11 = session_type == Some("x11") || x11_display;
                assert_eq!(session_has_wayland(&probe), wayland, "{probe:?}");
                assert_eq!(session_has_x11(&probe), x11, "{probe:?}");
            }
        }
    }
}

#[test]
fn the_session_type_wins_over_a_missing_handle() {
    assert!(session_has_wayland(&signals(Some("wayland"), false, true)));
    assert!(session_has_x11(&signals(Some("x11"), true, false)));
}

#[test]
fn both_sessions_may_be_detected_at_once() {
    let xwayland = signals(Some("wayland"), true, true);
    assert!(session_has_wayland(&xwayland));
    assert!(session_has_x11(&xwayland));
}

#[test]
fn the_handle_of_one_session_says_nothing_of_the_other() {
    assert!(!session_has_x11(&signals(None, true, false)));
    assert!(!session_has_wayland(&signals(None, false, true)));
}

#[test]
fn the_variables_consulted_are_the_usual_ones() {
    assert_eq!(SESSION_TYPE_VARIABLE, "XDG_SESSION_TYPE");
    assert_eq!(WAYLAND_DISPLAY_VARIABLE, "WAYLAND_DISPLAY");
    assert_eq!(X11_DISPLAY_VARIABLE, "DISPLAY");
}

#[test]
fn the_kind_of_the_session_is_worked_out_from_the_signals() {
    assert_eq!(session_kind(&signals(None, false, false)), SessionKind::Unknown);
    assert_eq!(session_kind(&signals(Some("tty"), false, false)), SessionKind::Unknown);
    assert_eq!(session_kind(&signals(Some("Wayland"), false, false)), SessionKind::Wayland);
    assert_eq!(session_kind(&signals(None, true, false)), SessionKind::Wayland);
    assert_eq!(session_kind(&signals(Some("x11"), false, false)), SessionKind::X11);
    assert_eq!(session_kind(&signals(None, false, true)), SessionKind::X11);
    assert_eq!(session_kind(&signals(Some("wayland"), false, true)), SessionKind::Wayland);
    assert_eq!(session_kind(&signals(Some("x11"), true, false)), SessionKind::Wayland);
}
