use text_inject::clipboard::ClipboardOffer;
use text_inject::command::{Capture, Command, ProcessOutcome};
use text_inject::error::{FailureKind, OutputError};
use text_inject::exchange::{Request, Response};
use text_inject::output::{cascade_error, inject_text, runtime_socket_path, Injection, SETTLE_MILLIS};
use text_inject::session::SessionSignals;
use text_inject::strategy::{Failure, InjectBackend, Stage, Strategy};

const RUNTIME_SOCKET: &str = "/run/user/1000/.ydotool_socket";
const FALLBACK_SOCKET: &str = "/tmp/.ydotool_socket";
const PASTE_UNAVAILABLE: &str = "clipboard paste requires ydotool for key simulation";
const DAEMON_UNAVAILABLE: &str = "ydotoold not running; start with `systemctl --user start ydotool.service` (see README for uinput permissions setup)";
const WAYLAND_UNAVAILABLE: &str = "wayland session not detected";
const X11_UNAVAILABLE: &str = "x11 session not detected";

/// A desktop that exists in memory only.
struct Desk {
    uid: u32,
    files: Vec<String>,
    session: SessionSignals,
    clipboard: Option<Vec<u8>>,
    failing_offers: Vec<usize>,
    clearing_fails: bool,
    offers: usize,
    window_tools: Vec<(String, Option<Capture>)>,
    programs: Vec<(String, String, ProcessOutcome)>,
    done: Vec<Request>,
}

fn desk() -> Desk {
    Desk {
        uid: 1000,
        files: Vec::new(),
        session: SessionSignals { session_type: None, wayland_display: false, x11_display: false },
        clipboard: None,
        failing_offers: Vec::new(),
        clearing_fails: false,
        offers: 0,
        window_tools: Vec::new(),
        programs: Vec::new(),
        done: Vec::new(),
    }
}

fn exited(success: bool, status: &str) -> ProcessOutcome {
    ProcessOutcome::Exited { success, status: status.to_string() }
}

fn missing() -> ProcessOutcome {
    ProcessOutcome::LaunchFailed {
        not_found: true,
        detail: "No such file or directory (os error 2)".to_string(),
    }
}

fn made(program: &str, args: &[&str]) -> Command {
    Command {
        program: program.to_string(),
        args: args.iter().map(|arg| arg.to_string()).collect(),
    }
}

fn secret(content: &[u8]) -> ClipboardOffer {
    ClipboardOffer {
        content: content.to_vec(),
        hint_type: "x-kde-passwordManagerHint".to_string(),
        hint: b"secret".to_vec(),
    }
}

impl Desk {
    fn with_daemon(mut self) -> Desk {
        self.files.push(RUNTIME_SOCKET.to_string());
        self
    }

    fn with_wayland(mut self) -> Desk {
        self.session.session_type = Some("wayland".to_string());
        self
    }

    fn with_x11(mut self) -> Desk {
        self.session.x11_display = true;
        self
    }

    fn with_clipboard(mut self, content: &[u8]) -> Desk {
        self.clipboard = Some(content.to_vec());
        self
    }

    fn with_window(mut self, tool: &str, success: bool, stdout: &[u8]) -> Desk {
        self.window_tools
            .push((tool.to_string(), Some(Capture { success, stdout: stdout.to_vec() })));
        self
    }

    fn with_program(mut self, program: &str, verb: &str, outcome: ProcessOutcome) -> Desk {
        self.programs.push((program.to_string(), verb.to_string(), outcome));
        self
    }

    fn perform(&mut self, request: &Request) -> Response {
        match request {
            Request::ReadUid => Response::Uid(self.uid),
            Request::ProbeFile { path } => Response::Exists(self.files.contains(path)),
            Request::ReadSession => Response::Session(self.session.clone()),
            Request::SaveClipboard => Response::Snapshot(self.clipboard.clone()),
            Request::OfferClipboard { offer } => {
                let index = self.offers;
                self.offers += 1;
                if self.failing_offers.contains(&index) {
                    Response::Clipboard(Err("the compositor went away".to_string()))
                } else {
                    self.clipboard = Some(offer.content.clone());
                    Response::Clipboard(Ok(()))
                }
            }
            Request::ClearClipboard => {
                if self.clearing_fails {
                    Response::Clipboard(Err("the compositor went away".to_string()))
                } else {
                    self.clipboard = None;
                    Response::Clipboard(Ok(()))
                }
            }
            Request::Capture { command } => Response::Captured(
                self.window_tools
                    .iter()
                    .find(|(tool, _)| *tool == command.program)
                    .and_then(|(_, capture)| capture.clone()),
            ),
            Request::Run { command } => Response::Exited(
                self.programs
                    .iter()
                    .find(|(program, verb, _)| {
                        *program == command.program && *verb == command.args[0]
                    })
                    .map(|(_, _, outcome)| outcome.clone())
                    .unwrap_or_else(missing),
            ),
            Request::Settle { .. } => Response::Settled,
            Request::Finish { .. } => unreachable!(),
        }
    }

    fn inject(&mut self, text: &str, backend: InjectBackend) -> (Injection, Result<(), OutputError>) {
        let mut injection = inject_text(text, backend);
        for _ in 0..64 {
            let request = injection.request();
            if let Request::Finish { result } = request {
                return (injection, result);
            }
            let response = self.perform(&request);
            self.done.push(request);
            injection = injection.advance(response);
        }
        panic!("the injection did not end");
    }

    fn programs_started(&self) -> Vec<&Command> {
        self.done
            .iter()
            .filter_map(|request| match request {
                Request::Run { command } | Request::Capture { command } => Some(command),
                _ => None,
            })
            .collect()
    }

    fn runs(&self) -> Vec<&Command> {
        self.done
            .iter()
            .filter_map(|request| match request {
                Request::Run { command } => Some(command),
                _ => None,
            })
            .collect()
    }
}

fn failed_with(strategy: Strategy, kind: FailureKind, reason: &str) -> Failure {
    Failure { strategy, kind, reason: reason.to_string() }
}

fn message(result: &Result<(), OutputError>) -> String {
    match result {
        Ok(()) => panic!("the injection succeeded"),
        Err(error) => error.to_string(),
    }
}

#[test]
fn an_injection_begins_with_the_probe_of_its_first_strategy() {
    let auto = inject_text("hi", InjectBackend::Auto);
    assert_eq!(auto.backend(), InjectBackend::Auto);
    assert_eq!(auto.strategy(), Strategy::ClipboardPaste);
    assert_eq!(auto.stage(), Stage::Uid);
    assert_eq!(auto.request(), Request::ReadUid);
    assert!(!auto.is_finished());
    assert_eq!(auto.result(), None);
    assert!(auto.failures().is_empty());
    assert_eq!(*auto.complaint(), None);

    let kernel = inject_text("hi", InjectBackend::UiInputBackend);
    assert_eq!(kernel.strategy(), Strategy::KernelInjection);
    assert_eq!(kernel.request(), Request::ReadUid);

    let wayland = inject_text("hi", InjectBackend::WaylandBackend);
    assert_eq!(wayland.strategy(), Strategy::WaylandNative);
    assert_eq!(wayland.request(), Request::ReadSession);

    let x11 = inject_text("hi", InjectBackend::X11Backend);
    assert_eq!(x11.strategy(), Strategy::X11Native);
    assert_eq!(x11.request(), Request::ReadSession);
}

#[test]
fn the_daemon_socket_is_looked_for_in_the_runtime_directory_first() {
    assert_eq!(runtime_socket_path(1000), "/run/user/1000/.ydotool_socket");
    assert_eq!(runtime_socket_path(0), "/run/user/0/.ydotool_socket");
    assert_eq!(runtime_socket_path(4294967295), "/run/user/4294967295/.ydotool_socket");

    let injection = inject_text("hi", InjectBackend::UiInputBackend).advance(Response::Uid(1234));
    assert_eq!(
        injection.request(),
        Request::ProbeFile { path: "/run/user/1234/.ydotool_socket".to_string() }
    );
    let injection = injection.advance(Response::Exists(false));
    assert_eq!(injection.request(), Request::ProbeFile { path: FALLBACK_SOCKET.to_string() });
    let injection = injection.advance(Response::Exists(true));
    assert_eq!(injection.request(), Request::Run { command: made("ydotool", &["type", "-d", "0", "--", "hi"]) });
}

#[test]
fn a_socket_in_the_runtime_directory_spares_the_second_probe() {
    let injection = inject_text("hi", InjectBackend::UiInputBackend)
        .advance(Response::Uid(1000))
        .advance(Response::Exists(true));
    assert_eq!(injection.stage(), Stage::Run);
}

#[test]
fn auto_succeeds_with_the_first_strategy_that_delivers() {
    let mut host = desk()
        .with_daemon()
        .with_program("ydotool", "key", exited(true, "exit status: 0"))
        .with_program("ydotool", "type", exited(true, "exit status: 0"))
        .with_wayland()
        .with_program("wtype", "--", exited(true, "exit status: 0"));
    let (injection, result) = host.inject("hello", InjectBackend::Auto);
    assert_eq!(result, Ok(()));
    assert_eq!(injection.strategy(), Strategy::ClipboardPaste);
    assert!(injection.failures().is_empty());
    assert_eq!(host.runs(), [&made("ydotool", &["key", "29:1", "47:1", "47:0", "29:0"])]);
    assert!(!host.done.contains(&Request::ReadSession));
}

#[test]
fn auto_turns_to_the_kernel_injection_when_the_paste_fails() {
    let mut host = desk()
        .with_daemon()
        .with_program("ydotool", "key", exited(false, "exit status: 1"))
        .with_program("ydotool", "type", exited(true, "exit status: 0"))
        .with_wayland()
        .with_program("wtype", "--", exited(true, "exit status: 0"));
    let (injection, result) = host.inject("hello", InjectBackend::Auto);
    assert_eq!(result, Ok(()));
    assert_eq!(injection.strategy(), Strategy::KernelInjection);
    assert_eq!(
        *injection.failures(),
        [failed_with(
            Strategy::ClipboardPaste,
            FailureKind::ExecutionFailed,
            "ydotool exited with status exit status: 1"
        )]
    );
    assert_eq!(
        host.runs(),
        [
            &made("ydotool", &["key", "29:1", "47:1", "47:0", "29:0"]),
            &made("ydotool", &["type", "-d", "0", "--", "hello"]),
        ]
    );
    assert!(!host.done.contains(&Request::ReadSession));
}

#[test]
fn auto_turns_to_wayland_when_the_daemon_is_absent() {
    let mut host = desk()
        .with_wayland()
        .with_x11()
        .with_program("wtype", "--", exited(true, "exit status: 0"))
        .with_program("xdotool", "type", exited(true, "exit status: 0"));
    let (injection, result) = host.inject("hello", InjectBackend::Auto);
    assert_eq!(result, Ok(()));
    assert_eq!(injection.strategy(), Strategy::WaylandNative);
    assert_eq!(
        *injection.failures(),
        [
            failed_with(Strategy::ClipboardPaste, FailureKind::Unavailable, PASTE_UNAVAILABLE),
            failed_with(Strategy::KernelInjection, FailureKind::Unavailable, DAEMON_UNAVAILABLE),
        ]
    );
    assert_eq!(host.programs_started(), [&made("wtype", &["--", "hello"])]);
    assert_eq!(
        host.done,
        [
            Request::ReadUid,
            Request::ProbeFile { path: RUNTIME_SOCKET.to_string() },
            Request::ProbeFile { path: FALLBACK_SOCKET.to_string() },
            Request::ReadUid,
            Request::ProbeFile { path: RUNTIME_SOCKET.to_string() },
            Request::ProbeFile { path: FALLBACK_SOCKET.to_string() },
            Request::ReadSession,
            Request::Run { command: made("wtype", &["--", "hello"]) },
        ]
    );
}

#[test]
fn auto_ends_with_x11_when_nothing_else_works() {
    let mut host =
        desk().with_x11().with_program("xdotool", "type", exited(true, "exit status: 0"));
    let (injection, result) = host.inject("hello", InjectBackend::Auto);
    assert_eq!(result, Ok(()));
    assert_eq!(injection.strategy(), Strategy::X11Native);
    assert_eq!(injection.failures().len(), 3);
    assert_eq!(
        host.programs_started(),
        [&made("xdotool", &["type", "--clearmodifiers", "--delay", "0", "--", "hello"])]
    );
}

#[test]
fn an_exhausted_cascade_lists_all_four_reasons_in_order() {
    let mut host = desk();
    let (injection, result) = host.inject("hello", InjectBackend::Auto);
    assert_eq!(
        message(&result),
        "no supported injection backends available (clipboard paste requires ydotool for key \
         simulation; ydotoold not running; start with `systemctl --user start ydotool.service` \
         (see README for uinput permissions setup); wayland session not detected; x11 session \
         not detected)"
    );
    assert_eq!(
        *injection.failures(),
        [
            failed_with(Strategy::ClipboardPaste, FailureKind::Unavailable, PASTE_UNAVAILABLE),
            failed_with(Strategy::KernelInjection, FailureKind::Unavailable, DAEMON_UNAVAILABLE),
            failed_with(Strategy::WaylandNative, FailureKind::Unavailable, WAYLAND_UNAVAILABLE),
            failed_with(Strategy::X11Native, FailureKind::Unavailable, X11_UNAVAILABLE),
        ]
    );
    assert!(host.programs_started().is_empty());
    assert!(injection.is_finished());
    assert_eq!(injection.result(), Some(result));
}

#[test]
fn an_exhausted_cascade_joins_failures_of_every_kind() {
    let mut host = desk()
        .with_daemon()
        .with_wayland()
        .with_x11()
        .with_program("ydotool", "key", exited(false, "exit status: 2"))
        .with_program(
            "ydotool",
            "type",
            ProcessOutcome::LaunchFailed {
                not_found: false,
                detail: "Permission denied (os error 13)".to_string(),
            },
        )
        .with_program("wtype", "--", exited(false, "exit status: 1"));
    let (injection, result) = host.inject("hello", InjectBackend::Auto);
    assert_eq!(
        message(&result),
        "no supported injection backends available (ydotool exited with status exit status: 2; \
         ydotool: failed to run ydotool: Permission denied (os error 13); wayland: wtype exited \
         with status exit status: 1; x11: xdotool not found; install xdotool to enable X11 text \
         injection)"
    );
    let kinds: Vec<FailureKind> = injection.failures().iter().map(|failure| failure.kind).collect();
    assert_eq!(
        kinds,
        [
            FailureKind::ExecutionFailed,
            FailureKind::LaunchFailed,
            FailureKind::ExecutionFailed,
            FailureKind::LaunchFailed,
        ]
    );
    assert_eq!(host.runs().len(), 4);
}

#[test]
fn the_cascade_error_joins_reasons_with_semicolons() {
    let one = vec![failed_with(Strategy::ClipboardPaste, FailureKind::IOFailed, "a")];
    assert_eq!(cascade_error(&one).to_string(), "no supported injection backends available (a)");
    let two = vec![
        failed_with(Strategy::ClipboardPaste, FailureKind::IOFailed, "a"),
        failed_with(Strategy::KernelInjection, FailureKind::Unavailable, "b; c"),
    ];
    assert_eq!(
        cascade_error(&two).to_string(),
        "no supported injection backends available (a; b; c)"
    );
    assert_eq!(
        cascade_error(&Vec::new()).to_string(),
        "no supported injection backends available ()"
    );
}

#[test]
fn kernel_injection_without_the_daemon_is_unavailable() {
    let mut host = desk().with_program("ydotool", "type", exited(true, "exit status: 0"));
    let (injection, result) = host.inject("hello", InjectBackend::UiInputBackend);
    let text = message(&result);
    assert_eq!(text, DAEMON_UNAVAILABLE);
    assert!(text.contains("systemctl --user start ydotool.service"));
    assert_eq!(
        *injection.failures(),
        [failed_with(Strategy::KernelInjection, FailureKind::Unavailable, DAEMON_UNAVAILABLE)]
    );
    assert!(host.programs_started().is_empty());
    assert_eq!(
        host.done,
        [
            Request::ReadUid,
            Request::ProbeFile { path: RUNTIME_SOCKET.to_string() },
            Request::ProbeFile { path: FALLBACK_SOCKET.to_string() },
        ]
    );
}

#[test]
fn x11_with_a_missing_tool_fails_to_launch() {
    let mut host = desk().with_x11();
    let (injection, result) = host.inject("hello", InjectBackend::X11Backend);
    let text = message(&result);
    assert_eq!(text, "x11: xdotool not found; install xdotool to enable X11 text injection");
    assert!(text.contains("xdotool"));
    assert_eq!(injection.failures().len(), 1);
    assert_eq!(injection.failures()[0].kind, FailureKind::LaunchFailed);
    assert_eq!(injection.failures()[0].strategy, Strategy::X11Native);
    assert_eq!(
        host.done,
        [
            Request::ReadSession,
            Request::Run {
                command: made("xdotool", &["type", "--clearmodifiers", "--delay", "0", "--", "hello"])
            },
        ]
    );
}

#[test]
fn a_terminal_gets_ctrl_shift_v() {
    let mut host = desk()
        .with_daemon()
        .with_window("kdotool", true, b"org.kde.konsole\n")
        .with_program("ydotool", "key", exited(true, "exit status: 0"));
    let (_, result) = host.inject("hello", InjectBackend::Auto);
    assert_eq!(result, Ok(()));
    assert_eq!(
        host.runs(),
        [&made("ydotool", &["key", "29:1", "42:1", "47:1", "47:0", "42:0", "29:0"])]
    );
}

#[test]
fn another_window_gets_ctrl_v() {
    let mut host = desk()
        .with_daemon()
        .with_window("kdotool", true, b"firefox\n")
        .with_window("xdotool", true, b"konsole\n")
        .with_program("ydotool", "key", exited(true, "exit status: 0"));
    let (_, result) = host.inject("hello", InjectBackend::Auto);
    assert_eq!(result, Ok(()));
    assert_eq!(host.runs(), [&made("ydotool", &["key", "29:1", "47:1", "47:0", "29:0"])]);
    assert_eq!(
        host.programs_started()[0],
        &made("kdotool", &["getactivewindow", "getwindowclassname"])
    );
    assert_eq!(host.programs_started().len(), 2);
}

#[test]
fn the_x11_tool_is_asked_when_the_wayland_tool_fails() {
    let mut host = desk()
        .with_daemon()
        .with_window("kdotool", false, b"konsole\n")
        .with_window("xdotool", true, b"XTerm\n")
        .with_program("ydotool", "key", exited(true, "exit status: 0"));
    let (_, result) = host.inject("hello", InjectBackend::Auto);
    assert_eq!(result, Ok(()));
    assert_eq!(
        host.programs_started(),
        [
            &made("kdotool", &["getactivewindow", "getwindowclassname"]),
            &made("xdotool", &["getactivewindow", "getwindowclassname"]),
            &made("ydotool", &["key", "29:1", "42:1", "47:1", "47:0", "42:0", "29:0"]),
        ]
    );
}

#[test]
fn a_window_that_no_tool_can_name_counts_as_no_terminal() {
    let mut host = desk()
        .with_daemon()
        .with_window("xdotool", false, b"konsole\n")
        .with_program("ydotool", "key", exited(true, "exit status: 0"));
    let (_, result) = host.inject("hello", InjectBackend::Auto);
    assert_eq!(result, Ok(()));
    assert_eq!(host.runs(), [&made("ydotool", &["key", "29:1", "47:1", "47:0", "29:0"])]);
}

#[test]
fn the_paste_follows_its_steps_in_order() {
    let mut host = desk()
        .with_daemon()
        .with_clipboard(b"before")
        .with_window("kdotool", true, b"kitty\n")
        .with_program("ydotool", "key", exited(true, "exit status: 0"));
    let (injection, result) = host.inject("héllo", InjectBackend::Auto);
    assert_eq!(result, Ok(()));
    assert_eq!(
        host.done,
        [
            Request::ReadUid,
            Request::ProbeFile { path: RUNTIME_SOCKET.to_string() },
            Request::SaveClipboard,
            Request::OfferClipboard { offer: secret("héllo".as_bytes()) },
            Request::Capture { command: made("kdotool", &["getactivewindow", "getwindowclassname"]) },
            Request::Run {
                command: made("ydotool", &["key", "29:1", "42:1", "47:1", "47:0", "42:0", "29:0"])
            },
            Request::Settle { millis: 200 },
            Request::OfferClipboard { offer: secret(b"before") },
        ]
    );
    assert_eq!(SETTLE_MILLIS, 200);
    assert_eq!(*injection.complaint(), None);
}

#[test]
fn the_clipboard_holds_after_the_paste_what_it_held_before() {
    let mut host = desk()
        .with_daemon()
        .with_clipboard(b"before")
        .with_program("ydotool", "key", exited(true, "exit status: 0"));
    let (_, result) = host.inject("hello", InjectBackend::Auto);
    assert_eq!(result, Ok(()));
    assert_eq!(host.clipboard, Some(b"before".to_vec()));
}

#[test]
fn the_clipboard_is_restored_after_a_failed_shortcut() {
    let mut host = desk()
        .with_daemon()
        .with_clipboard(b"before")
        .with_program("ydotool", "key", exited(false, "exit status: 1"))
        .with_program("ydotool", "type", exited(true, "exit status: 0"));
    let (injection, result) = host.inject("hello", InjectBackend::Auto);
    assert_eq!(result, Ok(()));
    assert_eq!(injection.strategy(), Strategy::KernelInjection);
    assert_eq!(host.clipboard, Some(b"before".to_vec()));
    assert!(host.done.contains(&Request::Settle { millis: 200 }));
}

#[test]
fn an_empty_clipboard_is_empty_again_after_the_paste() {
    for shortcut_works in [true, false] {
        let mut host = desk()
            .with_daemon()
            .with_program("ydotool", "key", exited(shortcut_works, "exit status"))
            .with_program("ydotool", "type", exited(true, "exit status: 0"));
        let (_, result) = host.inject("hello", InjectBackend::Auto);
        assert_eq!(result, Ok(()));
        assert_eq!(host.clipboard, None);
        assert!(host.done.contains(&Request::ClearClipboard));
    }
}

#[test]
fn a_failed_write_ends_the_paste_at_once() {
    let mut host = desk()
        .with_daemon()
        .with_clipboard(b"before")
        .with_program("ydotool", "key", exited(true, "exit status: 0"))
        .with_program("ydotool", "type", exited(true, "exit status: 0"));
    host.failing_offers = vec![0];
    let (injection, result) = host.inject("hello", InjectBackend::Auto);
    assert_eq!(result, Ok(()));
    assert_eq!(
        *injection.failures(),
        [failed_with(
            Strategy::ClipboardPaste,
            FailureKind::IOFailed,
            "clipboard copy failed: the compositor went away"
        )]
    );
    assert_eq!(host.runs(), [&made("ydotool", &["type", "-d", "0", "--", "hello"])]);
    assert_eq!(host.programs_started().len(), 1);
    assert!(!host.done.contains(&Request::Settle { millis: 200 }));
    assert_eq!(host.offers, 1);
    assert_eq!(host.clipboard, Some(b"before".to_vec()));
}

#[test]
fn a_failed_restore_does_not_change_the_result() {
    let mut host = desk()
        .with_daemon()
        .with_clipboard(b"before")
        .with_program("ydotool", "key", exited(true, "exit status: 0"));
    host.failing_offers = vec![1];
    let (injection, result) = host.inject("hello", InjectBackend::Auto);
    assert_eq!(result, Ok(()));
    assert!(injection.failures().is_empty());
    assert_eq!(
        *injection.complaint(),
        Some("clipboard restore failed: the compositor went away".to_string())
    );
}

#[test]
fn a_failed_clearing_does_not_change_the_result() {
    let mut host = desk()
        .with_daemon()
        .with_program("ydotool", "key", exited(false, "exit status: 1"))
        .with_program("ydotool", "type", exited(true, "exit status: 0"));
    host.clearing_fails = true;
    let (injection, result) = host.inject("hello", InjectBackend::Auto);
    assert_eq!(result, Ok(()));
    assert_eq!(injection.failures().len(), 1);
    assert_eq!(injection.failures()[0].reason, "ydotool exited with status exit status: 1");
    assert_eq!(
        *injection.complaint(),
        Some("clipboard clear failed: the compositor went away".to_string())
    );
}

#[test]
fn the_paste_shortcut_that_cannot_start_is_a_launch_failure() {
    let mut host = desk().with_daemon().with_x11();
    let (injection, _) = host.inject("hello", InjectBackend::Auto);
    assert_eq!(
        injection.failures()[0],
        failed_with(
            Strategy::ClipboardPaste,
            FailureKind::LaunchFailed,
            "failed to run ydotool: No such file or directory (os error 2)"
        )
    );
    assert_eq!(
        injection.failures()[1],
        failed_with(
            Strategy::KernelInjection,
            FailureKind::LaunchFailed,
            "ydotool: ydotool not found; install ydotool and run `systemctl --user start \
             ydotool.service`"
        )
    );
}

#[test]
fn an_explicit_backend_runs_its_strategy_only() {
    let mut host = desk()
        .with_daemon()
        .with_x11()
        .with_program("ydotool", "type", exited(true, "exit status: 0"))
        .with_program("ydotool", "key", exited(true, "exit status: 0"))
        .with_program("xdotool", "type", exited(true, "exit status: 0"));
    let (injection, result) = host.inject("hello", InjectBackend::WaylandBackend);
    assert_eq!(message(&result), WAYLAND_UNAVAILABLE);
    assert_eq!(injection.strategy(), Strategy::WaylandNative);
    assert_eq!(host.done, [Request::ReadSession]);
}

#[test]
fn each_explicit_backend_delivers_with_its_own_tool() {
    let cases = [
        (InjectBackend::UiInputBackend, made("ydotool", &["type", "-d", "0", "--", "-x"])),
        (InjectBackend::WaylandBackend, made("wtype", &["--", "-x"])),
        (
            InjectBackend::X11Backend,
            made("xdotool", &["type", "--clearmodifiers", "--delay", "0", "--", "-x"]),
        ),
    ];
    for (backend, command) in cases {
        let mut host = desk()
            .with_daemon()
            .with_wayland()
            .with_x11()
            .with_program("ydotool", "type", exited(true, "exit status: 0"))
            .with_program("wtype", "--", exited(true, "exit status: 0"))
            .with_program("xdotool", "type", exited(true, "exit status: 0"));
        let (injection, result) = host.inject("-x", backend);
        assert_eq!(result, Ok(()));
        assert!(injection.failures().is_empty());
        assert_eq!(host.programs_started(), [&command]);
    }
}

#[test]
fn a_nonzero_exit_is_an_execution_failure_with_the_status() {
    let mut host = desk().with_wayland().with_program("wtype", "--", exited(false, "exit status: 7"));
    let (injection, result) = host.inject("hello", InjectBackend::WaylandBackend);
    assert_eq!(message(&result), "wayland: wtype exited with status exit status: 7");
    assert_eq!(injection.failures()[0].kind, FailureKind::ExecutionFailed);

    let mut host =
        desk().with_daemon().with_program("ydotool", "type", exited(false, "exit status: 1"));
    let (injection, result) = host.inject("hello", InjectBackend::UiInputBackend);
    assert_eq!(message(&result), "ydotool: ydotool exited with status exit status: 1");
    assert_eq!(injection.failures()[0].kind, FailureKind::ExecutionFailed);
}

#[test]
fn a_missing_wayland_tool_comes_with_its_hint() {
    let mut host = desk().with_wayland();
    let (injection, result) = host.inject("hello", InjectBackend::WaylandBackend);
    assert_eq!(
        message(&result),
        "wayland: wtype not found; install wtype to enable Wayland text injection"
    );
    assert_eq!(injection.failures()[0].kind, FailureKind::LaunchFailed);
}

#[test]
fn x11_without_a_session_is_unavailable() {
    let mut host = desk().with_wayland();
    let (injection, result) = host.inject("hello", InjectBackend::X11Backend);
    assert_eq!(message(&result), X11_UNAVAILABLE);
    assert_eq!(injection.failures()[0].kind, FailureKind::Unavailable);
    assert!(host.programs_started().is_empty());
}

#[test]
fn the_fallback_socket_makes_the_daemon_reachable() {
    let mut host = desk().with_program("ydotool", "type", exited(true, "exit status: 0"));
    host.files.push(FALLBACK_SOCKET.to_string());
    let (_, result) = host.inject("hello", InjectBackend::UiInputBackend);
    assert_eq!(result, Ok(()));
}

#[test]
fn the_socket_of_another_user_does_not_count() {
    let mut host = desk().with_daemon();
    host.uid = 1001;
    let (_, result) = host.inject("hello", InjectBackend::UiInputBackend);
    assert_eq!(message(&result), DAEMON_UNAVAILABLE);
}

#[test]
fn an_answer_of_another_kind_is_passed_over() {
    let strays = || {
        vec![
            Response::Exists(true),
            Response::Session(SessionSignals {
                session_type: Some("wayland".to_string()),
                wayland_display: true,
                x11_display: true,
            }),
            Response::Snapshot(Some(vec![1])),
            Response::Clipboard(Ok(())),
            Response::Captured(None),
            Response::Exited(exited(true, "exit status: 0")),
            Response::Settled,
        ]
    };
    let mut injection = inject_text("hi", InjectBackend::Auto);
    for stray in strays() {
        injection = injection.advance(stray);
        assert_eq!(injection.stage(), Stage::Uid);
        assert_eq!(injection.request(), Request::ReadUid);
    }
    let mut injection = inject_text("hi", InjectBackend::X11Backend);
    for stray in strays() {
        if matches!(stray, Response::Session(_)) {
            continue;
        }
        injection = injection.advance(stray);
        assert_eq!(injection.request(), Request::ReadSession);
    }
}

#[test]
fn nothing_moves_an_injection_that_is_over() {
    let mut host = desk();
    let (mut injection, result) = host.inject("hello", InjectBackend::X11Backend);
    for response in [
        Response::Uid(1),
        Response::Exists(true),
        Response::Session(SessionSignals {
            session_type: None,
            wayland_display: true,
            x11_display: true,
        }),
        Response::Exited(exited(true, "exit status: 0")),
        Response::Settled,
    ] {
        injection = injection.advance(response);
        assert!(injection.is_finished());
        assert_eq!(injection.request(), Request::Finish { result: result.clone() });
    }
}

#[test]
fn the_longest_injection_needs_eighteen_answers() {
    let mut host = desk()
        .with_wayland()
        .with_x11()
        .with_clipboard(b"before")
        .with_program("ydotool", "key", exited(false, "exit status: 1"))
        .with_program("ydotool", "type", exited(false, "exit status: 1"))
        .with_program("wtype", "--", exited(false, "exit status: 1"))
        .with_program("xdotool", "type", exited(false, "exit status: 1"));
    host.files.push(FALLBACK_SOCKET.to_string());
    let (_, result) = host.inject("hello", InjectBackend::Auto);
    assert!(result.is_err());
    assert_eq!(host.done.len(), 18);
    assert_eq!(host.clipboard, Some(b"before".to_vec()));
}

#[test]
fn a_verdict_on_the_window_stands_in_for_the_tools() {
    let at_window = || {
        inject_text("hi", InjectBackend::Auto)
            .advance(Response::Uid(1000))
            .advance(Response::Exists(true))
            .advance(Response::Snapshot(None))
            .advance(Response::Clipboard(Ok(())))
    };
    assert_eq!(at_window().stage(), Stage::WindowWayland);
    assert_eq!(
        at_window().window_classified(Some(true)).request(),
        Request::Run {
            command: made("ydotool", &["key", "29:1", "42:1", "47:1", "47:0", "42:0", "29:0"])
        }
    );
    assert_eq!(
        at_window().window_classified(Some(false)).request(),
        Request::Run { command: made("ydotool", &["key", "29:1", "47:1", "47:0", "29:0"]) }
    );
    let second = at_window().window_classified(None);
    assert_eq!(second.stage(), Stage::WindowX11);
    assert_eq!(
        second.request(),
        Request::Capture { command: made("xdotool", &["getactivewindow", "getwindowclassname"]) }
    );
    assert_eq!(
        second.window_classified(None).request(),
        Request::Run { command: made("ydotool", &["key", "29:1", "47:1", "47:0", "29:0"]) }
    );
    let early = inject_text("hi", InjectBackend::Auto).window_classified(Some(true));
    assert_eq!(early.request(), Request::ReadUid);
}
