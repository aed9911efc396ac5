//! The four injection strategies: their order, their programs and the
//! wording of their failures.

use crate::command::{
    daemon_typing, paste_keys, press_paste_keys, run_command, run_outcome, type_with_daemon,
    type_with_wayland, type_with_x11, wayland_typing, x11_typing, Command, CommandView,
    ProcessOutcome, ProcessView,
};
use crate::error::{AttemptOutcome, AttemptView, FailureKind};
use crate::session::SessionView;
use crate::text::followed;
use vstd::prelude::*;
use vstd::string::*;

verus! {

/// The backend that the caller asks for.
#[derive(Clone, Copy, Debug, PartialEq, Eq, Structural)]
pub enum InjectBackend {
    /// Try every strategy in turn, in the fixed order.
    Auto,
    /// Keystrokes through the kernel's virtual input device.
    UiInputBackend,
    /// The Wayland text-injection tool.
    WaylandBackend,
    /// The X11 text-injection tool.
    X11Backend,
}

/// One way to deliver the text. The variants stand in the order of the
/// automatic cascade.
#[derive(Clone, Copy, Debug, PartialEq, Eq, Structural)]
pub enum Strategy {
    /// Put the text on the clipboard and send the paste shortcut.
    ClipboardPaste,
    /// Let the keystroke daemon type the text.
    KernelInjection,
    /// Let the Wayland tool type the text.
    WaylandNative,
    /// Let the X11 tool type the text.
    X11Native,
}

/// How far the attempt of the current strategy has come: each stage but the
/// last is named after the answer that it waits for.
#[derive(Clone, Copy, Debug, PartialEq, Eq, Structural)]
pub enum Stage {
    /// The user id, for the path of the daemon's socket.
    Uid,
    /// Whether the daemon's socket exists in the user's runtime directory.
    RuntimeSocket,
    /// Whether the daemon's socket exists at its fixed fallback path.
    FallbackSocket,
    /// The session signals.
    Session,
    /// The content of the clipboard before the attempt.
    Snapshot,
    /// The write of the text to the clipboard.
    Write,
    /// The class of the focused window, from the Wayland tool.
    WindowWayland,
    /// The class of the focused window, from the X11 tool.
    WindowX11,
    /// The run of the strategy's program.
    Run,
    /// The settle delay after the paste shortcut.
    Settle,
    /// The restoring of the clipboard.
    Restore,
    /// The injection is over.
    Done,
}

/// The failure of one strategy, as the engine records it.
#[derive(Clone, Debug, PartialEq, Eq)]
pub struct Failure {
    pub strategy: Strategy,
    pub kind: FailureKind,
    pub reason: String,
}

/// The mathematical form of a [`Failure`].
pub struct FailureView {
    pub strategy: Strategy,
    pub kind: FailureKind,
    pub reason: Seq<char>,
}

impl View for Failure {
    type V = FailureView;

    open spec fn view(&self) -> FailureView {
        FailureView { strategy: self.strategy, kind: self.kind, reason: self.reason@ }
    }
}

impl InjectBackend {
    /// The strategy that an injection with this backend starts with.
    pub open spec fn first_strategy(self) -> Strategy {
        match self {
            InjectBackend::Auto => Strategy::ClipboardPaste,
            InjectBackend::UiInputBackend => Strategy::KernelInjection,
            InjectBackend::WaylandBackend => Strategy::WaylandNative,
            InjectBackend::X11Backend => Strategy::X11Native,
        }
    }

    /// The strategy that an injection with this backend starts with.
    pub fn initial_strategy(self) -> (strategy: Strategy)
        ensures
            strategy == self.first_strategy(),
    {
        match self {
            InjectBackend::Auto => Strategy::ClipboardPaste,
            InjectBackend::UiInputBackend => Strategy::KernelInjection,
            InjectBackend::WaylandBackend => Strategy::WaylandNative,
            InjectBackend::X11Backend => Strategy::X11Native,
        }
    }
}

impl Strategy {
    /// The place of the strategy in the cascade, from 0.
    pub open spec fn rank(self) -> nat {
        match self {
            Strategy::ClipboardPaste => 0,
            Strategy::KernelInjection => 1,
            Strategy::WaylandNative => 2,
            Strategy::X11Native => 3,
        }
    }

    /// The strategy that the cascade turns to when this one has failed.
    pub open spec fn successor(self) -> Option<Strategy> {
        match self {
            Strategy::ClipboardPaste => Some(Strategy::KernelInjection),
            Strategy::KernelInjection => Some(Strategy::WaylandNative),
            Strategy::WaylandNative => Some(Strategy::X11Native),
            Strategy::X11Native => None,
        }
    }

    /// Whether the strategy works through the keystroke daemon.
    pub open spec fn needs_daemon(self) -> bool {
        self is ClipboardPaste || self is KernelInjection
    }

    /// The stage that an attempt of the strategy begins with: the probe of
    /// what the strategy cannot do without.
    pub open spec fn opening(self) -> Stage {
        if self.needs_daemon() {
            Stage::Uid
        } else {
            Stage::Session
        }
    }

    /// The stage that follows once the daemon is found reachable.
    pub open spec fn after_daemon(self) -> Stage {
        if self is ClipboardPaste {
            Stage::Snapshot
        } else {
            Stage::Run
        }
    }

    /// Whether an attempt of the strategy passes through `stage`.
    pub open spec fn admits(self, stage: Stage) -> bool {
        match stage {
            Stage::Uid | Stage::RuntimeSocket | Stage::FallbackSocket => self.needs_daemon(),
            Stage::Session => !self.needs_daemon(),
            Stage::Snapshot
            | Stage::Write
            | Stage::WindowWayland
            | Stage::WindowX11
            | Stage::Settle
            | Stage::Restore => self is ClipboardPaste,
            Stage::Run | Stage::Done => true,
        }
    }

    /// Whether the signals show the session that the strategy works in.
    pub open spec fn session_present(self, signals: SessionView) -> bool {
        if self is X11Native {
            signals.has_x11()
        } else {
            signals.has_wayland()
        }
    }

    /// The reason given when what the strategy cannot do without is absent.
    pub open spec fn unavailable(self) -> Seq<char> {
        match self {
            Strategy::ClipboardPaste => "clipboard paste requires ydotool for key simulation"@,
            Strategy::KernelInjection => "ydotoold not running; start with `systemctl --user start ydotool.service` (see README for uinput permissions setup)"@,
            Strategy::WaylandNative => "wayland session not detected"@,
            Strategy::X11Native => "x11 session not detected"@,
        }
    }

    /// The command that the strategy runs for `text`; for the clipboard
    /// paste, the paste shortcut that suits the focused window.
    pub open spec fn program(self, text: Seq<char>, terminal: bool) -> CommandView {
        match self {
            Strategy::ClipboardPaste => paste_keys(terminal),
            Strategy::KernelInjection => daemon_typing(text),
            Strategy::WaylandNative => wayland_typing(text),
            Strategy::X11Native => x11_typing(text),
        }
    }

    /// How the run of the strategy's program is judged.
    pub open spec fn judged(self, outcome: ProcessView) -> AttemptView {
        match self {
            Strategy::ClipboardPaste => keys_outcome(outcome),
            Strategy::KernelInjection => run_outcome(
                "ydotool"@,
                "install ydotool and run `systemctl --user start ydotool.service`"@,
                outcome,
            ).prefixed("ydotool: "@),
            Strategy::WaylandNative => run_outcome(
                "wtype"@,
                "install wtype to enable Wayland text injection"@,
                outcome,
            ).prefixed("wayland: "@),
            Strategy::X11Native => run_outcome(
                "xdotool"@,
                "install xdotool to enable X11 text injection"@,
                outcome,
            ).prefixed("x11: "@),
        }
    }

    /// The strategy that the cascade turns to when this one has failed.
    pub fn next(self) -> (next: Option<Strategy>)
        ensures
            next == self.successor(),
    {
        match self {
            Strategy::ClipboardPaste => Some(Strategy::KernelInjection),
            Strategy::KernelInjection => Some(Strategy::WaylandNative),
            Strategy::WaylandNative => Some(Strategy::X11Native),
            Strategy::X11Native => None,
        }
    }

    /// The stage that an attempt of the strategy begins with.
    pub fn opening_stage(self) -> (stage: Stage)
        ensures
            stage == self.opening(),
    {
        match self {
            Strategy::ClipboardPaste | Strategy::KernelInjection => Stage::Uid,
            Strategy::WaylandNative | Strategy::X11Native => Stage::Session,
        }
    }

    /// The failure for the case that what the strategy cannot do without is
    /// absent.
    pub fn unavailable_outcome(self) -> (outcome: AttemptOutcome)
        ensures
            outcome@ == (AttemptView::Failed {
                kind: FailureKind::Unavailable,
                reason: self.unavailable(),
            }),
    {
        let reason = match self {
            Strategy::ClipboardPaste => "clipboard paste requires ydotool for key simulation",
            Strategy::KernelInjection => "ydotoold not running; start with `systemctl --user start ydotool.service` (see README for uinput permissions setup)",
            Strategy::WaylandNative => "wayland session not detected",
            Strategy::X11Native => "x11 session not detected",
        };
        AttemptOutcome::Failed { kind: FailureKind::Unavailable, reason: String::from_str(reason) }
    }

    /// The command that the strategy runs for `text`.
    pub fn command_for(self, text: &str, terminal: bool) -> (command: Command)
        ensures
            command@ == self.program(text@, terminal),
    {
        match self {
            Strategy::ClipboardPaste => press_paste_keys(terminal),
            Strategy::KernelInjection => type_with_daemon(text),
            Strategy::WaylandNative => type_with_wayland(text),
            Strategy::X11Native => type_with_x11(text),
        }
    }

    /// Judges the run of the strategy's program.
    pub fn judge(self, outcome: &ProcessOutcome) -> (judged: AttemptOutcome)
        ensures
            judged@ == self.judged(outcome@),
    {
        match self {
            Strategy::ClipboardPaste => judge_keys(outcome),
            Strategy::KernelInjection => run_command(
                "ydotool",
                "install ydotool and run `systemctl --user start ydotool.service`",
                outcome,
            ).prefixed("ydotool: "),
            Strategy::WaylandNative => run_command(
                "wtype",
                "install wtype to enable Wayland text injection",
                outcome,
            ).prefixed("wayland: "),
            Strategy::X11Native => run_command(
                "xdotool",
                "install xdotool to enable X11 text injection",
                outcome,
            ).prefixed("x11: "),
        }
    }
}

/// How the sending of the paste shortcut is judged: the exit status decides,
/// and a failure to start is reported with its cause, missing program or
/// not.
pub open spec fn keys_outcome(outcome: ProcessView) -> AttemptView {
    match outcome {
        ProcessView::Exited { success, status } => if success {
            AttemptView::Success
        } else {
            AttemptView::Failed {
                kind: FailureKind::ExecutionFailed,
                reason: "ydotool exited with status "@ + status,
            }
        },
        ProcessView::LaunchFailed { not_found, detail } => AttemptView::Failed {
            kind: FailureKind::LaunchFailed,
            reason: "failed to run ydotool: "@ + detail,
        },
    }
}

/// Judges the sending of the paste shortcut.
pub fn judge_keys(outcome: &ProcessOutcome) -> (judged: AttemptOutcome)
    ensures
        judged@ == keys_outcome(outcome@),
{
    match outcome {
        ProcessOutcome::Exited { success, status } => {
            if *success {
                AttemptOutcome::Success
            } else {
                AttemptOutcome::Failed {
                    kind: FailureKind::ExecutionFailed,
                    reason: followed("ydotool exited with status ", status.as_str()),
                }
            }
        },
        ProcessOutcome::LaunchFailed { not_found: _, detail } => AttemptOutcome::Failed {
            kind: FailureKind::LaunchFailed,
            reason: followed("failed to run ydotool: ", detail.as_str()),
        },
    }
}

} // verus!
