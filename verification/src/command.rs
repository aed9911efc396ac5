//! External programs: what to run, what came of it, and how a run is judged.

use crate::error::{AttemptOutcome, AttemptView, FailureKind};
use crate::text::followed;
use vstd::prelude::*;
use vstd::string::*;

verus! {

/// A program and the arguments to start it with.
#[derive(Clone, Debug, PartialEq, Eq)]
pub struct Command {
    pub program: String,
    pub args: Vec<String>,
}

/// The mathematical form of a [`Command`].
pub struct CommandView {
    pub program: Seq<char>,
    pub args: Seq<Seq<char>>,
}

impl View for Command {
    type V = CommandView;

    open spec fn view(&self) -> CommandView {
        CommandView { program: self.program@, args: self.args@.map_values(|arg: String| arg@) }
    }
}

/// How the run of a program ended, as the host saw it.
#[derive(Clone, Debug, PartialEq, Eq)]
pub enum ProcessOutcome {
    /// The program ran to its end. `status` is the host's rendering of the
    /// exit status.
    Exited { success: bool, status: String },
    /// The program could not be started. `not_found` tells a missing
    /// program from every other cause; `detail` is the host's rendering of
    /// the cause.
    LaunchFailed { not_found: bool, detail: String },
}

/// The mathematical form of a [`ProcessOutcome`].
pub enum ProcessView {
    Exited { success: bool, status: Seq<char> },
    LaunchFailed { not_found: bool, detail: Seq<char> },
}

impl View for ProcessOutcome {
    type V = ProcessView;

    open spec fn view(&self) -> ProcessView {
        match *self {
            ProcessOutcome::Exited { success, status } => ProcessView::Exited {
                success,
                status: status@,
            },
            ProcessOutcome::LaunchFailed { not_found, detail } => ProcessView::LaunchFailed {
                not_found,
                detail: detail@,
            },
        }
    }
}

/// What a program that ran to its end printed on its standard output.
#[derive(Clone, Debug, PartialEq, Eq)]
pub struct Capture {
    pub success: bool,
    pub stdout: Vec<u8>,
}

/// The mathematical form of a [`Capture`].
pub struct CaptureView {
    pub success: bool,
    pub stdout: Seq<u8>,
}

impl View for Capture {
    type V = CaptureView;

    open spec fn view(&self) -> CaptureView {
        CaptureView { success: self.success, stdout: self.stdout@ }
    }
}

impl AttemptView {
    /// The same outcome, with `prefix` in front of the reason of a failure.
    pub open spec fn prefixed(self, prefix: Seq<char>) -> AttemptView {
        match self {
            AttemptView::Success => AttemptView::Success,
            AttemptView::Failed { kind, reason } => AttemptView::Failed {
                kind,
                reason: prefix + reason,
            },
        }
    }
}

impl AttemptOutcome {
    /// The same outcome, with `prefix` in front of the reason of a failure.
    pub fn prefixed(self, prefix: &str) -> (outcome: AttemptOutcome)
        ensures
            outcome@ == self@.prefixed(prefix@),
    {
        match self {
            AttemptOutcome::Success => AttemptOutcome::Success,
            AttemptOutcome::Failed { kind, reason } => AttemptOutcome::Failed {
                kind,
                reason: followed(prefix, reason.as_str()),
            },
        }
    }
}

/// How the run of `program` is judged. A zero exit status is success. A
/// nonzero one fails with the status in the reason. A program that is
/// missing fails with the hint `help`; any other failure to start fails with
/// its cause.
pub open spec fn run_outcome(
    program: Seq<char>,
    help: Seq<char>,
    outcome: ProcessView,
) -> AttemptView {
    match outcome {
        ProcessView::Exited { success, status } => if success {
            AttemptView::Success
        } else {
            AttemptView::Failed {
                kind: FailureKind::ExecutionFailed,
                reason: program + " exited with status "@ + status,
            }
        },
        ProcessView::LaunchFailed { not_found, detail } => if not_found {
            AttemptView::Failed {
                kind: FailureKind::LaunchFailed,
                reason: program + " not found; "@ + help,
            }
        } else {
            AttemptView::Failed {
                kind: FailureKind::LaunchFailed,
                reason: "failed to run "@ + program + ": "@ + detail,
            }
        },
    }
}

/// Judges the run of `program`, with `help` as the hint for the case that
/// the program is missing.
pub fn run_command(program: &str, help: &str, outcome: &ProcessOutcome) -> (judged: AttemptOutcome)
    ensures
        judged@ == run_outcome(program@, help@, outcome@),
{
    match outcome {
        ProcessOutcome::Exited { success, status } => {
            if *success {
                AttemptOutcome::Success
            } else {
                let mut reason = followed(program, " exited with status ");
                reason.append(status.as_str());
                AttemptOutcome::Failed { kind: FailureKind::ExecutionFailed, reason }
            }
        },
        ProcessOutcome::LaunchFailed { not_found, detail } => {
            if *not_found {
                let mut reason = followed(program, " not found; ");
                reason.append(help);
                AttemptOutcome::Failed { kind: FailureKind::LaunchFailed, reason }
            } else {
                let mut reason = followed("failed to run ", program);
                reason.append(": ");
                reason.append(detail.as_str());
                AttemptOutcome::Failed { kind: FailureKind::LaunchFailed, reason }
            }
        },
    }
}

/// The views of the texts of `args`, in order.
pub open spec fn texts(args: Seq<&str>) -> Seq<Seq<char>> {
    args.map_values(|arg: &str| arg@)
}

/// The command that starts `program` with `args`.
pub fn command(program: &str, args: &Vec<&str>) -> (made: Command)
    ensures
        made@ == (CommandView { program: program@, args: texts(args@) }),
{
    let mut owned: Vec<String> = Vec::new();
    let mut k: usize = 0;
    while k < args.len()
        invariant
            k <= args@.len(),
            owned@.len() == k,
            forall|j: int| 0 <= j < k ==> (#[trigger] owned@[j])@ == args@[j]@,
        decreases args@.len() - k,
    {
        owned.push(String::from_str(args[k]));
        k += 1;
    }
    let made = Command { program: String::from_str(program), args: owned };
    assert(made@.args =~= texts(args@));
    made
}

/// The query for the class name of the focused window, put to the tool
/// `program`.
pub open spec fn window_class_query(program: Seq<char>) -> CommandView {
    CommandView { program, args: seq!["getactivewindow"@, "getwindowclassname"@] }
}

/// The key events of the paste shortcut, sent through the keystroke daemon
/// by raw key codes (29 Ctrl, 42 Shift, 47 V; 1 down, 0 up): Ctrl+Shift+V
/// for a terminal, Ctrl+V otherwise.
pub open spec fn paste_keys(terminal: bool) -> CommandView {
    CommandView {
        program: "ydotool"@,
        args: if terminal {
            seq!["key"@, "29:1"@, "42:1"@, "47:1"@, "47:0"@, "42:0"@, "29:0"@]
        } else {
            seq!["key"@, "29:1"@, "47:1"@, "47:0"@, "29:0"@]
        },
    }
}

/// Typing `text` through the keystroke daemon, with no delay between keys.
pub open spec fn daemon_typing(text: Seq<char>) -> CommandView {
    CommandView { program: "ydotool"@, args: seq!["type"@, "-d"@, "0"@, "--"@, text] }
}

/// Typing `text` with the Wayland tool.
pub open spec fn wayland_typing(text: Seq<char>) -> CommandView {
    CommandView { program: "wtype"@, args: seq!["--"@, text] }
}

/// Typing `text` with the X11 tool, with no delay between keys and the
/// active modifiers cleared first.
pub open spec fn x11_typing(text: Seq<char>) -> CommandView {
    CommandView {
        program: "xdotool"@,
        args: seq!["type"@, "--clearmodifiers"@, "--delay"@, "0"@, "--"@, text],
    }
}

/// The command that asks the tool `program` for the class name of the
/// focused window.
pub fn query_window_class(program: &str) -> (made: Command)
    ensures
        made@ == window_class_query(program@),
{
    let args = vec!["getactivewindow", "getwindowclassname"];
    assert(texts(args@) =~= window_class_query(program@).args);
    command(program, &args)
}

/// The command that sends the paste shortcut.
pub fn press_paste_keys(terminal: bool) -> (made: Command)
    ensures
        made@ == paste_keys(terminal),
{
    if terminal {
        let args = vec!["key", "29:1", "42:1", "47:1", "47:0", "42:0", "29:0"];
        assert(texts(args@) =~= paste_keys(true).args);
        command("ydotool", &args)
    } else {
        let args = vec!["key", "29:1", "47:1", "47:0", "29:0"];
        assert(texts(args@) =~= paste_keys(false).args);
        command("ydotool", &args)
    }
}

/// The command that types `text` through the keystroke daemon. The
/// separator `--` keeps a text that begins with `-` from being read as a
/// flag.
pub fn type_with_daemon(text: &str) -> (made: Command)
    ensures
        made@ == daemon_typing(text@),
{
    let args = vec!["type", "-d", "0", "--", text];
    assert(texts(args@) =~= daemon_typing(text@).args);
    command("ydotool", &args)
}

/// The command that types `text` with the Wayland tool.
pub fn type_with_wayland(text: &str) -> (made: Command)
    ensures
        made@ == wayland_typing(text@),
{
    let args = vec!["--", text];
    assert(texts(args@) =~= wayland_typing(text@).args);
    command("wtype", &args)
}

/// The command that types `text` with the X11 tool.
pub fn type_with_x11(text: &str) -> (made: Command)
    ensures
        made@ == x11_typing(text@),
{
    let args = vec!["type", "--clearmodifiers", "--delay", "0", "--", text];
    assert(texts(args@) =~= x11_typing(text@).args);
    command("xdotool", &args)
}

} // verus!
