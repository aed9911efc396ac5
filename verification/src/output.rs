//! The fallback engine: one injection, from the first probe to the result.
//!
//! An [`Injection`] is a state. [`Injection::request`] says what the host
//! is to do in that state, and [`Injection::advance`] takes the host's
//! answer to the next state. The engine touches nothing itself.

use crate::clipboard::{
    cleanup_complaint, clipboard_copy_secret, clipboard_restore, content_view, copy_outcome,
    judge_cleanup, judge_copy, secret_offer, text_view, ClipboardSnapshot,
};
use crate::command::{query_window_class, window_class_query, CaptureView};
use crate::error::{AttemptOutcome, AttemptView, FailureKind, OutputError};
use crate::exchange::{Request, RequestView, Response, ResponseView};
use crate::session::{session_has_wayland, session_has_x11};
use crate::strategy::{Failure, FailureView, InjectBackend, Stage, Strategy};
use crate::text::{decimal, decimal_string, followed, join};
use crate::window::{is_terminal_output, output_names_terminal};
use vstd::prelude::*;
use vstd::string::*;
use vstd::utf8::encode_utf8;

verus! {

/// How long the focused application is given to read the clipboard after
/// the paste shortcut, in milliseconds.
pub const SETTLE_MILLIS: u64 = 200;

/// The path of the daemon's socket in the runtime directory of user `uid`.
pub open spec fn runtime_socket(uid: u32) -> Seq<char> {
    "/run/user/"@ + decimal(uid as nat) + "/.ydotool_socket"@
}

/// The fixed fallback path of the daemon's socket.
pub open spec fn fallback_socket() -> Seq<char> {
    "/tmp/.ydotool_socket"@
}

/// The reasons of `failures`, in order.
pub open spec fn reasons(failures: Seq<FailureView>) -> Seq<Seq<char>> {
    failures.map_values(|failure: FailureView| failure.reason)
}

/// The message of an exhausted cascade: every reason, in the order of the
/// attempts, joined by semicolons.
pub open spec fn exhausted(failures: Seq<FailureView>) -> Seq<char> {
    "no supported injection backends available ("@ + join(reasons(failures), "; "@) + ")"@
}

/// What a window-introspection tool has to say: whether the focused window
/// is a terminal, where the tool ran and exited with status zero; nothing
/// otherwise.
pub open spec fn window_answer(capture: Option<CaptureView>) -> Option<bool> {
    match capture {
        Some(capture) => if capture.success {
            Some(output_names_terminal(capture.stdout))
        } else {
            None
        },
        None => None,
    }
}

/// The mathematical form of an [`Injection`].
pub struct InjectionView {
    /// The text to deliver.
    pub text: Seq<char>,
    /// The backend that the caller asked for.
    pub backend: InjectBackend,
    /// The strategy under way; after the end, the last one attempted.
    pub strategy: Strategy,
    /// How far the attempt of that strategy has come.
    pub stage: Stage,
    /// The user id, once read.
    pub uid: u32,
    /// What the clipboard held before the text was written to it.
    pub saved: Option<Seq<u8>>,
    /// Whether the focused window counts as a terminal.
    pub terminal: bool,
    /// The outcome of the paste shortcut, kept until the clipboard is put
    /// back.
    pub pending: AttemptView,
    /// The failures so far, in the order of the attempts.
    pub failures: Seq<FailureView>,
    /// Whether a strategy has delivered the text.
    pub succeeded: bool,
    /// The complaint about the last restoring of the clipboard, if it
    /// failed.
    pub complaint: Option<Seq<char>>,
}

/// The state in which the injection of `text` with `backend` begins.
pub open spec fn start(text: Seq<char>, backend: InjectBackend) -> InjectionView {
    InjectionView {
        text,
        backend,
        strategy: backend.first_strategy(),
        stage: backend.first_strategy().opening(),
        uid: 0,
        saved: None,
        terminal: false,
        pending: AttemptView::Success,
        failures: Seq::empty(),
        succeeded: false,
        complaint: None,
    }
}

impl InjectionView {
    /// Whether the injection is over.
    pub open spec fn finished(self) -> bool {
        self.stage is Done
    }

    /// Whether the injection is over without the text delivered.
    pub open spec fn failed(self) -> bool {
        self.stage is Done && !self.succeeded
    }

    /// The result of an injection that is over. With an explicit backend
    /// the reason of the one failure is the message; in automatic mode the
    /// message lists every reason.
    pub open spec fn outcome(self) -> Result<(), Seq<char>> {
        if self.succeeded {
            Ok(())
        } else if self.backend is Auto {
            Err(exhausted(self.failures))
        } else {
            Err(self.failures[0].reason)
        }
    }

    /// The result of the injection: none while it is under way.
    pub open spec fn result(self) -> Option<Result<(), Seq<char>>> {
        if self.finished() {
            Some(self.outcome())
        } else {
            None
        }
    }

    /// What the host is to do in this state.
    pub open spec fn request(self) -> RequestView {
        match self.stage {
            Stage::Uid => RequestView::ReadUid,
            Stage::RuntimeSocket => RequestView::ProbeFile { path: runtime_socket(self.uid) },
            Stage::FallbackSocket => RequestView::ProbeFile { path: fallback_socket() },
            Stage::Session => RequestView::ReadSession,
            Stage::Snapshot => RequestView::SaveClipboard,
            Stage::Write => RequestView::OfferClipboard {
                offer: secret_offer(encode_utf8(self.text)),
            },
            Stage::WindowWayland => RequestView::Capture { command: window_class_query("kdotool"@) },
            Stage::WindowX11 => RequestView::Capture { command: window_class_query("xdotool"@) },
            Stage::Run => RequestView::Run {
                command: self.strategy.program(self.text, self.terminal),
            },
            Stage::Settle => RequestView::Settle { millis: SETTLE_MILLIS },
            Stage::Restore => match self.saved {
                Some(content) => RequestView::OfferClipboard { offer: secret_offer(content) },
                None => RequestView::ClearClipboard,
            },
            Stage::Done => RequestView::Finish { result: self.outcome() },
        }
    }

    /// The state after the attempt of the current strategy has come to
    /// `outcome`. Success ends the injection. A failure is recorded; in
    /// automatic mode the next strategy of the cascade begins, and after
    /// the last one, or with an explicit backend, the injection ends.
    pub open spec fn conclude(self, outcome: AttemptView) -> InjectionView {
        match outcome {
            AttemptView::Success => InjectionView { stage: Stage::Done, succeeded: true, ..self },
            AttemptView::Failed { kind, reason } => {
                let failures = self.failures.push(
                    FailureView { strategy: self.strategy, kind, reason },
                );
                if self.backend is Auto && self.strategy.successor() is Some {
                    let next = self.strategy.successor()->0;
                    InjectionView { strategy: next, stage: next.opening(), failures, ..self }
                } else {
                    InjectionView { stage: Stage::Done, succeeded: false, failures, ..self }
                }
            },
        }
    }

    /// The state after a window-introspection tool has given its verdict on
    /// the focused window: whether it is a terminal, or nothing where the
    /// tool has nothing to say. The first verdict decides. Where the first
    /// tool has none, the second tool is asked; where the second has none
    /// either, the window counts as no terminal. Outside the two window
    /// stages a verdict changes nothing.
    pub open spec fn classified(self, verdict: Option<bool>) -> InjectionView {
        match (self.stage, verdict) {
            (Stage::WindowWayland, Some(terminal)) => InjectionView {
                terminal,
                stage: Stage::Run,
                ..self
            },
            (Stage::WindowWayland, None) => InjectionView { stage: Stage::WindowX11, ..self },
            (Stage::WindowX11, Some(terminal)) => InjectionView {
                terminal,
                stage: Stage::Run,
                ..self
            },
            (Stage::WindowX11, None) => InjectionView {
                terminal: false,
                stage: Stage::Run,
                ..self
            },
            _ => self,
        }
    }

    /// The state after the host has answered with `response`. An answer of
    /// another kind than the request asks for changes nothing, and the
    /// same request stands.
    pub open spec fn advance(self, response: ResponseView) -> InjectionView {
        match (self.stage, response) {
            (Stage::Uid, ResponseView::Uid(uid)) => InjectionView {
                uid,
                stage: Stage::RuntimeSocket,
                ..self
            },
            (Stage::RuntimeSocket, ResponseView::Exists(exists)) => if exists {
                InjectionView { stage: self.strategy.after_daemon(), ..self }
            } else {
                InjectionView { stage: Stage::FallbackSocket, ..self }
            },
            (Stage::FallbackSocket, ResponseView::Exists(exists)) => if exists {
                InjectionView { stage: self.strategy.after_daemon(), ..self }
            } else {
                self.conclude(
                    AttemptView::Failed {
                        kind: FailureKind::Unavailable,
                        reason: self.strategy.unavailable(),
                    },
                )
            },
            (Stage::Session, ResponseView::Session(signals)) => if self.strategy.session_present(
                signals,
            ) {
                InjectionView { stage: Stage::Run, ..self }
            } else {
                self.conclude(
                    AttemptView::Failed {
                        kind: FailureKind::Unavailable,
                        reason: self.strategy.unavailable(),
                    },
                )
            },
            (Stage::Snapshot, ResponseView::Snapshot(content)) => InjectionView {
                saved: content,
                stage: Stage::Write,
                ..self
            },
            (Stage::Write, ResponseView::Clipboard(written)) => match written {
                Ok(_) => InjectionView { stage: Stage::WindowWayland, ..self },
                Err(_) => self.conclude(copy_outcome(written)),
            },
            (Stage::WindowWayland, ResponseView::Captured(capture)) => self.classified(
                window_answer(capture),
            ),
            (Stage::WindowX11, ResponseView::Captured(capture)) => self.classified(
                window_answer(capture),
            ),
            (Stage::Run, ResponseView::Exited(outcome)) => if self.strategy is ClipboardPaste {
                InjectionView {
                    pending: self.strategy.judged(outcome),
                    stage: Stage::Settle,
                    ..self
                }
            } else {
                self.conclude(self.strategy.judged(outcome))
            },
            (Stage::Settle, ResponseView::Settled) => InjectionView {
                stage: Stage::Restore,
                ..self
            },
            (Stage::Restore, ResponseView::Clipboard(done)) => (InjectionView {
                complaint: cleanup_complaint(self.saved is Some, done),
                pending: AttemptView::Success,
                ..self
            }).conclude(self.pending),
            _ => self,
        }
    }

    /// What holds of every state that an injection passes through: the
    /// stage belongs to the strategy; a pending failure is that of a
    /// program; with an explicit backend the strategy is the one asked for,
    /// and the only failure on record is its own; in automatic mode every
    /// strategy before the current one has failed, and the failures stand
    /// in the order of the cascade.
    pub open spec fn wf(self) -> bool {
        &&& self.strategy.admits(self.stage)
        &&& self.succeeded ==> self.stage is Done
        &&& self.pending matches AttemptView::Failed { kind, .. } ==> kind is LaunchFailed
            || kind is ExecutionFailed
        &&& self.failures.len() == self.failures_due()
        &&& forall|i: int|
            0 <= i < self.failures.len() ==> (#[trigger] self.failures[i]).strategy.rank()
                == self.rank_due(i)
        &&& self.backend !is Auto ==> self.strategy == self.backend.first_strategy()
    }

    /// How many failures stand on record in this state: in automatic mode
    /// one for each strategy before the current one, and four once all have
    /// failed; with an explicit backend none, and one once its strategy has
    /// failed.
    pub open spec fn failures_due(self) -> nat {
        if self.backend is Auto {
            if self.failed() {
                4
            } else {
                self.strategy.rank()
            }
        } else {
            if self.failed() {
                1
            } else {
                0
            }
        }
    }

    /// The rank of the strategy whose failure stands at place `i` of the
    /// record.
    pub open spec fn rank_due(self, i: int) -> int {
        if self.backend is Auto {
            i
        } else {
            self.strategy.rank() as int
        }
    }
}

/// The views of `failures`, in order.
pub open spec fn failure_views(failures: Seq<Failure>) -> Seq<FailureView> {
    failures.map_values(|failure: Failure| failure@)
}

/// One injection under way.
#[derive(Debug)]
pub struct Injection {
    text: String,
    backend: InjectBackend,
    strategy: Strategy,
    stage: Stage,
    uid: u32,
    saved: ClipboardSnapshot,
    terminal: bool,
    pending: AttemptOutcome,
    failures: Vec<Failure>,
    succeeded: bool,
    complaint: Option<String>,
}

impl View for Injection {
    type V = InjectionView;

    closed spec fn view(&self) -> InjectionView {
        InjectionView {
            text: self.text@,
            backend: self.backend,
            strategy: self.strategy,
            stage: self.stage,
            uid: self.uid,
            saved: content_view(self.saved),
            terminal: self.terminal,
            pending: self.pending@,
            failures: failure_views(self.failures@),
            succeeded: self.succeeded,
            complaint: text_view(self.complaint),
        }
    }
}

/// The view of a result.
pub open spec fn result_view(result: Result<(), OutputError>) -> Result<(), Seq<char>> {
    match result {
        Ok(_) => Ok(()),
        Err(error) => Err(error@),
    }
}

impl Injection {
    #[verifier::type_invariant]
    spec fn well_formed(self) -> bool {
        self@.wf()
    }

    /// The backend that the caller asked for.
    pub fn backend(&self) -> (backend: InjectBackend)
        ensures
            backend == self@.backend,
    {
        self.backend
    }

    /// The strategy under way; after the end, the last one attempted.
    pub fn strategy(&self) -> (strategy: Strategy)
        ensures
            strategy == self@.strategy,
    {
        self.strategy
    }

    /// How far the attempt of the current strategy has come.
    pub fn stage(&self) -> (stage: Stage)
        ensures
            stage == self@.stage,
    {
        self.stage
    }

    /// Whether the injection is over.
    pub fn is_finished(&self) -> (finished: bool)
        ensures
            finished == self@.finished(),
    {
        match self.stage {
            Stage::Done => true,
            _ => false,
        }
    }

    /// The failures so far, in the order of the attempts.
    pub fn failures(&self) -> (failures: &Vec<Failure>)
        ensures
            failure_views(failures@) == self@.failures,
    {
        &self.failures
    }

    /// The complaint about the last restoring of the clipboard, if it
    /// failed. It never changes the result of the injection.
    pub fn complaint(&self) -> (complaint: &Option<String>)
        ensures
            text_view(*complaint) == self@.complaint,
    {
        &self.complaint
    }

    /// The result of the injection: none while it is under way.
    pub fn result(&self) -> (result: Option<Result<(), OutputError>>)
        ensures
            self@.result() == match result {
                Some(result) => Some(result_view(result)),
                None => None,
            },
    {
        match self.stage {
            Stage::Done => Some(self.outcome()),
            _ => None,
        }
    }

    fn outcome(&self) -> (result: Result<(), OutputError>)
        requires
            self@.finished(),
        ensures
            result_view(result) == self@.outcome(),
    {
        proof {
            use_type_invariant(self);
        }
        if self.succeeded {
            Ok(())
        } else {
            match self.backend {
                InjectBackend::Auto => Err(cascade_error(&self.failures)),
                _ => Err(OutputError::new(self.failures[0].reason.clone())),
            }
        }
    }

    /// What the host is to do now.
    pub fn request(&self) -> (request: Request)
        ensures
            request@ == self@.request(),
    {
        match self.stage {
            Stage::Uid => Request::ReadUid,
            Stage::RuntimeSocket => Request::ProbeFile { path: runtime_socket_path(self.uid) },
            Stage::FallbackSocket => Request::ProbeFile {
                path: String::from_str("/tmp/.ydotool_socket"),
            },
            Stage::Session => Request::ReadSession,
            Stage::Snapshot => Request::SaveClipboard,
            Stage::Write => Request::OfferClipboard {
                offer: clipboard_copy_secret(self.text.as_str()),
            },
            Stage::WindowWayland => Request::Capture { command: query_window_class("kdotool") },
            Stage::WindowX11 => Request::Capture { command: query_window_class("xdotool") },
            Stage::Run => Request::Run {
                command: self.strategy.command_for(self.text.as_str(), self.terminal),
            },
            Stage::Settle => Request::Settle { millis: SETTLE_MILLIS },
            Stage::Restore => match &self.saved {
                Some(content) => Request::OfferClipboard { offer: clipboard_restore(content) },
                None => Request::ClearClipboard,
            },
            Stage::Done => Request::Finish { result: self.outcome() },
        }
    }

    /// Takes the host's answer to the current request. An answer of
    /// another kind than the request asks for is passed over: the state
    /// stays, and with it the request.
    pub fn advance(self, response: Response) -> (next: Injection)
        ensures
            next@ == self@.advance(response@),
    {
        proof {
            use_type_invariant(&self);
        }
        match self.stage {
            Stage::Done => self,
            _ => match self.strategy {
                Strategy::ClipboardPaste => self.try_clipboard_paste(response),
                Strategy::KernelInjection => self.try_ydotool(response),
                Strategy::WaylandNative => self.try_wayland(response),
                Strategy::X11Native => self.try_x11(response),
            },
        }
    }

    /// The clipboard paste: once the daemon is reachable, save the
    /// clipboard, write the text, classify the focused window, send the
    /// paste shortcut, wait, and put the clipboard back as it was, whatever
    /// came of the shortcut. A failed write ends the attempt at once: no
    /// shortcut is sent and nothing is put back.
    fn try_clipboard_paste(self, response: Response) -> (next: Injection)
        requires
            self@.strategy is ClipboardPaste,
            !self@.finished(),
        ensures
            next@ == self@.advance(response@),
    {
        proof {
            use_type_invariant(&self);
        }
        match self.stage {
            Stage::Uid | Stage::RuntimeSocket | Stage::FallbackSocket => self.has_ydotool(response),
            Stage::WindowWayland | Stage::WindowX11 => self.is_focused_window_terminal(response),
            Stage::Snapshot => match response {
                Response::Snapshot(content) => Injection {
                    saved: content,
                    stage: Stage::Write,
                    ..self
                },
                _ => self,
            },
            Stage::Write => match response {
                Response::Clipboard(written) => match judge_copy(&written) {
                    AttemptOutcome::Success => Injection { stage: Stage::WindowWayland, ..self },
                    failed => self.conclude(failed),
                },
                _ => self,
            },
            Stage::Run => match response {
                Response::Exited(outcome) => Injection {
                    pending: self.strategy.judge(&outcome),
                    stage: Stage::Settle,
                    ..self
                },
                _ => self,
            },
            Stage::Settle => match response {
                Response::Settled => Injection { stage: Stage::Restore, ..self },
                _ => self,
            },
            Stage::Restore => match response {
                Response::Clipboard(done) => {
                    let Injection {
                        text,
                        backend,
                        strategy,
                        stage,
                        uid,
                        saved,
                        terminal,
                        pending,
                        failures,
                        succeeded,
                        complaint: _,
                    } = self;
                    let complaint = judge_cleanup(saved.is_some(), &done);
                    let restored = Injection {
                        text,
                        backend,
                        strategy,
                        stage,
                        uid,
                        saved,
                        terminal,
                        pending: AttemptOutcome::Success,
                        failures,
                        succeeded,
                        complaint,
                    };
                    restored.conclude(pending)
                },
                _ => self,
            },
            _ => self,
        }
    }

    /// Whether the keystroke daemon is reachable: its socket exists in the
    /// user's runtime directory or, failing that, at the fallback path.
    /// Without it the attempt fails before any program is started.
    fn has_ydotool(self, response: Response) -> (next: Injection)
        requires
            self@.stage is Uid || self@.stage is RuntimeSocket || self@.stage is FallbackSocket,
        ensures
            next@ == self@.advance(response@),
    {
        proof {
            use_type_invariant(&self);
        }
        match response {
            Response::Uid(uid) => match self.stage {
                Stage::Uid => Injection { uid, stage: Stage::RuntimeSocket, ..self },
                _ => self,
            },
            Response::Exists(exists) => if exists {
                match self.stage {
                    Stage::RuntimeSocket | Stage::FallbackSocket => {
                        let stage = match self.strategy {
                            Strategy::ClipboardPaste => Stage::Snapshot,
                            _ => Stage::Run,
                        };
                        Injection { stage, ..self }
                    },
                    _ => self,
                }
            } else {
                match self.stage {
                    Stage::RuntimeSocket => Injection { stage: Stage::FallbackSocket, ..self },
                    Stage::FallbackSocket => {
                        let absent = self.strategy.unavailable_outcome();
                        self.conclude(absent)
                    },
                    _ => self,
                }
            },
            _ => self,
        }
    }

    /// Whether the focused window is a terminal: the Wayland tool is asked
    /// first, the X11 tool second, and the first that runs and exits with
    /// status zero decides. Where neither does, the window counts as no
    /// terminal.
    fn is_focused_window_terminal(self, response: Response) -> (next: Injection)
        requires
            self@.stage is WindowWayland || self@.stage is WindowX11,
        ensures
            next@ == self@.advance(response@),
    {
        match response {
            Response::Captured(capture) => {
                let verdict = match capture {
                    Some(capture) => if capture.success {
                        Some(is_terminal_output(&capture.stdout))
                    } else {
                        None
                    },
                    None => None,
                };
                assert(verdict == window_answer(response@->Captured_0));
                self.window_classified(verdict)
            },
            _ => self,
        }
    }

    /// Takes a verdict on the focused window in place of the answer of a
    /// window-introspection tool: whether the window is a terminal, or
    /// nothing where that is not known. Outside the two window stages the
    /// verdict is passed over.
    pub fn window_classified(self, verdict: Option<bool>) -> (next: Injection)
        ensures
            next@ == self@.classified(verdict),
    {
        proof {
            use_type_invariant(&self);
        }
        match self.stage {
            Stage::WindowWayland => match verdict {
                Some(terminal) => Injection { terminal, stage: Stage::Run, ..self },
                None => Injection { stage: Stage::WindowX11, ..self },
            },
            Stage::WindowX11 => match verdict {
                Some(terminal) => Injection { terminal, stage: Stage::Run, ..self },
                None => Injection { terminal: false, stage: Stage::Run, ..self },
            },
            _ => self,
        }
    }

    /// The kernel injection: once the daemon is reachable, let it type the
    /// text.
    fn try_ydotool(self, response: Response) -> (next: Injection)
        requires
            self@.strategy is KernelInjection,
            !self@.finished(),
        ensures
            next@ == self@.advance(response@),
    {
        proof {
            use_type_invariant(&self);
        }
        match self.stage {
            Stage::Run => match response {
                Response::Exited(outcome) => {
                    let judged = self.strategy.judge(&outcome);
                    self.conclude(judged)
                },
                _ => self,
            },
            _ => self.has_ydotool(response),
        }
    }

    /// The Wayland strategy: where a Wayland session is detected, let the
    /// Wayland tool type the text.
    fn try_wayland(self, response: Response) -> (next: Injection)
        requires
            self@.strategy is WaylandNative,
            !self@.finished(),
        ensures
            next@ == self@.advance(response@),
    {
        proof {
            use_type_invariant(&self);
        }
        match response {
            Response::Session(signals) => match self.stage {
                Stage::Session => if session_has_wayland(&signals) {
                    Injection { stage: Stage::Run, ..self }
                } else {
                    let absent = self.strategy.unavailable_outcome();
                    self.conclude(absent)
                },
                _ => self,
            },
            Response::Exited(outcome) => match self.stage {
                Stage::Run => {
                    let judged = self.strategy.judge(&outcome);
                    self.conclude(judged)
                },
                _ => self,
            },
            _ => self,
        }
    }

    /// The X11 strategy: where an X11 session is detected, let the X11 tool
    /// type the text.
    fn try_x11(self, response: Response) -> (next: Injection)
        requires
            self@.strategy is X11Native,
            !self@.finished(),
        ensures
            next@ == self@.advance(response@),
    {
        proof {
            use_type_invariant(&self);
        }
        match response {
            Response::Session(signals) => match self.stage {
                Stage::Session => if session_has_x11(&signals) {
                    Injection { stage: Stage::Run, ..self }
                } else {
                    let absent = self.strategy.unavailable_outcome();
                    self.conclude(absent)
                },
                _ => self,
            },
            Response::Exited(outcome) => match self.stage {
                Stage::Run => {
                    let judged = self.strategy.judge(&outcome);
                    self.conclude(judged)
                },
                _ => self,
            },
            _ => self,
        }
    }

    /// Ends the attempt of the current strategy with `outcome`.
    fn conclude(self, outcome: AttemptOutcome) -> (next: Injection)
        requires
            !self@.finished(),
        ensures
            next@ == self@.conclude(outcome@),
    {
        proof {
            use_type_invariant(&self);
        }
        match outcome {
            AttemptOutcome::Success => Injection { stage: Stage::Done, succeeded: true, ..self },
            AttemptOutcome::Failed { kind, reason } => {
                let failure = Failure { strategy: self.strategy, kind, reason };
                self.inject_text_auto(failure)
            },
        }
    }

    /// The cascade: the failure is recorded, and in automatic mode the next
    /// strategy begins. After the last strategy, or with an explicit
    /// backend, the injection ends in failure.
    fn inject_text_auto(self, failure: Failure) -> (next: Injection)
        requires
            !self@.finished(),
            failure.strategy == self@.strategy,
        ensures
            next@ == self@.conclude(
                AttemptView::Failed { kind: failure.kind, reason: failure.reason@ },
            ),
    {
        proof {
            use_type_invariant(&self);
        }
        let Injection {
            text,
            backend,
            strategy,
            stage: _,
            uid,
            saved,
            terminal,
            pending,
            failures,
            succeeded,
            complaint,
        } = self;
        let ghost before = failure_views(failures@);
        let mut failures = failures;
        failures.push(failure);
        assert(failure_views(failures@) =~= before.push(failure@));
        let next = match backend {
            InjectBackend::Auto => strategy.next(),
            _ => None,
        };
        match next {
            Some(next) => Injection {
                text,
                backend,
                strategy: next,
                stage: next.opening_stage(),
                uid,
                saved,
                terminal,
                pending,
                failures,
                succeeded,
                complaint,
            },
            None => Injection {
                text,
                backend,
                strategy,
                stage: Stage::Done,
                uid,
                saved,
                terminal,
                pending,
                failures,
                succeeded: false,
                complaint,
            },
        }
    }
}

/// Begins the injection of `text` with `backend`. The host then carries
/// out [`Injection::request`] and hands each answer to
/// [`Injection::advance`], until the request is [`Request::Finish`].
pub fn inject_text(text: &str, backend: InjectBackend) -> (injection: Injection)
    ensures
        injection@ == start(text@, backend),
{
    let strategy = backend.initial_strategy();
    let injection = Injection {
        text: String::from_str(text),
        backend,
        strategy,
        stage: strategy.opening_stage(),
        uid: 0,
        saved: None,
        terminal: false,
        pending: AttemptOutcome::Success,
        failures: Vec::new(),
        succeeded: false,
        complaint: None,
    };
    assert(injection@.failures =~= Seq::empty());
    injection
}

/// The path of the daemon's socket in the runtime directory of user `uid`.
pub fn runtime_socket_path(uid: u32) -> (path: String)
    ensures
        path@ == runtime_socket(uid),
{
    let mut path = String::from_str("/run/user/");
    let number = decimal_string(uid);
    path.append(number.as_str());
    path.append("/.ydotool_socket");
    path
}

/// The error of a cascade in which every strategy has failed.
pub fn cascade_error(failures: &Vec<Failure>) -> (error: OutputError)
    ensures
        error@ == exhausted(failure_views(failures@)),
{
    let ghost parts = reasons(failure_views(failures@));
    let mut joined = String::new();
    let mut k: usize = 0;
    while k < failures.len()
        invariant
            k <= failures@.len(),
            parts == reasons(failure_views(failures@)),
            joined@ == join(parts.take(k as int), "; "@),
        decreases failures@.len() - k,
    {
        if k > 0 {
            joined.append("; ");
        }
        joined.append(failures[k].reason.as_str());
        proof {
            let upto = parts.take(k + 1);
            assert(upto.drop_last() =~= parts.take(k as int));
            assert(upto.last() == failures@[k as int].reason@);
        }
        k += 1;
    }
    assert(parts.take(k as int) =~= parts);
    let mut message = followed("no supported injection backends available (", joined.as_str());
    message.append(")");
    OutputError::new(message)
}

} // verus!
