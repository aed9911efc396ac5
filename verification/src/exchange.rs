//! What the engine asks of its host, and what the host answers.

use crate::clipboard::{content_view, done_view, ClipboardOffer, ClipboardSnapshot, OfferView};
use crate::command::{Capture, CaptureView, Command, CommandView, ProcessOutcome, ProcessView};
use crate::error::OutputError;
use crate::session::{SessionSignals, SessionView};
use vstd::prelude::*;

verus! {

/// One thing for the host to do. Each request but the last is answered by
/// the [`Response`] of its kind.
#[derive(Debug, PartialEq, Eq)]
pub enum Request {
    /// Report the id of the user that the process runs as.
    ReadUid,
    /// Report whether a file exists at `path`.
    ProbeFile { path: String },
    /// Read the session signals from the environment.
    ReadSession,
    /// Read what the regular clipboard holds.
    SaveClipboard,
    /// Put `offer` on the regular clipboard, both entries at once.
    OfferClipboard { offer: ClipboardOffer },
    /// Remove all content from the regular clipboard.
    ClearClipboard,
    /// Run `command` to its end and report what it printed.
    Capture { command: Command },
    /// Run `command` to its end and report its exit status.
    Run { command: Command },
    /// Wait for `millis` milliseconds.
    Settle { millis: u64 },
    /// The injection is over, with `result`. No answer is expected.
    Finish { result: Result<(), OutputError> },
}

/// The mathematical form of a [`Request`].
pub enum RequestView {
    ReadUid,
    ProbeFile { path: Seq<char> },
    ReadSession,
    SaveClipboard,
    OfferClipboard { offer: OfferView },
    ClearClipboard,
    Capture { command: CommandView },
    Run { command: CommandView },
    Settle { millis: u64 },
    Finish { result: Result<(), Seq<char>> },
}

impl View for Request {
    type V = RequestView;

    open spec fn view(&self) -> RequestView {
        match *self {
            Request::ReadUid => RequestView::ReadUid,
            Request::ProbeFile { path } => RequestView::ProbeFile { path: path@ },
            Request::ReadSession => RequestView::ReadSession,
            Request::SaveClipboard => RequestView::SaveClipboard,
            Request::OfferClipboard { offer } => RequestView::OfferClipboard { offer: offer@ },
            Request::ClearClipboard => RequestView::ClearClipboard,
            Request::Capture { command } => RequestView::Capture { command: command@ },
            Request::Run { command } => RequestView::Run { command: command@ },
            Request::Settle { millis } => RequestView::Settle { millis },
            Request::Finish { result } => RequestView::Finish {
                result: match result {
                    Ok(_) => Ok(()),
                    Err(error) => Err(error@),
                },
            },
        }
    }
}

/// The host's answer to a [`Request`].
#[derive(Debug, PartialEq, Eq)]
pub enum Response {
    /// The id of the user.
    Uid(u32),
    /// Whether the file exists.
    Exists(bool),
    /// The session signals.
    Session(SessionSignals),
    /// What the clipboard holds; `None` where it is empty or cannot be
    /// read.
    Snapshot(ClipboardSnapshot),
    /// How a write or a clearing of the clipboard went; an error comes as
    /// the host's rendering of it.
    Clipboard(Result<(), String>),
    /// What the program printed; `None` where it could not be started.
    Captured(Option<Capture>),
    /// How the run of the program ended.
    Exited(ProcessOutcome),
    /// The wait is over.
    Settled,
}

/// The mathematical form of a [`Response`].
pub enum ResponseView {
    Uid(u32),
    Exists(bool),
    Session(SessionView),
    Snapshot(Option<Seq<u8>>),
    Clipboard(Result<(), Seq<char>>),
    Captured(Option<CaptureView>),
    Exited(ProcessView),
    Settled,
}

impl View for Response {
    type V = ResponseView;

    open spec fn view(&self) -> ResponseView {
        match *self {
            Response::Uid(uid) => ResponseView::Uid(uid),
            Response::Exists(exists) => ResponseView::Exists(exists),
            Response::Session(signals) => ResponseView::Session(signals@),
            Response::Snapshot(content) => ResponseView::Snapshot(content_view(content)),
            Response::Clipboard(done) => ResponseView::Clipboard(done_view(done)),
            Response::Captured(capture) => ResponseView::Captured(
                match capture {
                    Some(capture) => Some(capture@),
                    None => None,
                },
            ),
            Response::Exited(outcome) => ResponseView::Exited(outcome@),
            Response::Settled => ResponseView::Settled,
        }
    }
}

impl RequestView {
    /// Whether `response` is of the kind that answers this request.
    pub open spec fn answered_by(self, response: ResponseView) -> bool {
        match self {
            RequestView::ReadUid => response is Uid,
            RequestView::ProbeFile { .. } => response is Exists,
            RequestView::ReadSession => response is Session,
            RequestView::SaveClipboard => response is Snapshot,
            RequestView::OfferClipboard { .. } | RequestView::ClearClipboard => response is Clipboard,
            RequestView::Capture { .. } => response is Captured,
            RequestView::Run { .. } => response is Exited,
            RequestView::Settle { .. } => response is Settled,
            RequestView::Finish { .. } => false,
        }
    }
}

} // verus!
