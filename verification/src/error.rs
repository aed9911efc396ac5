//! Failures of single strategies and the error of a whole injection.

use vstd::prelude::*;

verus! {

/// Why a strategy could not deliver the text.
#[derive(Clone, Copy, Debug, PartialEq, Eq, Structural)]
pub enum FailureKind {
    /// A daemon or a session that the strategy needs is absent.
    Unavailable,
    /// The program could not be started.
    LaunchFailed,
    /// The program ran and exited with a nonzero status.
    ExecutionFailed,
    /// A clipboard operation failed.
    IOFailed,
}

/// What one attempt of one strategy came to.
#[derive(Clone, Debug, PartialEq, Eq)]
pub enum AttemptOutcome {
    /// The text was delivered.
    Success,
    /// The text was not delivered, for the reason given.
    Failed { kind: FailureKind, reason: String },
}

/// The mathematical form of an [`AttemptOutcome`].
pub enum AttemptView {
    Success,
    Failed { kind: FailureKind, reason: Seq<char> },
}

impl View for AttemptOutcome {
    type V = AttemptView;

    open spec fn view(&self) -> AttemptView {
        match *self {
            AttemptOutcome::Success => AttemptView::Success,
            AttemptOutcome::Failed { kind, reason } => AttemptView::Failed {
                kind,
                reason: reason@,
            },
        }
    }
}

/// The error of an injection: one message for the caller.
#[derive(Clone, Debug, PartialEq, Eq)]
pub struct OutputError {
    message: String,
}

impl View for OutputError {
    type V = Seq<char>;

    closed spec fn view(&self) -> Seq<char> {
        self.message@
    }
}

impl OutputError {
    /// An error with the given message.
    pub fn new(message: String) -> (error: OutputError)
        ensures
            error@ == message@,
    {
        OutputError { message }
    }

    /// The message.
    pub fn message(&self) -> (message: &str)
        ensures
            message@ == self@,
    {
        self.message.as_str()
    }

    /// The message, as an owned text.
    pub fn to_string(&self) -> (message: String)
        ensures
            message@ == self@,
    {
        self.message.clone()
    }
}

} // verus!
