//! What is offered on the clipboard, and how clipboard failures are worded.
//!
//! Every write is one offer of two entries: the content as plain text, and a
//! hint that tells clipboard-history tools not to record it.

use crate::error::{AttemptOutcome, AttemptView, FailureKind};
use crate::text::followed;
use vstd::prelude::*;
use vstd::string::*;
use vstd::utf8::encode_utf8;

verus! {

/// What the clipboard held when it was read: its content, or nothing where
/// it was empty or could not be read.
pub type ClipboardSnapshot = Option<Vec<u8>>;

/// One clipboard offer: `content` as plain text, and with it an entry of
/// type `hint_type` that holds `hint`.
#[derive(Clone, Debug, PartialEq, Eq)]
pub struct ClipboardOffer {
    pub content: Vec<u8>,
    pub hint_type: String,
    pub hint: Vec<u8>,
}

/// The mathematical form of a [`ClipboardOffer`].
pub struct OfferView {
    pub content: Seq<u8>,
    pub hint_type: Seq<char>,
    pub hint: Seq<u8>,
}

impl View for ClipboardOffer {
    type V = OfferView;

    open spec fn view(&self) -> OfferView {
        OfferView { content: self.content@, hint_type: self.hint_type@, hint: self.hint@ }
    }
}

/// The offer of `content` that history tools are asked to pass over: the
/// hint entry is `x-kde-passwordManagerHint`, holding the ASCII bytes of
/// `secret`.
pub open spec fn secret_offer(content: Seq<u8>) -> OfferView {
    OfferView {
        content,
        hint_type: "x-kde-passwordManagerHint"@,
        hint: seq![0x73u8, 0x65u8, 0x63u8, 0x72u8, 0x65u8, 0x74u8],
    }
}

fn offer_secret(content: Vec<u8>) -> (offer: ClipboardOffer)
    ensures
        offer@ == secret_offer(content@),
{
    let hint: Vec<u8> = vec![0x73u8, 0x65u8, 0x63u8, 0x72u8, 0x65u8, 0x74u8];
    assert(hint@ =~= secret_offer(content@).hint);
    ClipboardOffer { content, hint_type: String::from_str("x-kde-passwordManagerHint"), hint }
}

/// The offer that puts `text` on the clipboard, in UTF-8.
pub fn clipboard_copy_secret(text: &str) -> (offer: ClipboardOffer)
    ensures
        offer@ == secret_offer(encode_utf8(text@)),
{
    offer_secret(text.as_bytes_vec())
}

/// The offer that puts a saved content back on the clipboard.
pub fn clipboard_restore(saved: &Vec<u8>) -> (offer: ClipboardOffer)
    ensures
        offer@ == secret_offer(saved@),
{
    offer_secret(saved.clone())
}

/// The outcome of the write of the text: a failed write fails the attempt.
pub open spec fn copy_outcome(written: Result<(), Seq<char>>) -> AttemptView {
    match written {
        Ok(_) => AttemptView::Success,
        Err(detail) => AttemptView::Failed {
            kind: FailureKind::IOFailed,
            reason: "clipboard copy failed: "@ + detail,
        },
    }
}

/// The complaint, if any, about putting the clipboard back as it was: about
/// the restore where a content had been saved, about the clearing where
/// none had.
pub open spec fn cleanup_complaint(saved: bool, done: Result<(), Seq<char>>) -> Option<Seq<char>> {
    match done {
        Ok(_) => None,
        Err(detail) => Some(
            if saved {
                "clipboard restore failed: "@ + detail
            } else {
                "clipboard clear failed: "@ + detail
            },
        ),
    }
}

/// The view of the result of a clipboard operation.
pub open spec fn done_view(done: Result<(), String>) -> Result<(), Seq<char>> {
    match done {
        Ok(_) => Ok(()),
        Err(detail) => Err(detail@),
    }
}

/// The view of an optional text.
pub open spec fn text_view(text: Option<String>) -> Option<Seq<char>> {
    match text {
        Some(text) => Some(text@),
        None => None,
    }
}

/// The view of a snapshot.
pub open spec fn content_view(content: ClipboardSnapshot) -> Option<Seq<u8>> {
    match content {
        Some(bytes) => Some(bytes@),
        None => None,
    }
}

/// Judges the write of the text to the clipboard.
pub fn judge_copy(written: &Result<(), String>) -> (judged: AttemptOutcome)
    ensures
        judged@ == copy_outcome(done_view(*written)),
{
    match written {
        Ok(_) => AttemptOutcome::Success,
        Err(detail) => AttemptOutcome::Failed {
            kind: FailureKind::IOFailed,
            reason: followed("clipboard copy failed: ", detail.as_str()),
        },
    }
}

/// Words the failure, if any, of putting the clipboard back as it was.
pub fn judge_cleanup(saved: bool, done: &Result<(), String>) -> (complaint: Option<String>)
    ensures
        text_view(complaint) == cleanup_complaint(saved, done_view(*done)),
{
    match done {
        Ok(_) => None,
        Err(detail) => {
            if saved {
                Some(followed("clipboard restore failed: ", detail.as_str()))
            } else {
                Some(followed("clipboard clear failed: ", detail.as_str()))
            }
        },
    }
}

} // verus!
