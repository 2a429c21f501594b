use vstd::prelude::*;

use crate::error::ReadError;
use crate::text::{trim, trimmed};

verus! {

/// An image held by the clipboard: its size in pixels and its RGBA bytes.
#[derive(Debug, Clone, PartialEq, Eq)]
pub struct ImageData {
    pub width: usize,
    pub height: usize,
    pub bytes: Vec<u8>,
}

/// What the clipboard held before the reader changed it.
#[derive(Debug, Clone, PartialEq, Eq)]
pub enum Snapshot {
    Text(String),
    Image(ImageData),
    Empty,
}

/// What the clipboard reader asks of its surroundings next.
#[derive(Debug)]
pub enum ClipboardRequest {
    /// Read the clipboard as text, to take the snapshot.
    ReadText,
    /// Read the clipboard as an image, to take the snapshot.
    ReadImage,
    /// Send the copy key combination, then wait the settle delay.
    SendCopy,
    /// Read the clipboard as text again: the copied selection.
    ReadNewText,
    /// Put the snapshot back: set the text, set the image, or clear the clipboard.
    Restore(Snapshot),
    /// The reader is done, with this outcome.
    Finished(Result<String, ReadError>),
}

/// The answer to a `ClipboardRequest`.
#[derive(Debug)]
pub enum ClipboardEvent {
    /// The text read, or `None` where the clipboard held no text.
    Text(Option<String>),
    /// The image read, or `None` where the clipboard held no image.
    Image(Option<ImageData>),
    /// Whether the copy key combination was sent.
    CopySent(bool),
    /// Whether the snapshot was written back.
    Restored(bool),
}

/// Reads the selection by copying it to the clipboard, and puts the clipboard back
/// as it was before.
#[derive(Debug)]
pub enum ClipboardTextReader {
    AwaitingText,
    AwaitingImage,
    AwaitingCopy(Snapshot),
    AwaitingNewText(Snapshot),
    AwaitingRestore(Option<String>),
    Done,
}

/// The text that a text read of a clipboard holding `clip` gives.
pub open spec fn text_of(clip: Snapshot) -> Option<String> {
    match clip {
        Snapshot::Text(t) => Some(t),
        _ => None,
    }
}

/// The image that an image read of a clipboard holding `clip` gives.
pub open spec fn image_of(clip: Snapshot) -> Option<ImageData> {
    match clip {
        Snapshot::Image(i) => Some(i),
        _ => None,
    }
}

/// A clipboard that does what it is asked: from `clip`, it answers `req` and ends
/// holding the first component. The copy puts `copied` on it, or fails where that
/// is `None`; a write of the snapshot succeeds where `write_ok` holds.
pub open spec fn respond(
    clip: Snapshot,
    req: ClipboardRequest,
    copied: Option<Snapshot>,
    write_ok: bool,
) -> (Snapshot, ClipboardEvent) {
    match req {
        ClipboardRequest::ReadText => (clip, ClipboardEvent::Text(text_of(clip))),
        ClipboardRequest::ReadImage => (clip, ClipboardEvent::Image(image_of(clip))),
        ClipboardRequest::SendCopy => match copied {
            Some(c) => (c, ClipboardEvent::CopySent(true)),
            None => (clip, ClipboardEvent::CopySent(false)),
        },
        ClipboardRequest::ReadNewText => (clip, ClipboardEvent::Text(text_of(clip))),
        ClipboardRequest::Restore(s) => if write_ok {
            (s, ClipboardEvent::Restored(true))
        } else {
            (clip, ClipboardEvent::Restored(false))
        },
        ClipboardRequest::Finished(_) => (clip, ClipboardEvent::Restored(false)),
    }
}

impl ClipboardTextReader {
    /// A reader about to take its snapshot; its first request is `ReadText`.
    pub fn new() -> (r: (ClipboardTextReader, ClipboardRequest))
        ensures
            r.0 == ClipboardTextReader::AwaitingText,
            r.1 == ClipboardRequest::ReadText,
    {
        (ClipboardTextReader::AwaitingText, ClipboardRequest::ReadText)
    }

    /// Whether `e` answers the request that the reader is waiting on.
    pub open spec fn answered_by(self, e: ClipboardEvent) -> bool {
        match self {
            ClipboardTextReader::AwaitingText => e is Text,
            ClipboardTextReader::AwaitingImage => e is Image,
            ClipboardTextReader::AwaitingCopy(_) => e is CopySent,
            ClipboardTextReader::AwaitingNewText(_) => e is Text,
            ClipboardTextReader::AwaitingRestore(_) => e is Restored,
            ClipboardTextReader::Done => false,
        }
    }

    /// How many requests at most are left before the reader is done.
    pub open spec fn rank(self) -> nat {
        match self {
            ClipboardTextReader::AwaitingText => 5,
            ClipboardTextReader::AwaitingImage => 4,
            ClipboardTextReader::AwaitingCopy(_) => 3,
            ClipboardTextReader::AwaitingNewText(_) => 2,
            ClipboardTextReader::AwaitingRestore(_) => 1,
            ClipboardTextReader::Done => 0,
        }
    }

    /// The reader moves on `e` to `next`, which asks `req`.
    pub open spec fn leads_to(
        self,
        e: ClipboardEvent,
        next: ClipboardTextReader,
        req: ClipboardRequest,
    ) -> bool {
        match self {
            ClipboardTextReader::AwaitingText => match e {
                ClipboardEvent::Text(Some(t)) => next == ClipboardTextReader::AwaitingCopy(
                    Snapshot::Text(t),
                ) && req == ClipboardRequest::SendCopy,
                _ => next == ClipboardTextReader::AwaitingImage && req
                    == ClipboardRequest::ReadImage,
            },
            ClipboardTextReader::AwaitingImage => {
                let s = match e {
                    ClipboardEvent::Image(Some(i)) => Snapshot::Image(i),
                    _ => Snapshot::Empty,
                };
                next == ClipboardTextReader::AwaitingCopy(s) && req == ClipboardRequest::SendCopy
            },
            ClipboardTextReader::AwaitingCopy(s) => if e == ClipboardEvent::CopySent(true) {
                next == ClipboardTextReader::AwaitingNewText(s) && req
                    == ClipboardRequest::ReadNewText
            } else {
                next == ClipboardTextReader::Done && req
                    == ClipboardRequest::Finished(Err(ReadError::SimulationFailed))
            },
            ClipboardTextReader::AwaitingNewText(s) => {
                let n = match e {
                    ClipboardEvent::Text(n) => n,
                    _ => None,
                };
                next == ClipboardTextReader::AwaitingRestore(n) && req == ClipboardRequest::Restore(
                    s,
                )
            },
            ClipboardTextReader::AwaitingRestore(n) => {
                &&& next == ClipboardTextReader::Done
                &&& req is Finished
                &&& if e != ClipboardEvent::Restored(true) {
                    req->Finished_0 == Err::<String, ReadError>(ReadError::RestoreFailed)
                } else {
                    match n {
                        Some(t) => req->Finished_0 is Ok && req->Finished_0->Ok_0@ == trimmed(t@),
                        None => req->Finished_0 == Err::<String, ReadError>(
                            ReadError::NoTextProduced,
                        ),
                    }
                }
            },
            ClipboardTextReader::Done => false,
        }
    }

    /// Whether `e` answers the request that the reader is waiting on.
    pub fn accepts(&self, e: &ClipboardEvent) -> (r: bool)
        ensures
            r == self.answered_by(*e),
    {
        match self {
            ClipboardTextReader::AwaitingText => matches!(e, ClipboardEvent::Text(_)),
            ClipboardTextReader::AwaitingImage => matches!(e, ClipboardEvent::Image(_)),
            ClipboardTextReader::AwaitingCopy(_) => matches!(e, ClipboardEvent::CopySent(_)),
            ClipboardTextReader::AwaitingNewText(_) => matches!(e, ClipboardEvent::Text(_)),
            ClipboardTextReader::AwaitingRestore(_) => matches!(e, ClipboardEvent::Restored(_)),
            ClipboardTextReader::Done => false,
        }
    }

    /// Takes the answer `e` to the pending request, and returns the reader's next
    /// state with its next request.
    pub fn step(self, e: ClipboardEvent) -> (r: (ClipboardTextReader, ClipboardRequest))
        requires
            self.answered_by(e),
        ensures
            self.leads_to(e, r.0, r.1),
            r.0.rank() < self.rank(),
    {
        match self {
            ClipboardTextReader::AwaitingText => match e {
                ClipboardEvent::Text(Some(t)) => (
                    ClipboardTextReader::AwaitingCopy(Snapshot::Text(t)),
                    ClipboardRequest::SendCopy,
                ),
                _ => (ClipboardTextReader::AwaitingImage, ClipboardRequest::ReadImage),
            },
            ClipboardTextReader::AwaitingImage => {
                let s = match e {
                    ClipboardEvent::Image(Some(i)) => Snapshot::Image(i),
                    _ => Snapshot::Empty,
                };
                (ClipboardTextReader::AwaitingCopy(s), ClipboardRequest::SendCopy)
            },
            ClipboardTextReader::AwaitingCopy(s) => match e {
                ClipboardEvent::CopySent(true) => (
                    ClipboardTextReader::AwaitingNewText(s),
                    ClipboardRequest::ReadNewText,
                ),
                _ => (
                    ClipboardTextReader::Done,
                    ClipboardRequest::Finished(Err(ReadError::SimulationFailed)),
                ),
            },
            ClipboardTextReader::AwaitingNewText(s) => {
                let n = match e {
                    ClipboardEvent::Text(n) => n,
                    _ => None,
                };
                (ClipboardTextReader::AwaitingRestore(n), ClipboardRequest::Restore(s))
            },
            ClipboardTextReader::AwaitingRestore(n) => {
                let outcome = match e {
                    ClipboardEvent::Restored(true) => match n {
                        Some(t) => Ok(trim(t.as_str())),
                        None => Err(ReadError::NoTextProduced),
                    },
                    _ => Err(ReadError::RestoreFailed),
                };
                (ClipboardTextReader::Done, ClipboardRequest::Finished(outcome))
            },
            ClipboardTextReader::Done => (
                ClipboardTextReader::Done,
                ClipboardRequest::Finished(Err(ReadError::ClipboardAccessFailed)),
            ),
        }
    }
}

/// The clipboard reader keeps its promise to put the clipboard back: `reader`,
/// waiting on `req`, was started on a clipboard that held `before` and now holds
/// `clip`.
pub open spec fn keeps_clipboard(
    reader: ClipboardTextReader,
    req: ClipboardRequest,
    before: Snapshot,
    clip: Snapshot,
) -> bool {
    match reader {
        ClipboardTextReader::AwaitingText => req == ClipboardRequest::ReadText && clip == before,
        ClipboardTextReader::AwaitingImage => req == ClipboardRequest::ReadImage && clip == before
            && !(before is Text),
        ClipboardTextReader::AwaitingCopy(s) => req == ClipboardRequest::SendCopy && clip
            == before && s == before,
        ClipboardTextReader::AwaitingNewText(s) => req == ClipboardRequest::ReadNewText && s
            == before,
        ClipboardTextReader::AwaitingRestore(_) => req == ClipboardRequest::Restore(before),
        ClipboardTextReader::Done => req is Finished && (clip == before || req->Finished_0
            == Err::<String, ReadError>(ReadError::RestoreFailed)),
    }
}

/// A fresh reader keeps the clipboard it starts on.
pub proof fn lemma_start_keeps_clipboard(before: Snapshot)
    ensures
        keeps_clipboard(
            ClipboardTextReader::AwaitingText,
            ClipboardRequest::ReadText,
            before,
            before,
        ),
{
}

/// Every step keeps the clipboard: where the clipboard answers each request as
/// `respond` says, whatever the copy puts on it, the reader ends with the
/// clipboard holding what it held before, in kind and content, or with
/// `RestoreFailed` where the write-back failed. Once the copy has failed, no write
/// is asked for at all.
pub proof fn lemma_step_keeps_clipboard(
    reader: ClipboardTextReader,
    req: ClipboardRequest,
    before: Snapshot,
    clip: Snapshot,
    copied: Option<Snapshot>,
    write_ok: bool,
    next: ClipboardTextReader,
    next_req: ClipboardRequest,
)
    requires
        keeps_clipboard(reader, req, before, clip),
        reader != ClipboardTextReader::Done,
        reader.leads_to(respond(clip, req, copied, write_ok).1, next, next_req),
    ensures
        keeps_clipboard(next, next_req, before, respond(clip, req, copied, write_ok).0),
        reader.answered_by(respond(clip, req, copied, write_ok).1),
        next.rank() < reader.rank(),
{
}

} // verus!
