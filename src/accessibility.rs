use vstd::prelude::*;

use crate::error::{Missing, ReadError};

verus! {

/// What the accessibility reader asks of its surroundings next.
#[derive(Debug)]
pub enum AccessibilityRequest {
    /// Ask whether the process holds the accessibility trust grant; the OS may
    /// prompt the user for it.
    CheckTrust,
    /// Look up the UI element that holds input focus.
    FocusedElement,
    /// Read the selected-text attribute of the focused element.
    SelectedText,
    /// The reader is done, with this outcome.
    Finished(Result<String, ReadError>),
}

/// The answer to an `AccessibilityRequest`.
#[derive(Debug)]
pub enum AccessibilityEvent {
    /// Whether the process is trusted.
    Trusted(bool),
    /// Whether a focused element was found.
    Focused(bool),
    /// The selected text of the focused element, or `None` where it has none.
    Selected(Option<String>),
}

/// Reads the selection from the focused element's selected-text attribute, with no
/// side effect on the clipboard or the keyboard.
#[derive(Debug, PartialEq, Eq, Structural)]
pub enum AccessibilityTextReader {
    AwaitingTrust,
    AwaitingFocus,
    AwaitingSelection,
    Done,
}

impl AccessibilityTextReader {
    /// A reader about to check the trust grant; its first request is `CheckTrust`.
    pub fn new() -> (r: (AccessibilityTextReader, AccessibilityRequest))
        ensures
            r.0 == AccessibilityTextReader::AwaitingTrust,
            r.1 == AccessibilityRequest::CheckTrust,
    {
        (AccessibilityTextReader::AwaitingTrust, AccessibilityRequest::CheckTrust)
    }

    /// Whether `e` answers the request that the reader is waiting on.
    pub open spec fn answered_by(self, e: AccessibilityEvent) -> bool {
        match self {
            AccessibilityTextReader::AwaitingTrust => e is Trusted,
            AccessibilityTextReader::AwaitingFocus => e is Focused,
            AccessibilityTextReader::AwaitingSelection => e is Selected,
            AccessibilityTextReader::Done => false,
        }
    }

    /// How many requests at most are left before the reader is done.
    pub open spec fn rank(self) -> nat {
        match self {
            AccessibilityTextReader::AwaitingTrust => 3,
            AccessibilityTextReader::AwaitingFocus => 2,
            AccessibilityTextReader::AwaitingSelection => 1,
            AccessibilityTextReader::Done => 0,
        }
    }

    /// The next state and request of the reader, on the answer `e`.
    pub open spec fn after(self, e: AccessibilityEvent) -> (
        AccessibilityTextReader,
        AccessibilityRequest,
    ) {
        match e {
            AccessibilityEvent::Trusted(true) => (
                AccessibilityTextReader::AwaitingFocus,
                AccessibilityRequest::FocusedElement,
            ),
            AccessibilityEvent::Trusted(false) => (
                AccessibilityTextReader::Done,
                AccessibilityRequest::Finished(Err(ReadError::PermissionDenied)),
            ),
            AccessibilityEvent::Focused(true) => (
                AccessibilityTextReader::AwaitingSelection,
                AccessibilityRequest::SelectedText,
            ),
            AccessibilityEvent::Focused(false) => (
                AccessibilityTextReader::Done,
                AccessibilityRequest::Finished(Err(ReadError::NotFound(Missing::FocusedElement))),
            ),
            AccessibilityEvent::Selected(Some(t)) => (
                AccessibilityTextReader::Done,
                AccessibilityRequest::Finished(Ok(t)),
            ),
            AccessibilityEvent::Selected(None) => (
                AccessibilityTextReader::Done,
                AccessibilityRequest::Finished(Err(ReadError::NotFound(Missing::SelectedText))),
            ),
        }
    }

    /// Whether `e` answers the request that the reader is waiting on.
    pub fn accepts(&self, e: &AccessibilityEvent) -> (r: bool)
        ensures
            r == self.answered_by(*e),
    {
        match self {
            AccessibilityTextReader::AwaitingTrust => matches!(e, AccessibilityEvent::Trusted(_)),
            AccessibilityTextReader::AwaitingFocus => matches!(e, AccessibilityEvent::Focused(_)),
            AccessibilityTextReader::AwaitingSelection => matches!(
                e,
                AccessibilityEvent::Selected(_)
            ),
            AccessibilityTextReader::Done => false,
        }
    }

    /// Takes the answer `e` to the pending request, and returns the reader's next
    /// state with its next request. The selected text is handed on as it was read.
    pub fn step(self, e: AccessibilityEvent) -> (r: (AccessibilityTextReader, AccessibilityRequest))
        requires
            self.answered_by(e),
        ensures
            r == self.after(e),
            r.0.rank() < self.rank(),
    {
        match e {
            AccessibilityEvent::Trusted(true) => (
                AccessibilityTextReader::AwaitingFocus,
                AccessibilityRequest::FocusedElement,
            ),
            AccessibilityEvent::Trusted(false) => (
                AccessibilityTextReader::Done,
                AccessibilityRequest::Finished(Err(ReadError::PermissionDenied)),
            ),
            AccessibilityEvent::Focused(true) => (
                AccessibilityTextReader::AwaitingSelection,
                AccessibilityRequest::SelectedText,
            ),
            AccessibilityEvent::Focused(false) => (
                AccessibilityTextReader::Done,
                AccessibilityRequest::Finished(Err(ReadError::NotFound(Missing::FocusedElement))),
            ),
            AccessibilityEvent::Selected(Some(t)) => (
                AccessibilityTextReader::Done,
                AccessibilityRequest::Finished(Ok(t)),
            ),
            AccessibilityEvent::Selected(None) => (
                AccessibilityTextReader::Done,
                AccessibilityRequest::Finished(Err(ReadError::NotFound(Missing::SelectedText))),
            ),
        }
    }
}

} // verus!
