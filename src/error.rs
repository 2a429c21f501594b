use vstd::prelude::*;

verus! {

/// Why a strategy did not produce the selected text.
#[derive(Debug, Clone, Copy, PartialEq, Eq, Structural)]
pub enum ReadError {
    /// The process lacks the accessibility trust grant.
    PermissionDenied,
    /// The accessibility tree had no focused element, or it exposed no selection.
    NotFound(Missing),
    /// The synthesized copy command could not be sent.
    SimulationFailed,
    /// After the copy, the clipboard held no text.
    NoTextProduced,
    /// The clipboard could not be put back as it was before the copy.
    RestoreFailed,
    /// The clipboard could not be read at all.
    ClipboardAccessFailed,
}

/// What the accessibility query did not find.
#[derive(Debug, Clone, Copy, PartialEq, Eq, Structural)]
pub enum Missing {
    FocusedElement,
    SelectedText,
}

} // verus!
