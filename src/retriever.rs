use vstd::prelude::*;

use crate::accessibility::{AccessibilityEvent, AccessibilityRequest, AccessibilityTextReader};
use crate::error::ReadError;

verus! {

/// Whether a strategy's outcome ends the search: it produced a non-empty text.
pub open spec fn is_found(outcome: Result<String, ReadError>) -> bool {
    outcome is Ok && outcome->Ok_0@.len() > 0
}

/// The text that `get_text` returns once the last strategy gave `outcome`:
/// its text where it produced some, else the empty text.
pub open spec fn last_resort(outcome: Result<String, ReadError>) -> Seq<char> {
    if outcome is Ok {
        outcome->Ok_0@
    } else {
        Seq::empty()
    }
}

/// The text of `outcome` where it ends the search.
pub fn found_text(outcome: Result<String, ReadError>) -> (r: Option<String>)
    ensures
        r is Some <==> is_found(outcome),
        r is Some ==> r->Some_0 == outcome->Ok_0,
{
    match outcome {
        Ok(text) => if text.as_str().is_empty() {
            None
        } else {
            Some(text)
        },
        Err(_) => None,
    }
}

/// The text selected in the focused application, or the empty text where no
/// strategy finds any. Reading through accessibility comes first, as it has no
/// side effect; reading through the clipboard is run only where that found no
/// text, whether it failed or came back empty: `by_clipboard` need only be callable
/// after such an outcome. Errors end at this boundary.
pub fn get_text<A, C>(by_accessibility: A, by_clipboard: C) -> (r: String) where
    A: FnOnce() -> Result<String, ReadError>,
    C: FnOnce() -> Result<String, ReadError>,

    requires
        by_accessibility.requires(()),
        forall|a: Result<String, ReadError>|
            #![trigger by_accessibility.ensures((), a)]
            by_accessibility.ensures((), a) && !is_found(a) ==> by_clipboard.requires(()),
    ensures
        exists|a: Result<String, ReadError>|
            #![trigger by_accessibility.ensures((), a)]
            by_accessibility.ensures((), a) && if is_found(a) {
                r == a->Ok_0
            } else {
                exists|c: Result<String, ReadError>|
                    #![trigger by_clipboard.ensures((), c)]
                    by_clipboard.ensures((), c) && r@ == last_resort(c)
            },
{
    let a = by_accessibility();
    match found_text(a) {
        Some(text) => text,
        None => {
            let c = by_clipboard();
            match c {
                Ok(text) => text,
                Err(_) => String::new(),
            }
        },
    }
}

/// A process without the accessibility trust grant falls back to the clipboard:
/// the accessibility reader then ends with `PermissionDenied`, which does not end
/// the search, so `get_text` returns what the clipboard strategy gives.
pub proof fn lemma_denied_falls_back()
    ensures
        AccessibilityTextReader::AwaitingTrust.after(AccessibilityEvent::Trusted(false)).1
            == AccessibilityRequest::Finished(Err(ReadError::PermissionDenied)),
        !is_found(Err(ReadError::PermissionDenied)),
{
}

} // verus!
