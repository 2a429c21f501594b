//! Retrieves the text selected in the focused application. Two readers, each a
//! state machine that asks its surroundings to do the OS work and decides on the
//! answers, are tried in turn: the accessibility reader, which has no side effect,
//! then the clipboard reader, which copies the selection and puts the clipboard
//! back as it was.
use vstd::prelude::*;

pub mod accessibility;
pub mod clipboard;
pub mod error;
pub mod input;
pub mod retriever;
pub mod text;

verus! {

} // verus!
