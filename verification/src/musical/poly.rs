//! Events of a polyphonic note handler.
use vstd::prelude::*;

verus! {

/// A note event for a polyphonic voice handler.
#[derive(Clone, Copy, Debug, PartialEq, Eq, Structural)]
pub enum NoteEvent {
    NoteOn { id: Option<i32> },
    NoteOff { note: u8, id: Option<i32> },
}

} // verus!
