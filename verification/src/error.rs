//! The failures a transcript can end in.

use vstd::prelude::*;

verus! {

/// Why an event was refused. Every failure is final: the transcript it
/// happened in is lost, and its digest must not be used.
#[derive(Clone, Copy, Debug, PartialEq, Eq, Structural)]
pub enum Error {
    /// The hasher had already failed on an earlier event.
    Failed,
    /// The event is not legal in the state it arrived in: it is of the wrong
    /// kind, names the wrong wire type, or its byte count does not agree
    /// with the bytes that the open value still expects.
    Hashing,
}

} // verus!
