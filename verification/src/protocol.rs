//! Outcome types of the three-stage sink protocol.

use vstd::prelude::*;

verus! {

/// Outcome of offering one item to a sink's accept stage.
///
/// A sink that is not ready hands the item back so that the caller can
/// offer it again later. The sinks of this crate never do so: each accept
/// stage either takes the item or fails with the sink's error.
#[derive(Debug, PartialEq)]
pub enum AcceptOutcome<I> {
    /// The sink took the item.
    Accepted,
    /// The sink was not ready; the item is handed back to the caller.
    NotReady(I),
}

/// Outcome of polling a sink's flush or shutdown stage.
///
/// A stage that still has work pending asks to be polled again. The sinks
/// of this crate never do so: each flush or shutdown stage either finishes
/// at once or fails with the sink's error.
#[derive(Debug, PartialEq)]
pub enum PollOutcome {
    /// The stage finished.
    Ready,
    /// The stage has work pending and must be polled again.
    NotReady,
}

} // verus!
