use vstd::prelude::*;

verus! {

/// Identifies the kind of payload that an envelope holds.
///
/// Each payload type has exactly one identifier of its own
/// (see [`crate::args::EventArgs::kind`]); identifiers are only compared for
/// equality.
#[derive(Clone, Copy, Debug, PartialEq, Eq, Structural, Hash)]
pub enum EventId {
    /// Idle events: the loop has time for background work.
    Idle,
    /// Update events: the model should advance by a time step.
    Update,
}

} // verus!
