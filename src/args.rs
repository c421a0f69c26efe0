use vstd::prelude::*;

use crate::event_id::EventId;

verus! {

/// Payload of an idle event.
///
/// `dt_bits` is the elapsed time in seconds, held as the bit pattern of an
/// IEEE 754 double (`f64::to_bits`), so that the payload is a plain value that
/// is carried unchanged.
#[derive(Clone, Copy, Debug, PartialEq, Eq, Structural, Hash)]
pub struct IdleArgs {
    pub dt_bits: u64,
}

/// Payload of an update event; `dt_bits` as in [`IdleArgs`].
#[derive(Clone, Copy, Debug, PartialEq, Eq, Structural, Hash)]
pub struct UpdateArgs {
    pub dt_bits: u64,
}

/// A payload with its type erased: what an envelope hands to a callback.
///
/// Code that knows the type it expects recovers it with
/// [`EventArgs::downcast`].
#[derive(Clone, Copy, Debug, PartialEq, Eq, Structural, Hash)]
pub enum AnyArgs {
    Idle(IdleArgs),
    Update(UpdateArgs),
}

impl AnyArgs {
    /// The kind of the payload held.
    pub open spec fn id(self) -> EventId {
        match self {
            AnyArgs::Idle(_) => EventId::Idle,
            AnyArgs::Update(_) => EventId::Update,
        }
    }

    /// Returns the kind of the payload held.
    pub fn event_id(&self) -> (r: EventId)
        ensures
            r == self.id(),
    {
        match self {
            AnyArgs::Idle(_) => EventId::Idle,
            AnyArgs::Update(_) => EventId::Update,
        }
    }
}

/// A payload type that envelopes can carry, with the identifier of its kind.
pub trait EventArgs: Sized + Copy {
    /// The identifier reserved for this payload type.
    spec fn kind() -> EventId;

    /// This payload with its type erased.
    spec fn to_any(self) -> AnyArgs;

    /// The payload of this type that an erased payload holds, if any.
    spec fn from_any(a: AnyArgs) -> Option<Self>;

    /// Erasing keeps the kind, and recovering the erased payload gives it back.
    proof fn lemma_erase(self)
        ensures
            self.to_any().id() == Self::kind(),
            Self::from_any(self.to_any()) == Some(self),
    ;

    /// Recovery succeeds exactly on erased payloads of this kind.
    proof fn lemma_recover(a: AnyArgs)
        ensures
            Self::from_any(a) is Some <==> a.id() == Self::kind(),
            Self::from_any(a) matches Some(p) ==> p.to_any() == a,
    ;

    /// Returns the identifier reserved for this payload type.
    fn event_id() -> (r: EventId)
        ensures
            r == Self::kind(),
    ;

    /// Erases the type of this payload.
    fn erase(&self) -> (r: AnyArgs)
        ensures
            r == self.to_any(),
    ;

    /// Recovers a payload of this type from an erased one.
    fn downcast(a: &AnyArgs) -> (r: Option<Self>)
        ensures
            r == Self::from_any(*a),
    ;
}

impl EventArgs for IdleArgs {
    open spec fn kind() -> EventId {
        EventId::Idle
    }

    open spec fn to_any(self) -> AnyArgs {
        AnyArgs::Idle(self)
    }

    open spec fn from_any(a: AnyArgs) -> Option<Self> {
        match a {
            AnyArgs::Idle(p) => Some(p),
            _ => None,
        }
    }

    proof fn lemma_erase(self) {
    }

    proof fn lemma_recover(a: AnyArgs) {
    }

    fn event_id() -> (r: EventId) {
        EventId::Idle
    }

    fn erase(&self) -> (r: AnyArgs) {
        AnyArgs::Idle(*self)
    }

    fn downcast(a: &AnyArgs) -> (r: Option<Self>) {
        match a {
            AnyArgs::Idle(p) => Some(*p),
            _ => None,
        }
    }
}

impl EventArgs for UpdateArgs {
    open spec fn kind() -> EventId {
        EventId::Update
    }

    open spec fn to_any(self) -> AnyArgs {
        AnyArgs::Update(self)
    }

    open spec fn from_any(a: AnyArgs) -> Option<Self> {
        match a {
            AnyArgs::Update(p) => Some(p),
            _ => None,
        }
    }

    proof fn lemma_erase(self) {
    }

    proof fn lemma_recover(a: AnyArgs) {
    }

    fn event_id() -> (r: EventId) {
        EventId::Update
    }

    fn erase(&self) -> (r: AnyArgs) {
        AnyArgs::Update(*self)
    }

    fn downcast(a: &AnyArgs) -> (r: Option<Self>) {
        match a {
            AnyArgs::Update(p) => Some(*p),
            _ => None,
        }
    }
}

/// The identifiers of the idle and update payload types differ.
pub proof fn lemma_kinds_distinct()
    ensures
        <IdleArgs as EventArgs>::kind() != <UpdateArgs as EventArgs>::kind(),
{
}

} // verus!
