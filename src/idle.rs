use vstd::prelude::*;

use crate::args::IdleArgs;
use crate::event_id::EventId;
use crate::generic_event::GenericEvent;
use crate::view::{build, extract_payload, payload_of, query, wraps};

verus! {

/// The typed view of idle events: when background tasks should be performed.
pub trait IdleEvent: GenericEvent {
    /// Creates an idle event around `args`; `None` where this envelope type
    /// does not support idle events.
    fn from_idle_args(args: &IdleArgs) -> (r: Option<Self>)
        ensures
            r is Some <==> Self::supports(EventId::Idle),
            r matches Some(e) ==> wraps(e, *args),
    ;

    /// Creates an idle event with the time step whose `f64` bit pattern is
    /// `dt_bits`.
    fn from_dt(dt_bits: u64) -> (r: Option<Self>)
        ensures
            r is Some <==> Self::supports(EventId::Idle),
            r matches Some(e) ==> wraps(e, IdleArgs { dt_bits }),
    ;

    /// Calls `f` if this is an idle event that shows its payload.
    fn idle<U, F: FnOnce(&IdleArgs) -> U>(&self, f: F) -> (r: Option<U>)
        requires
            payload_of::<IdleArgs, Self>(*self) matches Some(p) ==> f.requires((&p,)),
        ensures
            payload_of::<IdleArgs, Self>(*self) is None ==> r is None,
            payload_of::<IdleArgs, Self>(*self) matches Some(p) ==> r matches Some(u) && f.ensures(
                (&p,),
                u,
            ),
    ;

    /// Returns the idle arguments.
    fn idle_args(&self) -> (r: Option<IdleArgs>)
        ensures
            r == payload_of::<IdleArgs, Self>(*self),
    ;
}

impl<T: GenericEvent> IdleEvent for T {
    fn from_idle_args(args: &IdleArgs) -> (r: Option<Self>) {
        build(args)
    }

    fn from_dt(dt_bits: u64) -> (r: Option<Self>) {
        Self::from_idle_args(&IdleArgs { dt_bits })
    }

    fn idle<U, F: FnOnce(&IdleArgs) -> U>(&self, f: F) -> (r: Option<U>) {
        query(self, f)
    }

    fn idle_args(&self) -> (r: Option<IdleArgs>) {
        extract_payload(self)
    }
}

} // verus!
