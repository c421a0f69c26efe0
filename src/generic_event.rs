use vstd::prelude::*;

use crate::args::AnyArgs;
use crate::event_id::EventId;

verus! {

/// A kind-erased event envelope.
///
/// It reports the kind of its payload and shows the payload only, type
/// erased, to a callback. Implementations promise that a payload they show
/// is of the kind they report.
pub trait GenericEvent: Sized {
    /// The kind that this envelope reports.
    spec fn id_spec(&self) -> EventId;

    /// The payload that this envelope shows to a callback; `None` where it
    /// declines to show one.
    spec fn args_spec(&self) -> Option<AnyArgs>;

    /// Whether `from_args` makes envelopes of kind `id`.
    spec fn supports(id: EventId) -> bool;

    /// Returns the kind of the payload held.
    fn event_id(&self) -> (r: EventId)
        ensures
            r == self.id_spec(),
    ;

    /// Calls `f` on the erased payload, if this envelope shows one.
    fn with_args<U, F: FnOnce(&AnyArgs) -> U>(&self, f: F) -> (r: Option<U>)
        requires
            self.args_spec() matches Some(a) ==> f.requires((&a,)),
        ensures
            self.args_spec() is None ==> r is None,
            self.args_spec() matches Some(a) ==> {
                &&& a.id() == self.id_spec()
                &&& r matches Some(u) && f.ensures((&a,), u)
            },
    ;

    /// Makes an envelope of kind `id` around `args`, if this envelope type
    /// supports that kind and `args` is of it.
    fn from_args(id: EventId, args: &AnyArgs) -> (r: Option<Self>)
        ensures
            r is Some <==> (Self::supports(id) && args.id() == id),
            r matches Some(e) ==> e.id_spec() == id && e.args_spec() == Some(*args),
    ;
}

} // verus!
