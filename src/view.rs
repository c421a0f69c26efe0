use vstd::prelude::*;

use crate::args::{AnyArgs, EventArgs};
use crate::generic_event::GenericEvent;

verus! {

/// The payload of type `P` that a typed view recovers from `e`: present only
/// where `e` reports the kind of `P` and shows a payload of that type.
pub open spec fn payload_of<P: EventArgs, E: GenericEvent>(e: E) -> Option<P> {
    if e.id_spec() != P::kind() {
        None
    } else {
        match e.args_spec() {
            Some(a) => P::from_any(a),
            None => None,
        }
    }
}

/// `e` reports the kind of `P` and shows `p`.
pub open spec fn wraps<P: EventArgs, E: GenericEvent>(e: E, p: P) -> bool {
    &&& e.id_spec() == P::kind()
    &&& e.args_spec() == Some(p.to_any())
}

/// Builds an envelope of type `E` around `args`.
///
/// Returns `None` exactly where `E` does not support the kind of `P`.
pub fn build<P: EventArgs, E: GenericEvent>(args: &P) -> (r: Option<E>)
    ensures
        r is Some <==> E::supports(P::kind()),
        r matches Some(e) ==> wraps(e, *args),
{
    let id = P::event_id();
    let any = args.erase();
    proof {
        args.lemma_erase();
    }
    E::from_args(id, &any)
}

/// Calls `f` on the payload of type `P` in `e`, if `e` is of that kind and
/// shows its payload; returns what `f` returned.
///
/// `f` is not called where `e` is of another kind.
pub fn query<P: EventArgs, E: GenericEvent, U, F: FnOnce(&P) -> U>(e: &E, f: F) -> (r: Option<U>)
    requires
        payload_of::<P, E>(*e) matches Some(p) ==> f.requires((&p,)),
    ensures
        payload_of::<P, E>(*e) is None ==> r is None,
        payload_of::<P, E>(*e) matches Some(p) ==> r matches Some(u) && f.ensures((&p,), u),
{
    let id = P::event_id();
    if e.event_id() != id {
        return None;
    }
    let ghost shown = e.args_spec();
    let g = move |a: &AnyArgs| -> (o: Option<U>)
        requires
            P::from_any(*a) matches Some(p) ==> f.requires((&p,)),
        ensures
            P::from_any(*a) is None ==> o is None,
            P::from_any(*a) matches Some(p) ==> o matches Some(u) && f.ensures((&p,), u),
        {
            match P::downcast(a) {
                Some(p) => Some(f(&p)),
                None => None,
            }
        };
    let r = e.with_args(g);
    proof {
        if let Some(a) = shown {
            P::lemma_recover(a);
        }
    }
    match r {
        Some(Some(u)) => Some(u),
        _ => None,
    }
}

/// Returns a copy of the payload of type `P` in `e`, on the same terms as
/// [`query`].
pub fn extract_payload<P: EventArgs, E: GenericEvent>(e: &E) -> (r: Option<P>)
    ensures
        r == payload_of::<P, E>(*e),
{
    query(e, |p: &P| -> (c: P)
        ensures
            c == *p,
        { *p })
}

/// Round trip: an envelope that `build` made around `p` gives `p` back to a
/// view of the same payload type.
pub proof fn lemma_round_trip<P: EventArgs, E: GenericEvent>(e: E, p: P)
    requires
        wraps(e, p),
    ensures
        payload_of::<P, E>(e) == Some(p),
{
    p.lemma_erase();
}

/// An envelope built around a payload of one kind gives nothing to a view of
/// another kind.
pub proof fn lemma_other_kind_absent<P: EventArgs, Q: EventArgs, E: GenericEvent>(e: E, p: P)
    requires
        wraps(e, p),
        P::kind() != Q::kind(),
    ensures
        payload_of::<Q, E>(e) is None,
{
}

/// An envelope that declines to show its payload gives nothing to any view,
/// whatever kind it reports.
pub proof fn lemma_decline_absent<P: EventArgs, E: GenericEvent>(e: E)
    requires
        e.args_spec() is None,
    ensures
        payload_of::<P, E>(e) is None,
{
}

/// Two envelopes built around payloads of the same type report the same kind.
pub proof fn lemma_kind_stable<P: EventArgs, E: GenericEvent>(e1: E, p1: P, e2: E, p2: P)
    requires
        wraps(e1, p1),
        wraps(e2, p2),
    ensures
        e1.id_spec() == e2.id_spec(),
{
}

} // verus!
