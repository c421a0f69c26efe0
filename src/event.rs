use vstd::prelude::*;

use crate::args::{AnyArgs, IdleArgs, UpdateArgs};
use crate::event_id::EventId;
use crate::generic_event::GenericEvent;

verus! {

/// The envelope of the event loop: one payload of one of the known kinds.
#[derive(Clone, Copy, Debug, PartialEq, Eq, Structural, Hash)]
pub enum Event {
    Idle(IdleArgs),
    Update(UpdateArgs),
}

impl GenericEvent for Event {
    open spec fn id_spec(&self) -> EventId {
        match self {
            Event::Idle(_) => EventId::Idle,
            Event::Update(_) => EventId::Update,
        }
    }

    open spec fn args_spec(&self) -> Option<AnyArgs> {
        match self {
            Event::Idle(a) => Some(AnyArgs::Idle(*a)),
            Event::Update(a) => Some(AnyArgs::Update(*a)),
        }
    }

    open spec fn supports(id: EventId) -> bool {
        true
    }

    fn event_id(&self) -> (r: EventId) {
        match self {
            Event::Idle(_) => EventId::Idle,
            Event::Update(_) => EventId::Update,
        }
    }

    fn with_args<U, F: FnOnce(&AnyArgs) -> U>(&self, f: F) -> (r: Option<U>) {
        let a = match self {
            Event::Idle(a) => AnyArgs::Idle(*a),
            Event::Update(a) => AnyArgs::Update(*a),
        };
        Some(f(&a))
    }

    fn from_args(id: EventId, args: &AnyArgs) -> (r: Option<Self>) {
        if args.event_id() != id {
            return None;
        }
        match args {
            AnyArgs::Idle(a) => Some(Event::Idle(*a)),
            AnyArgs::Update(a) => Some(Event::Update(*a)),
        }
    }
}

} // verus!
