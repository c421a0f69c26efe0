//! Typed views over a kind-erased event envelope.
//!
//! An envelope ([`GenericEvent`]) carries one payload of one kind and shows
//! only its kind identifier and, through a callback, an erased payload.
//! A typed view (the functions of [`view`], and [`IdleEvent`] for idle
//! events) builds envelopes from typed payloads and recovers the typed payload
//! from an envelope when, and only when, the kinds agree.
pub mod args;
pub mod event;
pub mod event_id;
pub mod generic_event;
pub mod idle;
pub mod view;

pub use args::{AnyArgs, EventArgs, IdleArgs, UpdateArgs};
pub use event::Event;
pub use event_id::EventId;
pub use generic_event::GenericEvent;
pub use idle::IdleEvent;
