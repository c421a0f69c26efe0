use std::cell::Cell;

use pistoncore_event::view::{build, extract_payload, query};
use pistoncore_event::{AnyArgs, Event, EventArgs, EventId, GenericEvent, IdleArgs, IdleEvent, UpdateArgs};

fn idle(dt: f64) -> IdleArgs {
    IdleArgs { dt_bits: dt.to_bits() }
}

#[test]
fn test_event_idle() {
    let x: Option<Event> = IdleEvent::from_idle_args(&IdleArgs { dt_bits: 1.0f64.to_bits() });
    let y: Option<Event> = x.clone().unwrap().idle(|args| IdleEvent::from_idle_args(args)).unwrap();
    assert_eq!(x, y);
}

#[test]
fn round_trip_idle_payload() {
    let p = idle(0.25);
    let e: Event = build(&p).unwrap();
    assert_eq!(extract_payload::<IdleArgs, Event>(&e), Some(p));
}

#[test]
fn round_trip_update_payload() {
    let p = UpdateArgs { dt_bits: 0.5f64.to_bits() };
    let e: Event = build(&p).unwrap();
    assert_eq!(e, Event::Update(p));
    assert_eq!(extract_payload::<UpdateArgs, Event>(&e), Some(p));
}

#[test]
fn other_kind_is_absent_and_callback_not_called() {
    let calls = Cell::new(0u32);
    let e: Event = build(&UpdateArgs { dt_bits: 3.0f64.to_bits() }).unwrap();
    let r = query::<IdleArgs, Event, u64, _>(&e, |a| {
        calls.set(calls.get() + 1);
        a.dt_bits
    });
    assert_eq!(r, None);
    assert_eq!(e.idle(|a| {
        calls.set(calls.get() + 1);
        a.dt_bits
    }), None);
    assert_eq!(e.idle_args(), None);
    assert_eq!(calls.get(), 0);
}

#[test]
fn matching_kind_calls_callback_once() {
    let calls = Cell::new(0u32);
    let e: Event = Event::from_dt(4.0f64.to_bits()).unwrap();
    let r = e.idle(|a| {
        calls.set(calls.get() + 1);
        f64::from_bits(a.dt_bits)
    });
    assert_eq!(r, Some(4.0));
    assert_eq!(calls.get(), 1);
}

#[test]
fn kind_identifier_is_stable_and_unique() {
    assert_eq!(<IdleArgs as EventArgs>::event_id(), <IdleArgs as EventArgs>::event_id());
    assert_ne!(<IdleArgs as EventArgs>::event_id(), <UpdateArgs as EventArgs>::event_id());
    let a: Event = build(&idle(1.0)).unwrap();
    let b: Event = build(&idle(7.0)).unwrap();
    assert_eq!(a.event_id(), b.event_id());
    assert_eq!(a.event_id(), EventId::Idle);
    let c: Event = build(&UpdateArgs { dt_bits: 1.0f64.to_bits() }).unwrap();
    assert_eq!(c.event_id(), EventId::Update);
}

#[test]
fn idle_scenario_from_primitive() {
    let e: Event = IdleEvent::from_dt(1.0f64.to_bits()).unwrap();
    assert_eq!(e.idle(|args| f64::from_bits(args.dt_bits)), Some(1.0));
    assert_eq!(query::<UpdateArgs, Event, f64, _>(&e, |args| f64::from_bits(args.dt_bits)), None);
}

#[test]
fn idle_scenario_chained() {
    let e: Event = IdleEvent::from_dt(2.5f64.to_bits()).unwrap();
    let p = e.idle_args().unwrap();
    assert_eq!(f64::from_bits(p.dt_bits), 2.5);
    let e2: Event = IdleEvent::from_idle_args(&p).unwrap();
    assert_eq!(e2.idle(|args| f64::from_bits(args.dt_bits)), Some(2.5));
}

#[test]
fn from_args_refuses_mismatched_kind() {
    let a = AnyArgs::Idle(idle(1.0));
    assert_eq!(Event::from_args(EventId::Update, &a), None);
    assert_eq!(Event::from_args(EventId::Idle, &a), Some(Event::Idle(idle(1.0))));
}

#[test]
fn erase_and_downcast() {
    let p = idle(1.5);
    let a = p.erase();
    assert_eq!(a, AnyArgs::Idle(p));
    assert_eq!(a.event_id(), EventId::Idle);
    assert_eq!(IdleArgs::downcast(&a), Some(p));
    assert_eq!(UpdateArgs::downcast(&a), None);
}

#[test]
fn with_args_shows_erased_payload() {
    let e = Event::Update(UpdateArgs { dt_bits: 9 });
    assert_eq!(e.with_args(|a| *a), Some(AnyArgs::Update(UpdateArgs { dt_bits: 9 })));
}
