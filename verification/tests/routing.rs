use bathroom_simulation::event::{new_creation_event, new_event, EventKind, SimulationError};
use bathroom_simulation::person::{person_with_id, Gender};
use bathroom_simulation::router::{new_router, Subscription};

#[test]
fn new_router_is_empty() {
    let r = new_router();
    assert!(r.outbox.is_empty());
    assert!(r.listeners.is_empty());
}

#[test]
fn subscribe_appends_to_the_list_of_the_kind() {
    let mut r = new_router();
    r.subscribe(EventKind::NewPerson, 1);
    r.subscribe(EventKind::SimulationStopped, 2);
    r.subscribe(EventKind::NewPerson, 3);
    r.subscribe(EventKind::NewPerson, 1);
    assert_eq!(r.subscribers_of(EventKind::NewPerson), vec![1, 3, 1]);
    assert_eq!(r.subscribers_of(EventKind::SimulationStopped), vec![2]);
    assert_eq!(r.subscribers_of(EventKind::NewBathroom), Vec::<u64>::new());
    assert_eq!(r.listeners[1], Subscription { kind: EventKind::SimulationStopped, channel: 2 });
}

#[test]
fn register_overwrites_the_channel_of_an_id() {
    let mut r = new_router();
    r.register(5, 10);
    r.register(6, 11);
    r.register(5, 12);
    assert_eq!(r.outbox.len(), 2);
    let e = new_event(EventKind::PersonJoinedTheQueue, 1, Some(5), None, None);
    assert_eq!(r.dispatch(&e).direct, Ok(Some(12)));
}

#[test]
fn dispatch_to_an_unknown_destination_is_reported_and_still_broadcast() {
    let mut r = new_router();
    r.subscribe(EventKind::PersonLeftTheBathroom, 4);
    r.subscribe(EventKind::PersonLeftTheBathroom, 9);
    let e = new_event(EventKind::PersonLeftTheBathroom, 1, Some(77), None, None);
    let d = r.dispatch(&e);
    assert_eq!(d.direct, Err(SimulationError::UnknownDestination));
    assert_eq!(d.broadcast, vec![4, 9]);
}

#[test]
fn dispatch_without_destination_only_broadcasts() {
    let mut r = new_router();
    r.register(1, 8);
    r.subscribe(EventKind::SimulationStopped, 4);
    let e = new_event(EventKind::SimulationStopped, 1, None, None, None);
    let d = r.dispatch(&e);
    assert_eq!(d.direct, Ok(None));
    assert_eq!(d.broadcast, vec![4]);
    let other = new_event(EventKind::SimulationFinished, 1, None, None, None);
    assert!(r.dispatch(&other).broadcast.is_empty());
}

#[test]
fn a_new_bathroom_is_registered_and_subscribed() {
    let mut r = new_router();
    r.subscribe(EventKind::NewPerson, 100);
    r.subscribe(EventKind::NewBathroom, 100);
    let e = new_creation_event(EventKind::NewBathroom, 42, None, 7, None);
    let routed = r.route(&e);
    assert_eq!(routed.registration, Ok(()));
    assert_eq!(routed.delivery.direct, Ok(None));
    assert_eq!(routed.delivery.broadcast, vec![100]);
    assert_eq!(r.subscribers_of(EventKind::NewPerson), vec![100, 7]);
    assert_eq!(r.subscribers_of(EventKind::PersonFinishedUsingBathroom), vec![7]);
    assert_eq!(r.outbox.get(&42), Some(&7));
}

#[test]
fn a_new_person_is_registered_before_the_event_goes_out() {
    let mut r = new_router();
    r.route(&new_creation_event(EventKind::NewBathroom, 42, None, 7, None));
    let p = person_with_id(5, Gender::Male);
    let e = new_creation_event(EventKind::NewPerson, 5, Some(5), 9, Some(p));
    let routed = r.route(&e);
    assert_eq!(routed.registration, Ok(()));
    assert_eq!(routed.delivery.direct, Ok(Some(9)));
    assert_eq!(routed.delivery.broadcast, vec![7]);
}

#[test]
fn an_announcement_without_channel_is_reported() {
    let mut r = new_router();
    r.subscribe(EventKind::NewPerson, 3);
    let e = new_event(EventKind::NewPerson, 5, None, None, None);
    let routed = r.route(&e);
    assert_eq!(routed.registration, Err(SimulationError::MissingChannel));
    assert_eq!(routed.delivery.broadcast, vec![3]);
    assert!(r.outbox.is_empty());
    assert_eq!(r.listeners.len(), 1);
}

#[test]
fn other_events_register_nobody() {
    let mut r = new_router();
    let e = new_creation_event(EventKind::PersonJoinedTheQueue, 5, None, 9, None);
    assert_eq!(r.enroll(&e), Ok(()));
    assert!(r.outbox.is_empty());
    assert!(r.listeners.is_empty());
}

#[test]
fn events_are_built_field_by_field() {
    let p = person_with_id(5, Gender::Female);
    let e = new_event(EventKind::PersonFinishedUsingBathroom, 5, Some(6), Some(p), None);
    assert_eq!(e.kind, EventKind::PersonFinishedUsingBathroom);
    assert_eq!((e.producer_id, e.destination_id, e.producer_sender), (5, Some(6), None));
    assert_eq!(e.person_snapshot, Some(p));
    assert!(e.bathroom_snapshot.is_none());
    let c = new_creation_event(EventKind::NewPerson, 5, None, 3, Some(p));
    assert_eq!((c.kind, c.producer_id, c.destination_id), (EventKind::NewPerson, 5, None));
    assert_eq!(c.producer_sender, Some(3));
    assert_eq!(c.person_snapshot, Some(p));
    assert!(c.bathroom_snapshot.is_none());
    let copy = c.duplicate();
    assert_eq!((copy.kind, copy.producer_id, copy.producer_sender), (EventKind::NewPerson, 5, Some(3)));
    assert_eq!(copy.person_snapshot, Some(p));
}

#[test]
fn event_kinds_have_their_names() {
    assert_eq!(EventKind::NewPerson.name(), "new_person");
    assert_eq!(EventKind::PersonJoinedTheQueue.name(), "person_joined_the_queue");
    assert_eq!(EventKind::PersonEnteredTheBathroom.name(), "person_entered_the_bathroom");
    assert_eq!(EventKind::PersonFinishedUsingBathroom.name(), "person_finished_using_bathroom");
    assert_eq!(EventKind::PersonLeftTheBathroom.name(), "person_left_the_bathroom");
    assert_eq!(EventKind::NewBathroom.name(), "new_bathroom");
    assert_eq!(EventKind::BathroomSwitchedGenders.name(), "bathroom_switched_genders");
    assert_eq!(EventKind::SimulationStopped.name(), "simulation_stopped");
    assert_eq!(EventKind::SimulationFinished.name(), "simulation_finished");
}
