//! The events that the participants send each other.

use vstd::prelude::*;
use crate::bathroom::{Bathroom, BathroomView};
use crate::person::Person;

verus! {

/// What an event reports.
#[derive(Copy, Clone, Debug, PartialEq, Eq, Structural)]
pub enum EventKind {
    NewPerson,
    PersonJoinedTheQueue,
    PersonEnteredTheBathroom,
    PersonFinishedUsingBathroom,
    PersonLeftTheBathroom,
    NewBathroom,
    BathroomSwitchedGenders,
    SimulationStopped,
    SimulationFinished,
}

impl EventKind {
    /// The name under which the kind is written out.
    pub open spec fn spec_name(self) -> Seq<char> {
        match self {
            EventKind::NewPerson => "new_person"@,
            EventKind::PersonJoinedTheQueue => "person_joined_the_queue"@,
            EventKind::PersonEnteredTheBathroom => "person_entered_the_bathroom"@,
            EventKind::PersonFinishedUsingBathroom => "person_finished_using_bathroom"@,
            EventKind::PersonLeftTheBathroom => "person_left_the_bathroom"@,
            EventKind::NewBathroom => "new_bathroom"@,
            EventKind::BathroomSwitchedGenders => "bathroom_switched_genders"@,
            EventKind::SimulationStopped => "simulation_stopped"@,
            EventKind::SimulationFinished => "simulation_finished"@,
        }
    }

    /// The name under which the kind is written out.
    pub fn name(self) -> (text: &'static str)
        ensures
            text@ == self.spec_name(),
    {
        match self {
            EventKind::NewPerson => "new_person",
            EventKind::PersonJoinedTheQueue => "person_joined_the_queue",
            EventKind::PersonEnteredTheBathroom => "person_entered_the_bathroom",
            EventKind::PersonFinishedUsingBathroom => "person_finished_using_bathroom",
            EventKind::PersonLeftTheBathroom => "person_left_the_bathroom",
            EventKind::NewBathroom => "new_bathroom",
            EventKind::BathroomSwitchedGenders => "bathroom_switched_genders",
            EventKind::SimulationStopped => "simulation_stopped",
            EventKind::SimulationFinished => "simulation_finished",
        }
    }
}

/// Why an event could not be handled as it asks. None of these stops the
/// participant that meets it: the event is dropped and the fault reported.
#[derive(Copy, Clone, Debug, PartialEq, Eq, Structural)]
pub enum SimulationError {
    /// The event names a receiver that never registered.
    UnknownDestination,
    /// The event announces a participant but carries no channel.
    MissingChannel,
    /// The event lacks the snapshot, or the time in it, that its kind
    /// calls for.
    MissingSnapshot,
    /// The receiver has no use for events of this kind.
    UnexpectedEvent,
    /// The event is at odds with the bathroom's books: someone is said to
    /// leave a cabin that they do not occupy.
    InvariantViolation,
}

/// One message. `destination_id` names the single receiver, where there is
/// one; every event also goes to whoever subscribed to its kind.
/// `producer_sender` is the handle of the channel on which the producer
/// listens, present on the events by which a participant announces itself.
#[derive(Clone, Debug)]
pub struct Event {
    pub kind: EventKind,
    pub producer_id: u128,
    pub destination_id: Option<u128>,
    pub producer_sender: Option<u64>,
    pub person_snapshot: Option<Person>,
    pub bathroom_snapshot: Option<Bathroom>,
}

/// What an event holds, as mathematical values.
pub struct EventView {
    pub kind: EventKind,
    pub producer_id: u128,
    pub destination_id: Option<u128>,
    pub producer_sender: Option<u64>,
    pub person_snapshot: Option<Person>,
    pub bathroom_snapshot: Option<BathroomView>,
}

/// The bathroom of a snapshot as mathematical values.
pub open spec fn snapshot_view(snapshot: Option<Bathroom>) -> Option<BathroomView> {
    match snapshot {
        Some(b) => Some(b@),
        None => None,
    }
}

impl View for Event {
    type V = EventView;

    open spec fn view(&self) -> EventView {
        EventView {
            kind: self.kind,
            producer_id: self.producer_id,
            destination_id: self.destination_id,
            producer_sender: self.producer_sender,
            person_snapshot: self.person_snapshot,
            bathroom_snapshot: snapshot_view(self.bathroom_snapshot),
        }
    }
}

impl Event {
    /// An independent copy of the event.
    pub fn duplicate(&self) -> (copy: Event)
        ensures
            copy@ == self@,
    {
        let bathroom_snapshot: Option<Bathroom> = match &self.bathroom_snapshot {
            Some(b) => Some(b.snapshot()),
            None => None,
        };
        Event {
            kind: self.kind,
            producer_id: self.producer_id,
            destination_id: self.destination_id,
            producer_sender: self.producer_sender,
            person_snapshot: self.person_snapshot,
            bathroom_snapshot,
        }
    }
}

/// An event without a channel handle.
pub fn new_event(
    kind: EventKind,
    producer_id: u128,
    destination_id: Option<u128>,
    person: Option<Person>,
    bathroom: Option<Bathroom>,
) -> (e: Event)
    ensures
        e.kind == kind,
        e.producer_id == producer_id,
        e.destination_id == destination_id,
        e.producer_sender == None::<u64>,
        e.person_snapshot == person,
        e.bathroom_snapshot == bathroom,
{
    Event {
        kind,
        producer_id,
        destination_id,
        producer_sender: None,
        person_snapshot: person,
        bathroom_snapshot: bathroom,
    }
}

/// The event by which a participant announces itself: it carries the
/// handle of the channel on which the producer listens, and no bathroom.
pub fn new_creation_event(
    kind: EventKind,
    producer_id: u128,
    destination_id: Option<u128>,
    producer_sender: u64,
    person: Option<Person>,
) -> (e: Event)
    ensures
        e.kind == kind,
        e.producer_id == producer_id,
        e.destination_id == destination_id,
        e.producer_sender == Some(producer_sender),
        e.person_snapshot == person,
        e.bathroom_snapshot == None::<Bathroom>,
{
    Event {
        kind,
        producer_id,
        destination_id,
        producer_sender: Some(producer_sender),
        person_snapshot: person,
        bathroom_snapshot: None,
    }
}

} // verus!
