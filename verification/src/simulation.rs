//! What each participant does with an event: the decisions of the
//! bathroom, of a person and of the collector, one step at a time. The
//! caller receives the events, hands them in with the current time, and
//! sends out what comes back.

use vstd::prelude::*;
use crate::bathroom::{
    elapsed_since, lemma_occupied_bounded, lemma_turn_passes_to_waiting_gender, occupied,
    Bathroom, BathroomView,
};
use crate::event::{new_creation_event, new_event, Event, EventKind, EventView, SimulationError};
use crate::metrics_collector::MetricsCollector;
use crate::outside::{draw_between, fresh_id, is_random_id};
use crate::person::{new_person, unqueued_person, Gender, Person};

verus! {

/// What an event that may be absent holds, as mathematical values.
pub open spec fn event_view(e: Option<Event>) -> Option<EventView> {
    match e {
        Some(e) => Some(e@),
        None => None,
    }
}

/// The event by which the bathroom reports that the turn has passed. It
/// carries the bathroom as it was before.
pub open spec fn switched_event(before: BathroomView) -> EventView {
    EventView {
        kind: EventKind::BathroomSwitchedGenders,
        producer_id: before.id,
        destination_id: None,
        producer_sender: None,
        person_snapshot: None,
        bathroom_snapshot: Some(before),
    }
}

/// An event of the bathroom `after` about `person`, sent to `receiver`.
pub open spec fn bathroom_event(
    kind: EventKind,
    after: BathroomView,
    person: Person,
    receiver: u128,
) -> EventView {
    EventView {
        kind,
        producer_id: after.id,
        destination_id: Some(receiver),
        producer_sender: None,
        person_snapshot: Some(person),
        bathroom_snapshot: Some(after),
    }
}

/// `p` with the time of leaving recorded.
pub open spec fn stamped_left(p: Person, now: u64) -> Person {
    Person { left_bathroom_at: Some(now), ..p }
}

/// What one turn of the bathroom's loop sends out.
#[derive(Debug)]
pub struct Tick {
    /// Where the turn passed: the report of it.
    pub switched: Option<Event>,
    /// Where someone was let in: the word to them.
    pub entered: Option<Event>,
}

/// One turn of the bathroom's loop at `now`: the policy is evaluated, and
/// the head of the allowed gender's queue is let in if they may enter.
/// The turn's passing is reported with the bathroom as it was before; the
/// person let in is told so, with the bathroom as it is after.
pub fn bathroom_tick(bathroom: &mut Bathroom, now: u64) -> (tick: Tick)
    requires
        old(bathroom)@.wf(),
    ensures
        final(bathroom)@ == old(bathroom)@.after_policy().after_allocate(
            old(bathroom)@.after_policy().allowed_gender,
            now,
        ),
        event_view(tick.switched) == if old(bathroom)@.switch_due() {
            Some(switched_event(old(bathroom)@))
        } else {
            None
        },
        event_view(tick.entered) == if old(bathroom)@.after_policy().may_admit(
            old(bathroom)@.after_policy().allowed_gender,
            now,
        ) {
            Some(
                bathroom_event(
                    EventKind::PersonEnteredTheBathroom,
                    final(bathroom)@,
                    old(bathroom)@.after_policy().admitted(
                        old(bathroom)@.after_policy().allowed_gender,
                        now,
                    ),
                    old(bathroom)@.after_policy().admitted(
                        old(bathroom)@.after_policy().allowed_gender,
                        now,
                    ).id,
                ),
            )
        } else {
            None
        },
        final(bathroom)@.wf(),
        old(bathroom)@.ids_unique() ==> final(bathroom)@.ids_unique(),
        occupied(final(bathroom)@.cabins) <= final(bathroom)@.capacity() == old(
            bathroom,
        )@.capacity(),
        old(bathroom)@.only_others_wait() && old(bathroom)@.capacity() > 0
            && old(bathroom)@.max_use_time > 0 ==> tick.entered is Some
            && tick.entered.unwrap().person_snapshot is Some
            && tick.entered.unwrap().person_snapshot.unwrap().gender
            == old(bathroom)@.allowed_gender.other(),
        old(bathroom)@.only_allowed_inside() ==> final(bathroom)@.only_allowed_inside(),
{
    proof {
        if old(bathroom)@.only_others_wait() && old(bathroom)@.capacity() > 0
            && old(bathroom)@.max_use_time > 0 {
            lemma_turn_passes_to_waiting_gender(old(bathroom)@, now);
        }
    }
    let previous: Bathroom = bathroom.snapshot();
    let switched: Option<Event> = if bathroom.apply_policy() {
        Some(new_event(EventKind::BathroomSwitchedGenders, bathroom.id, None, None, Some(previous)))
    } else {
        None
    };
    let allowed: Gender = bathroom.allowed_gender;
    let entered: Option<Event> = match bathroom.allocate_cabin(allowed, now) {
        Some(person) => Some(
            new_event(
                EventKind::PersonEnteredTheBathroom,
                bathroom.id,
                Some(person.id),
                Some(person),
                Some(bathroom.snapshot()),
            ),
        ),
        None => None,
    };
    Tick { switched, entered }
}

/// What the bathroom makes of an event at `now`: the bathroom after it
/// and the reply, or the fault by which the event is dropped.
///
/// A new person joins the queue of their gender and is told so. Someone
/// who has finished leaves their cabin and is told so; if they occupy no
/// cabin the bathroom's books are at odds with the event. Each reply goes
/// to the event's producer and carries the person with the time recorded
/// and the bathroom as it is after.
pub open spec fn bathroom_reaction(s: BathroomView, e: EventView, now: u64) -> Result<
    (BathroomView, EventView),
    SimulationError,
> {
    match e.kind {
        EventKind::NewPerson => match e.person_snapshot {
            Some(p) => Ok(
                (
                    s.after_enqueue(p, now),
                    bathroom_event(
                        EventKind::PersonJoinedTheQueue,
                        s.after_enqueue(p, now),
                        BathroomView::stamped_joined(p, now),
                        e.producer_id,
                    ),
                ),
            ),
            None => Err(SimulationError::MissingSnapshot),
        },
        EventKind::PersonFinishedUsingBathroom => match e.person_snapshot {
            Some(p) => if s.occupies(p.id) {
                Ok(
                    (
                        s.after_free(p.id),
                        bathroom_event(
                            EventKind::PersonLeftTheBathroom,
                            s.after_free(p.id),
                            stamped_left(p, now),
                            e.producer_id,
                        ),
                    ),
                )
            } else {
                Err(SimulationError::InvariantViolation)
            },
            None => Err(SimulationError::MissingSnapshot),
        },
        _ => Err(SimulationError::UnexpectedEvent),
    }
}

/// The event brings a new person whose identifier already stands in a
/// queue or in a cabin.
pub open spec fn brings_known_id(s: BathroomView, e: EventView) -> bool {
    &&& e.kind == EventKind::NewPerson
    &&& e.person_snapshot matches Some(p)
    &&& s.queued(p.id) || s.occupies(p.id)
}

/// Lets the bathroom react to `event` at `now`. Where the event is in
/// order the bathroom changes as `bathroom_reaction` says and the reply
/// is returned; else the bathroom stays as it is and the fault is
/// returned.
pub fn bathroom_handle(bathroom: &mut Bathroom, event: &Event, now: u64) -> (reply: Result<
    Event,
    SimulationError,
>)
    ensures
        old(bathroom)@.wf() ==> final(bathroom)@.wf(),
        occupied(final(bathroom)@.cabins) <= final(bathroom)@.capacity() == old(
            bathroom,
        )@.capacity(),
        match bathroom_reaction(old(bathroom)@, event@, now) {
            Ok((after, answer)) => final(bathroom)@ == after && reply is Ok && reply.unwrap()@
                == answer,
            Err(fault) => final(bathroom)@ == old(bathroom)@ && reply is Err && reply.unwrap_err()
                == fault,
        },
        old(bathroom)@.ids_unique() && !brings_known_id(old(bathroom)@, event@)
            ==> final(bathroom)@.ids_unique(),
        old(bathroom)@.only_allowed_inside() ==> final(bathroom)@.only_allowed_inside(),
{
    proof {
        lemma_occupied_bounded(bathroom@.cabins);
    }
    match event.kind {
        EventKind::NewPerson => match event.person_snapshot {
            Some(p) => {
                bathroom.enqueue(p, now);
                let mut joined: Person = p;
                joined.joined_queue_at = Some(now);
                Ok(
                    new_event(
                        EventKind::PersonJoinedTheQueue,
                        bathroom.id,
                        Some(event.producer_id),
                        Some(joined),
                        Some(bathroom.snapshot()),
                    ),
                )
            },
            None => Err(SimulationError::MissingSnapshot),
        },
        EventKind::PersonFinishedUsingBathroom => match event.person_snapshot {
            Some(p) => {
                if !bathroom.holds(p.id) {
                    return Err(SimulationError::InvariantViolation);
                }
                bathroom.free_cabin(p.id);
                let mut left: Person = p;
                left.left_bathroom_at = Some(now);
                Ok(
                    new_event(
                        EventKind::PersonLeftTheBathroom,
                        bathroom.id,
                        Some(event.producer_id),
                        Some(left),
                        Some(bathroom.snapshot()),
                    ),
                )
            },
            None => Err(SimulationError::MissingSnapshot),
        },
        _ => Err(SimulationError::UnexpectedEvent),
    }
}

/// Where a person stands in their life.
#[derive(Copy, Clone, Debug, PartialEq, Eq, Structural)]
pub enum AgentState {
    Unregistered,
    Queued,
    InResource,
    Done,
}

/// What a person does next.
#[derive(Copy, Clone, Debug, PartialEq, Eq, Structural)]
pub enum AgentAction {
    /// Go on listening.
    Wait,
    /// Stay in the cabin for so many seconds, then report to have finished.
    HoldThenFinish { seconds: u64 },
    /// Stop listening: the person has left.
    Stop,
}

/// A person together with where they stand in their life.
#[derive(Copy, Clone, Debug, PartialEq, Eq, Structural)]
pub struct Agent {
    pub person: Person,
    pub state: AgentState,
}

/// What a person makes of an event: the person after it and what they do
/// next, or the fault by which the event is dropped. `drawn` is the time
/// for which they stay in the cabin if the event lets them in.
///
/// From each event that concerns them the person copies the time that the
/// event's snapshot records for the step.
pub open spec fn agent_reaction(a: Agent, e: EventView, drawn: u64) -> Result<
    (Agent, AgentAction),
    SimulationError,
> {
    match e.kind {
        EventKind::PersonJoinedTheQueue => match e.person_snapshot {
            Some(s) => Ok(
                (
                    Agent {
                        person: Person { joined_queue_at: s.joined_queue_at, ..a.person },
                        state: AgentState::Queued,
                    },
                    AgentAction::Wait,
                ),
            ),
            None => Err(SimulationError::MissingSnapshot),
        },
        EventKind::PersonEnteredTheBathroom => match e.person_snapshot {
            Some(s) => Ok(
                (
                    Agent {
                        person: Person { entered_bathroom_at: s.entered_bathroom_at, ..a.person },
                        state: AgentState::InResource,
                    },
                    AgentAction::HoldThenFinish { seconds: drawn },
                ),
            ),
            None => Err(SimulationError::MissingSnapshot),
        },
        EventKind::PersonLeftTheBathroom => match e.person_snapshot {
            Some(s) => Ok(
                (
                    Agent {
                        person: Person { left_bathroom_at: s.left_bathroom_at, ..a.person },
                        state: AgentState::Done,
                    },
                    AgentAction::Stop,
                ),
            ),
            None => Err(SimulationError::MissingSnapshot),
        },
        _ => Err(SimulationError::UnexpectedEvent),
    }
}

/// `outcome` and the agent `after` are what `agent_reaction` gives for
/// the agent `before`.
pub open spec fn agent_reacted(
    before: Agent,
    e: EventView,
    drawn: u64,
    after: Agent,
    outcome: Result<AgentAction, SimulationError>,
) -> bool {
    match agent_reaction(before, e, drawn) {
        Ok((agent, action)) => after == agent && outcome == Ok::<AgentAction, SimulationError>(
            action,
        ),
        Err(fault) => after == before && outcome == Err::<AgentAction, SimulationError>(fault),
    }
}

impl Agent {
    /// An agent for `person` that nobody knows of yet.
    pub fn new(person: Person) -> (a: Agent)
        ensures
            a == (Agent { person, state: AgentState::Unregistered }),
    {
        Agent { person, state: AgentState::Unregistered }
    }

    /// Announces the agent: returns the event that carries the person and
    /// the handle of the channel on which they listen. The agent counts as
    /// queued from then on.
    pub fn announce(&mut self, channel: u64) -> (e: Event)
        ensures
            *final(self) == (Agent { state: AgentState::Queued, ..*old(self) }),
            e@ == (EventView {
                kind: EventKind::NewPerson,
                producer_id: old(self).person.id,
                destination_id: None,
                producer_sender: Some(channel),
                person_snapshot: Some(old(self).person),
                bathroom_snapshot: None,
            }),
    {
        self.state = AgentState::Queued;
        new_creation_event(
            EventKind::NewPerson,
            self.person.id,
            None,
            channel,
            Some(self.person),
        )
    }

    /// The event by which the person reports to have finished.
    pub fn finished_event(&self) -> (e: Event)
        ensures
            e@ == (EventView {
                kind: EventKind::PersonFinishedUsingBathroom,
                producer_id: self.person.id,
                destination_id: None,
                producer_sender: None,
                person_snapshot: Some(self.person),
                bathroom_snapshot: None,
            }),
    {
        new_event(
            EventKind::PersonFinishedUsingBathroom,
            self.person.id,
            None,
            Some(self.person),
            None,
        )
    }

    /// Lets the agent react to `event`, with `drawn` as the time for which
    /// they stay in the cabin if the event lets them in. Where the event
    /// is in order the agent changes as `agent_reaction` says and what
    /// they do next is returned; else the agent stays as it is and the
    /// fault is returned.
    pub fn react(&mut self, event: &Event, drawn: u64) -> (outcome: Result<
        AgentAction,
        SimulationError,
    >)
        ensures
            agent_reacted(*old(self), event@, drawn, *final(self), outcome),
    {
        match event.kind {
            EventKind::PersonJoinedTheQueue => match event.person_snapshot {
                Some(s) => {
                    self.person.joined_queue_at = s.joined_queue_at;
                    self.state = AgentState::Queued;
                    Ok(AgentAction::Wait)
                },
                None => Err(SimulationError::MissingSnapshot),
            },
            EventKind::PersonEnteredTheBathroom => match event.person_snapshot {
                Some(s) => {
                    self.person.entered_bathroom_at = s.entered_bathroom_at;
                    self.state = AgentState::InResource;
                    Ok(AgentAction::HoldThenFinish { seconds: drawn })
                },
                None => Err(SimulationError::MissingSnapshot),
            },
            EventKind::PersonLeftTheBathroom => match event.person_snapshot {
                Some(s) => {
                    self.person.left_bathroom_at = s.left_bathroom_at;
                    self.state = AgentState::Done;
                    Ok(AgentAction::Stop)
                },
                None => Err(SimulationError::MissingSnapshot),
            },
            _ => Err(SimulationError::UnexpectedEvent),
        }
    }

    /// Lets the agent react to `event`. Where the event lets them in, the
    /// time for which they stay in the cabin is drawn at random between
    /// `min_hold` and `max_hold` seconds, both included; whatever is
    /// drawn, the outcome is that of `react` with some time in that range.
    pub fn handle(&mut self, event: &Event, min_hold: u64, max_hold: u64) -> (outcome: Result<
        AgentAction,
        SimulationError,
    >)
        requires
            min_hold <= max_hold,
        ensures
            exists|drawn: u64|
                min_hold <= drawn <= max_hold && #[trigger] agent_reacted(
                    *old(self),
                    event@,
                    drawn,
                    *final(self),
                    outcome,
                ),
    {
        let drawn: u64 = match event.kind {
            EventKind::PersonEnteredTheBathroom => draw_between(min_hold, max_hold),
            _ => min_hold,
        };
        self.react(event, drawn)
    }
}

/// A new person of gender `g` under a random identifier, announced: the
/// agent, queued, and the event that carries the person and the handle of
/// the channel on which they listen.
pub fn spawn_person(g: Gender, channel: u64) -> (spawned: (Agent, Event))
    ensures
        is_random_id(spawned.0.person.id),
        spawned.0 == (Agent {
            person: unqueued_person(spawned.0.person.id, g),
            state: AgentState::Queued,
        }),
        spawned.1@ == (EventView {
            kind: EventKind::NewPerson,
            producer_id: spawned.0.person.id,
            destination_id: None,
            producer_sender: Some(channel),
            person_snapshot: Some(spawned.0.person),
            bathroom_snapshot: None,
        }),
{
    let mut agent: Agent = Agent::new(new_person(g));
    let event: Event = agent.announce(channel);
    (agent, event)
}

/// The event by which a bathroom announces itself, with the handle of the
/// channel on which it listens.
pub fn announce_bathroom(bathroom: &Bathroom, channel: u64) -> (e: Event)
    ensures
        e@ == (EventView {
            kind: EventKind::NewBathroom,
            producer_id: bathroom.id,
            destination_id: None,
            producer_sender: Some(channel),
            person_snapshot: None,
            bathroom_snapshot: None,
        }),
{
    new_creation_event(EventKind::NewBathroom, bathroom.id, None, channel, None)
}

/// An event of kind `kind` from a producer that is drawn at random, with
/// no receiver and no snapshot: the form of the events that stop the
/// simulation and report that it has finished.
pub fn signal_event(kind: EventKind) -> (e: Event)
    ensures
        is_random_id(e.producer_id),
        e@ == (EventView {
            kind,
            producer_id: e.producer_id,
            destination_id: None,
            producer_sender: None,
            person_snapshot: None,
            bathroom_snapshot: None,
        }),
{
    new_event(kind, fresh_id(), None, None, None)
}

/// What the collector has to do about an event.
#[derive(Copy, Clone, Debug, PartialEq, Eq, Structural)]
pub enum MetricsAction {
    /// Nothing was to be recorded.
    Ignored,
    /// A sample was recorded.
    Recorded,
    /// The simulation has stopped and the statistics are final: the
    /// report is to be written and the end announced.
    Finished,
}

/// The person's snapshot records both the time of joining and the time of
/// leaving.
pub open spec fn has_total_time(p: Option<Person>) -> bool {
    p matches Some(person) && person.joined_queue_at is Some && person.left_bathroom_at is Some
}

/// Lets the collector react to `event` at `now`.
///
/// A switch is recorded from the bathroom as it was before, unless it went
/// unused. Someone's leaving is recorded by the time they spent in all.
/// When the simulation stops, every statistic is brought up to date.
/// Events of other kinds are ignored. An event without the snapshot that
/// its kind calls for is dropped with a fault, and nothing changes.
pub fn metrics_handle(collector: &mut MetricsCollector, event: &Event, now: u64) -> (outcome:
    Result<MetricsAction, SimulationError>)
    requires
        old(collector).wf(),
        event.kind == EventKind::BathroomSwitchedGenders ==> old(collector).gender_switches
            < u64::MAX,
    ensures
        final(collector).wf(),
        match event.kind {
            EventKind::BathroomSwitchedGenders => match event.bathroom_snapshot {
                Some(before) => if before.first_user_entered_at is Some {
                    &&& outcome == Ok::<MetricsAction, SimulationError>(MetricsAction::Recorded)
                    &&& final(collector).after_switch(
                        old(collector),
                        before.allowed_gender,
                        elapsed_since(before.first_user_entered_at, now),
                        before@.queue(before.allowed_gender).len() as u64,
                    )
                } else {
                    &&& outcome == Ok::<MetricsAction, SimulationError>(MetricsAction::Ignored)
                    &&& *final(collector) == *old(collector)
                },
                None => {
                    &&& outcome == Err::<MetricsAction, SimulationError>(
                        SimulationError::MissingSnapshot,
                    )
                    &&& *final(collector) == *old(collector)
                },
            },
            EventKind::PersonLeftTheBathroom => if has_total_time(event.person_snapshot) {
                &&& outcome == Ok::<MetricsAction, SimulationError>(MetricsAction::Recorded)
                &&& final(collector).after_departure(
                    old(collector),
                    event.person_snapshot.unwrap().gender,
                    elapsed_since(
                        event.person_snapshot.unwrap().joined_queue_at,
                        event.person_snapshot.unwrap().left_bathroom_at.unwrap(),
                    ),
                )
            } else {
                &&& outcome == Err::<MetricsAction, SimulationError>(
                    SimulationError::MissingSnapshot,
                )
                &&& *final(collector) == *old(collector)
            },
            EventKind::SimulationStopped => {
                &&& outcome == Ok::<MetricsAction, SimulationError>(MetricsAction::Finished)
                &&& final(collector).up_to_date()
                &&& final(collector).same_samples(old(collector))
            },
            _ => {
                &&& outcome == Ok::<MetricsAction, SimulationError>(MetricsAction::Ignored)
                &&& *final(collector) == *old(collector)
            },
        },
{
    match event.kind {
        EventKind::BathroomSwitchedGenders => match &event.bathroom_snapshot {
            Some(before) => {
                if collector.record_switch(before, now) {
                    Ok(MetricsAction::Recorded)
                } else {
                    Ok(MetricsAction::Ignored)
                }
            },
            None => Err(SimulationError::MissingSnapshot),
        },
        EventKind::PersonLeftTheBathroom => match event.person_snapshot {
            Some(person) => {
                if person.joined_queue_at.is_some() && person.left_bathroom_at.is_some() {
                    collector.record_departure(&person);
                    Ok(MetricsAction::Recorded)
                } else {
                    Err(SimulationError::MissingSnapshot)
                }
            },
            None => Err(SimulationError::MissingSnapshot),
        },
        EventKind::SimulationStopped => {
            collector.update_statistics();
            Ok(MetricsAction::Finished)
        },
        _ => Ok(MetricsAction::Ignored),
    }
}

} // verus!
