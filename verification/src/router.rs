//! The router: the one place through which every event passes.

use std::collections::HashMap;
use vstd::prelude::*;
use vstd::std_specs::hash::group_hash_axioms;
use crate::event::{Event, EventKind, SimulationError};

verus! {

broadcast use group_hash_axioms;

/// One entry of the broadcast list: the channel receives every event of
/// the kind.
#[derive(Copy, Clone, Debug, PartialEq, Eq, Structural)]
pub struct Subscription {
    pub kind: EventKind,
    pub channel: u64,
}

/// The channels of `listeners` that subscribed to `kind`, in the order in
/// which they subscribed.
pub open spec fn subscribers(listeners: Seq<Subscription>, kind: EventKind) -> Seq<u64>
    decreases listeners.len(),
{
    if listeners.len() == 0 {
        Seq::empty()
    } else if listeners.last().kind == kind {
        subscribers(listeners.drop_last(), kind).push(listeners.last().channel)
    } else {
        subscribers(listeners.drop_last(), kind)
    }
}

/// The channel to which an event for `destination` goes: none where the
/// event names no receiver, an error where the receiver is not registered.
pub open spec fn direct_target(
    outbox: Map<u128, u64>,
    destination: Option<u128>,
) -> Result<Option<u64>, SimulationError> {
    match destination {
        None => Ok(None),
        Some(id) => if outbox.contains_key(id) {
            Ok(Some(outbox[id]))
        } else {
            Err(SimulationError::UnknownDestination)
        },
    }
}

/// The bathroom hears of these kinds.
pub open spec fn interests_bathroom(kind: EventKind) -> bool {
    kind == EventKind::NewPerson || kind == EventKind::PersonFinishedUsingBathroom
}

/// Where one event has to be sent.
#[derive(Debug)]
pub struct Delivery {
    /// The single receiver's channel, where the event names a receiver.
    pub direct: Result<Option<u64>, SimulationError>,
    /// The channels that subscribed to the event's kind.
    pub broadcast: Vec<u64>,
}

/// What the router did with one event.
#[derive(Debug)]
pub struct Routed {
    /// Whether the participant that the event announces was taken in.
    pub registration: Result<(), SimulationError>,
    pub delivery: Delivery,
}

/// The registry of the participants' channels. `outbox` holds the channel
/// of each registered participant, `listeners` the subscriptions in the
/// order in which they were made.
#[derive(Debug)]
pub struct Router {
    pub outbox: HashMap<u128, u64>,
    pub listeners: Vec<Subscription>,
}

/// What a router holds, as mathematical values.
pub struct RouterView {
    pub outbox: Map<u128, u64>,
    pub listeners: Seq<Subscription>,
}

impl RouterView {
    /// The registry after `id` registered `channel`: an earlier channel of
    /// `id` is replaced.
    pub open spec fn registered(self, id: u128, channel: u64) -> RouterView {
        RouterView { outbox: self.outbox.insert(id, channel), ..self }
    }

    /// The registry after `channel` subscribed to `kind`: every earlier
    /// subscription stays.
    pub open spec fn subscribed(self, kind: EventKind, channel: u64) -> RouterView {
        RouterView { listeners: self.listeners.push(Subscription { kind, channel }), ..self }
    }

    /// The registry after the participant that an event announces was
    /// taken in. A person is registered under their identifier; a bathroom
    /// is registered too and subscribes to the kinds that concern it.
    /// Other events, and announcements without a channel, change nothing.
    pub open spec fn admitted(
        self,
        kind: EventKind,
        producer_id: u128,
        channel: Option<u64>,
    ) -> RouterView {
        match (kind, channel) {
            (EventKind::NewPerson, Some(c)) => self.registered(producer_id, c),
            (EventKind::NewBathroom, Some(c)) => self.registered(producer_id, c).subscribed(
                EventKind::NewPerson,
                c,
            ).subscribed(EventKind::PersonFinishedUsingBathroom, c),
            _ => self,
        }
    }
}

/// An announcement is in order: the event is no announcement, or it
/// carries a channel.
pub open spec fn admission(kind: EventKind, channel: Option<u64>) -> Result<(), SimulationError> {
    if (kind == EventKind::NewPerson || kind == EventKind::NewBathroom) && channel is None {
        Err(SimulationError::MissingChannel)
    } else {
        Ok(())
    }
}

impl View for Router {
    type V = RouterView;

    open spec fn view(&self) -> RouterView {
        RouterView { outbox: self.outbox@, listeners: self.listeners@ }
    }
}

/// A router with nobody registered and no subscription.
pub fn new_router() -> (r: Router)
    ensures
        r@.outbox == Map::<u128, u64>::empty(),
        r@.listeners == Seq::<Subscription>::empty(),
{
    Router { outbox: HashMap::new(), listeners: Vec::new() }
}

/// A new subscription reaches the subscribers of its own kind, behind all
/// the earlier ones, and leaves the subscribers of every other kind as
/// they were.
pub proof fn lemma_subscribe_appends(
    listeners: Seq<Subscription>,
    added: Subscription,
    kind: EventKind,
)
    ensures
        subscribers(listeners.push(added), kind) == if added.kind == kind {
            subscribers(listeners, kind).push(added.channel)
        } else {
            subscribers(listeners, kind)
        },
{
    assert(listeners.push(added).drop_last() == listeners);
}

impl Router {
    /// Makes `channel` the channel of participant `id`, in place of an
    /// earlier one.
    pub fn register(&mut self, id: u128, channel: u64)
        ensures
            final(self)@ == old(self)@.registered(id, channel),
    {
        self.outbox.insert(id, channel);
    }

    /// Adds `channel` to the channels that receive the events of `kind`.
    /// Every earlier subscription stays.
    pub fn subscribe(&mut self, kind: EventKind, channel: u64)
        ensures
            final(self)@ == old(self)@.subscribed(kind, channel),
            subscribers(final(self)@.listeners, kind) == subscribers(
                old(self)@.listeners,
                kind,
            ).push(channel),
            forall|other: EventKind|
                other != kind ==> subscribers(final(self)@.listeners, other) == subscribers(
                    old(self)@.listeners,
                    other,
                ),
    {
        proof {
            let added = Subscription { kind, channel };
            assert forall|other: EventKind|
                subscribers(self@.listeners.push(added), other) == if kind == other {
                    subscribers(self@.listeners, other).push(channel)
                } else {
                    subscribers(self@.listeners, other)
                } by {
                lemma_subscribe_appends(self@.listeners, added, other);
            }
        }
        self.listeners.push(Subscription { kind, channel });
    }

    /// The channels that subscribed to `kind`, in the order in which they
    /// subscribed.
    pub fn subscribers_of(&self, kind: EventKind) -> (channels: Vec<u64>)
        ensures
            channels@ == subscribers(self@.listeners, kind),
    {
        let mut channels: Vec<u64> = Vec::new();
        let mut i: usize = 0;
        while i < self.listeners.len()
            invariant
                i <= self.listeners@.len(),
                channels@ == subscribers(self.listeners@.take(i as int), kind),
            decreases self.listeners@.len() - i,
        {
            proof {
                assert(self.listeners@.take(i + 1).drop_last() == self.listeners@.take(i as int));
            }
            if self.listeners[i].kind == kind {
                channels.push(self.listeners[i].channel);
            }
            i = i + 1;
        }
        proof {
            assert(self.listeners@.take(self.listeners@.len() as int) == self.listeners@);
        }
        channels
    }

    /// Where `event` has to be sent. An event that names a receiver goes to
    /// the receiver's channel, or is reported where the receiver never
    /// registered. Whatever comes of that, the event goes to every channel
    /// that subscribed to its kind.
    pub fn dispatch(&self, event: &Event) -> (d: Delivery)
        ensures
            d.direct == direct_target(self@.outbox, event.destination_id),
            d.broadcast@ == subscribers(self@.listeners, event.kind),
    {
        let direct: Result<Option<u64>, SimulationError> = match event.destination_id {
            None => Ok(None),
            Some(id) => match self.outbox.get(&id) {
                Some(channel) => Ok(Some(*channel)),
                None => Err(SimulationError::UnknownDestination),
            },
        };
        Delivery { direct, broadcast: self.subscribers_of(event.kind) }
    }

    /// Takes in the participant that `event` announces. A person is
    /// registered under their identifier; a bathroom is registered too
    /// and subscribes to new people and to people who have finished. An
    /// announcement without a channel is reported and changes nothing;
    /// other events are in order and change nothing.
    pub fn enroll(&mut self, event: &Event) -> (outcome: Result<(), SimulationError>)
        ensures
            outcome == admission(event.kind, event.producer_sender),
            final(self)@ == old(self)@.admitted(
                event.kind,
                event.producer_id,
                event.producer_sender,
            ),
    {
        match event.kind {
            EventKind::NewPerson => match event.producer_sender {
                Some(channel) => {
                    self.register(event.producer_id, channel);
                    Ok(())
                },
                None => Err(SimulationError::MissingChannel),
            },
            EventKind::NewBathroom => match event.producer_sender {
                Some(channel) => {
                    self.register(event.producer_id, channel);
                    self.subscribe(EventKind::NewPerson, channel);
                    self.subscribe(EventKind::PersonFinishedUsingBathroom, channel);
                    Ok(())
                },
                None => Err(SimulationError::MissingChannel),
            },
            _ => Ok(()),
        }
    }

    /// Handles one event: takes in the participant that it announces, then
    /// says where the event has to be sent, by the registry as it is after
    /// that.
    pub fn route(&mut self, event: &Event) -> (r: Routed)
        ensures
            final(self)@ == old(self)@.admitted(
                event.kind,
                event.producer_id,
                event.producer_sender,
            ),
            r.registration == admission(event.kind, event.producer_sender),
            r.delivery.direct == direct_target(final(self)@.outbox, event.destination_id),
            r.delivery.broadcast@ == subscribers(final(self)@.listeners, event.kind),
    {
        let registration: Result<(), SimulationError> = self.enroll(event);
        let delivery: Delivery = self.dispatch(event);
        Routed { registration, delivery }
    }
}

} // verus!
