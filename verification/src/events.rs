//! Distributing events to the connections that asked for them.
//!
//! Publishing never waits: a subscriber whose queue is full loses the event
//! and stays subscribed, a subscriber that has gone is forgotten, and every
//! other subscriber of the event's stream is handed it.

use vstd::prelude::*;

use crate::message::{Event, EventStream};
use crate::server::{delivers_to, keeps_subscriber, names_stream, Delivery, EVENT_QUEUE_DEPTH};

verus! {

/// `std::sync::mpsc::SyncSender`, the end of an event queue the publisher
/// holds.
#[verifier::external_type_specification]
#[verifier::external_body]
#[verifier::reject_recursive_types(T)]
pub struct ExSyncSender<T>(std::sync::mpsc::SyncSender<T>);

/// `std::sync::mpsc::Receiver`, the end of an event queue a connection reads.
#[verifier::external_type_specification]
#[verifier::external_body]
#[verifier::reject_recursive_types(T)]
pub struct ExReceiver<T>(std::sync::mpsc::Receiver<T>);

/// `std::sync::mpsc::sync_channel`: a queue holding at most `bound` events.
/// Nothing is claimed about the two ends.
#[verifier::external_body]
fn event_queue(bound: usize) -> (std::sync::mpsc::SyncSender<Event>, std::sync::mpsc::Receiver<Event>) {
    std::sync::mpsc::sync_channel(bound)
}

/// `SyncSender::try_send` on the subscriber's own queue, with a clone of
/// `event`, sorted into how the delivery went. What is claimed is that this
/// event was handed to this subscriber's queue: its record of what it was
/// offered gains the event, and nothing else about it changes. Which of the
/// three answers comes back is whatever the queue said.
#[verifier::external_body]
fn offer(subscriber: &mut Subscriber, event: &Event) -> (delivery: Delivery)
    ensures
        final(subscriber).offered@ == old(subscriber).offered@.push(*event),
        final(subscriber).streams == old(subscriber).streams,
        final(subscriber).events == old(subscriber).events,
{
    match subscriber.events.try_send(event.clone()) {
        Ok(()) => Delivery::Queued,
        Err(std::sync::mpsc::TrySendError::Full(_)) => Delivery::QueueFull,
        Err(std::sync::mpsc::TrySendError::Disconnected(_)) => Delivery::Gone,
    }
}

/// One event connection's place in the list: the streams it asked for, the
/// queue its events go into, and every event it has been offered.
pub struct Subscriber {
    /// The streams this connection receives.
    pub streams: Vec<EventStream>,
    /// Where its events are queued.
    pub events: std::sync::mpsc::SyncSender<Event>,
    /// Every event handed to its queue, in order.
    pub offered: Ghost<Seq<Event>>,
}

/// What happened to one subscriber when an event was published: nothing, if
/// the event was not for it, or how handing it over went.
pub open spec fn routed(event: Event, subscriber: Subscriber) -> bool {
    match event.stream_of() {
        Some(stream) => names_stream(subscriber.streams@, stream),
        None => false,
    }
}

/// A subscriber after `event` has been published: one the event is routed to
/// has been offered it once more; any other is as it was.
pub open spec fn handed(subscriber: Subscriber, event: Event) -> Subscriber {
    if routed(event, subscriber) {
        Subscriber {
            streams: subscriber.streams,
            events: subscriber.events,
            offered: Ghost(subscriber.offered@.push(event)),
        }
    } else {
        subscriber
    }
}

/// Every subscriber in `subscribers`, after `event` has been published.
pub open spec fn handed_all(subscribers: Seq<Subscriber>, event: Event) -> Seq<Subscriber> {
    subscribers.map_values(|subscriber: Subscriber| handed(subscriber, event))
}

/// The subscribers that stay after a publication whose deliveries went as
/// `outcomes` says: every one but those that had gone, in their order.
pub open spec fn survivors(subscribers: Seq<Subscriber>, outcomes: Seq<Option<Delivery>>) -> Seq<Subscriber>
    decreases subscribers.len(),
{
    if subscribers.len() == 0 {
        Seq::empty()
    } else {
        let earlier = survivors(subscribers.drop_last(), outcomes.take(subscribers.len() - 1));
        if outcomes[subscribers.len() - 1] == Some(Delivery::Gone) {
            earlier
        } else {
            earlier.push(subscribers.last())
        }
    }
}

/// The connections subscribed to events.
pub struct Subscriptions {
    subscribers: Vec<Subscriber>,
}

impl Subscriptions {
    /// The subscribers, in the order they subscribed.
    pub closed spec fn list(&self) -> Seq<Subscriber> {
        self.subscribers@
    }

    /// Nobody subscribed.
    pub fn new() -> (subscriptions: Subscriptions)
        ensures
            subscriptions.list().len() == 0,
    {
        Subscriptions { subscribers: Vec::new() }
    }

    /// How many connections are subscribed.
    pub fn subscriber_count(&self) -> (count: usize)
        ensures
            count == self.list().len(),
    {
        self.subscribers.len()
    }

    /// Registers a connection for `streams`, and returns what it reads its
    /// events from: a queue [`EVENT_QUEUE_DEPTH`] events deep.
    ///
    /// That the receiver returned reads the queue the new subscriber is
    /// offered events through is not stated: the two ends of a queue are
    /// opaque, and nothing here can tell one queue from another.
    pub fn subscribe(&mut self, streams: Vec<EventStream>) -> (events: std::sync::mpsc::Receiver<Event>)
        ensures
            final(self).list().len() == old(self).list().len() + 1,
            final(self).list().take(old(self).list().len() as int) == old(self).list(),
            final(self).list().last().streams@ == streams@,
            final(self).list().last().offered@ == Seq::<Event>::empty(),
    {
        let (sender, receiver) = event_queue(EVENT_QUEUE_DEPTH);
        let ghost before = self.subscribers@;
        self.subscribers.push(Subscriber { streams, events: sender, offered: Ghost(Seq::empty()) });
        assert(self.subscribers@.take(before.len() as int) =~= before);
        receiver
    }

    /// Ends every subscription, which lets the connections writing them
    /// finish.
    pub fn close(&mut self)
        ensures
            final(self).list().len() == 0,
    {
        self.subscribers = Vec::new();
    }

    /// Hands `event` to every subscriber of its stream, and says how each
    /// delivery went: [`None`] for a subscriber the event was not for.
    ///
    /// An event that belongs to no stream goes to nobody. A subscriber that
    /// has gone is forgotten; one whose queue is full loses the event and
    /// stays; the order of those that stay is kept.
    ///
    /// Each subscriber the event is routed to is offered it exactly once, and
    /// no other subscriber is offered anything. Which of the three answers
    /// each offer gets rests on the queue's own `try_send`.
    pub fn publish(&mut self, event: &Event) -> (outcomes: Vec<Option<Delivery>>)
        ensures
            outcomes@.len() == old(self).list().len(),
            forall|i: int|
                0 <= i < outcomes@.len() ==> (#[trigger] outcomes@[i] is None <==> !routed(
                    *event,
                    old(self).list()[i],
                )),
            final(self).list() == survivors(handed_all(old(self).list(), *event), outcomes@),
    {
        let mut remaining: Vec<Subscriber> = Vec::new();
        std::mem::swap(&mut remaining, &mut self.subscribers);
        let ghost before = remaining@;
        let total = remaining.len();
        let mut kept: Vec<Subscriber> = Vec::new();
        let mut outcomes: Vec<Option<Delivery>> = Vec::new();
        let mut i: usize = 0;
        assert(handed_all(before, *event).take(0) =~= Seq::<Subscriber>::empty());
        while remaining.len() > 0
            invariant
                total == before.len(),
                i <= before.len(),
                remaining@ == before.skip(i as int),
                outcomes@.len() == i,
                forall|j: int|
                    0 <= j < i ==> (#[trigger] outcomes@[j] is None <==> !routed(*event, before[j])),
                kept@ == survivors(handed_all(before, *event).take(i as int), outcomes@),
            decreases remaining@.len(),
        {
            let mut subscriber = remaining.remove(0);
            assert(subscriber == before[i as int]);
            let outcome = if delivers_to(event, &subscriber.streams) {
                Some(offer(&mut subscriber, event))
            } else {
                None
            };
            assert(subscriber == handed_all(before, *event)[i as int]);
            let stays = match outcome {
                Some(delivery) => keeps_subscriber(delivery),
                None => true,
            };
            let ghost before_outcomes = outcomes@;
            outcomes.push(outcome);
            proof {
                let all = handed_all(before, *event);
                let taken = all.take(i as int + 1);
                assert(taken.drop_last() =~= all.take(i as int));
                assert(outcomes@.take(taken.len() - 1) =~= before_outcomes);
                assert(taken.last() == all[i as int]);
                assert(before.skip(i as int + 1) =~= before.skip(i as int).remove(0));
            }
            if stays {
                kept.push(subscriber);
            }
            i = i + 1;
        }
        assert(handed_all(before, *event).take(i as int) =~= handed_all(before, *event));
        self.subscribers = kept;
        outcomes
    }
}

/// Publishing an event no subscriber asked for, or one that belongs to no
/// stream, leaves every subscriber subscribed.
pub proof fn lemma_an_event_nobody_asked_for_forgets_nobody(
    subscribers: Seq<Subscriber>,
    outcomes: Seq<Option<Delivery>>,
)
    requires
        outcomes.len() == subscribers.len(),
        forall|i: int| 0 <= i < outcomes.len() ==> #[trigger] outcomes[i] is None,
    ensures
        survivors(subscribers, outcomes) == subscribers,
    decreases subscribers.len(),
{
    if subscribers.len() > 0 {
        let n = subscribers.len() - 1;
        assert(outcomes[n as int] is None);
        lemma_an_event_nobody_asked_for_forgets_nobody(subscribers.drop_last(), outcomes.take(n as int));
        assert(subscribers.drop_last().push(subscribers.last()) =~= subscribers);
    }
}

/// Nobody stays subscribed who was not subscribed before, and nobody is
/// forgotten whose delivery did not find them gone.
pub proof fn lemma_only_departed_subscribers_are_forgotten(
    subscribers: Seq<Subscriber>,
    outcomes: Seq<Option<Delivery>>,
)
    requires
        outcomes.len() == subscribers.len(),
    ensures
        survivors(subscribers, outcomes).len() <= subscribers.len(),
        forall|s: Subscriber| #[trigger] survivors(subscribers, outcomes).contains(s) ==> subscribers.contains(s),
        forall|i: int|
            0 <= i < subscribers.len() && outcomes[i] != Some(Delivery::Gone) ==> survivors(
                subscribers,
                outcomes,
            ).contains(#[trigger] subscribers[i]),
    decreases subscribers.len(),
{
    if subscribers.len() > 0 {
        let n = subscribers.len() - 1;
        let front = subscribers.drop_last();
        let front_outcomes = outcomes.take(n as int);
        lemma_only_departed_subscribers_are_forgotten(front, front_outcomes);
        let earlier = survivors(front, front_outcomes);
        assert forall|s: Subscriber| #[trigger] survivors(subscribers, outcomes).contains(s) implies subscribers.contains(s) by {
            if earlier.contains(s) {
                let j = choose|j: int| 0 <= j < front.len() && front[j] == s;
                assert(subscribers[j] == s);
            } else {
                assert(s == subscribers.last());
                assert(subscribers[n as int] == s);
            }
        }
        assert forall|i: int|
            0 <= i < subscribers.len() && outcomes[i] != Some(Delivery::Gone) implies survivors(
                subscribers,
                outcomes,
            ).contains(#[trigger] subscribers[i]) by {
            if i < n {
                assert(front[i] == subscribers[i]);
                assert(front_outcomes[i] == outcomes[i]);
                assert(earlier.contains(front[i]));
                let j = choose|j: int| 0 <= j < earlier.len() && earlier[j] == front[i];
                assert(survivors(subscribers, outcomes)[j] == subscribers[i]);
            } else {
                let result = survivors(subscribers, outcomes);
                assert(result[result.len() - 1] == subscribers[i]);
            }
        }
    }
}

} // verus!
