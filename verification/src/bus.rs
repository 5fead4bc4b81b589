use crate::events::Event;
use crate::strings::{decimal, decimal_text};
use std::sync::atomic::{AtomicUsize, Ordering};
use std::sync::Arc;
use tokio::sync::broadcast::{Receiver, Sender};
use vstd::prelude::*;
use vstd::string::StringExecFns;

verus! {

/// The capacity of the bus that `EventBus::default` makes.
pub const DEFAULT_CAPACITY: usize = 1000;

/// The largest capacity that a bus can have.
pub const MAX_CAPACITY: usize = usize::MAX / 2;

/// The sending half of tokio's broadcast channel.
#[verifier::external_type_specification]
#[verifier::external_body]
#[verifier::reject_recursive_types(T)]
pub struct ExSender<T>(Sender<T>);

/// The receiving half of tokio's broadcast channel.
#[verifier::external_type_specification]
#[verifier::external_body]
#[verifier::reject_recursive_types(T)]
pub struct ExReceiver<T>(Receiver<T>);

/// Counters for watching the bus: they are shared between the bus and its
/// subscribers and may move at any time.
pub struct EventStats {
    pub messages_sent: AtomicUsize,
    pub messages_received: AtomicUsize,
    pub subscribers_peak: AtomicUsize,
}

/// Why a subscriber got no event.
#[derive(Clone, Copy, Debug, PartialEq, Eq, Structural)]
pub enum RecvTimeoutError {
    /// No event came in time.
    Timeout,
    /// Nobody can publish any more.
    Closed,
    /// The subscriber fell behind; this many events were dropped for it.
    Lagged(u64),
}

/// The bus that carries every event to every subscriber.
pub struct EventBus {
    sender: Sender<Event>,
    name: String,
    stats: Arc<EventStats>,
}

/// One subscription to the bus.
pub struct EventSubscriber {
    receiver: Receiver<Event>,
    source_name: String,
    stats: Arc<EventStats>,
}

/// Makes a channel with `tokio::sync::broadcast::channel` and keeps its
/// sending half. tokio panics on a capacity of 0 or above `usize::MAX / 2`;
/// nothing is claimed of the channel.
#[verifier::external_body]
fn open_channel(capacity: usize) -> (sender: Sender<Event>)
    requires
        0 < capacity <= MAX_CAPACITY,
{
    tokio::sync::broadcast::channel(capacity).0
}

/// Sends with `Sender::send`. Claims what tokio's source shows of every
/// outcome: success counts the receivers, of which there is at least one
/// then, and failure, which means that there is none, hands the value back.
#[verifier::external_body]
fn send_event(sender: &Sender<Event>, event: Event) -> (sent: Result<usize, Event>)
    ensures
        match sent {
            Ok(receivers) => receivers >= 1,
            Err(back) => back == event,
        },
{
    sender.send(event).map_err(|e| e.0)
}

/// Subscribes with `Sender::subscribe`. The receiver sees what is sent from
/// now on; nothing is claimed of it. tokio gives up only at a quarter of
/// `usize::MAX` receivers, more than memory holds.
#[verifier::external_body]
fn subscribe_to(sender: &Sender<Event>) -> (receiver: Receiver<Event>) {
    sender.subscribe()
}

/// Counts the receivers with `Sender::receiver_count`. The count may change
/// at any time; nothing is claimed of it.
#[verifier::external_body]
fn count_receivers(sender: &Sender<Event>) -> (receivers: usize) {
    sender.receiver_count()
}

/// Copies the handle with `Sender::clone`; both send into one channel.
#[verifier::external_body]
fn clone_sender(sender: &Sender<Event>) -> (copy: Sender<Event>) {
    sender.clone()
}

/// Takes the next event with `Receiver::try_recv`, without waiting, and tells
/// its three errors apart: an empty channel counts as a wait that timed out.
/// Nothing is claimed of which outcome comes.
#[verifier::external_body]
fn poll_receiver(receiver: &mut Receiver<Event>) -> (next: Result<Event, RecvTimeoutError>) {
    match receiver.try_recv() {
        Ok(event) => Ok(event),
        Err(tokio::sync::broadcast::error::TryRecvError::Empty) => Err(RecvTimeoutError::Timeout),
        Err(tokio::sync::broadcast::error::TryRecvError::Closed) => Err(RecvTimeoutError::Closed),
        Err(tokio::sync::broadcast::error::TryRecvError::Lagged(n)) => {
            Err(RecvTimeoutError::Lagged(n))
        },
    }
}

impl RecvTimeoutError {
    pub open spec fn message_text(self) -> Seq<char> {
        match self {
            RecvTimeoutError::Timeout => "Timeout waiting for event"@,
            RecvTimeoutError::Closed => "Event bus closed"@,
            RecvTimeoutError::Lagged(n) => "Lagged behind "@ + decimal_text(n as nat) + " events"@,
        }
    }

    /// One line that says what happened.
    pub fn message(&self) -> (text: String)
        ensures
            text@ == self.message_text(),
    {
        match self {
            RecvTimeoutError::Timeout => "Timeout waiting for event".to_owned(),
            RecvTimeoutError::Closed => "Event bus closed".to_owned(),
            RecvTimeoutError::Lagged(n) => {
                let mut text = "Lagged behind ".to_owned();
                let count = decimal(*n);
                text.append(count.as_str());
                text.append(" events");
                text
            },
        }
    }
}

/// Whether an event that was sent found anybody to get it.
pub fn was_delivered(sent: &Result<usize, Event>) -> (delivered: bool)
    ensures
        delivered == (sent is Ok),
{
    match sent {
        Ok(_) => true,
        Err(_) => false,
    }
}

impl EventStats {
    /// Counters at nothing.
    pub fn new() -> EventStats {
        EventStats {
            messages_sent: AtomicUsize::new(0),
            messages_received: AtomicUsize::new(0),
            subscribers_peak: AtomicUsize::new(0),
        }
    }
}

impl EventBus {
    /// A bus that keeps up to `capacity` events for a slow subscriber.
    pub fn new(capacity: usize, name: &str) -> (bus: EventBus)
        requires
            0 < capacity <= MAX_CAPACITY,
        ensures
            bus.name_text() == name@,
    {
        EventBus {
            sender: open_channel(capacity),
            name: name.to_owned(),
            stats: Arc::new(EventStats::new()),
        }
    }

    /// The bus's name.
    pub closed spec fn name_text(&self) -> Seq<char> {
        self.name@
    }

    /// A new subscription, which sees what is published from now on.
    pub fn subscribe(&self) -> (receiver: Receiver<Event>) {
        let receiver = subscribe_to(&self.sender);
        let current = count_receivers(&self.sender);
        let peak = self.stats.subscribers_peak.load(Ordering::Relaxed);
        if current > peak {
            self.stats.subscribers_peak.store(current, Ordering::Relaxed);
        }
        receiver
    }

    /// Publishes an event to all subscribers. Success tells how many there
    /// are, at least one; without any, the event comes back.
    pub fn publish(&self, event: Event) -> (sent: Result<usize, Event>)
        ensures
            match sent {
                Ok(receivers) => receivers >= 1,
                Err(back) => back == event,
            },
    {
        self.stats.messages_sent.fetch_add(1, Ordering::Relaxed);
        send_event(&self.sender, event)
    }

    /// Publishes an event and tells whether anybody was there to get it.
    pub fn try_publish(&self, event: Event) -> (delivered: bool) {
        let sent = self.publish(event);
        was_delivered(&sent)
    }

    /// The number of subscriptions right now.
    pub fn receiver_count(&self) -> (receivers: usize) {
        count_receivers(&self.sender)
    }

    pub fn name(&self) -> (name: &str)
        ensures
            name@ == self.name_text(),
    {
        self.name.as_str()
    }

    /// The counters that the bus and its subscribers share.
    pub closed spec fn counters(&self) -> Arc<EventStats> {
        self.stats
    }

    /// The bus's counters, shared.
    pub fn stats(&self) -> (stats: Arc<EventStats>)
        ensures
            stats == self.counters(),
    {
        self.stats.clone()
    }

    /// Sets the counters of what was sent and received back to nothing; the
    /// peak of subscribers stays.
    pub fn reset_stats(&self) {
        self.stats.messages_sent.store(0, Ordering::Relaxed);
        self.stats.messages_received.store(0, Ordering::Relaxed);
    }
}

impl Clone for EventBus {
    /// Another handle to the same bus.
    fn clone(&self) -> (bus: EventBus)
        ensures
            bus.name_text() == self.name_text(),
            bus.counters() == self.counters(),
    {
        EventBus {
            sender: clone_sender(&self.sender),
            name: self.name.clone(),
            stats: self.stats.clone(),
        }
    }
}

impl Default for EventBus {
    fn default() -> (bus: EventBus)
        ensures
            bus.name_text() == "default"@,
    {
        EventBus::new(DEFAULT_CAPACITY, "default")
    }
}

impl EventSubscriber {
    /// Subscribes to the bus under a name of its own.
    pub fn new(event_bus: &EventBus, source_name: &str) -> (subscriber: EventSubscriber)
        ensures
            subscriber.name_text() == source_name@,
            subscriber.counters() == event_bus.counters(),
    {
        EventSubscriber {
            receiver: event_bus.subscribe(),
            source_name: source_name.to_owned(),
            stats: event_bus.stats(),
        }
    }

    pub closed spec fn name_text(&self) -> Seq<char> {
        self.source_name@
    }

    /// The counters of the bus that was subscribed to.
    pub closed spec fn counters(&self) -> Arc<EventStats> {
        self.stats
    }

    /// The subscription that the subscriber reads from.
    pub closed spec fn subscription(&self) -> Receiver<Event> {
        self.receiver
    }

    pub fn name(&self) -> (name: &str)
        ensures
            name@ == self.name_text(),
    {
        self.source_name.as_str()
    }

    /// The next event, if one is waiting.
    pub fn try_recv(&mut self) -> (next: Result<Event, RecvTimeoutError>)
        ensures
            final(self).name_text() == old(self).name_text(),
            final(self).counters() == old(self).counters(),
    {
        let next = poll_receiver(&mut self.receiver);
        if next.is_ok() {
            self.stats.messages_received.fetch_add(1, Ordering::Relaxed);
        }
        next
    }

    /// Whether a subscriber has to handle an event: every event, or, under
    /// load, only those of high priority.
    pub fn handles(event: &Event, priority_only: bool) -> (yes: bool)
        ensures
            yes == (!priority_only || event@.high_priority()),
    {
        !priority_only || event.is_high_priority()
    }

    /// A subscriber of the same name with a subscription that begins now.
    pub fn clone_with_new_subscription(&self, event_bus: &EventBus) -> (subscriber:
        EventSubscriber)
        ensures
            subscriber.name_text() == self.name_text(),
            subscriber.counters() == event_bus.counters(),
    {
        EventSubscriber {
            receiver: event_bus.subscribe(),
            source_name: self.source_name.clone(),
            stats: event_bus.stats(),
        }
    }

    /// The subscription itself, for waiting on it.
    pub fn receiver(&mut self) -> (receiver: &mut Receiver<Event>)
        ensures
            *receiver == old(self).subscription(),
            final(self).subscription() == *final(receiver),
            final(self).name_text() == old(self).name_text(),
            final(self).counters() == old(self).counters(),
    {
        &mut self.receiver
    }
}

} // verus!
