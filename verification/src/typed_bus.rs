//! Typed event bus: one bounded queue per compile-time event type, shared by
//! all producers and consumers of that type. Subscribers of a type are
//! competing consumers: each message is delivered to exactly one of them.
//!
//! The registry is a closed set of hot market-event types, so retrieval
//! needs no type erasure and no checked downcast: each type reaches its own
//! slot, and a subscriber of one type can never observe a message of
//! another. Queues and statistics counters both live in shared state, so
//! every clone of a bus feeds the same queues and the same counters: the
//! statistics cover the bus together with all of its clones.

use vstd::prelude::*;

use core::sync::atomic::AtomicU64;
use core::sync::atomic::Ordering;
use std::sync::Arc;

use crate::events::{Event, EventType, MarketEvent, DEFAULT_PRIORITY};
use crate::fast_channel::{
    flume_recv, flume_try_recv, FastChannel, RecvError, SendError, TryRecvError,
};

verus! {

/// Capacity of each typed queue.
pub const TYPED_CHANNEL_CAPACITY: usize = 100000;

/// Compact trade tick: the hottest event of the feed. All fields are plain
/// values; the price is in thousandths.
#[derive(Debug, Clone, Copy, PartialEq, Eq, Structural)]
pub struct Trade {
    pub timestamp_ns: i64,
    pub instrument_id: u32,
    pub price: i64,
    pub quantity: u64,
    pub side: Side,
    pub trade_id: u64,
    pub exchange: u16,
    pub flags: u32,
}

/// Compact top-of-book quote tick; prices are in thousandths.
#[derive(Debug, Clone, Copy, PartialEq, Eq, Structural)]
pub struct Quote {
    pub timestamp_ns: i64,
    pub instrument_id: u32,
    pub bid_price: i64,
    pub ask_price: i64,
    pub bid_size: u64,
    pub ask_size: u64,
    pub exchange: u16,
}

/// Aggressor side of a trade.
#[derive(Debug, Clone, Copy, PartialEq, Eq, Structural)]
pub enum Side {
    Buy,
    Sell,
}

impl Event for Trade {
    fn event_type(&self) -> &'static str {
        "Trade"
    }

    fn priority(&self) -> (p: u8) {
        DEFAULT_PRIORITY
    }
}

impl MarketEvent for Trade {
    fn timestamp(&self) -> i64 {
        self.timestamp_ns
    }

    fn symbol<'a>(&'a self) -> Option<&'a str> {
        None
    }

    fn market_event_type(&self) -> EventType {
        EventType::Trade
    }
}

impl Event for Quote {
    fn event_type(&self) -> &'static str {
        "Quote"
    }

    fn priority(&self) -> (p: u8) {
        DEFAULT_PRIORITY
    }
}

impl MarketEvent for Quote {
    fn timestamp(&self) -> i64 {
        self.timestamp_ns
    }

    fn symbol<'a>(&'a self) -> Option<&'a str> {
        None
    }

    fn market_event_type(&self) -> EventType {
        EventType::Quote
    }
}

/// Per-type statistics of the typed bus.
#[derive(Debug, Clone, Copy)]
pub struct TypedEventStats {
    /// Events enqueued for this type.
    pub published: u64,
    /// Receive accounting; the bus itself never fills this in.
    pub received: u64,
    /// Subscriber handles handed out for this type.
    pub subscribers: usize,
}

impl TypedEventStats {
    /// The all-zero counters a type starts from.
    pub open spec fn zero() -> TypedEventStats {
        TypedEventStats { published: 0, received: 0, subscribers: 0 }
    }
}

impl Default for TypedEventStats {
    fn default() -> (r: Self)
        ensures
            r == TypedEventStats::zero(),
    {
        TypedEventStats { published: 0, received: 0, subscribers: 0 }
    }
}

/// A subscription handle of the typed bus. Handles of one type compete for
/// that type's messages; by construction a handle of one type can only ever
/// yield values of that type, never another's.
#[verifier::reject_recursive_types(E)]
pub struct TypedReceiver<E> {
    receiver: flume::Receiver<E>,
}

impl<E> TypedReceiver<E> {
    /// Receive the next message of this type, waiting until one arrives or
    /// every producer handle is gone.
    pub fn recv(&self) -> Result<E, RecvError> {
        flume_recv(&self.receiver)
    }

    /// Try to receive without waiting.
    pub fn try_recv(&self) -> Result<E, TryRecvError> {
        flume_try_recv(&self.receiver)
    }
}

/// Typed event bus over the closed set of hot event types. The queue and
/// the statistics counters of each type exist from construction on, held in
/// shared state: every clone of the bus feeds the same queues and the same
/// counters, so the statistics cover the bus together with all of its
/// clones. A type's queue is never replaced for the bus's lifetime.
pub struct TypedEventBus {
    trade_channel: FastChannel<Trade>,
    quote_channel: FastChannel<Quote>,
    trade_published: Arc<AtomicU64>,
    trade_subscribers: Arc<AtomicU64>,
    quote_published: Arc<AtomicU64>,
    quote_subscribers: Arc<AtomicU64>,
}

impl TypedEventBus {
    /// The trade queue.
    pub closed spec fn trade_channel_spec(self) -> FastChannel<Trade> {
        self.trade_channel
    }

    /// The quote queue.
    pub closed spec fn quote_channel_spec(self) -> FastChannel<Quote> {
        self.quote_channel
    }

    /// The shared counter cells, as one tuple: trade published, trade
    /// subscribers, quote published, quote subscribers.
    pub closed spec fn counters_spec(self) -> (
        Arc<AtomicU64>,
        Arc<AtomicU64>,
        Arc<AtomicU64>,
        Arc<AtomicU64>,
    ) {
        (self.trade_published, self.trade_subscribers, self.quote_published, self.quote_subscribers)
    }

    /// The registry never moves: each type keeps the one queue and the one
    /// set of counter cells it was constructed with, so there is exactly one
    /// queue per type for the bus's lifetime.
    pub open spec fn registry_unchanged(pre: Self, post: Self) -> bool {
        &&& post.trade_channel_spec() == pre.trade_channel_spec()
        &&& post.quote_channel_spec() == pre.quote_channel_spec()
        &&& post.counters_spec() == pre.counters_spec()
    }

    /// Create a new typed event bus: one bounded queue and zeroed counters
    /// per type.
    pub fn new() -> Self {
        TypedEventBus {
            trade_channel: FastChannel::bounded(TYPED_CHANNEL_CAPACITY),
            quote_channel: FastChannel::bounded(TYPED_CHANNEL_CAPACITY),
            trade_published: Arc::new(AtomicU64::new(0)),
            trade_subscribers: Arc::new(AtomicU64::new(0)),
            quote_published: Arc::new(AtomicU64::new(0)),
            quote_subscribers: Arc::new(AtomicU64::new(0)),
        }
    }

    /// Publish an event of type `E` into the fixed queue of that type.
    /// Fails only when every handle of that queue was dropped, handing the
    /// event back; the event can never reach a queue of another type. On
    /// success the type's shared published counter — common to all clones of
    /// this bus — grows by one (wrapping at the counter's range, which no
    /// process lifetime reaches).
    pub fn publish<E: TypedEvent>(&mut self, event: E) -> (r: Result<(), SendError<E>>)
        ensures
            Self::registry_unchanged(*old(self), *final(self)),
            r matches Err(e) ==> e.0 == event,
    {
        E::publish_into(event, self)
    }

    /// Subscribe to events of type `E`: a competing-consumer handle on the
    /// fixed queue of that type. The type's shared subscriber counter grows
    /// by one.
    pub fn subscribe<E: TypedEvent>(&mut self) -> (r: TypedReceiver<E>)
        ensures
            Self::registry_unchanged(*old(self), *final(self)),
    {
        E::subscribe_from(self)
    }

    /// Statistics for events of type `E`, read from the shared counters, so
    /// the numbers cover this bus and all of its clones; present once the
    /// type has seen any publish or subscribe anywhere among them.
    pub fn stats<E: TypedEvent>(&self) -> (r: Option<TypedEventStats>)
        ensures
            r matches Some(s) ==> s.received == 0 && !(s.published == 0 && s.subscribers == 0),
    {
        E::stats_from(self)
    }

    /// Total events published across all types, read from the shared
    /// counters, so the number covers this bus and all of its clones;
    /// saturated at the counter range.
    pub fn total_published(&self) -> u64 {
        let trade = counter_value(&self.trade_published);
        let quote = counter_value(&self.quote_published);
        if trade > u64::MAX - quote {
            u64::MAX
        } else {
            trade + quote
        }
    }
}

impl Default for TypedEventBus {
    /// A fresh bus: one bounded queue and zeroed counters per type.
    fn default() -> Self {
        TypedEventBus::new()
    }
}

impl Clone for TypedEventBus {
    /// A bus over the same shared state: the clone holds the very queues
    /// and counter cells of the original, so events published on either
    /// handle are deliverable to subscribers of the other, and both read
    /// one statistics registry.
    fn clone(&self) -> (r: Self)
        ensures
            Self::registry_unchanged(*self, r),
    {
        TypedEventBus {
            trade_channel: self.trade_channel.clone(),
            quote_channel: self.quote_channel.clone(),
            trade_published: counter_clone(&self.trade_published),
            trade_subscribers: counter_clone(&self.trade_subscribers),
            quote_published: counter_clone(&self.quote_published),
            quote_subscribers: counter_clone(&self.quote_subscribers),
        }
    }
}

/// Relies on `Arc::clone`: a handle on the same shared cell. vstd models an
/// `Arc` by its content, so the clone is the same value.
#[verifier::external_body]
fn counter_clone(counter: &Arc<AtomicU64>) -> (r: Arc<AtomicU64>)
    ensures
        r == *counter,
{
    Arc::clone(counter)
}

/// Add one to a shared counter, wrapping at the counter's range. The cell
/// is shared by every clone of its bus; what a later read returns depends
/// on all of them.
fn counter_bump(counter: &Arc<AtomicU64>) {
    counter.fetch_add(1, Ordering::Relaxed);
}

/// The current reading of a shared counter: the sum of all bumps by every
/// clone of the cell's bus that this handle has observed.
fn counter_value(counter: &Arc<AtomicU64>) -> u64 {
    counter.load(Ordering::Relaxed)
}

/// Capability of an event type the typed bus can carry: each such type
/// reaches its own queue and counters in the registry.
pub trait TypedEvent: Sized {
    /// Enqueue one event into this type's fixed queue; on success bump the
    /// type's shared published counter.
    fn publish_into(self, bus: &mut TypedEventBus) -> (r: Result<(), SendError<Self>>)
        ensures
            TypedEventBus::registry_unchanged(*old(bus), *final(bus)),
            r matches Err(e) ==> e.0 == self,
    ;

    /// A competing-consumer handle on this type's fixed queue; bumps the
    /// type's shared subscriber counter.
    fn subscribe_from(bus: &mut TypedEventBus) -> (r: TypedReceiver<Self>)
        ensures
            TypedEventBus::registry_unchanged(*old(bus), *final(bus)),
    ;

    /// This type's statistics, read from the shared counters; present once
    /// the type has seen any publish or subscribe on any clone of the bus.
    fn stats_from(bus: &TypedEventBus) -> (r: Option<TypedEventStats>)
        ensures
            r matches Some(s) ==> s.received == 0 && !(s.published == 0 && s.subscribers == 0),
    ;
}

impl TypedEvent for Trade {
    fn publish_into(self, bus: &mut TypedEventBus) -> (r: Result<(), SendError<Self>>) {
        let outcome = bus.trade_channel.send(self);
        if outcome.is_ok() {
            counter_bump(&bus.trade_published);
        }
        outcome
    }

    fn subscribe_from(bus: &mut TypedEventBus) -> (r: TypedReceiver<Self>) {
        counter_bump(&bus.trade_subscribers);
        TypedReceiver { receiver: bus.trade_channel.receiver() }
    }

    fn stats_from(bus: &TypedEventBus) -> (r: Option<TypedEventStats>) {
        counters_to_stats(counter_value(&bus.trade_published), counter_value(&bus.trade_subscribers))
    }
}

impl TypedEvent for Quote {
    fn publish_into(self, bus: &mut TypedEventBus) -> (r: Result<(), SendError<Self>>) {
        let outcome = bus.quote_channel.send(self);
        if outcome.is_ok() {
            counter_bump(&bus.quote_published);
        }
        outcome
    }

    fn subscribe_from(bus: &mut TypedEventBus) -> (r: TypedReceiver<Self>) {
        counter_bump(&bus.quote_subscribers);
        TypedReceiver { receiver: bus.quote_channel.receiver() }
    }

    fn stats_from(bus: &TypedEventBus) -> (r: Option<TypedEventStats>) {
        counters_to_stats(counter_value(&bus.quote_published), counter_value(&bus.quote_subscribers))
    }
}

/// Statistics read for one type: absent until the type has seen any publish
/// or subscribe.
fn counters_to_stats(published: u64, subscribers: u64) -> (r: Option<TypedEventStats>)
    ensures
        r matches Some(s) ==> s.received == 0 && !(s.published == 0 && s.subscribers == 0),
        (r is Some) == !(published == 0 && subscribers == 0),
{
    if published == 0 && subscribers == 0 {
        None
    } else {
        let subs: usize = if subscribers > usize::MAX as u64 {
            usize::MAX
        } else {
            subscribers as usize
        };
        Some(TypedEventStats { published, received: 0, subscribers: subs })
    }
}

} // verus!
