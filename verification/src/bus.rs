//! Core dynamic event bus: runtime-string-keyed broadcast channels with
//! per-type statistics, an optional mirror into the recorder, and a monotonic
//! id counter owned by the bus.

use vstd::prelude::*;

use crate::events::{
    EventEnvelope, EventEnvelopeView, EventPayload, EventPayloadView, LOWEST_PRIORITY,
    DEFAULT_PRIORITY,
};
use crate::replay::EventRecorder;

verus! {

/// Capacity of each fan-out channel.
pub const CHANNEL_CAPACITY: usize = 10000;

#[verifier::external_type_specification]
#[verifier::external_body]
#[verifier::reject_recursive_types(T)]
pub struct ExBroadcastSender<T>(tokio::sync::broadcast::Sender<T>);

#[verifier::external_type_specification]
#[verifier::external_body]
#[verifier::reject_recursive_types(T)]
pub struct ExBroadcastReceiver<T>(tokio::sync::broadcast::Receiver<T>);

/// Outcome of a non-blocking receive on a fan-out channel.
#[derive(Debug, Clone, Copy, PartialEq, Eq, Structural)]
pub enum BroadcastRecvError {
    /// No new message, but senders are still alive.
    Empty,
    /// Every sender was dropped; no further message will arrive.
    Closed,
    /// The receiver fell behind: this many messages were skipped and are
    /// unrecoverable.
    Lagged(u64),
}

/// Relies on tokio's `broadcast::channel`: creates a fan-out channel of the
/// given capacity and hands back its send half. tokio panics on a zero
/// capacity and on absurdly large ones, so both are excluded here.
#[verifier::external_body]
fn fanout_channel(capacity: usize) -> tokio::sync::broadcast::Sender<EventEnvelope>
    requires
        1 <= capacity <= 0x4000_0000,
{
    tokio::sync::broadcast::channel(capacity).0
}

/// Relies on tokio's broadcast `Sender::send`: delivers the value to every
/// currently subscribed receiver. On success the number of subscribed
/// receivers (at least one) comes back; with no receiver the value itself
/// comes back.
#[verifier::external_body]
fn fanout_send(
    sender: &tokio::sync::broadcast::Sender<EventEnvelope>,
    env: EventEnvelope,
) -> (r: Result<usize, EventEnvelope>)
    ensures
        r matches Ok(n) ==> n >= 1,
        r matches Err(e) ==> e == env,
{
    match sender.send(env) {
        Ok(n) => Ok(n),
        Err(e) => Err(e.0),
    }
}

/// Relies on tokio's broadcast `Sender::subscribe`: a new receiver that will
/// observe every value sent after this call.
#[verifier::external_body]
pub(crate) fn fanout_subscribe(
    sender: &tokio::sync::broadcast::Sender<EventEnvelope>,
) -> tokio::sync::broadcast::Receiver<EventEnvelope> {
    sender.subscribe()
}

/// Relies on tokio's broadcast `Receiver::try_recv`: the next pending value,
/// or the reason there is none (empty, closed, or a lag report with the
/// number of skipped messages).
#[verifier::external_body]
pub(crate) fn fanout_try_recv(
    receiver: &mut tokio::sync::broadcast::Receiver<EventEnvelope>,
) -> Result<EventEnvelope, BroadcastRecvError> {
    match receiver.try_recv() {
        Ok(env) => Ok(env),
        Err(tokio::sync::broadcast::error::TryRecvError::Empty) => Err(BroadcastRecvError::Empty),
        Err(tokio::sync::broadcast::error::TryRecvError::Closed) => Err(BroadcastRecvError::Closed),
        Err(tokio::sync::broadcast::error::TryRecvError::Lagged(n)) => Err(
            BroadcastRecvError::Lagged(n),
        ),
    }
}

/// Relies on tokio's broadcast `Receiver::resubscribe`: a fresh receiver on
/// the same channel, starting at the current tail.
#[verifier::external_body]
pub(crate) fn fanout_resubscribe(
    receiver: &tokio::sync::broadcast::Receiver<EventEnvelope>,
) -> tokio::sync::broadcast::Receiver<EventEnvelope> {
    receiver.resubscribe()
}

/// Relies on chrono's `DateTime::from_timestamp` and `timestamp_nanos_opt`,
/// fed from std's `SystemTime::now`: the wall clock as nanoseconds since the
/// epoch, or 0 whenever the reading is unrepresentable. Every boundary of
/// the outside reading — a clock before the epoch past chrono's range, a
/// second count outside `i64`, a datetime outside the nanosecond range —
/// maps to the 0 fallback instead of a panic, so no skewed system clock can
/// abort a publish.
#[verifier::external_body]
fn now_timestamp_ns() -> i64 {
    let since = std::time::SystemTime::now().duration_since(std::time::SystemTime::UNIX_EPOCH);
    let (sec, nsec) = match &since {
        Ok(d) => (i64::try_from(d.as_secs()).unwrap_or(i64::MAX), d.subsec_nanos()),
        Err(e) => match (i64::try_from(e.duration().as_secs()), e.duration().subsec_nanos()) {
            (Ok(s), 0) => (-s, 0),
            (Ok(s), n) => (-s - 1, 1_000_000_000 - n),
            (Err(_), _) => (i64::MIN, 0),
        },
    };
    chrono::DateTime::from_timestamp(sec, nsec).and_then(|t| t.timestamp_nanos_opt()).unwrap_or(0)
}

/// Error type of the dynamic bus. Publishing never fails under normal
/// operation, so no value of this type is ever produced by this crate.
#[derive(Debug, Clone, Copy)]
pub struct BusError;

/// Per-type publish statistics.
#[derive(Debug, Clone, Copy)]
pub struct EventStats {
    /// Events published under this type, delivered or not.
    pub published: u64,
    /// Receive accounting; the bus itself never fills this in.
    pub received: u64,
    /// Events published while no subscriber existed.
    pub dropped: u64,
}

impl EventStats {
    /// The all-zero counters a type starts from.
    pub open spec fn zero() -> EventStats {
        EventStats { published: 0, received: 0, dropped: 0 }
    }
}

impl Default for EventStats {
    fn default() -> (r: Self)
        ensures
            r == EventStats::zero(),
    {
        EventStats { published: 0, received: 0, dropped: 0 }
    }
}

/// Counters of the first entry with the given key; zero when no entry has it.
pub open spec fn stats_of_seq(s: Seq<(String, EventStats)>, k: Seq<char>) -> EventStats
    decreases s.len(),
{
    if s.len() == 0 {
        EventStats::zero()
    } else if s[0].0@ == k {
        s[0].1
    } else {
        stats_of_seq(s.drop_first(), k)
    }
}

proof fn lemma_stats_of_absent(s: Seq<(String, EventStats)>, k: Seq<char>)
    requires
        forall|j: int| 0 <= j < s.len() ==> #[trigger] s[j].0@ != k,
    ensures
        stats_of_seq(s, k) == EventStats::zero(),
    decreases s.len(),
{
    if s.len() > 0 {
        lemma_stats_of_absent(s.drop_first(), k);
    }
}

proof fn lemma_stats_of_first(s: Seq<(String, EventStats)>, i: int)
    requires
        0 <= i < s.len(),
        forall|j: int| 0 <= j < i ==> #[trigger] s[j].0@ != s[i].0@,
    ensures
        stats_of_seq(s, s[i].0@) == s[i].1,
    decreases i,
{
    if i > 0 {
        lemma_stats_of_first(s.drop_first(), i - 1);
    }
}

proof fn lemma_stats_of_update(s: Seq<(String, EventStats)>, i: int, v: EventStats)
    requires
        0 <= i < s.len(),
        forall|j: int| 0 <= j < i ==> #[trigger] s[j].0@ != s[i].0@,
    ensures
        stats_of_seq(s.update(i, (s[i].0, v)), s[i].0@) == v,
        forall|k2: Seq<char>| k2 != s[i].0@ ==> stats_of_seq(s.update(i, (s[i].0, v)), k2)
            == stats_of_seq(s, k2),
    decreases i,
{
    let t = s.update(i, (s[i].0, v));
    if i == 0 {
        assert(t[0] == (s[0].0, v));
        assert(stats_of_seq(t, s[0].0@) == v);
        assert forall|k2: Seq<char>| k2 != s[i].0@ implies stats_of_seq(t, k2) == stats_of_seq(
            s,
            k2,
        ) by {
            assert(t.drop_first() =~= s.drop_first());
        }
    } else {
        let sd = s.drop_first();
        assert(sd[i - 1] == s[i]);
        assert forall|j: int| 0 <= j < i - 1 implies (#[trigger] sd[j].0@) != sd[i - 1].0@ by {
            assert(sd[j] == s[j + 1]);
        }
        lemma_stats_of_update(sd, i - 1, v);
        assert(t.drop_first() =~= sd.update(i - 1, (s[i].0, v)));
        assert(t[0] == s[0]);
        assert(stats_of_seq(t, s[i].0@) == stats_of_seq(t.drop_first(), s[i].0@));
        assert forall|k2: Seq<char>| k2 != s[i].0@ implies stats_of_seq(t, k2) == stats_of_seq(
            s,
            k2,
        ) by {
            if s[0].0@ != k2 {
                assert(stats_of_seq(t, k2) == stats_of_seq(t.drop_first(), k2));
                assert(stats_of_seq(s, k2) == stats_of_seq(sd, k2));
            }
        }
    }
}

proof fn lemma_stats_of_push(s: Seq<(String, EventStats)>, key: String, v: EventStats)
    requires
        forall|j: int| 0 <= j < s.len() ==> #[trigger] s[j].0@ != key@,
    ensures
        stats_of_seq(s.push((key, v)), key@) == v,
        forall|k2: Seq<char>| k2 != key@ ==> stats_of_seq(s.push((key, v)), k2) == stats_of_seq(
            s,
            k2,
        ),
    decreases s.len(),
{
    let t = s.push((key, v));
    if s.len() == 0 {
        assert(t[0] == (key, v));
        assert(stats_of_seq(t, key@) == v);
        assert forall|k2: Seq<char>| k2 != key@ implies stats_of_seq(t, k2) == stats_of_seq(
            s,
            k2,
        ) by {
            assert(t.drop_first() =~= s);
        }
    } else {
        let sd = s.drop_first();
        assert forall|j: int| 0 <= j < sd.len() implies (#[trigger] sd[j].0@) != key@ by {
            assert(sd[j] == s[j + 1]);
        }
        lemma_stats_of_push(sd, key, v);
        assert(t.drop_first() =~= sd.push((key, v)));
        assert(t[0] == s[0]);
        assert(stats_of_seq(t, key@) == stats_of_seq(t.drop_first(), key@));
        assert forall|k2: Seq<char>| k2 != key@ implies stats_of_seq(t, k2) == stats_of_seq(
            s,
            k2,
        ) by {
            if s[0].0@ != k2 {
                assert(stats_of_seq(t, k2) == stats_of_seq(t.drop_first(), k2));
                assert(stats_of_seq(s, k2) == stats_of_seq(sd, k2));
            }
        }
    }
}

proof fn lemma_stats_of_bound(s: Seq<(String, EventStats)>, k: Seq<char>, bound: int)
    requires
        forall|i: int| 0 <= i < s.len() ==> (#[trigger] s[i].1).published as int <= bound,
        forall|i: int| 0 <= i < s.len() ==> (#[trigger] s[i].1).dropped <= s[i].1.published,
        forall|i: int| 0 <= i < s.len() ==> (#[trigger] s[i].1).received == 0,
        bound >= 0,
    ensures
        stats_of_seq(s, k).published as int <= bound,
        stats_of_seq(s, k).dropped <= stats_of_seq(s, k).published,
        stats_of_seq(s, k).received == 0,
    decreases s.len(),
{
    if s.len() > 0 && s[0].0@ != k {
        lemma_stats_of_bound(s.drop_first(), k, bound);
    }
}

/// High-performance event bus for pub/sub across event types.
///
/// Fan-out channels are created lazily, exactly one per type-name key; the
/// statistics registry counts published and dropped events per key. The bus
/// owns the monotonic id counter that stamps envelopes, and a ghost log of
/// every envelope it ever handed to its channels.
pub struct EventBus {
    /// One broadcast channel per event type name.
    channels: Vec<(String, tokio::sync::broadcast::Sender<EventEnvelope>)>,
    /// Event recorder for replay (optional).
    recorder: Option<EventRecorder>,
    /// Per-type statistics.
    stats: Vec<(String, EventStats)>,
    /// Next envelope id; starts at 1 and never repeats.
    next_id: u64,
    /// Every envelope published through this bus, in publish order.
    log: Ghost<Seq<EventEnvelopeView>>,
}

impl EventBus {
    /// The registered channel entries (key and send half), in creation order.
    pub closed spec fn channels_seq(self) -> Seq<
        (String, tokio::sync::broadcast::Sender<EventEnvelope>),
    > {
        self.channels@
    }

    /// Whether a channel for this type-name key exists.
    pub open spec fn has_channel(self, k: Seq<char>) -> bool {
        exists|i: int|
            0 <= i < self.channels_seq().len() && #[trigger] self.channels_seq()[i].0@ == k
    }

    /// The statistics entries, in creation order.
    pub closed spec fn stats_seq(self) -> Seq<(String, EventStats)> {
        self.stats@
    }

    /// The counters recorded under a type-name key; zero before the first
    /// publish of that key.
    pub open spec fn stats_of(self, k: Seq<char>) -> EventStats {
        stats_of_seq(self.stats_seq(), k)
    }

    /// The optional recorder mirroring published envelopes.
    pub closed spec fn recorder_spec(self) -> Option<EventRecorder> {
        self.recorder
    }

    /// The id the next published envelope will carry.
    pub closed spec fn next_id_spec(self) -> u64 {
        self.next_id
    }

    /// Every envelope published through this bus so far, in publish order.
    pub closed spec fn log_view(self) -> Seq<EventEnvelopeView> {
        self.log@
    }

    /// Structural invariant: channel and statistics keys are unique (exactly
    /// one channel is ever created per key), counters stay below the id
    /// counter, ids start at 1, the log length matches the publish count,
    /// every logged id lies below the counter (so the next id is fresh), and
    /// an attached recorder is well formed.
    pub closed spec fn wf(self) -> bool {
        &&& (forall|i: int, j: int|
            0 <= i < j < self.channels@.len() ==> (#[trigger] self.channels@[i].0@) != (
            #[trigger] self.channels@[j].0@))
        &&& (forall|i: int, j: int|
            0 <= i < j < self.stats@.len() ==> (#[trigger] self.stats@[i].0@) != (
            #[trigger] self.stats@[j].0@))
        &&& (forall|i: int|
            0 <= i < self.stats@.len() ==> (#[trigger] self.stats@[i].1).published as int
                <= self.next_id as int - 1)
        &&& (forall|i: int|
            0 <= i < self.stats@.len() ==> (#[trigger] self.stats@[i].1).dropped
                <= self.stats@[i].1.published)
        &&& (forall|i: int| 0 <= i < self.stats@.len() ==> (#[trigger] self.stats@[i].1).received == 0)
        &&& self.next_id >= 1
        &&& self.log@.len() == self.next_id as int - 1
        &&& (forall|i: int| 0 <= i < self.log@.len() ==> (#[trigger] self.log@[i]).id < self.next_id)
        &&& (match self.recorder {
            Some(rec) => rec.wf(),
            None => true,
        })
    }

    /// Create a new event bus, without recording.
    pub fn new() -> (r: Self)
        ensures
            r.wf(),
            r.channels_seq() == Seq::<
                (String, tokio::sync::broadcast::Sender<EventEnvelope>),
            >::empty(),
            r.stats_seq() == Seq::<(String, EventStats)>::empty(),
            r.recorder_spec() is None,
            r.next_id_spec() == 1,
            r.log_view() == Seq::<EventEnvelopeView>::empty(),
    {
        EventBus {
            channels: Vec::new(),
            recorder: None,
            stats: Vec::new(),
            next_id: 1,
            log: Ghost(Seq::empty()),
        }
    }

    /// Create an event bus that mirrors every published envelope into a
    /// recorder of the given capacity.
    pub fn with_recording(capacity: usize) -> (r: Self)
        requires
            capacity >= 1,
        ensures
            r.wf(),
            r.channels_seq() == Seq::<
                (String, tokio::sync::broadcast::Sender<EventEnvelope>),
            >::empty(),
            r.stats_seq() == Seq::<(String, EventStats)>::empty(),
            r.recorder_spec() matches Some(rec) && rec.contents() == Seq::<
                EventEnvelopeView,
            >::empty() && rec.cap() == capacity,
            r.next_id_spec() == 1,
            r.log_view() == Seq::<EventEnvelopeView>::empty(),
    {
        EventBus {
            channels: Vec::new(),
            recorder: Some(EventRecorder::new(capacity)),
            stats: Vec::new(),
            next_id: 1,
            log: Ghost(Seq::empty()),
        }
    }

    /// Whether two strings hold the same characters.
    fn str_keys_equal(a: &String, b: &str) -> (r: bool)
        ensures
            r == (a@ == b@),
    {
        let owned: String = b.to_owned();
        *a == owned
    }

    /// Index of the first channel entry under this key, if any.
    fn find_channel(&self, event_type: &str) -> (r: Option<usize>)
        ensures
            r matches Some(i) ==> i < self.channels_seq().len() && self.channels_seq()[
                i as int
            ].0@ == event_type@,
            r is None ==> forall|j: int|
                0 <= j < self.channels_seq().len() ==> (#[trigger] self.channels_seq()[j].0@)
                    != event_type@,
    {
        let mut i: usize = 0;
        while i < self.channels.len()
            invariant
                i <= self.channels@.len(),
                forall|j: int| 0 <= j < i ==> (#[trigger] self.channels@[j].0@) != event_type@,
            decreases self.channels@.len() - i,
        {
            if Self::str_keys_equal(&self.channels[i].0, event_type) {
                return Some(i);
            }
            i = i + 1;
        }
        None
    }

    /// Index of the first statistics entry under this key, if any.
    fn find_stat(&self, event_type: &str) -> (r: Option<usize>)
        ensures
            r matches Some(i) ==> i < self.stats_seq().len() && self.stats_seq()[i as int].0@
                == event_type@ && (forall|j: int|
                0 <= j < i ==> (#[trigger] self.stats_seq()[j].0@) != event_type@),
            r is None ==> forall|j: int|
                0 <= j < self.stats_seq().len() ==> (#[trigger] self.stats_seq()[j].0@)
                    != event_type@,
    {
        let mut i: usize = 0;
        while i < self.stats.len()
            invariant
                i <= self.stats@.len(),
                forall|j: int| 0 <= j < i ==> (#[trigger] self.stats@[j].0@) != event_type@,
            decreases self.stats@.len() - i,
        {
            if Self::str_keys_equal(&self.stats[i].0, event_type) {
                return Some(i);
            }
            i = i + 1;
        }
        None
    }

    /// Relation between the registries before and after a channel lookup:
    /// either the key was present and nothing changed, or exactly one entry
    /// for it was appended.
    pub open spec fn channels_after_lookup(pre: Self, post: Self, k: Seq<char>) -> bool {
        ||| (post.channels_seq() == pre.channels_seq() && pre.has_channel(k))
        ||| (post.channels_seq().len() == pre.channels_seq().len() + 1 && post.channels_seq()
            .subrange(0, pre.channels_seq().len() as int) == pre.channels_seq()
            && post.channels_seq().last().0@ == k && !pre.has_channel(k))
    }

    /// Get the channel for this key, creating it if missing; exactly one
    /// channel ever exists per key.
    fn get_or_create_channel(&mut self, event_type: &str) -> (r: usize)
        requires
            old(self).wf(),
        ensures
            final(self).wf(),
            r < final(self).channels_seq().len(),
            final(self).channels_seq()[r as int].0@ == event_type@,
            Self::channels_after_lookup(*old(self), *final(self), event_type@),
            final(self).has_channel(event_type@),
            final(self).stats_seq() == old(self).stats_seq(),
            final(self).recorder_spec() == old(self).recorder_spec(),
            final(self).next_id_spec() == old(self).next_id_spec(),
            final(self).log_view() == old(self).log_view(),
    {
        match self.find_channel(event_type) {
            Some(i) => i,
            None => {
                let key: String = event_type.to_owned();
                let sender = fanout_channel(CHANNEL_CAPACITY);
                let ghost pre = self.channels@;
                self.channels.push((key, sender));
                proof {
                    assert(pre == old(self).channels@);
                    assert(self.channels@.last().0@ == event_type@);
                    assert forall|i: int, j: int|
                        0 <= i < j < self.channels@.len() implies (
                    #[trigger] self.channels@[i].0@) != (#[trigger] self.channels@[j].0@) by {
                        if j == pre.len() as int {
                            assert(self.channels@[i].0@ == old(self).channels_seq()[i].0@);
                            assert(self.channels@[j].0@ == event_type@);
                        } else {
                            assert(self.channels@[i].0@ == old(self).channels_seq()[i].0@);
                            assert(self.channels@[j].0@ == old(self).channels_seq()[j].0@);
                        }
                    }
                    assert(self.channels@.subrange(0, pre.len() as int) =~= pre);
                }
                self.channels.len() - 1
            },
        }
    }

    /// Count one publish under this key, creating the entry if missing: the
    /// published counter always grows by one, and the dropped counter grows
    /// by one too when the envelope reached no subscriber.
    fn bump_publish_stats(&mut self, event_type: &str, delivered: bool)
        requires
            old(self).wf(),
            old(self).stats_of(event_type@).published as int + 1 <= old(self).next_id_spec()
                as int - 1,
            old(self).stats_of(event_type@).dropped <= old(self).stats_of(event_type@).published,
        ensures
            final(self).wf(),
            final(self).stats_of(event_type@) == (EventStats {
                published: (old(self).stats_of(event_type@).published + 1) as u64,
                received: old(self).stats_of(event_type@).received,
                dropped: if delivered {
                    old(self).stats_of(event_type@).dropped
                } else {
                    (old(self).stats_of(event_type@).dropped + 1) as u64
                },
            }),
            forall|k2: Seq<char>|
                k2 != event_type@ ==> final(self).stats_of(k2) == old(self).stats_of(k2),
            final(self).channels_seq() == old(self).channels_seq(),
            final(self).recorder_spec() == old(self).recorder_spec(),
            final(self).next_id_spec() == old(self).next_id_spec(),
            final(self).log_view() == old(self).log_view(),
    {
        match self.find_stat(event_type) {
            Some(i) => {
                proof {
                    lemma_stats_of_first(self.stats@, i as int);
                }
                let cur = self.stats[i].1;
                let key = self.stats[i].0.clone();
                let ghost pre = self.stats@;
                let updated = EventStats {
                    published: cur.published + 1,
                    received: cur.received,
                    dropped: if delivered {
                        cur.dropped
                    } else {
                        cur.dropped + 1
                    },
                };
                self.stats[i] = (key, updated);
                proof {
                    lemma_stats_of_update(pre, i as int, updated);
                }
            },
            None => {
                proof {
                    lemma_stats_of_absent(self.stats@, event_type@);
                }
                let key: String = event_type.to_owned();
                let ghost pre = self.stats@;
                let entry = EventStats {
                    published: 1,
                    received: 0,
                    dropped: if delivered {
                        0
                    } else {
                        1
                    },
                };
                self.stats.push((key, entry));
                proof {
                    lemma_stats_of_push(pre, (key, entry).0, entry);
                }
            },
        }
    }

    /// What one publish does to the bus: the id counter advances, exactly one
    /// envelope carrying the payload is appended to the log, the recorder (if
    /// any) records it, exactly one counter under the payload's key grows by
    /// one, and every other key's counters stay put.
    pub open spec fn publish_post(
        pre: Self,
        post: Self,
        ev: EventPayloadView,
        priority: u8,
    ) -> bool {
        let k = ev.kind_name_spec();
        let pv = post.log_view().last();
        &&& post.next_id_spec() == pre.next_id_spec() + 1
        &&& post.log_view() == pre.log_view().push(pv)
        &&& pv.id == pre.next_id_spec()
        &&& pv.priority == priority
        &&& pv.event == ev
        &&& (match (pre.recorder_spec(), post.recorder_spec()) {
            (Some(r0), Some(r1)) => EventRecorder::record_step(r0, r1, pv),
            (None, None) => true,
            _ => false,
        })
        &&& ({
            ||| post.stats_of(k) == (EventStats {
                published: (pre.stats_of(k).published + 1) as u64,
                received: pre.stats_of(k).received,
                dropped: pre.stats_of(k).dropped,
            })
            ||| post.stats_of(k) == (EventStats {
                published: (pre.stats_of(k).published + 1) as u64,
                received: pre.stats_of(k).received,
                dropped: (pre.stats_of(k).dropped + 1) as u64,
            })
        })
        &&& (forall|k2: Seq<char>| k2 != k ==> post.stats_of(k2) == pre.stats_of(k2))
        &&& Self::channels_after_lookup(pre, post, k)
        &&& post.has_channel(k)
    }

    /// Publish an event to all current subscribers of its type, with the
    /// default priority. Absence of subscribers is not an error: the envelope
    /// is additionally counted as dropped and the call still succeeds.
    pub fn publish(&mut self, event: EventPayload) -> (r: Result<(), BusError>)
        requires
            old(self).wf(),
            old(self).next_id_spec() < u64::MAX,
        ensures
            final(self).wf(),
            r is Ok,
            Self::publish_post(*old(self), *final(self), event@, DEFAULT_PRIORITY),
    {
        self.publish_with_priority(event, DEFAULT_PRIORITY)
    }

    /// Publish an event with a specific priority (0 = highest). The envelope
    /// is stamped with the next id and the current wall-clock time, mirrored
    /// into the recorder when recording is enabled, and handed to the fan-out
    /// channel of its type. The published counter of that type always grows
    /// by one; when no subscriber received the envelope, the dropped counter
    /// grows by one as well. Never fails under normal operation.
    pub fn publish_with_priority(&mut self, event: EventPayload, priority: u8) -> (r: Result<
        (),
        BusError,
    >)
        requires
            old(self).wf(),
            old(self).next_id_spec() < u64::MAX,
            priority <= LOWEST_PRIORITY,
        ensures
            final(self).wf(),
            r is Ok,
            Self::publish_post(*old(self), *final(self), event@, priority),
    {
        let ghost ev = event@;
        let id = self.next_id;
        self.next_id = self.next_id + 1;
        let timestamp_ns = now_timestamp_ns();
        let name: String = event.kind_name().to_owned();
        let envelope = EventEnvelope::new(id, timestamp_ns, event, priority);
        self.log = Ghost(self.log@.push(envelope@));
        match &mut self.recorder {
            Some(rec) => {
                rec.record(envelope.clone());
            },
            None => {},
        }
        let idx = self.get_or_create_channel(name.as_str());
        let outcome = fanout_send(&self.channels[idx].1, envelope);
        proof {
            lemma_stats_of_bound(
                self.stats@,
                ev.kind_name_spec(),
                old(self).next_id_spec() as int - 1,
            );
        }
        match outcome {
            Ok(_) => {
                self.bump_publish_stats(name.as_str(), true);
            },
            Err(_) => {
                self.bump_publish_stats(name.as_str(), false);
            },
        }
        Ok(())
    }

    /// Relation between a bus before and after a subscribe: the channel for
    /// the key exists afterwards (created lazily if missing), and nothing
    /// else moves.
    pub open spec fn subscribe_post(pre: Self, post: Self, k: Seq<char>) -> bool {
        &&& Self::channels_after_lookup(pre, post, k)
        &&& post.has_channel(k)
        &&& post.stats_seq() == pre.stats_seq()
        &&& post.recorder_spec() == pre.recorder_spec()
        &&& post.next_id_spec() == pre.next_id_spec()
        &&& post.log_view() == pre.log_view()
    }

    /// Subscribe to a specific event type: a new receiver bound to the
    /// (lazily created) fan-out channel for that type name.
    pub fn subscribe(&mut self, event_type: &str) -> (r: tokio::sync::broadcast::Receiver<
        EventEnvelope,
    >)
        requires
            old(self).wf(),
        ensures
            final(self).wf(),
            Self::subscribe_post(*old(self), *final(self), event_type@),
    {
        let idx = self.get_or_create_channel(event_type);
        fanout_subscribe(&self.channels[idx].1)
    }

    /// Subscribe to market data events.
    pub fn subscribe_market_data(&mut self) -> (r: tokio::sync::broadcast::Receiver<
        EventEnvelope,
    >)
        requires
            old(self).wf(),
        ensures
            final(self).wf(),
            Self::subscribe_post(*old(self), *final(self), "MarketData"@),
    {
        self.subscribe("MarketData")
    }

    /// Subscribe to signal events.
    pub fn subscribe_signals(&mut self) -> (r: tokio::sync::broadcast::Receiver<EventEnvelope>)
        requires
            old(self).wf(),
        ensures
            final(self).wf(),
            Self::subscribe_post(*old(self), *final(self), "Signal"@),
    {
        self.subscribe("Signal")
    }

    /// Subscribe to fill events.
    pub fn subscribe_fills(&mut self) -> (r: tokio::sync::broadcast::Receiver<EventEnvelope>)
        requires
            old(self).wf(),
        ensures
            final(self).wf(),
            Self::subscribe_post(*old(self), *final(self), "Fill"@),
    {
        self.subscribe("Fill")
    }

    /// Subscribe to order events.
    pub fn subscribe_orders(&mut self) -> (r: tokio::sync::broadcast::Receiver<EventEnvelope>)
        requires
            old(self).wf(),
        ensures
            final(self).wf(),
            Self::subscribe_post(*old(self), *final(self), "Order"@),
    {
        self.subscribe("Order")
    }

    /// Subscribe to feature events.
    pub fn subscribe_features(&mut self) -> (r: tokio::sync::broadcast::Receiver<EventEnvelope>)
        requires
            old(self).wf(),
        ensures
            final(self).wf(),
            Self::subscribe_post(*old(self), *final(self), "Feature"@),
    {
        self.subscribe("Feature")
    }

    /// The id the next published envelope will carry: envelopes count up
    /// from 1, so this also bounds every id handed out so far. Callers
    /// outside verified code use it to check counter headroom before a
    /// batch of publishes.
    pub fn next_publish_id(&self) -> (r: u64)
        ensures
            r == self.next_id_spec(),
    {
        self.next_id
    }

    /// Snapshot of the per-type statistics, in creation order.
    pub fn get_stats(&self) -> (r: Vec<(String, EventStats)>)
        ensures
            r@ == self.stats_seq(),
    {
        let mut r: Vec<(String, EventStats)> = Vec::new();
        let mut i: usize = 0;
        while i < self.stats.len()
            invariant
                i <= self.stats@.len(),
                r@ == self.stats@.subrange(0, i as int),
            decreases self.stats@.len() - i,
        {
            let pair = (self.stats[i].0.clone(), self.stats[i].1);
            proof {
                assert(pair == self.stats@[i as int]);
            }
            r.push(pair);
            i = i + 1;
        }
        proof {
            assert(r@ =~= self.stats@);
        }
        r
    }

    /// The event recorder, when recording is enabled.
    pub fn recorder(&self) -> (r: Option<&EventRecorder>)
        ensures
            match r {
                Some(rec) => self.recorder_spec() == Some(*rec),
                None => self.recorder_spec() is None,
            },
    {
        match &self.recorder {
            Some(rec) => Some(rec),
            None => None,
        }
    }
}

impl Default for EventBus {
    /// A fresh bus without recording.
    fn default() -> (r: Self)
        ensures
            r.wf(),
            r.recorder_spec() is None,
            r.next_id_spec() == 1,
            r.log_view() == Seq::<EventEnvelopeView>::empty(),
    {
        EventBus::new()
    }
}

} // verus!
