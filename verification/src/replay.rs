//! Event recording for debugging and backtesting: a bounded ring buffer of
//! envelopes mirrored off the dynamic bus.

use vstd::prelude::*;

use crate::events::{env_seq_view, EventEnvelope, EventEnvelopeView};

verus! {

/// Records envelopes into a fixed-capacity ring buffer.
///
/// While the buffer is below capacity, a recorded envelope is appended; once
/// the buffer is full, the slot under a rotating cursor is overwritten. The
/// cursor advances modulo the capacity after every record, so the buffer
/// never holds more than `capacity` envelopes.
pub struct EventRecorder {
    /// Ring buffer of events.
    events: Vec<EventEnvelope>,
    /// Maximum capacity; fixed at construction.
    capacity: usize,
    /// Current write position.
    position: usize,
}

impl EventRecorder {
    /// The recorded envelopes, oldest insertion slot first, as views.
    ///
    /// Once overwriting has begun this order is the slot order, not the
    /// chronological order: an overwritten slot keeps its place.
    pub closed spec fn contents(self) -> Seq<EventEnvelopeView> {
        env_seq_view(self.events@)
    }

    /// The fixed capacity.
    pub closed spec fn cap(self) -> int {
        self.capacity as int
    }

    /// The rotating write cursor.
    pub closed spec fn cursor(self) -> int {
        self.position as int
    }

    /// Structural invariant: the buffer never exceeds its capacity, the
    /// cursor stays inside it, and during the growth phase the cursor sits
    /// at the append position.
    pub closed spec fn wf(self) -> bool {
        &&& self.capacity >= 1
        &&& self.events@.len() <= self.capacity
        &&& self.position < self.capacity
        &&& (self.events@.len() < self.capacity ==> self.position == self.events@.len())
    }

    /// Create a new recorder with the given capacity.
    pub fn new(capacity: usize) -> (r: Self)
        requires
            capacity >= 1,
        ensures
            r.wf(),
            r.cap() == capacity,
            r.cursor() == 0,
            r.contents() == Seq::<EventEnvelopeView>::empty(),
    {
        let r = EventRecorder { events: Vec::new(), capacity, position: 0 };
        proof {
            assert(r.contents() =~= Seq::<EventEnvelopeView>::empty());
        }
        r
    }

    /// What one record does to a recorder: while below capacity the envelope
    /// is appended, once full it overwrites the slot at the cursor, and the
    /// cursor advances modulo the capacity either way. The snapshot length
    /// never exceeds the capacity.
    pub open spec fn record_step(pre: Self, post: Self, e: EventEnvelopeView) -> bool {
        &&& post.wf()
        &&& post.cap() == pre.cap()
        &&& post.cursor() == (pre.cursor() + 1) % pre.cap()
        &&& (pre.contents().len() < pre.cap() ==> post.contents() == pre.contents().push(e))
        &&& (pre.contents().len() == pre.cap() ==> post.contents() == pre.contents().update(
            pre.cursor(),
            e,
        ))
        &&& post.contents().len() == if pre.contents().len() < pre.cap() {
            pre.contents().len() as int + 1
        } else {
            pre.cap()
        }
    }

    /// Record an envelope: append while below capacity, overwrite the slot at
    /// the cursor once full; the cursor advances modulo the capacity either
    /// way.
    pub fn record(&mut self, event: EventEnvelope)
        requires
            old(self).wf(),
        ensures
            Self::record_step(*old(self), *final(self), event@),
    {
        if self.events.len() < self.capacity {
            self.events.push(event);
            proof {
                assert(self.contents() =~= old(self).contents().push(event@));
            }
        } else {
            let ghost pre = self.events@;
            let slot = self.position;
            self.events[slot] = event;
            proof {
                assert(self.events@ == pre.update(slot as int, event));
                assert(self.contents() =~= old(self).contents().update(slot as int, event@));
            }
        }
        self.position = (self.position + 1) % self.capacity;
        proof {
            if old(self).position + 1 < old(self).capacity {
                vstd::arithmetic::div_mod::lemma_small_mod(
                    (old(self).position + 1) as nat,
                    old(self).capacity as nat,
                );
            } else {
                vstd::arithmetic::div_mod::lemma_mod_self_0(old(self).capacity as int);
            }
        }
    }

    /// Snapshot copy of the current contents, in slot order.
    pub fn get_events(&self) -> (r: Vec<EventEnvelope>)
        ensures
            env_seq_view(r@) == self.contents(),
    {
        let mut r: Vec<EventEnvelope> = Vec::new();
        let mut i: usize = 0;
        while i < self.events.len()
            invariant
                i <= self.events@.len(),
                env_seq_view(r@) == self.contents().subrange(0, i as int),
            decreases self.events@.len() - i,
        {
            r.push(self.events[i].clone());
            proof {
                assert(env_seq_view(r@) =~= self.contents().subrange(0, i as int).push(
                    self.contents()[i as int],
                ));
                assert(self.contents().subrange(0, i as int).push(self.contents()[i as int])
                    =~= self.contents().subrange(0, i as int + 1));
            }
            i = i + 1;
        }
        proof {
            assert(self.contents().subrange(0, self.events@.len() as int) =~= self.contents());
        }
        r
    }

    /// Envelopes of the snapshot whose embedded timestamp lies in the
    /// inclusive range, in slot order.
    #[verifier::loop_isolation(false)]
    pub fn get_events_in_range(&self, start_ns: i64, end_ns: i64) -> (r: Vec<EventEnvelope>)
        ensures
            env_seq_view(r@) == self.contents().filter(
                |e: EventEnvelopeView| start_ns <= e.timestamp_ns && e.timestamp_ns <= end_ns,
            ),
    {
        let ghost pred = |e: EventEnvelopeView| start_ns <= e.timestamp_ns && e.timestamp_ns
            <= end_ns;
        let mut r: Vec<EventEnvelope> = Vec::new();
        let mut i: usize = 0;
        proof {
            reveal_with_fuel(Seq::filter, 1);
            assert(self.contents().subrange(0, 0).filter(pred) =~= Seq::<
                EventEnvelopeView,
            >::empty());
        }
        while i < self.events.len()
            invariant
                i <= self.events@.len(),
                env_seq_view(r@) == self.contents().subrange(0, i as int).filter(pred),
            decreases self.events@.len() - i,
        {
            proof {
                reveal_with_fuel(Seq::filter, 2);
                let prefix = self.contents().subrange(0, i as int + 1);
                assert(prefix.len() == i + 1);
                assert(prefix.drop_last() =~= self.contents().subrange(0, i as int));
                assert(prefix.last() == self.contents()[i as int]);
                if pred(self.contents()[i as int]) {
                    assert(prefix.filter(pred) == self.contents().subrange(0, i as int).filter(
                        pred,
                    ).push(self.contents()[i as int]));
                } else {
                    assert(prefix.filter(pred) == self.contents().subrange(0, i as int).filter(
                        pred,
                    ));
                }
            }
            let e = &self.events[i];
            if start_ns <= e.timestamp_ns && e.timestamp_ns <= end_ns {
                r.push(e.clone());
                proof {
                    assert(env_seq_view(r@) =~= self.contents().subrange(0, i as int).filter(
                        pred,
                    ).push(self.contents()[i as int]));
                }
            }
            i = i + 1;
        }
        proof {
            assert(self.contents().subrange(0, self.events@.len() as int) =~= self.contents());
        }
        r
    }

    /// Reset to empty; the cursor returns to the start.
    pub fn clear(&mut self)
        requires
            old(self).wf(),
        ensures
            final(self).wf(),
            final(self).cap() == old(self).cap(),
            final(self).cursor() == 0,
            final(self).contents() == Seq::<EventEnvelopeView>::empty(),
    {
        self.events.clear();
        self.position = 0;
        proof {
            assert(self.contents() =~= Seq::<EventEnvelopeView>::empty());
        }
    }

    /// Number of recorded envelopes.
    pub fn len(&self) -> (r: usize)
        ensures
            r == self.contents().len(),
    {
        self.events.len()
    }

    /// Whether nothing is recorded.
    pub fn is_empty(&self) -> (r: bool)
        ensures
            r == (self.contents().len() == 0),
    {
        self.events.is_empty()
    }
}

/// Snapshot length after a number of records into a recorder of the given
/// capacity, starting from empty: each record grows the buffer by one until
/// the capacity is reached, then the length stays put.
pub open spec fn ring_len_after(records: nat, capacity: nat) -> nat
    decreases records,
{
    if records == 0 {
        0
    } else {
        let before = ring_len_after((records - 1) as nat, capacity);
        if before < capacity {
            before + 1
        } else {
            capacity
        }
    }
}

/// Ring bound: after any number of records at or above the capacity —
/// in particular after capacity-plus-m records for m > 0 — the snapshot
/// holds exactly `capacity` envelopes, never more. The step function here is
/// the length clause of [`EventRecorder::record`], starting from
/// [`EventRecorder::new`].
pub proof fn lemma_ring_bound(records: nat, capacity: nat)
    requires
        capacity >= 1,
    ensures
        ring_len_after(records, capacity) == if records < capacity {
            records
        } else {
            capacity
        },
    decreases records,
{
    if records > 0 {
        lemma_ring_bound((records - 1) as nat, capacity);
    }
}

} // verus!
