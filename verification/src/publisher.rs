//! Publisher helper: fixed-priority convenience wrappers around the dynamic
//! bus.

use vstd::prelude::*;

use crate::bus::{BusError, EventBus};
use crate::events::{EventPayload, DEFAULT_PRIORITY};

verus! {

/// Helper for publishing events at fixed priorities.
pub struct Publisher {
    bus: EventBus,
}

impl Publisher {
    /// The wrapped bus.
    pub closed spec fn bus_spec(self) -> EventBus {
        self.bus
    }

    /// Wrap a bus.
    pub fn new(bus: EventBus) -> (r: Self)
        ensures
            r.bus_spec() == bus,
    {
        Publisher { bus }
    }

    /// Read access to the wrapped bus.
    pub fn bus(&self) -> (r: &EventBus)
        ensures
            *r == self.bus_spec(),
    {
        &self.bus
    }

    /// Take the wrapped bus back.
    pub fn into_bus(self) -> (r: EventBus)
        ensures
            r == self.bus_spec(),
    {
        self.bus
    }

    /// Publish an event with the default priority.
    pub fn publish(&mut self, event: EventPayload) -> (r: Result<(), BusError>)
        requires
            old(self).bus_spec().wf(),
            old(self).bus_spec().next_id_spec() < u64::MAX,
        ensures
            final(self).bus_spec().wf(),
            r is Ok,
            EventBus::publish_post(
                old(self).bus_spec(),
                final(self).bus_spec(),
                event@,
                DEFAULT_PRIORITY,
            ),
    {
        self.bus.publish(event)
    }

    /// Publish an event with the highest priority.
    pub fn publish_high_priority(&mut self, event: EventPayload) -> (r: Result<(), BusError>)
        requires
            old(self).bus_spec().wf(),
            old(self).bus_spec().next_id_spec() < u64::MAX,
        ensures
            final(self).bus_spec().wf(),
            r is Ok,
            EventBus::publish_post(old(self).bus_spec(), final(self).bus_spec(), event@, 0),
    {
        self.bus.publish_with_priority(event, 0)
    }

    /// Publish an event with the lowest priority.
    pub fn publish_low_priority(&mut self, event: EventPayload) -> (r: Result<(), BusError>)
        requires
            old(self).bus_spec().wf(),
            old(self).bus_spec().next_id_spec() < u64::MAX,
        ensures
            final(self).bus_spec().wf(),
            r is Ok,
            EventBus::publish_post(old(self).bus_spec(), final(self).bus_spec(), event@, 9),
    {
        self.bus.publish_with_priority(event, 9)
    }
}

} // verus!
