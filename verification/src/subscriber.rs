//! Subscriber helper around a fan-out channel receiver: non-blocking receive
//! and the lag-absorbing receive policy of the convenience path.

use vstd::prelude::*;

use crate::bus::{fanout_resubscribe, fanout_try_recv, BroadcastRecvError};
use crate::events::EventEnvelope;

verus! {

/// Helper for consuming one subscription of the dynamic bus.
pub struct Subscriber {
    receiver: tokio::sync::broadcast::Receiver<EventEnvelope>,
}

impl Subscriber {
    /// Wrap a fan-out channel receiver.
    pub fn new(receiver: tokio::sync::broadcast::Receiver<EventEnvelope>) -> Self {
        Subscriber { receiver }
    }

    /// The convenience receive policy: a delivered envelope is handed
    /// through; every signal — no new message, channel closed, or a lag
    /// report for skipped messages — is absorbed into "no event", so a caller
    /// of this path cannot distinguish "nothing new" from "messages missed".
    pub fn recv_outcome(outcome: Result<EventEnvelope, BroadcastRecvError>) -> (r: Option<
        EventEnvelope,
    >)
        ensures
            outcome matches Ok(env) ==> r == Some(env),
            outcome is Err ==> r is None,
    {
        match outcome {
            Ok(env) => Some(env),
            Err(BroadcastRecvError::Lagged(_)) => None,
            Err(BroadcastRecvError::Closed) => None,
            Err(BroadcastRecvError::Empty) => None,
        }
    }

    /// Try to receive the next envelope without blocking; lag and closure are
    /// absorbed as "no event".
    pub fn try_recv(&mut self) -> Option<EventEnvelope> {
        let outcome = fanout_try_recv(&mut self.receiver);
        Self::recv_outcome(outcome)
    }

    /// A fresh subscription on the same channel, starting at the current
    /// tail: useful after lagging.
    pub fn resubscribe(&self) -> Self {
        Subscriber { receiver: fanout_resubscribe(&self.receiver) }
    }
}

} // verus!
