//! Fast bounded/unbounded multi-producer multi-consumer channels, the
//! primitive beneath the typed bus. Cloned handles share one underlying
//! queue, so several receivers compete for messages.

use vstd::prelude::*;

verus! {

#[verifier::external_type_specification]
#[verifier::external_body]
#[verifier::reject_recursive_types(T)]
pub struct ExFlumeSender<T>(flume::Sender<T>);

#[verifier::external_type_specification]
#[verifier::external_body]
#[verifier::reject_recursive_types(T)]
pub struct ExFlumeReceiver<T>(flume::Receiver<T>);

/// Send error: every receiving handle was dropped; the message comes back.
#[derive(Debug)]
pub struct SendError<E>(pub E);

/// Non-blocking send error; the message comes back either way.
#[derive(Debug)]
pub enum TrySendError<E> {
    /// The bounded channel is at capacity.
    Full(E),
    /// Every receiving handle was dropped.
    Disconnected(E),
}

/// Receive error: every sending handle was dropped and the queue is drained.
#[derive(Debug, Clone, Copy, PartialEq, Eq, Structural)]
pub struct RecvError;

/// Non-blocking receive error.
#[derive(Debug, Clone, Copy, PartialEq, Eq, Structural)]
pub enum TryRecvError {
    /// Nothing queued right now.
    Empty,
    /// Every sending handle was dropped and the queue is drained.
    Disconnected,
}

/// Relies on flume's `bounded`: a connected channel pair holding at most
/// `capacity` queued messages.
#[verifier::external_body]
pub(crate) fn flume_bounded<E>(capacity: usize) -> (flume::Sender<E>, flume::Receiver<E>) {
    flume::bounded(capacity)
}

/// Relies on flume's `unbounded`: a connected channel pair without a bound.
#[verifier::external_body]
fn flume_unbounded<E>() -> (flume::Sender<E>, flume::Receiver<E>) {
    flume::unbounded()
}

/// Relies on flume's `Sender::send`: waits while a bounded channel is full;
/// fails only when every receiver was dropped, handing the message back.
#[verifier::external_body]
fn flume_send<E>(sender: &flume::Sender<E>, msg: E) -> (r: Result<(), SendError<E>>)
    ensures
        r matches Err(e) ==> e.0 == msg,
{
    match sender.send(msg) {
        Ok(()) => Ok(()),
        Err(e) => Err(SendError(e.0)),
    }
}

/// Relies on flume's `Sender::try_send`: never waits; reports a full bounded
/// channel or a disconnected one, handing the message back either way.
#[verifier::external_body]
fn flume_try_send<E>(sender: &flume::Sender<E>, msg: E) -> (r: Result<(), TrySendError<E>>)
    ensures
        r matches Err(e) ==> (e matches TrySendError::Full(m) && m == msg) || (e matches
            TrySendError::Disconnected(m) && m == msg),
{
    match sender.try_send(msg) {
        Ok(()) => Ok(()),
        Err(flume::TrySendError::Full(m)) => Err(TrySendError::Full(m)),
        Err(flume::TrySendError::Disconnected(m)) => Err(TrySendError::Disconnected(m)),
    }
}

/// Relies on flume's `Receiver::recv`: waits until a message arrives or every
/// sender was dropped.
#[verifier::external_body]
pub(crate) fn flume_recv<E>(receiver: &flume::Receiver<E>) -> Result<E, RecvError> {
    match receiver.recv() {
        Ok(msg) => Ok(msg),
        Err(flume::RecvError::Disconnected) => Err(RecvError),
    }
}

/// Relies on flume's `Receiver::try_recv`: never waits; tells an empty queue
/// apart from a disconnected one.
#[verifier::external_body]
pub(crate) fn flume_try_recv<E>(receiver: &flume::Receiver<E>) -> Result<E, TryRecvError> {
    match receiver.try_recv() {
        Ok(msg) => Ok(msg),
        Err(flume::TryRecvError::Empty) => Err(TryRecvError::Empty),
        Err(flume::TryRecvError::Disconnected) => Err(TryRecvError::Disconnected),
    }
}

/// Relies on flume's `Receiver::len`: how many messages are queued right now.
#[verifier::external_body]
fn flume_len<E>(receiver: &flume::Receiver<E>) -> usize {
    receiver.len()
}

/// Relies on flume's `Receiver::is_empty`: whether the queue is empty right
/// now.
#[verifier::external_body]
fn flume_is_empty<E>(receiver: &flume::Receiver<E>) -> bool {
    receiver.is_empty()
}

/// Relies on flume's `Sender::clone`: a new handle on the same queue. The
/// model identifies a handle with its queue — nothing observable here
/// distinguishes two handles on one queue — so the clone is the same value.
#[verifier::external_body]
pub(crate) fn flume_clone_sender<E>(sender: &flume::Sender<E>) -> (r: flume::Sender<E>)
    ensures
        r == *sender,
{
    sender.clone()
}

/// Relies on flume's `Receiver::clone`: a new handle on the same queue;
/// receivers on one queue compete, each message goes to exactly one of
/// them. The model identifies a handle with its queue, so the clone is the
/// same value.
#[verifier::external_body]
pub(crate) fn flume_clone_receiver<E>(receiver: &flume::Receiver<E>) -> (r: flume::Receiver<E>)
    ensures
        r == *receiver,
{
    receiver.clone()
}

/// Relies on flume's `Receiver::recv_timeout`: on a channel whose senders
/// never send, the call waits out the timeout and returns empty-handed. Used
/// as a bounded wait. Very large timeouts are excluded: flume adds the
/// timeout to the current instant, which must not overflow.
#[verifier::external_body]
pub(crate) fn flume_wait_timeout_ns(receiver: &flume::Receiver<u8>, ns: u64)
    requires
        ns <= 3_600_000_000_000u64,
{
    let _ = receiver.recv_timeout(core::time::Duration::from_nanos(ns));
}

/// Fast channel: a bounded or unbounded MPMC queue with non-blocking
/// variants. Cloning shares the same queue by reference.
#[verifier::reject_recursive_types(E)]
pub struct FastChannel<E> {
    sender: flume::Sender<E>,
    receiver: flume::Receiver<E>,
}

impl<E> FastChannel<E> {
    /// Create a bounded channel (recommended, for backpressure).
    pub fn bounded(capacity: usize) -> Self {
        let (sender, receiver) = flume_bounded(capacity);
        FastChannel { sender, receiver }
    }

    /// Create an unbounded channel (use with caution).
    pub fn unbounded() -> Self {
        let (sender, receiver) = flume_unbounded();
        FastChannel { sender, receiver }
    }

    /// Send an event, waiting while a bounded channel is full; fails only
    /// when every receiving handle was dropped, and then hands the event
    /// back.
    pub fn send(&self, event: E) -> (r: Result<(), SendError<E>>)
        ensures
            r matches Err(e) ==> e.0 == event,
    {
        flume_send(&self.sender, event)
    }

    /// Try to send without waiting; a full or disconnected channel hands the
    /// event back, and the two cases are told apart.
    pub fn try_send(&self, event: E) -> (r: Result<(), TrySendError<E>>)
        ensures
            r matches Err(e) ==> (e matches TrySendError::Full(m) && m == event) || (e matches
                TrySendError::Disconnected(m) && m == event),
    {
        flume_try_send(&self.sender, event)
    }

    /// Receive an event, waiting until one arrives or every sender was
    /// dropped.
    pub fn recv(&self) -> Result<E, RecvError> {
        flume_recv(&self.receiver)
    }

    /// Try to receive without waiting.
    pub fn try_recv(&self) -> Result<E, TryRecvError> {
        flume_try_recv(&self.receiver)
    }

    /// A sender handle on the same queue.
    pub fn sender(&self) -> flume::Sender<E> {
        flume_clone_sender(&self.sender)
    }

    /// A receiver handle on the same queue; receivers compete for messages.
    pub fn receiver(&self) -> flume::Receiver<E> {
        flume_clone_receiver(&self.receiver)
    }

    /// Whether the queue is empty right now.
    pub fn is_empty(&self) -> bool {
        flume_is_empty(&self.receiver)
    }

    /// How many messages are queued right now.
    pub fn len(&self) -> usize {
        flume_len(&self.receiver)
    }
}

impl<E> Clone for FastChannel<E> {
    /// A pair of handles on the same queue: in the model, the same channel.
    fn clone(&self) -> (r: Self)
        ensures
            r == *self,
    {
        FastChannel {
            sender: flume_clone_sender(&self.sender),
            receiver: flume_clone_receiver(&self.receiver),
        }
    }
}

/// Multi-producer single-consumer channel: senders are cloned and shared,
/// the one receiver is only borrowed out.
#[verifier::reject_recursive_types(E)]
pub struct MpscChannel<E> {
    sender: flume::Sender<E>,
    receiver: flume::Receiver<E>,
}

impl<E> MpscChannel<E> {
    /// Create a new bounded MPSC channel.
    pub fn new(capacity: usize) -> Self {
        let (sender, receiver) = flume_bounded(capacity);
        MpscChannel { sender, receiver }
    }

    /// A sender handle that can be shared across threads.
    pub fn sender(&self) -> flume::Sender<E> {
        flume_clone_sender(&self.sender)
    }

    /// The receiving end; meant for a single consumer.
    pub fn receiver(&self) -> &flume::Receiver<E> {
        &self.receiver
    }
}

} // verus!
