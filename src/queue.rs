//! The bounded queues between producer threads and the worker, kept in
//! tokio's multi-producer, single-consumer channel.
use vstd::prelude::*;

use crate::batch::SpanRequest;
use crate::ShutDown;

verus! {

#[verifier::external_type_specification]
#[verifier::external_body]
#[verifier::reject_recursive_types(T)]
pub struct ExSender<T>(tokio::sync::mpsc::Sender<T>);

#[verifier::external_type_specification]
#[verifier::external_body]
#[verifier::reject_recursive_types(T)]
pub struct ExReceiver<T>(tokio::sync::mpsc::Receiver<T>);

/// The largest bound tokio accepts for a channel: `Semaphore::MAX_PERMITS`,
/// which is `usize::MAX >> 3`.
pub const MAX_QUEUE_BOUND: usize = usize::MAX / 8;

/// What became of an item offered to a bounded queue.
#[derive(Clone, Copy, Debug, PartialEq, Eq, Structural)]
pub enum Offer {
    /// The item is in the queue.
    Accepted,
    /// The queue holds as many items as its bound; the item was dropped.
    Full,
    /// The receiving side is gone; the item was dropped.
    Closed,
}

/// The bound the export queue was made with, as `Sender::max_capacity`
/// returns it.
pub uninterp spec fn export_bound(sender: tokio::sync::mpsc::Sender<SpanRequest>) -> usize;

/// The bound the shutdown queue was made with, as `Sender::max_capacity`
/// returns it.
pub uninterp spec fn shutdown_bound(sender: tokio::sync::mpsc::Sender<ShutDown>) -> usize;

/// Relies on `tokio::sync::mpsc::channel`: a queue of batches that holds at
/// most `capacity` items; `Sender::max_capacity` returns that bound. tokio
/// panics on a bound of 0 or above `MAX_PERMITS`, which the `requires` leaves
/// out.
#[verifier::external_body]
pub(crate) fn export_queue(capacity: usize) -> (r: (
    tokio::sync::mpsc::Sender<SpanRequest>,
    tokio::sync::mpsc::Receiver<SpanRequest>,
))
    requires
        0 < capacity <= MAX_QUEUE_BOUND,
    ensures
        export_bound(r.0) == capacity,
{
    tokio::sync::mpsc::channel(capacity)
}

/// Relies on `tokio::sync::mpsc::channel`: a queue of shutdown sentinels that
/// holds at most `capacity` items; `Sender::max_capacity` returns that bound.
/// tokio panics on a bound of 0 or above `MAX_PERMITS`, which the `requires`
/// leaves out.
#[verifier::external_body]
pub(crate) fn shutdown_queue(capacity: usize) -> (r: (
    tokio::sync::mpsc::Sender<ShutDown>,
    tokio::sync::mpsc::Receiver<ShutDown>,
))
    requires
        0 < capacity <= MAX_QUEUE_BOUND,
    ensures
        shutdown_bound(r.0) == capacity,
{
    tokio::sync::mpsc::channel(capacity)
}

/// Relies on `tokio::sync::mpsc::Sender::try_send`: it never waits, and
/// refuses the item when the queue is full or its receiver is gone. Which of
/// the three happens depends on the other threads, so nothing is promised.
#[verifier::external_body]
pub(crate) fn offer<T>(sender: &tokio::sync::mpsc::Sender<T>, item: T) -> Offer {
    match sender.try_send(item) {
        Ok(()) => Offer::Accepted,
        Err(tokio::sync::mpsc::error::TrySendError::Full(_)) => Offer::Full,
        Err(tokio::sync::mpsc::error::TrySendError::Closed(_)) => Offer::Closed,
    }
}

} // verus!
