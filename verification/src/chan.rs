//! Trusted declarations for the channel primitive.
//!
//! The mock streams delegate all synchronization to `std::sync::mpsc`: an
//! unbounded multi-producer single-consumer queue whose producer reports
//! failure once the consumer is gone, and whose consumer reports failure once
//! every producer is gone and the queue is drained.  What a `recv` yields
//! depends on what the other endpoint sent, so no contract here speaks of
//! values; every caller in this crate states what holds of whatever comes
//! back.

use vstd::prelude::*;

verus! {

/// Declares `std::sync::mpsc::Sender` so it can stand in fields and
/// signatures; its values are opaque.
#[verifier::external_type_specification]
#[verifier::external_body]
#[verifier::reject_recursive_types(T)]
pub struct ExSender<T>(std::sync::mpsc::Sender<T>);

/// Declares `std::sync::mpsc::Receiver`; its values are opaque.
#[verifier::external_type_specification]
#[verifier::external_body]
#[verifier::reject_recursive_types(T)]
pub struct ExReceiver<T>(std::sync::mpsc::Receiver<T>);

/// Declares `std::sync::mpsc::SendError`, the error a send reports when the
/// receiver has been dropped.
#[verifier::external_type_specification]
#[verifier::external_body]
#[verifier::reject_recursive_types(T)]
pub struct ExSendError<T>(std::sync::mpsc::SendError<T>);

/// Declares `std::sync::mpsc::RecvError`, the error a receive reports when
/// every sender has been dropped and the queue is drained.
#[verifier::external_type_specification]
#[verifier::external_body]
pub struct ExRecvError(std::sync::mpsc::RecvError);

/// Declares `std::sync::mpsc::RecvTimeoutError`, the error a bounded-wait
/// receive reports when the wait expires or the channel is closed.
#[verifier::external_type_specification]
#[verifier::external_body]
pub struct ExRecvTimeoutError(std::sync::mpsc::RecvTimeoutError);

/// Relies on `std::sync::mpsc::channel`: creates a connected producer and
/// consumer pair for a fresh unbounded queue.
pub assume_specification<T>[ std::sync::mpsc::channel::<T> ]() -> (r: (
    std::sync::mpsc::Sender<T>,
    std::sync::mpsc::Receiver<T>,
));

/// Relies on `std::sync::mpsc::Sender::send`: enqueues the value without
/// blocking, or returns it inside `SendError` when the receiver is gone.
/// Which of the two happens depends on the other endpoint, so nothing more is
/// assumed.
pub assume_specification<T>[ std::sync::mpsc::Sender::<T>::send ](
    sender: &std::sync::mpsc::Sender<T>,
    t: T,
) -> (r: Result<(), std::sync::mpsc::SendError<T>>);

/// Relies on `std::sync::mpsc::Sender::clone`: a clone feeds the same
/// queue.  A write half derives `Clone` through this, so the producer side
/// may fan out; the consumer side never does.
pub assume_specification<T>[ <std::sync::mpsc::Sender<T> as std::clone::Clone>::clone ](
    sender: &std::sync::mpsc::Sender<T>,
) -> (r: std::sync::mpsc::Sender<T>);

/// Relies on `std::sync::mpsc::Receiver::recv`: blocks until a value arrives
/// or every sender is gone and the queue is drained.  The value received
/// depends on the other endpoint, so nothing is assumed of it.
pub assume_specification<T>[ std::sync::mpsc::Receiver::<T>::recv ](
    receiver: &std::sync::mpsc::Receiver<T>,
) -> (r: Result<T, std::sync::mpsc::RecvError>);

/// Relies on `std::sync::mpsc::Receiver::recv_timeout`: like `recv`, but
/// gives up once the given duration has elapsed with nothing arrived.
pub assume_specification<T>[ std::sync::mpsc::Receiver::<T>::recv_timeout ](
    receiver: &std::sync::mpsc::Receiver<T>,
    timeout: core::time::Duration,
) -> (r: Result<T, std::sync::mpsc::RecvTimeoutError>);

} // verus!
