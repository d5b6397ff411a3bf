//! The producer side of the output channel: an unbounded FIFO of complete
//! messages, with any number of producer handles and exactly one consumer —
//! the writer thread, which lives outside the library, dequeues a message,
//! writes its full byte representation and flushes before taking the next.
//!
//! The library only enqueues.  Whether an enqueue is accepted depends on
//! whether the consumer half still lives, a fact of the run and not of the
//! arguments, so nothing is promised of the outcome.

use vstd::prelude::*;

verus! {

/// std's multi-producer single-consumer sending half.
#[verifier::external_type_specification]
#[verifier::external_body]
#[verifier::reject_recursive_types(T)]
pub struct ExSender<T>(std::sync::mpsc::Sender<T>);

/// std's error for sending on a channel whose receiving half is gone.
#[verifier::external_type_specification]
#[verifier::external_body]
#[verifier::reject_recursive_types(T)]
pub struct ExSendError<T>(std::sync::mpsc::SendError<T>);

/// Relies on std::sync::mpsc::Sender::send: appends the value to the
/// channel's queue without blocking; it fails, returning the value, exactly
/// when the receiving half has been dropped.
pub assume_specification<T>[ std::sync::mpsc::Sender::<T>::send ](
    s: &std::sync::mpsc::Sender<T>,
    t: T,
) -> Result<(), std::sync::mpsc::SendError<T>>;

} // verus!
