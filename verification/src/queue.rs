//! The bounded worker queues, which are tokio's `mpsc` channels.
//!
//! A queue is shared with the task that drains it, so nothing here says what
//! a queue holds: an offer is accepted or it is not, and the caller is told
//! which.

use crate::package::ResponsePackage;
use tokio::sync::mpsc::error::TrySendError;
use tokio::sync::mpsc::{Receiver, Sender};
use vstd::prelude::*;

verus! {

/// tokio's `mpsc::Sender`, the sending end of a bounded queue. It is carried
/// around whole; nothing is claimed of what is inside.
#[verifier::external_type_specification]
#[verifier::external_body]
#[verifier::reject_recursive_types(T)]
pub struct ExSender<T>(Sender<T>);

/// tokio's `mpsc::Receiver`, the draining end of a bounded queue. It is
/// carried around whole; nothing is claimed of what is inside.
#[verifier::external_type_specification]
#[verifier::external_body]
#[verifier::reject_recursive_types(T)]
pub struct ExReceiver<T>(Receiver<T>);

/// How one offer to a worker queue ended.
#[derive(Debug, PartialEq, Eq)]
pub enum SendOutcome<B> {
    /// The queue took the package.
    Accepted,
    /// The queue was at capacity; the package comes back.
    Full(ResponsePackage<B>),
    /// The draining end is gone; the package comes back.
    Closed(ResponsePackage<B>),
}

impl<B> SendOutcome<B> {
    /// The outcome hands `package` back unless the queue took it.
    pub open spec fn hands_back(self, package: ResponsePackage<B>) -> bool {
        match self {
            SendOutcome::Accepted => true,
            SendOutcome::Full(back) => back == package,
            SendOutcome::Closed(back) => back == package,
        }
    }
}

/// The smallest capacity a queue can have.
pub const QUEUE_CAPACITY_MIN: usize = 1;

/// The capacity of each worker queue unless the host picks another.
pub const QUEUE_CAPACITY: usize = 100;

/// Whether a queue of `capacity` slots can be made.
pub open spec fn capacity_allowed(capacity: usize) -> bool {
    QUEUE_CAPACITY_MIN <= capacity <= usize::MAX / 8
}

/// Calls `tokio::sync::mpsc::channel`. The two ends are opaque, so nothing is
/// claimed of them; the precondition leaves out the capacities on which tokio
/// panics (zero, and more than its semaphore's `MAX_PERMITS`, which is
/// `usize::MAX >> 3`).
#[verifier::external_body]
pub(crate) fn open_queue<B>(capacity: usize) -> (ends: (
    Sender<ResponsePackage<B>>,
    Receiver<ResponsePackage<B>>,
))
    requires
        capacity_allowed(capacity),
{
    tokio::sync::mpsc::channel(capacity)
}

/// Calls `Sender::try_send`, which never waits. Claimed of it: when the queue
/// does not take the message, the error carries that same message back.
/// Which of the three outcomes occurs depends on the other end of the queue
/// and is left open.
#[verifier::external_body]
pub(crate) fn offer<B>(handle: &Sender<ResponsePackage<B>>, package: ResponsePackage<B>) -> (outcome:
    SendOutcome<B>)
    ensures
        outcome.hands_back(package),
{
    match handle.try_send(package) {
        Ok(()) => SendOutcome::Accepted,
        Err(TrySendError::Full(back)) => SendOutcome::Full(back),
        Err(TrySendError::Closed(back)) => SendOutcome::Closed(back),
    }
}

} // verus!
