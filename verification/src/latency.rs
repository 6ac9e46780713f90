//! Latency accounting for one handled package.

use vstd::prelude::*;

verus! {

/// The time from `from` to `to`, in milliseconds; zero when the clock went
/// back between the two readings.
pub open spec fn elapsed(from: u128, to: u128) -> u128 {
    if to >= from {
        (to - from) as u128
    } else {
        0
    }
}

/// Computes [`elapsed`].
pub fn elapsed_ms(from: u128, to: u128) -> (span: u128)
    ensures
        span == elapsed(from, to),
{
    if to >= from {
        to - from
    } else {
        0
    }
}

/// The delays of one package, all in milliseconds.
#[derive(Clone, Copy, Debug, PartialEq, Eq, Structural)]
pub struct Latency {
    /// From entering the system to leaving the worker's queue.
    pub queue_ms: u128,
    /// From leaving the queue to the end of the frame write; `None` when no
    /// protocol was found and so no write was asked for.
    pub response_ms: Option<u128>,
    /// From entering the system to the end of handling: the end of the write
    /// where there was one, else the moment the package left the queue.
    pub total_ms: u128,
}

/// The delays of a package that entered the system at `receive_ms`, left the
/// worker's queue at `dequeue_ms`, and whose frame write, if one was asked
/// for, ended at `written_ms`.
pub open spec fn latency_of(receive_ms: u128, dequeue_ms: u128, written_ms: Option<u128>) -> Latency {
    Latency {
        queue_ms: elapsed(receive_ms, dequeue_ms),
        response_ms: match written_ms {
            Some(end) => Some(elapsed(dequeue_ms, end)),
            None => None,
        },
        total_ms: match written_ms {
            Some(end) => elapsed(receive_ms, end),
            None => elapsed(receive_ms, dequeue_ms),
        },
    }
}

/// Computes [`latency_of`].
pub fn measure(receive_ms: u128, dequeue_ms: u128, written_ms: Option<u128>) -> (latency: Latency)
    ensures
        latency == latency_of(receive_ms, dequeue_ms, written_ms),
{
    let queue_ms: u128 = elapsed_ms(receive_ms, dequeue_ms);
    match written_ms {
        Some(end) => Latency {
            queue_ms,
            response_ms: Some(elapsed_ms(dequeue_ms, end)),
            total_ms: elapsed_ms(receive_ms, end),
        },
        None => Latency { queue_ms, response_ms: None, total_ms: queue_ms },
    }
}

/// With a clock that never goes back, the total delay is the queueing delay
/// plus the response time.
pub proof fn lemma_total_is_queue_plus_response(receive_ms: u128, dequeue_ms: u128, written_ms: u128)
    requires
        receive_ms <= dequeue_ms <= written_ms,
    ensures
        latency_of(receive_ms, dequeue_ms, Some(written_ms)).total_ms == latency_of(
            receive_ms,
            dequeue_ms,
            Some(written_ms),
        ).queue_ms + latency_of(receive_ms, dequeue_ms, Some(written_ms)).response_ms->Some_0,
{
}

} // verus!
