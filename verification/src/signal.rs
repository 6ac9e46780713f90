//! The shutdown signal, as each task sees it on its subscription.

use vstd::prelude::*;

verus! {

/// One reading of the shutdown subscription.
#[derive(Clone, Copy, Debug, PartialEq, Eq, Structural)]
pub enum StopSignal {
    /// The broadcast carried this flag.
    Value(bool),
    /// The subscription itself failed.
    Failed,
}

/// A task stops on a `true` flag and on a failed subscription, and on
/// nothing else.
pub open spec fn stops(signal: StopSignal) -> bool {
    match signal {
        StopSignal::Value(flag) => flag,
        StopSignal::Failed => true,
    }
}

/// Whether a task that reads `signal` must leave its loop.
pub fn should_stop(signal: StopSignal) -> (stop: bool)
    ensures
        stop == stops(signal),
{
    match signal {
        StopSignal::Value(flag) => flag,
        StopSignal::Failed => true,
    }
}

} // verus!
