//! The dispatcher: the one reader of the ingress queue.
//!
//! For each package it counts its sequence number up, offers the package to
//! the lane that number selects, and, when that lane's queue does not take it,
//! asks the host for a sleep that is one millisecond longer than the last and
//! moves on to the next lane. The host does the sleeping and calls again.

use crate::package::ResponsePackage;
use crate::pool::{lanes, lemma_lanes_len, WorkerPool};
use crate::queue::{offer, SendOutcome};
use crate::shard::{lemma_every_lane_within_a_round, lemma_shard_in_range, shard_index, shard_of};
use crate::signal::{should_stop, stops, StopSignal};
use vstd::prelude::*;

verus! {

/// A dispatcher as the contracts see it.
pub struct DispatchState {
    /// How many offers have been routed since start-up.
    pub sequence: nat,
    /// The last delay asked for the package in hand, in milliseconds.
    pub backoff_ms: nat,
    /// Whether the dispatcher has left its loop.
    pub stopped: bool,
}

/// How one attempt to place a package ended.
#[derive(Debug, PartialEq, Eq)]
pub enum Verdict<B> {
    /// The queue of lane `shard` took the package.
    Delivered { shard: usize },
    /// The queue did not take it: sleep `delay_ms`, then retry with `package`.
    Backoff { delay_ms: u64, package: ResponsePackage<B> },
    /// There is no lane to offer it to; the package is gone.
    Dropped,
    /// The dispatcher has stopped; the package is gone.
    Refused,
}

/// The state with the delay of a fresh package.
pub open spec fn begun(state: DispatchState) -> DispatchState {
    DispatchState { backoff_ms: 0, ..state }
}

/// The state with the sequence counted up by one.
pub open spec fn advanced(state: DispatchState) -> DispatchState {
    DispatchState { sequence: state.sequence + 1, ..state }
}

/// The state with the delay grown by one millisecond.
pub open spec fn backed_off(state: DispatchState) -> DispatchState {
    DispatchState { backoff_ms: state.backoff_ms + 1, ..state }
}

/// The state after `signal` was read.
pub open spec fn observed(state: DispatchState, signal: StopSignal) -> DispatchState {
    DispatchState { stopped: state.stopped || stops(signal), ..state }
}

/// The lane that `sequence` selects among `workers`, if there is any lane.
pub open spec fn target(sequence: nat, workers: usize) -> Option<usize> {
    if workers == 0 {
        None
    } else {
        Some(shard_of(sequence as int, workers as int) as usize)
    }
}

/// What follows from the outcome of an offer to lane `shard`: an accepted
/// package is delivered and the state stays; a package that came back, from a
/// full queue or a closed one alike, is to be retried after a delay one
/// millisecond longer than the last.
pub open spec fn settled<B>(state: DispatchState, shard: usize, outcome: SendOutcome<B>) -> (
    DispatchState,
    Verdict<B>,
) {
    match outcome {
        SendOutcome::Accepted => (state, Verdict::Delivered { shard }),
        SendOutcome::Full(package) | SendOutcome::Closed(package) => (
            backed_off(state),
            Verdict::Backoff { delay_ms: (state.backoff_ms + 1) as u64, package },
        ),
    }
}

/// Whether `after` and `verdict` are a possible end of one attempt to place
/// `package`, made in state `before` against a pool with the lanes `shards`.
/// A stopped dispatcher refuses and stays as it is. A running one counts its
/// sequence up; where the pool has no queue for the selected lane the package
/// is dropped, and otherwise the attempt ends as the queue's answer settles
/// it, which is the only thing left open.
pub open spec fn attempted<B>(
    before: DispatchState,
    shards: Set<usize>,
    package: ResponsePackage<B>,
    after: DispatchState,
    verdict: Verdict<B>,
) -> bool {
    if before.stopped {
        after == before && verdict == Verdict::<B>::Refused
    } else {
        let routed = advanced(before);
        match target(routed.sequence, shards.len() as usize) {
            Some(shard) if shards.contains(shard) => {
                ||| (after, verdict) == settled::<B>(routed, shard, SendOutcome::Accepted)
                ||| (after, verdict) == settled(routed, shard, SendOutcome::Full(package))
            },
            _ => after == routed && verdict == Verdict::<B>::Dropped,
        }
    }
}

/// The dispatcher's counters.
pub struct Dispatcher {
    sequence: usize,
    backoff_ms: u64,
    stopped: bool,
}

impl View for Dispatcher {
    type V = DispatchState;

    closed spec fn view(&self) -> DispatchState {
        DispatchState {
            sequence: self.sequence as nat,
            backoff_ms: self.backoff_ms as nat,
            stopped: self.stopped,
        }
    }
}

impl Dispatcher {
    /// The delay never runs ahead of the sequence: each millisecond of it
    /// stands for one routed offer that came back.
    #[verifier::type_invariant]
    spec fn in_step(self) -> bool {
        self.backoff_ms <= self.sequence
    }

    /// A running dispatcher that has routed nothing yet.
    pub fn new() -> (dispatcher: Self)
        ensures
            dispatcher@ == (DispatchState { sequence: 0, backoff_ms: 0, stopped: false }),
    {
        Dispatcher { sequence: 0, backoff_ms: 0, stopped: false }
    }

    /// How many offers have been routed.
    pub fn sequence(&self) -> (count: usize)
        ensures
            count == self@.sequence,
    {
        self.sequence
    }

    /// The last delay asked for the package in hand.
    pub fn backoff_ms(&self) -> (delay: u64)
        ensures
            delay == self@.backoff_ms,
    {
        self.backoff_ms
    }

    /// Whether the dispatcher has left its loop.
    pub fn is_stopped(&self) -> (stopped: bool)
        ensures
            stopped == self@.stopped,
    {
        self.stopped
    }

    /// Reads the shutdown subscription's answer. Returns whether the
    /// dispatcher goes on; once it has stopped it stays stopped.
    pub fn observe(&mut self, signal: StopSignal) -> (running: bool)
        ensures
            final(self)@ == observed(old(self)@, signal),
            running == !final(self)@.stopped,
    {
        proof {
            use_type_invariant(&*self);
        }
        if should_stop(signal) {
            self.stopped = true;
        }
        !self.stopped
    }

    /// Counts the sequence up and selects the lane for the next offer. The
    /// counter must have room for one more.
    pub fn route(&mut self, workers: usize) -> (shard: Option<usize>)
        requires
            old(self)@.sequence < usize::MAX,
        ensures
            final(self)@ == advanced(old(self)@),
            shard == target(final(self)@.sequence, workers),
            final(self)@.backoff_ms < final(self)@.sequence,
    {
        proof {
            use_type_invariant(&*self);
        }
        self.sequence = self.sequence + 1;
        shard_index(self.sequence, workers)
    }

    /// Decides what follows from `outcome`, the answer of lane `shard`'s
    /// queue to the offer last routed. It is to be called after
    /// [`Dispatcher::route`], once for each routed offer: the delay may not
    /// have caught up with the sequence.
    pub fn settle<B>(&mut self, shard: usize, outcome: SendOutcome<B>) -> (verdict: Verdict<B>)
        requires
            old(self)@.backoff_ms < old(self)@.sequence,
        ensures
            (final(self)@, verdict) == settled(old(self)@, shard, outcome),
    {
        match outcome {
            SendOutcome::Accepted => Verdict::Delivered { shard },
            SendOutcome::Full(package) | SendOutcome::Closed(package) => {
                self.backoff_ms = self.backoff_ms + 1;
                Verdict::Backoff { delay_ms: self.backoff_ms, package }
            },
        }
    }

    /// Routes one offer of `package` and makes it, to the sending end that
    /// the pool holds for the routed lane.
    fn attempt<B>(&mut self, pool: &WorkerPool<B>, package: ResponsePackage<B>) -> (verdict:
        Verdict<B>)
        requires
            !old(self)@.stopped ==> old(self)@.sequence < usize::MAX,
        ensures
            attempted(old(self)@, pool.shards(), package, final(self)@, verdict),
    {
        if self.stopped {
            return Verdict::Refused;
        }
        let workers: usize = pool.len();
        match self.route(workers) {
            None => Verdict::Dropped,
            Some(shard) => match pool.handle(shard) {
                None => Verdict::Dropped,
                Some(handle) => {
                    let outcome = offer(handle, package);
                    self.settle(shard, outcome)
                },
            },
        }
    }

    /// Takes a fresh package off the ingress queue and makes the first offer:
    /// the delay starts over at zero. See [`attempted`]. Unless the dispatcher
    /// has stopped, the sequence counter must have room for one more.
    pub fn submit<B>(&mut self, pool: &WorkerPool<B>, package: ResponsePackage<B>) -> (verdict:
        Verdict<B>)
        requires
            !old(self)@.stopped ==> old(self)@.sequence < usize::MAX,
        ensures
            old(self)@.stopped ==> attempted(
                old(self)@,
                pool.shards(),
                package,
                final(self)@,
                verdict,
            ),
            !old(self)@.stopped ==> attempted(
                begun(old(self)@),
                pool.shards(),
                package,
                final(self)@,
                verdict,
            ),
    {
        proof {
            use_type_invariant(&*self);
        }
        if !self.stopped {
            self.backoff_ms = 0;
        }
        self.attempt(pool, package)
    }

    /// Offers again a package that came back, after the host has slept the
    /// delay that came with it. See [`attempted`]. Unless the dispatcher has
    /// stopped, the sequence counter must have room for one more.
    pub fn retry<B>(&mut self, pool: &WorkerPool<B>, package: ResponsePackage<B>) -> (verdict:
        Verdict<B>)
        requires
            !old(self)@.stopped ==> old(self)@.sequence < usize::MAX,
        ensures
            attempted(old(self)@, pool.shards(), package, final(self)@, verdict),
    {
        self.attempt(pool, package)
    }
}

/// The state in which a package stands after it was submitted in `state` and
/// its first `rejections` offers all came back.
pub open spec fn after_rejections(state: DispatchState, rejections: nat) -> DispatchState
    decreases rejections,
{
    if rejections == 0 {
        begun(state)
    } else {
        backed_off(advanced(after_rejections(state, (rejections - 1) as nat)))
    }
}

/// Each rejected offer costs one sequence number and adds one millisecond to
/// the delay, which started at zero.
pub proof fn lemma_after_rejections(state: DispatchState, rejections: nat)
    ensures
        after_rejections(state, rejections) == (DispatchState {
            sequence: state.sequence + rejections,
            backoff_ms: rejections,
            stopped: state.stopped,
        }),
    decreases rejections,
{
    if rejections > 0 {
        lemma_after_rejections(state, (rejections - 1) as nat);
    }
}

/// While queues have room the dispatcher never sleeps: a freshly submitted
/// package whose first offer does not come back is delivered by that offer,
/// to the one lane in turn, and no delay has been counted.
pub proof fn lemma_spare_capacity_never_sleeps<B>(
    state: DispatchState,
    workers: usize,
    package: ResponsePackage<B>,
    after: DispatchState,
    verdict: Verdict<B>,
)
    requires
        !state.stopped,
        workers >= 1,
        state.sequence < usize::MAX,
        attempted(begun(state), lanes(workers), package, after, verdict),
        !(verdict is Backoff),
    ensures
        verdict == (Verdict::<B>::Delivered {
            shard: shard_of(state.sequence + 1 as int, workers as int) as usize,
        }),
        1 <= shard_of(state.sequence + 1 as int, workers as int) <= workers,
        after == advanced(begun(state)),
        after.backoff_ms == 0,
{
    lemma_lanes_len(workers);
    lemma_shard_in_range(state.sequence + 1 as int, workers as int);
}

/// Against saturated queues the delay grows with every retry: the attempt
/// that follows `rejections` rejected offers of one package either delivers
/// it to the lane in turn, or hands it back with a delay of `rejections + 1`
/// milliseconds, one more than the delay before. It never drops the package.
pub proof fn lemma_retry_delay_grows<B>(
    state: DispatchState,
    workers: usize,
    rejections: nat,
    package: ResponsePackage<B>,
    after: DispatchState,
    verdict: Verdict<B>,
)
    requires
        !state.stopped,
        workers >= 1,
        state.sequence + rejections < usize::MAX,
        attempted(after_rejections(state, rejections), lanes(workers), package, after, verdict),
    ensures
        after_rejections(state, rejections).backoff_ms == rejections,
        ({
            ||| {
                &&& verdict == Verdict::<B>::Delivered {
                    shard: shard_of(state.sequence + rejections + 1 as int, workers as int) as usize,
                }
                &&& after == advanced(after_rejections(state, rejections))
            }
            ||| {
                &&& verdict == Verdict::<B>::Backoff { delay_ms: (rejections + 1) as u64, package }
                &&& after == after_rejections(state, rejections + 1)
            }
        }),
{
    lemma_lanes_len(workers);
    lemma_after_rejections(state, rejections);
    lemma_shard_in_range(state.sequence + rejections + 1 as int, workers as int);
    assert(after_rejections(state, rejections + 1) == backed_off(
        advanced(after_rejections(state, rejections)),
    ));
}

/// A lane whose queue has room is not waited for long: however many offers
/// of a package have come back, one of the next `workers` offers goes to
/// that lane.
pub proof fn lemma_free_lane_is_reached(
    state: DispatchState,
    workers: usize,
    rejections: nat,
    lane: usize,
)
    requires
        1 <= lane <= workers,
    ensures
        exists|more: int|
            1 <= more <= workers && #[trigger] shard_of(
                after_rejections(state, rejections).sequence as int + more,
                workers as int,
            ) == lane,
{
    lemma_every_lane_within_a_round(
        after_rejections(state, rejections).sequence as int,
        workers as int,
        lane as int,
    );
}

/// With no workers every package is dropped, at the cost of one sequence
/// number, and nothing is ever asked to be retried.
pub proof fn lemma_empty_pool_drops<B>(
    state: DispatchState,
    package: ResponsePackage<B>,
    after: DispatchState,
    verdict: Verdict<B>,
)
    requires
        !state.stopped,
        attempted(state, lanes(0), package, after, verdict),
    ensures
        verdict == Verdict::<B>::Dropped,
        after == advanced(state),
{
    lemma_lanes_len(0);
}

/// A stopping signal stops the dispatcher, and a stopped dispatcher takes
/// nothing more: every package is refused, and neither a later signal nor a
/// refused package changes its state.
pub proof fn lemma_stopped_dispatcher_takes_nothing<B>(
    state: DispatchState,
    signal: StopSignal,
    later: StopSignal,
    shards: Set<usize>,
    package: ResponsePackage<B>,
    after: DispatchState,
    verdict: Verdict<B>,
)
    requires
        stops(signal),
        attempted(observed(state, signal), shards, package, after, verdict),
    ensures
        observed(state, signal).stopped,
        observed(observed(state, signal), later) == observed(state, signal),
        verdict == Verdict::<B>::Refused,
        after == observed(state, signal),
{
}

} // verus!
