//! The worker pool: one bounded queue per lane, made once at start-up.

use crate::package::ResponsePackage;
use crate::queue::{capacity_allowed, open_queue, QUEUE_CAPACITY};
use std::collections::HashMap;
use tokio::sync::mpsc::{Receiver, Sender};
use vstd::prelude::*;

verus! {

/// The lanes of a pool of `workers` workers: the indices `1..=workers`.
pub open spec fn lanes(workers: usize) -> Set<usize> {
    Set::new(|lane: usize| 1 <= lane <= workers)
}

/// The draining end of one lane, to be handed to the task that works it.
#[verifier::reject_recursive_types(B)]
pub struct WorkerSeat<B> {
    index: usize,
    inbox: Receiver<ResponsePackage<B>>,
}

impl<B> WorkerSeat<B> {
    /// The lane this seat drains.
    pub closed spec fn lane(&self) -> usize {
        self.index
    }

    /// The lane this seat drains.
    pub fn index(&self) -> (index: usize)
        ensures
            index == self.lane(),
    {
        self.index
    }

    /// The queue end this seat holds.
    pub closed spec fn inbox(&self) -> Receiver<ResponsePackage<B>> {
        self.inbox
    }

    /// Gives up the seat for the queue end it holds.
    pub fn into_inbox(self) -> (inbox: Receiver<ResponsePackage<B>>)
        ensures
            inbox == self.inbox(),
    {
        self.inbox
    }
}

/// The sending ends of all lanes, by lane index. It is filled once, by
/// [`WorkerPool::bootstrap`], and only read afterwards.
#[verifier::reject_recursive_types(B)]
pub struct WorkerPool<B> {
    handles: HashMap<usize, Sender<ResponsePackage<B>>>,
}

impl<B> WorkerPool<B> {
    /// The lanes that have a queue.
    pub closed spec fn shards(&self) -> Set<usize> {
        self.handles@.dom()
    }

    /// The number of lanes.
    pub fn len(&self) -> (count: usize)
        ensures
            count == self.shards().len(),
            self.shards().finite(),
    {
        broadcast use vstd::std_specs::hash::group_hash_axioms;

        self.handles.len()
    }

    /// The sending end that the pool holds for lane `shard`; meaningful for a
    /// lane the pool has.
    pub closed spec fn sender(&self, shard: usize) -> Sender<ResponsePackage<B>> {
        self.handles@[shard]
    }

    /// The sending end of lane `shard`, if the pool has that lane: the end
    /// held for that very lane, and no other.
    pub(crate) fn handle(&self, shard: usize) -> (found: Option<&Sender<ResponsePackage<B>>>)
        ensures
            found is Some <==> self.shards().contains(shard),
            found matches Some(end) ==> *end == self.sender(shard),
    {
        broadcast use vstd::std_specs::hash::group_hash_axioms;

        self.handles.get(&shard)
    }

    /// Makes `worker_count` lanes of [`QUEUE_CAPACITY`] slots each. The pool
    /// holds exactly the lanes `1..=worker_count`, and the seats come in lane
    /// order. With `worker_count` zero both are empty. Each seat is given the
    /// draining end of the queue whose sending end the pool keeps for the
    /// same lane; the two ends are opaque, so this pairing and the capacity
    /// are in the code below and not in the clauses.
    pub fn bootstrap(worker_count: usize) -> (made: (WorkerPool<B>, Vec<WorkerSeat<B>>))
        ensures
            made.0.shards() == lanes(worker_count),
            made.0.shards().finite(),
            made.0.shards().len() == worker_count,
            made.1.len() == worker_count,
            forall|i: int| 0 <= i < worker_count ==> (#[trigger] made.1[i]).lane() == i + 1,
    {
        Self::bootstrap_with_capacity(worker_count, QUEUE_CAPACITY)
    }

    /// As [`WorkerPool::bootstrap`], with `capacity` slots in each queue.
    pub fn bootstrap_with_capacity(worker_count: usize, capacity: usize) -> (made: (
        WorkerPool<B>,
        Vec<WorkerSeat<B>>,
    ))
        requires
            capacity_allowed(capacity),
        ensures
            made.0.shards() == lanes(worker_count),
            made.0.shards().finite(),
            made.0.shards().len() == worker_count,
            made.1.len() == worker_count,
            forall|i: int| 0 <= i < worker_count ==> (#[trigger] made.1[i]).lane() == i + 1,
    {
        broadcast use vstd::std_specs::hash::group_hash_axioms;

        let mut handles: HashMap<usize, Sender<ResponsePackage<B>>> = HashMap::new();
        let mut seats: Vec<WorkerSeat<B>> = Vec::new();
        let mut index: usize = 0;
        assert(handles@.dom() =~= lanes(0));
        while index < worker_count
            invariant
                index <= worker_count,
                capacity_allowed(capacity),
                handles@.dom() == lanes(index),
                handles@.dom().finite(),
                handles@.dom().len() == index,
                seats.len() == index,
                forall|i: int| 0 <= i < index ==> (#[trigger] seats[i]).lane() == i + 1,
            decreases worker_count - index,
        {
            index = index + 1;
            let (handle, inbox) = open_queue(capacity);
            handles.insert(index, handle);
            seats.push(WorkerSeat { index, inbox });
            assert(handles@.dom() =~= lanes(index));
        }
        (WorkerPool { handles }, seats)
    }
}

/// A pool of `workers` lanes has `workers` lanes.
pub proof fn lemma_lanes_len(workers: usize)
    ensures
        lanes(workers).finite(),
        lanes(workers).len() == workers,
    decreases workers,
{
    if workers == 0 {
        assert(lanes(workers) =~= Set::<usize>::empty());
    } else {
        let fewer = (workers - 1) as usize;
        lemma_lanes_len(fewer);
        assert(lanes(workers) =~= lanes(fewer).insert(workers));
    }
}

} // verus!
