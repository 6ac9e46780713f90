//! Shard selection: which worker lane a dispatch sequence number falls on.

use vstd::arithmetic::div_mod::{
    lemma_add_mod_noop, lemma_mod_add_multiples_vanish, lemma_mod_bound, lemma_mod_self_0,
    lemma_small_mod,
};
use vstd::prelude::*;

verus! {

/// The lane, counted from 1, that sequence number `sequence` selects among
/// `workers` lanes: the remainder of `sequence` by `workers`, with remainder
/// zero standing for the last lane. Meaningful for `workers > 0`.
pub open spec fn shard_of(sequence: int, workers: int) -> int
    recommends
        workers > 0,
{
    if sequence % workers == 0 {
        workers
    } else {
        sequence % workers
    }
}

/// The lane after `lane` in a round of `workers` lanes.
pub open spec fn next_lane(lane: int, workers: int) -> int {
    if lane == workers {
        1
    } else {
        lane + 1
    }
}

/// Computes the lane for `sequence`, or `None` when there is no lane at all.
pub fn shard_index(sequence: usize, workers: usize) -> (shard: Option<usize>)
    ensures
        workers == 0 <==> shard is None,
        shard matches Some(lane) ==> lane == shard_of(sequence as int, workers as int) && 1 <= lane
            <= workers,
{
    if workers == 0 {
        return None;
    }
    let rest: usize = sequence % workers;
    if rest == 0 {
        Some(workers)
    } else {
        Some(rest)
    }
}

/// Every sequence number selects a lane of the pool.
pub proof fn lemma_shard_in_range(sequence: int, workers: int)
    requires
        workers > 0,
    ensures
        1 <= shard_of(sequence, workers) <= workers,
{
    lemma_mod_bound(sequence, workers);
}

/// A lane's own index selects that lane.
pub proof fn lemma_shard_of_lane(lane: int, workers: int)
    requires
        1 <= lane <= workers,
    ensures
        shard_of(lane, workers) == lane,
{
    if lane == workers {
        lemma_mod_self_0(workers);
    } else {
        lemma_small_mod(lane as nat, workers as nat);
    }
}

/// The selected lane leaves the same remainder as the sequence number.
proof fn lemma_shard_congruent(sequence: int, workers: int)
    requires
        workers > 0,
    ensures
        shard_of(sequence, workers) % workers == sequence % workers,
{
    lemma_mod_bound(sequence, workers);
    if sequence % workers == 0 {
        lemma_mod_self_0(workers);
    } else {
        lemma_small_mod((sequence % workers) as nat, workers as nat);
    }
}

/// Going `steps` further from a sequence number selects the same lane as
/// going `steps` further from the lane it selects.
pub proof fn lemma_shard_shift(sequence: int, steps: int, workers: int)
    requires
        workers > 0,
    ensures
        shard_of(sequence + steps, workers) == shard_of(
            shard_of(sequence, workers) + steps,
            workers,
        ),
{
    let lane = shard_of(sequence, workers);
    lemma_shard_congruent(sequence, workers);
    lemma_add_mod_noop(sequence, steps, workers);
    lemma_add_mod_noop(lane, steps, workers);
}

/// Round-robin: the next sequence number selects the next lane, and the lane
/// after the last is the first.
pub proof fn lemma_next_shard(sequence: int, workers: int)
    requires
        workers > 0,
    ensures
        shard_of(sequence + 1, workers) == next_lane(shard_of(sequence, workers), workers),
{
    let lane = shard_of(sequence, workers);
    lemma_shard_in_range(sequence, workers);
    lemma_shard_shift(sequence, 1, workers);
    if lane == workers {
        lemma_mod_add_multiples_vanish(1, workers);
        assert(1 + workers == workers + 1);
        if workers == 1 {
            lemma_mod_self_0(workers);
        } else {
            lemma_small_mod(1, workers as nat);
        }
    } else {
        lemma_shard_of_lane(lane + 1, workers);
    }
}

/// A full round later the same lane is selected again.
pub proof fn lemma_shard_period(sequence: int, workers: int)
    requires
        workers > 0,
    ensures
        shard_of(sequence + workers, workers) == shard_of(sequence, workers),
{
    lemma_mod_add_multiples_vanish(sequence, workers);
    assert(workers + sequence == sequence + workers);
}

/// No lane is passed over: whatever the sequence number, each lane is
/// selected by one of the next `workers` sequence numbers.
pub proof fn lemma_every_lane_within_a_round(sequence: int, workers: int, lane: int)
    requires
        1 <= lane <= workers,
    ensures
        exists|steps: int|
            1 <= steps <= workers && #[trigger] shard_of(sequence + steps, workers) == lane,
{
    let here = shard_of(sequence, workers);
    lemma_shard_in_range(sequence, workers);
    let steps = if lane > here {
        lane - here
    } else {
        lane - here + workers
    };
    lemma_shard_shift(sequence, steps, workers);
    lemma_shard_of_lane(lane, workers);
    if lane <= here {
        lemma_shard_period(lane, workers);
    }
    assert(1 <= steps <= workers && shard_of(sequence + steps, workers) == lane);
}

} // verus!
