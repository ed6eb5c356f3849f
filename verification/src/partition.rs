//! Splitting the 64-bit nonce space into one segment per worker.

use vstd::prelude::*;

use crate::error::ConfigurationError;

verus! {

/// Width of every segment but the last when the nonce space is split between
/// `worker_count` workers: `u64::MAX / worker_count`, truncated.
pub open spec fn segment_width(worker_count: u64) -> int
    recommends
        worker_count > 0,
{
    u64::MAX as int / worker_count as int
}

/// First nonce of the segment of the worker `worker_index`: the segment width
/// times the index, held at `u64::MAX` where the product would pass it.
pub open spec fn spec_first_nonce(worker_count: u64, worker_index: u64) -> int
    recommends
        worker_count > 0,
{
    let product = segment_width(worker_count) * worker_index as int;
    if product > u64::MAX as int {
        u64::MAX as int
    } else {
        product
    }
}

/// Computes the first nonce of a worker's segment.
///
/// Fails with `ZeroWorkers`, and divides nothing, when `worker_count` is zero.
pub fn first_nonce(worker_count: u64, worker_index: u64) -> (r: Result<u64, ConfigurationError>)
    ensures
        worker_count == 0 ==> r == Err::<u64, ConfigurationError>(ConfigurationError::ZeroWorkers),
        worker_count > 0 ==> r is Ok && r->Ok_0 as int == spec_first_nonce(
            worker_count,
            worker_index,
        ),
{
    if worker_count == 0 {
        return Err(ConfigurationError::ZeroWorkers);
    }
    let width: u64 = u64::MAX / worker_count;
    match width.checked_mul(worker_index) {
        Some(start) => Ok(start),
        None => Ok(u64::MAX),
    }
}

/// The work handed to one worker: its place among the workers and the first
/// nonce of its segment.
#[derive(Clone, Copy, Debug, PartialEq, Eq, Structural)]
pub struct WorkerAssignment {
    pub worker_index: u64,
    pub first_nonce: u64,
}

/// The assignment that a split between `worker_count` workers gives to the
/// worker `worker_index`.
pub open spec fn spec_assignment(worker_count: u64, worker_index: u64) -> WorkerAssignment {
    WorkerAssignment {
        worker_index,
        first_nonce: spec_first_nonce(worker_count, worker_index) as u64,
    }
}

/// The assignments of a split between `worker_count` workers, ordered by
/// worker index.
pub open spec fn spec_partition(worker_count: u64) -> Seq<WorkerAssignment> {
    Seq::new(worker_count as nat, |i: int| spec_assignment(worker_count, i as u64))
}

/// Splits the nonce space between `worker_count` workers.
///
/// Fails with `ZeroWorkers` when there is no worker to hand a segment to.
pub fn partition(worker_count: u64) -> (r: Result<Vec<WorkerAssignment>, ConfigurationError>)
    ensures
        worker_count == 0 ==> r is Err && r->Err_0 == ConfigurationError::ZeroWorkers,
        worker_count > 0 ==> r is Ok && r->Ok_0@ == spec_partition(worker_count),
{
    if worker_count == 0 {
        return Err(ConfigurationError::ZeroWorkers);
    }
    let width: u64 = u64::MAX / worker_count;
    let mut assignments: Vec<WorkerAssignment> = Vec::new();
    let mut index: u64 = 0;
    while index < worker_count
        invariant
            worker_count > 0,
            index <= worker_count,
            width as int == segment_width(worker_count),
            assignments@.len() == index,
            forall|i: int|
                0 <= i < index ==> #[trigger] assignments@[i] == spec_assignment(
                    worker_count,
                    i as u64,
                ),
        decreases worker_count - index,
    {
        proof {
            lemma_segments_fit(worker_count, index);
        }
        assignments.push(WorkerAssignment { worker_index: index, first_nonce: width * index });
        index = index + 1;
    }
    assert(assignments@ =~= spec_partition(worker_count));
    Ok(assignments)
}

/// No worker of a split starts beyond the nonce space: for an index below the
/// worker count the product of width and index is the first nonce itself, and
/// a whole segment width still fits above it.
pub proof fn lemma_segments_fit(worker_count: u64, worker_index: u64)
    requires
        worker_count > 0,
        worker_index < worker_count,
    ensures
        spec_first_nonce(worker_count, worker_index) == segment_width(worker_count)
            * worker_index as int,
        spec_first_nonce(worker_count, worker_index) + segment_width(worker_count) <= u64::MAX,
{
    let n = worker_count as int;
    let i = worker_index as int;
    let w = segment_width(worker_count);
    assert(w * n <= u64::MAX as int) by (nonlinear_arith)
        requires
            n > 0,
            w == u64::MAX as int / n,
    ;
    assert(w * i + w <= w * n) by (nonlinear_arith)
        requires
            0 <= i < n,
            w >= 0,
    ;
    assert(w * i >= 0) by (nonlinear_arith)
        requires
            0 <= i,
            w >= 0,
    ;
}

/// The first worker always starts at nonce zero.
pub proof fn lemma_first_worker_starts_at_zero(worker_count: u64)
    ensures
        spec_first_nonce(worker_count, 0) == 0,
{
    assert(segment_width(worker_count) * 0 == 0) by (nonlinear_arith);
}

/// A single worker has the whole nonce space to itself: its segment is as
/// wide as the space and starts at zero.
pub proof fn lemma_single_worker_spans_the_space()
    ensures
        segment_width(1) == u64::MAX,
        spec_partition(1) == seq![WorkerAssignment { worker_index: 0, first_nonce: 0 }],
{
    lemma_first_worker_starts_at_zero(1);
    assert(spec_partition(1) =~= seq![WorkerAssignment { worker_index: 0, first_nonce: 0 }]);
}

/// First nonces never decrease as the worker index grows, whatever the
/// indices: beyond the nonce space they stay at `u64::MAX`.
pub proof fn lemma_first_nonce_nondecreasing(worker_count: u64, lower: u64, upper: u64)
    requires
        worker_count > 0,
        lower <= upper,
    ensures
        0 <= spec_first_nonce(worker_count, lower) <= spec_first_nonce(worker_count, upper)
            <= u64::MAX,
{
    let w = segment_width(worker_count);
    let a = lower as int;
    let b = upper as int;
    assert(0 <= w * a <= w * b) by (nonlinear_arith)
        requires
            0 <= a <= b,
            w >= 0,
    ;
}

/// Segments of different workers of one split do not overlap: a whole
/// segment width lies between the first nonce of a worker and that of any
/// later one, so first nonces strictly increase with the index.
pub proof fn lemma_segments_disjoint(worker_count: u64, earlier: u64, later: u64)
    requires
        earlier < later < worker_count,
    ensures
        segment_width(worker_count) >= 1,
        spec_first_nonce(worker_count, earlier) + segment_width(worker_count) <= spec_first_nonce(
            worker_count,
            later,
        ),
        spec_first_nonce(worker_count, earlier) < spec_first_nonce(worker_count, later),
{
    let w = segment_width(worker_count);
    let a = earlier as int;
    let b = later as int;
    let n = worker_count as int;
    assert(w >= 1) by (nonlinear_arith)
        requires
            0 < n <= u64::MAX as int,
            w == u64::MAX as int / n,
    ;
    lemma_segments_fit(worker_count, earlier);
    lemma_segments_fit(worker_count, later);
    assert(w * a + w <= w * b) by (nonlinear_arith)
        requires
            0 <= a < b,
            w >= 0,
    ;
}

/// The distance between the first nonces of two adjacent workers is exactly
/// the segment width.
pub proof fn lemma_adjacent_gap(worker_count: u64, worker_index: u64)
    requires
        worker_index + 1 < worker_count,
    ensures
        spec_first_nonce(worker_count, (worker_index + 1) as u64) - spec_first_nonce(
            worker_count,
            worker_index,
        ) == segment_width(worker_count),
{
    let w = segment_width(worker_count);
    let i = worker_index as int;
    lemma_segments_fit(worker_count, worker_index);
    lemma_segments_fit(worker_count, (worker_index + 1) as u64);
    assert(w * (i + 1) == w * i + w) by (nonlinear_arith);
}

/// Sum of the distances between the first nonces of the first `pairs`
/// adjacent pairs of workers.
pub open spec fn spec_gap_sum(worker_count: u64, pairs: nat) -> int
    decreases pairs,
{
    if pairs == 0 {
        0
    } else {
        spec_gap_sum(worker_count, (pairs - 1) as nat) + (spec_first_nonce(
            worker_count,
            pairs as u64,
        ) - spec_first_nonce(worker_count, (pairs - 1) as u64))
    }
}

/// The distances between adjacent first nonces add up to one segment width
/// per pair, which is where the later worker of the last pair starts.
pub proof fn lemma_gap_sum(worker_count: u64, pairs: nat)
    requires
        pairs < worker_count,
    ensures
        spec_gap_sum(worker_count, pairs) == segment_width(worker_count) * pairs,
        spec_gap_sum(worker_count, pairs) == spec_first_nonce(worker_count, pairs as u64),
    decreases pairs,
{
    let w = segment_width(worker_count);
    lemma_segments_fit(worker_count, pairs as u64);
    if pairs == 0 {
        assert(w * 0 == 0) by (nonlinear_arith);
    } else {
        lemma_gap_sum(worker_count, (pairs - 1) as nat);
        lemma_adjacent_gap(worker_count, (pairs - 1) as u64);
        assert(w * (pairs - 1) + w == w * pairs) by (nonlinear_arith);
    }
}

/// What truncating the division loses is less than the worker count: the
/// equal segments of all workers together miss fewer than `worker_count`
/// nonces of the space, and those fall to the last worker, whose room up to
/// `u64::MAX` is a segment width and that remainder.
pub proof fn lemma_truncation_bound(worker_count: u64)
    requires
        worker_count > 0,
    ensures
        0 <= u64::MAX - segment_width(worker_count) * worker_count < worker_count,
        u64::MAX - spec_first_nonce(worker_count, (worker_count - 1) as u64) == segment_width(
            worker_count,
        ) + (u64::MAX - segment_width(worker_count) * worker_count),
{
    let n = worker_count as int;
    let m = u64::MAX as int;
    let w = segment_width(worker_count);
    assert(0 <= m - w * n < n) by (nonlinear_arith)
        requires
            n > 0,
            m >= 0,
            w == m / n,
    ;
    lemma_segments_fit(worker_count, (worker_count - 1) as u64);
    assert(w * (n - 1) + w == w * n) by (nonlinear_arith);
}

} // verus!
