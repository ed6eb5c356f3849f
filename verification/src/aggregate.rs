//! Folding what the workers report into one rate.

use vstd::prelude::*;

use crate::error::ConfigurationError;
use crate::worker::WorkerResult;

verus! {

/// The outcome of a whole run.
#[derive(Clone, Copy, Debug, PartialEq, Eq, Structural)]
pub struct AggregateResult {
    pub total_nonces: u64,
    /// The duration the run was asked for, which the rate is taken over.
    pub elapsed_seconds: u64,
    pub hashrate: u64,
}

/// What one worker adds to the total: its count, or nothing if it ended
/// without a report.
pub open spec fn spec_contribution(outcome: Option<WorkerResult>) -> int {
    match outcome {
        Some(result) => result.nonces_processed as int,
        None => 0,
    }
}

/// The exact sum of what the workers add, as a mathematical integer.
pub open spec fn spec_nonce_sum(outcomes: Seq<Option<WorkerResult>>) -> int
    decreases outcomes.len(),
{
    if outcomes.len() == 0 {
        0
    } else {
        spec_nonce_sum(outcomes.drop_last()) + spec_contribution(outcomes.last())
    }
}

/// The total as a 64-bit count: the exact sum wherever it fits, `u64::MAX`
/// where it does not.
pub open spec fn spec_total_nonces(outcomes: Seq<Option<WorkerResult>>) -> int {
    if spec_nonce_sum(outcomes) > u64::MAX as int {
        u64::MAX as int
    } else {
        spec_nonce_sum(outcomes)
    }
}

/// Hashes per second over the requested duration, truncated.
pub open spec fn spec_hashrate(total_nonces: u64, duration_seconds: u64) -> int
    recommends
        duration_seconds > 0,
{
    total_nonces as int / duration_seconds as int
}

/// Adds up the counts of the workers that reported; a worker that did not
/// adds nothing.
pub fn total_nonces(outcomes: &Vec<Option<WorkerResult>>) -> (total: u64)
    ensures
        total as int == spec_total_nonces(outcomes@),
        spec_nonce_sum(outcomes@) <= u64::MAX ==> total as int == spec_nonce_sum(outcomes@),
{
    let mut total: u64 = 0;
    let mut i: usize = 0;
    while i < outcomes.len()
        invariant
            i <= outcomes.len(),
            total as int == spec_total_nonces(outcomes@.take(i as int)),
            spec_nonce_sum(outcomes@.take(i as int)) >= 0,
        decreases outcomes.len() - i,
    {
        assert(outcomes@.take(i + 1).drop_last() =~= outcomes@.take(i as int));
        match outcomes[i] {
            Some(result) => {
                total = total.saturating_add(result.nonces_processed);
            },
            None => {},
        }
        i = i + 1;
    }
    assert(outcomes@.take(i as int) =~= outcomes@);
    total
}

/// The rate of `total_nonces` hashes over `duration_seconds` seconds.
///
/// Fails with `ZeroDuration`, and divides nothing, when the duration is zero.
pub fn hashrate(total_nonces: u64, duration_seconds: u64) -> (r: Result<u64, ConfigurationError>)
    ensures
        duration_seconds == 0 ==> r is Err && r->Err_0 == ConfigurationError::ZeroDuration,
        duration_seconds > 0 ==> r is Ok && r->Ok_0 as int == spec_hashrate(
            total_nonces,
            duration_seconds,
        ),
{
    if duration_seconds == 0 {
        return Err(ConfigurationError::ZeroDuration);
    }
    Ok(total_nonces / duration_seconds)
}

/// The result of a run from what its workers reported, one entry per worker
/// and `None` for a worker that ended without a report.
///
/// Fails with `ZeroDuration` when the duration is zero.
pub fn aggregate(outcomes: &Vec<Option<WorkerResult>>, duration_seconds: u64) -> (r: Result<
    AggregateResult,
    ConfigurationError,
>)
    ensures
        duration_seconds == 0 ==> r is Err && r->Err_0 == ConfigurationError::ZeroDuration,
        duration_seconds > 0 ==> r is Ok && r->Ok_0 == spec_aggregate(outcomes@, duration_seconds),
        duration_seconds > 0 && spec_nonce_sum(outcomes@) <= u64::MAX ==> r->Ok_0.total_nonces
            as int == spec_nonce_sum(outcomes@),
        duration_seconds > 0 ==> r->Ok_0.hashrate as int == r->Ok_0.total_nonces as int
            / duration_seconds as int,
{
    if duration_seconds == 0 {
        return Err(ConfigurationError::ZeroDuration);
    }
    let total = total_nonces(outcomes);
    Ok(
        AggregateResult {
            total_nonces: total,
            elapsed_seconds: duration_seconds,
            hashrate: total / duration_seconds,
        },
    )
}

/// The result of a run over a non-zero duration.
pub open spec fn spec_aggregate(
    outcomes: Seq<Option<WorkerResult>>,
    duration_seconds: u64,
) -> AggregateResult
    recommends
        duration_seconds > 0,
{
    let total = spec_total_nonces(outcomes) as u64;
    AggregateResult {
        total_nonces: total,
        elapsed_seconds: duration_seconds,
        hashrate: spec_hashrate(total, duration_seconds) as u64,
    }
}

/// Counting two groups of workers together gives the sum of counting each
/// group alone: nothing is lost and nothing is counted twice.
pub proof fn lemma_nonce_sum_concat(
    first: Seq<Option<WorkerResult>>,
    second: Seq<Option<WorkerResult>>,
)
    ensures
        spec_nonce_sum(first + second) == spec_nonce_sum(first) + spec_nonce_sum(second),
    decreases second.len(),
{
    if second.len() == 0 {
        assert(first + second =~= first);
    } else {
        assert((first + second).drop_last() =~= first + second.drop_last());
        lemma_nonce_sum_concat(first, second.drop_last());
    }
}

/// The sum does not depend on the order in which the workers are joined: two
/// sequences that hold the same outcomes, each as often as the other, have
/// the same sum and so the same total.
pub proof fn lemma_nonce_sum_order_independent(
    one: Seq<Option<WorkerResult>>,
    other: Seq<Option<WorkerResult>>,
)
    requires
        one.to_multiset() == other.to_multiset(),
    ensures
        spec_nonce_sum(one) == spec_nonce_sum(other),
        spec_total_nonces(one) == spec_total_nonces(other),
{
    let add = |sum: int, outcome: Option<WorkerResult>| sum + spec_contribution(outcome);
    lemma_nonce_sum_is_fold(one);
    lemma_nonce_sum_is_fold(other);
    assert(vstd::seq_lib::commutative_foldl(add));
    vstd::seq_lib::lemma_fold_left_permutation(one, other, add, 0int);
}

/// The sum is the left fold of adding each contribution, from zero.
proof fn lemma_nonce_sum_is_fold(outcomes: Seq<Option<WorkerResult>>)
    ensures
        spec_nonce_sum(outcomes) == outcomes.fold_left(
            0int,
            |sum: int, outcome: Option<WorkerResult>| sum + spec_contribution(outcome),
        ),
    decreases outcomes.len(),
{
    if outcomes.len() > 0 {
        lemma_nonce_sum_is_fold(outcomes.drop_last());
    }
}

} // verus!
