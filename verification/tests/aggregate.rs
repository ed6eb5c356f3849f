use hash_benchmark::aggregate::{aggregate, hashrate, total_nonces, AggregateResult};
use hash_benchmark::error::ConfigurationError;
use hash_benchmark::worker::WorkerResult;

fn report(worker_index: u64, nonces_processed: u64) -> Option<WorkerResult> {
    Some(WorkerResult { worker_index, nonces_processed })
}

#[test]
fn hashrate_divides_by_the_requested_duration() {
    assert_eq!(hashrate(3000, 30), Ok(100));
}

#[test]
fn hashrate_truncates() {
    assert_eq!(hashrate(3029, 30), Ok(100));
    assert_eq!(hashrate(29, 30), Ok(0));
    assert_eq!(hashrate(0, 1), Ok(0));
    assert_eq!(hashrate(u64::MAX, 1), Ok(u64::MAX));
    assert_eq!(hashrate(u64::MAX, u64::MAX), Ok(1));
}

#[test]
fn hashrate_rejects_zero_duration() {
    assert_eq!(hashrate(3000, 0), Err(ConfigurationError::ZeroDuration));
    assert_eq!(hashrate(0, 0), Err(ConfigurationError::ZeroDuration));
}

#[test]
fn total_is_the_exact_sum_of_fixed_counts() {
    let outcomes = vec![report(0, 1000), report(1, 250), report(2, 1), report(3, 1749)];
    assert_eq!(total_nonces(&outcomes), 3000);
    assert_eq!(
        aggregate(&outcomes, 30),
        Ok(AggregateResult { total_nonces: 3000, elapsed_seconds: 30, hashrate: 100 })
    );
}

#[test]
fn total_of_no_workers_is_zero() {
    let outcomes: Vec<Option<WorkerResult>> = Vec::new();
    assert_eq!(total_nonces(&outcomes), 0);
    assert_eq!(
        aggregate(&outcomes, 5),
        Ok(AggregateResult { total_nonces: 0, elapsed_seconds: 5, hashrate: 0 })
    );
}

#[test]
fn failed_worker_contributes_zero() {
    let outcomes = vec![report(0, 1000), None, report(2, 2000), None];
    assert_eq!(total_nonces(&outcomes), 3000);
    assert_eq!(
        aggregate(&outcomes, 30),
        Ok(AggregateResult { total_nonces: 3000, elapsed_seconds: 30, hashrate: 100 })
    );
    let all_failed: Vec<Option<WorkerResult>> = vec![None, None, None];
    assert_eq!(total_nonces(&all_failed), 0);
}

#[test]
fn total_does_not_depend_on_the_order_of_reports() {
    let forward = vec![report(0, 7), report(1, 11), None, report(3, 13)];
    let backward = vec![report(3, 13), None, report(1, 11), report(0, 7)];
    assert_eq!(total_nonces(&forward), 31);
    assert_eq!(total_nonces(&backward), 31);
}

#[test]
fn total_is_held_at_the_largest_count() {
    let outcomes = vec![report(0, u64::MAX), report(1, 1)];
    assert_eq!(total_nonces(&outcomes), u64::MAX);
    let outcomes = vec![report(0, u64::MAX - 1), report(1, 1)];
    assert_eq!(total_nonces(&outcomes), u64::MAX);
    let outcomes = vec![report(0, u64::MAX - 2), report(1, 1)];
    assert_eq!(total_nonces(&outcomes), u64::MAX - 1);
    let outcomes = vec![report(0, u64::MAX), report(1, u64::MAX), report(2, 5)];
    assert_eq!(
        aggregate(&outcomes, 2),
        Ok(AggregateResult {
            total_nonces: u64::MAX,
            elapsed_seconds: 2,
            hashrate: u64::MAX / 2
        })
    );
}

#[test]
fn aggregate_rejects_zero_duration() {
    let outcomes = vec![report(0, 10)];
    assert_eq!(aggregate(&outcomes, 0), Err(ConfigurationError::ZeroDuration));
}
