use std::time::Instant;

use hash_benchmark::aggregate::aggregate;
use hash_benchmark::coordinator::plan;
use hash_benchmark::partition::WorkerAssignment;
use hash_benchmark::worker::{run_worker, Worker, WorkerPhase, WorkerResult};

fn assignment(worker_index: u64, first_nonce: u64) -> WorkerAssignment {
    WorkerAssignment { worker_index, first_nonce }
}

#[test]
fn worker_starts_running_at_its_first_nonce() {
    let worker = Worker::start(assignment(3, 500));
    assert_eq!(
        worker,
        Worker { assignment: assignment(3, 500), nonce: 500, phase: WorkerPhase::Running }
    );
    assert!(worker.is_running());
    assert_eq!(worker.result(), WorkerResult { worker_index: 3, nonces_processed: 0 });
}

#[test]
fn worker_counts_one_nonce_per_hash_until_the_deadline() {
    let mut worker = Worker::start(assignment(1, 100));
    worker.advance(0, 2);
    assert_eq!(worker.nonce, 101);
    assert!(worker.is_running());
    worker.advance(1, 2);
    assert_eq!(worker.nonce, 102);
    assert!(worker.is_running());
    worker.advance(2, 2);
    assert_eq!(worker.nonce, 103);
    assert_eq!(worker.phase, WorkerPhase::Done);
    assert!(!worker.is_running());
    assert_eq!(worker.result(), WorkerResult { worker_index: 1, nonces_processed: 3 });
}

#[test]
fn worker_stops_when_the_clock_has_passed_the_deadline() {
    let mut worker = Worker::start(assignment(0, 0));
    worker.advance(31, 30);
    assert_eq!(worker.phase, WorkerPhase::Done);
    assert_eq!(worker.result(), WorkerResult { worker_index: 0, nonces_processed: 1 });
}

#[test]
fn done_worker_stays_as_it_is() {
    let mut worker = Worker::start(assignment(0, 10));
    worker.advance(5, 5);
    let done = worker;
    worker.advance(0, 5);
    assert_eq!(worker, done);
    worker.advance(9, 5);
    assert_eq!(worker, done);
    assert_eq!(worker.result(), WorkerResult { worker_index: 0, nonces_processed: 1 });
}

#[test]
fn worker_stops_at_the_end_of_the_nonce_space() {
    let mut worker = Worker::start(assignment(7, u64::MAX - 2));
    worker.advance(0, 30);
    assert!(worker.is_running());
    worker.advance(0, 30);
    assert_eq!(worker.nonce, u64::MAX);
    assert_eq!(worker.phase, WorkerPhase::Done);
    assert_eq!(worker.result(), WorkerResult { worker_index: 7, nonces_processed: 2 });
}

#[test]
fn worker_with_no_nonce_left_is_done_at_once() {
    let worker = Worker::start(assignment(2, u64::MAX));
    assert_eq!(worker.phase, WorkerPhase::Done);
    assert_eq!(worker.result(), WorkerResult { worker_index: 2, nonces_processed: 0 });
    let result = run_worker(assignment(2, u64::MAX), 30, &[0u8; 32]);
    assert_eq!(result, WorkerResult { worker_index: 2, nonces_processed: 0 });
}

#[test]
fn zero_duration_run_hashes_exactly_once() {
    let result = run_worker(assignment(5, 1234), 0, &[0u8; 32]);
    assert_eq!(result, WorkerResult { worker_index: 5, nonces_processed: 1 });
}

#[test]
fn run_ends_at_the_end_of_the_nonce_space() {
    let result = run_worker(assignment(9, u64::MAX - 3), 3600, &[7u8; 32]);
    assert_eq!(result, WorkerResult { worker_index: 9, nonces_processed: 3 });
}

#[test]
fn one_second_run_terminates_with_a_positive_count() {
    let began = Instant::now();
    let result = run_worker(assignment(0, 0), 1, &[0u8; 32]);
    let took = began.elapsed();
    assert_eq!(result.worker_index, 0);
    assert!(result.nonces_processed >= 1);
    assert!(took.as_secs() >= 1);
    assert!(took.as_millis() < 2000, "took {} ms", took.as_millis());
}

#[test]
fn four_workers_for_one_second_give_a_positive_rate() {
    let challenge = [0u8; 32];
    let assignments = plan(4, 1).unwrap();
    let mut outcomes = Vec::new();
    for assignment in assignments {
        let began = Instant::now();
        let result = run_worker(assignment, 1, &challenge);
        let took = began.elapsed();
        assert!(took.as_millis() < 2000, "took {} ms", took.as_millis());
        assert_eq!(result.worker_index, assignment.worker_index);
        outcomes.push(Some(result));
    }
    let expected_total: u64 = outcomes.iter().map(|o| o.unwrap().nonces_processed).sum();
    let result = aggregate(&outcomes, 1).unwrap();
    assert_eq!(result.total_nonces, expected_total);
    assert_eq!(result.elapsed_seconds, 1);
    assert_eq!(result.hashrate, expected_total);
    assert!(result.hashrate > 0);
}

#[test]
fn repeated_runs_are_safe() {
    for _ in 0..3 {
        let assignments = plan(2, 1).unwrap();
        let outcomes: Vec<Option<WorkerResult>> = assignments
            .iter()
            .map(|a| Some(run_worker(*a, 0, &[1u8; 32])))
            .collect();
        let result = aggregate(&outcomes, 1).unwrap();
        assert_eq!(result.total_nonces, 2);
        assert_eq!(result.hashrate, 2);
    }
}

#[test]
fn ill_formed_worker_is_stopped_without_counting() {
    let mut worker =
        Worker { assignment: assignment(0, 0), nonce: u64::MAX, phase: WorkerPhase::Running };
    worker.advance(0, 30);
    assert_eq!(worker.nonce, u64::MAX);
    assert_eq!(worker.phase, WorkerPhase::Done);
}
