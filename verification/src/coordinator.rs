//! What the coordinator of a run decides before any worker is launched.

use vstd::prelude::*;

use crate::error::configuration_error;
use crate::error::ConfigurationError;
use crate::partition::partition;
use crate::partition::spec_partition;
use crate::partition::WorkerAssignment;

verus! {

/// Checks the two parameters of a run, the worker count first.
pub fn validate(worker_count: u64, duration_seconds: u64) -> (r: Result<(), ConfigurationError>)
    ensures
        match configuration_error(worker_count, duration_seconds) {
            Some(error) => r is Err && r->Err_0 == error,
            None => r is Ok,
        },
{
    if worker_count == 0 {
        Err(ConfigurationError::ZeroWorkers)
    } else if duration_seconds == 0 {
        Err(ConfigurationError::ZeroDuration)
    } else {
        Ok(())
    }
}

/// Plans a run: rejects a configuration with no worker or no duration, and
/// otherwise hands out one assignment per worker, ordered by worker index.
///
/// Nothing is launched here, so a rejected configuration costs no work.
pub fn plan(worker_count: u64, duration_seconds: u64) -> (r: Result<
    Vec<WorkerAssignment>,
    ConfigurationError,
>)
    ensures
        match configuration_error(worker_count, duration_seconds) {
            Some(error) => r is Err && r->Err_0 == error,
            None => r is Ok && r->Ok_0@ == spec_partition(worker_count),
        },
{
    match validate(worker_count, duration_seconds) {
        Err(error) => Err(error),
        Ok(()) => partition(worker_count),
    }
}

} // verus!
