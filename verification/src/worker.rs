//! The life of one worker: hash upwards from the first nonce of its segment
//! until its deadline has passed, then report how many nonces it got through.

use drillx::equix::SolverMemory;
use std::time::Instant;
use vstd::prelude::*;

use crate::hashing::hash_nonce;
use crate::partition::WorkerAssignment;

verus! {

/// What a worker hands back when it stops.
#[derive(Clone, Copy, Debug, PartialEq, Eq, Structural)]
pub struct WorkerResult {
    pub worker_index: u64,
    /// The nonce the worker had reached, less the first nonce of its segment.
    pub nonces_processed: u64,
}

/// Whether a worker is still hashing.
#[derive(Clone, Copy, Debug, PartialEq, Eq, Structural)]
pub enum WorkerPhase {
    Running,
    Done,
}

/// A worker between two hashes.
#[derive(Clone, Copy, Debug, PartialEq, Eq, Structural)]
pub struct Worker {
    pub assignment: WorkerAssignment,
    /// The next nonce to hash while running; the nonce reached once done.
    pub nonce: u64,
    pub phase: WorkerPhase,
}

impl Worker {
    /// A worker never falls behind the start of its segment, and one that is
    /// running still has a nonce above its own to move on to.
    pub open spec fn wf(self) -> bool {
        &&& self.assignment.first_nonce <= self.nonce
        &&& self.phase == WorkerPhase::Running ==> self.nonce < u64::MAX
    }

    /// The worker as it is launched.
    pub open spec fn spec_start(assignment: WorkerAssignment) -> Worker {
        Worker {
            assignment,
            nonce: assignment.first_nonce,
            phase: if assignment.first_nonce < u64::MAX {
                WorkerPhase::Running
            } else {
                WorkerPhase::Done
            },
        }
    }

    /// The worker after one more hash, when its clock then shows
    /// `elapsed_seconds` and its deadline is `duration_seconds`.
    pub open spec fn spec_advance(self, elapsed_seconds: u64, duration_seconds: u64) -> Worker {
        if self.phase == WorkerPhase::Running && self.nonce < u64::MAX {
            let nonce = (self.nonce + 1) as u64;
            Worker {
                assignment: self.assignment,
                nonce,
                phase: if elapsed_seconds >= duration_seconds || nonce == u64::MAX {
                    WorkerPhase::Done
                } else {
                    WorkerPhase::Running
                },
            }
        } else {
            Worker { assignment: self.assignment, nonce: self.nonce, phase: WorkerPhase::Done }
        }
    }

    /// The report of the worker as it stands.
    pub open spec fn spec_result(self) -> WorkerResult {
        WorkerResult {
            worker_index: self.assignment.worker_index,
            nonces_processed: (self.nonce - self.assignment.first_nonce) as u64,
        }
    }

    /// Launches a worker on its segment: it is running, about to hash its
    /// first nonce. A segment that starts at `u64::MAX` has no nonce to move
    /// on to, and its worker is done at once.
    pub fn start(assignment: WorkerAssignment) -> (worker: Worker)
        ensures
            worker == Worker::spec_start(assignment),
            worker.wf(),
    {
        let phase = if assignment.first_nonce < u64::MAX {
            WorkerPhase::Running
        } else {
            WorkerPhase::Done
        };
        Worker { assignment, nonce: assignment.first_nonce, phase }
    }

    /// Whether the worker has another nonce to hash.
    pub fn is_running(&self) -> (running: bool)
        ensures
            running == (self.phase == WorkerPhase::Running),
    {
        match self.phase {
            WorkerPhase::Running => true,
            WorkerPhase::Done => false,
        }
    }

    /// Records that the current nonce has been hashed and that the worker's
    /// clock then showed `elapsed_seconds`.
    ///
    /// A running worker moves to the next nonce, and is done when its deadline
    /// has passed or no nonce is left above. A worker that is done stays as it
    /// is.
    pub fn advance(&mut self, elapsed_seconds: u64, duration_seconds: u64)
        ensures
            *final(self) == old(self).spec_advance(elapsed_seconds, duration_seconds),
            old(self).wf() ==> final(self).wf(),
    {
        if self.is_running() && self.nonce < u64::MAX {
            self.nonce = self.nonce + 1;
            if elapsed_seconds >= duration_seconds || self.nonce == u64::MAX {
                self.phase = WorkerPhase::Done;
            }
        } else {
            self.phase = WorkerPhase::Done;
        }
    }

    /// The worker's report: how far it got beyond its first nonce.
    pub fn result(&self) -> (result: WorkerResult)
        requires
            self.wf(),
        ensures
            result == self.spec_result(),
            result.nonces_processed == self.nonce - self.assignment.first_nonce,
    {
        WorkerResult {
            worker_index: self.assignment.worker_index,
            nonces_processed: self.nonce - self.assignment.first_nonce,
        }
    }
}

/// Runs one worker to its end: it hashes `challenge` with one nonce after
/// another, upwards from the first nonce of its segment and in scratch space
/// of its own, reads its own clock after every hash, and stops once
/// `duration_seconds` whole seconds have gone by since it began, or when no
/// nonce is left above the one it reached. A hash that fails is passed over
/// like any other.
///
/// How many nonces that comes to depends on the clock. Whatever the clock
/// showed, the worker hashed at least one nonce if its segment had one, never
/// counted beyond the nonce space, and with a duration of zero stopped after
/// the first hash.
pub fn run_worker(
    assignment: WorkerAssignment,
    duration_seconds: u64,
    challenge: &[u8; 32],
) -> (result: WorkerResult)
    ensures
        result.worker_index == assignment.worker_index,
        result.nonces_processed <= u64::MAX - assignment.first_nonce,
        assignment.first_nonce < u64::MAX ==> result.nonces_processed >= 1,
        assignment.first_nonce < u64::MAX && duration_seconds == 0 ==> result.nonces_processed
            == 1,
{
    let mut memory = SolverMemory::new();
    let timer = Instant::now();
    let mut worker = Worker::start(assignment);
    while worker.is_running()
        invariant
            worker.wf(),
            worker.assignment == assignment,
            worker.phase == WorkerPhase::Done && assignment.first_nonce < u64::MAX
                ==> worker.nonce > assignment.first_nonce,
            worker.phase == WorkerPhase::Running ==> worker.nonce == assignment.first_nonce
                || duration_seconds > 0,
            worker.phase == WorkerPhase::Done && duration_seconds == 0 && assignment.first_nonce
                < u64::MAX ==> worker.nonce == assignment.first_nonce + 1,
        decreases u64::MAX - worker.nonce,
    {
        hash_nonce(&mut memory, challenge, worker.nonce);
        let elapsed_seconds = timer.elapsed().as_secs();
        worker.advance(elapsed_seconds, duration_seconds);
    }
    worker.result()
}

} // verus!
