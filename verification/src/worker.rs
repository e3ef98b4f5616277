//! One worker of the pool, modelled as a state machine.
//!
//! A worker loops: take the next entry from the shared queue, act on it, and
//! come back for more. It runs each unit of work it receives exactly once,
//! and it terminates only on a shutdown marker or on a closed queue — never
//! because a job failed.

use crate::queue::{Entry, Received};
use vstd::prelude::*;

verus! {

/// Where a worker stands in its loop.
#[derive(Debug, PartialEq, Eq, Structural, Clone, Copy)]
pub enum Phase {
    /// Waiting for the next entry.
    Idle,
    /// Executing one job.
    Running,
    /// Exited its loop; it will never take another entry.
    Terminated,
}

/// How the execution of one job ended. A panic or error inside a job is the
/// job's own; the worker observes it only as `Failed`.
#[derive(Debug, PartialEq, Eq, Structural, Clone, Copy)]
pub enum JobOutcome {
    Succeeded,
    Failed,
}

/// What the surrounding thread must do after handing a worker one message.
pub enum WorkerAction<J> {
    /// Execute this job, then report back with `finish_job`.
    RunJob(J),
    /// Keep waiting: nothing was pending.
    Wait,
    /// Exit the loop; the thread is done.
    Exit,
}

/// One long-lived worker: a stable integer id and its position in the loop.
pub struct Worker {
    id: usize,
    phase: Phase,
    jobs_taken: u64,
}

impl Worker {
    /// The worker's stable id.
    pub closed spec fn id_spec(&self) -> usize {
        self.id
    }

    /// Where the worker stands in its loop.
    pub closed spec fn phase_spec(&self) -> Phase {
        self.phase
    }

    /// How many jobs the worker has taken on so far.
    pub closed spec fn jobs_taken_spec(&self) -> u64 {
        self.jobs_taken
    }

    /// Creates a worker with the given id, idle and ready to pull entries.
    pub fn new(id: usize) -> (w: Worker)
        ensures
            w.id_spec() == id,
            w.phase_spec() == Phase::Idle,
            w.jobs_taken_spec() == 0,
    {
        Worker { id, phase: Phase::Idle, jobs_taken: 0 }
    }

    /// The worker's stable id.
    pub fn id(&self) -> (id: usize)
        ensures
            id == self.id_spec(),
    {
        self.id
    }

    /// Where the worker stands in its loop.
    pub fn phase(&self) -> (p: Phase)
        ensures
            p == self.phase_spec(),
    {
        self.phase
    }

    /// How many jobs the worker has taken on so far.
    pub fn jobs_taken(&self) -> (n: u64)
        ensures
            n == self.jobs_taken_spec(),
    {
        self.jobs_taken
    }

    /// Acts on one message from the queue's receive side: a work entry is
    /// taken on for execution, a shutdown marker or a closed queue ends the
    /// loop, and an empty queue leaves the worker waiting. The worker
    /// terminates exactly on `Shutdown` or `Closed`.
    pub fn handle_message<J>(&mut self, message: Received<J>) -> (action: WorkerAction<J>)
        requires
            old(self).phase_spec() == Phase::Idle,
            old(self).jobs_taken_spec() < u64::MAX,
        ensures
            final(self).id_spec() == old(self).id_spec(),
            match message {
                Received::Next(Entry::Work(job)) => {
                    &&& action == WorkerAction::RunJob(job)
                    &&& final(self).phase_spec() == Phase::Running
                    &&& final(self).jobs_taken_spec() == old(self).jobs_taken_spec() + 1
                },
                Received::Next(Entry::Shutdown) => {
                    &&& action is Exit
                    &&& final(self).phase_spec() == Phase::Terminated
                    &&& final(self).jobs_taken_spec() == old(self).jobs_taken_spec()
                },
                Received::Empty => {
                    &&& action is Wait
                    &&& *final(self) == *old(self)
                },
                Received::Closed => {
                    &&& action is Exit
                    &&& final(self).phase_spec() == Phase::Terminated
                    &&& final(self).jobs_taken_spec() == old(self).jobs_taken_spec()
                },
            },
            final(self).phase_spec() == Phase::Terminated <==> (message is Closed
                || (message matches Received::Next(e) && e is Shutdown)),
    {
        match message {
            Received::Next(Entry::Work(job)) => {
                self.phase = Phase::Running;
                self.jobs_taken = self.jobs_taken + 1;
                WorkerAction::RunJob(job)
            },
            Received::Next(Entry::Shutdown) => {
                self.phase = Phase::Terminated;
                WorkerAction::Exit
            },
            Received::Empty => WorkerAction::Wait,
            Received::Closed => {
                self.phase = Phase::Terminated;
                WorkerAction::Exit
            },
        }
    }

    /// Records that the job taken on last has finished. Whatever the outcome
    /// — success, or an error or panic inside the job — the worker goes back
    /// to waiting for the next entry; a failed job never terminates it.
    pub fn finish_job(&mut self, outcome: JobOutcome)
        requires
            old(self).phase_spec() == Phase::Running,
        ensures
            final(self).phase_spec() == Phase::Idle,
            final(self).id_spec() == old(self).id_spec(),
            final(self).jobs_taken_spec() == old(self).jobs_taken_spec(),
    {
        let _ = outcome;
        self.phase = Phase::Idle;
    }
}

/// A failing job is contained: after any single job, whatever its outcome,
/// the worker is idle again and able to take on the next entry — it is not
/// terminated, and its identity is unchanged.
pub proof fn lemma_job_failure_does_not_stop_worker(
    before: Worker,
    after_ok: Worker,
    after_err: Worker,
)
    requires
        before.phase_spec() == Phase::Running,
        worker_finishes(before, after_ok, JobOutcome::Succeeded),
        worker_finishes(before, after_err, JobOutcome::Failed),
    ensures
        after_err == after_ok,
        after_err.phase_spec() == Phase::Idle,
        after_err.id_spec() == before.id_spec(),
{
}

/// The state `finish_job` leaves a worker in, as a relation; the outcome
/// plays no part in it.
pub open spec fn worker_finishes(before: Worker, after: Worker, outcome: JobOutcome) -> bool {
    &&& after.phase_spec() == Phase::Idle
    &&& after.id_spec() == before.id_spec()
    &&& after.jobs_taken_spec() == before.jobs_taken_spec()
}

} // verus!
