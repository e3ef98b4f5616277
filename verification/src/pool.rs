//! The pool: the externally visible dispatcher. It owns a fixed set of
//! workers and the send side of the shared queue, accepts job submissions
//! while active, and tears the whole thing down with a two-phase shutdown:
//! one shutdown marker per worker is pushed into the same FIFO channel as the
//! work, so every job submitted before the shutdown is handed out before the
//! markers are exhausted, and then each worker is waited for.

use crate::queue::{shutdown_count, works_of, Entry, Queue, Received};
use crate::worker::{JobOutcome, Phase, Worker, WorkerAction};
use vstd::prelude::*;
use vstd::seq_lib::*;

verus! {

/// How many jobs the workers have taken on, all together.
pub open spec fn total_jobs_taken(workers: Seq<Worker>) -> int
    decreases workers.len(),
{
    if workers.len() == 0 {
        0
    } else {
        total_jobs_taken(workers.drop_last()) + workers.last().jobs_taken_spec()
    }
}

/// How many of the workers have terminated.
pub open spec fn terminated_count(workers: Seq<Worker>) -> int
    decreases workers.len(),
{
    if workers.len() == 0 {
        0
    } else {
        terminated_count(workers.drop_last()) + if workers.last().phase_spec()
            == Phase::Terminated {
            1int
        } else {
            0int
        }
    }
}

/// Both counts over a sequence extended by one worker.
proof fn lemma_counts_after_push(workers: Seq<Worker>, w: Worker)
    ensures
        total_jobs_taken(workers.push(w)) == total_jobs_taken(workers) + w.jobs_taken_spec(),
        terminated_count(workers.push(w)) == terminated_count(workers) + if w.phase_spec()
            == Phase::Terminated {
            1int
        } else {
            0int
        },
{
    assert(workers.push(w).drop_last() =~= workers);
}

/// Both counts over a sequence with one worker replaced.
proof fn lemma_counts_after_update(workers: Seq<Worker>, i: int, w: Worker)
    requires
        0 <= i < workers.len(),
    ensures
        total_jobs_taken(workers.update(i, w)) == total_jobs_taken(workers)
            - workers[i].jobs_taken_spec() + w.jobs_taken_spec(),
        terminated_count(workers.update(i, w)) == terminated_count(workers) - (
        if workers[i].phase_spec() == Phase::Terminated {
            1int
        } else {
            0int
        }) + (
        if w.phase_spec() == Phase::Terminated {
            1int
        } else {
            0int
        }),
    decreases workers.len(),
{
    let updated = workers.update(i, w);
    if i == workers.len() - 1 {
        assert(updated.drop_last() =~= workers.drop_last());
    } else {
        assert(updated.drop_last() =~= workers.drop_last().update(i, w));
        assert(updated.last() == workers.last());
        lemma_counts_after_update(workers.drop_last(), i, w);
    }
}

/// Both entry counts over a channel log extended by one entry.
proof fn lemma_entry_counts_after_push<J>(s: Seq<Entry<J>>, e: Entry<J>)
    ensures
        works_of(s.push(e)).len() == works_of(s).len() + if e is Work {
            1int
        } else {
            0int
        },
        shutdown_count(s.push(e)) == shutdown_count(s) + if e is Shutdown {
            1int
        } else {
            0int
        },
{
    s.lemma_filter_push(e, |entry: Entry<J>| entry is Work);
    s.lemma_filter_push(e, |entry: Entry<J>| entry is Shutdown);
}

/// The terminated count never exceeds the number of workers, and reaches it
/// exactly when every worker has terminated.
proof fn lemma_terminated_count_bounds(workers: Seq<Worker>)
    ensures
        0 <= terminated_count(workers) <= workers.len(),
        terminated_count(workers) == workers.len() ==> forall|i: int|
            0 <= i < workers.len() ==> (#[trigger] workers[i]).phase_spec() == Phase::Terminated,
    decreases workers.len(),
{
    if workers.len() > 0 {
        lemma_terminated_count_bounds(workers.drop_last());
        if terminated_count(workers) == workers.len() {
            assert forall|i: int| 0 <= i < workers.len() implies (#[trigger] workers[
                i
            ]).phase_spec() == Phase::Terminated by {
                if i < workers.len() - 1 {
                    assert(workers.drop_last()[i] == workers[i]);
                }
            }
        }
    }
}

/// The ways the pool refuses work.
#[derive(Debug, PartialEq, Eq, Structural, Clone, Copy)]
pub enum PoolError {
    /// A pool of zero workers can never make progress; construction rejects it.
    ZeroWorkers,
    /// A submission arrived after shutdown had begun.
    PoolClosed,
}

/// A fixed set of workers sharing one FIFO queue of jobs.
pub struct Pool<J> {
    workers: Vec<Worker>,
    queue: Queue<J>,
    shutting_down: bool,
}

impl<J> Pool<J> {
    /// The workers, in id order.
    pub closed spec fn workers_spec(self) -> Seq<Worker> {
        self.workers@
    }

    /// How many workers the pool was built with.
    pub open spec fn worker_count_spec(self) -> nat {
        self.workers_spec().len()
    }

    /// The shared queue, including its ghost delivery log.
    pub closed spec fn queue_spec(self) -> Queue<J> {
        self.queue
    }

    /// Whether shutdown has begun; once true, no submission is accepted.
    pub closed spec fn shutting_down_spec(self) -> bool {
        self.shutting_down
    }

    /// The pool's internal invariant: at least one worker, stable ids
    /// `0..worker_count`, both queue sides still held, and the accounting
    /// that ties the workers to the queue's delivery log — the workers have
    /// taken on exactly the work entries handed out, each shutdown marker
    /// handed out has terminated exactly one worker, and the channel carries
    /// one marker per worker once shutdown has begun and none before.
    pub open spec fn wf(self) -> bool {
        &&& self.worker_count_spec() > 0
        &&& forall|i: int|
            0 <= i < self.worker_count_spec() ==> (#[trigger] self.workers_spec()[i]).id_spec()
                == i
        &&& self.queue_spec().sender_is_open()
        &&& self.queue_spec().receiver_is_open()
        &&& total_jobs_taken(self.workers_spec()) == works_of(
            self.queue_spec().delivered(),
        ).len()
        &&& terminated_count(self.workers_spec()) == shutdown_count(
            self.queue_spec().delivered(),
        )
        &&& shutdown_count(self.queue_spec().submitted()) == if self.shutting_down_spec() {
            self.worker_count_spec() as int
        } else {
            0int
        }
    }

    /// Builds a pool of `size` workers, all idle, sharing one empty queue.
    /// Succeeds exactly when `size > 0`; a pool of zero workers is a
    /// construction error.
    pub fn new(size: usize) -> (r: Result<Pool<J>, PoolError>)
        ensures
            r is Ok <==> size > 0,
            r is Err ==> r == Result::<Pool<J>, PoolError>::Err(PoolError::ZeroWorkers),
            r matches Ok(p) ==> {
                &&& p.wf()
                &&& p.worker_count_spec() == size
                &&& !p.shutting_down_spec()
                &&& p.queue_spec().submitted() == Seq::<Entry<J>>::empty()
                &&& p.queue_spec().delivered() == Seq::<Entry<J>>::empty()
                &&& forall|i: int|
                    0 <= i < size ==> (#[trigger] p.workers_spec()[i]).phase_spec()
                        == Phase::Idle && p.workers_spec()[i].jobs_taken_spec() == 0
            },
    {
        if size == 0 {
            return Err(PoolError::ZeroWorkers);
        }
        let mut workers: Vec<Worker> = Vec::new();
        for id in 0..size
            invariant
                workers@.len() == id,
                forall|i: int|
                    0 <= i < id ==> (#[trigger] workers@[i]).id_spec() == i
                        && workers@[i].phase_spec() == Phase::Idle
                        && workers@[i].jobs_taken_spec() == 0,
                total_jobs_taken(workers@) == 0,
                terminated_count(workers@) == 0,
        {
            let ghost before = workers@;
            let idle_worker = Worker::new(id);
            proof {
                lemma_counts_after_push(before, idle_worker);
            }
            workers.push(idle_worker);
        }
        Ok(Pool { workers, queue: Queue::new(), shutting_down: false })
    }

    /// How many workers the pool was built with.
    pub fn worker_count(&self) -> (n: usize)
        ensures
            n == self.worker_count_spec(),
    {
        self.workers.len()
    }

    /// Whether shutdown has begun.
    pub fn is_shutting_down(&self) -> (b: bool)
        ensures
            b == self.shutting_down_spec(),
    {
        self.shutting_down
    }

    /// How many entries sit in the queue, not yet handed to any worker.
    pub fn pending_len(&self) -> (n: usize)
        ensures
            n == self.queue_spec().pending().len(),
    {
        self.queue.len()
    }

    /// The phase of worker `idx`.
    pub fn worker_phase(&self, idx: usize) -> (p: Phase)
        requires
            idx < self.worker_count_spec(),
        ensures
            p == self.workers_spec()[idx as int].phase_spec(),
    {
        self.workers[idx].phase()
    }

    /// How many jobs worker `idx` has taken on so far.
    pub fn worker_jobs_taken(&self, idx: usize) -> (n: u64)
        requires
            idx < self.worker_count_spec(),
        ensures
            n == self.workers_spec()[idx as int].jobs_taken_spec(),
    {
        self.workers[idx].jobs_taken()
    }

    /// Enqueues one job, fire-and-forget. Accepted exactly while the pool is
    /// not shutting down; afterwards the job is refused with `PoolClosed` and
    /// nothing changes.
    pub fn submit(&mut self, job: J) -> (r: Result<(), PoolError>)
        requires
            old(self).wf(),
        ensures
            final(self).wf(),
            final(self).workers_spec() == old(self).workers_spec(),
            final(self).shutting_down_spec() == old(self).shutting_down_spec(),
            final(self).queue_spec().delivered() == old(self).queue_spec().delivered(),
            if old(self).shutting_down_spec() {
                &&& r == Result::<(), PoolError>::Err(PoolError::PoolClosed)
                &&& *final(self) == *old(self)
            } else {
                &&& r is Ok
                &&& final(self).queue_spec().pending() == old(self).queue_spec().pending().push(
                    Entry::Work(job),
                )
                &&& final(self).queue_spec().submitted() == old(
                    self,
                ).queue_spec().submitted().push(Entry::Work(job))
            },
    {
        if self.shutting_down {
            return Err(PoolError::PoolClosed);
        }
        let ghost submitted_before = self.queue.submitted();
        let sent = self.queue.send(Entry::Work(job));
        proof {
            assert(sent is Ok);
            assert(self.queue.submitted() =~= submitted_before.push(Entry::Work(job)));
            lemma_entry_counts_after_push(submitted_before, Entry::Work(job));
        }
        Ok(())
    }

    /// Begins teardown: pushes exactly one shutdown marker per worker into
    /// the same FIFO channel as the work, so all jobs already queued are
    /// handed out before the markers run out. Idempotent: once shutdown has
    /// begun, calling it again changes nothing and sends no duplicate
    /// markers.
    pub fn shutdown(&mut self)
        requires
            old(self).wf(),
        ensures
            final(self).wf(),
            final(self).shutting_down_spec(),
            final(self).workers_spec() == old(self).workers_spec(),
            final(self).queue_spec().delivered() == old(self).queue_spec().delivered(),
            old(self).shutting_down_spec() ==> *final(self) == *old(self),
            !old(self).shutting_down_spec() ==> {
                &&& final(self).queue_spec().pending() == old(self).queue_spec().pending()
                    + Seq::new(old(self).worker_count_spec(), |i: int| Entry::<J>::Shutdown)
                &&& final(self).queue_spec().submitted() == old(self).queue_spec().submitted()
                    + Seq::new(old(self).worker_count_spec(), |i: int| Entry::<J>::Shutdown)
                &&& works_of(final(self).queue_spec().submitted()) == works_of(
                    old(self).queue_spec().submitted(),
                )
                &&& shutdown_count(final(self).queue_spec().submitted()) == shutdown_count(
                    old(self).queue_spec().submitted(),
                ) + old(self).worker_count_spec()
            },
    {
        if self.shutting_down {
            return ;
        }
        self.shutting_down = true;
        let ghost start = self.queue.submitted();
        let count = self.workers.len();
        for k in 0..count
            invariant
                old(self).wf(),
                self.workers@ == old(self).workers@,
                self.shutting_down,
                count == self.worker_count_spec() > 0,
                self.queue.sender_is_open(),
                self.queue.receiver_is_open(),
                self.queue.delivered() == old(self).queue.delivered(),
                !old(self).shutting_down_spec(),
                start == old(self).queue.submitted(),
                self.queue.submitted() == start + Seq::new(
                    k as nat,
                    |i: int| Entry::<J>::Shutdown,
                ),
                self.queue.pending() == old(self).queue.pending() + Seq::new(
                    k as nat,
                    |i: int| Entry::<J>::Shutdown,
                ),
        {
            let ghost before = self.queue.submitted();
            let ghost pending_before = self.queue.pending();
            let sent = self.queue.send(Entry::Shutdown);
            proof {
                assert(sent is Ok);
                assert(self.queue.submitted() =~= before.push(Entry::<J>::Shutdown));
                assert(self.queue.submitted() =~= start + Seq::new(
                    (k + 1) as nat,
                    |i: int| Entry::<J>::Shutdown,
                ));
                assert(self.queue.pending() =~= old(self).queue.pending() + Seq::new(
                    (k + 1) as nat,
                    |i: int| Entry::<J>::Shutdown,
                ));
            }
        }
        proof {
            lemma_appended_shutdown_markers_change_no_work(start, self.worker_count_spec());
        }
    }

    /// Lets worker `idx` take its next step: it pulls the next entry from the
    /// shared queue — the single FIFO point where one consumer wins — and
    /// acts on it. A work entry moves the worker to `Running` and is returned
    /// for execution; a shutdown marker terminates the worker; an empty queue
    /// leaves everything as it was, with the worker told to wait.
    pub fn step_worker(&mut self, idx: usize) -> (action: WorkerAction<J>)
        requires
            old(self).wf(),
            idx < old(self).worker_count_spec(),
            old(self).workers_spec()[idx as int].phase_spec() == Phase::Idle,
            old(self).workers_spec()[idx as int].jobs_taken_spec() < u64::MAX,
        ensures
            final(self).wf(),
            final(self).worker_count_spec() == old(self).worker_count_spec(),
            final(self).shutting_down_spec() == old(self).shutting_down_spec(),
            final(self).queue_spec().submitted() == old(self).queue_spec().submitted(),
            forall|i: int|
                0 <= i < old(self).worker_count_spec() && i != idx
                    ==> final(self).workers_spec()[i] == old(self).workers_spec()[i],
            final(self).workers_spec()[idx as int].id_spec() == idx,
            if old(self).queue_spec().pending().len() > 0 {
                let entry = old(self).queue_spec().pending()[0];
                &&& final(self).queue_spec().pending() == old(
                    self,
                ).queue_spec().pending().drop_first()
                &&& final(self).queue_spec().delivered() == old(
                    self,
                ).queue_spec().delivered().push(entry)
                &&& (entry matches Entry::Work(job) ==> {
                    &&& action == WorkerAction::<J>::RunJob(job)
                    &&& final(self).workers_spec()[idx as int].phase_spec() == Phase::Running
                    &&& final(self).workers_spec()[idx as int].jobs_taken_spec() == old(
                        self,
                    ).workers_spec()[idx as int].jobs_taken_spec() + 1
                })
                &&& (entry is Shutdown ==> action is Exit && final(self).workers_spec()[
                    idx as int
                ].phase_spec() == Phase::Terminated)
            } else {
                &&& final(self).queue_spec() == old(self).queue_spec()
                &&& final(self).workers_spec() == old(self).workers_spec()
                &&& action is Wait
            },
    {
        let message = self.queue.receive();
        let worker = &mut self.workers[idx];
        let action = worker.handle_message(message);
        proof {
            lemma_counts_after_update(
                old(self).workers@,
                idx as int,
                self.workers@[idx as int],
            );
            if old(self).queue_spec().pending().len() == 0 {
                assert(self.workers@ =~= old(self).workers@);
            } else {
                lemma_entry_counts_after_push(
                    old(self).queue.delivered(),
                    old(self).queue.pending()[0],
                );
            }
        }
        action
    }

    /// Records that worker `idx` has finished the job it was running. The
    /// worker goes back to `Idle` whatever the outcome: a job that failed or
    /// panicked is contained and never stops the worker.
    pub fn finish_worker_job(&mut self, idx: usize, outcome: JobOutcome)
        requires
            old(self).wf(),
            idx < old(self).worker_count_spec(),
            old(self).workers_spec()[idx as int].phase_spec() == Phase::Running,
        ensures
            final(self).wf(),
            final(self).shutting_down_spec() == old(self).shutting_down_spec(),
            final(self).queue_spec() == old(self).queue_spec(),
            forall|i: int|
                0 <= i < old(self).worker_count_spec() && i != idx
                    ==> final(self).workers_spec()[i] == old(self).workers_spec()[i],
            final(self).workers_spec()[idx as int].phase_spec() == Phase::Idle,
            final(self).workers_spec()[idx as int].id_spec() == idx,
            final(self).workers_spec()[idx as int].jobs_taken_spec() == old(self).workers_spec()[
                idx as int
            ].jobs_taken_spec(),
    {
        let worker = &mut self.workers[idx];
        worker.finish_job(outcome);
        proof {
            lemma_counts_after_update(
                old(self).workers@,
                idx as int,
                self.workers@[idx as int],
            );
        }
    }
}

/// No job is dropped and none runs twice: once the pool's queue is drained —
/// as it is before the workers' shutdown markers run out, since markers and
/// work share one FIFO channel — the entries handed to workers are exactly
/// the entries submitted, in order. Each work entry handed to a worker is
/// taken on exactly once, so every job submitted before shutdown is executed
/// exactly once before the pool becomes fully terminal.
/// In particular, the workers have, among them, taken on exactly as many
/// jobs as were ever submitted.
pub proof fn lemma_every_submitted_job_is_delivered_once<J>(p: Pool<J>)
    requires
        p.wf(),
        p.queue_spec().pending().len() == 0,
    ensures
        p.queue_spec().delivered() == p.queue_spec().submitted(),
        works_of(p.queue_spec().delivered()) == works_of(p.queue_spec().submitted()),
        total_jobs_taken(p.workers_spec()) == works_of(p.queue_spec().submitted()).len(),
{
    crate::queue::lemma_drained_queue_delivered_everything(p.queue_spec());
}

/// Shutdown leaves no worker running: once shutdown has begun and the queue
/// has been drained — which the shutdown protocol guarantees, one marker per
/// worker having been pushed behind all pending work — every worker has
/// observed its marker and terminated.
pub proof fn lemma_shutdown_and_drain_terminates_every_worker<J>(p: Pool<J>)
    requires
        p.wf(),
        p.shutting_down_spec(),
        p.queue_spec().pending().len() == 0,
    ensures
        forall|i: int|
            0 <= i < p.worker_count_spec() ==> (#[trigger] p.workers_spec()[i]).phase_spec()
                == Phase::Terminated,
{
    crate::queue::lemma_drained_queue_delivered_everything(p.queue_spec());
    lemma_terminated_count_bounds(p.workers_spec());
}

/// Appending shutdown markers to the channel adds no work and loses none:
/// the work items among the entries are untouched, and exactly the given
/// number of markers is added.
pub proof fn lemma_appended_shutdown_markers_change_no_work<J>(s: Seq<Entry<J>>, n: nat)
    ensures
        works_of(s + Seq::new(n, |i: int| Entry::<J>::Shutdown)) == works_of(s),
        shutdown_count(s + Seq::new(n, |i: int| Entry::<J>::Shutdown)) == shutdown_count(s) + n,
    decreases n,
{
    let markers = Seq::new(n, |i: int| Entry::<J>::Shutdown);
    let is_work = |e: Entry<J>| e is Work;
    let is_marker = |e: Entry<J>| e is Shutdown;
    if n == 0 {
        assert(s + markers =~= s);
    } else {
        let fewer = Seq::new((n - 1) as nat, |i: int| Entry::<J>::Shutdown);
        lemma_appended_shutdown_markers_change_no_work(s, (n - 1) as nat);
        assert(s + markers =~= (s + fewer).push(Entry::<J>::Shutdown));
        (s + fewer).lemma_filter_push(Entry::<J>::Shutdown, is_work);
        (s + fewer).lemma_filter_push(Entry::<J>::Shutdown, is_marker);
    }
}

} // verus!
