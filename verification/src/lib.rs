//! A fixed-size worker pool, modelled as a verified state machine.
//!
//! The pool owns a fixed set of workers and a FIFO queue of submitted jobs.
//! Jobs are identified by the order in which they were submitted: the `n`-th
//! call to [`ThreadPool::execute`] submits job id `n`. A worker repeatedly
//! takes the job at the front of the queue, runs it, and reports completion.
//! The invariant [`ThreadPool::wf`] ties the four pieces of state together:
//! every submitted job is either still queued, running on exactly one worker,
//! or recorded as finished exactly once.
//!
//! The operating-system threads, the channel and the mutex that carry jobs to
//! the workers at run time live outside this crate; they drive the transitions
//! below (`execute`, `worker_take`, `worker_finish`) and inherit their
//! guarantees: first-in-first-out dispatch, mutual exclusion on the receiving
//! end, and no job lost or duplicated.

use vstd::prelude::*;

pub mod http;

verus! {

/// What one worker is doing: waiting for work, or running the job
/// with the given id.
pub enum WorkerState {
    Idle,
    Busy(u64),
}

/// One long-lived worker, identified by its index in the pool.
pub struct ThreadWorker {
    pub id: usize,
    pub state: WorkerState,
}

impl ThreadWorker {
    /// A freshly created worker is idle: it has not yet taken any job.
    pub fn new(id: usize) -> (worker: ThreadWorker)
        ensures
            worker.id == id,
            worker.state is Idle,
    {
        ThreadWorker { id, state: WorkerState::Idle }
    }
}

/// The number of workers in `workers` that are currently running a job.
pub open spec fn count_busy(workers: Seq<ThreadWorker>) -> int
    decreases workers.len(),
{
    if workers.len() == 0 {
        0int
    } else {
        count_busy(workers.drop_last()) + if workers.last().state is Busy {
            1int
        } else {
            0int
        }
    }
}

/// Replacing one worker changes the busy count by the difference the
/// replacement makes at that position.
proof fn lemma_count_busy_update(workers: Seq<ThreadWorker>, i: int, w: ThreadWorker)
    requires
        0 <= i < workers.len(),
    ensures
        count_busy(workers.update(i, w)) == count_busy(workers) - (if workers[i].state is Busy {
            1int
        } else {
            0int
        }) + (if w.state is Busy {
            1int
        } else {
            0int
        }),
    decreases workers.len(),
{
    let updated = workers.update(i, w);
    if i == workers.len() - 1 {
        assert(updated.drop_last() =~= workers.drop_last());
    } else {
        assert(updated.drop_last() =~= workers.drop_last().update(i, w));
        lemma_count_busy_update(workers.drop_last(), i, w);
    }
}

/// There are never more busy workers than workers.
proof fn lemma_count_busy_bounds(workers: Seq<ThreadWorker>)
    ensures
        0 <= count_busy(workers) <= workers.len(),
    decreases workers.len(),
{
    if workers.len() > 0 {
        lemma_count_busy_bounds(workers.drop_last());
    }
}

/// With every worker idle, none is busy.
proof fn lemma_count_busy_all_idle(workers: Seq<ThreadWorker>)
    requires
        forall|w: int| 0 <= w < workers.len() ==> (#[trigger] workers[w]).state is Idle,
    ensures
        count_busy(workers) == 0,
    decreases workers.len(),
{
    if workers.len() > 0 {
        lemma_count_busy_all_idle(workers.drop_last());
    }
}

/// The fixed set of workers plus the dispatch state: the FIFO queue of
/// submitted-but-not-yet-taken job ids, the id the next submission will get,
/// and the jobs that have finished, in completion order.
pub struct ThreadPool {
    pub workers: Vec<ThreadWorker>,
    pub queue: Vec<u64>,
    pub next_job: u64,
    pub finished: Vec<u64>,
}

impl ThreadPool {
    /// How many jobs have been submitted so far.
    pub open spec fn submitted(self) -> int {
        self.next_job as int
    }

    /// How many jobs have been taken off the queue by some worker.
    /// Jobs leave the queue front-first and enter back-first, so the jobs
    /// taken so far are exactly the ids below this count.
    pub open spec fn started(self) -> int {
        self.next_job - self.queue@.len()
    }

    /// The pool's invariant, established by `new` and preserved by every
    /// transition:
    /// - there is at least one worker, and worker `w` carries index `w`;
    /// - the queue holds exactly the ids `started() .. submitted()`, in
    ///   submission order;
    /// - a busy worker runs a job that was taken and has not finished, and
    ///   no two workers run the same job;
    /// - the finished record lists taken jobs, each at most once;
    /// - every taken job is finished or running on some worker;
    /// - the number of busy workers accounts exactly for the jobs that were
    ///   taken and have not finished.
    pub open spec fn wf(self) -> bool {
        &&& self.workers@.len() >= 1
        &&& forall|w: int|
            0 <= w < self.workers@.len() ==> (#[trigger] self.workers@[w]).id == w
        &&& self.queue@.len() <= self.next_job
        &&& forall|i: int|
            0 <= i < self.queue@.len() ==> #[trigger] self.queue@[i]
                == self.next_job - self.queue@.len() + i
        &&& forall|w: int|
            0 <= w < self.workers@.len() ==> ((#[trigger] self.workers@[w]).state matches
                WorkerState::Busy(j) ==> j < self.started() && !self.finished@.contains(j))
        &&& forall|w1: int, w2: int|
            0 <= w1 < w2 < self.workers@.len() && (#[trigger] self.workers@[w1]).state is Busy
                && (#[trigger] self.workers@[w2]).state is Busy
                ==> self.workers@[w1].state != self.workers@[w2].state
        &&& forall|i: int|
            0 <= i < self.finished@.len() ==> #[trigger] self.finished@[i] < self.started()
        &&& forall|i: int, j: int|
            0 <= i < j < self.finished@.len() ==> self.finished@[i] != self.finished@[j]
        &&& forall|jid: u64|
            jid < self.started() ==> #[trigger] self.finished@.contains(jid) || exists|w: int|
                0 <= w < self.workers@.len() && #[trigger] self.workers@[w].state
                    == WorkerState::Busy(jid)
        &&& count_busy(self.workers@) == self.started() - self.finished@.len()
    }

    /// Builds a pool of exactly `size` workers, all idle, with nothing
    /// submitted yet. A pool of zero workers could never run a job, so
    /// `size == 0` is ruled out; the unverified caller checks the size
    /// before calling, and aborts on zero as a fatal misuse.
    pub fn new(size: usize) -> (pool: ThreadPool)
        requires
            size >= 1,
        ensures
            pool.wf(),
            pool.workers@.len() == size,
            forall|w: int| 0 <= w < size ==> (#[trigger] pool.workers@[w]).state is Idle,
            pool.queue@.len() == 0,
            pool.next_job == 0,
            pool.finished@.len() == 0,
    {
        let mut workers: Vec<ThreadWorker> = Vec::with_capacity(size);
        for id in 0..size
            invariant
                workers@.len() == id,
                forall|w: int|
                    0 <= w < id ==> (#[trigger] workers@[w]).id == w
                        && workers@[w].state is Idle,
                count_busy(workers@) == 0,
        {
            let ghost before = workers@;
            workers.push(ThreadWorker::new(id));
            proof {
                assert(workers@.drop_last() =~= before);
            }
        }
        ThreadPool { workers, queue: Vec::new(), next_job: 0, finished: Vec::new() }
    }

    /// Submits one job and hands back its id. The job goes to the back of
    /// the queue; the workers and the finished record are untouched, and no
    /// condition on the workers' states is required: submission never waits
    /// for a job to start or to finish.
    pub fn execute(&mut self) -> (job: u64)
        requires
            old(self).wf(),
            old(self).next_job < u64::MAX,
        ensures
            final(self).wf(),
            job == old(self).next_job,
            final(self).queue@ == old(self).queue@.push(job),
            final(self).workers@ == old(self).workers@,
            final(self).next_job == old(self).next_job + 1,
            final(self).finished@ == old(self).finished@,
    {
        let job = self.next_job;
        self.queue.push(job);
        self.next_job = job + 1;
        job
    }

    /// Worker `wid`, currently idle, tries to take a job. With an empty
    /// queue there is nothing to take and the pool is unchanged. Otherwise
    /// the worker takes the job at the front — the earliest submitted job
    /// still queued — and becomes busy with it; the rest of the queue moves
    /// up, and no other worker's state changes.
    pub fn worker_take(&mut self, wid: usize) -> (taken: Option<u64>)
        requires
            old(self).wf(),
            wid < old(self).workers@.len(),
            old(self).workers@[wid as int].state is Idle,
        ensures
            final(self).wf(),
            final(self).next_job == old(self).next_job,
            final(self).finished@ == old(self).finished@,
            old(self).queue@.len() == 0 ==> taken is None && *final(self) == *old(self),
            old(self).queue@.len() > 0 ==> {
                &&& taken == Some(old(self).queue@[0])
                &&& forall|i: int|
                    0 <= i < old(self).queue@.len() ==> old(self).queue@[0]
                        <= #[trigger] old(self).queue@[i]
                &&& final(self).queue@ == old(self).queue@.subrange(
                    1,
                    old(self).queue@.len() as int,
                )
                &&& final(self).workers@ == old(self).workers@.update(
                    wid as int,
                    (ThreadWorker { id: wid, state: WorkerState::Busy(old(self).queue@[0]) }),
                )
            },
    {
        if self.queue.len() == 0 {
            return None;
        }
        let job = self.queue.remove(0);
        proof {
            assert(old(self).queue@.remove(0) =~= old(self).queue@.subrange(
                1,
                old(self).queue@.len() as int,
            ));
        }
        self.workers[wid] = ThreadWorker { id: wid, state: WorkerState::Busy(job) };
        proof {
            lemma_count_busy_update(
                old(self).workers@,
                wid as int,
                ThreadWorker { id: wid, state: WorkerState::Busy(job) },
            );
            assert(job == old(self).started());
            assert forall|jid: u64| jid < final(self).started() implies #[trigger] final(self).finished@.contains(jid) || exists|w: int|
                0 <= w < final(self).workers@.len() && #[trigger] final(self).workers@[w].state
                    == WorkerState::Busy(jid) by {
                if jid == job {
                    assert(final(self).workers@[wid as int].state == WorkerState::Busy(jid));
                } else {
                    assert(jid < old(self).started());
                    if !old(self).finished@.contains(jid) {
                        let w = choose|w: int|
                            0 <= w < old(self).workers@.len() && #[trigger] old(self).workers@[w].state == WorkerState::Busy(jid);
                        assert(final(self).workers@[w].state == WorkerState::Busy(jid));
                    }
                }
            }
        }
        Some(job)
    }

    /// Worker `wid` reports that the job it was running has completed: the
    /// worker becomes idle again and the job's id is appended to the
    /// finished record. Nothing else — the queue, the submission counter,
    /// the other workers — changes.
    pub fn worker_finish(&mut self, wid: usize)
        requires
            old(self).wf(),
            wid < old(self).workers@.len(),
            old(self).workers@[wid as int].state is Busy,
        ensures
            final(self).wf(),
            final(self).workers@ == old(self).workers@.update(
                wid as int,
                (ThreadWorker { id: wid, state: WorkerState::Idle }),
            ),
            final(self).finished@ == old(self).finished@.push(
                old(self).workers@[wid as int].state->0,
            ),
            final(self).queue@ == old(self).queue@,
            final(self).next_job == old(self).next_job,
    {
        let job = match self.workers[wid].state {
            WorkerState::Busy(job) => job,
            WorkerState::Idle => unreached(),
        };
        self.workers[wid] = ThreadWorker { id: wid, state: WorkerState::Idle };
        self.finished.push(job);
        proof {
            lemma_count_busy_update(
                old(self).workers@,
                wid as int,
                ThreadWorker { id: wid, state: WorkerState::Idle },
            );
            assert forall|jid: u64| jid < final(self).started() implies #[trigger] final(self).finished@.contains(jid) || exists|w: int|
                0 <= w < final(self).workers@.len() && #[trigger] final(self).workers@[w].state
                    == WorkerState::Busy(jid) by {
                if jid == job {
                    assert(final(self).finished@[old(self).finished@.len() as int] == jid);
                    assert(final(self).finished@.contains(jid));
                } else if old(self).finished@.contains(jid) {
                    let i = choose|i: int|
                        0 <= i < old(self).finished@.len() && old(self).finished@[i] == jid;
                    assert(final(self).finished@[i] == jid);
                    assert(final(self).finished@.contains(jid));
                } else {
                    let w = choose|w: int|
                        0 <= w < old(self).workers@.len() && #[trigger] old(self).workers@[w].state
                            == WorkerState::Busy(jid);
                    assert(final(self).workers@[w].state == WorkerState::Busy(jid));
                }
            }
            assert forall|w: int|
                0 <= w < final(self).workers@.len() implies ((#[trigger] final(self).workers@[w]).state matches WorkerState::Busy(j) ==> j < final(self).started()
                && !final(self).finished@.contains(j)) by {
                if final(self).workers@[w].state is Busy {
                    let j = final(self).workers@[w].state->0;
                    assert(old(self).workers@[w].state == WorkerState::Busy(j));
                    assert(j != job);
                    assert forall|i: int|
                        0 <= i < final(self).finished@.len() implies final(self).finished@[i]
                            != j by {
                        if i < old(self).finished@.len() {
                            assert(!old(self).finished@.contains(j));
                        }
                    }
                    assert(!final(self).finished@.contains(j));
                }
            }
        }
    }

    /// Law: no job is run twice. In every well-formed pool state, the
    /// finished record mentions each job at most once, no two workers are
    /// busy with the same job, and no worker is busy with a job that has
    /// already finished — a job taken from the queue is executed by exactly
    /// one worker and recorded at most once.
    pub proof fn lemma_job_runs_at_most_once(self)
        requires
            self.wf(),
        ensures
            forall|i: int, j: int|
                0 <= i < j < self.finished@.len() ==> self.finished@[i] != self.finished@[j],
            forall|w1: int, w2: int|
                0 <= w1 < w2 < self.workers@.len() && (#[trigger] self.workers@[w1]).state is Busy
                    && (#[trigger] self.workers@[w2]).state is Busy
                    ==> self.workers@[w1].state != self.workers@[w2].state,
            forall|w: int|
                0 <= w < self.workers@.len() && (#[trigger] self.workers@[w]).state is Busy
                    ==> !self.finished@.contains(self.workers@[w].state->0),
    {
    }

    /// Law: no job is lost. In every well-formed pool state, each submitted
    /// job is still queued, or running on some worker, or recorded as
    /// finished.
    pub proof fn lemma_no_job_lost(self)
        requires
            self.wf(),
        ensures
            forall|jid: u64|
                jid < self.submitted() ==> #[trigger] self.queue@.contains(jid)
                    || self.finished@.contains(jid) || exists|w: int|
                    0 <= w < self.workers@.len() && #[trigger] self.workers@[w].state
                        == WorkerState::Busy(jid),
    {
        assert forall|jid: u64| jid < self.submitted() implies #[trigger] self.queue@.contains(jid)
            || self.finished@.contains(jid) || exists|w: int|
            0 <= w < self.workers@.len() && #[trigger] self.workers@[w].state
                == WorkerState::Busy(jid) by {
            if jid >= self.started() {
                let i = jid - self.started();
                assert(self.queue@[i as int] == jid);
                assert(self.queue@.contains(jid));
            }
        }
    }

    /// Law: a drained pool has run everything. When the queue is empty and
    /// every worker is idle, the finished record holds every submitted job,
    /// each exactly once — after five submissions, five completions, no job
    /// duplicated and none missing.
    pub proof fn lemma_drained_pool_ran_every_job_once(self)
        requires
            self.wf(),
            self.queue@.len() == 0,
            forall|w: int| 0 <= w < self.workers@.len() ==> (#[trigger] self.workers@[w]).state is Idle,
        ensures
            self.finished@.len() == self.submitted(),
            forall|jid: u64| jid < self.submitted() ==> #[trigger] self.finished@.contains(jid),
            forall|i: int, j: int|
                0 <= i < j < self.finished@.len() ==> self.finished@[i] != self.finished@[j],
    {
        lemma_count_busy_all_idle(self.workers@);
        assert forall|jid: u64| jid < self.submitted() implies #[trigger] self.finished@.contains(
            jid,
        ) by {
            if !self.finished@.contains(jid) {
                let w = choose|w: int|
                    0 <= w < self.workers@.len() && #[trigger] self.workers@[w].state
                        == WorkerState::Busy(jid);
                assert(self.workers@[w].state is Idle);
            }
        }
    }

    /// Law: submission order is preserved in the queue. Job ids record
    /// submission order, and in every well-formed pool state the queue lists
    /// its jobs in strictly increasing id order, so a job submitted earlier
    /// stands closer to the front and is taken first.
    pub proof fn lemma_queue_is_fifo(self)
        requires
            self.wf(),
        ensures
            forall|i: int, j: int|
                0 <= i < j < self.queue@.len() ==> self.queue@[i] < self.queue@[j],
    {
    }

    /// Law: a pool of `K` workers runs at most `K` jobs at a time. In every
    /// well-formed pool state the jobs taken from the queue and not yet
    /// finished are exactly the busy workers' jobs, so at most `K` of them
    /// exist; in particular, while `K` unfinished jobs occupy all the
    /// workers, any further submitted job is still in the queue.
    pub proof fn lemma_started_jobs_bounded(self)
        requires
            self.wf(),
        ensures
            self.started() == self.finished@.len() + count_busy(self.workers@),
            count_busy(self.workers@) <= self.workers@.len(),
            self.started() <= self.finished@.len() + self.workers@.len(),
    {
        lemma_count_busy_bounds(self.workers@);
    }

    /// How many workers the pool was built with.
    pub fn worker_count(&self) -> (n: usize)
        ensures
            n == self.workers@.len(),
    {
        self.workers.len()
    }

    /// Whether worker `wid` is idle right now.
    pub fn worker_is_idle(&self, wid: usize) -> (idle: bool)
        requires
            wid < self.workers@.len(),
        ensures
            idle == (self.workers@[wid as int].state is Idle),
    {
        match self.workers[wid].state {
            WorkerState::Idle => true,
            WorkerState::Busy(_) => false,
        }
    }

    /// How many submitted jobs are still waiting in the queue.
    pub fn queued_count(&self) -> (n: usize)
        ensures
            n == self.queue@.len(),
    {
        self.queue.len()
    }

    /// The id waiting at position `i` of the queue (0 is the front).
    pub fn queued_job(&self, i: usize) -> (job: u64)
        requires
            i < self.queue@.len(),
        ensures
            job == self.queue@[i as int],
    {
        self.queue[i]
    }

    /// How many jobs have been submitted so far; also the id the next
    /// submission will get.
    pub fn submitted_count(&self) -> (n: u64)
        ensures
            n == self.next_job,
    {
        self.next_job
    }

    /// How many jobs have finished.
    pub fn finished_count(&self) -> (n: usize)
        ensures
            n == self.finished@.len(),
    {
        self.finished.len()
    }

    /// The id of the `i`-th job to finish.
    pub fn finished_job(&self, i: usize) -> (job: u64)
        requires
            i < self.finished@.len(),
        ensures
            job == self.finished@[i as int],
    {
        self.finished[i]
    }

    /// The checked constructor: `None` exactly when a zero-sized pool was
    /// requested, otherwise the same pool that `new` builds.
    pub fn try_new(size: usize) -> (pool: Option<ThreadPool>)
        ensures
            pool is Some <==> size >= 1,
            pool matches Some(p) ==> {
                &&& p.wf()
                &&& p.workers@.len() == size
                &&& forall|w: int| 0 <= w < size ==> (#[trigger] p.workers@[w]).state is Idle
                &&& p.queue@.len() == 0
                &&& p.next_job == 0
                &&& p.finished@.len() == 0
            },
    {
        if size == 0 {
            None
        } else {
            Some(ThreadPool::new(size))
        }
    }
}

} // verus!
