//! Lifecycle protocol of the fixed-size worker pool.
//!
//! The pool owns `size` long-lived workers that pull jobs from one shared
//! FIFO queue. This module verifies the protocol the pool and its workers
//! follow: which transitions are legal, that submission fails once the
//! queue is closed, and that when shutdown completes every job submitted
//! has run exactly once (absent a crashed worker). The shell spawns the
//! threads, performs the blocking channel operations, and mirrors each of
//! them as one transition here.
//!
//! A job is identified by its submission index; its one-shot closure stays
//! with the shell. Each job has exactly one state cell, so "runs at most
//! once" is structural: a job is `Done` only by the single `worker_complete`
//! transition of the worker that dequeued it.

use vstd::prelude::*;

verus! {

/// Where one submitted job stands in its life.
#[derive(Debug, PartialEq, Eq)]
pub enum JobState {
    /// In the queue, not yet picked up by any worker.
    Queued,
    /// Being executed by the worker with this index.
    Running(usize),
    /// Executed to completion, exactly once.
    Done,
    /// Lost when the worker with this index crashed while running it.
    Lost(usize),
}

/// Why a pool operation was refused.
#[derive(Debug, PartialEq, Eq)]
pub enum PoolError {
    /// A pool must have at least one worker.
    ZeroSize,
    /// The queue is closed; no further job is accepted.
    ShutDown,
}

/// What a worker is told to do after asking the queue for work.
#[derive(Debug, PartialEq, Eq)]
pub enum WorkerStep {
    /// Execute the job with this index.
    Run(usize),
    /// The queue is empty and closed: leave the dequeue loop.
    Exit,
    /// The queue is empty but still open: block until something changes.
    Wait,
}

/// The pool's protocol state: one cell per submitted job, one slot per
/// worker. FIFO order is the submission order; `head` counts the jobs
/// already handed out.
pub struct ThreadPool {
    pub size: usize,
    pub closed: bool,
    pub jobs: Vec<JobState>,
    pub head: usize,
    pub active: Vec<Option<usize>>,
    pub alive: Vec<bool>,
    pub crashed: Vec<bool>,
}

impl ThreadPool {
    /// Number of worker slots.
    pub open spec fn spec_size(self) -> int {
        self.size as int
    }

    /// Number of jobs ever accepted.
    pub open spec fn job_count(self) -> int {
        self.jobs@.len() as int
    }

    /// State of the job submitted `j`-th.
    pub open spec fn job_state(self, j: int) -> JobState {
        self.jobs@[j]
    }

    /// Whether the queue has been closed: submission is over.
    pub open spec fn is_closed(self) -> bool {
        self.closed
    }

    /// How many jobs have been handed to workers, in FIFO order.
    pub open spec fn dequeued(self) -> int {
        self.head as int
    }

    /// Whether worker `w`'s thread is still in its dequeue-execute loop.
    pub open spec fn worker_alive(self, w: int) -> bool {
        self.alive@[w]
    }

    /// Whether worker `w` crashed while running a job.
    pub open spec fn worker_crashed(self, w: int) -> bool {
        self.crashed@[w]
    }

    /// The job worker `w` is currently running, if any.
    pub open spec fn worker_job(self, w: int) -> Option<usize> {
        self.active@[w]
    }

    /// Whether worker `w` is between jobs.
    pub open spec fn worker_idle(self, w: int) -> bool {
        self.active@[w] is None
    }

    /// The pool's invariant, preserved by every transition.
    pub open spec fn wf(self) -> bool {
        &&& self.size > 0
        &&& self.active@.len() == self.size
        &&& self.alive@.len() == self.size
        &&& self.crashed@.len() == self.size
        &&& self.head <= self.jobs@.len()
        // the queue is exactly the jobs not yet handed out
        &&& forall|j: int| 0 <= j < self.head ==> !(#[trigger] self.jobs@[j] is Queued)
        &&& forall|j: int| self.head <= j < self.jobs@.len() ==> (#[trigger] self.jobs@[j]) is Queued
        // a worker's slot and the job's cell agree
        &&& forall|w: int|
            #![trigger self.active@[w]]
            0 <= w < self.size ==> match self.active@[w] {
                Some(j) => {
                    &&& j < self.jobs@.len()
                    &&& self.jobs@[j as int] == JobState::Running(w as usize)
                    &&& self.alive@[w]
                },
                None => true,
            }
        &&& forall|j: int|
            #![trigger self.jobs@[j]]
            0 <= j < self.jobs@.len() ==> match self.jobs@[j] {
                JobState::Running(w) => {
                    &&& w < self.size
                    &&& self.active@[w as int] == Some(j as usize)
                },
                // a lost job names the crashed worker that lost it
                JobState::Lost(w) => {
                    &&& w < self.size
                    &&& self.crashed@[w as int]
                },
                _ => true,
            }
        // a crashed worker is dead; a dead worker runs nothing
        &&& forall|w: int| 0 <= w < self.size && #[trigger] self.crashed@[w] ==> !self.alive@[w]
        &&& forall|w: int| 0 <= w < self.size && !(#[trigger] self.alive@[w]) ==> self.active@[w] is None
        // a worker leaves its loop only on a crash or on a closed, drained queue
        &&& forall|w: int|
            0 <= w < self.size && !(#[trigger] self.alive@[w]) && !self.crashed@[w] ==> {
                &&& self.closed
                &&& self.head == self.jobs@.len()
            }
    }

    /// Shutdown has completed: the queue is closed and every worker
    /// thread has left its loop and been joined.
    pub open spec fn shutdown_complete(self) -> bool {
        self.is_closed() && forall|w: int| 0 <= w < self.spec_size() ==> !self.worker_alive(w)
    }

    /// Constructs a pool of `size` workers, all idle and alive, with an
    /// empty, open queue. A pool of zero workers is refused.
    pub fn new(size: usize) -> (r: Result<ThreadPool, PoolError>)
        ensures
            r is Ok <==> size > 0,
            size == 0 ==> r === Err(PoolError::ZeroSize),
            r matches Ok(p) ==> {
                &&& p.wf()
                &&& p.spec_size() == size
                &&& p.job_count() == 0
                &&& !p.is_closed()
                &&& forall|w: int| 0 <= w < size ==> p.worker_alive(w) && !p.worker_crashed(w)
            },
    {
        if size == 0 {
            return Err(PoolError::ZeroSize);
        }
        let mut active: Vec<Option<usize>> = Vec::new();
        let mut alive: Vec<bool> = Vec::new();
        let mut crashed: Vec<bool> = Vec::new();
        let mut w: usize = 0;
        while w < size
            invariant
                active@.len() == w,
                alive@.len() == w,
                crashed@.len() == w,
                w <= size,
                forall|i: int| 0 <= i < w ==> active@[i] is None,
                forall|i: int| 0 <= i < w ==> alive@[i] && !crashed@[i],
            decreases size - w,
        {
            active.push(None);
            alive.push(true);
            crashed.push(false);
            w = w + 1;
        }
        Ok(ThreadPool { size, closed: false, jobs: Vec::new(), head: 0, active, alive, crashed })
    }

    /// Accepts one job onto the queue and returns its index. Refused if
    /// and only if the queue has already been closed; a refusal leaves
    /// the pool unchanged.
    pub fn execute(&mut self) -> (r: Result<usize, PoolError>)
        requires
            old(self).wf(),
        ensures
            final(self).wf(),
            r is Ok <==> !old(self).is_closed(),
            r matches Ok(id) ==> {
                &&& id == old(self).job_count()
                &&& final(self).jobs@ == old(self).jobs@.push(JobState::Queued)
                &&& final(self).job_state(id as int) is Queued
            },
            r is Err ==> *final(self) == *old(self) && r === Err(PoolError::ShutDown),
            final(self).size == old(self).size,
            final(self).closed == old(self).closed,
            final(self).head == old(self).head,
            final(self).active == old(self).active,
            final(self).alive == old(self).alive,
            final(self).crashed == old(self).crashed,
    {
        if self.closed {
            return Err(PoolError::ShutDown);
        }
        let id = self.jobs.len();
        self.jobs.push(JobState::Queued);
        Ok(id)
    }

    /// Closes the sending side of the queue: submission is over. Jobs
    /// already queued stay queued; calling this twice is harmless.
    pub fn close(&mut self)
        requires
            old(self).wf(),
        ensures
            final(self).wf(),
            final(self).is_closed(),
            final(self).jobs == old(self).jobs,
            final(self).size == old(self).size,
            final(self).head == old(self).head,
            final(self).active == old(self).active,
            final(self).alive == old(self).alive,
            final(self).crashed == old(self).crashed,
    {
        self.closed = true;
    }

    /// One worker's turn at the shared queue: take the oldest queued job,
    /// or leave the loop if the queue is closed and drained, or keep
    /// blocking if it is open and empty.
    pub fn worker_dequeue(&mut self, w: usize) -> (r: WorkerStep)
        requires
            old(self).wf(),
            w < old(self).spec_size(),
            old(self).worker_alive(w as int),
            old(self).worker_idle(w as int),
        ensures
            final(self).wf(),
            final(self).size == old(self).size,
            final(self).closed == old(self).closed,
            old(self).dequeued() < old(self).job_count() ==> {
                &&& r == WorkerStep::Run(old(self).dequeued() as usize)
                &&& final(self).dequeued() == old(self).dequeued() + 1
                &&& final(self).jobs@ == old(self).jobs@.update(
                    old(self).dequeued(),
                    JobState::Running(w),
                )
                &&& final(self).worker_job(w as int) == Some(old(self).dequeued() as usize)
                &&& final(self).alive == old(self).alive
                &&& final(self).crashed == old(self).crashed
            },
            old(self).dequeued() == old(self).job_count() && old(self).is_closed() ==> {
                &&& r is Exit
                &&& !final(self).worker_alive(w as int)
                &&& !final(self).worker_crashed(w as int)
                &&& final(self).jobs == old(self).jobs
                &&& final(self).head == old(self).head
                &&& final(self).active == old(self).active
                &&& forall|v: int|
                    0 <= v < old(self).spec_size() && v != w ==> final(self).worker_alive(v)
                        == old(self).worker_alive(v)
            },
            old(self).dequeued() == old(self).job_count() && !old(self).is_closed() ==> {
                &&& r is Wait
                &&& *final(self) == *old(self)
            },
    {
        if self.head < self.jobs.len() {
            let id = self.head;
            self.jobs.set(id, JobState::Running(w));
            self.active.set(w, Some(id));
            self.head = id + 1;
            WorkerStep::Run(id)
        } else if self.closed {
            self.alive.set(w, false);
            WorkerStep::Exit
        } else {
            WorkerStep::Wait
        }
    }

    /// Worker `w` finished the job it was running: the job is done, the
    /// worker idle again.
    pub fn worker_complete(&mut self, w: usize)
        requires
            old(self).wf(),
            w < old(self).spec_size(),
            old(self).worker_job(w as int) is Some,
        ensures
            final(self).wf(),
            final(self).jobs@ == old(self).jobs@.update(
                old(self).worker_job(w as int)->0 as int,
                JobState::Done,
            ),
            final(self).worker_idle(w as int),
            final(self).worker_alive(w as int),
            final(self).size == old(self).size,
            final(self).closed == old(self).closed,
            final(self).head == old(self).head,
            final(self).alive == old(self).alive,
            final(self).crashed == old(self).crashed,
            forall|v: int|
                0 <= v < old(self).spec_size() && v != w ==> final(self).worker_job(v)
                    == old(self).worker_job(v),
    {
        let id = self.active[w].unwrap();
        self.jobs.set(id, JobState::Done);
        self.active.set(w, None);
    }

    /// The job worker `w` was running panicked: the job is lost and the
    /// worker's thread terminates, permanently shrinking the pool — the
    /// accepted weakness of not catching job panics.
    pub fn worker_crash(&mut self, w: usize)
        requires
            old(self).wf(),
            w < old(self).spec_size(),
            old(self).worker_job(w as int) is Some,
        ensures
            final(self).wf(),
            final(self).jobs@ == old(self).jobs@.update(
                old(self).worker_job(w as int)->0 as int,
                JobState::Lost(w),
            ),
            final(self).worker_idle(w as int),
            !final(self).worker_alive(w as int),
            final(self).worker_crashed(w as int),
            final(self).size == old(self).size,
            final(self).closed == old(self).closed,
            final(self).head == old(self).head,
            forall|v: int|
                0 <= v < old(self).spec_size() && v != w ==> final(self).worker_alive(v)
                    == old(self).worker_alive(v) && final(self).worker_crashed(v) == old(
                    self,
                ).worker_crashed(v) && final(self).worker_job(v) == old(self).worker_job(v),
    {
        let id = self.active[w].unwrap();
        self.jobs.set(id, JobState::Lost(w));
        self.active.set(w, None);
        self.alive.set(w, false);
        self.crashed.set(w, true);
    }

    /// Whether shutdown has completed, for the shell's join loop.
    pub fn is_shutdown_complete(&self) -> (r: bool)
        requires
            self.wf(),
        ensures
            r == self.shutdown_complete(),
    {
        if !self.closed {
            return false;
        }
        let mut w: usize = 0;
        while w < self.size
            invariant
                w <= self.size,
                self.wf(),
                forall|v: int| 0 <= v < w ==> !self.worker_alive(v),
            decreases self.size - w,
        {
            if self.alive[w] {
                assert(self.worker_alive(w as int));
                return false;
            }
            w = w + 1;
        }
        true
    }
}

/// Best-effort exactly-once execution: when shutdown has completed and no
/// worker crashed, every job accepted onto the queue is `Done` — it was
/// dequeued by exactly one worker and run to completion exactly once.
pub proof fn lemma_all_jobs_done(p: ThreadPool)
    requires
        p.wf(),
        p.shutdown_complete(),
        forall|w: int| 0 <= w < p.spec_size() ==> !p.worker_crashed(w),
    ensures
        forall|j: int| 0 <= j < p.job_count() ==> p.job_state(j) is Done,
{
    assert(!p.worker_alive(0) && !p.worker_crashed(0));
    assert(p.dequeued() == p.job_count());
    assert forall|j: int| 0 <= j < p.job_count() implies p.job_state(j) is Done by {
        assert(!(p.jobs@[j] is Queued));
        match p.jobs@[j] {
            JobState::Running(w) => {
                assert(p.active@[w as int] == Some(j as usize));
                assert(!p.worker_alive(w as int));
                assert(p.active@[w as int] is None);
            },
            JobState::Lost(w) => {
                assert(!p.worker_crashed(w as int));
                assert(p.crashed@[w as int]);
            },
            _ => {},
        }
    }
}

/// Shutdown completeness: once shutdown has completed, every worker
/// thread has terminated, and the queue is closed — so by `execute`'s
/// contract no further job submission is accepted.
pub proof fn lemma_shutdown_complete(p: ThreadPool)
    requires
        p.wf(),
        p.shutdown_complete(),
    ensures
        forall|w: int| 0 <= w < p.spec_size() ==> !p.worker_alive(w),
        p.is_closed(),
{
}

} // verus!
