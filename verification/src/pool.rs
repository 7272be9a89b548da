//! The worker pool: a fixed set of workers, each owning one script context,
//! and a bounded queue of jobs waiting for a free worker.
//!
//! The pool is the decision core of a concurrent system. Each of its
//! methods is one atomic step of that system: constructing the pool from
//! the per-worker context initialization outcomes, admitting a submitted
//! job, and recording the completion of a running job. The outside work
//! between steps — executing the script on a dedicated thread, carrying the
//! result back over the job's one-shot completion channel — is performed by
//! the embedding process, which feeds each outcome back in as a plain value.
//!
//! Each step's effect is stated twice: as the method's own `ensures`, and
//! as a step relation (`submit_step`, `complete_step`) over the pool values
//! before and after, which the proofs in `laws` quantify over.

use vstd::prelude::*;

use vstd::pervasive::VecAdditionalExecFns;

use crate::errors::EngineError;
use crate::errors::PoolError;
use crate::errors::ScriptError;
use crate::errors::StartupError;
use crate::message::Request;
use crate::message::Response;

verus! {

/// What a worker is doing: waiting for work, or running the job with the
/// given id.
#[derive(Clone, Copy, PartialEq, Eq, Structural)]
pub enum WorkerStatus {
    Idle,
    Busy { job: u64 },
}

/// One worker, as the pool tracks it. `generation` counts the script
/// contexts this worker has owned: it increases exactly when the context is
/// discarded and recreated after an internal engine fault, so a changed
/// generation means a fresh context with no accumulated script state.
#[derive(Clone, Copy, PartialEq, Eq, Structural)]
pub struct Worker {
    pub status: WorkerStatus,
    pub generation: u64,
}

/// A unit of work: a pool-unique id and the request to run. The id stands
/// for the job's one-shot completion channel, which the embedding process
/// keys by it.
pub struct Job {
    pub id: u64,
    pub request: Request,
}

/// The fixed set of workers and the bounded intake queue.
pub struct Pool {
    workers: Vec<Worker>,
    queue: Vec<Job>,
    queue_bound: usize,
    next_id: u64,
}

impl Pool {
    /// The workers as the contracts speak of them.
    pub closed spec fn workers_view(self) -> Seq<Worker> {
        self.workers@
    }

    /// The waiting jobs, front of the queue first.
    pub closed spec fn queue_view(self) -> Seq<Job> {
        self.queue@
    }

    /// The configured capacity of the waiting queue.
    pub closed spec fn bound_view(self) -> nat {
        self.queue_bound as nat
    }

    /// The id the next submitted job will receive.
    pub closed spec fn next_id_view(self) -> nat {
        self.next_id as nat
    }

    /// Some worker is idle.
    pub open spec fn has_idle(self) -> bool {
        exists|i: int|
            0 <= i < self.workers_view().len() && self.workers_view()[i].status is Idle
    }

    /// The job with this id is in the pool: running on a worker or waiting
    /// in the queue.
    pub open spec fn job_active(self, id: u64) -> bool {
        ||| exists|i: int|
            0 <= i < self.workers_view().len() && self.workers_view()[i].status
                == (WorkerStatus::Busy { job: id })
        ||| exists|i: int| 0 <= i < self.queue_view().len() && self.queue_view()[i].id == id
    }

    /// The pool's invariant. Beyond the structural bounds, it pins down the
    /// discipline the steps maintain: jobs wait only while every worker is
    /// busy, ids are assigned in submission order and never reused, and no
    /// job is in two places at once.
    pub open spec fn wf(self) -> bool {
        &&& self.workers_view().len() >= 1
        &&& self.queue_view().len() <= self.bound_view()
        &&& (self.queue_view().len() > 0 ==> !self.has_idle())
        &&& (forall|i: int|
            0 <= i < self.workers_view().len() && #[trigger] self.workers_view()[i].status
                is Busy ==> self.workers_view()[i].status->job < self.next_id_view())
        &&& (forall|i: int|
            0 <= i < self.queue_view().len() ==> #[trigger] self.queue_view()[i].id
                < self.next_id_view())
        &&& (forall|i: int, j: int|
            0 <= i < j < self.queue_view().len() ==> #[trigger] self.queue_view()[i].id
                < #[trigger] self.queue_view()[j].id)
        &&& (forall|i: int, j: int|
            0 <= i < self.workers_view().len() && 0 <= j < self.queue_view().len()
                && #[trigger] self.workers_view()[i].status is Busy
                ==> self.workers_view()[i].status->job != #[trigger] self.queue_view()[j].id)
        &&& (forall|i: int, j: int|
            0 <= i < j < self.workers_view().len() && #[trigger] self.workers_view()[i].status
                is Busy && #[trigger] self.workers_view()[j].status is Busy
                ==> self.workers_view()[i].status->job != self.workers_view()[j].status->job)
    }

    /// A freshly constructed pool: every worker idle with its first
    /// context, nothing queued, no id handed out yet.
    pub open spec fn fresh(self, worker_count: nat, queue_bound: nat) -> bool {
        &&& self.workers_view().len() == worker_count
        &&& (forall|i: int|
            0 <= i < self.workers_view().len() ==> #[trigger] self.workers_view()[i]
                == (Worker { status: WorkerStatus::Idle, generation: 0 }))
        &&& self.queue_view().len() == 0
        &&& self.bound_view() == queue_bound
        &&& self.next_id_view() == 0
    }

    /// Builds the pool from the outcome of each worker's context
    /// initialization. All workers load the same source, so any failure
    /// means the source is invalid and construction fails fast; the whole
    /// pool refuses to serve.
    pub fn new(
        worker_count: usize,
        queue_bound: usize,
        init_results: Vec<Result<(), EngineError>>,
    ) -> (r: Result<Pool, StartupError>)
        requires
            worker_count >= 1,
            init_results@.len() == worker_count,
        ensures
            r is Ok <==> (forall|i: int| 0 <= i < worker_count ==> init_results@[i] is Ok),
            r matches Ok(p) ==> p.wf() && p.fresh(worker_count as nat, queue_bound as nat),
            r matches Err(e) ==> e matches StartupError::CompileFailure { worker }
                && worker < worker_count && init_results@[worker as int] is Err && (forall|j: int|
                0 <= j < worker ==> init_results@[j] is Ok),
    {
        let mut i: usize = 0;
        while i < worker_count
            invariant
                i <= worker_count,
                init_results@.len() == worker_count,
                forall|j: int| 0 <= j < i ==> init_results@[j] is Ok,
            decreases worker_count - i,
        {
            if init_results[i].is_err() {
                return Err(StartupError::CompileFailure { worker: i });
            }
            i += 1;
        }
        let mut workers: Vec<Worker> = Vec::new();
        let mut k: usize = 0;
        while k < worker_count
            invariant
                workers@.len() == k,
                k <= worker_count,
                forall|j: int|
                    0 <= j < k ==> #[trigger] workers@[j] == (Worker {
                        status: WorkerStatus::Idle,
                        generation: 0,
                    }),
            decreases worker_count - k,
        {
            workers.push(Worker { status: WorkerStatus::Idle, generation: 0 });
            k += 1;
        }
        Ok(Pool { workers, queue: Vec::new(), queue_bound, next_id: 0 })
    }
}

/// How a submission was admitted.
pub enum Admission {
    /// The job was handed to this idle worker and starts immediately.
    Dispatched { worker: usize, job: Job },
    /// Every worker is busy; the job waits in the queue under this id.
    Queued { job_id: u64 },
}

/// The execution outcome was an engine-level fault, after which the
/// worker's context may not be reused.
pub open spec fn internal_fault(result: Result<Response, ScriptError>) -> bool {
    match result {
        Err(ScriptError::Internal) => true,
        _ => false,
    }
}

/// One admission step: how `submit` takes the pool from `pre` to `post`.
/// An idle worker, if there is one, receives the job at once; otherwise the
/// job queues while the queue has room; otherwise the submission is
/// rejected and the pool is untouched.
pub open spec fn submit_step(
    pre: Pool,
    post: Pool,
    request: Request,
    r: Result<Admission, PoolError>,
) -> bool {
    &&& post.bound_view() == pre.bound_view()
    &&& match r {
        Ok(Admission::Dispatched { worker, job }) => {
            &&& job.id == pre.next_id_view()
            &&& job.request == request
            &&& 0 <= (worker as int) < pre.workers_view().len()
            &&& pre.workers_view()[worker as int].status is Idle
            &&& post.workers_view() == pre.workers_view().update(
                worker as int,
                Worker {
                    status: WorkerStatus::Busy { job: job.id },
                    generation: pre.workers_view()[worker as int].generation,
                },
            )
            &&& post.queue_view() == pre.queue_view()
            &&& post.next_id_view() == pre.next_id_view() + 1
        },
        Ok(Admission::Queued { job_id }) => {
            &&& !pre.has_idle()
            &&& pre.queue_view().len() < pre.bound_view()
            &&& job_id == pre.next_id_view()
            &&& post.workers_view() == pre.workers_view()
            &&& post.queue_view() == pre.queue_view().push(Job { id: job_id, request })
            &&& post.next_id_view() == pre.next_id_view() + 1
        },
        Err(e) => {
            &&& e is Overloaded
            &&& !pre.has_idle()
            &&& pre.queue_view().len() >= pre.bound_view()
            &&& post.workers_view() == pre.workers_view()
            &&& post.queue_view() == pre.queue_view()
            &&& post.next_id_view() == pre.next_id_view()
        },
    }
}

/// One completion step: how `complete` takes the pool from `pre` to `post`
/// when `worker` finishes its job with `result`. The freed worker drains
/// the queue head if one waits, else goes idle; an internal engine fault
/// retires its context (the generation rises), any other outcome keeps it.
pub open spec fn complete_step(
    pre: Pool,
    post: Pool,
    worker: int,
    result: Result<Response, ScriptError>,
    next: Option<Job>,
) -> bool {
    &&& 0 <= worker < pre.workers_view().len()
    &&& pre.workers_view()[worker].status is Busy
    &&& post.bound_view() == pre.bound_view()
    &&& post.next_id_view() == pre.next_id_view()
    &&& post.workers_view().len() == pre.workers_view().len()
    &&& (forall|i: int|
        0 <= i < pre.workers_view().len() && i != worker ==> #[trigger] post.workers_view()[i]
            == pre.workers_view()[i])
    &&& post.workers_view()[worker].generation == pre.workers_view()[worker].generation + (
    if internal_fault(result) {
        1int
    } else {
        0int
    })
    &&& if pre.queue_view().len() > 0 {
        &&& next == Some(pre.queue_view()[0])
        &&& post.workers_view()[worker].status == (WorkerStatus::Busy {
            job: pre.queue_view()[0].id,
        })
        &&& post.queue_view() == pre.queue_view().subrange(1, pre.queue_view().len() as int)
    } else {
        &&& next is None
        &&& post.workers_view()[worker].status is Idle
        &&& post.queue_view() == pre.queue_view()
    }
}

/// Finds an idle worker if any is idle.
fn find_idle(workers: &Vec<Worker>) -> (r: Option<usize>)
    ensures
        r matches Some(i) ==> i < workers@.len() && workers@[i as int].status is Idle,
        r is None ==> (forall|i: int|
            0 <= i < workers@.len() ==> !(#[trigger] workers@[i].status is Idle)),
{
    let mut i: usize = 0;
    while i < workers.len()
        invariant
            i <= workers@.len(),
            forall|j: int| 0 <= j < i ==> !(#[trigger] workers@[j].status is Idle),
        decreases workers@.len() - i,
    {
        match workers[i].status {
            WorkerStatus::Idle => {
                return Some(i);
            },
            WorkerStatus::Busy { .. } => {},
        }
        i += 1;
    }
    None
}

impl Pool {
    /// Admits one submitted request: dispatches it to an idle worker,
    /// queues it while room remains, or rejects it as overload. The pool
    /// gives no ordering promise across concurrent submissions beyond the
    /// step relation: whichever idle worker there is may take the job.
    pub fn submit(&mut self, request: Request) -> (r: Result<Admission, PoolError>)
        requires
            old(self).wf(),
            old(self).next_id_view() < u64::MAX,
        ensures
            final(self).wf(),
            submit_step(*old(self), *final(self), request, r),
    {
        match find_idle(&self.workers) {
            Some(w) => {
                let id = self.next_id;
                self.next_id = id + 1;
                let gen = self.workers[w].generation;
                self.workers.set(
                    w,
                    Worker { status: WorkerStatus::Busy { job: id }, generation: gen },
                );
                Ok(Admission::Dispatched { worker: w, job: Job { id, request } })
            },
            None => {
                if self.queue.len() < self.queue_bound {
                    let id = self.next_id;
                    self.next_id = id + 1;
                    self.queue.push(Job { id, request });
                    Ok(Admission::Queued { job_id: id })
                } else {
                    Err(PoolError::Overloaded)
                }
            },
        }
    }

    /// Records that `worker` finished its running job with `result` and
    /// decides what the freed worker does next: it takes the queue head if
    /// a job waits (returned for the embedding process to hand over), else
    /// it goes idle. After an internal engine fault the worker's context is
    /// discarded and a fresh one is created before the next job, which the
    /// risen generation records; after success or a script-level throw the
    /// context is kept, so script-global state persists on that worker.
    pub fn complete(&mut self, worker: usize, result: &Result<Response, ScriptError>) -> (next:
        Option<Job>)
        requires
            old(self).wf(),
            worker < old(self).workers_view().len(),
            old(self).workers_view()[worker as int].status is Busy,
            old(self).workers_view()[worker as int].generation < u64::MAX,
        ensures
            final(self).wf(),
            complete_step(*old(self), *final(self), worker as int, *result, next),
    {
        let gen0 = self.workers[worker].generation;
        let gen = match result {
            Err(ScriptError::Internal) => gen0 + 1,
            _ => gen0,
        };
        if self.queue.len() > 0 {
            let job = self.queue.remove(0);
            self.workers.set(
                worker,
                Worker { status: WorkerStatus::Busy { job: job.id }, generation: gen },
            );
            Some(job)
        } else {
            self.workers.set(worker, Worker { status: WorkerStatus::Idle, generation: gen });
            None
        }
    }

    /// The fixed number of workers.
    pub fn worker_count(&self) -> (n: usize)
        ensures
            n == self.workers_view().len(),
    {
        self.workers.len()
    }

    /// One worker, as the pool tracks it.
    pub fn worker(&self, i: usize) -> (w: Worker)
        requires
            i < self.workers_view().len(),
        ensures
            w == self.workers_view()[i as int],
    {
        self.workers[i]
    }

    /// How many jobs wait in the queue.
    pub fn queued_count(&self) -> (n: usize)
        ensures
            n == self.queue_view().len(),
    {
        self.queue.len()
    }

    /// The configured capacity of the waiting queue.
    pub fn queue_capacity(&self) -> (n: usize)
        ensures
            n == self.bound_view(),
    {
        self.queue_bound
    }

    /// The id the next submitted job will receive.
    pub fn next_job_id(&self) -> (n: u64)
        ensures
            n == self.next_id_view(),
    {
        self.next_id
    }
}

} // verus!
