//! The laws the pool core obeys, stated over the step relations of `pool`
//! and the decision relation of `bridge`, and proved for every state and
//! every submission pattern.

use vstd::prelude::*;

use crate::bridge::ServeOutcome;
use crate::bridge::bridge_decision;
use crate::bridge::script_response_well_formed;
use crate::errors::PoolError;
use crate::errors::ScriptError;
use crate::message::Request;
use crate::message::Response;
use crate::message::response_well_formed;
use crate::pool::Admission;
use crate::pool::Job;
use crate::pool::Pool;
use crate::pool::Worker;
use crate::pool::WorkerStatus;
use crate::pool::complete_step;
use crate::pool::internal_fault;
use crate::pool::submit_step;

verus! {

/// How many of these workers are running a job right now.
pub open spec fn running_count(ws: Seq<Worker>) -> nat
    decreases ws.len(),
{
    if ws.len() == 0 {
        0
    } else {
        running_count(ws.drop_last()) + (if ws.last().status is Busy {
            1nat
        } else {
            0nat
        })
    }
}

/// Law: at most `worker_count` script executions run simultaneously. Each
/// worker runs at most one job, so however submissions arrive, the number
/// of running executions never exceeds the number of workers.
pub proof fn lemma_executions_bounded_by_workers(ws: Seq<Worker>)
    ensures
        running_count(ws) <= ws.len(),
    decreases ws.len(),
{
    if ws.len() > 0 {
        lemma_executions_bounded_by_workers(ws.drop_last());
    }
}

/// An idle worker keeps the running count strictly below the worker count.
pub proof fn lemma_idle_lowers_count(ws: Seq<Worker>, idle: int)
    requires
        0 <= idle < ws.len(),
        ws[idle].status is Idle,
    ensures
        running_count(ws) < ws.len(),
    decreases ws.len(),
{
    if idle == ws.len() - 1 {
        lemma_executions_bounded_by_workers(ws.drop_last());
    } else {
        assert(ws.drop_last()[idle] == ws[idle]);
        lemma_idle_lowers_count(ws.drop_last(), idle);
    }
}

/// Below capacity, some worker is idle.
pub proof fn lemma_idle_exists_below_capacity(ws: Seq<Worker>)
    requires
        running_count(ws) < ws.len(),
    ensures
        exists|i: int| 0 <= i < ws.len() && ws[i].status is Idle,
    decreases ws.len(),
{
    let n = ws.len() as int;
    if ws.last().status is Idle {
        assert(ws[n - 1].status is Idle);
    } else {
        lemma_idle_exists_below_capacity(ws.drop_last());
        let i = choose|i: int| 0 <= i < ws.drop_last().len() && ws.drop_last()[i].status is Idle;
        assert(ws[i] == ws.drop_last()[i]);
    }
}

/// Replacing one worker changes the running count by what the exchange
/// adds and removes.
pub proof fn lemma_running_count_update(ws: Seq<Worker>, i: int, w: Worker)
    requires
        0 <= i < ws.len(),
    ensures
        running_count(ws.update(i, w)) == running_count(ws) - (if ws[i].status is Busy {
            1int
        } else {
            0int
        }) + (if w.status is Busy {
            1int
        } else {
            0int
        }),
    decreases ws.len(),
{
    if i == ws.len() - 1 {
        assert(ws.update(i, w).drop_last() =~= ws.drop_last());
    } else {
        assert(ws.update(i, w).drop_last() =~= ws.drop_last().update(i, w));
        lemma_running_count_update(ws.drop_last(), i, w);
    }
}

/// A pool whose workers are all idle runs nothing.
pub proof fn lemma_all_idle_runs_nothing(ws: Seq<Worker>)
    requires
        forall|i: int| 0 <= i < ws.len() ==> #[trigger] ws[i].status is Idle,
    ensures
        running_count(ws) == 0,
    decreases ws.len(),
{
    if ws.len() > 0 {
        lemma_all_idle_runs_nothing(ws.drop_last());
    }
}

/// A fresh pool runs nothing.
pub proof fn lemma_fresh_pool_runs_nothing(p: Pool, worker_count: nat, queue_bound: nat)
    requires
        p.fresh(worker_count, queue_bound),
    ensures
        running_count(p.workers_view()) == 0,
{
    lemma_all_idle_runs_nothing(p.workers_view());
}

/// Law: a dispatched submission raises the number of running executions by
/// exactly one; a queued or rejected one leaves it unchanged. Together
/// with the admission laws below, a burst against a fresh pool therefore
/// runs exactly the first `worker_count` submissions at once, and no
/// submission pattern pushes the count past the bound.
pub proof fn lemma_submit_changes_running_count(
    pre: Pool,
    post: Pool,
    request: Request,
    r: Result<Admission, PoolError>,
)
    requires
        pre.wf(),
        submit_step(pre, post, request, r),
    ensures
        r matches Ok(a) && a is Dispatched ==> running_count(post.workers_view())
            == running_count(pre.workers_view()) + 1,
        !(r matches Ok(a) && a is Dispatched) ==> running_count(post.workers_view())
            == running_count(pre.workers_view()),
{
    match r {
        Ok(Admission::Dispatched { worker, job }) => {
            lemma_running_count_update(
                pre.workers_view(),
                worker as int,
                Worker {
                    status: WorkerStatus::Busy { job: job.id },
                    generation: pre.workers_view()[worker as int].generation,
                },
            );
        },
        _ => {},
    }
}

/// Law: a completion frees a slot exactly when no job waits: while the
/// queue is nonempty the freed worker takes the head at once and the
/// running count stays, and only with an empty queue does it fall by one.
pub proof fn lemma_complete_changes_running_count(
    pre: Pool,
    post: Pool,
    worker: int,
    result: Result<Response, ScriptError>,
    next: Option<Job>,
)
    requires
        pre.wf(),
        complete_step(pre, post, worker, result, next),
    ensures
        pre.queue_view().len() > 0 ==> running_count(post.workers_view()) == running_count(
            pre.workers_view(),
        ),
        pre.queue_view().len() == 0 ==> running_count(post.workers_view()) + 1 == running_count(
            pre.workers_view(),
        ),
{
    assert(post.workers_view() =~= pre.workers_view().update(
        worker,
        post.workers_view()[worker],
    ));
    lemma_running_count_update(pre.workers_view(), worker, post.workers_view()[worker]);
}

/// Law: a submission made while capacity is free starts running at once:
/// whenever fewer jobs run than there are workers, the admission step
/// dispatches the new job to an idle worker immediately.
pub proof fn lemma_submission_below_capacity_runs_at_once(
    pre: Pool,
    post: Pool,
    request: Request,
    r: Result<Admission, PoolError>,
)
    requires
        pre.wf(),
        submit_step(pre, post, request, r),
        running_count(pre.workers_view()) < pre.workers_view().len(),
    ensures
        r matches Ok(a) && a is Dispatched,
{
    lemma_idle_exists_below_capacity(pre.workers_view());
    match r {
        Ok(Admission::Dispatched { .. }) => {},
        Ok(Admission::Queued { .. }) => {
            assert(false);
        },
        Err(_) => {
            assert(false);
        },
    }
}

/// Law: a submission made while every worker is busy does not start
/// running: it waits in the queue (or is rejected as overload), no worker
/// changes what it runs, and every job already waiting stays exactly where
/// it was. A waiting job starts only through a completion step.
pub proof fn lemma_excess_submissions_wait(
    pre: Pool,
    post: Pool,
    request: Request,
    r: Result<Admission, PoolError>,
)
    requires
        pre.wf(),
        submit_step(pre, post, request, r),
        running_count(pre.workers_view()) == pre.workers_view().len(),
    ensures
        !(r matches Ok(a) && a is Dispatched),
        post.workers_view() == pre.workers_view(),
        forall|i: int|
            0 <= i < pre.queue_view().len() ==> #[trigger] post.queue_view()[i]
                == pre.queue_view()[i],
{
    match r {
        Ok(Admission::Dispatched { worker, job }) => {
            lemma_idle_lowers_count(pre.workers_view(), worker as int);
            assert(false);
        },
        Ok(Admission::Queued { .. }) => {},
        Err(_) => {},
    }
}

/// Law: one result per job. A completed job leaves the pool for good: it
/// runs on no worker and waits in no queue afterwards, so its result is
/// delivered exactly once and the job can never be served again.
pub proof fn lemma_one_result_per_job(
    pre: Pool,
    post: Pool,
    worker: int,
    result: Result<Response, ScriptError>,
    next: Option<Job>,
)
    requires
        pre.wf(),
        complete_step(pre, post, worker, result, next),
    ensures
        !post.job_active(pre.workers_view()[worker].status->job),
{
    let id = pre.workers_view()[worker].status->job;
    assert forall|i: int| 0 <= i < post.workers_view().len() implies !(
    #[trigger] post.workers_view()[i].status == (WorkerStatus::Busy { job: id })) by {
        if i != worker {
            assert(post.workers_view()[i] == pre.workers_view()[i]);
        }
    }
    assert forall|i: int| 0 <= i < post.queue_view().len() implies #[trigger] post.queue_view()[i].id
        != id by {
        if pre.queue_view().len() > 0 {
            assert(post.queue_view()[i] == pre.queue_view()[i + 1]);
        }
    }
}

/// Law: the queue drains in submission order. When a completion frees a
/// worker while jobs wait, the job handed to that worker is the earliest
/// submitted of all the waiting jobs.
pub proof fn lemma_queue_drains_in_submission_order(
    pre: Pool,
    post: Pool,
    worker: int,
    result: Result<Response, ScriptError>,
    next: Option<Job>,
)
    requires
        pre.wf(),
        complete_step(pre, post, worker, result, next),
        pre.queue_view().len() > 0,
    ensures
        next matches Some(j) && forall|i: int|
            0 <= i < pre.queue_view().len() ==> j.id <= #[trigger] pre.queue_view()[i].id,
{
}

/// Law: a script failure on one request does not affect later requests.
/// Completion steps from the same state with different execution results
/// leave identical worker availability and identical waiting jobs: what a
/// job's run produced has no bearing on how the next jobs are served. The
/// one trace a failure leaves is the context reset: an internal engine
/// fault retires the worker's context, so the next job on that worker sees
/// a fresh one instead of state a faulty run may have corrupted.
pub proof fn lemma_failure_does_not_affect_later_requests(
    pre: Pool,
    post_a: Pool,
    post_b: Pool,
    worker: int,
    result_a: Result<Response, ScriptError>,
    result_b: Result<Response, ScriptError>,
    next_a: Option<Job>,
    next_b: Option<Job>,
)
    requires
        pre.wf(),
        complete_step(pre, post_a, worker, result_a, next_a),
        complete_step(pre, post_b, worker, result_b, next_b),
    ensures
        next_a == next_b,
        post_a.queue_view() == post_b.queue_view(),
        forall|i: int|
            0 <= i < post_a.workers_view().len() ==> #[trigger] post_a.workers_view()[i].status
                == post_b.workers_view()[i].status,
        internal_fault(result_a) ==> post_a.workers_view()[worker].generation
            == pre.workers_view()[worker].generation + 1,
        !internal_fault(result_a) ==> post_a.workers_view()[worker].generation
            == pre.workers_view()[worker].generation,
{
    assert forall|i: int| 0 <= i < post_a.workers_view().len() implies #[trigger] post_a.workers_view()[i].status
        == post_b.workers_view()[i].status by {
        if i != worker {
            assert(post_a.workers_view()[i] == pre.workers_view()[i]);
            assert(post_b.workers_view()[i] == pre.workers_view()[i]);
        }
    }
}

/// With a single worker: whatever job that worker is running was submitted
/// before every job still waiting.
pub open spec fn in_submission_order(p: Pool) -> bool {
    p.workers_view()[0].status matches WorkerStatus::Busy { job } ==> forall|i: int|
        0 <= i < p.queue_view().len() ==> job < #[trigger] p.queue_view()[i].id
}

/// A fresh pool serves in submission order: nothing runs, nothing waits.
pub proof fn lemma_fresh_pool_in_submission_order(p: Pool, worker_count: nat, queue_bound: nat)
    requires
        p.fresh(worker_count, queue_bound),
        worker_count >= 1,
    ensures
        in_submission_order(p),
{
}

/// Law: with a single worker, an admission step keeps service in
/// submission order; ids are handed out in submission order, so the worker
/// is never behind a waiting job.
pub proof fn lemma_submit_keeps_submission_order(
    pre: Pool,
    post: Pool,
    request: Request,
    r: Result<Admission, PoolError>,
)
    requires
        pre.wf(),
        pre.workers_view().len() == 1,
        in_submission_order(pre),
        submit_step(pre, post, request, r),
    ensures
        in_submission_order(post),
{
}

/// Law: with a single worker, requests are served strictly one at a time
/// and in submission order: the job a completion step starts next was
/// submitted after the job the worker just finished, and the order is kept
/// for every job still waiting.
pub proof fn lemma_single_worker_serves_in_submission_order(
    pre: Pool,
    post: Pool,
    result: Result<Response, ScriptError>,
    next: Option<Job>,
)
    requires
        pre.wf(),
        pre.workers_view().len() == 1,
        in_submission_order(pre),
        complete_step(pre, post, 0, result, next),
    ensures
        next matches Some(j) ==> j.id > pre.workers_view()[0].status->job,
        in_submission_order(post),
{
}

/// Law: for any outcome of a served request, the caller gets an answer the
/// transport can carry: the script's own response when execution
/// succeeded and that response was well formed, and a well-formed fixed
/// error or busy response in every other case. No outcome is left without
/// a response.
pub proof fn lemma_serve_always_answers(outcome: ServeOutcome, r: Response)
    requires
        bridge_decision(outcome, r),
        script_response_well_formed(outcome),
    ensures
        response_well_formed(r),
{
}

/// Law: what a script failure carried never reaches the caller. Two
/// failed executions with different thrown messages map to responses with
/// the same status and the same body: the body depends on the failure in
/// no way.
pub proof fn lemma_error_detail_not_leaked(
    message_a: String,
    message_b: String,
    r_a: Response,
    r_b: Response,
)
    requires
        bridge_decision(ServeOutcome::Executed(Err(ScriptError::Thrown(message_a))), r_a),
        bridge_decision(ServeOutcome::Executed(Err(ScriptError::Thrown(message_b))), r_b),
    ensures
        r_a.status == r_b.status,
        r_a.body@ == r_b.body@,
{
}

} // verus!

