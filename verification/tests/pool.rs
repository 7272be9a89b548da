use script_pool::errors::EngineError;
use script_pool::errors::PoolError;
use script_pool::errors::ScriptError;
use script_pool::errors::StartupError;
use script_pool::message::Request;
use script_pool::message::Response;
use script_pool::pool::Admission;
use script_pool::pool::Pool;
use script_pool::pool::WorkerStatus;

fn request(body: &str) -> Request {
    Request { body: body.to_owned() }
}

fn ok_response(body: &str) -> Result<Response, ScriptError> {
    Ok(Response { status: 200, headers: Vec::new(), body: body.to_owned() })
}

fn fresh_pool(worker_count: usize, queue_bound: usize) -> Pool {
    let inits: Vec<Result<(), EngineError>> = vec![Ok(()); worker_count];
    Pool::new(worker_count, queue_bound, inits).expect("valid source must start")
}

#[test]
fn startup_with_invalid_source_fails() {
    let inits: Vec<Result<(), EngineError>> =
        vec![Ok(()), Err(EngineError::CompileFailure), Ok(())];
    match Pool::new(3, 4, inits) {
        Err(StartupError::CompileFailure { worker }) => assert_eq!(worker, 1),
        _ => panic!("construction must fail when any worker fails to compile"),
    }
}

#[test]
fn startup_with_valid_source_succeeds() {
    let pool = fresh_pool(2, 4);
    assert_eq!(pool.worker_count(), 2);
    assert_eq!(pool.queued_count(), 0);
    assert_eq!(pool.queue_capacity(), 4);
    for i in 0..2 {
        let w = pool.worker(i);
        assert!(matches!(w.status, WorkerStatus::Idle));
        assert_eq!(w.generation, 0);
    }
}

#[test]
fn submission_dispatches_to_an_idle_worker() {
    let mut pool = fresh_pool(2, 4);
    match pool.submit(request("abc")) {
        Ok(Admission::Dispatched { worker, job }) => {
            assert!(worker < 2);
            assert_eq!(job.id, 0);
            assert_eq!(job.request.body, "abc");
            assert!(matches!(pool.worker(worker).status, WorkerStatus::Busy { job: 0 }));
        }
        _ => panic!("an idle worker must take the job at once"),
    }
}

#[test]
fn burst_beyond_worker_count_queues_the_rest() {
    let mut pool = fresh_pool(2, 4);
    let mut dispatched = Vec::new();
    for body in ["a", "b"] {
        match pool.submit(request(body)) {
            Ok(Admission::Dispatched { worker, job }) => dispatched.push((worker, job)),
            _ => panic!("the first two jobs must start at once"),
        }
    }
    match pool.submit(request("c")) {
        Ok(Admission::Queued { job_id }) => assert_eq!(job_id, 2),
        _ => panic!("the third job must wait"),
    }
    assert_eq!(pool.queued_count(), 1);

    // A queued job starts only when a completion frees a slot, and the
    // freed worker takes it.
    let (w0, job0) = (dispatched[0].0, dispatched[0].1.id);
    let next = pool.complete(w0, &ok_response("done"));
    let next = next.expect("the waiting job must be handed to the freed worker");
    assert_eq!(next.id, 2);
    assert_eq!(next.request.body, "c");
    assert_eq!(pool.queued_count(), 0);
    assert!(matches!(pool.worker(w0).status, WorkerStatus::Busy { job: 2 }));
    assert_ne!(next.id, job0);
}

#[test]
fn one_result_per_job() {
    let mut pool = fresh_pool(2, 4);
    let mut running = Vec::new();
    for body in ["a", "b"] {
        match pool.submit(request(body)) {
            Ok(Admission::Dispatched { worker, job }) => running.push((worker, job.id)),
            _ => panic!("the first two jobs must start at once"),
        }
    }
    match pool.submit(request("c")) {
        Ok(Admission::Queued { job_id }) => assert_eq!(job_id, 2),
        _ => panic!("the third job must wait"),
    }
    // Drain everything; each job id is delivered exactly once.
    let mut delivered = Vec::new();
    while let Some((worker, id)) = running.pop() {
        delivered.push(id);
        if let Some(next) = pool.complete(worker, &ok_response("done")) {
            running.push((worker, next.id));
        }
    }
    delivered.sort();
    assert_eq!(delivered, vec![0, 1, 2]);
}

#[test]
fn overload_when_all_busy_and_queue_full() {
    let mut pool = fresh_pool(1, 0);
    assert!(matches!(pool.submit(request("a")), Ok(Admission::Dispatched { .. })));
    // Queue bound zero, the only worker busy: rejected at once.
    match pool.submit(request("b")) {
        Err(PoolError::Overloaded) => {}
        _ => panic!("a full pool must reject the submission immediately"),
    }
    assert_eq!(pool.queued_count(), 0);
}

#[test]
fn thrown_error_does_not_affect_the_next_request() {
    let mut pool = fresh_pool(1, 2);
    let worker = match pool.submit(request("bad")) {
        Ok(Admission::Dispatched { worker, .. }) => worker,
        _ => panic!("the job must start at once"),
    };
    let thrown: Result<Response, ScriptError> =
        Err(ScriptError::Thrown("boom".to_owned()));
    assert!(pool.complete(worker, &thrown).is_none());
    // The worker kept its context (a throw is the script's own doing) and
    // serves the next request normally.
    assert_eq!(pool.worker(worker).generation, 0);
    match pool.submit(request("good")) {
        Ok(Admission::Dispatched { worker: w2, job }) => {
            assert_eq!(w2, worker);
            assert_eq!(job.request.body, "good");
        }
        _ => panic!("the worker must keep serving after a script throw"),
    }
    assert!(pool.complete(worker, &ok_response("fine")).is_none());
    assert!(matches!(pool.worker(worker).status, WorkerStatus::Idle));
}

#[test]
fn internal_fault_retires_the_context() {
    let mut pool = fresh_pool(1, 2);
    let worker = match pool.submit(request("a")) {
        Ok(Admission::Dispatched { worker, .. }) => worker,
        _ => panic!("the job must start at once"),
    };
    let fault: Result<Response, ScriptError> = Err(ScriptError::Internal);
    assert!(pool.complete(worker, &fault).is_none());
    // A fresh context: the generation rises exactly on an internal fault.
    assert_eq!(pool.worker(worker).generation, 1);
    assert!(matches!(pool.worker(worker).status, WorkerStatus::Idle));
}

#[test]
fn single_worker_serves_in_submission_order() {
    let mut pool = fresh_pool(1, 4);
    match pool.submit(request("first")) {
        Ok(Admission::Dispatched { worker, job }) => {
            assert_eq!(worker, 0);
            assert_eq!(job.id, 0);
        }
        _ => panic!("the first job must start at once"),
    }
    assert!(matches!(pool.submit(request("second")), Ok(Admission::Queued { job_id: 1 })));
    assert!(matches!(pool.submit(request("third")), Ok(Admission::Queued { job_id: 2 })));

    let next = pool.complete(0, &ok_response("done")).expect("a job waits");
    assert_eq!(next.request.body, "second");
    let next = pool.complete(0, &ok_response("done")).expect("a job waits");
    assert_eq!(next.request.body, "third");
    assert!(pool.complete(0, &ok_response("done")).is_none());
}

#[test]
fn two_workers_echo_uppercased_concurrently() {
    // Two concurrent requests on two workers; the script uppercases the
    // body. Whichever worker serves which request, each caller gets the
    // uppercased form of its own body.
    let mut pool = fresh_pool(2, 0);
    let mut assignments = Vec::new();
    for body in ["abc", "xyz"] {
        match pool.submit(request(body)) {
            Ok(Admission::Dispatched { worker, job }) => assignments.push((worker, job)),
            _ => panic!("both jobs must start at once"),
        }
    }
    // Complete in the opposite order to the submissions.
    let mut delivered = Vec::new();
    for (worker, job) in assignments.into_iter().rev() {
        let upper = job.request.body.to_uppercase();
        let result = ok_response(&upper);
        delivered.push((job.id, upper.clone()));
        pool.complete(worker, &result);
    }
    delivered.sort();
    assert_eq!(delivered, vec![(0, "ABC".to_owned()), (1, "XYZ".to_owned())]);
}
