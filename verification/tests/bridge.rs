use script_pool::bridge::ServeOutcome;
use script_pool::bridge::response_for;
use script_pool::bridge::STATUS_INTERNAL_ERROR;
use script_pool::bridge::STATUS_UNAVAILABLE;
use script_pool::errors::ScriptError;
use script_pool::message::Response;

#[test]
fn successful_execution_passes_the_response_through() {
    let resp = Response {
        status: 201,
        headers: vec![("content-type".to_owned(), "text/plain".to_owned())],
        body: "made".to_owned(),
    };
    let r = response_for(ServeOutcome::Executed(Ok(resp)));
    assert_eq!(r.status, 201);
    assert_eq!(r.headers.len(), 1);
    assert_eq!(r.headers[0].0, "content-type");
    assert_eq!(r.body, "made");
}

#[test]
fn script_throw_becomes_a_generic_error_response() {
    let thrown = ScriptError::Thrown("secret detail".to_owned());
    let r = response_for(ServeOutcome::Executed(Err(thrown)));
    assert_eq!(r.status, STATUS_INTERNAL_ERROR);
    assert_eq!(r.body, "internal error");
    // The thrown message never reaches the caller.
    assert!(!r.body.contains("secret"));
    assert!(r.headers.is_empty());
}

#[test]
fn engine_fault_becomes_a_generic_error_response() {
    let r = response_for(ServeOutcome::Executed(Err(ScriptError::Internal)));
    assert_eq!(r.status, STATUS_INTERNAL_ERROR);
    assert_eq!(r.body, "internal error");
}

#[test]
fn overload_becomes_a_busy_response() {
    let r = response_for(ServeOutcome::Overloaded);
    assert_eq!(r.status, STATUS_UNAVAILABLE);
    assert_eq!(r.body, "service busy");
    assert!(r.headers.is_empty());
}

#[test]
fn every_outcome_gets_a_transportable_answer() {
    let outcomes = vec![
        ServeOutcome::Overloaded,
        ServeOutcome::Executed(Ok(Response {
            status: 200,
            headers: Vec::new(),
            body: "ok".to_owned(),
        })),
        ServeOutcome::Executed(Err(ScriptError::Thrown("x".to_owned()))),
        ServeOutcome::Executed(Err(ScriptError::Internal)),
    ];
    for outcome in outcomes {
        let r = response_for(outcome);
        assert!((100..=599).contains(&r.status));
    }
}
