//! Converting what happened to a request into the response the transport
//! sends back.
//!
//! The bridge sits between the network layer and the pool: it submits each
//! request as a job, awaits the job's one-shot completion handle, and turns
//! the outcome into a transport-level response. The waiting itself is
//! outside work; this module holds the conversion, which never fails: an
//! overloaded pool becomes a "busy" response, a script fault becomes a
//! generic error response whose body carries no detail of the failure.

use vstd::prelude::*;

use crate::errors::ScriptError;
use crate::message::Response;
use crate::message::response_well_formed;

verus! {

/// The status sent when a script execution failed.
pub const STATUS_INTERNAL_ERROR: u16 = 500;

/// The status sent when the pool rejected the submission as overload.
pub const STATUS_UNAVAILABLE: u16 = 503;

/// What happened to one served request, seen from the bridge.
pub enum ServeOutcome {
    /// The pool rejected the submission: all workers busy, queue full.
    Overloaded,
    /// A worker ran the job and produced this execution result.
    Executed(Result<Response, ScriptError>),
}

/// The body of the error response for a failed execution. Fixed: no error
/// detail reaches the caller; the detail is for the log.
pub open spec fn error_body() -> Seq<char> {
    "internal error"@
}

/// The body of the response for a rejected submission.
pub open spec fn overload_body() -> Seq<char> {
    "service busy"@
}

/// How a serve outcome maps to the response sent back: the script's own
/// response on success, a fixed error response on a script fault, a fixed
/// busy response on overload.
pub open spec fn bridge_decision(outcome: ServeOutcome, r: Response) -> bool {
    match outcome {
        ServeOutcome::Executed(Ok(resp)) => r == resp,
        ServeOutcome::Executed(Err(_)) => {
            &&& r.status == STATUS_INTERNAL_ERROR
            &&& r.headers@.len() == 0
            &&& r.body@ == error_body()
        },
        ServeOutcome::Overloaded => {
            &&& r.status == STATUS_UNAVAILABLE
            &&& r.headers@.len() == 0
            &&& r.body@ == overload_body()
        },
    }
}

/// Whatever response the script itself produced was well formed. Error and
/// overload outcomes put no condition on anything.
pub open spec fn script_response_well_formed(outcome: ServeOutcome) -> bool {
    match outcome {
        ServeOutcome::Executed(Ok(resp)) => response_well_formed(resp),
        _ => true,
    }
}

/// Turns the outcome of one served request into the response for the
/// caller. Total: every outcome, failure included, gets an answer.
pub fn response_for(outcome: ServeOutcome) -> (r: Response)
    ensures
        bridge_decision(outcome, r),
{
    match outcome {
        ServeOutcome::Executed(Ok(resp)) => resp,
        ServeOutcome::Executed(Err(_)) => Response {
            status: STATUS_INTERNAL_ERROR,
            headers: Vec::new(),
            body: "internal error".to_owned(),
        },
        ServeOutcome::Overloaded => Response {
            status: STATUS_UNAVAILABLE,
            headers: Vec::new(),
            body: "service busy".to_owned(),
        },
    }
}

} // verus!
