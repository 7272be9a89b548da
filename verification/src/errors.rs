//! The error taxonomy of the pool core.

use vstd::prelude::*;

verus! {

/// A fault raised by the embedded engine while loading the script into a
/// fresh context. All workers load the same source, so one such failure
/// means the source itself is invalid.
#[derive(Clone, Copy, PartialEq, Eq, Structural, Debug)]
pub enum EngineError {
    /// The script source failed to compile.
    CompileFailure,
}

/// A per-request execution fault, produced by a worker and surfaced to the
/// caller as an error response. The worker keeps serving afterwards.
#[derive(Debug)]
pub enum ScriptError {
    /// Script execution raised; the message is logged, never sent verbatim.
    Thrown(String),
    /// An engine-level fault unrelated to script logic. The worker's
    /// context is discarded and recreated before it takes another job.
    Internal,
}

/// An admission failure: the job intake is at capacity and the submission
/// is rejected rather than queued indefinitely.
#[derive(Clone, Copy, PartialEq, Eq, Structural, Debug)]
pub enum PoolError {
    /// All workers are busy and the waiting queue is full.
    Overloaded,
}

/// A startup-fatal condition: the process refuses to serve.
#[derive(Clone, Copy, PartialEq, Eq, Structural, Debug)]
pub enum StartupError {
    /// No script source was provided in any of the accepted ways.
    MissingSource,
    /// The named worker's context failed to compile the script source.
    CompileFailure { worker: usize },
}

} // verus!
