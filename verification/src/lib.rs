//! A bounded pool of dedicated script-execution workers.
//!
//! A network-facing server runs one fixed, preloaded script for every inbound
//! request. The script engine's execution contexts cannot be shared across
//! threads or called concurrently, so each worker owns exactly one context
//! for its lifetime and executes jobs strictly one at a time. This crate
//! holds the decision core of that design: admission and dispatch of jobs to
//! workers, the drain of the waiting queue when a worker frees, the context
//! reset policy after engine faults, and the conversion of execution
//! outcomes into transport-level responses. The surrounding process performs
//! the outside work (reading the script source, running the engine, moving
//! results across the asynchronous boundary) and feeds each outcome back in
//! as a plain value.

pub mod bridge;
pub mod errors;
pub mod laws;
pub mod message;
pub mod pool;
pub mod source;
