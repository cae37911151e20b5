//! The failures that an invocation reports to its caller.

use vstd::prelude::*;

verus! {

/// Why one argument of a handler could not be derived from a payload.
#[derive(Debug, PartialEq, Eq)]
pub struct ExtractionError {
    /// The name of the argument type that was asked for.
    pub argument: String,
    /// What was wrong with the payload: a missing field, a value of the wrong
    /// shape, a number out of range.
    pub detail: String,
}

/// Why an invocation did not run the handler body.
#[derive(Debug, PartialEq, Eq)]
pub enum DispatchError {
    /// No handler is registered under the name that was invoked.
    UnknownHandler(String),
    /// An argument of the handler could not be derived from the payload.  The
    /// handler body has not run, not even in part.
    MalformedPayload(ExtractionError),
    /// A deferred handler was invoked where no task system is running, so its
    /// body could not be scheduled and has not been started.
    TaskSystemUnavailable,
}

} // verus!
