//! The two modes of invocation, as types.  A registry and every handler in it
//! carry one of them as a type parameter, so that handlers of the two modes
//! cannot be mixed.

use vstd::prelude::*;

verus! {

/// The immediate mode: the handler body runs in the caller's context, and the
/// invocation returns when the body has finished.
#[derive(Debug, Clone, Copy)]
pub enum Sync {
    Immediate,
}

/// The deferred mode: the handler body makes a task, which is handed to the
/// task system.  The invocation returns when the task has been handed over.
#[derive(Debug, Clone, Copy)]
pub enum Async {
    Deferred,
}

} // verus!
