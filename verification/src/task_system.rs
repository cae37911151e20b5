//! The task system behind deferred handlers: the Tokio runtime that the caller
//! is running in.  The declarations by which verified code reaches Tokio are
//! believed, not proved.

use vstd::prelude::*;
use core::future::Future;

verus! {

/// `tokio::runtime::Handle`, a handle on a running Tokio runtime.
#[verifier::external_type_specification]
#[verifier::external_body]
pub struct ExHandle(tokio::runtime::Handle);

/// `tokio::runtime::TryCurrentError`: there is no runtime to hand out.
#[verifier::external_type_specification]
#[verifier::external_body]
pub struct ExTryCurrentError(tokio::runtime::TryCurrentError);

/// `tokio::task::JoinHandle`, the owner's end of a spawned task.  Dropping it
/// detaches the task.
#[verifier::external_type_specification]
#[verifier::external_body]
#[verifier::reject_recursive_types(T)]
pub struct ExJoinHandle<T>(tokio::task::JoinHandle<T>);

/// `tokio::task::JoinError`, what awaiting a `JoinHandle` gives for a task that
/// was cancelled or panicked.  The library awaits no task; the type is declared
/// because `JoinHandle` mentions it.
#[verifier::external_type_specification]
#[verifier::external_body]
pub struct ExJoinError(tokio::task::JoinError);

/// `Handle::try_current` hands out the runtime that the calling thread has
/// entered, or an error where it has entered none.  It never panics.  Which of
/// the two comes back depends on where the call is made, so nothing is stated
/// of the result.
pub assume_specification[ tokio::runtime::Handle::try_current ]() -> (current: Result<
    tokio::runtime::Handle,
    tokio::runtime::TryCurrentError,
>)
;

/// `Handle::spawn` hands `future` to the runtime and returns at once, without
/// waiting for the future.  The runtime polls the future on its own threads for
/// as long as it runs; a runtime that has shut down drops the future unpolled.
/// The call does not panic.  Nothing is stated of the handle that comes back.
pub assume_specification<F>[ tokio::runtime::Handle::spawn::<F> ](
    system: &tokio::runtime::Handle,
    future: F,
) -> (task: tokio::task::JoinHandle<F::Output>) where
    F: Future + Send + 'static,
    F::Output: Send + 'static,
;

} // verus!
