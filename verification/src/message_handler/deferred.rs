//! Deferred handlers: closures that make a task for the task system.
//!
//! An invocation derives the argument list from the payload and asks for the
//! running task system.  Where both are there, it calls the closure with the
//! elements in declaration order and hands the task that the closure returns to
//! the task system.  It does not wait for the task, and nothing of the task's
//! fate comes back to the caller.

use vstd::prelude::*;
use core::future::Future;
use tokio::runtime::{Handle, TryCurrentError};
use crate::argument_list::ArgumentList;
use crate::error::{DispatchError, ExtractionError};
use crate::message_handler::{deferred_outcome, private, MessageHandler};
use crate::message_value::MessageValueTrait;

verus! {

/// Starts a task on a derived argument list, or reports why it cannot.
///
/// `derived` is what deriving the argument list gave, and `current` what
/// `Handle::try_current` answered.
///
/// - Where `derived` is an error, the answer is `MalformedPayload` with that
///   error, whatever `current` is.
/// - Where `derived` is a list and `current` holds no runtime, the answer is
///   `TaskSystemUnavailable`.
/// - Where `derived` is a list and `current` holds a runtime, `make` is called
///   on the list, the task it returns is spawned on that runtime and left to
///   itself, and the answer is `Ok`.
///
/// All that is asked of `make` is that it accepts the derived list where there
/// is a runtime.  So `make` can be called in the third case only, and on that
/// list only; and a `FnOnce` cannot be called twice.
pub fn start<Args, Fut, Make>(
    derived: Result<Args, ExtractionError>,
    current: Result<Handle, TryCurrentError>,
    make: Make,
) -> (res: Result<(), DispatchError>) where
    Make: FnOnce(Args) -> Fut,
    Fut: Future<Output = ()> + Send + 'static,

    requires
        current is Ok ==> (derived matches Ok(args) ==> call_requires(make, (args,))),
    ensures
        match derived {
            Err(e) => res == Err::<(), DispatchError>(DispatchError::MalformedPayload(e)),
            Ok(args) => match current {
                Err(_) => res == Err::<(), DispatchError>(DispatchError::TaskSystemUnavailable),
                Ok(_) => res is Ok && exists|task: Fut| call_ensures(make, (args,), task),
            },
        },
{
    match derived {
        Err(e) => Err(DispatchError::MalformedPayload(e)),
        Ok(args) => match current {
            Err(_) => Err(DispatchError::TaskSystemUnavailable),
            Ok(system) => {
                let task = make(args);
                let _ = system.spawn(task);
                Ok(())
            },
        },
    }
}

/// A deferred handler of no arguments.
impl<F, Fut> MessageHandler<private::Async, ()> for F where
    F: Fn() -> Fut + Send + Sync + 'static,
    Fut: Future<Output = ()> + Send + 'static,
{
    open spec fn runnable(&self) -> bool {
        forall|value: serde_json::Value, args: ()|
            <() as ArgumentList>::derives(value, Ok(args)) ==> call_requires(*self, args)
    }

    open spec fn admits(&self, value: serde_json::Value, res: Result<(), DispatchError>) -> bool {
        deferred_outcome::<()>(
            value,
            |args: ()| exists|task: Fut| call_ensures(*self, args, task),
            res,
        )
    }

    fn call(&self, value: serde_json::Value) -> (res: Result<(), DispatchError>) {
        let make = |args: ()| -> (task: Fut)
            requires
                call_requires(*self, args),
            ensures
                call_ensures(*self, args, task),
            { self() };
        start(<() as ArgumentList>::derive(&value), Handle::try_current(), make)
    }
}

/// A deferred handler of one argument.
impl<F, Fut, A> MessageHandler<private::Async, (A,)> for F where
    F: Fn(A) -> Fut + Send + Sync + 'static,
    Fut: Future<Output = ()> + Send + 'static,
    A: MessageValueTrait + Send,
{
    open spec fn runnable(&self) -> bool {
        forall|value: serde_json::Value, args: (A,)|
            <(A,) as ArgumentList>::derives(value, Ok(args)) ==> call_requires(*self, args)
    }

    open spec fn admits(&self, value: serde_json::Value, res: Result<(), DispatchError>) -> bool {
        deferred_outcome::<(A,)>(
            value,
            |args: (A,)| exists|task: Fut| call_ensures(*self, args, task),
            res,
        )
    }

    fn call(&self, value: serde_json::Value) -> (res: Result<(), DispatchError>) {
        let make = |args: (A,)| -> (task: Fut)
            requires
                call_requires(*self, args),
            ensures
                call_ensures(*self, args, task),
            { self(args.0) };
        start(<(A,) as ArgumentList>::derive(&value), Handle::try_current(), make)
    }
}

/// A deferred handler of two arguments.
impl<F, Fut, A, B> MessageHandler<private::Async, (A, B)> for F where
    F: Fn(A, B) -> Fut + Send + Sync + 'static,
    Fut: Future<Output = ()> + Send + 'static,
    A: MessageValueTrait + Send,
    B: MessageValueTrait + Send,
{
    open spec fn runnable(&self) -> bool {
        forall|value: serde_json::Value, args: (A, B)|
            <(A, B) as ArgumentList>::derives(value, Ok(args)) ==> call_requires(*self, args)
    }

    open spec fn admits(&self, value: serde_json::Value, res: Result<(), DispatchError>) -> bool {
        deferred_outcome::<(A, B)>(
            value,
            |args: (A, B)| exists|task: Fut| call_ensures(*self, args, task),
            res,
        )
    }

    fn call(&self, value: serde_json::Value) -> (res: Result<(), DispatchError>) {
        let make = |args: (A, B)| -> (task: Fut)
            requires
                call_requires(*self, args),
            ensures
                call_ensures(*self, args, task),
            { self(args.0, args.1) };
        start(<(A, B) as ArgumentList>::derive(&value), Handle::try_current(), make)
    }
}

/// A deferred handler of three arguments.
impl<F, Fut, A, B, C> MessageHandler<private::Async, (A, B, C)> for F where
    F: Fn(A, B, C) -> Fut + Send + Sync + 'static,
    Fut: Future<Output = ()> + Send + 'static,
    A: MessageValueTrait + Send,
    B: MessageValueTrait + Send,
    C: MessageValueTrait + Send,
{
    open spec fn runnable(&self) -> bool {
        forall|value: serde_json::Value, args: (A, B, C)|
            <(A, B, C) as ArgumentList>::derives(value, Ok(args)) ==> call_requires(*self, args)
    }

    open spec fn admits(&self, value: serde_json::Value, res: Result<(), DispatchError>) -> bool {
        deferred_outcome::<(A, B, C)>(
            value,
            |args: (A, B, C)| exists|task: Fut| call_ensures(*self, args, task),
            res,
        )
    }

    fn call(&self, value: serde_json::Value) -> (res: Result<(), DispatchError>) {
        let make = |args: (A, B, C)| -> (task: Fut)
            requires
                call_requires(*self, args),
            ensures
                call_ensures(*self, args, task),
            { self(args.0, args.1, args.2) };
        start(<(A, B, C) as ArgumentList>::derive(&value), Handle::try_current(), make)
    }
}

/// A deferred handler of four arguments.
impl<F, Fut, A, B, C, D> MessageHandler<private::Async, (A, B, C, D)> for F where
    F: Fn(A, B, C, D) -> Fut + Send + Sync + 'static,
    Fut: Future<Output = ()> + Send + 'static,
    A: MessageValueTrait + Send,
    B: MessageValueTrait + Send,
    C: MessageValueTrait + Send,
    D: MessageValueTrait + Send,
{
    open spec fn runnable(&self) -> bool {
        forall|value: serde_json::Value, args: (A, B, C, D)|
            <(A, B, C, D) as ArgumentList>::derives(value, Ok(args)) ==> call_requires(*self, args)
    }

    open spec fn admits(&self, value: serde_json::Value, res: Result<(), DispatchError>) -> bool {
        deferred_outcome::<(A, B, C, D)>(
            value,
            |args: (A, B, C, D)| exists|task: Fut| call_ensures(*self, args, task),
            res,
        )
    }

    fn call(&self, value: serde_json::Value) -> (res: Result<(), DispatchError>) {
        let make = |args: (A, B, C, D)| -> (task: Fut)
            requires
                call_requires(*self, args),
            ensures
                call_ensures(*self, args, task),
            { self(args.0, args.1, args.2, args.3) };
        start(<(A, B, C, D) as ArgumentList>::derive(&value), Handle::try_current(), make)
    }
}

} // verus!
