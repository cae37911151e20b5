//! Immediate handlers: closures whose body runs in the caller's context.
//!
//! An invocation derives the argument list from the payload, and where that
//! succeeds calls the closure with the elements in declaration order.  It
//! returns when the body has returned.

use vstd::prelude::*;
use crate::argument_list::ArgumentList;
use crate::error::{DispatchError, ExtractionError};
use crate::message_handler::{immediate_outcome, private, MessageHandler};
use crate::message_value::MessageValueTrait;

verus! {

/// Runs `body` on a derived argument list, or reports why there is none.
///
/// `derived` is what deriving the argument list gave.  Where it is a list,
/// `body` is called on it, and the answer is `Ok` when `body` has returned.
/// Where it is an error, the answer is `MalformedPayload` with that error.
///
/// All that is asked of `body` is that it accepts the derived list.  So `body`
/// can be called on that list only, and not at all where there is none; and a
/// `FnOnce` cannot be called twice.
pub fn run<Args, Body>(derived: Result<Args, ExtractionError>, body: Body) -> (res: Result<
    (),
    DispatchError,
>) where Body: FnOnce(Args)
    requires
        derived matches Ok(args) ==> call_requires(body, (args,)),
    ensures
        match derived {
            Ok(args) => res is Ok && call_ensures(body, (args,), ()),
            Err(e) => res == Err::<(), DispatchError>(DispatchError::MalformedPayload(e)),
        },
{
    match derived {
        Ok(args) => {
            body(args);
            Ok(())
        },
        Err(e) => Err(DispatchError::MalformedPayload(e)),
    }
}

/// An immediate handler of no arguments.
impl<F> MessageHandler<private::Sync, ()> for F where
    F: Fn() + Send + Sync + 'static,
{
    open spec fn runnable(&self) -> bool {
        forall|value: serde_json::Value, args: ()|
            <() as ArgumentList>::derives(value, Ok(args)) ==> call_requires(*self, args)
    }

    open spec fn admits(&self, value: serde_json::Value, res: Result<(), DispatchError>) -> bool {
        immediate_outcome::<()>(
            value,
            |args: ()| call_ensures(*self, args, ()),
            res,
        )
    }

    fn call(&self, value: serde_json::Value) -> (res: Result<(), DispatchError>) {
        let body = |args: ()| -> (done: ())
            requires
                call_requires(*self, args),
            ensures
                call_ensures(*self, args, done),
            { self() };
        run(<() as ArgumentList>::derive(&value), body)
    }
}

/// An immediate handler of one argument.
impl<F, A> MessageHandler<private::Sync, (A,)> for F where
    F: Fn(A) + Send + Sync + 'static,
    A: MessageValueTrait + Send,
{
    open spec fn runnable(&self) -> bool {
        forall|value: serde_json::Value, args: (A,)|
            <(A,) as ArgumentList>::derives(value, Ok(args)) ==> call_requires(*self, args)
    }

    open spec fn admits(&self, value: serde_json::Value, res: Result<(), DispatchError>) -> bool {
        immediate_outcome::<(A,)>(
            value,
            |args: (A,)| call_ensures(*self, args, ()),
            res,
        )
    }

    fn call(&self, value: serde_json::Value) -> (res: Result<(), DispatchError>) {
        let body = |args: (A,)| -> (done: ())
            requires
                call_requires(*self, args),
            ensures
                call_ensures(*self, args, done),
            { self(args.0) };
        run(<(A,) as ArgumentList>::derive(&value), body)
    }
}

/// An immediate handler of two arguments.
impl<F, A, B> MessageHandler<private::Sync, (A, B)> for F where
    F: Fn(A, B) + Send + Sync + 'static,
    A: MessageValueTrait + Send,
    B: MessageValueTrait + Send,
{
    open spec fn runnable(&self) -> bool {
        forall|value: serde_json::Value, args: (A, B)|
            <(A, B) as ArgumentList>::derives(value, Ok(args)) ==> call_requires(*self, args)
    }

    open spec fn admits(&self, value: serde_json::Value, res: Result<(), DispatchError>) -> bool {
        immediate_outcome::<(A, B)>(
            value,
            |args: (A, B)| call_ensures(*self, args, ()),
            res,
        )
    }

    fn call(&self, value: serde_json::Value) -> (res: Result<(), DispatchError>) {
        let body = |args: (A, B)| -> (done: ())
            requires
                call_requires(*self, args),
            ensures
                call_ensures(*self, args, done),
            { self(args.0, args.1) };
        run(<(A, B) as ArgumentList>::derive(&value), body)
    }
}

/// An immediate handler of three arguments.
impl<F, A, B, C> MessageHandler<private::Sync, (A, B, C)> for F where
    F: Fn(A, B, C) + Send + Sync + 'static,
    A: MessageValueTrait + Send,
    B: MessageValueTrait + Send,
    C: MessageValueTrait + Send,
{
    open spec fn runnable(&self) -> bool {
        forall|value: serde_json::Value, args: (A, B, C)|
            <(A, B, C) as ArgumentList>::derives(value, Ok(args)) ==> call_requires(*self, args)
    }

    open spec fn admits(&self, value: serde_json::Value, res: Result<(), DispatchError>) -> bool {
        immediate_outcome::<(A, B, C)>(
            value,
            |args: (A, B, C)| call_ensures(*self, args, ()),
            res,
        )
    }

    fn call(&self, value: serde_json::Value) -> (res: Result<(), DispatchError>) {
        let body = |args: (A, B, C)| -> (done: ())
            requires
                call_requires(*self, args),
            ensures
                call_ensures(*self, args, done),
            { self(args.0, args.1, args.2) };
        run(<(A, B, C) as ArgumentList>::derive(&value), body)
    }
}

/// An immediate handler of four arguments.
impl<F, A, B, C, D> MessageHandler<private::Sync, (A, B, C, D)> for F where
    F: Fn(A, B, C, D) + Send + Sync + 'static,
    A: MessageValueTrait + Send,
    B: MessageValueTrait + Send,
    C: MessageValueTrait + Send,
    D: MessageValueTrait + Send,
{
    open spec fn runnable(&self) -> bool {
        forall|value: serde_json::Value, args: (A, B, C, D)|
            <(A, B, C, D) as ArgumentList>::derives(value, Ok(args)) ==> call_requires(*self, args)
    }

    open spec fn admits(&self, value: serde_json::Value, res: Result<(), DispatchError>) -> bool {
        immediate_outcome::<(A, B, C, D)>(
            value,
            |args: (A, B, C, D)| call_ensures(*self, args, ()),
            res,
        )
    }

    fn call(&self, value: serde_json::Value) -> (res: Result<(), DispatchError>) {
        let body = |args: (A, B, C, D)| -> (done: ())
            requires
                call_requires(*self, args),
            ensures
                call_ensures(*self, args, done),
            { self(args.0, args.1, args.2, args.3) };
        run(<(A, B, C, D) as ArgumentList>::derive(&value), body)
    }
}

} // verus!
