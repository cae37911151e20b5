//! The invocation abstraction: one `call` with a payload, whatever the arity and
//! the mode of the handler behind it.
//!
//! A handler is a closure of zero to four arguments that can be called through a
//! shared reference, so that one registration serves any number of invocations.
//! The implementations for immediate closures are in [`immediate`], those for
//! deferred closures in [`deferred`].

use vstd::prelude::*;
use core::marker::PhantomData;
use crate::argument_list::ArgumentList;
use crate::error::{DispatchError, ExtractionError};

pub mod deferred;
pub mod immediate;
pub mod private;

verus! {

/// What an immediate invocation with `value` may answer, for a handler whose
/// argument list is `Args`, where `ran(args)` says that the handler body has
/// run to its end on `args`.
///
/// - `Ok`: a whole argument list was derived from `value`, and the body has run
///   on it.
/// - `MalformedPayload(e)`: deriving the list from `value` failed with `e`.
/// - Nothing else.
pub open spec fn immediate_outcome<Args: ArgumentList>(
    value: serde_json::Value,
    ran: spec_fn(Args) -> bool,
    res: Result<(), DispatchError>,
) -> bool {
    match res {
        Ok(_) => exists|args: Args| #[trigger] Args::derives(value, Ok(args)) && ran(args),
        Err(DispatchError::MalformedPayload(e)) => Args::derives(value, Err(e)),
        Err(_) => false,
    }
}

/// What a deferred invocation with `value` may answer, for a handler whose
/// argument list is `Args`, where `started(args)` says that the handler was
/// called on `args` and the task it made was handed to the task system.
///
/// - `Ok`: a whole argument list was derived from `value`, and the handler was
///   started on it.
/// - `MalformedPayload(e)`: deriving the list from `value` failed with `e`.
/// - `TaskSystemUnavailable`: a whole list was derived, but no task system
///   is running where the invocation was made.
/// - Nothing else.
pub open spec fn deferred_outcome<Args: ArgumentList>(
    value: serde_json::Value,
    started: spec_fn(Args) -> bool,
    res: Result<(), DispatchError>,
) -> bool {
    match res {
        Ok(_) => exists|args: Args| #[trigger] Args::derives(value, Ok(args)) && started(args),
        Err(DispatchError::MalformedPayload(e)) => Args::derives(value, Err(e)),
        Err(DispatchError::TaskSystemUnavailable) => exists|args: Args| #[trigger]
            Args::derives(value, Ok(args)),
        Err(_) => false,
    }
}

/// Where deriving the argument list from `value` cannot fail, an immediate
/// invocation succeeds, and when it returns the handler body has run on a list
/// derived from `value`.
pub proof fn lemma_valid_payload_runs<Args: ArgumentList>(
    value: serde_json::Value,
    ran: spec_fn(Args) -> bool,
    res: Result<(), DispatchError>,
)
    requires
        immediate_outcome::<Args>(value, ran, res),
        forall|e: ExtractionError| !Args::derives(value, Err(e)),
    ensures
        res is Ok,
        exists|args: Args| #[trigger] Args::derives(value, Ok(args)) && ran(args),
{
}

/// Where deriving the argument list from `value` cannot fail, a deferred
/// invocation fails only for want of a task system, and where it succeeds the
/// handler was started on a list derived from `value`.
pub proof fn lemma_valid_payload_is_scheduled<Args: ArgumentList>(
    value: serde_json::Value,
    started: spec_fn(Args) -> bool,
    res: Result<(), DispatchError>,
)
    requires
        deferred_outcome::<Args>(value, started, res),
        forall|e: ExtractionError| !Args::derives(value, Err(e)),
    ensures
        res is Ok || res == Err::<(), DispatchError>(DispatchError::TaskSystemUnavailable),
        res is Ok ==> exists|args: Args| #[trigger] Args::derives(value, Ok(args)) && started(args),
{
}

/// Where no argument list can be derived from `value`, an invocation in either
/// mode answers `MalformedPayload` with an error that deriving the list gave.
/// It does not succeed, so the handler body has not run on anything.
pub proof fn lemma_malformed_payload_is_rejected<Args: ArgumentList>(
    value: serde_json::Value,
    ran: spec_fn(Args) -> bool,
    res: Result<(), DispatchError>,
)
    requires
        immediate_outcome::<Args>(value, ran, res) || deferred_outcome::<Args>(value, ran, res),
        forall|args: Args| !Args::derives(value, Ok(args)),
    ensures
        res matches Err(DispatchError::MalformedPayload(e)) && Args::derives(value, Err(e)),
{
}

/// Two successful invocations of one handler run its body on two argument
/// lists, each derived from the payload of its own invocation.
pub proof fn lemma_invocations_are_independent<Args: ArgumentList>(
    first: serde_json::Value,
    second: serde_json::Value,
    ran: spec_fn(Args) -> bool,
    first_res: Result<(), DispatchError>,
    second_res: Result<(), DispatchError>,
)
    requires
        immediate_outcome::<Args>(first, ran, first_res) || deferred_outcome::<Args>(
            first,
            ran,
            first_res,
        ),
        immediate_outcome::<Args>(second, ran, second_res) || deferred_outcome::<Args>(
            second,
            ran,
            second_res,
        ),
        first_res is Ok,
        second_res is Ok,
    ensures
        exists|first_args: Args, second_args: Args|
            {
                &&& #[trigger] Args::derives(first, Ok(first_args))
                &&& ran(first_args)
                &&& #[trigger] Args::derives(second, Ok(second_args))
                &&& ran(second_args)
            },
{
    let first_args = choose|args: Args| #[trigger] Args::derives(first, Ok(args)) && ran(args);
    let second_args = choose|args: Args| #[trigger] Args::derives(second, Ok(args)) && ran(args);
    assert(Args::derives(first, Ok(first_args)) && Args::derives(second, Ok(second_args)));
}

/// A handler that can be invoked with a payload.
///
/// `T` is the mode, [`private::Sync`] or [`private::Async`], and `Args` the
/// handler's argument list; both only tell the implementations for closures
/// of different shapes apart.
pub trait MessageHandler<T, Args>: Send + Sync + 'static {
    /// Whether the handler may be invoked: for a closure, that its body accepts
    /// every argument list that can be derived from a payload.
    open spec fn runnable(&self) -> bool {
        true
    }

    /// Whether an invocation with `value` may answer `res`.  The
    /// implementations for closures say exactly which answers are possible:
    /// [`immediate_outcome`] or [`deferred_outcome`].  An implementation that
    /// leaves this alone promises nothing.
    open spec fn admits(&self, value: serde_json::Value, res: Result<(), DispatchError>) -> bool {
        true
    }

    /// Invokes the handler with `value`: derives its arguments, and runs the
    /// body if all of them could be derived.  A handler knows of no names, so
    /// it never answers `UnknownHandler`.
    fn call(&self, value: serde_json::Value) -> (res: Result<(), DispatchError>)
        requires
            self.runnable(),
        ensures
            self.admits(value, res),
            !(res matches Err(DispatchError::UnknownHandler(_))),
    ;

    /// The mode of the handler, as a value without content.
    fn phantom(&self) -> (mode: PhantomData<T>)
        ensures
            mode == PhantomData::<T>,
    {
        PhantomData
    }
}

/// The erased form of a handler: what is left of it when its argument list has
/// been forgotten.
pub(crate) trait Invocation<T>: Send + Sync + 'static {
    spec fn ready(&self) -> bool;

    spec fn answers(&self, value: serde_json::Value, res: Result<(), DispatchError>) -> bool;

    fn invoke(&self, value: serde_json::Value) -> (res: Result<(), DispatchError>)
        requires
            self.ready(),
        ensures
            self.answers(value, res),
            !(res matches Err(DispatchError::UnknownHandler(_))),
    ;
}

/// A handler together with the argument list under which it was registered.
pub(crate) struct Bound<H, T, Args> {
    handler: H,
    signature: PhantomData<(T, Args)>,
}

impl<H, T, Args> Invocation<T> for Bound<H, T, Args> where
    H: MessageHandler<T, Args>,
    T: Send + Sync + 'static,
    Args: Send + Sync + 'static,
{
    closed spec fn ready(&self) -> bool {
        self.handler.runnable()
    }

    closed spec fn answers(&self, value: serde_json::Value, res: Result<(), DispatchError>) -> bool {
        self.handler.admits(value, res)
    }

    fn invoke(&self, value: serde_json::Value) -> (res: Result<(), DispatchError>) {
        self.handler.call(value)
    }
}

/// A handler of mode `T` whose arity and argument types have been erased, as a
/// registry stores it.
#[verifier::reject_recursive_types(T)]
pub struct BoxedMessageHandler<T: Send + Sync + 'static> {
    erased: Box<dyn Invocation<T>>,
}

impl<T: Send + Sync + 'static> BoxedMessageHandler<T> {
    /// The handler inside may be invoked.
    #[verifier::type_invariant]
    spec fn well_formed(self) -> bool {
        self.erased.ready()
    }

    /// Whether an invocation with `value` may answer `res`.
    pub closed spec fn admits(&self, value: serde_json::Value, res: Result<(), DispatchError>) -> bool {
        self.erased.answers(value, res)
    }

    /// This boxed handler answers as `handler` does.
    pub open spec fn stands_for<Args, H: MessageHandler<T, Args>>(&self, handler: H) -> bool {
        forall|value: serde_json::Value, res: Result<(), DispatchError>|
            #[trigger] self.admits(value, res) == handler.admits(value, res)
    }

    /// Erases the arity and the argument types of `handler`.
    pub fn new<Args, H>(handler: H) -> (boxed: Self) where
        H: MessageHandler<T, Args>,
        Args: Send + Sync + 'static,

        requires
            handler.runnable(),
        ensures
            boxed.stands_for(handler),
    {
        BoxedMessageHandler { erased: Box::new(Bound { handler, signature: PhantomData }) }
    }

    /// Invokes the handler with `value`.
    pub fn call(&self, value: serde_json::Value) -> (res: Result<(), DispatchError>)
        ensures
            self.admits(value, res),
            !(res matches Err(DispatchError::UnknownHandler(_))),
    {
        proof {
            use_type_invariant(self);
        }
        self.erased.invoke(value)
    }
}

} // verus!
