//! The handler registry: a map from names to handlers of one mode.
//!
//! Registering takes the registry by `&mut`, invoking by `&`: any number of
//! invocations may go on at once, and a registration excludes both invocations
//! and other registrations.  The registry holds no lock of its own; callers that
//! share one between threads and still register wrap it in theirs.

use vstd::prelude::*;
use vstd::hash_map::StringHashMap;
use crate::error::DispatchError;
use crate::message_handler::{BoxedMessageHandler, MessageHandler};

verus! {

/// `after` is `before` with `handler` registered under `name`: `name` now has a
/// handler that answers as `handler` does, and every other name has what it had.
pub open spec fn registered<T: Send + Sync + 'static, Args, H: MessageHandler<T, Args>>(
    before: Map<Seq<char>, BoxedMessageHandler<T>>,
    name: Seq<char>,
    handler: H,
    after: Map<Seq<char>, BoxedMessageHandler<T>>,
) -> bool {
    &&& after.contains_key(name)
    &&& after[name].stands_for(handler)
    &&& after == before.insert(name, after[name])
}

/// `res` is an answer to invoking `name` with `value` on `handlers`:
/// `UnknownHandler` with that name exactly where `name` has no handler, and
/// otherwise an answer of the handler that `name` has.
pub open spec fn invoked<T: Send + Sync + 'static>(
    handlers: Map<Seq<char>, BoxedMessageHandler<T>>,
    name: Seq<char>,
    value: serde_json::Value,
    res: Result<(), DispatchError>,
) -> bool {
    match res {
        Err(DispatchError::UnknownHandler(unknown)) => !handlers.contains_key(name) && unknown@
            == name,
        _ => handlers.contains_key(name) && handlers[name].admits(value, res),
    }
}

/// A registry of handlers of mode `T`, each under a name of its own.
///
/// Its view is the map from the registered names to the handlers.  A name has at
/// most one handler: registering under a name that is taken replaces the
/// handler that was there.
#[verifier::reject_recursive_types(T)]
pub struct BoxAsyncFunctionStorage<T: Send + Sync + 'static> {
    message_handlers: StringHashMap<BoxedMessageHandler<T>>,
}

/// Looking handlers up by name and invoking them.
pub trait MessageStorage<T: Send + Sync + 'static> {
    /// The registered handlers, by name.
    spec fn handlers(&self) -> Map<Seq<char>, BoxedMessageHandler<T>>;

    /// Read access to the registered handlers.
    fn get_message_handler(&self) -> (handlers: &StringHashMap<BoxedMessageHandler<T>>)
        ensures
            handlers@ == self.handlers(),
    ;

    /// Invokes the handler registered under `name` with `value`.
    ///
    /// Where no handler is registered under `name`, the answer is
    /// `UnknownHandler` with that name, and only there.  Otherwise it is an
    /// answer of the handler registered under `name`.
    fn call_message_handler(&self, name: &str, value: serde_json::Value) -> (res: Result<
        (),
        DispatchError,
    >)
        ensures
            invoked(self.handlers(), name@, value, res),
    ;
}

impl<T> View for BoxAsyncFunctionStorage<T> where T: Send + Sync + 'static {
    type V = Map<Seq<char>, BoxedMessageHandler<T>>;

    closed spec fn view(&self) -> Self::V {
        self.message_handlers@
    }
}

impl<T> BoxAsyncFunctionStorage<T> where T: Send + Sync + 'static {
    /// An empty registry.
    pub fn new() -> (storage: Self)
        ensures
            storage@ == Map::<Seq<char>, BoxedMessageHandler<T>>::empty(),
    {
        Self { message_handlers: StringHashMap::new() }
    }

    /// Registers `handler` under `name`.  A handler that was registered under
    /// `name` before is replaced; every other name keeps its handler.
    pub fn add_message_handler<Args, H>(&mut self, name: &str, handler: H) where
        H: MessageHandler<T, Args>,
        Args: Send + Sync + 'static,

        requires
            handler.runnable(),
        ensures
            registered(old(self)@, name@, handler, final(self)@),
    {
        self.message_handlers.insert(name.to_string(), BoxedMessageHandler::new(handler));
    }
}

impl<T> MessageStorage<T> for BoxAsyncFunctionStorage<T> where T: Send + Sync + 'static {
    open spec fn handlers(&self) -> Map<Seq<char>, BoxedMessageHandler<T>> {
        self@
    }

    fn get_message_handler(&self) -> (handlers: &StringHashMap<BoxedMessageHandler<T>>) {
        &self.message_handlers
    }

    fn call_message_handler(&self, name: &str, value: serde_json::Value) -> (res: Result<
        (),
        DispatchError,
    >) {
        match self.message_handlers.get(name) {
            None => Err(DispatchError::UnknownHandler(name.to_string())),
            Some(handler) => handler.call(value),
        }
    }
}

/// An invocation by a name that was registered answers as the handler that was
/// registered under it.
pub proof fn lemma_registered_handler_answers<T: Send + Sync + 'static, Args, H: MessageHandler<T, Args>>(
    before: Map<Seq<char>, BoxedMessageHandler<T>>,
    name: Seq<char>,
    handler: H,
    after: Map<Seq<char>, BoxedMessageHandler<T>>,
    value: serde_json::Value,
    res: Result<(), DispatchError>,
)
    requires
        registered(before, name, handler, after),
        invoked(after, name, value, res),
    ensures
        !(res matches Err(DispatchError::UnknownHandler(_))),
        handler.admits(value, res),
{
}

/// An invocation by a name that is not registered answers `UnknownHandler` with
/// that name, whatever the payload.
pub proof fn lemma_unregistered_name_is_unknown<T: Send + Sync + 'static>(
    handlers: Map<Seq<char>, BoxedMessageHandler<T>>,
    name: Seq<char>,
    value: serde_json::Value,
    res: Result<(), DispatchError>,
)
    requires
        !handlers.contains_key(name),
        invoked(handlers, name, value, res),
    ensures
        res matches Err(DispatchError::UnknownHandler(unknown)) && unknown@ == name,
{
}

/// Registering twice under one name leaves only the second handler: the
/// registry is as if the first had never been registered, and an invocation by
/// that name answers as the second.
pub proof fn lemma_reregistering_replaces<
    T: Send + Sync + 'static,
    Args1,
    H1: MessageHandler<T, Args1>,
    Args2,
    H2: MessageHandler<T, Args2>,
>(
    start: Map<Seq<char>, BoxedMessageHandler<T>>,
    name: Seq<char>,
    first: H1,
    middle: Map<Seq<char>, BoxedMessageHandler<T>>,
    second: H2,
    end: Map<Seq<char>, BoxedMessageHandler<T>>,
    value: serde_json::Value,
    res: Result<(), DispatchError>,
)
    requires
        registered(start, name, first, middle),
        registered(middle, name, second, end),
        invoked(end, name, value, res),
    ensures
        registered(start, name, second, end),
        second.admits(value, res),
{
    assert(end =~= start.insert(name, end[name]));
}

/// Registering under one name changes nothing for any other name: it is
/// registered after exactly if it was before, with the same handler.
pub proof fn lemma_registering_keeps_other_names<
    T: Send + Sync + 'static,
    Args,
    H: MessageHandler<T, Args>,
>(
    before: Map<Seq<char>, BoxedMessageHandler<T>>,
    name: Seq<char>,
    handler: H,
    after: Map<Seq<char>, BoxedMessageHandler<T>>,
    other: Seq<char>,
)
    requires
        registered(before, name, handler, after),
        other != name,
    ensures
        after.contains_key(other) <==> before.contains_key(other),
        after.contains_key(other) ==> after[other] == before[other],
{
}

} // verus!
