//! An in-process message-dispatch registry.
//!
//! Handlers are closures of any supported arity, registered under a name in a
//! [`message_storage::BoxAsyncFunctionStorage`] and later invoked by that name
//! with a JSON payload.  Every argument of a handler is derived from the payload
//! through [`message_value::MessageValueTrait`]; the handler body runs only when
//! all of them could be derived.  A registry is either immediate (the body runs
//! before the invocation returns) or deferred (the body makes a task, which is
//! handed to the Tokio runtime that the caller is running in).

pub mod argument_list;
pub mod error;
pub mod message_handler;
pub mod message_storage;
pub mod message_value;
pub mod task_system;
