use async_sync_closure_testing::error::{DispatchError, ExtractionError};
use async_sync_closure_testing::message_handler::private::{Async, Sync};
use async_sync_closure_testing::message_handler::MessageHandler;
use async_sync_closure_testing::message_storage::{BoxAsyncFunctionStorage, MessageStorage};
use async_sync_closure_testing::message_value::MessageValueTrait;
use serde_json::Value;
use std::sync::atomic::{AtomicUsize, Ordering};
use std::sync::{Arc, Mutex};
use std::time::Duration;

fn object(fields: Vec<(&str, Value)>) -> Value {
    let mut map = serde_json::Map::new();
    for (key, value) in fields {
        map.insert(key.to_string(), value);
    }
    Value::Object(map)
}

fn malformed(argument: &str, detail: &str) -> ExtractionError {
    ExtractionError { argument: argument.to_string(), detail: detail.to_string() }
}

fn integer_field(value: &Value, field: &str, key: &str, argument: &str) -> Result<i64, ExtractionError> {
    let inner = value.get(field).ok_or_else(|| malformed(argument, "missing field"))?;
    let number = inner.get(key).ok_or_else(|| malformed(argument, "missing key"))?;
    number.as_i64().ok_or_else(|| malformed(argument, "not an integer"))
}

#[derive(Debug, PartialEq)]
struct A {
    x: i64,
}

impl MessageValueTrait for A {
    fn get_value(value: &Value) -> Result<Self, ExtractionError> {
        Ok(A { x: integer_field(value, "a", "x", "A")? })
    }
}

#[derive(Debug, PartialEq)]
struct B {
    y: i64,
}

impl MessageValueTrait for B {
    fn get_value(value: &Value) -> Result<Self, ExtractionError> {
        Ok(B { y: integer_field(value, "b", "y", "B")? })
    }
}

#[derive(Debug, PartialEq)]
struct C {
    z: i64,
}

impl MessageValueTrait for C {
    fn get_value(value: &Value) -> Result<Self, ExtractionError> {
        Ok(C { z: integer_field(value, "c", "z", "C")? })
    }
}

#[derive(Debug, PartialEq)]
struct D {
    w: i64,
}

impl MessageValueTrait for D {
    fn get_value(value: &Value) -> Result<Self, ExtractionError> {
        Ok(D { w: integer_field(value, "d", "w", "D")? })
    }
}

fn payload(a: i64, b: i64, c: i64, d: i64) -> Value {
    object(vec![
        ("a", object(vec![("x", Value::from(a))])),
        ("b", object(vec![("y", Value::from(b))])),
        ("c", object(vec![("z", Value::from(c))])),
        ("d", object(vec![("w", Value::from(d))])),
    ])
}

fn runtime() -> tokio::runtime::Runtime {
    tokio::runtime::Builder::new_current_thread().enable_time().build().unwrap()
}

async fn wait_for(counter: &AtomicUsize, expected: usize) {
    for _ in 0..500 {
        if counter.load(Ordering::SeqCst) >= expected {
            return;
        }
        tokio::time::sleep(Duration::from_millis(5)).await;
    }
}

#[test]
fn greet_runs_once_before_invoke_returns() {
    let record = Arc::new(Mutex::new(Vec::new()));
    let sink = record.clone();
    let mut storage = BoxAsyncFunctionStorage::new();
    storage.add_message_handler("greet", move || {
        sink.lock().unwrap().push("called");
    });
    let res = storage.call_message_handler("greet", object(vec![]));
    assert_eq!(res, Ok(()));
    assert_eq!(*record.lock().unwrap(), vec!["called"]);
}

#[test]
fn sum_sees_both_arguments() {
    let seen = Arc::new(Mutex::new(Vec::new()));
    let sink = seen.clone();
    let mut storage = BoxAsyncFunctionStorage::new();
    storage.add_message_handler("sum", move |a: A, b: B| {
        sink.lock().unwrap().push((a.x, b.y, a.x + b.y));
    });
    let payload = object(vec![
        ("a", object(vec![("x", Value::from(3))])),
        ("b", object(vec![("y", Value::from(4))])),
    ]);
    assert_eq!(storage.call_message_handler("sum", payload), Ok(()));
    assert_eq!(*seen.lock().unwrap(), vec![(3, 4, 7)]);
}

#[test]
fn deferred_log_returns_at_once_and_runs_eventually() {
    let counter = Arc::new(AtomicUsize::new(0));
    let seen = counter.clone();
    let mut storage = BoxAsyncFunctionStorage::new();
    storage.add_message_handler("log", move || {
        let seen = seen.clone();
        async move {
            tokio::time::sleep(Duration::from_millis(50)).await;
            seen.fetch_add(1, Ordering::SeqCst);
        }
    });
    runtime().block_on(async {
        let res = storage.call_message_handler("log", object(vec![]));
        assert_eq!(res, Ok(()));
        assert_eq!(counter.load(Ordering::SeqCst), 0);
        wait_for(&counter, 1).await;
        assert_eq!(counter.load(Ordering::SeqCst), 1);
        tokio::time::sleep(Duration::from_millis(100)).await;
        assert_eq!(counter.load(Ordering::SeqCst), 1);
    });
}

#[test]
fn unknown_name_is_reported_and_nothing_runs() {
    let calls = Arc::new(AtomicUsize::new(0));
    let seen = calls.clone();
    let mut storage = BoxAsyncFunctionStorage::new();
    storage.add_message_handler("greet", move || {
        seen.fetch_add(1, Ordering::SeqCst);
    });
    let res = storage.call_message_handler("missing", object(vec![]));
    assert_eq!(res, Err(DispatchError::UnknownHandler("missing".to_string())));
    assert_eq!(calls.load(Ordering::SeqCst), 0);
}

#[test]
fn empty_registry_knows_no_name() {
    let storage: BoxAsyncFunctionStorage<Sync> = BoxAsyncFunctionStorage::new();
    assert_eq!(storage.get_message_handler().len(), 0);
    assert_eq!(
        storage.call_message_handler("", Value::Null),
        Err(DispatchError::UnknownHandler(String::new()))
    );
    let deferred: BoxAsyncFunctionStorage<Async> = BoxAsyncFunctionStorage::new();
    assert_eq!(
        deferred.call_message_handler("log", Value::Null),
        Err(DispatchError::UnknownHandler("log".to_string()))
    );
}

#[test]
fn names_are_told_apart_exactly() {
    let calls = Arc::new(AtomicUsize::new(0));
    let seen = calls.clone();
    let mut storage = BoxAsyncFunctionStorage::new();
    storage.add_message_handler("greet", move || {
        seen.fetch_add(1, Ordering::SeqCst);
    });
    for name in ["Greet", "greet ", "gree", ""] {
        assert_eq!(
            storage.call_message_handler(name, Value::Null),
            Err(DispatchError::UnknownHandler(name.to_string()))
        );
    }
    assert_eq!(calls.load(Ordering::SeqCst), 0);
    assert_eq!(storage.call_message_handler("greet", Value::Null), Ok(()));
    assert_eq!(calls.load(Ordering::SeqCst), 1);
}

#[test]
fn registering_again_replaces_the_handler() {
    let first = Arc::new(AtomicUsize::new(0));
    let second = Arc::new(AtomicUsize::new(0));
    let first_seen = first.clone();
    let second_seen = second.clone();
    let mut storage = BoxAsyncFunctionStorage::new();
    storage.add_message_handler("n", move || {
        first_seen.fetch_add(1, Ordering::SeqCst);
    });
    storage.add_message_handler("n", move |a: A| {
        second_seen.fetch_add(a.x as usize, Ordering::SeqCst);
    });
    assert_eq!(storage.get_message_handler().len(), 1);
    assert_eq!(storage.call_message_handler("n", payload(5, 0, 0, 0)), Ok(()));
    assert_eq!(first.load(Ordering::SeqCst), 0);
    assert_eq!(second.load(Ordering::SeqCst), 5);
}

#[test]
fn registering_keeps_the_other_names() {
    let log = Arc::new(Mutex::new(Vec::new()));
    let mut storage = BoxAsyncFunctionStorage::new();
    let sink = log.clone();
    storage.add_message_handler("one", move || sink.lock().unwrap().push("one"));
    let sink = log.clone();
    storage.add_message_handler("two", move || sink.lock().unwrap().push("two"));
    let sink = log.clone();
    storage.add_message_handler("one", move || sink.lock().unwrap().push("one again"));
    let handlers = storage.get_message_handler();
    assert_eq!(handlers.len(), 2);
    assert!(handlers.contains_key("one"));
    assert!(handlers.contains_key("two"));
    assert!(!handlers.contains_key("three"));
    assert_eq!(storage.call_message_handler("two", Value::Null), Ok(()));
    assert_eq!(storage.call_message_handler("one", Value::Null), Ok(()));
    assert_eq!(*log.lock().unwrap(), vec!["two", "one again"]);
}

#[test]
fn a_handler_can_be_invoked_many_times() {
    let calls = Arc::new(AtomicUsize::new(0));
    let seen = calls.clone();
    let mut storage = BoxAsyncFunctionStorage::new();
    storage.add_message_handler("tick", move || {
        seen.fetch_add(1, Ordering::SeqCst);
    });
    for expected in 1..=10 {
        assert_eq!(storage.call_message_handler("tick", Value::Null), Ok(()));
        assert_eq!(calls.load(Ordering::SeqCst), expected);
    }
}

#[test]
fn two_payloads_give_two_argument_lists() {
    let seen = Arc::new(Mutex::new(Vec::new()));
    let sink = seen.clone();
    let mut storage = BoxAsyncFunctionStorage::new();
    storage.add_message_handler("pair", move |a: A, b: B| {
        sink.lock().unwrap().push((a.x, b.y));
    });
    assert_eq!(storage.call_message_handler("pair", payload(1, 2, 0, 0)), Ok(()));
    assert_eq!(storage.call_message_handler("pair", payload(-7, 40, 0, 0)), Ok(()));
    assert_eq!(*seen.lock().unwrap(), vec![(1, 2), (-7, 40)]);
}

#[test]
fn arguments_arrive_in_declaration_order() {
    let seen = Arc::new(Mutex::new(Vec::new()));
    let sink = seen.clone();
    let mut storage = BoxAsyncFunctionStorage::new();
    storage.add_message_handler("ba", move |b: B, a: A| {
        sink.lock().unwrap().push((b.y, a.x));
    });
    assert_eq!(storage.call_message_handler("ba", payload(1, 2, 3, 4)), Ok(()));
    assert_eq!(*seen.lock().unwrap(), vec![(2, 1)]);
}

#[test]
fn every_immediate_arity_runs() {
    let seen = Arc::new(Mutex::new(Vec::new()));
    let mut storage = BoxAsyncFunctionStorage::new();
    let sink = seen.clone();
    storage.add_message_handler("zero", move || sink.lock().unwrap().push(vec![]));
    let sink = seen.clone();
    storage.add_message_handler("one", move |a: A| sink.lock().unwrap().push(vec![a.x]));
    let sink = seen.clone();
    storage.add_message_handler("two", move |a: A, b: B| sink.lock().unwrap().push(vec![a.x, b.y]));
    let sink = seen.clone();
    storage.add_message_handler("three", move |a: A, b: B, c: C| {
        sink.lock().unwrap().push(vec![a.x, b.y, c.z])
    });
    let sink = seen.clone();
    storage.add_message_handler("four", move |a: A, b: B, c: C, d: D| {
        sink.lock().unwrap().push(vec![a.x, b.y, c.z, d.w])
    });
    for name in ["zero", "one", "two", "three", "four"] {
        assert_eq!(storage.call_message_handler(name, payload(1, 2, 3, 4)), Ok(()));
    }
    assert_eq!(
        *seen.lock().unwrap(),
        vec![vec![], vec![1], vec![1, 2], vec![1, 2, 3], vec![1, 2, 3, 4]]
    );
}

#[test]
fn every_deferred_arity_runs() {
    let seen = Arc::new(Mutex::new(Vec::new()));
    let done = Arc::new(AtomicUsize::new(0));
    let mut storage = BoxAsyncFunctionStorage::new();
    let (sink, count) = (seen.clone(), done.clone());
    storage.add_message_handler("zero", move || {
        let (sink, count) = (sink.clone(), count.clone());
        async move {
            sink.lock().unwrap().push(vec![]);
            count.fetch_add(1, Ordering::SeqCst);
        }
    });
    let (sink, count) = (seen.clone(), done.clone());
    storage.add_message_handler("one", move |a: A| {
        let (sink, count) = (sink.clone(), count.clone());
        async move {
            sink.lock().unwrap().push(vec![a.x]);
            count.fetch_add(1, Ordering::SeqCst);
        }
    });
    let (sink, count) = (seen.clone(), done.clone());
    storage.add_message_handler("two", move |a: A, b: B| {
        let (sink, count) = (sink.clone(), count.clone());
        async move {
            sink.lock().unwrap().push(vec![a.x, b.y]);
            count.fetch_add(1, Ordering::SeqCst);
        }
    });
    let (sink, count) = (seen.clone(), done.clone());
    storage.add_message_handler("three", move |a: A, b: B, c: C| {
        let (sink, count) = (sink.clone(), count.clone());
        async move {
            sink.lock().unwrap().push(vec![a.x, b.y, c.z]);
            count.fetch_add(1, Ordering::SeqCst);
        }
    });
    let (sink, count) = (seen.clone(), done.clone());
    storage.add_message_handler("four", move |a: A, b: B, c: C, d: D| {
        let (sink, count) = (sink.clone(), count.clone());
        async move {
            sink.lock().unwrap().push(vec![a.x, b.y, c.z, d.w]);
            count.fetch_add(1, Ordering::SeqCst);
        }
    });
    runtime().block_on(async {
        for (index, name) in ["zero", "one", "two", "three", "four"].into_iter().enumerate() {
            assert_eq!(storage.call_message_handler(name, payload(1, 2, 3, 4)), Ok(()));
            wait_for(&done, index + 1).await;
        }
    });
    assert_eq!(
        *seen.lock().unwrap(),
        vec![vec![], vec![1], vec![1, 2], vec![1, 2, 3], vec![1, 2, 3, 4]]
    );
}

#[test]
fn a_malformed_element_keeps_the_body_from_running() {
    let calls = Arc::new(AtomicUsize::new(0));
    let seen = calls.clone();
    let mut storage = BoxAsyncFunctionStorage::new();
    storage.add_message_handler("four", move |_: A, _: B, _: C, _: D| {
        seen.fetch_add(1, Ordering::SeqCst);
    });
    let full = vec![("a", "x"), ("b", "y"), ("c", "z"), ("d", "w")];
    let arguments = ["A", "B", "C", "D"];
    for missing in 0..4 {
        let fields = full
            .iter()
            .enumerate()
            .filter(|(index, _)| *index != missing)
            .map(|(_, (field, key))| (*field, object(vec![(*key, Value::from(1))])))
            .collect();
        assert_eq!(
            storage.call_message_handler("four", object(fields)),
            Err(DispatchError::MalformedPayload(malformed(arguments[missing], "missing field")))
        );
    }
    assert_eq!(calls.load(Ordering::SeqCst), 0);
    assert_eq!(storage.call_message_handler("four", payload(1, 1, 1, 1)), Ok(()));
    assert_eq!(calls.load(Ordering::SeqCst), 1);
}

#[test]
fn the_first_malformed_element_is_the_one_reported() {
    let mut storage = BoxAsyncFunctionStorage::new();
    storage.add_message_handler("three", |_: A, _: B, _: C| {});
    let value = object(vec![
        ("a", object(vec![("x", Value::from(1))])),
        ("b", object(vec![("y", Value::from("two"))])),
        ("c", Value::Null),
    ]);
    assert_eq!(
        storage.call_message_handler("three", value),
        Err(DispatchError::MalformedPayload(malformed("B", "not an integer")))
    );
    assert_eq!(
        storage.call_message_handler("three", Value::Null),
        Err(DispatchError::MalformedPayload(malformed("A", "missing field")))
    );
}

#[test]
fn a_malformed_payload_starts_no_task() {
    let calls = Arc::new(AtomicUsize::new(0));
    let seen = calls.clone();
    let mut storage = BoxAsyncFunctionStorage::new();
    storage.add_message_handler("log", move |a: A, b: B| {
        seen.fetch_add(1, Ordering::SeqCst);
        let seen = seen.clone();
        async move {
            seen.fetch_add((a.x + b.y) as usize, Ordering::SeqCst);
        }
    });
    runtime().block_on(async {
        let value = object(vec![("a", object(vec![("x", Value::from(1))]))]);
        assert_eq!(
            storage.call_message_handler("log", value),
            Err(DispatchError::MalformedPayload(malformed("B", "missing field")))
        );
        tokio::time::sleep(Duration::from_millis(50)).await;
    });
    assert_eq!(calls.load(Ordering::SeqCst), 0);
}

#[test]
fn a_malformed_payload_is_reported_before_a_missing_task_system() {
    let mut storage = BoxAsyncFunctionStorage::new();
    storage.add_message_handler("log", |_: A| async move {});
    assert_eq!(
        storage.call_message_handler("log", Value::Null),
        Err(DispatchError::MalformedPayload(malformed("A", "missing field")))
    );
}

#[test]
fn deferred_without_task_system_is_reported_and_nothing_starts() {
    let calls = Arc::new(AtomicUsize::new(0));
    let seen = calls.clone();
    let mut storage = BoxAsyncFunctionStorage::new();
    storage.add_message_handler("log", move |_: A| {
        seen.fetch_add(1, Ordering::SeqCst);
        async move {}
    });
    let res = storage.call_message_handler("log", payload(1, 2, 3, 4));
    assert_eq!(res, Err(DispatchError::TaskSystemUnavailable));
    assert_eq!(calls.load(Ordering::SeqCst), 0);
}

#[test]
fn unknown_name_is_reported_in_a_deferred_registry() {
    let calls = Arc::new(AtomicUsize::new(0));
    let seen = calls.clone();
    let mut storage = BoxAsyncFunctionStorage::new();
    storage.add_message_handler("log", move || {
        seen.fetch_add(1, Ordering::SeqCst);
        async move {}
    });
    runtime().block_on(async {
        assert_eq!(
            storage.call_message_handler("lag", Value::Null),
            Err(DispatchError::UnknownHandler("lag".to_string()))
        );
        tokio::time::sleep(Duration::from_millis(20)).await;
    });
    assert_eq!(calls.load(Ordering::SeqCst), 0);
}

#[test]
fn deferred_tasks_run_on_a_multi_thread_runtime() {
    let done = Arc::new(AtomicUsize::new(0));
    let seen = done.clone();
    let mut storage = BoxAsyncFunctionStorage::new();
    storage.add_message_handler("add", move |a: A| {
        let seen = seen.clone();
        async move {
            seen.fetch_add(a.x as usize, Ordering::SeqCst);
        }
    });
    let runtime = tokio::runtime::Builder::new_multi_thread()
        .worker_threads(2)
        .enable_time()
        .build()
        .unwrap();
    runtime.block_on(async {
        for _ in 0..10 {
            assert_eq!(storage.call_message_handler("add", payload(3, 0, 0, 0)), Ok(()));
        }
        wait_for(&done, 30).await;
    });
    assert_eq!(done.load(Ordering::SeqCst), 30);
}

#[test]
fn a_registry_can_be_shared_between_threads() {
    fn shareable<S: Send + std::marker::Sync>(_: &S) {}
    let calls = Arc::new(AtomicUsize::new(0));
    let seen = calls.clone();
    let mut storage = BoxAsyncFunctionStorage::new();
    storage.add_message_handler("tick", move |a: A| {
        seen.fetch_add(a.x as usize, Ordering::SeqCst);
    });
    shareable(&storage);
    let storage = Arc::new(storage);
    let runtime = tokio::runtime::Builder::new_multi_thread().worker_threads(2).build().unwrap();
    runtime.block_on(async {
        let workers: Vec<_> = (0..4)
            .map(|_| {
                let storage = storage.clone();
                tokio::task::spawn_blocking(move || {
                    for _ in 0..25 {
                        assert_eq!(
                            storage.call_message_handler("tick", payload(2, 0, 0, 0)),
                            Ok(())
                        );
                    }
                })
            })
            .collect();
        for worker in workers {
            worker.await.unwrap();
        }
    });
    assert_eq!(calls.load(Ordering::SeqCst), 200);
}

#[test]
fn a_handler_can_be_called_without_a_registry() {
    let seen = Arc::new(Mutex::new(Vec::new()));
    let sink = seen.clone();
    let handler = move |a: A, b: B| sink.lock().unwrap().push(a.x * b.y);
    assert_eq!(handler.call(payload(6, 7, 0, 0)), Ok(()));
    assert_eq!(
        handler.call(object(vec![])),
        Err(DispatchError::MalformedPayload(malformed("A", "missing field")))
    );
    assert_eq!(*seen.lock().unwrap(), vec![42]);
}

#[test]
fn phantom_tells_the_mode() {
    let immediate = || {};
    let _: std::marker::PhantomData<Sync> = MessageHandler::<Sync, ()>::phantom(&immediate);
    let deferred = || async {};
    let _: std::marker::PhantomData<Async> = MessageHandler::<Async, ()>::phantom(&deferred);
}
