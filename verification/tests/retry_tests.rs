use std::cell::{Cell, RefCell};
use std::rc::Rc;

use agentflow::{create_retry_node, Delay, Node, Store, Value};

type Fallback = fn(&Store, &Value, &String) -> Value;

/// Records every wait instead of sleeping, so the clock can be inspected.
struct CountingDelay {
    waits: Rc<RefCell<Vec<u64>>>,
}

impl Delay for CountingDelay {
    fn delay(&self, millis: u64) {
        self.waits.borrow_mut().push(millis);
    }
}

fn prep_null(_store: &Store) -> Value {
    Value::Null
}

fn post_result(store: Store, _prep: &Value, exec: &Value) -> Store {
    let mut store = store;
    store.set("result", exec.clone());
    store
}

#[test]
fn succeeds_after_transient_failures_with_one_delay_per_failure() {
    let waits = Rc::new(RefCell::new(Vec::new()));
    let failures = Cell::new(0u32);
    let node = create_retry_node(
        prep_null as fn(&Store) -> Value,
        move |_s: &Store, _v: &Value| -> Result<Value, String> {
            if failures.get() < 2 {
                failures.set(failures.get() + 1);
                Err(format!("transient {}", failures.get()))
            } else {
                Ok(Value::Str("finally".to_string()))
            }
        },
        post_result as fn(Store, &Value, &Value) -> Store,
        5,
        7,
        None::<Fallback>,
        CountingDelay { waits: waits.clone() },
    );
    let out = node.call(Store::new());
    assert_eq!(out.get("result").unwrap().as_str().unwrap().as_str(), "finally");
    assert_eq!(*waits.borrow(), vec![7, 7]);
}

#[test]
fn exhausted_attempts_produce_error_marker_and_skip_last_delay() {
    let waits = Rc::new(RefCell::new(Vec::new()));
    let node = create_retry_node(
        prep_null as fn(&Store) -> Value,
        |_s: &Store, _v: &Value| -> Result<Value, String> { Err("always".to_string()) },
        post_result as fn(Store, &Value, &Value) -> Store,
        3,
        9,
        None::<Fallback>,
        CountingDelay { waits: waits.clone() },
    );
    let out = node.call(Store::new());
    let marker = out.get("result").unwrap();
    assert_eq!(marker.obj_get("error").unwrap().as_str().unwrap().as_str(), "always");
    assert_eq!(marker.obj_get("retries").unwrap().as_int(), Some(3));
    assert_eq!(*waits.borrow(), vec![9, 9]);
}

#[test]
fn fallback_value_replaces_error_marker() {
    let waits = Rc::new(RefCell::new(Vec::new()));
    let node = create_retry_node(
        prep_null as fn(&Store) -> Value,
        |_s: &Store, _v: &Value| -> Result<Value, String> { Err("nope".to_string()) },
        post_result as fn(Store, &Value, &Value) -> Store,
        2,
        4,
        Some(
            (|_s: &Store, _p: &Value, err: &String| {
                Value::Str(format!("fallback after: {}", err))
            }) as fn(&Store, &Value, &String) -> Value,
        ),
        CountingDelay { waits: waits.clone() },
    );
    let out = node.call(Store::new());
    assert_eq!(
        out.get("result").unwrap().as_str().unwrap().as_str(),
        "fallback after: nope",
    );
    assert_eq!(*waits.borrow(), vec![4]);
}

#[test]
fn zero_wait_skips_all_delays() {
    let waits = Rc::new(RefCell::new(Vec::new()));
    let node = create_retry_node(
        prep_null as fn(&Store) -> Value,
        |_s: &Store, _v: &Value| -> Result<Value, String> { Err("e".to_string()) },
        post_result as fn(Store, &Value, &Value) -> Store,
        3,
        0,
        None::<Fallback>,
        CountingDelay { waits: waits.clone() },
    );
    let _ = node.call(Store::new());
    assert!(waits.borrow().is_empty());
}

#[test]
fn prepared_value_reaches_execute_and_post() {
    let waits = Rc::new(RefCell::new(Vec::new()));
    let node = create_retry_node(
        (|store: &Store| store.get("seed").cloned().unwrap_or(Value::Null))
            as fn(&Store) -> Value,
        |_s: &Store, prep: &Value| -> Result<Value, String> {
            match prep.as_int() {
                Some(n) => Ok(Value::Int(n * 2)),
                None => Err("no seed".to_string()),
            }
        },
        post_result as fn(Store, &Value, &Value) -> Store,
        1,
        0,
        None::<Fallback>,
        CountingDelay { waits: waits.clone() },
    );
    let mut store = Store::new();
    store.set("seed", Value::Int(21));
    let out = node.call(store);
    assert_eq!(out.get("result").unwrap().as_int(), Some(42));
}
