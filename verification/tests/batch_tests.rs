use std::cell::Cell;
use std::rc::Rc;

use agentflow::{create_node, Batch, Node, ParallelBatch, Store, Value};

fn tag_from_index(store: Store) -> Store {
    let mut store = store;
    let idx = store.get("i").and_then(|v| v.as_int()).unwrap_or(-1);
    store.set("tagged", Value::Int(idx * 10));
    store
}

#[test]
fn batch_applies_node_to_each_item() {
    let batch = Batch::new(create_node(tag_from_index as fn(Store) -> Store));
    let mut inputs = Vec::new();
    for i in 0..4 {
        let mut s = Store::new();
        s.set("i", Value::Int(i));
        inputs.push(s);
    }
    let outputs = batch.call(inputs);
    assert_eq!(outputs.len(), 4);
    for (i, out) in outputs.iter().enumerate() {
        assert_eq!(out.get("tagged").unwrap().as_int(), Some(i as i64 * 10));
    }
}

#[test]
fn batch_runs_items_in_strict_sequence() {
    let counter = Rc::new(Cell::new(0i64));
    let seen = counter.clone();
    let node = create_node(move |store: Store| {
        let mut store = store;
        seen.set(seen.get() + 1);
        store.set("seen", Value::Int(seen.get()));
        store
    });
    let batch = Batch::new(node);
    let inputs = vec![Store::new(), Store::new(), Store::new()];
    let outputs = batch.call(inputs);
    let observed: Vec<i64> = outputs
        .iter()
        .map(|s| s.get("seen").unwrap().as_int().unwrap())
        .collect();
    assert_eq!(observed, vec![1, 2, 3]);
    assert_eq!(counter.get(), 3);
}

#[test]
fn parallel_batch_preserves_input_order() {
    let batch = ParallelBatch::new(create_node(tag_from_index as fn(Store) -> Store));
    let mut inputs = Vec::new();
    for i in 0..8 {
        let mut s = Store::new();
        s.set("i", Value::Int(i));
        inputs.push(s);
    }
    let outputs = batch.call(inputs);
    assert_eq!(outputs.len(), 8);
    for (i, out) in outputs.iter().enumerate() {
        assert_eq!(out.get("i").unwrap().as_int(), Some(i as i64));
        assert_eq!(out.get("tagged").unwrap().as_int(), Some(i as i64 * 10));
    }
}

#[test]
fn empty_batch_returns_empty() {
    let batch = Batch::new(create_node(tag_from_index as fn(Store) -> Store));
    let outputs = batch.call(Vec::new());
    assert!(outputs.is_empty());
}
