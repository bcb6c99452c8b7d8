use std::cell::Cell;
use std::rc::Rc;

use agentflow::{
    create_batch_node, create_chunking_node, create_google_search_node, create_mock_llm_node,
    create_node, create_vector_search_node, Agent, Batch, BatchFlow, FnNode, MapReduce,
    MultiAgent, Node, Rag, RetryPolicy, SchemaError, Store, StructuredOutput, Value, ValueKind,
    Workflow,
};

type PlainNode = FnNode<fn(Store) -> Store>;

fn write_x(store: Store) -> Store {
    let mut store = store;
    store.set("x", Value::Int(1));
    store
}

fn write_y(store: Store) -> Store {
    let mut store = store;
    store.set("y", Value::Int(2));
    store
}

fn write_z(store: Store) -> Store {
    let mut store = store;
    store.set("z", Value::Int(3));
    store
}

fn measure_input_field(store: Store) -> Store {
    let mut store = store;
    let len = store
        .get("input_field")
        .and_then(|v| v.as_str().map(|s| s.len() as i64))
        .unwrap_or(0);
    store.set("len", Value::Int(len));
    store
}

fn sum_lens(stores: Vec<Store>) -> Store {
    let mut total = 0i64;
    for s in &stores {
        total += s.get("len").and_then(|v| v.as_int()).unwrap_or(0);
    }
    let mut out = Store::new();
    out.set("sum", Value::Int(total));
    out
}

fn bump_count(store: Store) -> Store {
    let mut store = store;
    let n = store.get("count").and_then(|v| v.as_int()).unwrap_or(0);
    store.set("count", Value::Int(n + 1));
    store
}

#[test]
fn agent_first_completion_calls_once() {
    let calls = Rc::new(Cell::new(0i64));
    let seen = calls.clone();
    let agent = Agent::with_retry(
        create_node(move |store: Store| {
            seen.set(seen.get() + 1);
            store
        }),
        5,
        0,
    );
    let _ = agent.decide(Store::new());
    assert_eq!(calls.get(), 1);
}

#[test]
fn agent_zero_attempts_returns_input() {
    let calls = Rc::new(Cell::new(0i64));
    let seen = calls.clone();
    let agent = Agent::with_retry(
        create_node(move |store: Store| {
            seen.set(seen.get() + 1);
            store
        }),
        0,
        0,
    );
    let mut store = Store::new();
    store.set("keep", Value::Bool(true));
    let out = agent.decide(store);
    assert_eq!(calls.get(), 0);
    assert_eq!(out.get("keep").unwrap().as_bool(), Some(true));
}

#[test]
fn agent_retries_until_error_clears() {
    let calls = Rc::new(Cell::new(0i64));
    let seen = calls.clone();
    let agent = Agent::with_retry(
        create_node(move |store: Store| {
            let mut store = store;
            seen.set(seen.get() + 1);
            if seen.get() < 3 {
                store.set("error", Value::Str("not yet".to_string()));
            } else {
                store.remove("error");
            }
            store
        }),
        10,
        0,
    )
    .with_policy(RetryPolicy::UntilNoError);
    let out = agent.decide(Store::new());
    assert_eq!(calls.get(), 3);
    assert!(!out.contains_key("error"));
}

#[test]
fn agent_retry_stops_at_allowance() {
    let calls = Rc::new(Cell::new(0i64));
    let seen = calls.clone();
    let agent = Agent::with_retry(
        create_node(move |store: Store| {
            let mut store = store;
            seen.set(seen.get() + 1);
            store.set("error", Value::Str("always".to_string()));
            store
        }),
        2,
        0,
    )
    .with_policy(RetryPolicy::UntilNoError);
    let out = agent.decide(Store::new());
    assert_eq!(calls.get(), 2);
    assert!(out.contains_key("error"));
}

#[test]
fn workflow_merges_params_without_overwriting() {
    let mut wf: Workflow<PlainNode> = Workflow::new();
    wf.add_step("only", create_node(write_x as fn(Store) -> Store));
    wf.set_params(vec![
        ("p".to_string(), Value::Int(1)),
        ("q".to_string(), Value::Int(2)),
    ]);
    let mut store = Store::new();
    store.set("p", Value::Int(9));
    let out = wf.execute(store);
    assert_eq!(out.get("p").unwrap().as_int(), Some(9));
    assert_eq!(out.get("q").unwrap().as_int(), Some(2));
    assert_eq!(out.get("x").unwrap().as_int(), Some(1));
}

#[test]
fn workflow_steps_connect_and_introspect() {
    let mut wf: Workflow<PlainNode> = Workflow::with_start("a", create_node(write_x as fn(Store) -> Store));
    wf.add_step("b", create_node(write_y as fn(Store) -> Store));
    wf.connect("a", "b");
    wf.connect_with_action("b", "special", "a");
    assert_eq!(wf.get_next_step("a", "default").unwrap(), "b");
    assert_eq!(wf.get_next_step("b", "special").unwrap(), "a");
    assert!(wf.get_next_step("b", "default").is_none());
    assert!(wf.get_node("a").is_some());
    assert!(wf.get_node("zzz").is_none());
    let out = wf.execute(Store::new());
    assert_eq!(out.get("x").unwrap().as_int(), Some(1));
    assert_eq!(out.get("y").unwrap().as_int(), Some(2));
}

#[test]
fn batchflow_runs_workflow_per_parameter_set() {
    let mut wf: Workflow<PlainNode> = Workflow::new();
    wf.add_step("bump", create_node(bump_count as fn(Store) -> Store));
    let bf = BatchFlow::new(wf);
    let out = bf.run(
        Store::new(),
        vec![
            vec![("a".to_string(), Value::Int(1))],
            vec![("b".to_string(), Value::Int(2))],
        ],
    );
    assert_eq!(out.get("count").unwrap().as_int(), Some(2));
    assert_eq!(out.get("a").unwrap().as_int(), Some(1));
    assert_eq!(out.get("b").unwrap().as_int(), Some(2));
}

#[test]
fn batchflow_params_do_not_overwrite() {
    let mut wf: Workflow<PlainNode> = Workflow::new();
    wf.add_step("bump", create_node(bump_count as fn(Store) -> Store));
    let bf = BatchFlow::new(wf);
    let mut store = Store::new();
    store.set("a", Value::Int(7));
    let out = bf.run(store, vec![vec![("a".to_string(), Value::Int(1))]]);
    assert_eq!(out.get("a").unwrap().as_int(), Some(7));
}

#[test]
fn mapreduce_sums_mapped_lengths() {
    let mapper = Batch::new(create_node(measure_input_field as fn(Store) -> Store));
    let reducer = create_batch_node(sum_lens as fn(Vec<Store>) -> Store);
    let mr = MapReduce::new(mapper, reducer);
    let mut inputs = Vec::new();
    for text in ["ab", "abc", "a"] {
        let mut s = Store::new();
        s.set("input_field", Value::Str(text.to_string()));
        inputs.push(s);
    }
    let out = mr.run(inputs);
    assert_eq!(out.get("sum").unwrap().as_int(), Some(6));
}

#[test]
fn multi_agent_writes_disjoint_keys() {
    let mut group: MultiAgent<PlainNode> = MultiAgent::new();
    group.add_agent(create_node(write_x as fn(Store) -> Store));
    group.add_agent(create_node(write_y as fn(Store) -> Store));
    group.add_agent(create_node(write_z as fn(Store) -> Store));
    let out = group.run(Store::new());
    assert_eq!(out.get("x").unwrap().as_int(), Some(1));
    assert_eq!(out.get("y").unwrap().as_int(), Some(2));
    assert_eq!(out.get("z").unwrap().as_int(), Some(3));
}

fn retrieve(store: Store) -> Store {
    let mut store = store;
    store.set("docs", Value::Str("doc-1".to_string()));
    store
}

fn generate(store: Store) -> Store {
    let mut store = store;
    let docs = store
        .get("docs")
        .and_then(|v| v.as_str().cloned())
        .unwrap_or_default();
    store.set("answer", Value::Str(format!("answer from {}", docs)));
    store
}

#[test]
fn rag_runs_retriever_then_generator() {
    let rag = Rag::new(
        create_node(retrieve as fn(Store) -> Store),
        create_node(generate as fn(Store) -> Store),
    );
    let out = rag.ask(Store::new());
    assert_eq!(
        out.get("answer").unwrap().as_str().unwrap().as_str(),
        "answer from doc-1",
    );
}

#[test]
fn structured_output_accepts_matching_state() {
    let mut so = StructuredOutput::new(create_node(write_x as fn(Store) -> Store));
    so.require_field("x".to_string(), ValueKind::Int);
    let result = so.generate(Store::new());
    let out = result.unwrap();
    assert_eq!(out.get("x").unwrap().as_int(), Some(1));
}

#[test]
fn structured_output_reports_missing_field() {
    let mut so = StructuredOutput::new(create_node(write_x as fn(Store) -> Store));
    so.require_field("name".to_string(), ValueKind::Str);
    match so.generate(Store::new()) {
        Err(SchemaError::Missing(key)) => assert_eq!(key, "name"),
        _ => panic!("expected a missing-field error"),
    }
}

#[test]
fn structured_output_reports_wrong_kind() {
    let mut so = StructuredOutput::new(create_node(write_x as fn(Store) -> Store));
    so.require_field("x".to_string(), ValueKind::Str);
    match so.generate(Store::new()) {
        Err(SchemaError::WrongKind(key)) => assert_eq!(key, "x"),
        _ => panic!("expected a wrong-kind error"),
    }
}

#[test]
fn structured_output_node_call_surfaces_error_in_state() {
    let mut so = StructuredOutput::new(create_node(write_x as fn(Store) -> Store));
    so.require_field("age".to_string(), ValueKind::Int);
    let out = so.call(Store::new());
    assert_eq!(
        out.get("error").unwrap().as_str().unwrap().as_str(),
        "missing required field: age",
    );
}

#[test]
fn mock_llm_echoes_prompt() {
    let node = create_mock_llm_node();
    let mut store = Store::new();
    store.set("prompt", Value::Str("hi".to_string()));
    let out = node.call(store);
    assert_eq!(
        out.get("response").unwrap().as_str().unwrap().as_str(),
        "Mock response to: 'hi'",
    );
    let out2 = create_mock_llm_node().call(Store::new());
    assert_eq!(
        out2.get("response").unwrap().as_str().unwrap().as_str(),
        "Mock response to: ''",
    );
}

#[test]
fn search_placeholders_write_example_results() {
    let search = create_google_search_node("example-key".to_string());
    let out = search.call(Store::new());
    let results = out.get("search_results").unwrap().as_arr().unwrap();
    assert_eq!(results.len(), 2);
    assert_eq!(results[0].as_str().unwrap().as_str(), "Example result 1");
    let vector = create_vector_search_node();
    let out2 = vector.call(Store::new());
    let docs = out2.get("similar_docs").unwrap().as_arr().unwrap();
    assert_eq!(docs[1].as_str().unwrap().as_str(), "Similar document 2");
}

#[test]
fn chunking_splits_text_by_character_count() {
    let node = create_chunking_node(3);
    let mut store = Store::new();
    store.set("text", Value::Str("abcdefg".to_string()));
    let out = node.call(store);
    let chunks = out.get("chunks").unwrap().as_arr().unwrap();
    let pieces: Vec<&str> = chunks.iter().map(|c| c.as_str().unwrap().as_str()).collect();
    assert_eq!(pieces, vec!["abc", "def", "g"]);
}

#[test]
fn chunking_of_empty_text_is_empty() {
    let node = create_chunking_node(4);
    let out = node.call(Store::new());
    assert!(out.get("chunks").unwrap().as_arr().unwrap().is_empty());
}

#[test]
fn workflow_as_node_skips_param_merge() {
    let mut wf: Workflow<PlainNode> = Workflow::new();
    wf.add_step("only", create_node(write_x as fn(Store) -> Store));
    wf.set_params(vec![("p".to_string(), Value::Int(1))]);
    let out = wf.call(Store::new());
    assert_eq!(out.get("x").unwrap().as_int(), Some(1));
    assert!(!out.contains_key("p"));
}

#[test]
fn agent_as_node_delegates_without_retry() {
    let calls = Rc::new(Cell::new(0i64));
    let seen = calls.clone();
    let agent = Agent::with_retry(
        create_node(move |store: Store| {
            let mut store = store;
            seen.set(seen.get() + 1);
            store.set("error", Value::Str("kept".to_string()));
            store
        }),
        4,
        0,
    )
    .with_policy(RetryPolicy::UntilNoError);
    let out = agent.call(Store::new());
    assert_eq!(calls.get(), 1);
    assert!(out.contains_key("error"));
}

#[test]
fn structured_output_empty_schema_accepts_everything() {
    let so = StructuredOutput::new(create_node(write_x as fn(Store) -> Store));
    assert!(so.generate(Store::new()).is_ok());
}
