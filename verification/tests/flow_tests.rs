use agentflow::{create_node, Flow, FnNode, Node, Store, Value};

type PlainNode = FnNode<fn(Store) -> Store>;

fn append_visit(store: Store, tag: &str) -> Store {
    let mut store = store;
    let mut visited = match store.get("visited") {
        Some(v) => v.as_str().cloned().unwrap_or_default(),
        None => String::new(),
    };
    visited.push_str(tag);
    store.set("visited", Value::Str(visited));
    store
}

fn node_a(store: Store) -> Store {
    append_visit(store, "A")
}

fn node_b(store: Store) -> Store {
    append_visit(store, "B")
}

fn node_c(store: Store) -> Store {
    append_visit(store, "C")
}

fn node_branching(store: Store) -> Store {
    let mut store = store;
    store.set("action", Value::Str("left".to_string()));
    store
}

fn node_odd_action(store: Store) -> Store {
    let mut store = store;
    store.set("action", Value::Str("nowhere".to_string()));
    store
}

#[test]
fn chain_visits_in_order_and_strips_action() {
    let mut flow: Flow<PlainNode> = Flow::new();
    flow.add_node("a", create_node(node_a as fn(Store) -> Store));
    flow.add_node("b", create_node(node_b as fn(Store) -> Store));
    flow.add_node("c", create_node(node_c as fn(Store) -> Store));
    flow.add_edge("a", "default", "b");
    flow.add_edge("b", "default", "c");
    let out = flow.run(Store::new());
    assert_eq!(out.get("visited").unwrap().as_str().unwrap().as_str(), "ABC");
    assert!(!out.contains_key("action"));
}

#[test]
fn unmatched_action_halts_with_action_removed() {
    let mut flow: Flow<PlainNode> = Flow::new();
    flow.add_node("a", create_node(node_odd_action as fn(Store) -> Store));
    flow.add_node("b", create_node(node_b as fn(Store) -> Store));
    flow.add_edge("a", "default", "b");
    let out = flow.run(Store::new());
    assert!(!out.contains_key("action"));
    assert!(!out.contains_key("visited"));
}

#[test]
fn no_start_returns_state_unchanged() {
    let flow: Flow<PlainNode> = Flow::new();
    let mut store = Store::new();
    store.set("action", Value::Str("kept".to_string()));
    store.set("data", Value::Int(4));
    let out = flow.run(store);
    assert_eq!(out.get("action").unwrap().as_str().unwrap().as_str(), "kept");
    assert_eq!(out.get("data").unwrap().as_int(), Some(4));
}

#[test]
fn action_label_selects_edge() {
    let mut flow: Flow<PlainNode> = Flow::new();
    flow.add_node("router", create_node(node_branching as fn(Store) -> Store));
    flow.add_node("left", create_node(node_a as fn(Store) -> Store));
    flow.add_node("right", create_node(node_b as fn(Store) -> Store));
    flow.add_edge("router", "left", "left");
    flow.add_edge("router", "right", "right");
    let out = flow.run(Store::new());
    assert_eq!(out.get("visited").unwrap().as_str().unwrap().as_str(), "A");
}

#[test]
fn missing_target_node_halts() {
    let mut flow: Flow<PlainNode> = Flow::new();
    flow.add_node("a", create_node(node_a as fn(Store) -> Store));
    flow.add_edge("a", "default", "ghost-step");
    let out = flow.run(Store::new());
    assert_eq!(out.get("visited").unwrap().as_str().unwrap().as_str(), "A");
    assert!(!out.contains_key("action"));
}

#[test]
fn duplicate_edge_overwrites() {
    let mut flow: Flow<PlainNode> = Flow::new();
    flow.add_node("a", create_node(node_a as fn(Store) -> Store));
    flow.add_node("b", create_node(node_b as fn(Store) -> Store));
    flow.add_node("c", create_node(node_c as fn(Store) -> Store));
    flow.add_edge("a", "default", "b");
    flow.add_edge("a", "default", "c");
    assert_eq!(flow.get_next_step("a", "default").unwrap(), "c");
    let out = flow.run(Store::new());
    assert_eq!(out.get("visited").unwrap().as_str().unwrap().as_str(), "AC");
}

#[test]
fn get_node_and_next_step_introspection() {
    let mut flow: Flow<PlainNode> = Flow::new();
    flow.add_node("a", create_node(node_a as fn(Store) -> Store));
    flow.add_edge("a", "go", "b");
    assert!(flow.get_node("a").is_some());
    assert!(flow.get_node("b").is_none());
    assert_eq!(flow.get_next_step("a", "go").unwrap(), "b");
    assert!(flow.get_next_step("a", "stop").is_none());
}

#[test]
fn step_limit_stops_cycles() {
    let mut flow: Flow<PlainNode> = Flow::new();
    flow.add_node("a", create_node(node_a as fn(Store) -> Store));
    flow.add_edge("a", "default", "a");
    flow.set_step_limit(5);
    let out = flow.run(Store::new());
    assert_eq!(out.get("visited").unwrap().as_str().unwrap().as_str(), "AAAAA");
    assert!(!out.contains_key("action"));
}

#[test]
fn flow_runs_as_node() {
    let mut inner: Flow<PlainNode> = Flow::new();
    inner.add_node("a", create_node(node_a as fn(Store) -> Store));
    let out = inner.call(Store::new());
    assert_eq!(out.get("visited").unwrap().as_str().unwrap().as_str(), "A");
}

fn node_int_action(store: Store) -> Store {
    let mut store = store;
    store.set("action", Value::Int(7));
    store
}

#[test]
fn non_string_action_routes_as_default() {
    let mut flow: Flow<PlainNode> = Flow::new();
    flow.add_node("a", create_node(node_int_action as fn(Store) -> Store));
    flow.add_node("b", create_node(node_b as fn(Store) -> Store));
    flow.add_edge("a", "default", "b");
    let out = flow.run(Store::new());
    assert_eq!(out.get("visited").unwrap().as_str().unwrap().as_str(), "B");
    assert!(!out.contains_key("action"));
}

#[test]
fn pass_node_returns_input_unchanged() {
    let node = agentflow::PassNode;
    let mut store = Store::new();
    store.set("k", Value::Int(1));
    let out = node.call(store);
    assert_eq!(out.get("k").unwrap().as_int(), Some(1));
    assert_eq!(out.len(), 1);
}
