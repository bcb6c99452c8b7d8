use agentflow::{Store, Value};

#[test]
fn set_get_roundtrip() {
    let mut s = Store::new();
    assert!(s.is_empty());
    s.set("k", Value::Int(7));
    assert!(s.contains_key("k"));
    assert_eq!(s.len(), 1);
    assert_eq!(s.get("k").unwrap().as_int(), Some(7));
    assert!(s.get("missing").is_none());
}

#[test]
fn set_overwrites() {
    let mut s = Store::new();
    s.set("k", Value::Int(1));
    s.set("k", Value::Str("two".to_string()));
    assert_eq!(s.len(), 1);
    assert_eq!(s.get("k").unwrap().as_str().unwrap().as_str(), "two");
}

#[test]
fn remove_deletes_key() {
    let mut s = Store::new();
    s.set("a", Value::Int(1));
    s.set("b", Value::Int(2));
    s.remove("a");
    assert!(!s.contains_key("a"));
    assert!(s.contains_key("b"));
    assert_eq!(s.len(), 1);
    s.remove("not-there");
    assert_eq!(s.len(), 1);
}

#[test]
fn keys_lists_every_key_once() {
    let mut s = Store::new();
    s.set("a", Value::Int(1));
    s.set("b", Value::Int(2));
    s.set("a", Value::Int(3));
    let mut keys: Vec<String> = s.keys().clone();
    keys.sort();
    assert_eq!(keys, vec!["a".to_string(), "b".to_string()]);
}

#[test]
fn clone_snapshot_is_independent() {
    let mut s = Store::new();
    s.set("a", Value::Int(1));
    let mut copy = s.clone_snapshot();
    assert_eq!(copy.get("a").unwrap().as_int(), Some(1));
    copy.set("a", Value::Int(99));
    copy.set("b", Value::Bool(true));
    assert_eq!(s.get("a").unwrap().as_int(), Some(1));
    assert!(!s.contains_key("b"));
}

#[test]
fn value_accessors_report_kinds() {
    assert_eq!(Value::Int(5).as_int(), Some(5));
    assert_eq!(Value::Bool(true).as_bool(), Some(true));
    assert!(Value::Null.is_null());
    assert_eq!(Value::Str("x".to_string()).as_str().unwrap().as_str(), "x");
    assert!(Value::Int(5).as_str().is_none());
    assert!(Value::Null.as_arr().is_none());
    let arr = Value::Arr(vec![Value::Int(1), Value::Int(2)]);
    assert_eq!(arr.as_arr().unwrap().len(), 2);
}

#[test]
fn obj_get_finds_first_entry() {
    let obj = Value::Obj(vec![
        ("x".to_string(), Value::Int(1)),
        ("y".to_string(), Value::Int(2)),
        ("x".to_string(), Value::Int(3)),
    ]);
    assert_eq!(obj.obj_get("x").unwrap().as_int(), Some(1));
    assert_eq!(obj.obj_get("y").unwrap().as_int(), Some(2));
    assert!(obj.obj_get("z").is_none());
    assert!(Value::Int(0).obj_get("x").is_none());
}

#[test]
fn value_clone_is_deep() {
    let original = Value::Obj(vec![
        ("list".to_string(), Value::Arr(vec![Value::Int(1), Value::Str("s".to_string())])),
        ("flag".to_string(), Value::Bool(false)),
    ]);
    let copy = original.clone();
    let list = copy.obj_get("list").unwrap().as_arr().unwrap();
    assert_eq!(list[0].as_int(), Some(1));
    assert_eq!(list[1].as_str().unwrap().as_str(), "s");
    assert_eq!(copy.obj_get("flag").unwrap().as_bool(), Some(false));
}
