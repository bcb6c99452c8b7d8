//! Schema-checked output: runs a node and validates the state it returns
//! against a declared shape, surfacing a distinct error on mismatch.

use vstd::prelude::*;

use crate::agent::error_key;
use crate::node::Node;
use crate::store::Store;
use crate::value::{SpecValue, Value};

verus! {

/// The kind of value a schema field requires.
#[derive(Clone, Copy, PartialEq, Eq, Structural)]
pub enum ValueKind {
    Null,
    Bool,
    Int,
    Str,
    Arr,
    Obj,
}

/// True if the value has the given kind.
pub open spec fn kind_matches(v: SpecValue, k: ValueKind) -> bool {
    match k {
        ValueKind::Null => v is Null,
        ValueKind::Bool => v is Bool,
        ValueKind::Int => v is Int,
        ValueKind::Str => v is Str,
        ValueKind::Arr => v is Arr,
        ValueKind::Obj => v is Obj,
    }
}

/// A schema violation in a node's output.
#[derive(Debug)]
pub enum SchemaError {
    /// The required key is absent.
    Missing(String),
    /// The key holds a value of the wrong kind.
    WrongKind(String),
}

impl SchemaError {
    /// A description of the violation.
    pub open spec fn spec_message(self) -> Seq<char> {
        match self {
            SchemaError::Missing(k) => "missing required field: "@ + k@,
            SchemaError::WrongKind(k) => "wrong kind for field: "@ + k@,
        }
    }

    /// Describes the violation.
    pub fn message(&self) -> (r: String)
        ensures
            r@ == self.spec_message(),
    {
        match self {
            SchemaError::Missing(k) => {
                let mut s = "missing required field: ".to_owned();
                s.append(k.as_str());
                s
            },
            SchemaError::WrongKind(k) => {
                let mut s = "wrong kind for field: ".to_owned();
                s.append(k.as_str());
                s
            },
        }
    }
}

/// The first of the first `n` schema entries that `m` violates, if any:
/// an entry is violated when its key is absent or holds the wrong kind.
pub open spec fn first_violation(
    m: Map<Seq<char>, SpecValue>,
    schema: Seq<(String, ValueKind)>,
    n: int,
) -> Option<SchemaError>
    decreases n,
{
    if n <= 0 {
        None
    } else {
        match first_violation(m, schema, n - 1) {
            Some(e) => Some(e),
            None => if !m.contains_key(schema[n - 1].0@) {
                Some(SchemaError::Missing(schema[n - 1].0))
            } else if !kind_matches(m[schema[n - 1].0@], schema[n - 1].1) {
                Some(SchemaError::WrongKind(schema[n - 1].0))
            } else {
                None
            },
        }
    }
}

/// A violation found among the first entries stays the violation found
/// among any more entries.
proof fn lemma_violation_persists(
    m: Map<Seq<char>, SpecValue>,
    schema: Seq<(String, ValueKind)>,
    n1: int,
    n2: int,
)
    requires
        0 <= n1 <= n2,
        first_violation(m, schema, n1) is Some,
    ensures
        first_violation(m, schema, n2) == first_violation(m, schema, n1),
    decreases n2 - n1,
{
    if n1 < n2 {
        lemma_violation_persists(m, schema, n1, n2 - 1);
    }
}

/// True if the value under `key` has kind `k`.
fn check_kind(store: &Store, key: &str, k: ValueKind) -> (r: Option<bool>)
    ensures
        match r {
            Some(b) => store@.contains_key(key@) && b == kind_matches(store@[key@], k),
            None => !store@.contains_key(key@),
        },
{
    match store.get(key) {
        None => None,
        Some(v) => Some(
            match (v, k) {
                (Value::Null, ValueKind::Null) => true,
                (Value::Bool(_), ValueKind::Bool) => true,
                (Value::Int(_), ValueKind::Int) => true,
                (Value::Str(_), ValueKind::Str) => true,
                (Value::Arr(_), ValueKind::Arr) => true,
                (Value::Obj(_), ValueKind::Obj) => true,
                _ => false,
            },
        ),
    }
}

/// The first schema entry `store` violates, if any.
fn check_schema(store: &Store, schema: &Vec<(String, ValueKind)>) -> (r: Option<SchemaError>)
    ensures
        match r {
            Some(e) => first_violation(store@, schema@, schema@.len() as int) == Some(e),
            None => first_violation(store@, schema@, schema@.len() as int) is None,
        },
{
    let mut i: usize = 0;
    while i < schema.len()
        invariant
            i <= schema@.len(),
            first_violation(store@, schema@, i as int) is None,
        decreases schema@.len() - i,
    {
        let pair = &schema[i];
        let err: Option<SchemaError> = match check_kind(store, pair.0.as_str(), pair.1) {
            None => Some(SchemaError::Missing(pair.0.clone())),
            Some(false) => Some(SchemaError::WrongKind(pair.0.clone())),
            Some(true) => None,
        };
        match err {
            Some(e) => {
                proof {
                    assert(first_violation(store@, schema@, i + 1) == Some(e));
                    lemma_violation_persists(store@, schema@, i + 1, schema@.len() as int);
                }
                return Some(e);
            },
            None => {
            },
        }
        i += 1;
    }
    None
}

/// Wraps a node and validates the state it returns against a declared
/// shape: each schema entry names a key that must be present with the
/// given kind.
pub struct StructuredOutput<N> {
    /// The wrapped node.
    pub node: N,
    /// The required fields, checked in order.
    pub schema: Vec<(String, ValueKind)>,
}

impl<N> StructuredOutput<N> {
    /// Wraps a node with an empty schema, which accepts every state.
    pub fn new(node: N) -> (s: Self)
        ensures
            s.node == node,
            s.schema@ =~= Seq::<(String, ValueKind)>::empty(),
    {
        StructuredOutput { node, schema: Vec::new() }
    }

    /// Requires `key` to be present with kind `kind`.
    pub fn require_field(&mut self, key: String, kind: ValueKind)
        ensures
            final(self).node == old(self).node,
            final(self).schema@ == old(self).schema@.push((key, kind)),
    {
        self.schema.push((key, kind));
    }
}

impl<N: Node<Store, Store>> StructuredOutput<N> {
    /// Runs the node and validates its output: the state on success, or
    /// the first schema violation.
    pub fn generate(&self, store: Store) -> (result: Result<Store, SchemaError>)
        requires
            self.node.pre(store),
        ensures
            exists|raw: Store|
                #[trigger] self.node.post(store, raw) && result == (
                match first_violation(raw@, self.schema@, self.schema@.len() as int) {
                    None => Result::<Store, SchemaError>::Ok(raw),
                    Some(e) => Result::<Store, SchemaError>::Err(e),
                }),
    {
        let raw = self.node.call(store);
        match check_schema(&raw, &self.schema) {
            None => Ok(raw),
            Some(e) => Err(e),
        }
    }
}

impl<N: Node<Store, Store>> Node<Store, Store> for StructuredOutput<N> {
    open spec fn pre(&self, input: Store) -> bool {
        self.node.pre(input)
    }

    open spec fn post(&self, input: Store, output: Store) -> bool {
        exists|raw: Store|
            #[trigger] self.node.post(input, raw) && (
            match first_violation(raw@, self.schema@, self.schema@.len() as int) {
                None => output == raw,
                Some(e) => output@ == raw@.insert(
                    error_key(),
                    SpecValue::Str(e.spec_message()),
                ),
            })
    }

    /// Runs the node; on a schema violation the violation's description is
    /// written into the state under the reserved error key.
    fn call(&self, input: Store) -> (output: Store) {
        let raw = self.node.call(input);
        match check_schema(&raw, &self.schema) {
            None => raw,
            Some(e) => {
                let mut out = raw;
                out.set("error", Value::Str(e.message()));
                out
            },
        }
    }
}

} // verus!
