//! A named-step pipeline over a flow, with default parameters merged into
//! the state before a run and step introspection for drivers that walk the
//! graph one step at a time.

use vstd::prelude::*;

use crate::flow::Flow;
use crate::node::Node;
use crate::store::Store;
use crate::value::{SpecValue, Value};

verus! {

/// The first `n` of `params` folded into `m`: a parameter is added only
/// where its key is not already present, and an earlier parameter wins
/// over a later one with the same key.
pub open spec fn merge_defaults(
    m: Map<Seq<char>, SpecValue>,
    params: Seq<(String, Value)>,
    n: int,
) -> Map<Seq<char>, SpecValue>
    decreases n,
{
    if n <= 0 {
        m
    } else {
        let prev = merge_defaults(m, params, n - 1);
        if prev.contains_key(params[n - 1].0@) {
            prev
        } else {
            prev.insert(params[n - 1].0@, params[n - 1].1@)
        }
    }
}

/// Adds each parameter to `store` unless its key is already present.
pub fn merge_params(store: Store, params: &Vec<(String, Value)>) -> (r: Store)
    ensures
        r@ == merge_defaults(store@, params@, params@.len() as int),
{
    let ghost m0 = store@;
    let mut store = store;
    let mut i: usize = 0;
    while i < params.len()
        invariant
            i <= params@.len(),
            store@ == merge_defaults(m0, params@, i as int),
        decreases params@.len() - i,
    {
        let pair = &params[i];
        if !store.contains_key(pair.0.as_str()) {
            store.set(pair.0.as_str(), pair.1.clone());
        }
        i += 1;
    }
    store
}

/// A workflow: a flow plus a set of default parameters that are merged
/// into the state (without overwriting) before each full run.
pub struct Workflow<N> {
    /// The underlying graph of steps.
    pub flow: Flow<N>,
    /// Defaults merged into the state before a run.
    pub params: Vec<(String, Value)>,
}

impl<N> Workflow<N> {
    /// Creates an empty workflow.
    pub fn new() -> (w: Self)
        ensures
            w.flow.spec_start() is None,
            forall|n: Seq<char>| w.flow.spec_get_node(n) is None,
            forall|fr: Seq<char>, a: Seq<char>| w.flow.spec_next(fr, a) is None,
            w.flow.spec_step_limit() == usize::MAX,
            w.params@ =~= Seq::<(String, Value)>::empty(),
    {
        Workflow { flow: Flow::new(), params: Vec::new() }
    }

    /// Creates a workflow whose first step is `name`.
    pub fn with_start(name: &str, node: N) -> (w: Self)
        ensures
            w.flow.spec_start() == Some(name@),
            w.flow.spec_get_node(name@) == Some(node),
            forall|n: Seq<char>| n != name@ ==> w.flow.spec_get_node(n) is None,
            forall|fr: Seq<char>, a: Seq<char>| w.flow.spec_next(fr, a) is None,
            w.flow.spec_step_limit() == usize::MAX,
            w.params@ =~= Seq::<(String, Value)>::empty(),
    {
        Workflow { flow: Flow::with_start(name, node), params: Vec::new() }
    }

    /// Adds a step; the first step added becomes the start.
    pub fn add_step(&mut self, name: &str, node: N)
        ensures
            final(self).flow.spec_get_node(name@) == Some(node),
            forall|n: Seq<char>|
                n != name@
                    ==> final(self).flow.spec_get_node(n) == old(self).flow.spec_get_node(n),
            forall|fr: Seq<char>, a: Seq<char>|
                final(self).flow.spec_next(fr, a) == old(self).flow.spec_next(fr, a),
            final(self).flow.spec_start() == if old(self).flow.spec_start() is Some {
                old(self).flow.spec_start()
            } else {
                Some(name@)
            },
            final(self).flow.spec_step_limit() == old(self).flow.spec_step_limit(),
            final(self).params == old(self).params,
    {
        self.flow.add_node(name, node);
    }

    /// Connects two steps under the default action label.
    pub fn connect(&mut self, from: &str, to: &str)
        ensures
            final(self).flow.spec_next(from@, crate::flow::default_action()) == Some(to@),
            forall|fr: Seq<char>, a: Seq<char>|
                fr != from@ || a != crate::flow::default_action()
                    ==> final(self).flow.spec_next(fr, a) == old(self).flow.spec_next(fr, a),
            forall|n: Seq<char>|
                final(self).flow.spec_get_node(n) == old(self).flow.spec_get_node(n),
            final(self).flow.spec_start() == old(self).flow.spec_start(),
            final(self).flow.spec_step_limit() == old(self).flow.spec_step_limit(),
            final(self).params == old(self).params,
    {
        self.flow.add_edge(from, "default", to);
    }

    /// Connects two steps under a chosen action label.
    pub fn connect_with_action(&mut self, from: &str, action: &str, to: &str)
        ensures
            final(self).flow.spec_next(from@, action@) == Some(to@),
            forall|fr: Seq<char>, a: Seq<char>|
                fr != from@ || a != action@
                    ==> final(self).flow.spec_next(fr, a) == old(self).flow.spec_next(fr, a),
            forall|n: Seq<char>|
                final(self).flow.spec_get_node(n) == old(self).flow.spec_get_node(n),
            final(self).flow.spec_start() == old(self).flow.spec_start(),
            final(self).flow.spec_step_limit() == old(self).flow.spec_step_limit(),
            final(self).params == old(self).params,
    {
        self.flow.add_edge(from, action, to);
    }

    /// Replaces the default parameters.
    pub fn set_params(&mut self, params: Vec<(String, Value)>)
        ensures
            final(self).params == params,
            final(self).flow == old(self).flow,
    {
        self.params = params;
    }

    /// The node behind a step name, if any.
    pub fn get_node(&self, name: &str) -> (r: Option<&N>)
        ensures
            match r {
                Some(n) => self.flow.spec_get_node(name@) == Some(*n),
                None => self.flow.spec_get_node(name@) is None,
            },
    {
        self.flow.get_node(name)
    }

    /// The step that `(from, action)` leads to, if any.
    pub fn get_next_step(&self, from: &str, action: &str) -> (r: Option<String>)
        ensures
            match r {
                Some(next) => self.flow.spec_next(from@, action@) == Some(next@),
                None => self.flow.spec_next(from@, action@) is None,
            },
    {
        self.flow.get_next_step(from, action)
    }
}

impl<N: Node<Store, Store>> Workflow<N> {
    /// Merges the default parameters into the state without overwriting,
    /// then runs the flow on the merged state.
    pub fn execute(&self, store: Store) -> (output: Store)
        requires
            self.flow.nodes_total(),
        ensures
            exists|merged: Store|
                merged@ == merge_defaults(store@, self.params@, self.params@.len() as int)
                    && #[trigger] self.flow.flow_post(merged, output),
    {
        let merged = merge_params(store, &self.params);
        self.flow.run(merged)
    }
}

impl<N: Node<Store, Store>> Node<Store, Store> for Workflow<N> {
    open spec fn pre(&self, input: Store) -> bool {
        self.flow.nodes_total()
    }

    open spec fn post(&self, input: Store, output: Store) -> bool {
        self.flow.flow_post(input, output)
    }

    fn call(&self, input: Store) -> (output: Store) {
        self.flow.run(input)
    }
}

impl<N> Default for Workflow<N> {
    /// An empty workflow.
    fn default() -> (w: Self)
        ensures
            w.flow.spec_start() is None,
            forall|n: Seq<char>| w.flow.spec_get_node(n) is None,
            forall|fr: Seq<char>, a: Seq<char>| w.flow.spec_next(fr, a) is None,
            w.params@ =~= Seq::<(String, Value)>::empty(),
    {
        Workflow::new()
    }
}

} // verus!
