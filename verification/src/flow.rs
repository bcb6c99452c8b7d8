//! The graph engine: named nodes connected by labeled edges ("actions"),
//! executed by following, after each node call, the edge selected by the
//! action label the node wrote into the state.

use vstd::prelude::*;

use crate::node::Node;
use crate::store::Store;
use crate::value::str_eq;

verus! {

/// The reserved state key that carries the action label.
pub open spec fn action_key() -> Seq<char> {
    "action"@
}

/// The label assumed when a node does not set one.
pub open spec fn default_action() -> Seq<char> {
    "default"@
}

/// The action label carried by a state: the string under the reserved key,
/// or the default label when that key is absent or not a string.
pub open spec fn spec_action_of(m: Map<Seq<char>, crate::value::SpecValue>) -> Seq<char> {
    if m.contains_key(action_key()) && m[action_key()] is Str {
        m[action_key()]->Str_0
    } else {
        default_action()
    }
}

/// Reads the action label from a store.
pub fn action_of(store: &Store) -> (r: String)
    ensures
        r@ == spec_action_of(store@),
{
    match store.get("action") {
        Some(v) => match v.as_str() {
            Some(s) => s.clone(),
            None => "default".to_owned(),
        },
        None => "default".to_owned(),
    }
}

/// A node accepting every state, so it can run anywhere in a graph.
pub open spec fn node_total<M: Node<Store, Store>>(n: M) -> bool {
    forall|s: Store| #[trigger] n.pre(s)
}

/// The state a run step starts from: the input for the first step, and the
/// previous step's result afterwards.
pub open spec fn store_before(input: Store, tr: Seq<(Seq<char>, Store)>, k: int) -> Store {
    if k == 0 {
        input
    } else {
        tr[k - 1].1
    }
}

/// A directed graph whose vertices are nodes under unique string names and
/// whose edges carry action labels; at most one edge leaves a vertex per
/// label (adding another replaces it). Execution starts at the first node
/// added and follows, after each call, the edge labeled with the action the
/// state carries; it halts when no such edge exists. Cycles are legal, so a
/// run is bounded by a step limit, by default the largest `usize`.
pub struct Flow<N> {
    nodes: Vec<(String, N)>,
    edges: Vec<(String, String, String)>,
    start: Option<String>,
    step_limit: usize,
}

impl<N> Flow<N> {
    /// The newest entry for `name`, scanning entries from most recent.
    spec fn last_node(s: Seq<(String, N)>, name: Seq<char>) -> Option<N>
        decreases s.len(),
    {
        if s.len() == 0 {
            None
        } else if s.last().0@ == name {
            Some(s.last().1)
        } else {
            Self::last_node(s.drop_last(), name)
        }
    }

    /// The newest target for `(from, action)`, scanning entries from most
    /// recent.
    spec fn last_edge(
        s: Seq<(String, String, String)>,
        from: Seq<char>,
        action: Seq<char>,
    ) -> Option<Seq<char>>
        decreases s.len(),
    {
        if s.len() == 0 {
            None
        } else if s.last().0@ == from && s.last().1@ == action {
            Some(s.last().2@)
        } else {
            Self::last_edge(s.drop_last(), from, action)
        }
    }

    /// The node registered under `name`, if any.
    pub closed spec fn spec_get_node(self, name: Seq<char>) -> Option<N> {
        Self::last_node(self.nodes@, name)
    }

    /// The vertex that the edge `(from, action)` leads to, if any.
    pub closed spec fn spec_next(self, from: Seq<char>, action: Seq<char>) -> Option<Seq<char>> {
        Self::last_edge(self.edges@, from, action)
    }

    /// The name of the start vertex, if one was added.
    pub closed spec fn spec_start(self) -> Option<Seq<char>> {
        match self.start {
            Some(s) => Some(s@),
            None => None,
        }
    }

    /// The largest number of node calls one run may make.
    pub closed spec fn spec_step_limit(self) -> usize {
        self.step_limit
    }

    /// Creates an empty flow: no nodes, no edges, no start vertex.
    pub fn new() -> (f: Flow<N>)
        ensures
            f.spec_start() is None,
            forall|n: Seq<char>| f.spec_get_node(n) is None,
            forall|fr: Seq<char>, a: Seq<char>| f.spec_next(fr, a) is None,
            f.spec_step_limit() == usize::MAX,
    {
        Flow { nodes: Vec::new(), edges: Vec::new(), start: None, step_limit: usize::MAX }
    }

    /// Creates a flow whose start vertex is `name`, holding `node`.
    pub fn with_start(name: &str, node: N) -> (f: Flow<N>)
        ensures
            f.spec_start() == Some(name@),
            f.spec_get_node(name@) == Some(node),
            forall|n: Seq<char>| n != name@ ==> f.spec_get_node(n) is None,
            forall|fr: Seq<char>, a: Seq<char>| f.spec_next(fr, a) is None,
            f.spec_step_limit() == usize::MAX,
    {
        let mut f = Self::new();
        f.add_node(name, node);
        f
    }

    /// Adds `node` under `name`, replacing any node of that name; the first
    /// node added becomes the start vertex.
    pub fn add_node(&mut self, name: &str, node: N)
        ensures
            final(self).spec_get_node(name@) == Some(node),
            forall|n: Seq<char>|
                n != name@ ==> final(self).spec_get_node(n) == old(self).spec_get_node(n),
            forall|fr: Seq<char>, a: Seq<char>|
                final(self).spec_next(fr, a) == old(self).spec_next(fr, a),
            final(self).spec_start() == if old(self).spec_start() is Some {
                old(self).spec_start()
            } else {
                Some(name@)
            },
            final(self).spec_step_limit() == old(self).spec_step_limit(),
    {
        if self.start.is_none() {
            self.start = Some(name.to_owned());
        }
        self.nodes.push((name.to_owned(), node));
        proof {
            assert(self.nodes@.drop_last() =~= old(self).nodes@);
            assert forall|n: Seq<char>| n != name@ implies
                final(self).spec_get_node(n) == old(self).spec_get_node(n) by {
                assert(Self::last_node(self.nodes@, n)
                    == Self::last_node(old(self).nodes@, n));
            }
        }
    }

    /// Connects `from` to `to` under the label `action`, replacing any
    /// previous edge with that source and label.
    pub fn add_edge(&mut self, from: &str, action: &str, to: &str)
        ensures
            final(self).spec_next(from@, action@) == Some(to@),
            forall|fr: Seq<char>, a: Seq<char>|
                fr != from@ || a != action@
                    ==> final(self).spec_next(fr, a) == old(self).spec_next(fr, a),
            forall|n: Seq<char>| final(self).spec_get_node(n) == old(self).spec_get_node(n),
            final(self).spec_start() == old(self).spec_start(),
            final(self).spec_step_limit() == old(self).spec_step_limit(),
    {
        self.edges.push((from.to_owned(), action.to_owned(), to.to_owned()));
        proof {
            assert(self.edges@.drop_last() =~= old(self).edges@);
            assert forall|fr: Seq<char>, a: Seq<char>| fr != from@ || a != action@ implies
                final(self).spec_next(fr, a) == old(self).spec_next(fr, a) by {
                assert(Self::last_edge(self.edges@, fr, a)
                    == Self::last_edge(old(self).edges@, fr, a));
            }
        }
    }

    /// Bounds the number of node calls a run may make before stopping.
    pub fn set_step_limit(&mut self, limit: usize)
        ensures
            final(self).spec_step_limit() == limit,
            forall|n: Seq<char>| final(self).spec_get_node(n) == old(self).spec_get_node(n),
            forall|fr: Seq<char>, a: Seq<char>|
                final(self).spec_next(fr, a) == old(self).spec_next(fr, a),
            final(self).spec_start() == old(self).spec_start(),
    {
        self.step_limit = limit;
    }

    /// The node registered under `name`, if any.
    pub fn get_node(&self, name: &str) -> (r: Option<&N>)
        ensures
            match r {
                Some(n) => self.spec_get_node(name@) == Some(*n),
                None => self.spec_get_node(name@) is None,
            },
    {
        let mut i: usize = self.nodes.len();
        proof {
            assert(self.nodes@.take(i as int) =~= self.nodes@);
        }
        while i > 0
            invariant
                i <= self.nodes@.len(),
                self.spec_get_node(name@)
                    == Self::last_node(self.nodes@.take(i as int), name@),
            decreases i,
        {
            i = i - 1;
            let pair = &self.nodes[i];
            proof {
                assert(self.nodes@.take(i + 1).last() == self.nodes@[i as int]);
            }
            if str_eq(pair.0.as_str(), name) {
                return Some(&pair.1);
            }
            proof {
                assert(self.nodes@.take(i + 1).drop_last() =~= self.nodes@.take(i as int));
            }
        }
        None
    }

    /// The vertex that the edge `(from, action)` leads to, if any.
    pub fn get_next_step(&self, from: &str, action: &str) -> (r: Option<String>)
        ensures
            match r {
                Some(next) => self.spec_next(from@, action@) == Some(next@),
                None => self.spec_next(from@, action@) is None,
            },
    {
        let mut i: usize = self.edges.len();
        proof {
            assert(self.edges@.take(i as int) =~= self.edges@);
        }
        while i > 0
            invariant
                i <= self.edges@.len(),
                self.spec_next(from@, action@)
                    == Self::last_edge(self.edges@.take(i as int), from@, action@),
            decreases i,
        {
            i = i - 1;
            let edge = &self.edges[i];
            proof {
                assert(self.edges@.take(i + 1).last() == self.edges@[i as int]);
            }
            if str_eq(edge.0.as_str(), from) && str_eq(edge.1.as_str(), action) {
                return Some(edge.2.clone());
            }
            proof {
                assert(self.edges@.take(i + 1).drop_last() =~= self.edges@.take(i as int));
            }
        }
        None
    }
}

impl<N: Node<Store, Store>> Flow<N> {
    /// Every node of the flow accepts every state.
    pub open spec fn nodes_total(self) -> bool {
        forall|name: Seq<char>|
            (#[trigger] self.spec_get_node(name)) is Some
                ==> node_total(self.spec_get_node(name)->Some_0)
    }

    /// `tr` records, in order, the vertices a run from `input` visited and
    /// the state each node call returned.
    pub open spec fn trace_ok(self, input: Store, tr: Seq<(Seq<char>, Store)>) -> bool {
        &&& tr.len() <= self.spec_step_limit()
        &&& (tr.len() > 0 ==> self.spec_start() == Some(tr[0].0))
        &&& forall|k: int|
            0 <= k < tr.len() ==> {
                let name = (#[trigger] tr[k]).0;
                &&& self.spec_get_node(name) is Some
                &&& self.spec_get_node(name)->Some_0.post(store_before(input, tr, k), tr[k].1)
                &&& (k > 0 ==> self.spec_next(tr[k - 1].0, spec_action_of(tr[k - 1].1@))
                    == Some(name))
            }
    }

    /// After the steps of `tr`, the run can go no further: the step limit
    /// is reached, the start vertex is missing, the last action selects no
    /// edge, or the selected edge leads to a missing node.
    pub open spec fn trace_finished(self, tr: Seq<(Seq<char>, Store)>) -> bool {
        if tr.len() == self.spec_step_limit() {
            true
        } else if tr.len() == 0 {
            self.spec_start() matches Some(n0) && self.spec_get_node(n0) is None
        } else {
            match self.spec_next(tr.last().0, spec_action_of(tr.last().1@)) {
                None => true,
                Some(next) => self.spec_get_node(next) is None,
            }
        }
    }

    /// What a run from `input` may return: the input itself when no start
    /// vertex exists, and otherwise the last state of a finished trace with
    /// the reserved action key removed.
    pub open spec fn flow_post(self, input: Store, output: Store) -> bool {
        match self.spec_start() {
            None => output == input,
            Some(n0) => exists|tr: Seq<(Seq<char>, Store)>|
                {
                    &&& #[trigger] self.trace_ok(input, tr)
                    &&& self.trace_finished(tr)
                    &&& output@ == if tr.len() == 0 {
                        input@.remove(action_key())
                    } else {
                        tr.last().1@.remove(action_key())
                    }
                },
        }
    }

    /// Runs the flow: starting at the start vertex, calls each node on the
    /// state and follows the edge labeled with the action the node wrote,
    /// until no edge matches, a named node is missing, or the step limit is
    /// reached. The reserved action key is removed from the returned state;
    /// with no start vertex the input is returned unchanged.
    pub fn run(&self, input: Store) -> (output: Store)
        requires
            self.nodes_total(),
        ensures
            self.flow_post(input, output),
            self.spec_start() is Some ==> !output@.contains_key(action_key()),
    {
        let ghost input0 = input;
        let mut store = input;
        let mut current: String = match &self.start {
            Some(n) => n.clone(),
            None => {
                return store;
            },
        };
        let ghost mut tr: Seq<(Seq<char>, Store)> = Seq::empty();
        let mut steps: usize = 0;
        loop
            invariant_except_break
                tr.len() == 0 ==> current@ == self.spec_start()->Some_0,
                tr.len() > 0 ==> self.spec_next(tr.last().0, spec_action_of(tr.last().1@))
                    == Some(current@),
            invariant
                self.nodes_total(),
                self.spec_start() is Some,
                steps == tr.len(),
                steps <= self.spec_step_limit(),
                self.trace_ok(input0, tr),
                tr.len() == 0 ==> store == input0,
                tr.len() > 0 ==> store == tr.last().1,
            ensures
                self.trace_ok(input0, tr),
                self.trace_finished(tr),
                tr.len() == 0 ==> store == input0,
                tr.len() > 0 ==> store == tr.last().1,
            decreases self.spec_step_limit() - steps,
        {
            if steps >= self.step_limit {
                break;
            }
            let node = match self.get_node(current.as_str()) {
                Some(n) => n,
                None => {
                    break;
                },
            };
            let prev_name = current.clone();
            let ghost old_tr = tr;
            store = node.call(store);
            proof {
                tr = tr.push((prev_name@, store));
                assert(tr.last() == (prev_name@, store));
                assert(forall|k: int| 0 <= k < old_tr.len() ==> tr[k] == old_tr[k]);
                assert(self.trace_ok(input0, tr));
            }
            steps = steps + 1;
            let action = action_of(&store);
            match self.get_next_step(prev_name.as_str(), action.as_str()) {
                Some(next) => {
                    current = next;
                },
                None => {
                    break;
                },
            }
        }
        store.remove("action");
        proof {
            assert(self.trace_ok(input0, tr) && self.trace_finished(tr)
                && store@ == if tr.len() == 0 {
                    input0@.remove(action_key())
                } else {
                    tr.last().1@.remove(action_key())
                });
        }
        store
    }
}

impl<N: Node<Store, Store>> Node<Store, Store> for Flow<N> {
    open spec fn pre(&self, input: Store) -> bool {
        self.nodes_total()
    }

    open spec fn post(&self, input: Store, output: Store) -> bool {
        self.flow_post(input, output)
    }

    fn call(&self, input: Store) -> (output: Store) {
        self.run(input)
    }
}

impl<N> Default for Flow<N> {
    /// An empty flow.
    fn default() -> (f: Self)
        ensures
            f.spec_start() is None,
            forall|n: Seq<char>| f.spec_get_node(n) is None,
            forall|fr: Seq<char>, a: Seq<char>| f.spec_next(fr, a) is None,
            f.spec_step_limit() == usize::MAX,
    {
        Flow::new()
    }
}

} // verus!
