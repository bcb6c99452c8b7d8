//! Fan-out executors: apply one node to a list of independent states.

use vstd::prelude::*;

use crate::node::Node;
use crate::store::Store;

verus! {

/// Applies the wrapped node to each state of a list, one at a time, in
/// list order; the result at position `i` comes from the input at
/// position `i`.
#[derive(Clone)]
pub struct Batch<N> {
    /// The node applied to every item.
    pub node: N,
}

impl<N> Batch<N> {
    /// Wraps a node for sequential fan-out.
    pub fn new(node: N) -> (b: Self)
        ensures
            b.node == node,
    {
        Batch { node }
    }
}

/// Runs `node` on every state of `input` in list order and collects the
/// results in the same order.
fn map_states<N: Node<Store, Store>>(node: &N, input: Vec<Store>) -> (output: Vec<Store>)
    requires
        forall|i: int| 0 <= i < input@.len() ==> node.pre(#[trigger] input@[i]),
    ensures
        output@.len() == input@.len(),
        forall|i: int|
            0 <= i < input@.len() ==> node.post(input@[i], #[trigger] output@[i]),
{
    let ghost input0 = input@;
    let mut remaining = input;
    let mut results: Vec<Store> = Vec::new();
    proof {
        assert(remaining@ =~= input0.skip(0));
    }
    while remaining.len() > 0
        invariant
            results@.len() + remaining@.len() == input0.len(),
            remaining@ == input0.skip(results@.len() as int),
            forall|i: int| 0 <= i < input0.len() ==> node.pre(#[trigger] input0[i]),
            forall|i: int|
                0 <= i < results@.len() ==> node.post(input0[i], #[trigger] results@[i]),
        decreases remaining.len(),
    {
        let ghost k = results@.len() as int;
        let store = remaining.remove(0);
        proof {
            assert(store == input0[k]);
        }
        let r = node.call(store);
        results.push(r);
        proof {
            assert(remaining@ =~= input0.skip(k + 1));
        }
    }
    results
}

impl<N: Node<Store, Store>> Node<Vec<Store>, Vec<Store>> for Batch<N> {
    open spec fn pre(&self, input: Vec<Store>) -> bool {
        forall|i: int| 0 <= i < input@.len() ==> self.node.pre(#[trigger] input@[i])
    }

    open spec fn post(&self, input: Vec<Store>, output: Vec<Store>) -> bool {
        &&& output@.len() == input@.len()
        &&& forall|i: int|
            0 <= i < input@.len() ==> self.node.post(input@[i], #[trigger] output@[i])
    }

    fn call(&self, input: Vec<Store>) -> (output: Vec<Store>) {
        map_states(&self.node, input)
    }
}

/// Applies the wrapped node to every state of a list; all items run to
/// completion, and the result at position `i` comes from the input at
/// position `i` regardless of how the items are scheduled.
///
/// The items are independent, so the contract is exactly the per-index
/// input/output relation; a driver that runs the items concurrently must
/// preserve the same relation.
#[derive(Clone)]
pub struct ParallelBatch<N> {
    /// The node applied to every item.
    pub node: N,
}

impl<N> ParallelBatch<N> {
    /// Wraps a node for fan-out over independent items.
    pub fn new(node: N) -> (b: Self)
        ensures
            b.node == node,
    {
        ParallelBatch { node }
    }
}

impl<N: Node<Store, Store>> Node<Vec<Store>, Vec<Store>> for ParallelBatch<N> {
    open spec fn pre(&self, input: Vec<Store>) -> bool {
        forall|i: int| 0 <= i < input@.len() ==> self.node.pre(#[trigger] input@[i])
    }

    open spec fn post(&self, input: Vec<Store>, output: Vec<Store>) -> bool {
        &&& output@.len() == input@.len()
        &&& forall|i: int|
            0 <= i < input@.len() ==> self.node.post(input@[i], #[trigger] output@[i])
    }

    fn call(&self, input: Vec<Store>) -> (output: Vec<Store>) {
        map_states(&self.node, input)
    }
}

} // verus!
