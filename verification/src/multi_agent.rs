//! Several agents working over one shared state.

use vstd::prelude::*;

use crate::flow::node_total;
use crate::node::Node;
use crate::store::Store;

verus! {

/// An ordered collection of agents that all work on the same state in one
/// run: each agent sees the writes of the agents that finished before it.
/// Agents are expected to write to disjoint keys; writes to the same key
/// are resolved by whichever agent ran later.
#[derive(Clone)]
pub struct MultiAgent<N> {
    /// The agents, in the order they were added.
    pub agents: Vec<N>,
}

impl<N: Node<Store, Store>> MultiAgent<N> {
    /// The state transformations of `agents`, chained in order.
    pub open spec fn chain_post(agents: Seq<N>, input: Store, output: Store) -> bool
        decreases agents.len(),
    {
        if agents.len() == 0 {
            output == input
        } else {
            exists|mid: Store|
                Self::chain_post(agents.drop_last(), input, mid)
                    && (#[trigger] agents.last().post(mid, output))
        }
    }

    /// Every agent accepts every state.
    pub open spec fn agents_total(self) -> bool {
        forall|i: int|
            0 <= i < self.agents@.len() ==> node_total(#[trigger] self.agents@[i])
    }

    /// Creates a group with no agents.
    pub fn new() -> (m: Self)
        ensures
            m.agents@ =~= Seq::<N>::empty(),
    {
        MultiAgent { agents: Vec::new() }
    }

    /// Adds an agent after the existing ones.
    pub fn add_agent(&mut self, agent: N)
        ensures
            final(self).agents@ == old(self).agents@.push(agent),
    {
        self.agents.push(agent);
    }

    /// Runs every agent on the same state and returns the state all of them
    /// worked on.
    pub fn run(&self, store: Store) -> (output: Store)
        requires
            self.agents_total(),
        ensures
            Self::chain_post(self.agents@, store, output),
    {
        let ghost input0 = store;
        let mut store = store;
        let mut i: usize = 0;
        proof {
            assert(self.agents@.take(0) =~= Seq::<N>::empty());
        }
        while i < self.agents.len()
            invariant
                self.agents_total(),
                i <= self.agents@.len(),
                Self::chain_post(self.agents@.take(i as int), input0, store),
            decreases self.agents@.len() - i,
        {
            let prev = store;
            store = self.agents[i].call(prev);
            proof {
                assert(self.agents@.take(i + 1).drop_last() =~= self.agents@.take(i as int));
                assert(self.agents@.take(i + 1).last() == self.agents@[i as int]);
            }
            i += 1;
        }
        proof {
            assert(self.agents@.take(self.agents@.len() as int) =~= self.agents@);
        }
        store
    }
}

impl<N: Node<Store, Store>> Node<Store, Store> for MultiAgent<N> {
    open spec fn pre(&self, input: Store) -> bool {
        self.agents_total()
    }

    open spec fn post(&self, input: Store, output: Store) -> bool {
        Self::chain_post(self.agents@, input, output)
    }

    fn call(&self, input: Store) -> (output: Store) {
        self.run(input)
    }
}

impl<N: Node<Store, Store>> Default for MultiAgent<N> {
    /// A group with no agents.
    fn default() -> (m: Self)
        ensures
            m.agents@ =~= Seq::<N>::empty(),
    {
        MultiAgent::new()
    }
}

} // verus!
