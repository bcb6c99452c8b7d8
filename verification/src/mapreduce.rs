//! Map over a list of states with one node, then fold the results with a
//! reducer node.

use vstd::prelude::*;

use crate::batch::Batch;
use crate::node::Node;
use crate::store::Store;

verus! {

/// Splits work into a map step and a reduce step: the mapper is applied to
/// every input state in order, and the reducer folds the mapped states into
/// one.
#[derive(Clone)]
pub struct MapReduce<M, R> {
    /// Applies the map node to each input.
    pub mapper: Batch<M>,
    /// Folds the mapped states into one.
    pub reducer: R,
}

impl<M, R> MapReduce<M, R> {
    /// Combines a mapper and a reducer.
    pub fn new(mapper: Batch<M>, reducer: R) -> (m: Self)
        ensures
            m.mapper == mapper,
            m.reducer == reducer,
    {
        MapReduce { mapper, reducer }
    }
}

impl<M: Node<Store, Store>, R: Node<Vec<Store>, Store>> MapReduce<M, R> {
    /// Maps all inputs, then reduces the mapped list.
    pub fn run(&self, inputs: Vec<Store>) -> (output: Store)
        requires
            self.mapper.pre(inputs),
            forall|mid: Vec<Store>|
                #[trigger] self.mapper.post(inputs, mid) ==> self.reducer.pre(mid),
        ensures
            exists|mid: Vec<Store>|
                #[trigger] self.mapper.post(inputs, mid) && self.reducer.post(mid, output),
    {
        let mapped = self.mapper.call(inputs);
        self.reducer.call(mapped)
    }
}

impl<M: Node<Store, Store>, R: Node<Vec<Store>, Store>> Node<Vec<Store>, Store>
    for MapReduce<M, R> {
    open spec fn pre(&self, input: Vec<Store>) -> bool {
        &&& self.mapper.pre(input)
        &&& forall|mid: Vec<Store>|
            #[trigger] self.mapper.post(input, mid) ==> self.reducer.pre(mid)
    }

    open spec fn post(&self, input: Vec<Store>, output: Store) -> bool {
        exists|mid: Vec<Store>|
            #[trigger] self.mapper.post(input, mid) && self.reducer.post(mid, output)
    }

    fn call(&self, input: Vec<Store>) -> (output: Store) {
        self.run(input)
    }
}

} // verus!
