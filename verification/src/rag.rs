//! Retrieval followed by generation: a strict two-stage pipeline.

use vstd::prelude::*;

use crate::node::Node;
use crate::store::Store;

verus! {

/// A two-stage pipeline: the retriever runs on the query state, then the
/// generator runs on the retriever's result.
#[derive(Clone)]
pub struct Rag<R, G> {
    /// The first stage.
    pub retriever: R,
    /// The second stage.
    pub generator: G,
}

impl<R, G> Rag<R, G> {
    /// Combines a retriever and a generator.
    pub fn new(retriever: R, generator: G) -> (r: Self)
        ensures
            r.retriever == retriever,
            r.generator == generator,
    {
        Rag { retriever, generator }
    }
}

impl<R: Node<Store, Store>, G: Node<Store, Store>> Rag<R, G> {
    /// Runs the two stages in order on the same state.
    pub fn ask(&self, query: Store) -> (output: Store)
        requires
            self.retriever.pre(query),
            forall|mid: Store|
                #[trigger] self.retriever.post(query, mid) ==> self.generator.pre(mid),
        ensures
            exists|mid: Store|
                #[trigger] self.retriever.post(query, mid)
                    && self.generator.post(mid, output),
    {
        let retrieved = self.retriever.call(query);
        self.generator.call(retrieved)
    }
}

impl<R: Node<Store, Store>, G: Node<Store, Store>> Node<Store, Store> for Rag<R, G> {
    open spec fn pre(&self, input: Store) -> bool {
        &&& self.retriever.pre(input)
        &&& forall|mid: Store|
            #[trigger] self.retriever.post(input, mid) ==> self.generator.pre(mid)
    }

    open spec fn post(&self, input: Store, output: Store) -> bool {
        exists|mid: Store|
            #[trigger] self.retriever.post(input, mid) && self.generator.post(mid, output)
    }

    fn call(&self, input: Store) -> (output: Store) {
        self.ask(input)
    }
}

} // verus!
