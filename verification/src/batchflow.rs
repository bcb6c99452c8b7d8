//! Runs one workflow once per parameter set, threading a single state
//! through all the runs.

use vstd::prelude::*;

use crate::node::Node;
use crate::store::Store;
use crate::value::Value;
use crate::workflow::{Workflow, merge_defaults, merge_params};

verus! {

/// Repeats a workflow once per parameter set: before each run the
/// parameter set is merged into the state without overwriting existing
/// keys, and the state each run returns feeds the next run.
pub struct BatchFlow<N> {
    /// The workflow run once per parameter set.
    pub workflow: Workflow<N>,
}

impl<N: Node<Store, Store>> BatchFlow<N> {
    /// Wraps a workflow.
    pub fn new(workflow: Workflow<N>) -> (b: Self)
        ensures
            b.workflow == workflow,
    {
        BatchFlow { workflow }
    }

    /// The state transformations of running `wf` once per parameter set of
    /// `params`, in order, starting from `input`.
    pub open spec fn bf_post(
        wf: Workflow<N>,
        input: Store,
        params: Seq<Vec<(String, Value)>>,
        output: Store,
    ) -> bool
        decreases params.len(),
    {
        if params.len() == 0 {
            output == input
        } else {
            exists|mid: Store, merged: Store|
                #![trigger merge_defaults(mid@, params.last()@, params.last()@.len() as int),
                    wf.flow.flow_post(merged, output)]
                (Self::bf_post(wf, input, params.drop_last(), mid) && merged@
                    == merge_defaults(mid@, params.last()@, params.last()@.len() as int)
                    && wf.flow.flow_post(merged, output))
        }
    }

    /// One more round extends a legal series of runs.
    proof fn lemma_bf_post_step(
        wf: Workflow<N>,
        input: Store,
        params: Seq<Vec<(String, Value)>>,
        mid: Store,
        merged: Store,
        output: Store,
    )
        requires
            params.len() > 0,
            Self::bf_post(wf, input, params.drop_last(), mid),
            merged@ == merge_defaults(mid@, params.last()@, params.last()@.len() as int),
            wf.flow.flow_post(merged, output),
        ensures
            Self::bf_post(wf, input, params, output),
    {
        assert(merged@ == merge_defaults(mid@, params.last()@, params.last()@.len() as int));
        assert(wf.flow.flow_post(merged, output));
    }

    /// Runs the workflow once per parameter set, in order, threading the
    /// state through every run, and returns the final state.
    pub fn run(&self, store: Store, batch_params: Vec<Vec<(String, Value)>>) -> (output: Store)
        requires
            self.workflow.flow.nodes_total(),
        ensures
            Self::bf_post(self.workflow, store, batch_params@, output),
    {
        let ghost input0 = store;
        let mut store = store;
        let mut i: usize = 0;
        proof {
            assert(batch_params@.take(0) =~= Seq::<Vec<(String, Value)>>::empty());
        }
        while i < batch_params.len()
            invariant
                self.workflow.flow.nodes_total(),
                i <= batch_params@.len(),
                Self::bf_post(self.workflow, input0, batch_params@.take(i as int), store),
            decreases batch_params@.len() - i,
        {
            let ghost mid = store;
            let merged = merge_params(store, &batch_params[i]);
            let ghost merged0 = merged;
            store = self.workflow.flow.run(merged);
            proof {
                assert(batch_params@.take(i + 1).drop_last() =~= batch_params@.take(i as int));
                assert(batch_params@.take(i + 1).last() == batch_params@[i as int]);
                assert(Self::bf_post(
                    self.workflow,
                    input0,
                    batch_params@.take(i + 1).drop_last(),
                    mid,
                ));
                assert(merged0@ == merge_defaults(
                    mid@,
                    batch_params@.take(i + 1).last()@,
                    batch_params@.take(i + 1).last()@.len() as int,
                ));
                assert(self.workflow.flow.flow_post(merged0, store));
                Self::lemma_bf_post_step(
                    self.workflow,
                    input0,
                    batch_params@.take(i + 1),
                    mid,
                    merged0,
                    store,
                );
            }
            i += 1;
        }
        proof {
            assert(batch_params@.take(batch_params@.len() as int) =~= batch_params@);
        }
        store
    }
}

} // verus!
