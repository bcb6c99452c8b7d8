//! An ergonomic, retry-aware facade over a single node.

use vstd::prelude::*;

use crate::flow::node_total;
use crate::node::Node;
use crate::store::Store;
use crate::value::SpecValue;

verus! {

/// The reserved state key that marks a failed result.
pub open spec fn error_key() -> Seq<char> {
    "error"@
}

/// True if the state carries the reserved error key.
pub open spec fn has_error(m: Map<Seq<char>, SpecValue>) -> bool {
    m.contains_key(error_key())
}

/// How [`Agent::decide`] treats the attempts it is allowed.
#[derive(Clone, Copy, PartialEq, Eq, Structural)]
pub enum RetryPolicy {
    /// Any completed call is the final result: one attempt is made.
    FirstCompletion,
    /// Retry while the returned state carries the reserved error key, up
    /// to the allowed number of attempts.
    UntilNoError,
}

/// Wraps one node behind an entry point that takes and returns a plain
/// state and applies a configurable retry policy.
#[derive(Clone)]
pub struct Agent<N> {
    /// The wrapped node.
    pub node: N,
    /// How many attempts `decide` may make.
    pub max_retries: usize,
    /// The configured wait between attempts, in milliseconds; kept as
    /// configuration for drivers, `decide` itself does not wait.
    pub wait_millis: u64,
    /// Whether a completed call is final, or failures are retried.
    pub policy: RetryPolicy,
}

impl<N> Agent<N> {
    /// Wraps a node with a single attempt and no wait.
    pub fn new(node: N) -> (a: Self)
        ensures
            a.node == node,
            a.max_retries == 1usize,
            a.wait_millis == 0u64,
            a.policy == RetryPolicy::FirstCompletion,
    {
        Agent { node, max_retries: 1, wait_millis: 0, policy: RetryPolicy::FirstCompletion }
    }

    /// Wraps a node with the given attempt allowance and wait.
    pub fn with_retry(node: N, max_retries: usize, wait_millis: u64) -> (a: Self)
        ensures
            a.node == node,
            a.max_retries == max_retries,
            a.wait_millis == wait_millis,
            a.policy == RetryPolicy::FirstCompletion,
    {
        Agent { node, max_retries, wait_millis, policy: RetryPolicy::FirstCompletion }
    }

    /// Chooses how attempts are treated.
    pub fn with_policy(self, policy: RetryPolicy) -> (a: Self)
        ensures
            a.node == self.node,
            a.max_retries == self.max_retries,
            a.wait_millis == self.wait_millis,
            a.policy == policy,
    {
        Agent { policy, ..self }
    }
}

impl<N: Node<Store, Store>> Agent<N> {
    /// `tr[k]` is the result of the `k`-th call of `node`; each call starts
    /// from the previous call's result.
    pub open spec fn attempt_trace(node: N, input: Store, tr: Seq<Store>) -> bool
        decreases tr.len(),
    {
        if tr.len() == 0 {
            true
        } else {
            &&& Self::attempt_trace(node, input, tr.drop_last())
            &&& node.post(
                if tr.len() == 1 {
                    input
                } else {
                    tr[tr.len() - 2]
                },
                tr.last(),
            )
        }
    }

    /// What `decide` needs of the wrapped node for the configured policy.
    pub open spec fn decide_pre(self, input: Store) -> bool {
        self.max_retries >= 1 ==> match self.policy {
            RetryPolicy::FirstCompletion => self.node.pre(input),
            RetryPolicy::UntilNoError => node_total(self.node),
        }
    }

    /// What `decide` may return. With no attempts allowed the input comes
    /// back unchanged. Under `FirstCompletion` the single call's result is
    /// final. Under `UntilNoError` the node is called repeatedly on its own
    /// results; every result but the last carried the error key, and the
    /// last is either free of it or the allowance was exhausted.
    pub open spec fn decide_post(self, input: Store, output: Store) -> bool {
        if self.max_retries == 0 {
            output == input
        } else {
            match self.policy {
                RetryPolicy::FirstCompletion => self.node.post(input, output),
                RetryPolicy::UntilNoError => exists|tr: Seq<Store>|
                    {
                        &&& #[trigger] Self::attempt_trace(self.node, input, tr)
                        &&& 1 <= tr.len() <= self.max_retries
                        &&& forall|j: int| 0 <= j < tr.len() - 1 ==> has_error((#[trigger] tr[j])@)
                        &&& (tr.len() < self.max_retries ==> !has_error(tr.last()@))
                        &&& output == tr.last()
                    },
            }
        }
    }

    /// Runs the wrapped node on a plain state under the configured retry
    /// policy and returns the resulting state.
    pub fn decide(&self, input: Store) -> (output: Store)
        requires
            self.decide_pre(input),
        ensures
            self.decide_post(input, output),
    {
        if self.max_retries == 0 {
            return input;
        }
        match self.policy {
            RetryPolicy::FirstCompletion => self.node.call(input),
            RetryPolicy::UntilNoError => {
                let ghost input0 = input;
                let mut store = self.node.call(input);
                let ghost mut tr: Seq<Store> = seq![store];
                proof {
                    assert(Self::attempt_trace(self.node, input0, Seq::<Store>::empty()));
                    assert(tr.drop_last() =~= Seq::<Store>::empty());
                    assert(tr.last() == store);
                    assert(Self::attempt_trace(self.node, input0, tr));
                }
                let mut attempt: usize = 1;
                loop
                    invariant
                        node_total(self.node),
                        1 <= self.max_retries,
                        attempt == tr.len(),
                        1 <= tr.len() <= self.max_retries,
                        Self::attempt_trace(self.node, input0, tr),
                        forall|j: int| 0 <= j < tr.len() - 1 ==> has_error((#[trigger] tr[j])@),
                        store == tr.last(),
                    ensures
                        attempt == tr.len(),
                        1 <= tr.len() <= self.max_retries,
                        Self::attempt_trace(self.node, input0, tr),
                        forall|j: int| 0 <= j < tr.len() - 1 ==> has_error((#[trigger] tr[j])@),
                        store == tr.last(),
                        tr.len() == self.max_retries || !has_error(tr.last()@),
                    decreases self.max_retries - attempt,
                {
                    if !store.contains_key("error") {
                        break;
                    }
                    if attempt >= self.max_retries {
                        break;
                    }
                    let prev = store;
                    store = self.node.call(prev);
                    proof {
                        let ghost old_tr = tr;
                        tr = tr.push(store);
                        assert(tr.drop_last() =~= old_tr);
                        assert(tr.last() == store);
                        assert(tr[tr.len() - 2] == old_tr.last());
                        assert(Self::attempt_trace(self.node, input0, tr));
                    }
                    attempt += 1;
                }
                store
            },
        }
    }
}

impl<N: Node<Store, Store>> Node<Store, Store> for Agent<N> {
    open spec fn pre(&self, input: Store) -> bool {
        self.node.pre(input)
    }

    open spec fn post(&self, input: Store, output: Store) -> bool {
        self.node.post(input, output)
    }

    fn call(&self, input: Store) -> (output: Store) {
        self.node.call(input)
    }
}

} // verus!
