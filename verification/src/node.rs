//! The node abstraction: a polymorphic unit of work with a single `call`
//! capability, plus adapters that lift plain functions into nodes.

use vstd::prelude::*;

use crate::store::Store;

verus! {

/// A polymorphic unit of work: a transform from an input to an output.
///
/// Each implementation chooses the inputs it accepts (`pre`) and the
/// relation between inputs and possible outputs (`post`); `call` is bound
/// by that contract. Any function conforming to the input-to-output shape
/// can be lifted into a node with [`create_node`], which is how external
/// collaborators (model calls, searches, embeddings) participate uniformly.
pub trait Node<I, O> {
    /// The inputs this node accepts.
    spec fn pre(&self, input: I) -> bool;

    /// The relation between an input and the outputs this node may produce.
    spec fn post(&self, input: I, output: O) -> bool;

    /// Runs the node on one input.
    fn call(&self, input: I) -> (output: O)
        requires
            self.pre(input),
        ensures
            self.post(input, output),
    ;
}

/// A node made from a plain function or closure from state to state.
#[derive(Clone)]
pub struct FnNode<F> {
    /// The wrapped function.
    pub f: F,
}

impl<F: Fn(Store) -> Store> Node<Store, Store> for FnNode<F> {
    open spec fn pre(&self, input: Store) -> bool {
        call_requires(self.f, (input,))
    }

    open spec fn post(&self, input: Store, output: Store) -> bool {
        call_ensures(self.f, (input,), output)
    }

    fn call(&self, input: Store) -> (output: Store) {
        (self.f)(input)
    }
}

/// Lifts a function from state to state into a node.
pub fn create_node<F: Fn(Store) -> Store>(f: F) -> (n: FnNode<F>)
    ensures
        n.f == f,
{
    FnNode { f }
}

/// A node made from a plain function that folds a list of states into one.
#[derive(Clone)]
pub struct FnBatchNode<F> {
    /// The wrapped function.
    pub f: F,
}

impl<F: Fn(Vec<Store>) -> Store> Node<Vec<Store>, Store> for FnBatchNode<F> {
    open spec fn pre(&self, input: Vec<Store>) -> bool {
        call_requires(self.f, (input,))
    }

    open spec fn post(&self, input: Vec<Store>, output: Store) -> bool {
        call_ensures(self.f, (input,), output)
    }

    fn call(&self, input: Vec<Store>) -> (output: Store) {
        (self.f)(input)
    }
}

/// Lifts a function over a list of states into a node.
pub fn create_batch_node<F: Fn(Vec<Store>) -> Store>(f: F) -> (n: FnBatchNode<F>)
    ensures
        n.f == f,
{
    FnBatchNode { f }
}

/// A node that returns its input unchanged; useful as a placeholder step.
#[derive(Clone)]
pub struct PassNode;

impl Node<Store, Store> for PassNode {
    open spec fn pre(&self, input: Store) -> bool {
        true
    }

    open spec fn post(&self, input: Store, output: Store) -> bool {
        output == input
    }

    fn call(&self, input: Store) -> (output: Store) {
        input
    }
}

} // verus!
