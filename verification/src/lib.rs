//! A minimalist orchestration library for composing units of work ("nodes")
//! into graphs with labeled transitions, executed over a key/value state.
//!
//! - A [`Node`](node::Node) is a polymorphic unit of work: a transform from an
//!   input to an output, with a relational contract.
//! - A [`Flow`](flow::Flow) connects named nodes through labeled edges
//!   ("actions") and runs a path through the graph chosen at runtime by the
//!   action labels the nodes write into the state.
//! - [`Batch`](batch::Batch) and [`ParallelBatch`](batch::ParallelBatch) apply
//!   one node to a list of independent states.
//! - The patterns (`Agent`, `Workflow`, `BatchFlow`, `MapReduce`, `MultiAgent`,
//!   `Rag`, `StructuredOutput`) are thin compositional shapes over those parts.

pub mod agent;
pub mod batch;
pub mod batchflow;
pub mod flow;
pub mod mapreduce;
pub mod multi_agent;
pub mod node;
pub mod rag;
pub mod retry;
pub mod store;
pub mod structured_output;
pub mod utils;
pub mod value;
pub mod workflow;

pub use crate::agent::{Agent, RetryPolicy};
pub use crate::batch::{Batch, ParallelBatch};
pub use crate::batchflow::BatchFlow;
pub use crate::flow::Flow;
pub use crate::mapreduce::MapReduce;
pub use crate::multi_agent::MultiAgent;
pub use crate::node::{FnBatchNode, FnNode, Node, PassNode, create_batch_node, create_node};
pub use crate::rag::Rag;
pub use crate::retry::{Delay, NoDelay, RetryNode, create_retry_node};
pub use crate::store::Store;
pub use crate::structured_output::{SchemaError, StructuredOutput, ValueKind};
pub use crate::utils::{
    ChunkingNode, GoogleSearchNode, MockLlmNode, VectorSearchNode, create_chunking_node,
    create_google_search_node, create_mock_llm_node, create_vector_search_node,
};
pub use crate::value::Value;
pub use crate::workflow::Workflow;
