//! A library for composing typed processing pipelines.
//!
//! The building blocks are processing units ("nodes") that transform a typed
//! input into a typed output or fail with an [`error::AnchorChainError`].
//! Nodes compose into chains through [`link::Link`] and the builders in
//! [`chain`]; several nodes can run against one input through
//! [`parallel_node::ParallelNode`]; keyed state shared between stages lives in
//! [`state_manager::StateManager`]; and a bounded tool-calling agent loop is
//! built on top of the same abstractions in [`agents`].

pub mod agents;
pub mod chain;
pub mod content;
pub mod error;
pub mod link;
pub mod message;
pub mod models;
pub mod node;
pub mod nodes;
pub mod parallel_node;
pub mod shared_state;
pub mod state_manager;
pub mod tool_schema;
pub mod trace_node;
pub mod value;

pub use agents::tool_registry::ToolRegistry;
pub use chain::ChainBuilder;
pub use error::AnchorChainError;
pub use link::Link;
pub use node::NoOpNode;
pub use node::Node;
pub use node::Stateless;
pub use nodes::logger::Logger;
pub use nodes::prompt::Prompt;
pub use parallel_node::ConcatCombiner;
pub use parallel_node::Combiner;
pub use parallel_node::ParallelNode;
pub use shared_state::SharedState;
pub use state_manager::StateManager;
pub use value::Value;
