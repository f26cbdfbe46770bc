//! Tool registration and the tool-using agent control loop.

pub mod agent_executor;
pub mod tool_registry;
