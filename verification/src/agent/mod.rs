//! Sub-agents: their status, roles and spawn bookkeeping.
pub mod status;
pub mod guards;
pub mod role;
pub mod spawn_tool_spec;
pub mod manager;
pub mod control;
pub mod batch;
