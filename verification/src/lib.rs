//! Verified core of a coding-agent desktop backend: configuration rules,
//! conversation history, agent bookkeeping, command policy and tool naming.
use vstd::prelude::*;

pub mod text;
pub mod strmap;
pub mod protocol;
pub mod config;
pub mod context;
pub mod event_mapping;
pub mod agent;
pub mod exec_policy;
pub mod client;
pub mod features;
pub mod mcp;
pub mod compact;
pub mod git_info;
pub mod auth;
pub mod turn;
pub mod hooks;
pub mod analytics;
pub mod file_watcher;
pub mod session_ops;

verus! {
} // verus!
