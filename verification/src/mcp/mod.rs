//! MCP servers: tool naming and filtering, and dependencies of skills.
pub mod hashing;
pub mod client;
pub mod connection_manager;
pub mod skill_dependencies;
pub mod auth;
