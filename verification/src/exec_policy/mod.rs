//! Command approval policy: shell script splitting, heuristics and rule outcomes.
pub mod bash;
pub mod heuristics;
pub mod manager;
