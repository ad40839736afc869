//! Configuration: constrained values, requirements, permissions, diagnostics and edits.
pub mod constraint;
pub mod requirements;
pub mod service;
pub mod permissions;
pub mod diagnostics;
pub mod toml_types;
pub mod edit;
pub mod value;
pub mod layer_stack;
