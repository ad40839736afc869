//! Conversation history kept for the model.
pub mod normalize;
pub mod history;
pub mod updates;
