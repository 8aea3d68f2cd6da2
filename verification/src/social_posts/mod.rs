//! Social posts: anchored posts, their edits, moderation and engagement counts.
pub mod types;
pub mod instruction;
pub mod state;
pub mod processor;
