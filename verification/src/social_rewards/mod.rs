//! Social rewards: epoch settlement of a reward pool by effective points, and
//! creator claims.
pub mod types;
pub mod instruction;
pub mod state;
pub mod processor;
