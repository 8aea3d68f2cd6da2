//! Finality oracle: finality proofs, issued on request with a
//! deterministic hash, and their verification.
pub mod types;
pub mod instruction;
pub mod state;
pub mod processor;
