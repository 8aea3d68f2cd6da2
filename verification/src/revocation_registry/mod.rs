//! Revocation registry: key records and their rotation, revocation and
//! compromise.
pub mod types;
pub mod instruction;
pub mod state;
pub mod processor;
