//! Permission registry: issuers, clearances, roles and
//! encrypted-envelope access checks.
pub mod types;
pub mod instruction;
pub mod state;
pub mod processor;
