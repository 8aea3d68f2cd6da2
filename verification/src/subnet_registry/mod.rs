//! Subnet registry: subnets, their owners, members and freezes.
pub mod types;
pub mod instruction;
pub mod state;
pub mod processor;
