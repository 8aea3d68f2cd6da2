//! Token-20: fungible mints and accounts with minting, transfers, burns,
//! allowances and freezes.
pub mod types;
pub mod instruction;
pub mod state;
pub mod processor;
