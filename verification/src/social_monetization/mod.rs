//! Social monetization: tips, subscriptions and paid-content unlocks, with
//! creator balances that creators claim.
pub mod types;
pub mod instruction;
pub mod state;
pub mod processor;
