//! Social anti-spam: per-profile eligibility checks, spam flags, cooldowns
//! and penalties.
pub mod types;
pub mod instruction;
pub mod state;
pub mod processor;
