//! Social staking: stake positions of stakers on creators, unstaking and stake
//! yield.
pub mod types;
pub mod instruction;
pub mod state;
pub mod processor;
