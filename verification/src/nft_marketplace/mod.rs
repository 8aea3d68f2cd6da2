//! NFT marketplace: fixed-price listings that are bought or cancelled.
pub mod types;
pub mod instruction;
pub mod state;
pub mod processor;
