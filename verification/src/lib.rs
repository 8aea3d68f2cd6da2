//! Verified on-chain program logic for the Aeko permissioned-subnet programs.
pub mod pubkey;
pub mod codec;
pub mod errors;
pub mod runtime;
pub mod layout;
pub mod permission_types;
pub mod emergency_multisig;
pub mod finality_oracle;
pub mod nft_marketplace;
pub mod permission_registry;
pub mod public_mint;
pub mod revocation_registry;
pub mod subnet_registry;
pub mod token20;
pub mod social_anti_spam;
pub mod social_monetization;
pub mod social_posts;
pub mod social_rewards;
pub mod social_staking;
