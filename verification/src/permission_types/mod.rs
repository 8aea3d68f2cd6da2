//! Shared clearance, role, key and envelope types of the permission system.
pub mod types;
pub mod clearance;
pub mod envelope;
pub mod key;

pub use types::{
    AccessDeniedReason, AccessResult, ClearanceSbt, ClearanceTier, EncryptedPayloadEnvelope,
    IssuerRecord, KeyAlgorithm, KeyState, KeyType, RoleEntry, WalletRoleAssignment,
};
