use aeko_programs::errors::ProgramError;
use aeko_programs::permission_registry::state::{verify_clearance, verify_issuer};
use aeko_programs::permission_registry::types::{registry_config_to_vec, PermissionRegistryError, RegistryConfig};
use aeko_programs::permission_types::types::{AccessDeniedReason, ClearanceSbt, ClearanceTier, IssuerRecord};
use aeko_programs::pubkey::Pubkey;

fn key(n: u8) -> Pubkey {
    Pubkey::new_from_array([n; 32])
}

fn code(e: PermissionRegistryError) -> ProgramError {
    ProgramError::Custom(e.code())
}

fn make_sbt(tier: ClearanceTier, valid_until_slot: Option<u64>, active: bool) -> ClearanceSbt {
    ClearanceSbt {
        holder: key(1),
        tier,
        issuer: key(2),
        issued_at_slot: 1,
        valid_until_slot,
        revocation_registry: key(3),
        is_active: active,
    }
}

fn make_issuer(tier: ClearanceTier, active: bool) -> (IssuerRecord, Pubkey) {
    let authority = key(10);
    let record = IssuerRecord {
        authority,
        tier,
        label: "Test Issuer".to_string(),
        is_active: active,
        registered_at_slot: 1,
    };
    (record, authority)
}

#[test]
fn verify_clearance_rejects_inactive_sbt() {
    let sbt = make_sbt(ClearanceTier::Kyc, None, false);
    let err = verify_clearance(&sbt, ClearanceTier::Kyc, 100).unwrap_err();
    assert_eq!(err, code(PermissionRegistryError::SbtRevoked));
}

#[test]
fn verify_clearance_rejects_expired_sbt() {
    let sbt = make_sbt(ClearanceTier::Kyc, Some(99), true);
    let err = verify_clearance(&sbt, ClearanceTier::Kyc, 100).unwrap_err();
    assert_eq!(err, code(PermissionRegistryError::SbtExpired));
}

#[test]
fn verify_clearance_accepts_at_exact_expiry_slot() {
    let sbt = make_sbt(ClearanceTier::Kyc, Some(100), true);
    assert!(verify_clearance(&sbt, ClearanceTier::Kyc, 100).is_ok());
}

#[test]
fn verify_clearance_rejects_insufficient_tier() {
    let sbt = make_sbt(ClearanceTier::VerifiedHuman, None, true);
    let err = verify_clearance(&sbt, ClearanceTier::Kyc, 1).unwrap_err();
    assert_eq!(err, code(PermissionRegistryError::ClearanceMissing));
}

#[test]
fn verify_clearance_accepts_higher_tier_for_lower_requirement() {
    let sbt = make_sbt(ClearanceTier::Military, None, true);
    assert!(verify_clearance(&sbt, ClearanceTier::Kyc, 1).is_ok());
}

#[test]
fn verify_clearance_accepts_no_expiry_sbt_at_any_slot() {
    let sbt = make_sbt(ClearanceTier::Enterprise, None, true);
    assert!(verify_clearance(&sbt, ClearanceTier::Enterprise, 0).is_ok());
    assert!(verify_clearance(&sbt, ClearanceTier::Enterprise, u64::MAX).is_ok());
}

#[test]
fn verify_issuer_accepts_correct_active_issuer() {
    let (record, authority) = make_issuer(ClearanceTier::Kyc, true);
    assert!(verify_issuer(&record, &authority, ClearanceTier::Kyc).is_ok());
}

#[test]
fn verify_issuer_rejects_wrong_authority() {
    let (record, _) = make_issuer(ClearanceTier::Kyc, true);
    let other = key(11);
    let err = verify_issuer(&record, &other, ClearanceTier::Kyc).unwrap_err();
    assert_eq!(err, code(PermissionRegistryError::Unauthorized));
}

#[test]
fn verify_issuer_rejects_inactive_issuer() {
    let (record, authority) = make_issuer(ClearanceTier::Kyc, false);
    let err = verify_issuer(&record, &authority, ClearanceTier::Kyc).unwrap_err();
    assert_eq!(err, code(PermissionRegistryError::IssuerInactive));
}

#[test]
fn verify_issuer_rejects_wrong_tier() {
    let (record, authority) = make_issuer(ClearanceTier::Kyc, true);
    let err = verify_issuer(&record, &authority, ClearanceTier::Enterprise).unwrap_err();
    assert_eq!(err, code(PermissionRegistryError::IssuerNotAuthorizedForTier));
}

#[test]
fn registry_config_round_trips_borsh() {
    let config = RegistryConfig::new(key(12), 42);
    let encoded = registry_config_to_vec(&config);
    let decoded = RegistryConfig::deserialize_padded(&encoded).unwrap();
    assert_eq!(config, decoded);
}

#[test]
fn registry_config_uninitialized_returns_error() {
    let config = RegistryConfig { is_initialized: false, upgrade_authority: key(13), created_at_slot: 0 };
    let err = config.ensure_initialized().unwrap_err();
    assert_eq!(err, code(PermissionRegistryError::Uninitialized));
}

#[test]
fn registry_config_wrong_authority_returns_error() {
    let config = RegistryConfig::new(key(14), 1);
    let err = config.ensure_upgrade_authority(&key(15)).unwrap_err();
    assert_eq!(err, code(PermissionRegistryError::Unauthorized));
}

#[test]
fn access_denied_reason_subnet_frozen_is_6() {
    assert_eq!(AccessDeniedReason::SubnetFrozen.code(), 6);
}

#[test]
fn registry_config_layout_matches_borsh_and_padding_is_ignored() {
    let config = RegistryConfig::new(key(16), 7);
    let mut bytes = registry_config_to_vec(&config);
    assert_eq!(bytes, borsh::to_vec(&(true, [16u8; 32], 7u64)).unwrap());
    bytes.extend_from_slice(&[0u8; 20]);
    assert_eq!(RegistryConfig::deserialize_padded(&bytes).unwrap(), config);
    assert_eq!(RegistryConfig::deserialize_padded(&bytes[..10]), Err(ProgramError::InvalidAccountData));
}
