//! Registry configuration, account decoding and the issuer and clearance checks.
use vstd::prelude::*;
use crate::errors::{decoded, ProgramError};
use crate::permission_registry::types::{dec_registry_config, registry_config_from_prefix, PermissionRegistryError, RegistryConfig};
use crate::permission_types::types::{
    clearance_sbt_from_prefix, dec_clearance_sbt, dec_issuer_record, dec_role_entry,
    dec_wallet_role_assignment, issuer_record_from_prefix, role_entry_from_prefix,
    wallet_role_assignment_from_prefix, ClearanceSbt, ClearanceTier, IssuerRecord,
    IssuerRecordModel, RoleEntry, WalletRoleAssignment,
};
use crate::pubkey::Pubkey;

verus! {

pub const CLEARANCE_SBT_SEED: [u8; 9] = [99, 108, 101, 97, 114, 97, 110, 99, 101];
pub const ISSUER_RECORD_SEED: [u8; 6] = [105, 115, 115, 117, 101, 114];
pub const ROLE_SEED: [u8; 4] = [114, 111, 108, 101];
pub const ROLE_ASSIGN_SEED: [u8; 11] = [114, 111, 108, 101, 45, 97, 115, 115, 105, 103, 110];
pub const REGISTRY_CONFIG_SEED: [u8; 15] = [114, 101, 103, 105, 115, 116, 114, 121, 45, 99, 111, 110, 102, 105, 103];

pub open spec fn custom(e: PermissionRegistryError) -> ProgramError {
    ProgramError::Custom(e.spec_code())
}

impl RegistryConfig {
    pub fn new(upgrade_authority: Pubkey, current_slot: u64) -> (r: Self)
        ensures
            r == (RegistryConfig { is_initialized: true, upgrade_authority, created_at_slot: current_slot }),
    {
        RegistryConfig { is_initialized: true, upgrade_authority, created_at_slot: current_slot }
    }

    /// Decodes the configuration from the front of account data.
    pub fn deserialize_padded(data: &[u8]) -> (r: Result<Self, ProgramError>)
        ensures
            r == decoded(dec_registry_config(data@)),
    {
        match registry_config_from_prefix(data) {
            Some(v) => Ok(v),
            None => Err(ProgramError::InvalidAccountData),
        }
    }

    pub fn ensure_initialized(&self) -> (r: Result<(), ProgramError>)
        ensures
            r == (if self.is_initialized { Ok(()) } else { Err(custom(PermissionRegistryError::Uninitialized)) }),
    {
        if self.is_initialized {
            Ok(())
        } else {
            Err(ProgramError::Custom(PermissionRegistryError::Uninitialized.code()))
        }
    }

    pub fn ensure_upgrade_authority(&self, signer: &Pubkey) -> (r: Result<(), ProgramError>)
        ensures
            r == (if *signer == self.upgrade_authority { Ok(()) } else { Err(custom(PermissionRegistryError::Unauthorized)) }),
    {
        if *signer == self.upgrade_authority {
            Ok(())
        } else {
            Err(ProgramError::Custom(PermissionRegistryError::Unauthorized.code()))
        }
    }
}

pub fn deserialize_clearance_sbt(data: &[u8]) -> (r: Result<ClearanceSbt, ProgramError>)
    ensures
        r == decoded(dec_clearance_sbt(data@)),
{
    match clearance_sbt_from_prefix(data) {
        Some(v) => Ok(v),
        None => Err(ProgramError::InvalidAccountData),
    }
}

pub fn deserialize_issuer_record(data: &[u8]) -> (r: Result<IssuerRecord, ProgramError>)
    ensures
        r.is_ok() == decoded(dec_issuer_record(data@)).is_ok(),
        r matches Ok(v) ==> decoded(dec_issuer_record(data@)) == Ok::<_, ProgramError>(v@),
        r matches Err(e) ==> e == ProgramError::InvalidAccountData,
{
    match issuer_record_from_prefix(data) {
        Some(v) => Ok(v),
        None => Err(ProgramError::InvalidAccountData),
    }
}

pub fn deserialize_role_entry(data: &[u8]) -> (r: Result<RoleEntry, ProgramError>)
    ensures
        r.is_ok() == decoded(dec_role_entry(data@)).is_ok(),
        r matches Ok(v) ==> decoded(dec_role_entry(data@)) == Ok::<_, ProgramError>(v@),
        r matches Err(e) ==> e == ProgramError::InvalidAccountData,
{
    match role_entry_from_prefix(data) {
        Some(v) => Ok(v),
        None => Err(ProgramError::InvalidAccountData),
    }
}

pub fn deserialize_role_assignment(data: &[u8]) -> (r: Result<WalletRoleAssignment, ProgramError>)
    ensures
        r == decoded(dec_wallet_role_assignment(data@)),
{
    match wallet_role_assignment_from_prefix(data) {
        Some(v) => Ok(v),
        None => Err(ProgramError::InvalidAccountData),
    }
}

/// Why an issuer may not issue clearance of a tier, in the order checked.
pub open spec fn spec_verify_issuer(record: IssuerRecordModel, issuer: Pubkey, tier: ClearanceTier) -> Result<(), ProgramError> {
    if issuer != record.authority {
        Err(custom(PermissionRegistryError::Unauthorized))
    } else if !record.is_active {
        Err(custom(PermissionRegistryError::IssuerInactive))
    } else if record.tier != tier {
        Err(custom(PermissionRegistryError::IssuerNotAuthorizedForTier))
    } else {
        Ok(())
    }
}

/// The issuer must be the record's authority, active, and registered for the tier.
pub fn verify_issuer(issuer_record: &IssuerRecord, issuer_pubkey: &Pubkey, requested_tier: ClearanceTier) -> (r: Result<(), ProgramError>)
    ensures
        r == spec_verify_issuer(issuer_record@, *issuer_pubkey, requested_tier),
{
    if *issuer_pubkey != issuer_record.authority {
        return Err(ProgramError::Custom(PermissionRegistryError::Unauthorized.code()));
    }
    if !issuer_record.is_active {
        return Err(ProgramError::Custom(PermissionRegistryError::IssuerInactive.code()));
    }
    if issuer_record.tier != requested_tier {
        return Err(ProgramError::Custom(PermissionRegistryError::IssuerNotAuthorizedForTier.code()));
    }
    Ok(())
}

/// Why a clearance token does not meet a requirement at a slot, in the order checked.
pub open spec fn spec_verify_clearance(sbt: ClearanceSbt, required_tier: ClearanceTier, current_slot: u64) -> Result<(), ProgramError> {
    if !sbt.is_active {
        Err(custom(PermissionRegistryError::SbtRevoked))
    } else if !sbt.spec_is_valid_at(current_slot) {
        Err(custom(PermissionRegistryError::SbtExpired))
    } else if !sbt.tier.spec_satisfies(required_tier) {
        Err(custom(PermissionRegistryError::ClearanceMissing))
    } else {
        Ok(())
    }
}

/// The token must be active, unexpired at the slot, and of the required tier or above.
pub fn verify_clearance(sbt: &ClearanceSbt, required_tier: ClearanceTier, current_slot: u64) -> (r: Result<(), ProgramError>)
    ensures
        r == spec_verify_clearance(*sbt, required_tier, current_slot),
{
    if !sbt.is_active {
        return Err(ProgramError::Custom(PermissionRegistryError::SbtRevoked.code()));
    }
    if !sbt.is_valid_at(current_slot) {
        return Err(ProgramError::Custom(PermissionRegistryError::SbtExpired.code()));
    }
    if !sbt.tier.satisfies(required_tier) {
        return Err(ProgramError::Custom(PermissionRegistryError::ClearanceMissing.code()));
    }
    Ok(())
}

/// A clearance that meets a requirement meets every lower requirement, and at
/// every earlier slot.
pub proof fn law_clearance_covers_lower(sbt: ClearanceSbt, required: ClearanceTier, lower: ClearanceTier, slot: u64, earlier: u64)
    requires
        spec_verify_clearance(sbt, required, slot) is Ok,
        required.spec_satisfies(lower),
        earlier <= slot,
    ensures
        spec_verify_clearance(sbt, lower, slot) is Ok,
        spec_verify_clearance(sbt, required, earlier) is Ok,
{
}

/// The checks agree with validity: a clearance accepted at a slot is valid
/// there, and a valid clearance of a sufficient tier is accepted.
pub proof fn law_clearance_accepted_iff(sbt: ClearanceSbt, required: ClearanceTier, slot: u64)
    ensures
        spec_verify_clearance(sbt, required, slot) is Ok <==> (sbt.spec_is_valid_at(slot) && sbt.tier.spec_satisfies(required)),
{
}

} // verus!
