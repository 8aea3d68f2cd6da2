//! Instruction processing of the permission registry.
use vstd::prelude::*;
use crate::errors::{map_err, spec_map_err, InstructionError};
use crate::permission_registry::state::{
    deserialize_clearance_sbt, deserialize_issuer_record, deserialize_role_assignment,
    deserialize_role_entry, spec_verify_issuer, verify_issuer,
};
use crate::permission_registry::types::{
    dec_permission_registry_instruction, dec_registry_config, enc_registry_config,
    permission_registry_instruction_from_slice, registry_config_to_vec, PermissionRegistryError,
    PermissionRegistryInstruction, PermissionRegistryInstructionModel, RegistryConfig,
};
use crate::permission_types::envelope::VERSION;
use crate::permission_types::types::{
    access_result_to_vec, clearance_sbt_to_vec, dec_clearance_sbt,
    dec_encrypted_payload_envelope, dec_issuer_record, dec_role_entry,
    dec_wallet_role_assignment, enc_access_result, enc_clearance_sbt, enc_issuer_record,
    enc_role_entry, enc_wallet_role_assignment, encrypted_payload_envelope_from_slice,
    fits_issuer_record, fits_role_entry, issuer_record_to_vec, role_entry_to_vec,
    wallet_role_assignment_to_vec, AccessDeniedReason, AccessResult, ClearanceSbt, ClearanceTier,
    IssuerRecord, IssuerRecordModel, KeyState, RoleEntry, RoleEntryModel, WalletRoleAssignment,
};
use crate::pubkey::{bytes32_eq, contains_key, Pubkey};
use crate::runtime::{all_zero, is_all_zero, spec_write, ContextModel, InstructionContext};

use crate::subnet_registry::types::{dec_subnet_record, enc_subnet_record, fits_subnet_record, lemma_subnet_record, SubnetRecordModel};
use crate::subnet_registry::state::deserialize_subnet_record;
use crate::revocation_registry::types::dec_key_record;
use crate::revocation_registry::state::deserialize_key_record;

verus! {

pub open spec fn err(e: PermissionRegistryError) -> InstructionError {
    InstructionError::Custom(e.spec_code())
}

/// Writing an encoding that may not fit its length prefixes.
pub open spec fn spec_store(c: ContextModel, i: int, fits: bool, bytes: Seq<u8>) -> (Result<(), InstructionError>, ContextModel) {
    if !fits {
        (Err(InstructionError::InvalidAccountData), c)
    } else {
        spec_write(c, i, bytes)
    }
}

/// InitializeRegistry: accounts `[config (w), upgrade authority (s)]`.
pub open spec fn spec_initialize_registry(c: ContextModel, current_slot: u64) -> (Result<(), InstructionError>, ContextModel) {
    if c.accounts.len() < 2 {
        (Err(InstructionError::NotEnoughAccountKeys), c)
    } else if !c.is_signer(1) {
        (Err(InstructionError::MissingRequiredSignature), c)
    } else if dec_registry_config(c.data(0)) matches Some((cfg, _)) && cfg.is_initialized {
        (Err(err(PermissionRegistryError::AlreadyInitialized)), c)
    } else {
        spec_write(c, 0, enc_registry_config(RegistryConfig { is_initialized: true, upgrade_authority: c.key(1), created_at_slot: current_slot }))
    }
}

/// The registry configuration in account 1, initialized, with account 2 its
/// upgrade authority, signing.
pub open spec fn spec_admin_checks(c: ContextModel) -> Result<(), InstructionError> {
    match dec_registry_config(c.data(1)) {
        None => Err(InstructionError::InvalidAccountData),
        Some((cfg, _)) => if !cfg.is_initialized {
            Err(err(PermissionRegistryError::Uninitialized))
        } else if !c.is_signer(2) {
            Err(InstructionError::MissingRequiredSignature)
        } else if c.key(2) != cfg.upgrade_authority {
            Err(err(PermissionRegistryError::Unauthorized))
        } else {
            Ok(())
        },
    }
}

/// RegisterIssuer: accounts `[issuer record (w), config, upgrade authority (s)]`.
pub open spec fn spec_register_issuer(c: ContextModel, authority: Pubkey, tier: ClearanceTier, label: Seq<char>, current_slot: u64) -> (Result<(), InstructionError>, ContextModel) {
    let record = IssuerRecordModel { authority, tier, label, is_active: true, registered_at_slot: current_slot };
    if c.accounts.len() < 3 {
        (Err(InstructionError::NotEnoughAccountKeys), c)
    } else {
        match spec_admin_checks(c) {
            Err(e) => (Err(e), c),
            Ok(_) => spec_store(c, 0, fits_issuer_record(record), enc_issuer_record(record)),
        }
    }
}

/// DeactivateIssuer: accounts `[issuer record (w), config, upgrade authority (s)]`.
pub open spec fn spec_deactivate_issuer(c: ContextModel) -> (Result<(), InstructionError>, ContextModel) {
    if c.accounts.len() < 3 {
        (Err(InstructionError::NotEnoughAccountKeys), c)
    } else {
        match spec_admin_checks(c) {
            Err(e) => (Err(e), c),
            Ok(_) => match dec_issuer_record(c.data(0)) {
                None => (Err(InstructionError::InvalidArgument), c),
                Some((rec, _)) => {
                    let r2 = IssuerRecordModel { is_active: false, ..rec };
                    spec_store(c, 0, fits_issuer_record(r2), enc_issuer_record(r2))
                },
            },
        }
    }
}

/// IssueClearance: accounts `[clearance token (w), issuer record, issuer (s)]`.
pub open spec fn spec_issue_clearance(
    c: ContextModel,
    holder: Pubkey,
    tier: ClearanceTier,
    valid_until_slot: Option<u64>,
    revocation_registry: Pubkey,
    current_slot: u64,
) -> (Result<(), InstructionError>, ContextModel) {
    if c.accounts.len() < 3 {
        (Err(InstructionError::NotEnoughAccountKeys), c)
    } else {
        match dec_issuer_record(c.data(1)) {
            None => (Err(InstructionError::InvalidArgument), c),
            Some((rec, _)) => if !c.is_signer(2) {
                (Err(InstructionError::MissingRequiredSignature), c)
            } else if spec_verify_issuer(rec, c.key(2), tier) is Err {
                (Err(spec_map_err(spec_verify_issuer(rec, c.key(2), tier)->Err_0)), c)
            } else if dec_clearance_sbt(c.data(0)) matches Some((sbt, _)) && sbt.is_active {
                (Err(err(PermissionRegistryError::SbtAlreadyExists)), c)
            } else {
                spec_write(c, 0, enc_clearance_sbt(ClearanceSbt {
                    holder,
                    tier,
                    issuer: c.key(2),
                    issued_at_slot: current_slot,
                    valid_until_slot,
                    revocation_registry,
                    is_active: true,
                }))
            },
        }
    }
}

/// Account 2, owned by this program, holds the initialized registry
/// configuration whose upgrade authority is account 1.
pub open spec fn spec_is_upgrade_authority(c: ContextModel) -> bool {
    &&& c.accounts.len() >= 3
    &&& c.owner(2) == c.program_id
    &&& dec_registry_config(c.data(2)) matches Some((cfg, _))
    &&& cfg.is_initialized
    &&& cfg.upgrade_authority == c.key(1)
}

/// RevokeClearance: accounts `[clearance token (w), issuer or upgrade
/// authority (s), registry config (when the signer is not the issuer)]`; the
/// issuing key or the registry's upgrade authority may revoke.
pub open spec fn spec_revoke_clearance(c: ContextModel) -> (Result<(), InstructionError>, ContextModel) {
    if c.accounts.len() < 2 {
        (Err(InstructionError::NotEnoughAccountKeys), c)
    } else if !c.is_signer(1) {
        (Err(InstructionError::MissingRequiredSignature), c)
    } else {
        match dec_clearance_sbt(c.data(0)) {
            None => (Err(InstructionError::InvalidArgument), c),
            Some((sbt, _)) => if sbt.issuer != c.key(1) && !spec_is_upgrade_authority(c) {
                (Err(InstructionError::IncorrectAuthority), c)
            } else {
                spec_write(c, 0, enc_clearance_sbt(ClearanceSbt { is_active: false, ..sbt }))
            },
        }
    }
}

/// RegisterRole: accounts `[role entry (w), authority (s)]`.
pub open spec fn spec_register_role(
    c: ContextModel,
    role_id: [u8; 32],
    label: Seq<char>,
    min_clearance: ClearanceTier,
    max_clearance: ClearanceTier,
    subnet_bindings: Seq<[u8; 32]>,
    current_slot: u64,
) -> (Result<(), InstructionError>, ContextModel) {
    let entry = RoleEntryModel {
        role_id,
        authority: c.key(1),
        label,
        min_clearance,
        max_clearance,
        subnet_bindings,
        created_at_slot: current_slot,
        is_active: true,
    };
    if c.accounts.len() < 2 {
        (Err(InstructionError::NotEnoughAccountKeys), c)
    } else if !c.is_signer(1) {
        (Err(InstructionError::MissingRequiredSignature), c)
    } else if dec_role_entry(c.data(0)) matches Some((e, _)) && e.is_active {
        (Err(err(PermissionRegistryError::RoleAlreadyExists)), c)
    } else {
        spec_store(c, 0, fits_role_entry(entry), enc_role_entry(entry))
    }
}

/// DeactivateRole: accounts `[role entry (w), role authority (s)]`.
pub open spec fn spec_deactivate_role(c: ContextModel) -> (Result<(), InstructionError>, ContextModel) {
    if c.accounts.len() < 2 {
        (Err(InstructionError::NotEnoughAccountKeys), c)
    } else if !c.is_signer(1) {
        (Err(InstructionError::MissingRequiredSignature), c)
    } else {
        match dec_role_entry(c.data(0)) {
            None => (Err(InstructionError::InvalidArgument), c),
            Some((e, _)) => if e.authority != c.key(1) {
                (Err(InstructionError::IncorrectAuthority), c)
            } else {
                let e2 = RoleEntryModel { is_active: false, ..e };
                spec_store(c, 0, fits_role_entry(e2), enc_role_entry(e2))
            },
        }
    }
}

/// AssignRole: accounts `[assignment (w), role entry, caller's clearance token,
/// assigning authority (s)]`; the token must be the signer's own.
pub open spec fn spec_assign_role(c: ContextModel, wallet: Pubkey, role_id: [u8; 32], current_slot: u64) -> (Result<(), InstructionError>, ContextModel) {
    if c.accounts.len() < 4 {
        (Err(InstructionError::NotEnoughAccountKeys), c)
    } else {
        match dec_role_entry(c.data(1)) {
            None => (Err(InstructionError::InvalidArgument), c),
            Some((role, _)) => if !role.is_active {
                (Err(err(PermissionRegistryError::RoleInactive)), c)
            } else if role.role_id != role_id {
                (Err(InstructionError::InvalidArgument), c)
            } else {
                match dec_clearance_sbt(c.data(2)) {
                    None => (Err(InstructionError::InvalidArgument), c),
                    Some((sbt, _)) => if !sbt.is_active {
                        (Err(err(PermissionRegistryError::ClearanceMissing)), c)
                    } else if !sbt.tier.spec_satisfies(role.min_clearance) {
                        (Err(err(PermissionRegistryError::ClearanceOutOfRoleRange)), c)
                    } else if !c.is_signer(3) {
                        (Err(InstructionError::MissingRequiredSignature), c)
                    } else if sbt.holder != c.key(3) {
                        (Err(err(PermissionRegistryError::ClearanceMissing)), c)
                    } else if dec_wallet_role_assignment(c.data(0)) matches Some((a, _)) && a.is_active {
                        (Err(err(PermissionRegistryError::AssignmentAlreadyExists)), c)
                    } else {
                        spec_write(c, 0, enc_wallet_role_assignment(WalletRoleAssignment {
                            wallet,
                            role_id,
                            assigned_at_slot: current_slot,
                            assigned_by: c.key(3),
                            is_active: true,
                        }))
                    },
                }
            },
        }
    }
}

/// RevokeRole: accounts `[assignment (w), role entry, role authority (s)]`.
pub open spec fn spec_revoke_role(c: ContextModel) -> (Result<(), InstructionError>, ContextModel) {
    if c.accounts.len() < 3 {
        (Err(InstructionError::NotEnoughAccountKeys), c)
    } else {
        match dec_role_entry(c.data(1)) {
            None => (Err(InstructionError::InvalidArgument), c),
            Some((role, _)) => if !c.is_signer(2) {
                (Err(InstructionError::MissingRequiredSignature), c)
            } else if role.authority != c.key(2) {
                (Err(InstructionError::IncorrectAuthority), c)
            } else {
                match dec_wallet_role_assignment(c.data(0)) {
                    None => (Err(InstructionError::InvalidArgument), c),
                    Some((a, _)) => spec_write(c, 0, enc_wallet_role_assignment(WalletRoleAssignment { is_active: false, ..a })),
                }
            },
        }
    }
}

/// Step 1 of the access chain: the wallet's own clearance token in `data`,
/// active, unexpired and of the required tier.
pub open spec fn spec_clearance_step(data: Seq<u8>, wallet: Pubkey, required_tier: ClearanceTier, current_slot: u64) -> AccessResult {
    if all_zero(data) {
        AccessResult::Denied(AccessDeniedReason::ClearanceMissing)
    } else {
        match dec_clearance_sbt(data) {
            None => AccessResult::Denied(AccessDeniedReason::ClearanceMissing),
            Some((sbt, _)) => if sbt.holder != wallet {
                AccessResult::Denied(AccessDeniedReason::ClearanceMissing)
            } else if !sbt.is_active {
                AccessResult::Denied(AccessDeniedReason::ClearanceRevoked)
            } else if !sbt.spec_is_valid_at(current_slot) {
                AccessResult::Denied(AccessDeniedReason::ClearanceExpired)
            } else if !sbt.tier.spec_satisfies(required_tier) {
                AccessResult::Denied(AccessDeniedReason::ClearanceMissing)
            } else {
                AccessResult::Granted
            },
        }
    }
}

/// Step 2: an active assignment of the required role to the wallet in `data`.
pub open spec fn spec_role_step(data: Seq<u8>, wallet: Pubkey, required_role_id: [u8; 32]) -> AccessResult {
    if all_zero(data) {
        AccessResult::Denied(AccessDeniedReason::RoleMissing)
    } else {
        match dec_wallet_role_assignment(data) {
            None => AccessResult::Denied(AccessDeniedReason::RoleMissing),
            Some((a, _)) => if !a.is_active || a.role_id != required_role_id || a.wallet != wallet {
                AccessResult::Denied(AccessDeniedReason::RoleMissing)
            } else {
                AccessResult::Granted
            },
        }
    }
}

/// Step 2b: the entry of the required role in `entry` is active, and the
/// tier of the clearance token in `sbt` lies within the role's
/// `min_clearance..=max_clearance`.
pub open spec fn spec_role_entry_step(entry: Seq<u8>, sbt: Seq<u8>, required_role_id: [u8; 32]) -> AccessResult {
    match dec_role_entry(entry) {
        None => AccessResult::Denied(AccessDeniedReason::RoleMissing),
        Some((r, _)) => if !r.is_active {
            AccessResult::Denied(AccessDeniedReason::RoleInactive)
        } else if r.role_id != required_role_id {
            AccessResult::Denied(AccessDeniedReason::RoleMissing)
        } else {
            match dec_clearance_sbt(sbt) {
                None => AccessResult::Denied(AccessDeniedReason::ClearanceMissing),
                Some((t, _)) => if !(t.tier.spec_satisfies(r.min_clearance) && r.max_clearance.spec_satisfies(t.tier)) {
                    AccessResult::Denied(AccessDeniedReason::ClearanceOutOfRange)
                } else {
                    AccessResult::Granted
                },
            }
        },
    }
}

/// Step 3: the subnet record in `data`, owned by the subnet registry, is the
/// initialized record of `subnet_id`, is not frozen, and lists the wallet
/// among its members. A record that is not that (wrong owner, undecodable,
/// another subnet) is no proof of the wallet's place in the subnet.
pub open spec fn spec_subnet_step(owner: Pubkey, subnet_registry: Pubkey, data: Seq<u8>, subnet_id: [u8; 32], wallet: Pubkey) -> AccessResult {
    if owner != subnet_registry {
        AccessResult::Denied(AccessDeniedReason::SubnetMembershipMissing)
    } else {
        match dec_subnet_record(data) {
            None => AccessResult::Denied(AccessDeniedReason::SubnetMembershipMissing),
            Some((r, _)) => if !r.is_initialized || r.subnet_id != subnet_id {
                AccessResult::Denied(AccessDeniedReason::SubnetMembershipMissing)
            } else if r.is_frozen {
                AccessResult::Denied(AccessDeniedReason::SubnetFrozen)
            } else if !r.validator_set.contains(wallet) {
                AccessResult::Denied(AccessDeniedReason::SubnetMembershipMissing)
            } else {
                AccessResult::Granted
            },
        }
    }
}

/// The access policy chain for `wallet` over accounts `[clearance token, role
/// assignment, role entry, subnet record]`: the first step that denies
/// decides; tier `Public` needs no step.
pub open spec fn spec_access(
    c: ContextModel,
    subnet_registry: Pubkey,
    wallet: Pubkey,
    required_tier: ClearanceTier,
    required_role_id: [u8; 32],
    subnet_id: [u8; 32],
    current_slot: u64,
) -> AccessResult {
    if required_tier == ClearanceTier::Public {
        AccessResult::Granted
    } else if spec_clearance_step(c.data(0), wallet, required_tier, current_slot) != AccessResult::Granted {
        spec_clearance_step(c.data(0), wallet, required_tier, current_slot)
    } else if spec_role_step(c.data(1), wallet, required_role_id) != AccessResult::Granted {
        spec_role_step(c.data(1), wallet, required_role_id)
    } else if spec_role_entry_step(c.data(2), c.data(0), required_role_id) != AccessResult::Granted {
        spec_role_entry_step(c.data(2), c.data(0), required_role_id)
    } else {
        spec_subnet_step(c.owner(3), subnet_registry, c.data(3), subnet_id, wallet)
    }
}

/// EvaluateAccess: the result is published as return data; a denial is also
/// the instruction's error, carrying the reason's code.
pub open spec fn spec_evaluate_access(
    c: ContextModel,
    subnet_registry: Pubkey,
    wallet: Pubkey,
    required_tier: ClearanceTier,
    required_role_id: [u8; 32],
    subnet_id: [u8; 32],
    current_slot: u64,
) -> (Result<(), InstructionError>, ContextModel) {
    if c.accounts.len() < 4 {
        (Err(InstructionError::NotEnoughAccountKeys), c)
    } else {
        let result = spec_access(c, subnet_registry, wallet, required_tier, required_role_id, subnet_id, current_slot);
        let c1 = c.with_return(enc_access_result(result));
        match result {
            AccessResult::Granted => (Ok(()), c1),
            AccessResult::Denied(reason) => (Err(InstructionError::Custom(reason.spec_code())), c1),
        }
    }
}

/// DecryptHeader: accounts `[key record]`. The header must decode exactly to
/// an envelope of the current version. A key record that decodes must be
/// active; data that does not decode as a key record (none, for a key never
/// registered) is refused only when it is long enough to hold a state and its
/// byte at offset 32 is not zero. The key id is returned.
pub open spec fn spec_decrypt_header(c: ContextModel, header: Seq<u8>) -> (Result<(), InstructionError>, ContextModel) {
    match dec_encrypted_payload_envelope(header) {
        Some((env, rest)) => if rest.len() != 0 {
            (Err(InstructionError::InvalidInstructionData), c)
        } else if env.version != VERSION {
            (Err(err(PermissionRegistryError::InvalidEnvelopeVersion)), c)
        } else if c.accounts.len() < 1 {
            (Err(InstructionError::NotEnoughAccountKeys), c)
        } else {
            match dec_key_record(c.data(0)) {
                Some((k, _)) => if k.state != KeyState::Active {
                    (Err(err(PermissionRegistryError::KeyRevoked)), c)
                } else {
                    (Ok(()), c.with_return(env.key_id@))
                },
                None => if c.data(0).len() >= 33 && c.data(0)[32] != 0 {
                    (Err(err(PermissionRegistryError::KeyRevoked)), c)
                } else {
                    (Ok(()), c.with_return(env.key_id@))
                },
            }
        },
        None => (Err(InstructionError::InvalidInstructionData), c),
    }
}

pub open spec fn spec_process(c: ContextModel, data: Seq<u8>, subnet_registry: Pubkey) -> (Result<(), InstructionError>, ContextModel) {
    match dec_permission_registry_instruction(data) {
        Some((ix, rest)) => if rest.len() != 0 {
            (Err(InstructionError::InvalidInstructionData), c)
        } else {
            match ix {
                PermissionRegistryInstructionModel::InitializeRegistry { current_slot } => spec_initialize_registry(c, current_slot),
                PermissionRegistryInstructionModel::RegisterIssuer { authority, tier, label, current_slot } =>
                    spec_register_issuer(c, authority, tier, label, current_slot),
                PermissionRegistryInstructionModel::DeactivateIssuer { .. } => spec_deactivate_issuer(c),
                PermissionRegistryInstructionModel::IssueClearance { holder, tier, valid_until_slot, revocation_registry, current_slot } =>
                    spec_issue_clearance(c, holder, tier, valid_until_slot, revocation_registry, current_slot),
                PermissionRegistryInstructionModel::RevokeClearance { .. } => spec_revoke_clearance(c),
                PermissionRegistryInstructionModel::RegisterRole { role_id, label, min_clearance, max_clearance, subnet_bindings, current_slot } =>
                    spec_register_role(c, role_id, label, min_clearance, max_clearance, subnet_bindings, current_slot),
                PermissionRegistryInstructionModel::DeactivateRole { .. } => spec_deactivate_role(c),
                PermissionRegistryInstructionModel::AssignRole { wallet, role_id, current_slot } => spec_assign_role(c, wallet, role_id, current_slot),
                PermissionRegistryInstructionModel::RevokeRole { .. } => spec_revoke_role(c),
                PermissionRegistryInstructionModel::EvaluateAccess { wallet, required_tier, required_role_id, subnet_id, current_slot } =>
                    spec_evaluate_access(c, subnet_registry, wallet, required_tier, required_role_id, subnet_id, current_slot),
                PermissionRegistryInstructionModel::DecryptHeader { envelope_header } => spec_decrypt_header(c, envelope_header),
            }
        },
        None => (Err(InstructionError::InvalidInstructionData), c),
    }
}

fn granted(r: &AccessResult) -> (b: bool)
    ensures
        b == (*r == AccessResult::Granted),
{
    match r {
        AccessResult::Granted => true,
        AccessResult::Denied(_) => false,
    }
}

pub struct Processor;

impl Processor {
    /// Runs one instruction; `subnet_registry` is the id of the subnet
    /// registry program, the owner that a subnet record must have.
    pub fn process(ctx: &mut InstructionContext, instruction_data: &[u8], subnet_registry: &Pubkey) -> (r: Result<(), InstructionError>)
        ensures
            (r, final(ctx)@) == spec_process(old(ctx)@, instruction_data@, *subnet_registry),
    {
        let instruction = match permission_registry_instruction_from_slice(instruction_data) {
            Some(ix) => ix,
            None => return Err(InstructionError::InvalidInstructionData),
        };
        match instruction {
            PermissionRegistryInstruction::InitializeRegistry { current_slot } => Self::process_initialize_registry(ctx, current_slot),
            PermissionRegistryInstruction::RegisterIssuer { authority, tier, label, current_slot } =>
                Self::process_register_issuer(ctx, authority, tier, label, current_slot),
            PermissionRegistryInstruction::DeactivateIssuer { authority, tier } => Self::process_deactivate_issuer(ctx, authority, tier),
            PermissionRegistryInstruction::IssueClearance { holder, tier, valid_until_slot, revocation_registry, current_slot } =>
                Self::process_issue_clearance(ctx, holder, tier, valid_until_slot, revocation_registry, current_slot),
            PermissionRegistryInstruction::RevokeClearance { holder, tier } => Self::process_revoke_clearance(ctx, holder, tier),
            PermissionRegistryInstruction::RegisterRole { role_id, label, min_clearance, max_clearance, subnet_bindings, current_slot } =>
                Self::process_register_role(ctx, role_id, label, min_clearance, max_clearance, subnet_bindings, current_slot),
            PermissionRegistryInstruction::DeactivateRole { role_id } => Self::process_deactivate_role(ctx, role_id),
            PermissionRegistryInstruction::AssignRole { wallet, role_id, current_slot } => Self::process_assign_role(ctx, wallet, role_id, current_slot),
            PermissionRegistryInstruction::RevokeRole { wallet, role_id } => Self::process_revoke_role(ctx, wallet, role_id),
            PermissionRegistryInstruction::EvaluateAccess { wallet, required_tier, required_role_id, subnet_id, current_slot } =>
                Self::process_evaluate_access(ctx, subnet_registry, wallet, required_tier, required_role_id, subnet_id, current_slot),
            PermissionRegistryInstruction::DecryptHeader { envelope_header } => Self::process_decrypt_header(ctx, envelope_header),
        }
    }

    pub fn process_initialize_registry(ctx: &mut InstructionContext, current_slot: u64) -> (r: Result<(), InstructionError>)
        ensures
            (r, final(ctx)@) == spec_initialize_registry(old(ctx)@, current_slot),
    {
        if let Err(e) = ctx.check_number_of_instruction_accounts(2) {
            return Err(e);
        }
        if !ctx.is_signer(1) {
            return Err(InstructionError::MissingRequiredSignature);
        }
        let upgrade_authority = ctx.key(1);
        if let Ok(existing) = RegistryConfig::deserialize_padded(ctx.data(0)) {
            if existing.is_initialized {
                return Err(InstructionError::Custom(PermissionRegistryError::AlreadyInitialized.code()));
            }
        }
        let config = RegistryConfig::new(upgrade_authority, current_slot);
        ctx.write_account(0, &registry_config_to_vec(&config))
    }

    fn admin_checks(ctx: &InstructionContext) -> (r: Result<(), InstructionError>)
        requires
            3 <= ctx@.accounts.len(),
        ensures
            r == spec_admin_checks(ctx@),
    {
        let config = match RegistryConfig::deserialize_padded(ctx.data(1)) {
            Ok(c) => c,
            Err(_) => return Err(InstructionError::InvalidAccountData),
        };
        if let Err(e) = config.ensure_initialized() {
            return Err(map_err(e));
        }
        if !ctx.is_signer(2) {
            return Err(InstructionError::MissingRequiredSignature);
        }
        if let Err(e) = config.ensure_upgrade_authority(&ctx.key(2)) {
            return Err(map_err(e));
        }
        Ok(())
    }

    pub fn process_register_issuer(
        ctx: &mut InstructionContext,
        authority: Pubkey,
        tier: ClearanceTier,
        label: String,
        current_slot: u64,
    ) -> (r: Result<(), InstructionError>)
        ensures
            (r, final(ctx)@) == spec_register_issuer(old(ctx)@, authority, tier, label@, current_slot),
    {
        if let Err(e) = ctx.check_number_of_instruction_accounts(3) {
            return Err(e);
        }
        if let Err(e) = Self::admin_checks(ctx) {
            return Err(e);
        }
        let record = IssuerRecord { authority, tier, label, is_active: true, registered_at_slot: current_slot };
        match issuer_record_to_vec(&record) {
            None => Err(InstructionError::InvalidAccountData),
            Some(bytes) => ctx.write_account(0, &bytes),
        }
    }

    pub fn process_deactivate_issuer(ctx: &mut InstructionContext, authority: Pubkey, tier: ClearanceTier) -> (r: Result<(), InstructionError>)
        ensures
            (r, final(ctx)@) == spec_deactivate_issuer(old(ctx)@),
    {
        if let Err(e) = ctx.check_number_of_instruction_accounts(3) {
            return Err(e);
        }
        if let Err(e) = Self::admin_checks(ctx) {
            return Err(e);
        }
        let mut record = match deserialize_issuer_record(ctx.data(0)) {
            Ok(r) => r,
            Err(e) => return Err(map_err(e)),
        };
        record.is_active = false;
        match issuer_record_to_vec(&record) {
            None => Err(InstructionError::InvalidAccountData),
            Some(bytes) => ctx.write_account(0, &bytes),
        }
    }

    pub fn process_issue_clearance(
        ctx: &mut InstructionContext,
        holder: Pubkey,
        tier: ClearanceTier,
        valid_until_slot: Option<u64>,
        revocation_registry: Pubkey,
        current_slot: u64,
    ) -> (r: Result<(), InstructionError>)
        ensures
            (r, final(ctx)@) == spec_issue_clearance(old(ctx)@, holder, tier, valid_until_slot, revocation_registry, current_slot),
    {
        if let Err(e) = ctx.check_number_of_instruction_accounts(3) {
            return Err(e);
        }
        let record = match deserialize_issuer_record(ctx.data(1)) {
            Ok(r) => r,
            Err(e) => return Err(map_err(e)),
        };
        if !ctx.is_signer(2) {
            return Err(InstructionError::MissingRequiredSignature);
        }
        let issuer = ctx.key(2);
        if let Err(e) = verify_issuer(&record, &issuer, tier) {
            return Err(map_err(e));
        }
        if let Ok(existing) = deserialize_clearance_sbt(ctx.data(0)) {
            if existing.is_active {
                return Err(InstructionError::Custom(PermissionRegistryError::SbtAlreadyExists.code()));
            }
        }
        let sbt = ClearanceSbt {
            holder,
            tier,
            issuer,
            issued_at_slot: current_slot,
            valid_until_slot,
            revocation_registry,
            is_active: true,
        };
        ctx.write_account(0, &clearance_sbt_to_vec(&sbt))
    }

    fn is_upgrade_authority(ctx: &InstructionContext) -> (r: bool)
        requires
            2 <= ctx@.accounts.len(),
        ensures
            r == spec_is_upgrade_authority(ctx@),
    {
        if ctx.accounts.len() < 3 {
            return false;
        }
        if ctx.owner(2) != ctx.program_id {
            return false;
        }
        match RegistryConfig::deserialize_padded(ctx.data(2)) {
            Ok(cfg) => cfg.is_initialized && cfg.upgrade_authority == ctx.key(1),
            Err(_) => false,
        }
    }

    pub fn process_revoke_clearance(ctx: &mut InstructionContext, holder: Pubkey, tier: ClearanceTier) -> (r: Result<(), InstructionError>)
        ensures
            (r, final(ctx)@) == spec_revoke_clearance(old(ctx)@),
    {
        if let Err(e) = ctx.check_number_of_instruction_accounts(2) {
            return Err(e);
        }
        if !ctx.is_signer(1) {
            return Err(InstructionError::MissingRequiredSignature);
        }
        let mut sbt = match deserialize_clearance_sbt(ctx.data(0)) {
            Ok(s) => s,
            Err(e) => return Err(map_err(e)),
        };
        if sbt.issuer != ctx.key(1) && !Self::is_upgrade_authority(ctx) {
            return Err(InstructionError::IncorrectAuthority);
        }
        sbt.is_active = false;
        ctx.write_account(0, &clearance_sbt_to_vec(&sbt))
    }

    pub fn process_register_role(
        ctx: &mut InstructionContext,
        role_id: [u8; 32],
        label: String,
        min_clearance: ClearanceTier,
        max_clearance: ClearanceTier,
        subnet_bindings: Vec<[u8; 32]>,
        current_slot: u64,
    ) -> (r: Result<(), InstructionError>)
        ensures
            (r, final(ctx)@) == spec_register_role(old(ctx)@, role_id, label@, min_clearance, max_clearance, subnet_bindings@, current_slot),
    {
        if let Err(e) = ctx.check_number_of_instruction_accounts(2) {
            return Err(e);
        }
        if !ctx.is_signer(1) {
            return Err(InstructionError::MissingRequiredSignature);
        }
        let authority = ctx.key(1);
        if let Ok(existing) = deserialize_role_entry(ctx.data(0)) {
            if existing.is_active {
                return Err(InstructionError::Custom(PermissionRegistryError::RoleAlreadyExists.code()));
            }
        }
        let entry = RoleEntry {
            role_id,
            authority,
            label,
            min_clearance,
            max_clearance,
            subnet_bindings,
            created_at_slot: current_slot,
            is_active: true,
        };
        match role_entry_to_vec(&entry) {
            None => Err(InstructionError::InvalidAccountData),
            Some(bytes) => ctx.write_account(0, &bytes),
        }
    }

    pub fn process_deactivate_role(ctx: &mut InstructionContext, role_id: [u8; 32]) -> (r: Result<(), InstructionError>)
        ensures
            (r, final(ctx)@) == spec_deactivate_role(old(ctx)@),
    {
        if let Err(e) = ctx.check_number_of_instruction_accounts(2) {
            return Err(e);
        }
        if !ctx.is_signer(1) {
            return Err(InstructionError::MissingRequiredSignature);
        }
        let mut entry = match deserialize_role_entry(ctx.data(0)) {
            Ok(e) => e,
            Err(e) => return Err(map_err(e)),
        };
        if entry.authority != ctx.key(1) {
            return Err(InstructionError::IncorrectAuthority);
        }
        entry.is_active = false;
        match role_entry_to_vec(&entry) {
            None => Err(InstructionError::InvalidAccountData),
            Some(bytes) => ctx.write_account(0, &bytes),
        }
    }

    pub fn process_assign_role(ctx: &mut InstructionContext, wallet: Pubkey, role_id: [u8; 32], current_slot: u64) -> (r: Result<(), InstructionError>)
        ensures
            (r, final(ctx)@) == spec_assign_role(old(ctx)@, wallet, role_id, current_slot),
    {
        if let Err(e) = ctx.check_number_of_instruction_accounts(4) {
            return Err(e);
        }
        let role = match deserialize_role_entry(ctx.data(1)) {
            Ok(r) => r,
            Err(e) => return Err(map_err(e)),
        };
        if !role.is_active {
            return Err(InstructionError::Custom(PermissionRegistryError::RoleInactive.code()));
        }
        if !bytes32_eq(&role.role_id, &role_id) {
            return Err(InstructionError::InvalidArgument);
        }
        let caller_sbt = match deserialize_clearance_sbt(ctx.data(2)) {
            Ok(s) => s,
            Err(e) => return Err(map_err(e)),
        };
        if !caller_sbt.is_active {
            return Err(InstructionError::Custom(PermissionRegistryError::ClearanceMissing.code()));
        }
        if !caller_sbt.tier.satisfies(role.min_clearance) {
            return Err(InstructionError::Custom(PermissionRegistryError::ClearanceOutOfRoleRange.code()));
        }
        if !ctx.is_signer(3) {
            return Err(InstructionError::MissingRequiredSignature);
        }
        let assigned_by = ctx.key(3);
        if caller_sbt.holder != assigned_by {
            return Err(InstructionError::Custom(PermissionRegistryError::ClearanceMissing.code()));
        }
        if let Ok(existing) = deserialize_role_assignment(ctx.data(0)) {
            if existing.is_active {
                return Err(InstructionError::Custom(PermissionRegistryError::AssignmentAlreadyExists.code()));
            }
        }
        let assignment = WalletRoleAssignment { wallet, role_id, assigned_at_slot: current_slot, assigned_by, is_active: true };
        ctx.write_account(0, &wallet_role_assignment_to_vec(&assignment))
    }

    pub fn process_revoke_role(ctx: &mut InstructionContext, wallet: Pubkey, role_id: [u8; 32]) -> (r: Result<(), InstructionError>)
        ensures
            (r, final(ctx)@) == spec_revoke_role(old(ctx)@),
    {
        if let Err(e) = ctx.check_number_of_instruction_accounts(3) {
            return Err(e);
        }
        let role = match deserialize_role_entry(ctx.data(1)) {
            Ok(r) => r,
            Err(e) => return Err(map_err(e)),
        };
        if !ctx.is_signer(2) {
            return Err(InstructionError::MissingRequiredSignature);
        }
        if role.authority != ctx.key(2) {
            return Err(InstructionError::IncorrectAuthority);
        }
        let mut assignment = match deserialize_role_assignment(ctx.data(0)) {
            Ok(a) => a,
            Err(e) => return Err(map_err(e)),
        };
        assignment.is_active = false;
        ctx.write_account(0, &wallet_role_assignment_to_vec(&assignment))
    }

    fn clearance_step(data: &[u8], wallet: &Pubkey, required_tier: ClearanceTier, current_slot: u64) -> (r: AccessResult)
        ensures
            r == spec_clearance_step(data@, *wallet, required_tier, current_slot),
    {
        if is_all_zero(data) {
            return AccessResult::Denied(AccessDeniedReason::ClearanceMissing);
        }
        match deserialize_clearance_sbt(data) {
            Err(_) => AccessResult::Denied(AccessDeniedReason::ClearanceMissing),
            Ok(sbt) => {
                if sbt.holder != *wallet {
                    AccessResult::Denied(AccessDeniedReason::ClearanceMissing)
                } else if !sbt.is_active {
                    AccessResult::Denied(AccessDeniedReason::ClearanceRevoked)
                } else if !sbt.is_valid_at(current_slot) {
                    AccessResult::Denied(AccessDeniedReason::ClearanceExpired)
                } else if !sbt.tier.satisfies(required_tier) {
                    AccessResult::Denied(AccessDeniedReason::ClearanceMissing)
                } else {
                    AccessResult::Granted
                }
            },
        }
    }

    fn role_step(data: &[u8], wallet: &Pubkey, required_role_id: &[u8; 32]) -> (r: AccessResult)
        ensures
            r == spec_role_step(data@, *wallet, *required_role_id),
    {
        if is_all_zero(data) {
            return AccessResult::Denied(AccessDeniedReason::RoleMissing);
        }
        match deserialize_role_assignment(data) {
            Err(_) => AccessResult::Denied(AccessDeniedReason::RoleMissing),
            Ok(a) => {
                if !a.is_active || !bytes32_eq(&a.role_id, required_role_id) || a.wallet != *wallet {
                    AccessResult::Denied(AccessDeniedReason::RoleMissing)
                } else {
                    AccessResult::Granted
                }
            },
        }
    }

    fn role_entry_step(entry: &[u8], sbt: &[u8], required_role_id: &[u8; 32]) -> (r: AccessResult)
        ensures
            r == spec_role_entry_step(entry@, sbt@, *required_role_id),
    {
        match deserialize_role_entry(entry) {
            Err(_) => AccessResult::Denied(AccessDeniedReason::RoleMissing),
            Ok(e) => {
                if !e.is_active {
                    AccessResult::Denied(AccessDeniedReason::RoleInactive)
                } else if !bytes32_eq(&e.role_id, required_role_id) {
                    AccessResult::Denied(AccessDeniedReason::RoleMissing)
                } else {
                    match deserialize_clearance_sbt(sbt) {
                        Err(_) => AccessResult::Denied(AccessDeniedReason::ClearanceMissing),
                        Ok(t) => {
                            if !(t.tier.satisfies(e.min_clearance) && e.max_clearance.satisfies(t.tier)) {
                                AccessResult::Denied(AccessDeniedReason::ClearanceOutOfRange)
                            } else {
                                AccessResult::Granted
                            }
                        },
                    }
                }
            },
        }
    }

    fn subnet_step(owner: &Pubkey, subnet_registry: &Pubkey, data: &[u8], subnet_id: &[u8; 32], wallet: &Pubkey) -> (r: AccessResult)
        ensures
            r == spec_subnet_step(*owner, *subnet_registry, data@, *subnet_id, *wallet),
    {
        if *owner != *subnet_registry {
            return AccessResult::Denied(AccessDeniedReason::SubnetMembershipMissing);
        }
        match deserialize_subnet_record(data) {
            Err(_) => AccessResult::Denied(AccessDeniedReason::SubnetMembershipMissing),
            Ok(r) => {
                if !r.is_initialized || !bytes32_eq(&r.subnet_id, subnet_id) {
                    AccessResult::Denied(AccessDeniedReason::SubnetMembershipMissing)
                } else if r.is_frozen {
                    AccessResult::Denied(AccessDeniedReason::SubnetFrozen)
                } else if !contains_key(&r.validator_set, wallet) {
                    AccessResult::Denied(AccessDeniedReason::SubnetMembershipMissing)
                } else {
                    AccessResult::Granted
                }
            },
        }
    }

    /// The access policy chain; see [`spec_access`].
    pub fn evaluate(
        ctx: &InstructionContext,
        subnet_registry: &Pubkey,
        wallet: &Pubkey,
        required_tier: ClearanceTier,
        required_role_id: [u8; 32],
        subnet_id: &[u8; 32],
        current_slot: u64,
    ) -> (r: AccessResult)
        requires
            4 <= ctx@.accounts.len(),
        ensures
            r == spec_access(ctx@, *subnet_registry, *wallet, required_tier, required_role_id, *subnet_id, current_slot),
    {
        if required_tier == ClearanceTier::Public {
            return AccessResult::Granted;
        }
        let clearance = Self::clearance_step(ctx.data(0), wallet, required_tier, current_slot);
        if !granted(&clearance) {
            return clearance;
        }
        let role = Self::role_step(ctx.data(1), wallet, &required_role_id);
        if !granted(&role) {
            return role;
        }
        let entry = Self::role_entry_step(ctx.data(2), ctx.data(0), &required_role_id);
        if !granted(&entry) {
            return entry;
        }
        Self::subnet_step(&ctx.owner(3), subnet_registry, ctx.data(3), subnet_id, wallet)
    }

    pub fn process_evaluate_access(
        ctx: &mut InstructionContext,
        subnet_registry: &Pubkey,
        wallet: Pubkey,
        required_tier: ClearanceTier,
        required_role_id: [u8; 32],
        subnet_id: [u8; 32],
        current_slot: u64,
    ) -> (r: Result<(), InstructionError>)
        ensures
            (r, final(ctx)@) == spec_evaluate_access(old(ctx)@, *subnet_registry, wallet, required_tier, required_role_id, subnet_id, current_slot),
    {
        if let Err(e) = ctx.check_number_of_instruction_accounts(4) {
            return Err(e);
        }
        let result = Self::evaluate(ctx, subnet_registry, &wallet, required_tier, required_role_id, &subnet_id, current_slot);
        ctx.set_return_data(access_result_to_vec(&result));
        match result {
            AccessResult::Granted => Ok(()),
            AccessResult::Denied(reason) => Err(InstructionError::Custom(reason.code())),
        }
    }

    pub fn process_decrypt_header(ctx: &mut InstructionContext, envelope_header: Vec<u8>) -> (r: Result<(), InstructionError>)
        ensures
            (r, final(ctx)@) == spec_decrypt_header(old(ctx)@, envelope_header@),
    {
        let envelope = match encrypted_payload_envelope_from_slice(envelope_header.as_slice()) {
            Some(e) => e,
            None => return Err(InstructionError::InvalidInstructionData),
        };
        if !envelope.is_valid_version() {
            return Err(InstructionError::Custom(PermissionRegistryError::InvalidEnvelopeVersion.code()));
        }
        if let Err(e) = ctx.check_number_of_instruction_accounts(1) {
            return Err(e);
        }
        let key_data = ctx.data(0);
        match deserialize_key_record(key_data) {
            Ok(record) => {
                if record.state != KeyState::Active {
                    return Err(InstructionError::Custom(PermissionRegistryError::KeyRevoked.code()));
                }
            },
            Err(_) => {
                if key_data.len() >= 33 && key_data[32] != 0 {
                    return Err(InstructionError::Custom(PermissionRegistryError::KeyRevoked.code()));
                }
            },
        }
        let key_id = envelope.key_id;
        let mut out: Vec<u8> = Vec::new();
        let mut i: usize = 0;
        while i < 32
            invariant
                i <= 32,
                out@ == key_id@.take(i as int),
            decreases 32 - i,
        {
            out.push(key_id[i]);
            assert(key_id@.take(i + 1) =~= key_id@.take(i as int).push(key_id@[i as int]));
            i = i + 1;
        }
        assert(key_id@.take(32) =~= key_id@);
        ctx.set_return_data(out);
        Ok(())
    }
}

/// The access check reads a subnet as the subnet registry writes it: for the
/// bytes of any initialized subnet record (followed by anything), held by the
/// subnet registry, and a wallet among its members, the subnet step denies
/// exactly when the record is frozen.
pub proof fn law_subnet_step_reads_frozen_flag(subnet_registry: Pubkey, r: SubnetRecordModel, rest: Seq<u8>, wallet: Pubkey)
    requires
        fits_subnet_record(r),
        r.is_initialized,
        r.validator_set.contains(wallet),
    ensures
        spec_subnet_step(subnet_registry, subnet_registry, enc_subnet_record(r) + rest, r.subnet_id, wallet) == (if r.is_frozen {
            AccessResult::Denied(AccessDeniedReason::SubnetFrozen)
        } else {
            AccessResult::Granted
        }),
{
    lemma_subnet_record(r, rest);
}

/// Access granted above the public tier rests on the wallet's own active,
/// unexpired token of the required tier, within the role's clearance range,
/// on the wallet's own active assignment of the role, and on the subnet
/// registry's record of the subnet, not frozen and listing the wallet.
pub proof fn law_granted_access_is_the_wallets_own(
    c: ContextModel,
    subnet_registry: Pubkey,
    wallet: Pubkey,
    required_tier: ClearanceTier,
    required_role_id: [u8; 32],
    subnet_id: [u8; 32],
    current_slot: u64,
)
    requires
        required_tier != ClearanceTier::Public,
        spec_access(c, subnet_registry, wallet, required_tier, required_role_id, subnet_id, current_slot) == AccessResult::Granted,
    ensures
        dec_clearance_sbt(c.data(0)) matches Some((t, _)) && t.holder == wallet && t.is_active
            && t.spec_is_valid_at(current_slot) && t.tier.spec_satisfies(required_tier),
        dec_wallet_role_assignment(c.data(1)) matches Some((a, _)) && a.wallet == wallet && a.is_active
            && a.role_id == required_role_id,
        dec_role_entry(c.data(2)) matches Some((r, _)) && r.is_active && r.role_id == required_role_id,
        dec_clearance_sbt(c.data(0)) matches Some((t, _)) && dec_role_entry(c.data(2)) matches Some((r, _))
            && t.tier.spec_satisfies(r.min_clearance) && r.max_clearance.spec_satisfies(t.tier),
        c.owner(3) == subnet_registry,
        dec_subnet_record(c.data(3)) matches Some((s, _)) && s.is_initialized && s.subnet_id == subnet_id
            && !s.is_frozen && s.validator_set.contains(wallet),
{
}

} // verus!
