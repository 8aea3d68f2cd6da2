//! Data types and their byte layout.
use vstd::prelude::*;
use crate::codec::{dec_arr, dec_bool, dec_bytes, dec_pubkey, dec_string, dec_u64, enc_arr, enc_bool, enc_bytes, enc_pubkey, enc_string, enc_u64, fits_string, fits_u32, lemma_arr, lemma_assoc, lemma_bool, lemma_bytes, lemma_pubkey, lemma_skip_skip, lemma_string, lemma_u64, read_arr, read_bool, read_bytes, read_ok, read_pubkey, read_string, read_u64, read_u8, write_arr, write_bool, write_bytes, write_pubkey, write_string, write_u64};
use crate::layout::{dec_opt_u64, dec_vec_arr32, enc_opt_u64, enc_vec_arr32, fits_vec_arr32, lemma_opt_u64, lemma_vec_arr32, read_opt_u64, read_vec_arr32, write_opt_u64, write_vec_arr32};
use crate::permission_types::types::{ClearanceTier, dec_clearance_tier, enc_clearance_tier, lemma_clearance_tier, read_clearance_tier, write_clearance_tier};
use crate::pubkey::{Pubkey};

verus! {

/// Custom error codes of the permission registry.
#[derive(Clone, Copy, Debug, PartialEq, Eq, Structural)]
pub enum PermissionRegistryError {
    AlreadyInitialized,
    Uninitialized,
    Unauthorized,
    IssuerNotFound,
    IssuerInactive,
    IssuerNotAuthorizedForTier,
    SbtAlreadyExists,
    SbtNotFound,
    SbtExpired,
    SbtRevoked,
    ClearanceMissing,
    RoleNotFound,
    RoleInactive,
    RoleAlreadyExists,
    ClearanceOutOfRoleRange,
    AssignmentNotFound,
    AssignmentAlreadyExists,
    SubnetFrozen,
    SubnetMembershipMissing,
    DenyByDefault,
    RequiresEnclave,
    InvalidEnvelopeVersion,
    KeyRevoked,
    KeyNotFound,
    AadMismatch,
    InvalidAccountData,
    InvalidInstructionData,
}

impl PermissionRegistryError {
    /// The custom error code carried by this error.
    pub open spec fn spec_code(self) -> u32 {
        match self {
            PermissionRegistryError::AlreadyInitialized => 0,
            PermissionRegistryError::Uninitialized => 1,
            PermissionRegistryError::Unauthorized => 2,
            PermissionRegistryError::IssuerNotFound => 3,
            PermissionRegistryError::IssuerInactive => 4,
            PermissionRegistryError::IssuerNotAuthorizedForTier => 5,
            PermissionRegistryError::SbtAlreadyExists => 6,
            PermissionRegistryError::SbtNotFound => 7,
            PermissionRegistryError::SbtExpired => 8,
            PermissionRegistryError::SbtRevoked => 9,
            PermissionRegistryError::ClearanceMissing => 10,
            PermissionRegistryError::RoleNotFound => 11,
            PermissionRegistryError::RoleInactive => 12,
            PermissionRegistryError::RoleAlreadyExists => 13,
            PermissionRegistryError::ClearanceOutOfRoleRange => 14,
            PermissionRegistryError::AssignmentNotFound => 15,
            PermissionRegistryError::AssignmentAlreadyExists => 16,
            PermissionRegistryError::SubnetFrozen => 17,
            PermissionRegistryError::SubnetMembershipMissing => 18,
            PermissionRegistryError::DenyByDefault => 19,
            PermissionRegistryError::RequiresEnclave => 20,
            PermissionRegistryError::InvalidEnvelopeVersion => 21,
            PermissionRegistryError::KeyRevoked => 22,
            PermissionRegistryError::KeyNotFound => 23,
            PermissionRegistryError::AadMismatch => 24,
            PermissionRegistryError::InvalidAccountData => 25,
            PermissionRegistryError::InvalidInstructionData => 26,
        }
    }

    pub fn code(self) -> (c: u32)
        ensures
            c == self.spec_code(),
    {
        match self {
            PermissionRegistryError::AlreadyInitialized => 0,
            PermissionRegistryError::Uninitialized => 1,
            PermissionRegistryError::Unauthorized => 2,
            PermissionRegistryError::IssuerNotFound => 3,
            PermissionRegistryError::IssuerInactive => 4,
            PermissionRegistryError::IssuerNotAuthorizedForTier => 5,
            PermissionRegistryError::SbtAlreadyExists => 6,
            PermissionRegistryError::SbtNotFound => 7,
            PermissionRegistryError::SbtExpired => 8,
            PermissionRegistryError::SbtRevoked => 9,
            PermissionRegistryError::ClearanceMissing => 10,
            PermissionRegistryError::RoleNotFound => 11,
            PermissionRegistryError::RoleInactive => 12,
            PermissionRegistryError::RoleAlreadyExists => 13,
            PermissionRegistryError::ClearanceOutOfRoleRange => 14,
            PermissionRegistryError::AssignmentNotFound => 15,
            PermissionRegistryError::AssignmentAlreadyExists => 16,
            PermissionRegistryError::SubnetFrozen => 17,
            PermissionRegistryError::SubnetMembershipMissing => 18,
            PermissionRegistryError::DenyByDefault => 19,
            PermissionRegistryError::RequiresEnclave => 20,
            PermissionRegistryError::InvalidEnvelopeVersion => 21,
            PermissionRegistryError::KeyRevoked => 22,
            PermissionRegistryError::KeyNotFound => 23,
            PermissionRegistryError::AadMismatch => 24,
            PermissionRegistryError::InvalidAccountData => 25,
            PermissionRegistryError::InvalidInstructionData => 26,
        }
    }
}

/// Singleton state tracking the registry upgrade authority.
#[derive(Clone, Copy, Debug, PartialEq, Eq)]
pub struct RegistryConfig {
    pub is_initialized: bool,
    pub upgrade_authority: Pubkey,
    pub created_at_slot: u64,
}

#[verifier::opaque]
pub open spec fn enc_registry_config(v: RegistryConfig) -> Seq<u8> {
    enc_bool(v.is_initialized) + (enc_pubkey(v.upgrade_authority) + (enc_u64(v.created_at_slot)))
}

#[verifier::opaque]
pub open spec fn dec_registry_config(s: Seq<u8>) -> Option<(RegistryConfig, Seq<u8>)> {
    match dec_bool(s) {
            Some((is_initialized, r1)) => match dec_pubkey(r1) {
            Some((upgrade_authority, r2)) => match dec_u64(r2) {
            Some((created_at_slot, r3)) => Some((RegistryConfig { is_initialized, upgrade_authority, created_at_slot }, r3)),
            None => None,
        },
            None => None,
        },
            None => None,
        }
}

pub fn read_registry_config(d: &[u8], pos: usize) -> (r: Option<(RegistryConfig, usize)>)
    requires
        pos <= d@.len(),
    ensures
        read_ok(dec_registry_config(d@.skip(pos as int)), r, d@),
{
    proof {
        reveal(dec_registry_config);
    }
    match read_bool(d, pos) {
        None => None,
        Some((is_initialized, p1)) => match read_pubkey(d, p1) {
        None => None,
        Some((upgrade_authority, p2)) => match read_u64(d, p2) {
        None => None,
        Some((created_at_slot, p3)) => Some((RegistryConfig { is_initialized, upgrade_authority, created_at_slot }, p3)),
    },
    },
    }
}

pub fn write_registry_config(out: &mut Vec<u8>, v: &RegistryConfig)
    ensures
        final(out)@ == old(out)@ + enc_registry_config(*v),
{
    proof {
        reveal(enc_registry_config);
    }
    write_bool(out, *&v.is_initialized);
    let ghost o0 = out@;
    write_pubkey(out, &v.upgrade_authority);
    let ghost o1 = out@;
    write_u64(out, *&v.created_at_slot);
    let ghost o2 = out@;
    proof {
        lemma_assoc(o0, enc_pubkey((*v).upgrade_authority), enc_u64((*v).created_at_slot));
        lemma_assoc(old(out)@, enc_bool((*v).is_initialized), enc_pubkey((*v).upgrade_authority) + (enc_u64((*v).created_at_slot)));
    }
}

pub proof fn lemma_registry_config(v: RegistryConfig, rest: Seq<u8>)
    ensures
        dec_registry_config(enc_registry_config(v) + rest) == Some((v, rest)),
{
    reveal(enc_registry_config);
    reveal(dec_registry_config);
    lemma_assoc(enc_bool(v.is_initialized), enc_pubkey(v.upgrade_authority) + (enc_u64(v.created_at_slot)), rest);
    lemma_bool(v.is_initialized, enc_pubkey(v.upgrade_authority) + (enc_u64(v.created_at_slot)) + rest);
    lemma_assoc(enc_pubkey(v.upgrade_authority), enc_u64(v.created_at_slot), rest);
    lemma_pubkey(v.upgrade_authority, enc_u64(v.created_at_slot) + rest);
    lemma_u64(v.created_at_slot, rest);
}

/// Decodes a [`RegistryConfig`] that must take up all of `d`.
pub fn registry_config_from_slice(d: &[u8]) -> (r: Option<RegistryConfig>)
    ensures
        r is Some <==> (dec_registry_config(d@) matches Some((_, rest)) && rest.len() == 0),
        r matches Some(v) ==> dec_registry_config(d@) == Some((v, Seq::<u8>::empty())),
{
    assert(d@.skip(0) =~= d@);
    match read_registry_config(d, 0) {
        None => None,
        Some((v, p)) => {
            if p == d.len() {
                assert(d@.skip(p as int) =~= Seq::<u8>::empty());
                Some(v)
            } else {
                None
            }
        },
    }
}

/// Decodes a [`RegistryConfig`] from the front of `d`, ignoring what follows it.
pub fn registry_config_from_prefix(d: &[u8]) -> (r: Option<RegistryConfig>)
    ensures
        r is Some <==> dec_registry_config(d@) is Some,
        r matches Some(v) ==> dec_registry_config(d@) matches Some((m, _)) && m == v,
{
    assert(d@.skip(0) =~= d@);
    match read_registry_config(d, 0) {
        None => None,
        Some((v, _)) => Some(v),
    }
}

/// Serialises a [`RegistryConfig`].
pub fn registry_config_to_vec(v: &RegistryConfig) -> (r: Vec<u8>)
    ensures
        r@ == enc_registry_config(*v),
{
    let mut out: Vec<u8> = Vec::new();
    write_registry_config(&mut out, v);
    assert(out@ =~= enc_registry_config(*v));
    out
}

/// Instructions of the permission registry.
#[derive(Clone, Debug, PartialEq, Eq)]
pub enum PermissionRegistryInstruction {
    InitializeRegistry{ current_slot: u64 },
    RegisterIssuer{ authority: Pubkey, tier: ClearanceTier, label: String, current_slot: u64 },
    DeactivateIssuer{ authority: Pubkey, tier: ClearanceTier },
    IssueClearance{ holder: Pubkey, tier: ClearanceTier, valid_until_slot: Option<u64>, revocation_registry: Pubkey, current_slot: u64 },
    RevokeClearance{ holder: Pubkey, tier: ClearanceTier },
    RegisterRole{ role_id: [u8; 32], label: String, min_clearance: ClearanceTier, max_clearance: ClearanceTier, subnet_bindings: Vec<[u8; 32]>, current_slot: u64 },
    DeactivateRole{ role_id: [u8; 32] },
    AssignRole{ wallet: Pubkey, role_id: [u8; 32], current_slot: u64 },
    RevokeRole{ wallet: Pubkey, role_id: [u8; 32] },
    EvaluateAccess{ wallet: Pubkey, required_tier: ClearanceTier, required_role_id: [u8; 32], subnet_id: [u8; 32], current_slot: u64 },
    DecryptHeader{ envelope_header: Vec<u8> },
}

/// Mathematical model of [`PermissionRegistryInstruction`].
pub enum PermissionRegistryInstructionModel {
    InitializeRegistry{ current_slot: u64 },
    RegisterIssuer{ authority: Pubkey, tier: ClearanceTier, label: Seq<char>, current_slot: u64 },
    DeactivateIssuer{ authority: Pubkey, tier: ClearanceTier },
    IssueClearance{ holder: Pubkey, tier: ClearanceTier, valid_until_slot: Option<u64>, revocation_registry: Pubkey, current_slot: u64 },
    RevokeClearance{ holder: Pubkey, tier: ClearanceTier },
    RegisterRole{ role_id: [u8; 32], label: Seq<char>, min_clearance: ClearanceTier, max_clearance: ClearanceTier, subnet_bindings: Seq<[u8; 32]>, current_slot: u64 },
    DeactivateRole{ role_id: [u8; 32] },
    AssignRole{ wallet: Pubkey, role_id: [u8; 32], current_slot: u64 },
    RevokeRole{ wallet: Pubkey, role_id: [u8; 32] },
    EvaluateAccess{ wallet: Pubkey, required_tier: ClearanceTier, required_role_id: [u8; 32], subnet_id: [u8; 32], current_slot: u64 },
    DecryptHeader{ envelope_header: Seq<u8> },
}

impl View for PermissionRegistryInstruction {
    type V = PermissionRegistryInstructionModel;

    open spec fn view(&self) -> PermissionRegistryInstructionModel {
        match self {
            PermissionRegistryInstruction::InitializeRegistry{ current_slot } => PermissionRegistryInstructionModel::InitializeRegistry{ current_slot: (*current_slot) },
            PermissionRegistryInstruction::RegisterIssuer{ authority, tier, label, current_slot } => PermissionRegistryInstructionModel::RegisterIssuer{ authority: (*authority), tier: (*tier), label: (*label)@, current_slot: (*current_slot) },
            PermissionRegistryInstruction::DeactivateIssuer{ authority, tier } => PermissionRegistryInstructionModel::DeactivateIssuer{ authority: (*authority), tier: (*tier) },
            PermissionRegistryInstruction::IssueClearance{ holder, tier, valid_until_slot, revocation_registry, current_slot } => PermissionRegistryInstructionModel::IssueClearance{ holder: (*holder), tier: (*tier), valid_until_slot: (*valid_until_slot), revocation_registry: (*revocation_registry), current_slot: (*current_slot) },
            PermissionRegistryInstruction::RevokeClearance{ holder, tier } => PermissionRegistryInstructionModel::RevokeClearance{ holder: (*holder), tier: (*tier) },
            PermissionRegistryInstruction::RegisterRole{ role_id, label, min_clearance, max_clearance, subnet_bindings, current_slot } => PermissionRegistryInstructionModel::RegisterRole{ role_id: (*role_id), label: (*label)@, min_clearance: (*min_clearance), max_clearance: (*max_clearance), subnet_bindings: (*subnet_bindings)@, current_slot: (*current_slot) },
            PermissionRegistryInstruction::DeactivateRole{ role_id } => PermissionRegistryInstructionModel::DeactivateRole{ role_id: (*role_id) },
            PermissionRegistryInstruction::AssignRole{ wallet, role_id, current_slot } => PermissionRegistryInstructionModel::AssignRole{ wallet: (*wallet), role_id: (*role_id), current_slot: (*current_slot) },
            PermissionRegistryInstruction::RevokeRole{ wallet, role_id } => PermissionRegistryInstructionModel::RevokeRole{ wallet: (*wallet), role_id: (*role_id) },
            PermissionRegistryInstruction::EvaluateAccess{ wallet, required_tier, required_role_id, subnet_id, current_slot } => PermissionRegistryInstructionModel::EvaluateAccess{ wallet: (*wallet), required_tier: (*required_tier), required_role_id: (*required_role_id), subnet_id: (*subnet_id), current_slot: (*current_slot) },
            PermissionRegistryInstruction::DecryptHeader{ envelope_header } => PermissionRegistryInstructionModel::DecryptHeader{ envelope_header: (*envelope_header)@ },
        }
    }
}

#[verifier::opaque]
pub open spec fn enc_permission_registry_instruction(v: PermissionRegistryInstructionModel) -> Seq<u8> {
    match v {
        PermissionRegistryInstructionModel::InitializeRegistry{ current_slot } => seq![0u8] + (enc_u64(current_slot)),
        PermissionRegistryInstructionModel::RegisterIssuer{ authority, tier, label, current_slot } => seq![1u8] + (enc_pubkey(authority) + (enc_clearance_tier(tier) + (enc_string(label) + (enc_u64(current_slot))))),
        PermissionRegistryInstructionModel::DeactivateIssuer{ authority, tier } => seq![2u8] + (enc_pubkey(authority) + (enc_clearance_tier(tier))),
        PermissionRegistryInstructionModel::IssueClearance{ holder, tier, valid_until_slot, revocation_registry, current_slot } => seq![3u8] + (enc_pubkey(holder) + (enc_clearance_tier(tier) + (enc_opt_u64(valid_until_slot) + (enc_pubkey(revocation_registry) + (enc_u64(current_slot)))))),
        PermissionRegistryInstructionModel::RevokeClearance{ holder, tier } => seq![4u8] + (enc_pubkey(holder) + (enc_clearance_tier(tier))),
        PermissionRegistryInstructionModel::RegisterRole{ role_id, label, min_clearance, max_clearance, subnet_bindings, current_slot } => seq![5u8] + (enc_arr::<32>(role_id) + (enc_string(label) + (enc_clearance_tier(min_clearance) + (enc_clearance_tier(max_clearance) + (enc_vec_arr32(subnet_bindings) + (enc_u64(current_slot))))))),
        PermissionRegistryInstructionModel::DeactivateRole{ role_id } => seq![6u8] + (enc_arr::<32>(role_id)),
        PermissionRegistryInstructionModel::AssignRole{ wallet, role_id, current_slot } => seq![7u8] + (enc_pubkey(wallet) + (enc_arr::<32>(role_id) + (enc_u64(current_slot)))),
        PermissionRegistryInstructionModel::RevokeRole{ wallet, role_id } => seq![8u8] + (enc_pubkey(wallet) + (enc_arr::<32>(role_id))),
        PermissionRegistryInstructionModel::EvaluateAccess{ wallet, required_tier, required_role_id, subnet_id, current_slot } => seq![9u8] + (enc_pubkey(wallet) + (enc_clearance_tier(required_tier) + (enc_arr::<32>(required_role_id) + (enc_arr::<32>(subnet_id) + (enc_u64(current_slot)))))),
        PermissionRegistryInstructionModel::DecryptHeader{ envelope_header } => seq![10u8] + (enc_bytes(envelope_header)),
    }
}

#[verifier::opaque]
pub open spec fn dec_permission_registry_instruction(s: Seq<u8>) -> Option<(PermissionRegistryInstructionModel, Seq<u8>)> {
    if s.len() == 0 {
        None
    } else if s[0] == 0 {
        let r0 = s.skip(1);
        match dec_u64(r0) {
            Some((current_slot, r1)) => Some((PermissionRegistryInstructionModel::InitializeRegistry{ current_slot }, r1)),
            None => None,
        }
    } else if s[0] == 1 {
        let r0 = s.skip(1);
        match dec_pubkey(r0) {
            Some((authority, r1)) => match dec_clearance_tier(r1) {
            Some((tier, r2)) => match dec_string(r2) {
            Some((label, r3)) => match dec_u64(r3) {
            Some((current_slot, r4)) => Some((PermissionRegistryInstructionModel::RegisterIssuer{ authority, tier, label, current_slot }, r4)),
            None => None,
        },
            None => None,
        },
            None => None,
        },
            None => None,
        }
    } else if s[0] == 2 {
        let r0 = s.skip(1);
        match dec_pubkey(r0) {
            Some((authority, r1)) => match dec_clearance_tier(r1) {
            Some((tier, r2)) => Some((PermissionRegistryInstructionModel::DeactivateIssuer{ authority, tier }, r2)),
            None => None,
        },
            None => None,
        }
    } else if s[0] == 3 {
        let r0 = s.skip(1);
        match dec_pubkey(r0) {
            Some((holder, r1)) => match dec_clearance_tier(r1) {
            Some((tier, r2)) => match dec_opt_u64(r2) {
            Some((valid_until_slot, r3)) => match dec_pubkey(r3) {
            Some((revocation_registry, r4)) => match dec_u64(r4) {
            Some((current_slot, r5)) => Some((PermissionRegistryInstructionModel::IssueClearance{ holder, tier, valid_until_slot, revocation_registry, current_slot }, r5)),
            None => None,
        },
            None => None,
        },
            None => None,
        },
            None => None,
        },
            None => None,
        }
    } else if s[0] == 4 {
        let r0 = s.skip(1);
        match dec_pubkey(r0) {
            Some((holder, r1)) => match dec_clearance_tier(r1) {
            Some((tier, r2)) => Some((PermissionRegistryInstructionModel::RevokeClearance{ holder, tier }, r2)),
            None => None,
        },
            None => None,
        }
    } else if s[0] == 5 {
        let r0 = s.skip(1);
        match dec_arr::<32>(r0) {
            Some((role_id, r1)) => match dec_string(r1) {
            Some((label, r2)) => match dec_clearance_tier(r2) {
            Some((min_clearance, r3)) => match dec_clearance_tier(r3) {
            Some((max_clearance, r4)) => match dec_vec_arr32(r4) {
            Some((subnet_bindings, r5)) => match dec_u64(r5) {
            Some((current_slot, r6)) => Some((PermissionRegistryInstructionModel::RegisterRole{ role_id, label, min_clearance, max_clearance, subnet_bindings, current_slot }, r6)),
            None => None,
        },
            None => None,
        },
            None => None,
        },
            None => None,
        },
            None => None,
        },
            None => None,
        }
    } else if s[0] == 6 {
        let r0 = s.skip(1);
        match dec_arr::<32>(r0) {
            Some((role_id, r1)) => Some((PermissionRegistryInstructionModel::DeactivateRole{ role_id }, r1)),
            None => None,
        }
    } else if s[0] == 7 {
        let r0 = s.skip(1);
        match dec_pubkey(r0) {
            Some((wallet, r1)) => match dec_arr::<32>(r1) {
            Some((role_id, r2)) => match dec_u64(r2) {
            Some((current_slot, r3)) => Some((PermissionRegistryInstructionModel::AssignRole{ wallet, role_id, current_slot }, r3)),
            None => None,
        },
            None => None,
        },
            None => None,
        }
    } else if s[0] == 8 {
        let r0 = s.skip(1);
        match dec_pubkey(r0) {
            Some((wallet, r1)) => match dec_arr::<32>(r1) {
            Some((role_id, r2)) => Some((PermissionRegistryInstructionModel::RevokeRole{ wallet, role_id }, r2)),
            None => None,
        },
            None => None,
        }
    } else if s[0] == 9 {
        let r0 = s.skip(1);
        match dec_pubkey(r0) {
            Some((wallet, r1)) => match dec_clearance_tier(r1) {
            Some((required_tier, r2)) => match dec_arr::<32>(r2) {
            Some((required_role_id, r3)) => match dec_arr::<32>(r3) {
            Some((subnet_id, r4)) => match dec_u64(r4) {
            Some((current_slot, r5)) => Some((PermissionRegistryInstructionModel::EvaluateAccess{ wallet, required_tier, required_role_id, subnet_id, current_slot }, r5)),
            None => None,
        },
            None => None,
        },
            None => None,
        },
            None => None,
        },
            None => None,
        }
    } else if s[0] == 10 {
        let r0 = s.skip(1);
        match dec_bytes(r0) {
            Some((envelope_header, r1)) => Some((PermissionRegistryInstructionModel::DecryptHeader{ envelope_header }, r1)),
            None => None,
        }
    } else { None }
}

pub open spec fn fits_permission_registry_instruction(v: PermissionRegistryInstructionModel) -> bool {
    match v {
        PermissionRegistryInstructionModel::InitializeRegistry{ current_slot } => true,
        PermissionRegistryInstructionModel::RegisterIssuer{ authority, tier, label, current_slot } => fits_string(label),
        PermissionRegistryInstructionModel::DeactivateIssuer{ authority, tier } => true,
        PermissionRegistryInstructionModel::IssueClearance{ holder, tier, valid_until_slot, revocation_registry, current_slot } => true,
        PermissionRegistryInstructionModel::RevokeClearance{ holder, tier } => true,
        PermissionRegistryInstructionModel::RegisterRole{ role_id, label, min_clearance, max_clearance, subnet_bindings, current_slot } => fits_string(label) && fits_vec_arr32(subnet_bindings),
        PermissionRegistryInstructionModel::DeactivateRole{ role_id } => true,
        PermissionRegistryInstructionModel::AssignRole{ wallet, role_id, current_slot } => true,
        PermissionRegistryInstructionModel::RevokeRole{ wallet, role_id } => true,
        PermissionRegistryInstructionModel::EvaluateAccess{ wallet, required_tier, required_role_id, subnet_id, current_slot } => true,
        PermissionRegistryInstructionModel::DecryptHeader{ envelope_header } => fits_u32(envelope_header.len()),
    }
}

pub fn read_permission_registry_instruction(d: &[u8], pos: usize) -> (r: Option<(PermissionRegistryInstruction, usize)>)
    requires
        pos <= d@.len(),
    ensures
        match r {
            None => dec_permission_registry_instruction(d@.skip(pos as int)) is None,
            Some((v, p)) => p <= d@.len() && dec_permission_registry_instruction(d@.skip(pos as int)) == Some((v@, d@.skip(p as int))),
        },
{
    proof {
        reveal(dec_permission_registry_instruction);
    }
    match read_u8(d, pos) {
        None => None,
        Some((tag, p0)) => {
            proof {
                lemma_skip_skip(d@, pos as int, 1);
            }
            match tag {
            0 => match read_u64(d, p0) {
                None => None,
                Some((current_slot, p1)) => Some((PermissionRegistryInstruction::InitializeRegistry{ current_slot }, p1)),
            },
            1 => match read_pubkey(d, p0) {
                None => None,
                Some((authority, p1)) => match read_clearance_tier(d, p1) {
                None => None,
                Some((tier, p2)) => match read_string(d, p2) {
                None => None,
                Some((label, p3)) => match read_u64(d, p3) {
                None => None,
                Some((current_slot, p4)) => Some((PermissionRegistryInstruction::RegisterIssuer{ authority, tier, label, current_slot }, p4)),
            },
            },
            },
            },
            2 => match read_pubkey(d, p0) {
                None => None,
                Some((authority, p1)) => match read_clearance_tier(d, p1) {
                None => None,
                Some((tier, p2)) => Some((PermissionRegistryInstruction::DeactivateIssuer{ authority, tier }, p2)),
            },
            },
            3 => match read_pubkey(d, p0) {
                None => None,
                Some((holder, p1)) => match read_clearance_tier(d, p1) {
                None => None,
                Some((tier, p2)) => match read_opt_u64(d, p2) {
                None => None,
                Some((valid_until_slot, p3)) => match read_pubkey(d, p3) {
                None => None,
                Some((revocation_registry, p4)) => match read_u64(d, p4) {
                None => None,
                Some((current_slot, p5)) => Some((PermissionRegistryInstruction::IssueClearance{ holder, tier, valid_until_slot, revocation_registry, current_slot }, p5)),
            },
            },
            },
            },
            },
            4 => match read_pubkey(d, p0) {
                None => None,
                Some((holder, p1)) => match read_clearance_tier(d, p1) {
                None => None,
                Some((tier, p2)) => Some((PermissionRegistryInstruction::RevokeClearance{ holder, tier }, p2)),
            },
            },
            5 => match read_arr::<32>(d, p0) {
                None => None,
                Some((role_id, p1)) => match read_string(d, p1) {
                None => None,
                Some((label, p2)) => match read_clearance_tier(d, p2) {
                None => None,
                Some((min_clearance, p3)) => match read_clearance_tier(d, p3) {
                None => None,
                Some((max_clearance, p4)) => match read_vec_arr32(d, p4) {
                None => None,
                Some((subnet_bindings, p5)) => match read_u64(d, p5) {
                None => None,
                Some((current_slot, p6)) => Some((PermissionRegistryInstruction::RegisterRole{ role_id, label, min_clearance, max_clearance, subnet_bindings, current_slot }, p6)),
            },
            },
            },
            },
            },
            },
            6 => match read_arr::<32>(d, p0) {
                None => None,
                Some((role_id, p1)) => Some((PermissionRegistryInstruction::DeactivateRole{ role_id }, p1)),
            },
            7 => match read_pubkey(d, p0) {
                None => None,
                Some((wallet, p1)) => match read_arr::<32>(d, p1) {
                None => None,
                Some((role_id, p2)) => match read_u64(d, p2) {
                None => None,
                Some((current_slot, p3)) => Some((PermissionRegistryInstruction::AssignRole{ wallet, role_id, current_slot }, p3)),
            },
            },
            },
            8 => match read_pubkey(d, p0) {
                None => None,
                Some((wallet, p1)) => match read_arr::<32>(d, p1) {
                None => None,
                Some((role_id, p2)) => Some((PermissionRegistryInstruction::RevokeRole{ wallet, role_id }, p2)),
            },
            },
            9 => match read_pubkey(d, p0) {
                None => None,
                Some((wallet, p1)) => match read_clearance_tier(d, p1) {
                None => None,
                Some((required_tier, p2)) => match read_arr::<32>(d, p2) {
                None => None,
                Some((required_role_id, p3)) => match read_arr::<32>(d, p3) {
                None => None,
                Some((subnet_id, p4)) => match read_u64(d, p4) {
                None => None,
                Some((current_slot, p5)) => Some((PermissionRegistryInstruction::EvaluateAccess{ wallet, required_tier, required_role_id, subnet_id, current_slot }, p5)),
            },
            },
            },
            },
            },
            10 => match read_bytes(d, p0) {
                None => None,
                Some((envelope_header, p1)) => Some((PermissionRegistryInstruction::DecryptHeader{ envelope_header }, p1)),
            },
            _ => None,
            }
        },
    }
}

pub fn write_permission_registry_instruction(out: &mut Vec<u8>, v: &PermissionRegistryInstruction) -> (ok: bool)
    ensures
        ok == fits_permission_registry_instruction(v@),
        ok ==> final(out)@ == old(out)@ + enc_permission_registry_instruction(v@),
{
    proof {
        reveal(enc_permission_registry_instruction);
    }
    match v {
        PermissionRegistryInstruction::InitializeRegistry{ current_slot } => {
            out.push(0u8);
            let ghost ot = out@;
            assert(ot =~= old(out)@ + seq![0u8]);
            write_u64(out, *current_slot);
            let ghost o0 = out@;
            proof {
            }
            proof {
                lemma_assoc(old(out)@, seq![0u8], enc_u64((*current_slot)));
            }
        },
        PermissionRegistryInstruction::RegisterIssuer{ authority, tier, label, current_slot } => {
            out.push(1u8);
            let ghost ot = out@;
            assert(ot =~= old(out)@ + seq![1u8]);
            write_pubkey(out, authority);
            let ghost o0 = out@;
            write_clearance_tier(out, tier);
            let ghost o1 = out@;
            if !write_string(out, label) { return false; }
            let ghost o2 = out@;
            write_u64(out, *current_slot);
            let ghost o3 = out@;
            proof {
                lemma_assoc(o1, enc_string((*label)@), enc_u64((*current_slot)));
                lemma_assoc(o0, enc_clearance_tier((*tier)), enc_string((*label)@) + (enc_u64((*current_slot))));
                lemma_assoc(ot, enc_pubkey((*authority)), enc_clearance_tier((*tier)) + (enc_string((*label)@) + (enc_u64((*current_slot)))));
            }
            proof {
                lemma_assoc(old(out)@, seq![1u8], enc_pubkey((*authority)) + (enc_clearance_tier((*tier)) + (enc_string((*label)@) + (enc_u64((*current_slot))))));
            }
        },
        PermissionRegistryInstruction::DeactivateIssuer{ authority, tier } => {
            out.push(2u8);
            let ghost ot = out@;
            assert(ot =~= old(out)@ + seq![2u8]);
            write_pubkey(out, authority);
            let ghost o0 = out@;
            write_clearance_tier(out, tier);
            let ghost o1 = out@;
            proof {
                lemma_assoc(ot, enc_pubkey((*authority)), enc_clearance_tier((*tier)));
            }
            proof {
                lemma_assoc(old(out)@, seq![2u8], enc_pubkey((*authority)) + (enc_clearance_tier((*tier))));
            }
        },
        PermissionRegistryInstruction::IssueClearance{ holder, tier, valid_until_slot, revocation_registry, current_slot } => {
            out.push(3u8);
            let ghost ot = out@;
            assert(ot =~= old(out)@ + seq![3u8]);
            write_pubkey(out, holder);
            let ghost o0 = out@;
            write_clearance_tier(out, tier);
            let ghost o1 = out@;
            write_opt_u64(out, valid_until_slot);
            let ghost o2 = out@;
            write_pubkey(out, revocation_registry);
            let ghost o3 = out@;
            write_u64(out, *current_slot);
            let ghost o4 = out@;
            proof {
                lemma_assoc(o2, enc_pubkey((*revocation_registry)), enc_u64((*current_slot)));
                lemma_assoc(o1, enc_opt_u64((*valid_until_slot)), enc_pubkey((*revocation_registry)) + (enc_u64((*current_slot))));
                lemma_assoc(o0, enc_clearance_tier((*tier)), enc_opt_u64((*valid_until_slot)) + (enc_pubkey((*revocation_registry)) + (enc_u64((*current_slot)))));
                lemma_assoc(ot, enc_pubkey((*holder)), enc_clearance_tier((*tier)) + (enc_opt_u64((*valid_until_slot)) + (enc_pubkey((*revocation_registry)) + (enc_u64((*current_slot))))));
            }
            proof {
                lemma_assoc(old(out)@, seq![3u8], enc_pubkey((*holder)) + (enc_clearance_tier((*tier)) + (enc_opt_u64((*valid_until_slot)) + (enc_pubkey((*revocation_registry)) + (enc_u64((*current_slot)))))));
            }
        },
        PermissionRegistryInstruction::RevokeClearance{ holder, tier } => {
            out.push(4u8);
            let ghost ot = out@;
            assert(ot =~= old(out)@ + seq![4u8]);
            write_pubkey(out, holder);
            let ghost o0 = out@;
            write_clearance_tier(out, tier);
            let ghost o1 = out@;
            proof {
                lemma_assoc(ot, enc_pubkey((*holder)), enc_clearance_tier((*tier)));
            }
            proof {
                lemma_assoc(old(out)@, seq![4u8], enc_pubkey((*holder)) + (enc_clearance_tier((*tier))));
            }
        },
        PermissionRegistryInstruction::RegisterRole{ role_id, label, min_clearance, max_clearance, subnet_bindings, current_slot } => {
            out.push(5u8);
            let ghost ot = out@;
            assert(ot =~= old(out)@ + seq![5u8]);
            write_arr::<32>(out, role_id);
            let ghost o0 = out@;
            if !write_string(out, label) { return false; }
            let ghost o1 = out@;
            write_clearance_tier(out, min_clearance);
            let ghost o2 = out@;
            write_clearance_tier(out, max_clearance);
            let ghost o3 = out@;
            if !write_vec_arr32(out, subnet_bindings) { return false; }
            let ghost o4 = out@;
            write_u64(out, *current_slot);
            let ghost o5 = out@;
            proof {
                lemma_assoc(o3, enc_vec_arr32((*subnet_bindings)@), enc_u64((*current_slot)));
                lemma_assoc(o2, enc_clearance_tier((*max_clearance)), enc_vec_arr32((*subnet_bindings)@) + (enc_u64((*current_slot))));
                lemma_assoc(o1, enc_clearance_tier((*min_clearance)), enc_clearance_tier((*max_clearance)) + (enc_vec_arr32((*subnet_bindings)@) + (enc_u64((*current_slot)))));
                lemma_assoc(o0, enc_string((*label)@), enc_clearance_tier((*min_clearance)) + (enc_clearance_tier((*max_clearance)) + (enc_vec_arr32((*subnet_bindings)@) + (enc_u64((*current_slot))))));
                lemma_assoc(ot, enc_arr::<32>((*role_id)), enc_string((*label)@) + (enc_clearance_tier((*min_clearance)) + (enc_clearance_tier((*max_clearance)) + (enc_vec_arr32((*subnet_bindings)@) + (enc_u64((*current_slot)))))));
            }
            proof {
                lemma_assoc(old(out)@, seq![5u8], enc_arr::<32>((*role_id)) + (enc_string((*label)@) + (enc_clearance_tier((*min_clearance)) + (enc_clearance_tier((*max_clearance)) + (enc_vec_arr32((*subnet_bindings)@) + (enc_u64((*current_slot))))))));
            }
        },
        PermissionRegistryInstruction::DeactivateRole{ role_id } => {
            out.push(6u8);
            let ghost ot = out@;
            assert(ot =~= old(out)@ + seq![6u8]);
            write_arr::<32>(out, role_id);
            let ghost o0 = out@;
            proof {
            }
            proof {
                lemma_assoc(old(out)@, seq![6u8], enc_arr::<32>((*role_id)));
            }
        },
        PermissionRegistryInstruction::AssignRole{ wallet, role_id, current_slot } => {
            out.push(7u8);
            let ghost ot = out@;
            assert(ot =~= old(out)@ + seq![7u8]);
            write_pubkey(out, wallet);
            let ghost o0 = out@;
            write_arr::<32>(out, role_id);
            let ghost o1 = out@;
            write_u64(out, *current_slot);
            let ghost o2 = out@;
            proof {
                lemma_assoc(o0, enc_arr::<32>((*role_id)), enc_u64((*current_slot)));
                lemma_assoc(ot, enc_pubkey((*wallet)), enc_arr::<32>((*role_id)) + (enc_u64((*current_slot))));
            }
            proof {
                lemma_assoc(old(out)@, seq![7u8], enc_pubkey((*wallet)) + (enc_arr::<32>((*role_id)) + (enc_u64((*current_slot)))));
            }
        },
        PermissionRegistryInstruction::RevokeRole{ wallet, role_id } => {
            out.push(8u8);
            let ghost ot = out@;
            assert(ot =~= old(out)@ + seq![8u8]);
            write_pubkey(out, wallet);
            let ghost o0 = out@;
            write_arr::<32>(out, role_id);
            let ghost o1 = out@;
            proof {
                lemma_assoc(ot, enc_pubkey((*wallet)), enc_arr::<32>((*role_id)));
            }
            proof {
                lemma_assoc(old(out)@, seq![8u8], enc_pubkey((*wallet)) + (enc_arr::<32>((*role_id))));
            }
        },
        PermissionRegistryInstruction::EvaluateAccess{ wallet, required_tier, required_role_id, subnet_id, current_slot } => {
            out.push(9u8);
            let ghost ot = out@;
            assert(ot =~= old(out)@ + seq![9u8]);
            write_pubkey(out, wallet);
            let ghost o0 = out@;
            write_clearance_tier(out, required_tier);
            let ghost o1 = out@;
            write_arr::<32>(out, required_role_id);
            let ghost o2 = out@;
            write_arr::<32>(out, subnet_id);
            let ghost o3 = out@;
            write_u64(out, *current_slot);
            let ghost o4 = out@;
            proof {
                lemma_assoc(o2, enc_arr::<32>((*subnet_id)), enc_u64((*current_slot)));
                lemma_assoc(o1, enc_arr::<32>((*required_role_id)), enc_arr::<32>((*subnet_id)) + (enc_u64((*current_slot))));
                lemma_assoc(o0, enc_clearance_tier((*required_tier)), enc_arr::<32>((*required_role_id)) + (enc_arr::<32>((*subnet_id)) + (enc_u64((*current_slot)))));
                lemma_assoc(ot, enc_pubkey((*wallet)), enc_clearance_tier((*required_tier)) + (enc_arr::<32>((*required_role_id)) + (enc_arr::<32>((*subnet_id)) + (enc_u64((*current_slot))))));
            }
            proof {
                lemma_assoc(old(out)@, seq![9u8], enc_pubkey((*wallet)) + (enc_clearance_tier((*required_tier)) + (enc_arr::<32>((*required_role_id)) + (enc_arr::<32>((*subnet_id)) + (enc_u64((*current_slot)))))));
            }
        },
        PermissionRegistryInstruction::DecryptHeader{ envelope_header } => {
            out.push(10u8);
            let ghost ot = out@;
            assert(ot =~= old(out)@ + seq![10u8]);
            if !write_bytes(out, envelope_header.as_slice()) { return false; }
            let ghost o0 = out@;
            proof {
            }
            proof {
                lemma_assoc(old(out)@, seq![10u8], enc_bytes((*envelope_header)@));
            }
        },
    }
    true
}

proof fn lemma_permission_registry_instruction_initialize_registry(current_slot: u64, rest: Seq<u8>)
    ensures
        dec_permission_registry_instruction(enc_permission_registry_instruction(PermissionRegistryInstructionModel::InitializeRegistry{ current_slot }) + rest) == Some((PermissionRegistryInstructionModel::InitializeRegistry{ current_slot }, rest)),
{
    reveal(enc_permission_registry_instruction);
    reveal(dec_permission_registry_instruction);
    assert((enc_permission_registry_instruction(PermissionRegistryInstructionModel::InitializeRegistry{ current_slot }) + rest).skip(1) =~= (enc_u64(current_slot)) + rest);
    lemma_u64(current_slot, rest);
}

proof fn lemma_permission_registry_instruction_register_issuer(authority: Pubkey, tier: ClearanceTier, label: Seq<char>, current_slot: u64, rest: Seq<u8>)
    requires
        fits_string(label),
    ensures
        dec_permission_registry_instruction(enc_permission_registry_instruction(PermissionRegistryInstructionModel::RegisterIssuer{ authority, tier, label, current_slot }) + rest) == Some((PermissionRegistryInstructionModel::RegisterIssuer{ authority, tier, label, current_slot }, rest)),
{
    reveal(enc_permission_registry_instruction);
    reveal(dec_permission_registry_instruction);
    assert((enc_permission_registry_instruction(PermissionRegistryInstructionModel::RegisterIssuer{ authority, tier, label, current_slot }) + rest).skip(1) =~= (enc_pubkey(authority) + (enc_clearance_tier(tier) + (enc_string(label) + (enc_u64(current_slot))))) + rest);
    lemma_assoc(enc_pubkey(authority), enc_clearance_tier(tier) + (enc_string(label) + (enc_u64(current_slot))), rest);
    lemma_pubkey(authority, enc_clearance_tier(tier) + (enc_string(label) + (enc_u64(current_slot))) + rest);
    lemma_assoc(enc_clearance_tier(tier), enc_string(label) + (enc_u64(current_slot)), rest);
    lemma_clearance_tier(tier, enc_string(label) + (enc_u64(current_slot)) + rest);
    lemma_assoc(enc_string(label), enc_u64(current_slot), rest);
    lemma_string(label, enc_u64(current_slot) + rest);
    lemma_u64(current_slot, rest);
}

proof fn lemma_permission_registry_instruction_deactivate_issuer(authority: Pubkey, tier: ClearanceTier, rest: Seq<u8>)
    ensures
        dec_permission_registry_instruction(enc_permission_registry_instruction(PermissionRegistryInstructionModel::DeactivateIssuer{ authority, tier }) + rest) == Some((PermissionRegistryInstructionModel::DeactivateIssuer{ authority, tier }, rest)),
{
    reveal(enc_permission_registry_instruction);
    reveal(dec_permission_registry_instruction);
    assert((enc_permission_registry_instruction(PermissionRegistryInstructionModel::DeactivateIssuer{ authority, tier }) + rest).skip(1) =~= (enc_pubkey(authority) + (enc_clearance_tier(tier))) + rest);
    lemma_assoc(enc_pubkey(authority), enc_clearance_tier(tier), rest);
    lemma_pubkey(authority, enc_clearance_tier(tier) + rest);
    lemma_clearance_tier(tier, rest);
}

proof fn lemma_permission_registry_instruction_issue_clearance(holder: Pubkey, tier: ClearanceTier, valid_until_slot: Option<u64>, revocation_registry: Pubkey, current_slot: u64, rest: Seq<u8>)
    ensures
        dec_permission_registry_instruction(enc_permission_registry_instruction(PermissionRegistryInstructionModel::IssueClearance{ holder, tier, valid_until_slot, revocation_registry, current_slot }) + rest) == Some((PermissionRegistryInstructionModel::IssueClearance{ holder, tier, valid_until_slot, revocation_registry, current_slot }, rest)),
{
    reveal(enc_permission_registry_instruction);
    reveal(dec_permission_registry_instruction);
    assert((enc_permission_registry_instruction(PermissionRegistryInstructionModel::IssueClearance{ holder, tier, valid_until_slot, revocation_registry, current_slot }) + rest).skip(1) =~= (enc_pubkey(holder) + (enc_clearance_tier(tier) + (enc_opt_u64(valid_until_slot) + (enc_pubkey(revocation_registry) + (enc_u64(current_slot)))))) + rest);
    lemma_assoc(enc_pubkey(holder), enc_clearance_tier(tier) + (enc_opt_u64(valid_until_slot) + (enc_pubkey(revocation_registry) + (enc_u64(current_slot)))), rest);
    lemma_pubkey(holder, enc_clearance_tier(tier) + (enc_opt_u64(valid_until_slot) + (enc_pubkey(revocation_registry) + (enc_u64(current_slot)))) + rest);
    lemma_assoc(enc_clearance_tier(tier), enc_opt_u64(valid_until_slot) + (enc_pubkey(revocation_registry) + (enc_u64(current_slot))), rest);
    lemma_clearance_tier(tier, enc_opt_u64(valid_until_slot) + (enc_pubkey(revocation_registry) + (enc_u64(current_slot))) + rest);
    lemma_assoc(enc_opt_u64(valid_until_slot), enc_pubkey(revocation_registry) + (enc_u64(current_slot)), rest);
    lemma_opt_u64(valid_until_slot, enc_pubkey(revocation_registry) + (enc_u64(current_slot)) + rest);
    lemma_assoc(enc_pubkey(revocation_registry), enc_u64(current_slot), rest);
    lemma_pubkey(revocation_registry, enc_u64(current_slot) + rest);
    lemma_u64(current_slot, rest);
}

proof fn lemma_permission_registry_instruction_revoke_clearance(holder: Pubkey, tier: ClearanceTier, rest: Seq<u8>)
    ensures
        dec_permission_registry_instruction(enc_permission_registry_instruction(PermissionRegistryInstructionModel::RevokeClearance{ holder, tier }) + rest) == Some((PermissionRegistryInstructionModel::RevokeClearance{ holder, tier }, rest)),
{
    reveal(enc_permission_registry_instruction);
    reveal(dec_permission_registry_instruction);
    assert((enc_permission_registry_instruction(PermissionRegistryInstructionModel::RevokeClearance{ holder, tier }) + rest).skip(1) =~= (enc_pubkey(holder) + (enc_clearance_tier(tier))) + rest);
    lemma_assoc(enc_pubkey(holder), enc_clearance_tier(tier), rest);
    lemma_pubkey(holder, enc_clearance_tier(tier) + rest);
    lemma_clearance_tier(tier, rest);
}

proof fn lemma_permission_registry_instruction_register_role(role_id: [u8; 32], label: Seq<char>, min_clearance: ClearanceTier, max_clearance: ClearanceTier, subnet_bindings: Seq<[u8; 32]>, current_slot: u64, rest: Seq<u8>)
    requires
        fits_string(label),
        fits_vec_arr32(subnet_bindings),
    ensures
        dec_permission_registry_instruction(enc_permission_registry_instruction(PermissionRegistryInstructionModel::RegisterRole{ role_id, label, min_clearance, max_clearance, subnet_bindings, current_slot }) + rest) == Some((PermissionRegistryInstructionModel::RegisterRole{ role_id, label, min_clearance, max_clearance, subnet_bindings, current_slot }, rest)),
{
    reveal(enc_permission_registry_instruction);
    reveal(dec_permission_registry_instruction);
    assert((enc_permission_registry_instruction(PermissionRegistryInstructionModel::RegisterRole{ role_id, label, min_clearance, max_clearance, subnet_bindings, current_slot }) + rest).skip(1) =~= (enc_arr::<32>(role_id) + (enc_string(label) + (enc_clearance_tier(min_clearance) + (enc_clearance_tier(max_clearance) + (enc_vec_arr32(subnet_bindings) + (enc_u64(current_slot))))))) + rest);
    lemma_assoc(enc_arr::<32>(role_id), enc_string(label) + (enc_clearance_tier(min_clearance) + (enc_clearance_tier(max_clearance) + (enc_vec_arr32(subnet_bindings) + (enc_u64(current_slot))))), rest);
    lemma_arr::<32>(role_id, enc_string(label) + (enc_clearance_tier(min_clearance) + (enc_clearance_tier(max_clearance) + (enc_vec_arr32(subnet_bindings) + (enc_u64(current_slot))))) + rest);
    lemma_assoc(enc_string(label), enc_clearance_tier(min_clearance) + (enc_clearance_tier(max_clearance) + (enc_vec_arr32(subnet_bindings) + (enc_u64(current_slot)))), rest);
    lemma_string(label, enc_clearance_tier(min_clearance) + (enc_clearance_tier(max_clearance) + (enc_vec_arr32(subnet_bindings) + (enc_u64(current_slot)))) + rest);
    lemma_assoc(enc_clearance_tier(min_clearance), enc_clearance_tier(max_clearance) + (enc_vec_arr32(subnet_bindings) + (enc_u64(current_slot))), rest);
    lemma_clearance_tier(min_clearance, enc_clearance_tier(max_clearance) + (enc_vec_arr32(subnet_bindings) + (enc_u64(current_slot))) + rest);
    lemma_assoc(enc_clearance_tier(max_clearance), enc_vec_arr32(subnet_bindings) + (enc_u64(current_slot)), rest);
    lemma_clearance_tier(max_clearance, enc_vec_arr32(subnet_bindings) + (enc_u64(current_slot)) + rest);
    lemma_assoc(enc_vec_arr32(subnet_bindings), enc_u64(current_slot), rest);
    lemma_vec_arr32(subnet_bindings, enc_u64(current_slot) + rest);
    lemma_u64(current_slot, rest);
}

proof fn lemma_permission_registry_instruction_deactivate_role(role_id: [u8; 32], rest: Seq<u8>)
    ensures
        dec_permission_registry_instruction(enc_permission_registry_instruction(PermissionRegistryInstructionModel::DeactivateRole{ role_id }) + rest) == Some((PermissionRegistryInstructionModel::DeactivateRole{ role_id }, rest)),
{
    reveal(enc_permission_registry_instruction);
    reveal(dec_permission_registry_instruction);
    assert((enc_permission_registry_instruction(PermissionRegistryInstructionModel::DeactivateRole{ role_id }) + rest).skip(1) =~= (enc_arr::<32>(role_id)) + rest);
    lemma_arr::<32>(role_id, rest);
}

proof fn lemma_permission_registry_instruction_assign_role(wallet: Pubkey, role_id: [u8; 32], current_slot: u64, rest: Seq<u8>)
    ensures
        dec_permission_registry_instruction(enc_permission_registry_instruction(PermissionRegistryInstructionModel::AssignRole{ wallet, role_id, current_slot }) + rest) == Some((PermissionRegistryInstructionModel::AssignRole{ wallet, role_id, current_slot }, rest)),
{
    reveal(enc_permission_registry_instruction);
    reveal(dec_permission_registry_instruction);
    assert((enc_permission_registry_instruction(PermissionRegistryInstructionModel::AssignRole{ wallet, role_id, current_slot }) + rest).skip(1) =~= (enc_pubkey(wallet) + (enc_arr::<32>(role_id) + (enc_u64(current_slot)))) + rest);
    lemma_assoc(enc_pubkey(wallet), enc_arr::<32>(role_id) + (enc_u64(current_slot)), rest);
    lemma_pubkey(wallet, enc_arr::<32>(role_id) + (enc_u64(current_slot)) + rest);
    lemma_assoc(enc_arr::<32>(role_id), enc_u64(current_slot), rest);
    lemma_arr::<32>(role_id, enc_u64(current_slot) + rest);
    lemma_u64(current_slot, rest);
}

proof fn lemma_permission_registry_instruction_revoke_role(wallet: Pubkey, role_id: [u8; 32], rest: Seq<u8>)
    ensures
        dec_permission_registry_instruction(enc_permission_registry_instruction(PermissionRegistryInstructionModel::RevokeRole{ wallet, role_id }) + rest) == Some((PermissionRegistryInstructionModel::RevokeRole{ wallet, role_id }, rest)),
{
    reveal(enc_permission_registry_instruction);
    reveal(dec_permission_registry_instruction);
    assert((enc_permission_registry_instruction(PermissionRegistryInstructionModel::RevokeRole{ wallet, role_id }) + rest).skip(1) =~= (enc_pubkey(wallet) + (enc_arr::<32>(role_id))) + rest);
    lemma_assoc(enc_pubkey(wallet), enc_arr::<32>(role_id), rest);
    lemma_pubkey(wallet, enc_arr::<32>(role_id) + rest);
    lemma_arr::<32>(role_id, rest);
}

proof fn lemma_permission_registry_instruction_evaluate_access(wallet: Pubkey, required_tier: ClearanceTier, required_role_id: [u8; 32], subnet_id: [u8; 32], current_slot: u64, rest: Seq<u8>)
    ensures
        dec_permission_registry_instruction(enc_permission_registry_instruction(PermissionRegistryInstructionModel::EvaluateAccess{ wallet, required_tier, required_role_id, subnet_id, current_slot }) + rest) == Some((PermissionRegistryInstructionModel::EvaluateAccess{ wallet, required_tier, required_role_id, subnet_id, current_slot }, rest)),
{
    reveal(enc_permission_registry_instruction);
    reveal(dec_permission_registry_instruction);
    assert((enc_permission_registry_instruction(PermissionRegistryInstructionModel::EvaluateAccess{ wallet, required_tier, required_role_id, subnet_id, current_slot }) + rest).skip(1) =~= (enc_pubkey(wallet) + (enc_clearance_tier(required_tier) + (enc_arr::<32>(required_role_id) + (enc_arr::<32>(subnet_id) + (enc_u64(current_slot)))))) + rest);
    lemma_assoc(enc_pubkey(wallet), enc_clearance_tier(required_tier) + (enc_arr::<32>(required_role_id) + (enc_arr::<32>(subnet_id) + (enc_u64(current_slot)))), rest);
    lemma_pubkey(wallet, enc_clearance_tier(required_tier) + (enc_arr::<32>(required_role_id) + (enc_arr::<32>(subnet_id) + (enc_u64(current_slot)))) + rest);
    lemma_assoc(enc_clearance_tier(required_tier), enc_arr::<32>(required_role_id) + (enc_arr::<32>(subnet_id) + (enc_u64(current_slot))), rest);
    lemma_clearance_tier(required_tier, enc_arr::<32>(required_role_id) + (enc_arr::<32>(subnet_id) + (enc_u64(current_slot))) + rest);
    lemma_assoc(enc_arr::<32>(required_role_id), enc_arr::<32>(subnet_id) + (enc_u64(current_slot)), rest);
    lemma_arr::<32>(required_role_id, enc_arr::<32>(subnet_id) + (enc_u64(current_slot)) + rest);
    lemma_assoc(enc_arr::<32>(subnet_id), enc_u64(current_slot), rest);
    lemma_arr::<32>(subnet_id, enc_u64(current_slot) + rest);
    lemma_u64(current_slot, rest);
}

proof fn lemma_permission_registry_instruction_decrypt_header(envelope_header: Seq<u8>, rest: Seq<u8>)
    requires
        fits_u32(envelope_header.len()),
    ensures
        dec_permission_registry_instruction(enc_permission_registry_instruction(PermissionRegistryInstructionModel::DecryptHeader{ envelope_header }) + rest) == Some((PermissionRegistryInstructionModel::DecryptHeader{ envelope_header }, rest)),
{
    reveal(enc_permission_registry_instruction);
    reveal(dec_permission_registry_instruction);
    assert((enc_permission_registry_instruction(PermissionRegistryInstructionModel::DecryptHeader{ envelope_header }) + rest).skip(1) =~= (enc_bytes(envelope_header)) + rest);
    lemma_bytes(envelope_header, rest);
}

pub proof fn lemma_permission_registry_instruction(v: PermissionRegistryInstructionModel, rest: Seq<u8>)
    requires
        fits_permission_registry_instruction(v),
    ensures
        dec_permission_registry_instruction(enc_permission_registry_instruction(v) + rest) == Some((v, rest)),
{
    reveal(enc_permission_registry_instruction);
    reveal(dec_permission_registry_instruction);
    match v {
        PermissionRegistryInstructionModel::InitializeRegistry{ current_slot } => lemma_permission_registry_instruction_initialize_registry(current_slot, rest),
        PermissionRegistryInstructionModel::RegisterIssuer{ authority, tier, label, current_slot } => lemma_permission_registry_instruction_register_issuer(authority, tier, label, current_slot, rest),
        PermissionRegistryInstructionModel::DeactivateIssuer{ authority, tier } => lemma_permission_registry_instruction_deactivate_issuer(authority, tier, rest),
        PermissionRegistryInstructionModel::IssueClearance{ holder, tier, valid_until_slot, revocation_registry, current_slot } => lemma_permission_registry_instruction_issue_clearance(holder, tier, valid_until_slot, revocation_registry, current_slot, rest),
        PermissionRegistryInstructionModel::RevokeClearance{ holder, tier } => lemma_permission_registry_instruction_revoke_clearance(holder, tier, rest),
        PermissionRegistryInstructionModel::RegisterRole{ role_id, label, min_clearance, max_clearance, subnet_bindings, current_slot } => lemma_permission_registry_instruction_register_role(role_id, label, min_clearance, max_clearance, subnet_bindings, current_slot, rest),
        PermissionRegistryInstructionModel::DeactivateRole{ role_id } => lemma_permission_registry_instruction_deactivate_role(role_id, rest),
        PermissionRegistryInstructionModel::AssignRole{ wallet, role_id, current_slot } => lemma_permission_registry_instruction_assign_role(wallet, role_id, current_slot, rest),
        PermissionRegistryInstructionModel::RevokeRole{ wallet, role_id } => lemma_permission_registry_instruction_revoke_role(wallet, role_id, rest),
        PermissionRegistryInstructionModel::EvaluateAccess{ wallet, required_tier, required_role_id, subnet_id, current_slot } => lemma_permission_registry_instruction_evaluate_access(wallet, required_tier, required_role_id, subnet_id, current_slot, rest),
        PermissionRegistryInstructionModel::DecryptHeader{ envelope_header } => lemma_permission_registry_instruction_decrypt_header(envelope_header, rest),
    }
}

/// Decodes a [`PermissionRegistryInstruction`] that must take up all of `d`.
pub fn permission_registry_instruction_from_slice(d: &[u8]) -> (r: Option<PermissionRegistryInstruction>)
    ensures
        r is Some <==> (dec_permission_registry_instruction(d@) matches Some((_, rest)) && rest.len() == 0),
        r matches Some(v) ==> dec_permission_registry_instruction(d@) == Some((v@, Seq::<u8>::empty())),
{
    assert(d@.skip(0) =~= d@);
    match read_permission_registry_instruction(d, 0) {
        None => None,
        Some((v, p)) => {
            if p == d.len() {
                assert(d@.skip(p as int) =~= Seq::<u8>::empty());
                Some(v)
            } else {
                None
            }
        },
    }
}

/// Decodes a [`PermissionRegistryInstruction`] from the front of `d`, ignoring what follows it.
pub fn permission_registry_instruction_from_prefix(d: &[u8]) -> (r: Option<PermissionRegistryInstruction>)
    ensures
        r is Some <==> dec_permission_registry_instruction(d@) is Some,
        r matches Some(v) ==> dec_permission_registry_instruction(d@) matches Some((m, _)) && m == v@,
{
    assert(d@.skip(0) =~= d@);
    match read_permission_registry_instruction(d, 0) {
        None => None,
        Some((v, _)) => Some(v),
    }
}

/// Serialises a [`PermissionRegistryInstruction`]; `None` when a length does not fit the `u32` prefix.
pub fn permission_registry_instruction_to_vec(v: &PermissionRegistryInstruction) -> (r: Option<Vec<u8>>)
    ensures
        r is Some <==> fits_permission_registry_instruction(v@),
        r matches Some(b) ==> b@ == enc_permission_registry_instruction(v@),
{
    let mut out: Vec<u8> = Vec::new();
    if write_permission_registry_instruction(&mut out, v) {
        assert(out@ =~= enc_permission_registry_instruction(v@));
        Some(out)
    } else {
        None
    }
}

} // verus!
