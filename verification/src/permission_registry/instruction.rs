//! Instruction builders: each returns the instruction with its encoded data and
//! the accounts it expects, in order.
use vstd::prelude::*;
use crate::permission_registry::types::{PermissionRegistryInstruction, PermissionRegistryInstructionModel, enc_permission_registry_instruction, fits_permission_registry_instruction, permission_registry_instruction_to_vec};
use crate::permission_types::types::{ClearanceTier};
use crate::pubkey::{Pubkey};
use crate::runtime::{AccountMeta, Instruction};

verus! {

pub fn initialize_registry(
    program_id: &Pubkey,
    registry_config_pda: &Pubkey,
    upgrade_authority: &Pubkey,
    current_slot: u64,
) -> (r: Instruction)
    ensures
        r.program_id == *program_id,
        r.accounts@ == seq![AccountMeta { pubkey: *registry_config_pda, is_signer: false, is_writable: true }, AccountMeta { pubkey: *upgrade_authority, is_signer: true, is_writable: false }],
        r.data@ == enc_permission_registry_instruction(PermissionRegistryInstructionModel::InitializeRegistry { current_slot }),
{
    let data = match permission_registry_instruction_to_vec(&PermissionRegistryInstruction::InitializeRegistry { current_slot }) {
        Some(d) => d,
        None => Vec::new(),
    };
    Instruction {
        program_id: *program_id,
        accounts: vec![
            AccountMeta::new(*registry_config_pda, false),
            AccountMeta::new_readonly(*upgrade_authority, true),
        ],
        data,
    }
}

pub fn register_issuer(
    program_id: &Pubkey,
    issuer_record_pda: &Pubkey,
    registry_config_pda: &Pubkey,
    upgrade_authority: &Pubkey,
    authority: Pubkey,
    tier: ClearanceTier,
    label: String,
    current_slot: u64,
) -> (r: Instruction)
    requires
        fits_permission_registry_instruction(PermissionRegistryInstructionModel::RegisterIssuer { authority, tier, label: label@, current_slot }),
    ensures
        r.program_id == *program_id,
        r.accounts@ == seq![AccountMeta { pubkey: *issuer_record_pda, is_signer: false, is_writable: true }, AccountMeta { pubkey: *registry_config_pda, is_signer: false, is_writable: false }, AccountMeta { pubkey: *upgrade_authority, is_signer: true, is_writable: false }],
        r.data@ == enc_permission_registry_instruction(PermissionRegistryInstructionModel::RegisterIssuer { authority, tier, label: label@, current_slot }),
{
    let data = match permission_registry_instruction_to_vec(&PermissionRegistryInstruction::RegisterIssuer { authority, tier, label, current_slot }) {
        Some(d) => d,
        None => Vec::new(),
    };
    Instruction {
        program_id: *program_id,
        accounts: vec![
            AccountMeta::new(*issuer_record_pda, false),
            AccountMeta::new_readonly(*registry_config_pda, false),
            AccountMeta::new_readonly(*upgrade_authority, true),
        ],
        data,
    }
}

pub fn issue_clearance(
    program_id: &Pubkey,
    clearance_sbt_pda: &Pubkey,
    issuer_record_pda: &Pubkey,
    issuer_authority: &Pubkey,
    holder: Pubkey,
    tier: ClearanceTier,
    valid_until_slot: Option<u64>,
    revocation_registry: Pubkey,
    current_slot: u64,
) -> (r: Instruction)
    ensures
        r.program_id == *program_id,
        r.accounts@ == seq![AccountMeta { pubkey: *clearance_sbt_pda, is_signer: false, is_writable: true }, AccountMeta { pubkey: *issuer_record_pda, is_signer: false, is_writable: false }, AccountMeta { pubkey: *issuer_authority, is_signer: true, is_writable: false }],
        r.data@ == enc_permission_registry_instruction(PermissionRegistryInstructionModel::IssueClearance { holder, tier, valid_until_slot, revocation_registry, current_slot }),
{
    let data = match permission_registry_instruction_to_vec(&PermissionRegistryInstruction::IssueClearance { holder, tier, valid_until_slot, revocation_registry, current_slot }) {
        Some(d) => d,
        None => Vec::new(),
    };
    Instruction {
        program_id: *program_id,
        accounts: vec![
            AccountMeta::new(*clearance_sbt_pda, false),
            AccountMeta::new_readonly(*issuer_record_pda, false),
            AccountMeta::new_readonly(*issuer_authority, true),
        ],
        data,
    }
}

pub fn revoke_clearance(
    program_id: &Pubkey,
    clearance_sbt_pda: &Pubkey,
    authority: &Pubkey,
    holder: Pubkey,
    tier: ClearanceTier,
) -> (r: Instruction)
    ensures
        r.program_id == *program_id,
        r.accounts@ == seq![AccountMeta { pubkey: *clearance_sbt_pda, is_signer: false, is_writable: true }, AccountMeta { pubkey: *authority, is_signer: true, is_writable: false }],
        r.data@ == enc_permission_registry_instruction(PermissionRegistryInstructionModel::RevokeClearance { holder, tier }),
{
    let data = match permission_registry_instruction_to_vec(&PermissionRegistryInstruction::RevokeClearance { holder, tier }) {
        Some(d) => d,
        None => Vec::new(),
    };
    Instruction {
        program_id: *program_id,
        accounts: vec![
            AccountMeta::new(*clearance_sbt_pda, false),
            AccountMeta::new_readonly(*authority, true),
        ],
        data,
    }
}

pub fn register_role(
    program_id: &Pubkey,
    role_entry_pda: &Pubkey,
    role_authority: &Pubkey,
    role_id: [u8; 32],
    label: String,
    min_clearance: ClearanceTier,
    max_clearance: ClearanceTier,
    subnet_bindings: Vec<[u8; 32]>,
    current_slot: u64,
) -> (r: Instruction)
    requires
        fits_permission_registry_instruction(PermissionRegistryInstructionModel::RegisterRole { role_id, label: label@, min_clearance, max_clearance, subnet_bindings: subnet_bindings@, current_slot }),
    ensures
        r.program_id == *program_id,
        r.accounts@ == seq![AccountMeta { pubkey: *role_entry_pda, is_signer: false, is_writable: true }, AccountMeta { pubkey: *role_authority, is_signer: true, is_writable: false }],
        r.data@ == enc_permission_registry_instruction(PermissionRegistryInstructionModel::RegisterRole { role_id, label: label@, min_clearance, max_clearance, subnet_bindings: subnet_bindings@, current_slot }),
{
    let data = match permission_registry_instruction_to_vec(&PermissionRegistryInstruction::RegisterRole { role_id, label, min_clearance, max_clearance, subnet_bindings, current_slot }) {
        Some(d) => d,
        None => Vec::new(),
    };
    Instruction {
        program_id: *program_id,
        accounts: vec![
            AccountMeta::new(*role_entry_pda, false),
            AccountMeta::new_readonly(*role_authority, true),
        ],
        data,
    }
}

pub fn deactivate_role(
    program_id: &Pubkey,
    role_entry_pda: &Pubkey,
    role_authority: &Pubkey,
    role_id: [u8; 32],
) -> (r: Instruction)
    ensures
        r.program_id == *program_id,
        r.accounts@ == seq![AccountMeta { pubkey: *role_entry_pda, is_signer: false, is_writable: true }, AccountMeta { pubkey: *role_authority, is_signer: true, is_writable: false }],
        r.data@ == enc_permission_registry_instruction(PermissionRegistryInstructionModel::DeactivateRole { role_id }),
{
    let data = match permission_registry_instruction_to_vec(&PermissionRegistryInstruction::DeactivateRole { role_id }) {
        Some(d) => d,
        None => Vec::new(),
    };
    Instruction {
        program_id: *program_id,
        accounts: vec![
            AccountMeta::new(*role_entry_pda, false),
            AccountMeta::new_readonly(*role_authority, true),
        ],
        data,
    }
}

pub fn assign_role(
    program_id: &Pubkey,
    role_assignment_pda: &Pubkey,
    role_entry_pda: &Pubkey,
    caller_clearance_sbt_pda: &Pubkey,
    assigning_authority: &Pubkey,
    wallet: Pubkey,
    role_id: [u8; 32],
    current_slot: u64,
) -> (r: Instruction)
    ensures
        r.program_id == *program_id,
        r.accounts@ == seq![AccountMeta { pubkey: *role_assignment_pda, is_signer: false, is_writable: true }, AccountMeta { pubkey: *role_entry_pda, is_signer: false, is_writable: false }, AccountMeta { pubkey: *caller_clearance_sbt_pda, is_signer: false, is_writable: false }, AccountMeta { pubkey: *assigning_authority, is_signer: true, is_writable: false }],
        r.data@ == enc_permission_registry_instruction(PermissionRegistryInstructionModel::AssignRole { wallet, role_id, current_slot }),
{
    let data = match permission_registry_instruction_to_vec(&PermissionRegistryInstruction::AssignRole { wallet, role_id, current_slot }) {
        Some(d) => d,
        None => Vec::new(),
    };
    Instruction {
        program_id: *program_id,
        accounts: vec![
            AccountMeta::new(*role_assignment_pda, false),
            AccountMeta::new_readonly(*role_entry_pda, false),
            AccountMeta::new_readonly(*caller_clearance_sbt_pda, false),
            AccountMeta::new_readonly(*assigning_authority, true),
        ],
        data,
    }
}

pub fn revoke_role(
    program_id: &Pubkey,
    role_assignment_pda: &Pubkey,
    role_entry_pda: &Pubkey,
    role_authority: &Pubkey,
    wallet: Pubkey,
    role_id: [u8; 32],
) -> (r: Instruction)
    ensures
        r.program_id == *program_id,
        r.accounts@ == seq![AccountMeta { pubkey: *role_assignment_pda, is_signer: false, is_writable: true }, AccountMeta { pubkey: *role_entry_pda, is_signer: false, is_writable: false }, AccountMeta { pubkey: *role_authority, is_signer: true, is_writable: false }],
        r.data@ == enc_permission_registry_instruction(PermissionRegistryInstructionModel::RevokeRole { wallet, role_id }),
{
    let data = match permission_registry_instruction_to_vec(&PermissionRegistryInstruction::RevokeRole { wallet, role_id }) {
        Some(d) => d,
        None => Vec::new(),
    };
    Instruction {
        program_id: *program_id,
        accounts: vec![
            AccountMeta::new(*role_assignment_pda, false),
            AccountMeta::new_readonly(*role_entry_pda, false),
            AccountMeta::new_readonly(*role_authority, true),
        ],
        data,
    }
}

pub fn evaluate_access(
    program_id: &Pubkey,
    clearance_sbt_pda: &Pubkey,
    role_assignment_pda: &Pubkey,
    role_entry_pda: &Pubkey,
    subnet_record_pda: &Pubkey,
    wallet: Pubkey,
    required_tier: ClearanceTier,
    required_role_id: [u8; 32],
    subnet_id: [u8; 32],
    current_slot: u64,
) -> (r: Instruction)
    ensures
        r.program_id == *program_id,
        r.accounts@ == seq![AccountMeta { pubkey: *clearance_sbt_pda, is_signer: false, is_writable: false }, AccountMeta { pubkey: *role_assignment_pda, is_signer: false, is_writable: false }, AccountMeta { pubkey: *role_entry_pda, is_signer: false, is_writable: false }, AccountMeta { pubkey: *subnet_record_pda, is_signer: false, is_writable: false }],
        r.data@ == enc_permission_registry_instruction(PermissionRegistryInstructionModel::EvaluateAccess { wallet, required_tier, required_role_id, subnet_id, current_slot }),
{
    let data = match permission_registry_instruction_to_vec(&PermissionRegistryInstruction::EvaluateAccess { wallet, required_tier, required_role_id, subnet_id, current_slot }) {
        Some(d) => d,
        None => Vec::new(),
    };
    Instruction {
        program_id: *program_id,
        accounts: vec![
            AccountMeta::new_readonly(*clearance_sbt_pda, false),
            AccountMeta::new_readonly(*role_assignment_pda, false),
            AccountMeta::new_readonly(*role_entry_pda, false),
            AccountMeta::new_readonly(*subnet_record_pda, false),
        ],
        data,
    }
}

} // verus!
