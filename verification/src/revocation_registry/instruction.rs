//! Instruction builders: each returns the instruction with its encoded data and
//! the accounts it expects, in order.
use vstd::prelude::*;
use crate::permission_types::types::{KeyAlgorithm, KeyType};
use crate::pubkey::{Pubkey};
use crate::revocation_registry::types::{RevocationRegistryInstruction, RevocationRegistryInstructionModel, enc_revocation_registry_instruction, fits_revocation_registry_instruction, revocation_registry_instruction_to_vec};
use crate::runtime::{AccountMeta, Instruction};

verus! {

pub fn initialize_registry(
    program_id: &Pubkey,
    registry_config_pda: &Pubkey,
    upgrade_authority: &Pubkey,
    current_slot: u64,
) -> (r: Instruction)
    ensures
        r.program_id == *program_id,
        r.accounts@ == seq![AccountMeta { pubkey: *registry_config_pda, is_signer: false, is_writable: true }, AccountMeta { pubkey: *upgrade_authority, is_signer: true, is_writable: false }],
        r.data@ == enc_revocation_registry_instruction(RevocationRegistryInstructionModel::InitializeRegistry { current_slot }),
{
    let data = match revocation_registry_instruction_to_vec(&RevocationRegistryInstruction::InitializeRegistry { current_slot }) {
        Some(d) => d,
        None => Vec::new(),
    };
    Instruction {
        program_id: *program_id,
        accounts: vec![
            AccountMeta::new(*registry_config_pda, false),
            AccountMeta::new_readonly(*upgrade_authority, true),
        ],
        data,
    }
}

pub fn register_key(
    program_id: &Pubkey,
    key_record_pda: &Pubkey,
    owner: &Pubkey,
    key_id: [u8; 32],
    key_type: KeyType,
    key_algorithm: KeyAlgorithm,
    public_key_bytes: Vec<u8>,
    expires_at_slot: Option<u64>,
    current_slot: u64,
) -> (r: Instruction)
    requires
        fits_revocation_registry_instruction(RevocationRegistryInstructionModel::RegisterKey { key_id, key_type, key_algorithm, public_key_bytes: public_key_bytes@, expires_at_slot, current_slot }),
    ensures
        r.program_id == *program_id,
        r.accounts@ == seq![AccountMeta { pubkey: *key_record_pda, is_signer: false, is_writable: true }, AccountMeta { pubkey: *owner, is_signer: true, is_writable: false }],
        r.data@ == enc_revocation_registry_instruction(RevocationRegistryInstructionModel::RegisterKey { key_id, key_type, key_algorithm, public_key_bytes: public_key_bytes@, expires_at_slot, current_slot }),
{
    let data = match revocation_registry_instruction_to_vec(&RevocationRegistryInstruction::RegisterKey { key_id, key_type, key_algorithm, public_key_bytes, expires_at_slot, current_slot }) {
        Some(d) => d,
        None => Vec::new(),
    };
    Instruction {
        program_id: *program_id,
        accounts: vec![
            AccountMeta::new(*key_record_pda, false),
            AccountMeta::new_readonly(*owner, true),
        ],
        data,
    }
}

pub fn initiate_rotation(
    program_id: &Pubkey,
    key_record_pda: &Pubkey,
    rotation_intent_pda: &Pubkey,
    owner: &Pubkey,
    key_id: [u8; 32],
    successor_key_id: [u8; 32],
    required_approvals: u8,
    ttl_slots: u64,
    current_slot: u64,
) -> (r: Instruction)
    ensures
        r.program_id == *program_id,
        r.accounts@ == seq![AccountMeta { pubkey: *key_record_pda, is_signer: false, is_writable: true }, AccountMeta { pubkey: *rotation_intent_pda, is_signer: false, is_writable: true }, AccountMeta { pubkey: *owner, is_signer: true, is_writable: false }],
        r.data@ == enc_revocation_registry_instruction(RevocationRegistryInstructionModel::InitiateRotation { key_id, successor_key_id, required_approvals, ttl_slots, current_slot }),
{
    let data = match revocation_registry_instruction_to_vec(&RevocationRegistryInstruction::InitiateRotation { key_id, successor_key_id, required_approvals, ttl_slots, current_slot }) {
        Some(d) => d,
        None => Vec::new(),
    };
    Instruction {
        program_id: *program_id,
        accounts: vec![
            AccountMeta::new(*key_record_pda, false),
            AccountMeta::new(*rotation_intent_pda, false),
            AccountMeta::new_readonly(*owner, true),
        ],
        data,
    }
}

pub fn approve_rotation(
    program_id: &Pubkey,
    rotation_intent_pda: &Pubkey,
    rotation_approval_pda: &Pubkey,
    approver: &Pubkey,
    key_id: [u8; 32],
    current_slot: u64,
) -> (r: Instruction)
    ensures
        r.program_id == *program_id,
        r.accounts@ == seq![AccountMeta { pubkey: *rotation_intent_pda, is_signer: false, is_writable: true }, AccountMeta { pubkey: *rotation_approval_pda, is_signer: false, is_writable: true }, AccountMeta { pubkey: *approver, is_signer: true, is_writable: false }],
        r.data@ == enc_revocation_registry_instruction(RevocationRegistryInstructionModel::ApproveRotation { key_id, current_slot }),
{
    let data = match revocation_registry_instruction_to_vec(&RevocationRegistryInstruction::ApproveRotation { key_id, current_slot }) {
        Some(d) => d,
        None => Vec::new(),
    };
    Instruction {
        program_id: *program_id,
        accounts: vec![
            AccountMeta::new(*rotation_intent_pda, false),
            AccountMeta::new(*rotation_approval_pda, false),
            AccountMeta::new_readonly(*approver, true),
        ],
        data,
    }
}

pub fn execute_rotation(
    program_id: &Pubkey,
    old_key_record_pda: &Pubkey,
    successor_key_record_pda: &Pubkey,
    rotation_intent_pda: &Pubkey,
    executor: &Pubkey,
    key_id: [u8; 32],
    current_slot: u64,
) -> (r: Instruction)
    ensures
        r.program_id == *program_id,
        r.accounts@ == seq![AccountMeta { pubkey: *old_key_record_pda, is_signer: false, is_writable: true }, AccountMeta { pubkey: *successor_key_record_pda, is_signer: false, is_writable: true }, AccountMeta { pubkey: *rotation_intent_pda, is_signer: false, is_writable: true }, AccountMeta { pubkey: *executor, is_signer: true, is_writable: false }],
        r.data@ == enc_revocation_registry_instruction(RevocationRegistryInstructionModel::ExecuteRotation { key_id, current_slot }),
{
    let data = match revocation_registry_instruction_to_vec(&RevocationRegistryInstruction::ExecuteRotation { key_id, current_slot }) {
        Some(d) => d,
        None => Vec::new(),
    };
    Instruction {
        program_id: *program_id,
        accounts: vec![
            AccountMeta::new(*old_key_record_pda, false),
            AccountMeta::new(*successor_key_record_pda, false),
            AccountMeta::new(*rotation_intent_pda, false),
            AccountMeta::new_readonly(*executor, true),
        ],
        data,
    }
}

pub fn revoke_key(
    program_id: &Pubkey,
    key_record_pda: &Pubkey,
    owner: &Pubkey,
    key_id: [u8; 32],
) -> (r: Instruction)
    ensures
        r.program_id == *program_id,
        r.accounts@ == seq![AccountMeta { pubkey: *key_record_pda, is_signer: false, is_writable: true }, AccountMeta { pubkey: *owner, is_signer: true, is_writable: false }],
        r.data@ == enc_revocation_registry_instruction(RevocationRegistryInstructionModel::RevokeKey { key_id }),
{
    let data = match revocation_registry_instruction_to_vec(&RevocationRegistryInstruction::RevokeKey { key_id }) {
        Some(d) => d,
        None => Vec::new(),
    };
    Instruction {
        program_id: *program_id,
        accounts: vec![
            AccountMeta::new(*key_record_pda, false),
            AccountMeta::new_readonly(*owner, true),
        ],
        data,
    }
}

pub fn mark_compromised(
    program_id: &Pubkey,
    key_record_pda: &Pubkey,
    registry_config_pda: &Pubkey,
    upgrade_authority: &Pubkey,
    key_id: [u8; 32],
    reason_code: u16,
) -> (r: Instruction)
    ensures
        r.program_id == *program_id,
        r.accounts@ == seq![AccountMeta { pubkey: *key_record_pda, is_signer: false, is_writable: true }, AccountMeta { pubkey: *registry_config_pda, is_signer: false, is_writable: false }, AccountMeta { pubkey: *upgrade_authority, is_signer: true, is_writable: false }],
        r.data@ == enc_revocation_registry_instruction(RevocationRegistryInstructionModel::MarkCompromised { key_id, reason_code }),
{
    let data = match revocation_registry_instruction_to_vec(&RevocationRegistryInstruction::MarkCompromised { key_id, reason_code }) {
        Some(d) => d,
        None => Vec::new(),
    };
    Instruction {
        program_id: *program_id,
        accounts: vec![
            AccountMeta::new(*key_record_pda, false),
            AccountMeta::new_readonly(*registry_config_pda, false),
            AccountMeta::new_readonly(*upgrade_authority, true),
        ],
        data,
    }
}

pub fn is_revoked(
    program_id: &Pubkey,
    key_record_pda: &Pubkey,
    key_id: [u8; 32],
) -> (r: Instruction)
    ensures
        r.program_id == *program_id,
        r.accounts@ == seq![AccountMeta { pubkey: *key_record_pda, is_signer: false, is_writable: false }],
        r.data@ == enc_revocation_registry_instruction(RevocationRegistryInstructionModel::IsRevoked { key_id }),
{
    let data = match revocation_registry_instruction_to_vec(&RevocationRegistryInstruction::IsRevoked { key_id }) {
        Some(d) => d,
        None => Vec::new(),
    };
    Instruction {
        program_id: *program_id,
        accounts: vec![
            AccountMeta::new_readonly(*key_record_pda, false),
        ],
        data,
    }
}

} // verus!
