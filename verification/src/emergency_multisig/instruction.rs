//! Instruction builders: each returns the instruction with its encoded data and
//! the accounts it expects, in order.
use vstd::prelude::*;
use crate::emergency_multisig::types::{EmergencyMultisigInstruction, EmergencyMultisigInstructionModel, ProposedAction, emergency_multisig_instruction_to_vec, enc_emergency_multisig_instruction, fits_emergency_multisig_instruction};
use crate::pubkey::{Pubkey};
use crate::runtime::{AccountMeta, Instruction};

verus! {

pub fn initialize_multisig(
    program_id: &Pubkey,
    multisig_config_pda: &Pubkey,
    upgrade_authority: &Pubkey,
    signers: Vec<Pubkey>,
    freeze_quorum: u8,
    revoke_quorum: u8,
    policy_quorum: u8,
    current_slot: u64,
) -> (r: Instruction)
    requires
        fits_emergency_multisig_instruction(EmergencyMultisigInstructionModel::InitializeMultisig { signers: signers@, freeze_quorum, revoke_quorum, policy_quorum, current_slot }),
    ensures
        r.program_id == *program_id,
        r.accounts@ == seq![AccountMeta { pubkey: *multisig_config_pda, is_signer: false, is_writable: true }, AccountMeta { pubkey: *upgrade_authority, is_signer: true, is_writable: false }],
        r.data@ == enc_emergency_multisig_instruction(EmergencyMultisigInstructionModel::InitializeMultisig { signers: signers@, freeze_quorum, revoke_quorum, policy_quorum, current_slot }),
{
    let data = match emergency_multisig_instruction_to_vec(&EmergencyMultisigInstruction::InitializeMultisig { signers, freeze_quorum, revoke_quorum, policy_quorum, current_slot }) {
        Some(d) => d,
        None => Vec::new(),
    };
    Instruction {
        program_id: *program_id,
        accounts: vec![
            AccountMeta::new(*multisig_config_pda, false),
            AccountMeta::new_readonly(*upgrade_authority, true),
        ],
        data,
    }
}

pub fn propose_action(
    program_id: &Pubkey,
    proposal_pda: &Pubkey,
    multisig_config_pda: &Pubkey,
    proposer: &Pubkey,
    proposal_id: [u8; 32],
    action: ProposedAction,
    ttl_slots: u64,
    current_slot: u64,
) -> (r: Instruction)
    ensures
        r.program_id == *program_id,
        r.accounts@ == seq![AccountMeta { pubkey: *proposal_pda, is_signer: false, is_writable: true }, AccountMeta { pubkey: *multisig_config_pda, is_signer: false, is_writable: false }, AccountMeta { pubkey: *proposer, is_signer: true, is_writable: false }],
        r.data@ == enc_emergency_multisig_instruction(EmergencyMultisigInstructionModel::ProposeAction { proposal_id, action, ttl_slots, current_slot }),
{
    let data = match emergency_multisig_instruction_to_vec(&EmergencyMultisigInstruction::ProposeAction { proposal_id, action, ttl_slots, current_slot }) {
        Some(d) => d,
        None => Vec::new(),
    };
    Instruction {
        program_id: *program_id,
        accounts: vec![
            AccountMeta::new(*proposal_pda, false),
            AccountMeta::new_readonly(*multisig_config_pda, false),
            AccountMeta::new_readonly(*proposer, true),
        ],
        data,
    }
}

pub fn approve_action(
    program_id: &Pubkey,
    proposal_pda: &Pubkey,
    vote_pda: &Pubkey,
    multisig_config_pda: &Pubkey,
    voter: &Pubkey,
    proposal_id: [u8; 32],
    current_slot: u64,
) -> (r: Instruction)
    ensures
        r.program_id == *program_id,
        r.accounts@ == seq![AccountMeta { pubkey: *proposal_pda, is_signer: false, is_writable: true }, AccountMeta { pubkey: *vote_pda, is_signer: false, is_writable: true }, AccountMeta { pubkey: *multisig_config_pda, is_signer: false, is_writable: false }, AccountMeta { pubkey: *voter, is_signer: true, is_writable: false }],
        r.data@ == enc_emergency_multisig_instruction(EmergencyMultisigInstructionModel::ApproveAction { proposal_id, current_slot }),
{
    let data = match emergency_multisig_instruction_to_vec(&EmergencyMultisigInstruction::ApproveAction { proposal_id, current_slot }) {
        Some(d) => d,
        None => Vec::new(),
    };
    Instruction {
        program_id: *program_id,
        accounts: vec![
            AccountMeta::new(*proposal_pda, false),
            AccountMeta::new(*vote_pda, false),
            AccountMeta::new_readonly(*multisig_config_pda, false),
            AccountMeta::new_readonly(*voter, true),
        ],
        data,
    }
}

pub fn cancel_action(
    program_id: &Pubkey,
    proposal_pda: &Pubkey,
    multisig_config_pda: &Pubkey,
    authority: &Pubkey,
    proposal_id: [u8; 32],
) -> (r: Instruction)
    ensures
        r.program_id == *program_id,
        r.accounts@ == seq![AccountMeta { pubkey: *proposal_pda, is_signer: false, is_writable: true }, AccountMeta { pubkey: *multisig_config_pda, is_signer: false, is_writable: false }, AccountMeta { pubkey: *authority, is_signer: true, is_writable: false }],
        r.data@ == enc_emergency_multisig_instruction(EmergencyMultisigInstructionModel::CancelAction { proposal_id }),
{
    let data = match emergency_multisig_instruction_to_vec(&EmergencyMultisigInstruction::CancelAction { proposal_id }) {
        Some(d) => d,
        None => Vec::new(),
    };
    Instruction {
        program_id: *program_id,
        accounts: vec![
            AccountMeta::new(*proposal_pda, false),
            AccountMeta::new_readonly(*multisig_config_pda, false),
            AccountMeta::new_readonly(*authority, true),
        ],
        data,
    }
}

/// ExecuteAction; `extra_accounts` follow the three common accounts.
pub fn execute_action(
    program_id: &Pubkey,
    proposal_pda: &Pubkey,
    multisig_config_pda: &Pubkey,
    executor: &Pubkey,
    proposal_id: [u8; 32],
    current_slot: u64,
    extra_accounts: Vec<AccountMeta>,
) -> (r: Instruction)
    ensures
        r.program_id == *program_id,
        r.accounts@ == seq![AccountMeta { pubkey: *proposal_pda, is_signer: false, is_writable: true }, AccountMeta { pubkey: *multisig_config_pda, is_signer: false, is_writable: false }, AccountMeta { pubkey: *executor, is_signer: true, is_writable: false }] + extra_accounts@,
        r.data@ == enc_emergency_multisig_instruction(EmergencyMultisigInstructionModel::ExecuteAction { proposal_id, current_slot }),
{
    let mut accounts = vec![
        AccountMeta::new(*proposal_pda, false),
        AccountMeta::new_readonly(*multisig_config_pda, false),
        AccountMeta::new_readonly(*executor, true),
    ];
    let mut extra = extra_accounts;
    accounts.append(&mut extra);
    let data = match emergency_multisig_instruction_to_vec(&EmergencyMultisigInstruction::ExecuteAction { proposal_id, current_slot }) {
        Some(d) => d,
        None => Vec::new(),
    };
    Instruction { program_id: *program_id, accounts, data }
}

} // verus!
