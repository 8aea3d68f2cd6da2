//! Instruction builders: each returns the instruction with its encoded data and
//! the accounts it expects, in order.
use vstd::prelude::*;
use crate::finality_oracle::types::{FinalityOracleInstruction, enc_finality_oracle_instruction, finality_oracle_instruction_to_vec};
use crate::permission_types::types::{ClearanceTier};
use crate::pubkey::{Pubkey, spec_zero_pubkey};
use crate::runtime::{AccountMeta, Instruction};

verus! {

pub fn initialize_oracle(
    program_id: &Pubkey,
    oracle_config_pda: &Pubkey,
    upgrade_authority: &Pubkey,
    current_slot: u64,
) -> (r: Instruction)
    ensures
        r.program_id == *program_id,
        r.accounts@ == seq![AccountMeta { pubkey: *oracle_config_pda, is_signer: false, is_writable: true }, AccountMeta { pubkey: *upgrade_authority, is_signer: true, is_writable: false }],
        r.data@ == enc_finality_oracle_instruction(FinalityOracleInstruction::InitializeOracle { current_slot }),
{
    let data = finality_oracle_instruction_to_vec(&FinalityOracleInstruction::InitializeOracle { current_slot });
    Instruction {
        program_id: *program_id,
        accounts: vec![
            AccountMeta::new(*oracle_config_pda, false),
            AccountMeta::new_readonly(*upgrade_authority, true),
        ],
        data,
    }
}

pub fn request_finality_proof(
    program_id: &Pubkey,
    proof_request_pda: &Pubkey,
    clearance_sbt_pda: &Pubkey,
    requester: &Pubkey,
    transaction_signature: [u8; 64],
    required_clearance: ClearanceTier,
    subnet_id: Option<[u8; 32]>,
    current_slot: u64,
) -> (r: Instruction)
    ensures
        r.program_id == *program_id,
        r.accounts@ == seq![AccountMeta { pubkey: *proof_request_pda, is_signer: false, is_writable: true }, AccountMeta { pubkey: *clearance_sbt_pda, is_signer: false, is_writable: false }, AccountMeta { pubkey: *requester, is_signer: true, is_writable: false }],
        r.data@ == enc_finality_oracle_instruction(FinalityOracleInstruction::RequestFinalityProof { transaction_signature, required_clearance, subnet_id, current_slot }),
{
    let data = finality_oracle_instruction_to_vec(&FinalityOracleInstruction::RequestFinalityProof { transaction_signature, required_clearance, subnet_id, current_slot });
    Instruction {
        program_id: *program_id,
        accounts: vec![
            AccountMeta::new(*proof_request_pda, false),
            AccountMeta::new_readonly(*clearance_sbt_pda, false),
            AccountMeta::new_readonly(*requester, true),
        ],
        data,
    }
}

pub fn issue_finality_proof(
    program_id: &Pubkey,
    finality_proof_pda: &Pubkey,
    proof_request_pda: &Pubkey,
    clearance_sbt_pda: &Pubkey,
    subnet_membership_pda: Option<&Pubkey>,
    issuer: &Pubkey,
    slot: u64,
    transaction_signature: [u8; 64],
    clearance_tier: ClearanceTier,
    subnet_id: Option<[u8; 32]>,
    proof_hash: [u8; 32],
    current_slot: u64,
) -> (r: Instruction)
    ensures
        r.program_id == *program_id,
        r.accounts@ == seq![AccountMeta { pubkey: *finality_proof_pda, is_signer: false, is_writable: true }, AccountMeta { pubkey: *proof_request_pda, is_signer: false, is_writable: true }, AccountMeta { pubkey: *clearance_sbt_pda, is_signer: false, is_writable: false }, AccountMeta { pubkey: (match subnet_membership_pda { Some(k) => *k, None => spec_zero_pubkey() }), is_signer: false, is_writable: false }, AccountMeta { pubkey: *issuer, is_signer: true, is_writable: false }],
        r.data@ == enc_finality_oracle_instruction(FinalityOracleInstruction::IssueFinalityProof { slot, transaction_signature, clearance_tier, subnet_id, proof_hash, current_slot }),
{
    let dummy_key = Pubkey::default();
    let membership_key = match subnet_membership_pda {
        Some(k) => k,
        None => &dummy_key,
    };
    let data = finality_oracle_instruction_to_vec(&FinalityOracleInstruction::IssueFinalityProof { slot, transaction_signature, clearance_tier, subnet_id, proof_hash, current_slot });
    Instruction {
        program_id: *program_id,
        accounts: vec![
            AccountMeta::new(*finality_proof_pda, false),
            AccountMeta::new(*proof_request_pda, false),
            AccountMeta::new_readonly(*clearance_sbt_pda, false),
            AccountMeta::new_readonly(*membership_key, false),
            AccountMeta::new_readonly(*issuer, true),
        ],
        data,
    }
}

pub fn verify_finality_proof(
    program_id: &Pubkey,
    finality_proof_pda: &Pubkey,
    key_record_pda: &Pubkey,
    transaction_signature: [u8; 64],
) -> (r: Instruction)
    ensures
        r.program_id == *program_id,
        r.accounts@ == seq![AccountMeta { pubkey: *finality_proof_pda, is_signer: false, is_writable: false }, AccountMeta { pubkey: *key_record_pda, is_signer: false, is_writable: false }],
        r.data@ == enc_finality_oracle_instruction(FinalityOracleInstruction::VerifyFinalityProof { transaction_signature }),
{
    let data = finality_oracle_instruction_to_vec(&FinalityOracleInstruction::VerifyFinalityProof { transaction_signature });
    Instruction {
        program_id: *program_id,
        accounts: vec![
            AccountMeta::new_readonly(*finality_proof_pda, false),
            AccountMeta::new_readonly(*key_record_pda, false),
        ],
        data,
    }
}

} // verus!
