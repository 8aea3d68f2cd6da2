//! Instruction builders: each returns the instruction with its encoded data and
//! the accounts it expects, in order.
use vstd::prelude::*;
use crate::pubkey::{Pubkey};
use crate::runtime::{AccountMeta, Instruction};
use crate::social_staking::types::{SocialStakePosition, SocialStakingInstruction, SocialStakingInstructionModel, SocialStakingStateAccount, StakeYieldRecord, enc_social_staking_instruction, fits_social_staking_instruction, social_staking_instruction_to_vec};

verus! {

pub fn initialize_config(
    program_id: &Pubkey,
    state_pubkey: &Pubkey,
    payer_pubkey: &Pubkey,
    authority_pubkey: &Pubkey,
    state: SocialStakingStateAccount,
) -> (r: Instruction)
    requires
        fits_social_staking_instruction(SocialStakingInstructionModel::InitializeConfig { state: state@ }),
    ensures
        r.program_id == *program_id,
        r.accounts@ == seq![AccountMeta { pubkey: *state_pubkey, is_signer: false, is_writable: true }, AccountMeta { pubkey: *payer_pubkey, is_signer: true, is_writable: false }, AccountMeta { pubkey: *authority_pubkey, is_signer: true, is_writable: false }],
        r.data@ == enc_social_staking_instruction(SocialStakingInstructionModel::InitializeConfig { state: state@ }),
{
    let data = match social_staking_instruction_to_vec(&SocialStakingInstruction::InitializeConfig { state }) {
        Some(d) => d,
        None => Vec::new(),
    };
    Instruction {
        program_id: *program_id,
        accounts: vec![
            AccountMeta::new(*state_pubkey, false),
            AccountMeta::new_readonly(*payer_pubkey, true),
            AccountMeta::new_readonly(*authority_pubkey, true),
        ],
        data,
    }
}

pub fn open_position(
    program_id: &Pubkey,
    state_pubkey: &Pubkey,
    staker_pubkey: &Pubkey,
    position: SocialStakePosition,
) -> (r: Instruction)
    ensures
        r.program_id == *program_id,
        r.accounts@ == seq![AccountMeta { pubkey: *state_pubkey, is_signer: false, is_writable: true }, AccountMeta { pubkey: *staker_pubkey, is_signer: true, is_writable: false }],
        r.data@ == enc_social_staking_instruction(SocialStakingInstructionModel::OpenPosition { position }),
{
    let data = match social_staking_instruction_to_vec(&SocialStakingInstruction::OpenPosition { position }) {
        Some(d) => d,
        None => Vec::new(),
    };
    Instruction {
        program_id: *program_id,
        accounts: vec![
            AccountMeta::new(*state_pubkey, false),
            AccountMeta::new_readonly(*staker_pubkey, true),
        ],
        data,
    }
}

pub fn request_unstake(
    program_id: &Pubkey,
    state_pubkey: &Pubkey,
    staker_pubkey: &Pubkey,
    position_id: [u8; 32],
    unlock_epoch: u64,
) -> (r: Instruction)
    ensures
        r.program_id == *program_id,
        r.accounts@ == seq![AccountMeta { pubkey: *state_pubkey, is_signer: false, is_writable: true }, AccountMeta { pubkey: *staker_pubkey, is_signer: true, is_writable: false }],
        r.data@ == enc_social_staking_instruction(SocialStakingInstructionModel::RequestUnstake { position_id, unlock_epoch }),
{
    let data = match social_staking_instruction_to_vec(&SocialStakingInstruction::RequestUnstake { position_id, unlock_epoch }) {
        Some(d) => d,
        None => Vec::new(),
    };
    Instruction {
        program_id: *program_id,
        accounts: vec![
            AccountMeta::new(*state_pubkey, false),
            AccountMeta::new_readonly(*staker_pubkey, true),
        ],
        data,
    }
}

pub fn finalize_unstake(
    program_id: &Pubkey,
    state_pubkey: &Pubkey,
    staker_pubkey: &Pubkey,
    position_id: [u8; 32],
    current_epoch: u64,
) -> (r: Instruction)
    ensures
        r.program_id == *program_id,
        r.accounts@ == seq![AccountMeta { pubkey: *state_pubkey, is_signer: false, is_writable: true }, AccountMeta { pubkey: *staker_pubkey, is_signer: true, is_writable: false }],
        r.data@ == enc_social_staking_instruction(SocialStakingInstructionModel::FinalizeUnstake { position_id, current_epoch }),
{
    let data = match social_staking_instruction_to_vec(&SocialStakingInstruction::FinalizeUnstake { position_id, current_epoch }) {
        Some(d) => d,
        None => Vec::new(),
    };
    Instruction {
        program_id: *program_id,
        accounts: vec![
            AccountMeta::new(*state_pubkey, false),
            AccountMeta::new_readonly(*staker_pubkey, true),
        ],
        data,
    }
}

pub fn record_stake_yield(
    program_id: &Pubkey,
    state_pubkey: &Pubkey,
    authority_pubkey: &Pubkey,
    record: StakeYieldRecord,
) -> (r: Instruction)
    ensures
        r.program_id == *program_id,
        r.accounts@ == seq![AccountMeta { pubkey: *state_pubkey, is_signer: false, is_writable: true }, AccountMeta { pubkey: *authority_pubkey, is_signer: true, is_writable: false }],
        r.data@ == enc_social_staking_instruction(SocialStakingInstructionModel::RecordStakeYield { record }),
{
    let data = match social_staking_instruction_to_vec(&SocialStakingInstruction::RecordStakeYield { record }) {
        Some(d) => d,
        None => Vec::new(),
    };
    Instruction {
        program_id: *program_id,
        accounts: vec![
            AccountMeta::new(*state_pubkey, false),
            AccountMeta::new_readonly(*authority_pubkey, true),
        ],
        data,
    }
}

pub fn claim_stake_yield(
    program_id: &Pubkey,
    state_pubkey: &Pubkey,
    staker_pubkey: &Pubkey,
    position_id: [u8; 32],
    amount: u64,
) -> (r: Instruction)
    ensures
        r.program_id == *program_id,
        r.accounts@ == seq![AccountMeta { pubkey: *state_pubkey, is_signer: false, is_writable: true }, AccountMeta { pubkey: *staker_pubkey, is_signer: true, is_writable: false }],
        r.data@ == enc_social_staking_instruction(SocialStakingInstructionModel::ClaimStakeYield { position_id, amount }),
{
    let data = match social_staking_instruction_to_vec(&SocialStakingInstruction::ClaimStakeYield { position_id, amount }) {
        Some(d) => d,
        None => Vec::new(),
    };
    Instruction {
        program_id: *program_id,
        accounts: vec![
            AccountMeta::new(*state_pubkey, false),
            AccountMeta::new_readonly(*staker_pubkey, true),
        ],
        data,
    }
}

pub fn read_position(
    program_id: &Pubkey,
    state_pubkey: &Pubkey,
    position_id: Option<[u8; 32]>,
) -> (r: Instruction)
    ensures
        r.program_id == *program_id,
        r.accounts@ == seq![AccountMeta { pubkey: *state_pubkey, is_signer: false, is_writable: false }],
        r.data@ == enc_social_staking_instruction(SocialStakingInstructionModel::ReadPosition { position_id }),
{
    let data = match social_staking_instruction_to_vec(&SocialStakingInstruction::ReadPosition { position_id }) {
        Some(d) => d,
        None => Vec::new(),
    };
    Instruction {
        program_id: *program_id,
        accounts: vec![
            AccountMeta::new_readonly(*state_pubkey, false),
        ],
        data,
    }
}

} // verus!
