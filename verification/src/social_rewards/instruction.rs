//! Instruction builders: each returns the instruction with its encoded data and
//! the accounts it expects, in order.
use vstd::prelude::*;
use crate::pubkey::{Pubkey};
use crate::runtime::{AccountMeta, Instruction};
use crate::social_rewards::types::{CreatorRewardEpochRecord, RewardSettlementInput, SocialRewardsInstruction, SocialRewardsInstructionModel, SocialRewardsStateAccount, enc_social_rewards_instruction, fits_social_rewards_instruction, social_rewards_instruction_to_vec};

verus! {

pub fn initialize_config(
    program_id: &Pubkey,
    state_pubkey: &Pubkey,
    payer_pubkey: &Pubkey,
    authority_pubkey: &Pubkey,
    state: SocialRewardsStateAccount,
) -> (r: Instruction)
    requires
        fits_social_rewards_instruction(SocialRewardsInstructionModel::InitializeConfig { state: state@ }),
    ensures
        r.program_id == *program_id,
        r.accounts@ == seq![AccountMeta { pubkey: *state_pubkey, is_signer: false, is_writable: true }, AccountMeta { pubkey: *payer_pubkey, is_signer: true, is_writable: false }, AccountMeta { pubkey: *authority_pubkey, is_signer: true, is_writable: false }],
        r.data@ == enc_social_rewards_instruction(SocialRewardsInstructionModel::InitializeConfig { state: state@ }),
{
    let data = match social_rewards_instruction_to_vec(&SocialRewardsInstruction::InitializeConfig { state }) {
        Some(d) => d,
        None => Vec::new(),
    };
    Instruction {
        program_id: *program_id,
        accounts: vec![
            AccountMeta::new(*state_pubkey, false),
            AccountMeta::new_readonly(*payer_pubkey, true),
            AccountMeta::new_readonly(*authority_pubkey, true),
        ],
        data,
    }
}

pub fn settle_reward_epoch(
    program_id: &Pubkey,
    state_pubkey: &Pubkey,
    authority_pubkey: &Pubkey,
    input: RewardSettlementInput,
) -> (r: Instruction)
    requires
        fits_social_rewards_instruction(SocialRewardsInstructionModel::SettleRewardEpoch { input: input@ }),
    ensures
        r.program_id == *program_id,
        r.accounts@ == seq![AccountMeta { pubkey: *state_pubkey, is_signer: false, is_writable: true }, AccountMeta { pubkey: *authority_pubkey, is_signer: true, is_writable: false }],
        r.data@ == enc_social_rewards_instruction(SocialRewardsInstructionModel::SettleRewardEpoch { input: input@ }),
{
    let data = match social_rewards_instruction_to_vec(&SocialRewardsInstruction::SettleRewardEpoch { input }) {
        Some(d) => d,
        None => Vec::new(),
    };
    Instruction {
        program_id: *program_id,
        accounts: vec![
            AccountMeta::new(*state_pubkey, false),
            AccountMeta::new_readonly(*authority_pubkey, true),
        ],
        data,
    }
}

pub fn record_reward_epoch(
    program_id: &Pubkey,
    state_pubkey: &Pubkey,
    authority_pubkey: &Pubkey,
    record: CreatorRewardEpochRecord,
) -> (r: Instruction)
    ensures
        r.program_id == *program_id,
        r.accounts@ == seq![AccountMeta { pubkey: *state_pubkey, is_signer: false, is_writable: true }, AccountMeta { pubkey: *authority_pubkey, is_signer: true, is_writable: false }],
        r.data@ == enc_social_rewards_instruction(SocialRewardsInstructionModel::RecordRewardEpoch { record }),
{
    let data = match social_rewards_instruction_to_vec(&SocialRewardsInstruction::RecordRewardEpoch { record }) {
        Some(d) => d,
        None => Vec::new(),
    };
    Instruction {
        program_id: *program_id,
        accounts: vec![
            AccountMeta::new(*state_pubkey, false),
            AccountMeta::new_readonly(*authority_pubkey, true),
        ],
        data,
    }
}

pub fn claim_creator_reward(
    program_id: &Pubkey,
    state_pubkey: &Pubkey,
    authority_pubkey: &Pubkey,
    creator: Pubkey,
    amount: u64,
) -> (r: Instruction)
    ensures
        r.program_id == *program_id,
        r.accounts@ == seq![AccountMeta { pubkey: *state_pubkey, is_signer: false, is_writable: true }, AccountMeta { pubkey: *authority_pubkey, is_signer: true, is_writable: false }],
        r.data@ == enc_social_rewards_instruction(SocialRewardsInstructionModel::ClaimCreatorReward { creator, amount }),
{
    let data = match social_rewards_instruction_to_vec(&SocialRewardsInstruction::ClaimCreatorReward { creator, amount }) {
        Some(d) => d,
        None => Vec::new(),
    };
    Instruction {
        program_id: *program_id,
        accounts: vec![
            AccountMeta::new(*state_pubkey, false),
            AccountMeta::new_readonly(*authority_pubkey, true),
        ],
        data,
    }
}

pub fn read_reward_state(
    program_id: &Pubkey,
    state_pubkey: &Pubkey,
    creator: Option<Pubkey>,
) -> (r: Instruction)
    ensures
        r.program_id == *program_id,
        r.accounts@ == seq![AccountMeta { pubkey: *state_pubkey, is_signer: false, is_writable: false }],
        r.data@ == enc_social_rewards_instruction(SocialRewardsInstructionModel::ReadRewardState { creator }),
{
    let data = match social_rewards_instruction_to_vec(&SocialRewardsInstruction::ReadRewardState { creator }) {
        Some(d) => d,
        None => Vec::new(),
    };
    Instruction {
        program_id: *program_id,
        accounts: vec![
            AccountMeta::new_readonly(*state_pubkey, false),
        ],
        data,
    }
}

} // verus!
