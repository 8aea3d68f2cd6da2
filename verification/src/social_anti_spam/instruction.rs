//! Instruction builders: each returns the instruction with its encoded data and
//! the accounts it expects, in order.
use vstd::prelude::*;
use crate::pubkey::{Pubkey};
use crate::runtime::{AccountMeta, Instruction};
use crate::social_anti_spam::types::{SocialAntiSpamInstruction, SocialAntiSpamInstructionModel, SocialAntiSpamStateAccount, enc_social_anti_spam_instruction, fits_social_anti_spam_instruction, social_anti_spam_instruction_to_vec};

verus! {

pub fn initialize_config(
    program_id: &Pubkey,
    state_pubkey: &Pubkey,
    payer_pubkey: &Pubkey,
    authority_pubkey: &Pubkey,
    state: SocialAntiSpamStateAccount,
) -> (r: Instruction)
    requires
        fits_social_anti_spam_instruction(SocialAntiSpamInstructionModel::InitializeConfig { state: state@ }),
    ensures
        r.program_id == *program_id,
        r.accounts@ == seq![AccountMeta { pubkey: *state_pubkey, is_signer: false, is_writable: true }, AccountMeta { pubkey: *payer_pubkey, is_signer: true, is_writable: false }, AccountMeta { pubkey: *authority_pubkey, is_signer: true, is_writable: false }],
        r.data@ == enc_social_anti_spam_instruction(SocialAntiSpamInstructionModel::InitializeConfig { state: state@ }),
{
    let data = match social_anti_spam_instruction_to_vec(&SocialAntiSpamInstruction::InitializeConfig { state }) {
        Some(d) => d,
        None => Vec::new(),
    };
    Instruction {
        program_id: *program_id,
        accounts: vec![
            AccountMeta::new(*state_pubkey, false),
            AccountMeta::new_readonly(*payer_pubkey, true),
            AccountMeta::new_readonly(*authority_pubkey, true),
        ],
        data,
    }
}

pub fn check_post_eligibility(
    program_id: &Pubkey,
    state_pubkey: &Pubkey,
    wallet: Pubkey,
    current_epoch: u64,
    reputation_score: u16,
    staked_amount: u64,
) -> (r: Instruction)
    ensures
        r.program_id == *program_id,
        r.accounts@ == seq![AccountMeta { pubkey: *state_pubkey, is_signer: false, is_writable: false }],
        r.data@ == enc_social_anti_spam_instruction(SocialAntiSpamInstructionModel::CheckPostEligibility { wallet, current_epoch, reputation_score, staked_amount }),
{
    let data = match social_anti_spam_instruction_to_vec(&SocialAntiSpamInstruction::CheckPostEligibility { wallet, current_epoch, reputation_score, staked_amount }) {
        Some(d) => d,
        None => Vec::new(),
    };
    Instruction {
        program_id: *program_id,
        accounts: vec![
            AccountMeta::new_readonly(*state_pubkey, false),
        ],
        data,
    }
}

pub fn check_engagement_eligibility(
    program_id: &Pubkey,
    state_pubkey: &Pubkey,
    wallet: Pubkey,
    current_epoch: u64,
    reputation_score: u16,
    staked_amount: u64,
) -> (r: Instruction)
    ensures
        r.program_id == *program_id,
        r.accounts@ == seq![AccountMeta { pubkey: *state_pubkey, is_signer: false, is_writable: false }],
        r.data@ == enc_social_anti_spam_instruction(SocialAntiSpamInstructionModel::CheckEngagementEligibility { wallet, current_epoch, reputation_score, staked_amount }),
{
    let data = match social_anti_spam_instruction_to_vec(&SocialAntiSpamInstruction::CheckEngagementEligibility { wallet, current_epoch, reputation_score, staked_amount }) {
        Some(d) => d,
        None => Vec::new(),
    };
    Instruction {
        program_id: *program_id,
        accounts: vec![
            AccountMeta::new_readonly(*state_pubkey, false),
        ],
        data,
    }
}

pub fn flag_spam_behavior(
    program_id: &Pubkey,
    state_pubkey: &Pubkey,
    authority_pubkey: &Pubkey,
    wallet: Pubkey,
    timestamp: i64,
) -> (r: Instruction)
    ensures
        r.program_id == *program_id,
        r.accounts@ == seq![AccountMeta { pubkey: *state_pubkey, is_signer: false, is_writable: true }, AccountMeta { pubkey: *authority_pubkey, is_signer: true, is_writable: false }],
        r.data@ == enc_social_anti_spam_instruction(SocialAntiSpamInstructionModel::FlagSpamBehavior { wallet, timestamp }),
{
    let data = match social_anti_spam_instruction_to_vec(&SocialAntiSpamInstruction::FlagSpamBehavior { wallet, timestamp }) {
        Some(d) => d,
        None => Vec::new(),
    };
    Instruction {
        program_id: *program_id,
        accounts: vec![
            AccountMeta::new(*state_pubkey, false),
            AccountMeta::new_readonly(*authority_pubkey, true),
        ],
        data,
    }
}

pub fn apply_cooldown(
    program_id: &Pubkey,
    state_pubkey: &Pubkey,
    authority_pubkey: &Pubkey,
    wallet: Pubkey,
    gated_until_epoch: u64,
) -> (r: Instruction)
    ensures
        r.program_id == *program_id,
        r.accounts@ == seq![AccountMeta { pubkey: *state_pubkey, is_signer: false, is_writable: true }, AccountMeta { pubkey: *authority_pubkey, is_signer: true, is_writable: false }],
        r.data@ == enc_social_anti_spam_instruction(SocialAntiSpamInstructionModel::ApplyCooldown { wallet, gated_until_epoch }),
{
    let data = match social_anti_spam_instruction_to_vec(&SocialAntiSpamInstruction::ApplyCooldown { wallet, gated_until_epoch }) {
        Some(d) => d,
        None => Vec::new(),
    };
    Instruction {
        program_id: *program_id,
        accounts: vec![
            AccountMeta::new(*state_pubkey, false),
            AccountMeta::new_readonly(*authority_pubkey, true),
        ],
        data,
    }
}

pub fn clear_cooldown(
    program_id: &Pubkey,
    state_pubkey: &Pubkey,
    authority_pubkey: &Pubkey,
    wallet: Pubkey,
) -> (r: Instruction)
    ensures
        r.program_id == *program_id,
        r.accounts@ == seq![AccountMeta { pubkey: *state_pubkey, is_signer: false, is_writable: true }, AccountMeta { pubkey: *authority_pubkey, is_signer: true, is_writable: false }],
        r.data@ == enc_social_anti_spam_instruction(SocialAntiSpamInstructionModel::ClearCooldown { wallet }),
{
    let data = match social_anti_spam_instruction_to_vec(&SocialAntiSpamInstruction::ClearCooldown { wallet }) {
        Some(d) => d,
        None => Vec::new(),
    };
    Instruction {
        program_id: *program_id,
        accounts: vec![
            AccountMeta::new(*state_pubkey, false),
            AccountMeta::new_readonly(*authority_pubkey, true),
        ],
        data,
    }
}

pub fn apply_spam_penalty(
    program_id: &Pubkey,
    state_pubkey: &Pubkey,
    authority_pubkey: &Pubkey,
    wallet: Pubkey,
) -> (r: Instruction)
    ensures
        r.program_id == *program_id,
        r.accounts@ == seq![AccountMeta { pubkey: *state_pubkey, is_signer: false, is_writable: true }, AccountMeta { pubkey: *authority_pubkey, is_signer: true, is_writable: false }],
        r.data@ == enc_social_anti_spam_instruction(SocialAntiSpamInstructionModel::ApplySpamPenalty { wallet }),
{
    let data = match social_anti_spam_instruction_to_vec(&SocialAntiSpamInstruction::ApplySpamPenalty { wallet }) {
        Some(d) => d,
        None => Vec::new(),
    };
    Instruction {
        program_id: *program_id,
        accounts: vec![
            AccountMeta::new(*state_pubkey, false),
            AccountMeta::new_readonly(*authority_pubkey, true),
        ],
        data,
    }
}

pub fn read_anti_spam_profile(
    program_id: &Pubkey,
    state_pubkey: &Pubkey,
    wallet: Option<Pubkey>,
) -> (r: Instruction)
    ensures
        r.program_id == *program_id,
        r.accounts@ == seq![AccountMeta { pubkey: *state_pubkey, is_signer: false, is_writable: false }],
        r.data@ == enc_social_anti_spam_instruction(SocialAntiSpamInstructionModel::ReadAntiSpamProfile { wallet }),
{
    let data = match social_anti_spam_instruction_to_vec(&SocialAntiSpamInstruction::ReadAntiSpamProfile { wallet }) {
        Some(d) => d,
        None => Vec::new(),
    };
    Instruction {
        program_id: *program_id,
        accounts: vec![
            AccountMeta::new_readonly(*state_pubkey, false),
        ],
        data,
    }
}

} // verus!
