//! Instruction builders: each returns the instruction with its encoded data and
//! the accounts it expects, in order.
use vstd::prelude::*;
use crate::pubkey::{Pubkey};
use crate::runtime::{AccountMeta, Instruction};
use crate::social_monetization::types::{CreatorTipRecord, PaidContentUnlockRecord, SocialMonetizationInstruction, SocialMonetizationInstructionModel, SocialMonetizationStateAccount, SubscriptionRecord, enc_social_monetization_instruction, fits_social_monetization_instruction, social_monetization_instruction_to_vec};

verus! {

pub fn initialize_config(
    program_id: &Pubkey,
    state_pubkey: &Pubkey,
    payer_pubkey: &Pubkey,
    authority_pubkey: &Pubkey,
    state: SocialMonetizationStateAccount,
) -> (r: Instruction)
    requires
        fits_social_monetization_instruction(SocialMonetizationInstructionModel::InitializeConfig { state: state@ }),
    ensures
        r.program_id == *program_id,
        r.accounts@ == seq![AccountMeta { pubkey: *state_pubkey, is_signer: false, is_writable: true }, AccountMeta { pubkey: *payer_pubkey, is_signer: true, is_writable: false }, AccountMeta { pubkey: *authority_pubkey, is_signer: true, is_writable: false }],
        r.data@ == enc_social_monetization_instruction(SocialMonetizationInstructionModel::InitializeConfig { state: state@ }),
{
    let data = match social_monetization_instruction_to_vec(&SocialMonetizationInstruction::InitializeConfig { state }) {
        Some(d) => d,
        None => Vec::new(),
    };
    Instruction {
        program_id: *program_id,
        accounts: vec![
            AccountMeta::new(*state_pubkey, false),
            AccountMeta::new_readonly(*payer_pubkey, true),
            AccountMeta::new_readonly(*authority_pubkey, true),
        ],
        data,
    }
}

pub fn send_creator_tip(
    program_id: &Pubkey,
    state_pubkey: &Pubkey,
    sender_pubkey: &Pubkey,
    record: CreatorTipRecord,
) -> (r: Instruction)
    ensures
        r.program_id == *program_id,
        r.accounts@ == seq![AccountMeta { pubkey: *state_pubkey, is_signer: false, is_writable: true }, AccountMeta { pubkey: *sender_pubkey, is_signer: true, is_writable: false }],
        r.data@ == enc_social_monetization_instruction(SocialMonetizationInstructionModel::SendCreatorTip { record }),
{
    let data = match social_monetization_instruction_to_vec(&SocialMonetizationInstruction::SendCreatorTip { record }) {
        Some(d) => d,
        None => Vec::new(),
    };
    Instruction {
        program_id: *program_id,
        accounts: vec![
            AccountMeta::new(*state_pubkey, false),
            AccountMeta::new_readonly(*sender_pubkey, true),
        ],
        data,
    }
}

pub fn create_subscription(
    program_id: &Pubkey,
    state_pubkey: &Pubkey,
    subscriber_pubkey: &Pubkey,
    record: SubscriptionRecord,
) -> (r: Instruction)
    ensures
        r.program_id == *program_id,
        r.accounts@ == seq![AccountMeta { pubkey: *state_pubkey, is_signer: false, is_writable: true }, AccountMeta { pubkey: *subscriber_pubkey, is_signer: true, is_writable: false }],
        r.data@ == enc_social_monetization_instruction(SocialMonetizationInstructionModel::CreateSubscription { record }),
{
    let data = match social_monetization_instruction_to_vec(&SocialMonetizationInstruction::CreateSubscription { record }) {
        Some(d) => d,
        None => Vec::new(),
    };
    Instruction {
        program_id: *program_id,
        accounts: vec![
            AccountMeta::new(*state_pubkey, false),
            AccountMeta::new_readonly(*subscriber_pubkey, true),
        ],
        data,
    }
}

pub fn renew_subscription(
    program_id: &Pubkey,
    state_pubkey: &Pubkey,
    subscriber_pubkey: &Pubkey,
    subscription_id: [u8; 32],
    valid_until_unix: i64,
) -> (r: Instruction)
    ensures
        r.program_id == *program_id,
        r.accounts@ == seq![AccountMeta { pubkey: *state_pubkey, is_signer: false, is_writable: true }, AccountMeta { pubkey: *subscriber_pubkey, is_signer: true, is_writable: false }],
        r.data@ == enc_social_monetization_instruction(SocialMonetizationInstructionModel::RenewSubscription { subscription_id, valid_until_unix }),
{
    let data = match social_monetization_instruction_to_vec(&SocialMonetizationInstruction::RenewSubscription { subscription_id, valid_until_unix }) {
        Some(d) => d,
        None => Vec::new(),
    };
    Instruction {
        program_id: *program_id,
        accounts: vec![
            AccountMeta::new(*state_pubkey, false),
            AccountMeta::new_readonly(*subscriber_pubkey, true),
        ],
        data,
    }
}

pub fn cancel_subscription(
    program_id: &Pubkey,
    state_pubkey: &Pubkey,
    subscriber_pubkey: &Pubkey,
    subscription_id: [u8; 32],
) -> (r: Instruction)
    ensures
        r.program_id == *program_id,
        r.accounts@ == seq![AccountMeta { pubkey: *state_pubkey, is_signer: false, is_writable: true }, AccountMeta { pubkey: *subscriber_pubkey, is_signer: true, is_writable: false }],
        r.data@ == enc_social_monetization_instruction(SocialMonetizationInstructionModel::CancelSubscription { subscription_id }),
{
    let data = match social_monetization_instruction_to_vec(&SocialMonetizationInstruction::CancelSubscription { subscription_id }) {
        Some(d) => d,
        None => Vec::new(),
    };
    Instruction {
        program_id: *program_id,
        accounts: vec![
            AccountMeta::new(*state_pubkey, false),
            AccountMeta::new_readonly(*subscriber_pubkey, true),
        ],
        data,
    }
}

pub fn unlock_paid_content(
    program_id: &Pubkey,
    state_pubkey: &Pubkey,
    buyer_pubkey: &Pubkey,
    record: PaidContentUnlockRecord,
) -> (r: Instruction)
    ensures
        r.program_id == *program_id,
        r.accounts@ == seq![AccountMeta { pubkey: *state_pubkey, is_signer: false, is_writable: true }, AccountMeta { pubkey: *buyer_pubkey, is_signer: true, is_writable: false }],
        r.data@ == enc_social_monetization_instruction(SocialMonetizationInstructionModel::UnlockPaidContent { record }),
{
    let data = match social_monetization_instruction_to_vec(&SocialMonetizationInstruction::UnlockPaidContent { record }) {
        Some(d) => d,
        None => Vec::new(),
    };
    Instruction {
        program_id: *program_id,
        accounts: vec![
            AccountMeta::new(*state_pubkey, false),
            AccountMeta::new_readonly(*buyer_pubkey, true),
        ],
        data,
    }
}

pub fn claim_monetization_payout(
    program_id: &Pubkey,
    state_pubkey: &Pubkey,
    treasury_pubkey: &Pubkey,
    destination_pubkey: &Pubkey,
    authority_pubkey: &Pubkey,
    creator: Pubkey,
    amount: u64,
) -> (r: Instruction)
    ensures
        r.program_id == *program_id,
        r.accounts@ == seq![AccountMeta { pubkey: *state_pubkey, is_signer: false, is_writable: true }, AccountMeta { pubkey: *treasury_pubkey, is_signer: false, is_writable: true }, AccountMeta { pubkey: *destination_pubkey, is_signer: false, is_writable: true }, AccountMeta { pubkey: *authority_pubkey, is_signer: true, is_writable: false }],
        r.data@ == enc_social_monetization_instruction(SocialMonetizationInstructionModel::ClaimMonetizationPayout { creator, amount }),
{
    let data = match social_monetization_instruction_to_vec(&SocialMonetizationInstruction::ClaimMonetizationPayout { creator, amount }) {
        Some(d) => d,
        None => Vec::new(),
    };
    Instruction {
        program_id: *program_id,
        accounts: vec![
            AccountMeta::new(*state_pubkey, false),
            AccountMeta::new(*treasury_pubkey, false),
            AccountMeta::new(*destination_pubkey, false),
            AccountMeta::new_readonly(*authority_pubkey, true),
        ],
        data,
    }
}

pub fn read_monetization_state(
    program_id: &Pubkey,
    state_pubkey: &Pubkey,
    creator: Option<Pubkey>,
) -> (r: Instruction)
    ensures
        r.program_id == *program_id,
        r.accounts@ == seq![AccountMeta { pubkey: *state_pubkey, is_signer: false, is_writable: false }],
        r.data@ == enc_social_monetization_instruction(SocialMonetizationInstructionModel::ReadMonetizationState { creator }),
{
    let data = match social_monetization_instruction_to_vec(&SocialMonetizationInstruction::ReadMonetizationState { creator }) {
        Some(d) => d,
        None => Vec::new(),
    };
    Instruction {
        program_id: *program_id,
        accounts: vec![
            AccountMeta::new_readonly(*state_pubkey, false),
        ],
        data,
    }
}

} // verus!
