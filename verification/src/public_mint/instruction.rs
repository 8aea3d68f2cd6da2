//! Instruction builders: each returns the instruction with its encoded data and
//! the accounts it expects, in order.
use vstd::prelude::*;
use crate::pubkey::{Pubkey};
use crate::public_mint::types::{PublicMintInstruction, PublicMintInstructionModel, PublicMintPolicy, PublicMintState, enc_public_mint_instruction, fits_public_mint_instruction, public_mint_instruction_to_vec};
use crate::runtime::{AccountMeta, Instruction};

verus! {

pub fn initialize_policy(
    program_id: &Pubkey,
    state_pubkey: &Pubkey,
    authority_pubkey: &Pubkey,
    state: PublicMintState,
) -> (r: Instruction)
    requires
        fits_public_mint_instruction(PublicMintInstructionModel::InitializePolicy { state: state@ }),
    ensures
        r.program_id == *program_id,
        r.accounts@ == seq![AccountMeta { pubkey: *state_pubkey, is_signer: false, is_writable: true }, AccountMeta { pubkey: *authority_pubkey, is_signer: true, is_writable: false }],
        r.data@ == enc_public_mint_instruction(PublicMintInstructionModel::InitializePolicy { state: state@ }),
{
    let data = match public_mint_instruction_to_vec(&PublicMintInstruction::InitializePolicy { state }) {
        Some(d) => d,
        None => Vec::new(),
    };
    Instruction {
        program_id: *program_id,
        accounts: vec![
            AccountMeta::new(*state_pubkey, false),
            AccountMeta::new_readonly(*authority_pubkey, true),
        ],
        data,
    }
}

pub fn public_mint(
    program_id: &Pubkey,
    state_pubkey: &Pubkey,
    mint_pubkey: &Pubkey,
    destination_token_account_pubkey: &Pubkey,
    tokenomics_state_pubkey: &Pubkey,
    wallet_pubkey: &Pubkey,
    wallet_authority_pubkey: &Pubkey,
    mint_authority_pubkey: &Pubkey,
    current_epoch: u64,
    amount: u128,
    app_id: Option<Pubkey>,
    requested_subsidy: u128,
) -> (r: Instruction)
    ensures
        r.program_id == *program_id,
        r.accounts@ == seq![AccountMeta { pubkey: *state_pubkey, is_signer: false, is_writable: true }, AccountMeta { pubkey: *mint_pubkey, is_signer: false, is_writable: false }, AccountMeta { pubkey: *destination_token_account_pubkey, is_signer: false, is_writable: true }, AccountMeta { pubkey: *tokenomics_state_pubkey, is_signer: false, is_writable: false }, AccountMeta { pubkey: *wallet_pubkey, is_signer: false, is_writable: false }, AccountMeta { pubkey: *wallet_authority_pubkey, is_signer: true, is_writable: false }, AccountMeta { pubkey: *mint_authority_pubkey, is_signer: true, is_writable: false }],
        r.data@ == enc_public_mint_instruction(PublicMintInstructionModel::PublicMint { current_epoch, amount, app_id, requested_subsidy }),
{
    let data = match public_mint_instruction_to_vec(&PublicMintInstruction::PublicMint { current_epoch, amount, app_id, requested_subsidy }) {
        Some(d) => d,
        None => Vec::new(),
    };
    Instruction {
        program_id: *program_id,
        accounts: vec![
            AccountMeta::new(*state_pubkey, false),
            AccountMeta::new_readonly(*mint_pubkey, false),
            AccountMeta::new(*destination_token_account_pubkey, false),
            AccountMeta::new_readonly(*tokenomics_state_pubkey, false),
            AccountMeta::new_readonly(*wallet_pubkey, false),
            AccountMeta::new_readonly(*wallet_authority_pubkey, true),
            AccountMeta::new_readonly(*mint_authority_pubkey, true),
        ],
        data,
    }
}

pub fn update_policy(
    program_id: &Pubkey,
    state_pubkey: &Pubkey,
    authority_pubkey: &Pubkey,
    policy: PublicMintPolicy,
) -> (r: Instruction)
    ensures
        r.program_id == *program_id,
        r.accounts@ == seq![AccountMeta { pubkey: *state_pubkey, is_signer: false, is_writable: true }, AccountMeta { pubkey: *authority_pubkey, is_signer: true, is_writable: false }],
        r.data@ == enc_public_mint_instruction(PublicMintInstructionModel::UpdatePolicy { policy }),
{
    let data = match public_mint_instruction_to_vec(&PublicMintInstruction::UpdatePolicy { policy }) {
        Some(d) => d,
        None => Vec::new(),
    };
    Instruction {
        program_id: *program_id,
        accounts: vec![
            AccountMeta::new(*state_pubkey, false),
            AccountMeta::new_readonly(*authority_pubkey, true),
        ],
        data,
    }
}

pub fn add_to_blocklist(
    program_id: &Pubkey,
    state_pubkey: &Pubkey,
    authority_pubkey: &Pubkey,
    wallet: Pubkey,
) -> (r: Instruction)
    ensures
        r.program_id == *program_id,
        r.accounts@ == seq![AccountMeta { pubkey: *state_pubkey, is_signer: false, is_writable: true }, AccountMeta { pubkey: *authority_pubkey, is_signer: true, is_writable: false }],
        r.data@ == enc_public_mint_instruction(PublicMintInstructionModel::AddToBlocklist { wallet }),
{
    let data = match public_mint_instruction_to_vec(&PublicMintInstruction::AddToBlocklist { wallet }) {
        Some(d) => d,
        None => Vec::new(),
    };
    Instruction {
        program_id: *program_id,
        accounts: vec![
            AccountMeta::new(*state_pubkey, false),
            AccountMeta::new_readonly(*authority_pubkey, true),
        ],
        data,
    }
}

pub fn remove_from_blocklist(
    program_id: &Pubkey,
    state_pubkey: &Pubkey,
    authority_pubkey: &Pubkey,
    wallet: Pubkey,
) -> (r: Instruction)
    ensures
        r.program_id == *program_id,
        r.accounts@ == seq![AccountMeta { pubkey: *state_pubkey, is_signer: false, is_writable: true }, AccountMeta { pubkey: *authority_pubkey, is_signer: true, is_writable: false }],
        r.data@ == enc_public_mint_instruction(PublicMintInstructionModel::RemoveFromBlocklist { wallet }),
{
    let data = match public_mint_instruction_to_vec(&PublicMintInstruction::RemoveFromBlocklist { wallet }) {
        Some(d) => d,
        None => Vec::new(),
    };
    Instruction {
        program_id: *program_id,
        accounts: vec![
            AccountMeta::new(*state_pubkey, false),
            AccountMeta::new_readonly(*authority_pubkey, true),
        ],
        data,
    }
}

pub fn add_to_allowlist(
    program_id: &Pubkey,
    state_pubkey: &Pubkey,
    authority_pubkey: &Pubkey,
    wallet: Pubkey,
) -> (r: Instruction)
    ensures
        r.program_id == *program_id,
        r.accounts@ == seq![AccountMeta { pubkey: *state_pubkey, is_signer: false, is_writable: true }, AccountMeta { pubkey: *authority_pubkey, is_signer: true, is_writable: false }],
        r.data@ == enc_public_mint_instruction(PublicMintInstructionModel::AddToAllowlist { wallet }),
{
    let data = match public_mint_instruction_to_vec(&PublicMintInstruction::AddToAllowlist { wallet }) {
        Some(d) => d,
        None => Vec::new(),
    };
    Instruction {
        program_id: *program_id,
        accounts: vec![
            AccountMeta::new(*state_pubkey, false),
            AccountMeta::new_readonly(*authority_pubkey, true),
        ],
        data,
    }
}

pub fn remove_from_allowlist(
    program_id: &Pubkey,
    state_pubkey: &Pubkey,
    authority_pubkey: &Pubkey,
    wallet: Pubkey,
) -> (r: Instruction)
    ensures
        r.program_id == *program_id,
        r.accounts@ == seq![AccountMeta { pubkey: *state_pubkey, is_signer: false, is_writable: true }, AccountMeta { pubkey: *authority_pubkey, is_signer: true, is_writable: false }],
        r.data@ == enc_public_mint_instruction(PublicMintInstructionModel::RemoveFromAllowlist { wallet }),
{
    let data = match public_mint_instruction_to_vec(&PublicMintInstruction::RemoveFromAllowlist { wallet }) {
        Some(d) => d,
        None => Vec::new(),
    };
    Instruction {
        program_id: *program_id,
        accounts: vec![
            AccountMeta::new(*state_pubkey, false),
            AccountMeta::new_readonly(*authority_pubkey, true),
        ],
        data,
    }
}

} // verus!
