//! Instruction builders: each returns the instruction with its encoded data and
//! the accounts it expects, in order.
use vstd::prelude::*;
use crate::layout::{model_opt_string};
use crate::pubkey::{Pubkey};
use crate::runtime::{AccountMeta, Instruction};
use crate::token20::types::{MintPolicy, Token20Instruction, Token20InstructionModel, enc_token20_instruction, fits_token20_instruction, token20_instruction_to_vec};

verus! {

pub fn initialize_mint(
    program_id: &Pubkey,
    mint_pubkey: &Pubkey,
    authority_pubkey: &Pubkey,
    name: String,
    symbol: String,
    decimals: u8,
    supply_cap: Option<u128>,
    metadata_uri: Option<String>,
    mint_policy: MintPolicy,
) -> (r: Instruction)
    requires
        fits_token20_instruction(Token20InstructionModel::InitializeMint { name: name@, symbol: symbol@, decimals, supply_cap, metadata_uri: model_opt_string(metadata_uri), mint_policy }),
    ensures
        r.program_id == *program_id,
        r.accounts@ == seq![AccountMeta { pubkey: *mint_pubkey, is_signer: false, is_writable: true }, AccountMeta { pubkey: *authority_pubkey, is_signer: true, is_writable: false }],
        r.data@ == enc_token20_instruction(Token20InstructionModel::InitializeMint { name: name@, symbol: symbol@, decimals, supply_cap, metadata_uri: model_opt_string(metadata_uri), mint_policy }),
{
    let data = match token20_instruction_to_vec(&Token20Instruction::InitializeMint { name, symbol, decimals, supply_cap, metadata_uri, mint_policy }) {
        Some(d) => d,
        None => Vec::new(),
    };
    Instruction {
        program_id: *program_id,
        accounts: vec![
            AccountMeta::new(*mint_pubkey, false),
            AccountMeta::new_readonly(*authority_pubkey, true),
        ],
        data,
    }
}

pub fn initialize_account(
    program_id: &Pubkey,
    token_account_pubkey: &Pubkey,
    owner_pubkey: &Pubkey,
    mint_pubkey: &Pubkey,
) -> (r: Instruction)
    ensures
        r.program_id == *program_id,
        r.accounts@ == seq![AccountMeta { pubkey: *token_account_pubkey, is_signer: false, is_writable: true }, AccountMeta { pubkey: *owner_pubkey, is_signer: true, is_writable: false }, AccountMeta { pubkey: *mint_pubkey, is_signer: false, is_writable: false }],
        r.data@ == enc_token20_instruction(Token20InstructionModel::InitializeAccount),
{
    let data = match token20_instruction_to_vec(&Token20Instruction::InitializeAccount) {
        Some(d) => d,
        None => Vec::new(),
    };
    Instruction {
        program_id: *program_id,
        accounts: vec![
            AccountMeta::new(*token_account_pubkey, false),
            AccountMeta::new_readonly(*owner_pubkey, true),
            AccountMeta::new_readonly(*mint_pubkey, false),
        ],
        data,
    }
}

pub fn mint_to(
    program_id: &Pubkey,
    mint_pubkey: &Pubkey,
    destination_pubkey: &Pubkey,
    mint_authority_pubkey: &Pubkey,
    amount: u128,
) -> (r: Instruction)
    ensures
        r.program_id == *program_id,
        r.accounts@ == seq![AccountMeta { pubkey: *mint_pubkey, is_signer: false, is_writable: true }, AccountMeta { pubkey: *destination_pubkey, is_signer: false, is_writable: true }, AccountMeta { pubkey: *mint_authority_pubkey, is_signer: true, is_writable: false }],
        r.data@ == enc_token20_instruction(Token20InstructionModel::MintTo { amount }),
{
    let data = match token20_instruction_to_vec(&Token20Instruction::MintTo { amount }) {
        Some(d) => d,
        None => Vec::new(),
    };
    Instruction {
        program_id: *program_id,
        accounts: vec![
            AccountMeta::new(*mint_pubkey, false),
            AccountMeta::new(*destination_pubkey, false),
            AccountMeta::new_readonly(*mint_authority_pubkey, true),
        ],
        data,
    }
}

pub fn mint_public_to(
    program_id: &Pubkey,
    mint_pubkey: &Pubkey,
    destination_pubkey: &Pubkey,
    public_mint_state_pubkey: &Pubkey,
    mint_authority_pubkey: &Pubkey,
    amount: u128,
) -> (r: Instruction)
    ensures
        r.program_id == *program_id,
        r.accounts@ == seq![AccountMeta { pubkey: *mint_pubkey, is_signer: false, is_writable: true }, AccountMeta { pubkey: *destination_pubkey, is_signer: false, is_writable: true }, AccountMeta { pubkey: *public_mint_state_pubkey, is_signer: false, is_writable: false }, AccountMeta { pubkey: *mint_authority_pubkey, is_signer: true, is_writable: false }],
        r.data@ == enc_token20_instruction(Token20InstructionModel::MintPublicTo { amount }),
{
    let data = match token20_instruction_to_vec(&Token20Instruction::MintPublicTo { amount }) {
        Some(d) => d,
        None => Vec::new(),
    };
    Instruction {
        program_id: *program_id,
        accounts: vec![
            AccountMeta::new(*mint_pubkey, false),
            AccountMeta::new(*destination_pubkey, false),
            AccountMeta::new_readonly(*public_mint_state_pubkey, false),
            AccountMeta::new_readonly(*mint_authority_pubkey, true),
        ],
        data,
    }
}

pub fn transfer(
    program_id: &Pubkey,
    source_pubkey: &Pubkey,
    destination_pubkey: &Pubkey,
    owner_pubkey: &Pubkey,
    amount: u128,
) -> (r: Instruction)
    ensures
        r.program_id == *program_id,
        r.accounts@ == seq![AccountMeta { pubkey: *source_pubkey, is_signer: false, is_writable: true }, AccountMeta { pubkey: *destination_pubkey, is_signer: false, is_writable: true }, AccountMeta { pubkey: *owner_pubkey, is_signer: true, is_writable: false }],
        r.data@ == enc_token20_instruction(Token20InstructionModel::Transfer { amount }),
{
    let data = match token20_instruction_to_vec(&Token20Instruction::Transfer { amount }) {
        Some(d) => d,
        None => Vec::new(),
    };
    Instruction {
        program_id: *program_id,
        accounts: vec![
            AccountMeta::new(*source_pubkey, false),
            AccountMeta::new(*destination_pubkey, false),
            AccountMeta::new_readonly(*owner_pubkey, true),
        ],
        data,
    }
}

pub fn mint_emissions_to(
    program_id: &Pubkey,
    mint_pubkey: &Pubkey,
    destination_pubkey: &Pubkey,
    tokenomics_state_pubkey: &Pubkey,
    governance_authority_pubkey: &Pubkey,
    amount: u128,
) -> (r: Instruction)
    ensures
        r.program_id == *program_id,
        r.accounts@ == seq![AccountMeta { pubkey: *mint_pubkey, is_signer: false, is_writable: true }, AccountMeta { pubkey: *destination_pubkey, is_signer: false, is_writable: true }, AccountMeta { pubkey: *tokenomics_state_pubkey, is_signer: false, is_writable: false }, AccountMeta { pubkey: *governance_authority_pubkey, is_signer: true, is_writable: false }],
        r.data@ == enc_token20_instruction(Token20InstructionModel::MintEmissionsTo { amount }),
{
    let data = match token20_instruction_to_vec(&Token20Instruction::MintEmissionsTo { amount }) {
        Some(d) => d,
        None => Vec::new(),
    };
    Instruction {
        program_id: *program_id,
        accounts: vec![
            AccountMeta::new(*mint_pubkey, false),
            AccountMeta::new(*destination_pubkey, false),
            AccountMeta::new_readonly(*tokenomics_state_pubkey, false),
            AccountMeta::new_readonly(*governance_authority_pubkey, true),
        ],
        data,
    }
}

pub fn burn(
    program_id: &Pubkey,
    mint_pubkey: &Pubkey,
    source_pubkey: &Pubkey,
    owner_pubkey: &Pubkey,
    amount: u128,
) -> (r: Instruction)
    ensures
        r.program_id == *program_id,
        r.accounts@ == seq![AccountMeta { pubkey: *mint_pubkey, is_signer: false, is_writable: true }, AccountMeta { pubkey: *source_pubkey, is_signer: false, is_writable: true }, AccountMeta { pubkey: *owner_pubkey, is_signer: true, is_writable: false }],
        r.data@ == enc_token20_instruction(Token20InstructionModel::Burn { amount }),
{
    let data = match token20_instruction_to_vec(&Token20Instruction::Burn { amount }) {
        Some(d) => d,
        None => Vec::new(),
    };
    Instruction {
        program_id: *program_id,
        accounts: vec![
            AccountMeta::new(*mint_pubkey, false),
            AccountMeta::new(*source_pubkey, false),
            AccountMeta::new_readonly(*owner_pubkey, true),
        ],
        data,
    }
}

pub fn approve(
    program_id: &Pubkey,
    allowance_pubkey: &Pubkey,
    source_pubkey: &Pubkey,
    owner_pubkey: &Pubkey,
    spender_pubkey: &Pubkey,
    amount: u128,
    expires_at_epoch: Option<u64>,
) -> (r: Instruction)
    ensures
        r.program_id == *program_id,
        r.accounts@ == seq![AccountMeta { pubkey: *allowance_pubkey, is_signer: false, is_writable: true }, AccountMeta { pubkey: *source_pubkey, is_signer: false, is_writable: false }, AccountMeta { pubkey: *owner_pubkey, is_signer: true, is_writable: false }, AccountMeta { pubkey: *spender_pubkey, is_signer: false, is_writable: false }],
        r.data@ == enc_token20_instruction(Token20InstructionModel::Approve { amount, expires_at_epoch }),
{
    let data = match token20_instruction_to_vec(&Token20Instruction::Approve { amount, expires_at_epoch }) {
        Some(d) => d,
        None => Vec::new(),
    };
    Instruction {
        program_id: *program_id,
        accounts: vec![
            AccountMeta::new(*allowance_pubkey, false),
            AccountMeta::new_readonly(*source_pubkey, false),
            AccountMeta::new_readonly(*owner_pubkey, true),
            AccountMeta::new_readonly(*spender_pubkey, false),
        ],
        data,
    }
}

pub fn revoke(
    program_id: &Pubkey,
    allowance_pubkey: &Pubkey,
    owner_pubkey: &Pubkey,
) -> (r: Instruction)
    ensures
        r.program_id == *program_id,
        r.accounts@ == seq![AccountMeta { pubkey: *allowance_pubkey, is_signer: false, is_writable: true }, AccountMeta { pubkey: *owner_pubkey, is_signer: true, is_writable: false }],
        r.data@ == enc_token20_instruction(Token20InstructionModel::Revoke),
{
    let data = match token20_instruction_to_vec(&Token20Instruction::Revoke) {
        Some(d) => d,
        None => Vec::new(),
    };
    Instruction {
        program_id: *program_id,
        accounts: vec![
            AccountMeta::new(*allowance_pubkey, false),
            AccountMeta::new_readonly(*owner_pubkey, true),
        ],
        data,
    }
}

pub fn transfer_from(
    program_id: &Pubkey,
    allowance_pubkey: &Pubkey,
    source_pubkey: &Pubkey,
    destination_pubkey: &Pubkey,
    spender_pubkey: &Pubkey,
    amount: u128,
) -> (r: Instruction)
    ensures
        r.program_id == *program_id,
        r.accounts@ == seq![AccountMeta { pubkey: *allowance_pubkey, is_signer: false, is_writable: true }, AccountMeta { pubkey: *source_pubkey, is_signer: false, is_writable: true }, AccountMeta { pubkey: *destination_pubkey, is_signer: false, is_writable: true }, AccountMeta { pubkey: *spender_pubkey, is_signer: true, is_writable: false }],
        r.data@ == enc_token20_instruction(Token20InstructionModel::TransferFrom { amount }),
{
    let data = match token20_instruction_to_vec(&Token20Instruction::TransferFrom { amount }) {
        Some(d) => d,
        None => Vec::new(),
    };
    Instruction {
        program_id: *program_id,
        accounts: vec![
            AccountMeta::new(*allowance_pubkey, false),
            AccountMeta::new(*source_pubkey, false),
            AccountMeta::new(*destination_pubkey, false),
            AccountMeta::new_readonly(*spender_pubkey, true),
        ],
        data,
    }
}

pub fn freeze_account(
    program_id: &Pubkey,
    mint_pubkey: &Pubkey,
    token_account_pubkey: &Pubkey,
    freeze_authority_pubkey: &Pubkey,
) -> (r: Instruction)
    ensures
        r.program_id == *program_id,
        r.accounts@ == seq![AccountMeta { pubkey: *mint_pubkey, is_signer: false, is_writable: false }, AccountMeta { pubkey: *token_account_pubkey, is_signer: false, is_writable: true }, AccountMeta { pubkey: *freeze_authority_pubkey, is_signer: true, is_writable: false }],
        r.data@ == enc_token20_instruction(Token20InstructionModel::FreezeAccount),
{
    let data = match token20_instruction_to_vec(&Token20Instruction::FreezeAccount) {
        Some(d) => d,
        None => Vec::new(),
    };
    Instruction {
        program_id: *program_id,
        accounts: vec![
            AccountMeta::new_readonly(*mint_pubkey, false),
            AccountMeta::new(*token_account_pubkey, false),
            AccountMeta::new_readonly(*freeze_authority_pubkey, true),
        ],
        data,
    }
}

pub fn thaw_account(
    program_id: &Pubkey,
    mint_pubkey: &Pubkey,
    token_account_pubkey: &Pubkey,
    freeze_authority_pubkey: &Pubkey,
) -> (r: Instruction)
    ensures
        r.program_id == *program_id,
        r.accounts@ == seq![AccountMeta { pubkey: *mint_pubkey, is_signer: false, is_writable: false }, AccountMeta { pubkey: *token_account_pubkey, is_signer: false, is_writable: true }, AccountMeta { pubkey: *freeze_authority_pubkey, is_signer: true, is_writable: false }],
        r.data@ == enc_token20_instruction(Token20InstructionModel::ThawAccount),
{
    let data = match token20_instruction_to_vec(&Token20Instruction::ThawAccount) {
        Some(d) => d,
        None => Vec::new(),
    };
    Instruction {
        program_id: *program_id,
        accounts: vec![
            AccountMeta::new_readonly(*mint_pubkey, false),
            AccountMeta::new(*token_account_pubkey, false),
            AccountMeta::new_readonly(*freeze_authority_pubkey, true),
        ],
        data,
    }
}

pub fn set_mint_authority(
    program_id: &Pubkey,
    mint_pubkey: &Pubkey,
    current_authority_pubkey: &Pubkey,
    new_authority: Option<Pubkey>,
) -> (r: Instruction)
    ensures
        r.program_id == *program_id,
        r.accounts@ == seq![AccountMeta { pubkey: *mint_pubkey, is_signer: false, is_writable: true }, AccountMeta { pubkey: *current_authority_pubkey, is_signer: true, is_writable: false }],
        r.data@ == enc_token20_instruction(Token20InstructionModel::SetMintAuthority { new_authority }),
{
    let data = match token20_instruction_to_vec(&Token20Instruction::SetMintAuthority { new_authority }) {
        Some(d) => d,
        None => Vec::new(),
    };
    Instruction {
        program_id: *program_id,
        accounts: vec![
            AccountMeta::new(*mint_pubkey, false),
            AccountMeta::new_readonly(*current_authority_pubkey, true),
        ],
        data,
    }
}

} // verus!
