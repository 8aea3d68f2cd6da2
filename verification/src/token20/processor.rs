//! Instruction processing of the token program.
use vstd::prelude::*;
use crate::errors::{InstructionError, ProgramError};
use crate::pubkey::{opt_key_eq, spec_zero_pubkey, Pubkey};
use crate::runtime::{all_zero, and_then, is_all_zero, law_write_then_read, spec_write, ContextModel, InstructionContext};
use crate::token20::types::{
    aeko20_account_to_vec, aeko20_mint_to_vec, allowance_record_to_vec, dec_aeko20_account,
    dec_aeko20_mint, dec_allowance_record, dec_token20_instruction, enc_aeko20_account,
    enc_aeko20_mint, enc_allowance_record, fits_aeko20_mint, lemma_aeko20_account, lemma_aeko20_mint, lemma_allowance_record,
    token20_instruction_from_slice,
    Aeko20Account, Aeko20Mint, Aeko20MintModel, AllowanceRecord, MintPolicy, Token20Error,
    Token20Instruction, Token20InstructionModel,
};

verus! {

/// What an emissions mint reads from the tokenomics account: the program that
/// owns such accounts, and the governance program and authority the account
/// names (`None` when its data does not decode).
#[derive(Clone, Copy, Debug)]
pub struct TokenomicsGovernance {
    pub program_id: Pubkey,
    pub authorities: Option<(Pubkey, Pubkey)>,
}

/// How token errors are reported to the runtime.
pub open spec fn spec_map_program_error(e: ProgramError) -> InstructionError {
    match e {
        ProgramError::AccountAlreadyInitialized => InstructionError::AccountAlreadyInitialized,
        ProgramError::UninitializedAccount => InstructionError::UninitializedAccount,
        ProgramError::InvalidAccountOwner => InstructionError::InvalidAccountOwner,
        ProgramError::IncorrectAuthority => InstructionError::IncorrectAuthority,
        ProgramError::AccountDataTooSmall => InstructionError::AccountDataTooSmall,
        ProgramError::Custom(code) => if code == Token20Error::InvalidTokenOwner.spec_code() {
            InstructionError::IncorrectAuthority
        } else if code == Token20Error::InsufficientBalance.spec_code() || code == Token20Error::AllowanceExceeded.spec_code() {
            InstructionError::InsufficientFunds
        } else if code == Token20Error::AccountFrozen.spec_code() {
            InstructionError::Immutable
        } else {
            InstructionError::InvalidInstructionData
        },
        _ => InstructionError::InvalidInstructionData,
    }
}

pub open spec fn token_err(e: Token20Error) -> InstructionError {
    spec_map_program_error(ProgramError::Custom(e.spec_code()))
}

pub open spec fn spec_store_mint(c: ContextModel, i: int, m: Aeko20MintModel) -> (Result<(), InstructionError>, ContextModel) {
    if !fits_aeko20_mint(m) {
        (Err(InstructionError::InvalidAccountData), c)
    } else {
        spec_write(c, i, enc_aeko20_mint(m))
    }
}

/// InitializeMint: accounts `[mint (w, owned by this program), authority (s)]`.
/// The authority becomes mint and freeze authority of an empty supply.
pub open spec fn spec_initialize_mint(
    c: ContextModel,
    name: Seq<char>,
    symbol: Seq<char>,
    decimals: u8,
    supply_cap: Option<u128>,
    metadata_uri: Option<Seq<char>>,
    mint_policy: MintPolicy,
) -> (Result<(), InstructionError>, ContextModel) {
    if c.accounts.len() < 2 {
        (Err(InstructionError::NotEnoughAccountKeys), c)
    } else if !c.is_signer(1) {
        (Err(InstructionError::MissingRequiredSignature), c)
    } else if c.owner(0) != c.program_id {
        (Err(InstructionError::InvalidAccountOwner), c)
    } else if !c.is_writable(0) {
        (Err(InstructionError::InvalidArgument), c)
    } else if name.len() != 0 && !all_zero(c.data(0)) && (dec_aeko20_mint(c.data(0)) matches Some((m, _)) && m.is_initialized) {
        (Err(InstructionError::AccountAlreadyInitialized), c)
    } else {
        spec_store_mint(c, 0, Aeko20MintModel {
            mint_authority: Some(c.key(1)),
            freeze_authority: Some(c.key(1)),
            name,
            symbol,
            decimals,
            total_supply: 0,
            supply_cap,
            metadata_uri,
            transfer_hook_program_id: None,
            required_clearance: None,
            mint_policy,
            is_initialized: true,
        })
    }
}

/// InitializeAccount: accounts `[token account (w, owned by this program),
/// owner (s), mint]`.
pub open spec fn spec_initialize_account(c: ContextModel) -> (Result<(), InstructionError>, ContextModel) {
    if c.accounts.len() < 3 {
        (Err(InstructionError::NotEnoughAccountKeys), c)
    } else if !c.is_signer(1) {
        (Err(InstructionError::MissingRequiredSignature), c)
    } else {
        match dec_aeko20_mint(c.data(2)) {
            None => (Err(InstructionError::InvalidAccountData), c),
            Some((m, _)) => if !m.is_initialized {
                (Err(InstructionError::UninitializedAccount), c)
            } else if c.owner(0) != c.program_id {
                (Err(InstructionError::InvalidAccountOwner), c)
            } else if !c.is_writable(0) {
                (Err(InstructionError::InvalidArgument), c)
            } else if !all_zero(c.data(0)) && (dec_aeko20_account(c.data(0)) matches Some((a, _))
                && (a.balance > 0 || a.frozen || a.owner != spec_zero_pubkey())) {
                (Err(InstructionError::AccountAlreadyInitialized), c)
            } else {
                spec_write(c, 0, enc_aeko20_account(Aeko20Account { owner: c.key(1), mint: c.key(2), balance: 0, frozen: false }))
            },
        }
    }
}

pub open spec fn over_cap(m: Aeko20MintModel, amount: u128) -> bool {
    m.supply_cap matches Some(cap) && m.total_supply.saturating_add(amount) > cap
}

/// Crediting `amount` new tokens to the token account 1 of mint account 0: both
/// are written, the mint first.
pub open spec fn spec_credit(c: ContextModel, m: Aeko20MintModel, amount: u128) -> (Result<(), InstructionError>, ContextModel) {
    if !c.distinct(0, 1) {
        (Err(InstructionError::AccountBorrowFailed), c)
    } else {
        match dec_aeko20_account(c.data(1)) {
            None => (Err(InstructionError::InvalidAccountData), c),
            Some((d, _)) => if d.frozen {
                (Err(token_err(Token20Error::AccountFrozen)), c)
            } else if d.mint != c.key(0) {
                (Err(InstructionError::InvalidAccountData), c)
            } else if over_cap(m, amount) {
                (Err(InstructionError::InvalidArgument), c)
            } else {
                and_then(
                    spec_store_mint(c, 0, Aeko20MintModel { total_supply: m.total_supply.saturating_add(amount), ..m }),
                    |c1: ContextModel| spec_write(c1, 1, enc_aeko20_account(Aeko20Account { balance: d.balance.saturating_add(amount), ..d })),
                )
            },
        }
    }
}

/// MintTo and MintPublicTo: the mint (account 0) must be initialized, have the
/// given policy and the signer (account `a`) as mint authority, and stay within
/// its cap.
pub open spec fn spec_authority_mint(c: ContextModel, a: int, policy: MintPolicy, amount: u128) -> (Result<(), InstructionError>, ContextModel) {
    match dec_aeko20_mint(c.data(0)) {
        None => (Err(InstructionError::InvalidAccountData), c),
        Some((m, _)) => if !m.is_initialized {
            (Err(InstructionError::UninitializedAccount), c)
        } else if m.mint_policy != policy {
            (Err(InstructionError::InvalidArgument), c)
        } else if m.mint_authority != Some(c.key(a)) {
            (Err(InstructionError::IncorrectAuthority), c)
        } else if over_cap(m, amount) {
            (Err(InstructionError::InvalidArgument), c)
        } else {
            spec_credit(c, m, amount)
        },
    }
}

/// MintTo: accounts `[mint (w), destination (w), mint authority (s)]`.
pub open spec fn spec_mint_to(c: ContextModel, amount: u128) -> (Result<(), InstructionError>, ContextModel) {
    if c.accounts.len() < 3 {
        (Err(InstructionError::NotEnoughAccountKeys), c)
    } else if !c.is_signer(2) {
        (Err(InstructionError::MissingRequiredSignature), c)
    } else {
        spec_authority_mint(c, 2, MintPolicy::AuthorityGated, amount)
    }
}

/// MintPublicTo: accounts `[mint (w), destination (w), public-mint state (not
/// owned by this program, not all zero), mint authority (s)]`.
pub open spec fn spec_mint_public_to(c: ContextModel, amount: u128) -> (Result<(), InstructionError>, ContextModel) {
    if c.accounts.len() < 4 {
        (Err(InstructionError::NotEnoughAccountKeys), c)
    } else if c.owner(2) == c.program_id {
        (Err(InstructionError::InvalidAccountOwner), c)
    } else if all_zero(c.data(2)) {
        (Err(InstructionError::InvalidAccountData), c)
    } else if !c.is_signer(3) {
        (Err(InstructionError::MissingRequiredSignature), c)
    } else {
        spec_authority_mint(c, 3, MintPolicy::PublicMintControlled, amount)
    }
}

/// MintEmissionsTo: accounts `[mint (w), destination (w), tokenomics state,
/// governance authority (s)]`; the signer must be the tokenomics governance
/// program or authority.
pub open spec fn spec_mint_emissions_to(c: ContextModel, tk: TokenomicsGovernance, amount: u128) -> (Result<(), InstructionError>, ContextModel) {
    if c.accounts.len() < 4 {
        (Err(InstructionError::NotEnoughAccountKeys), c)
    } else if c.owner(2) != tk.program_id {
        (Err(InstructionError::InvalidAccountOwner), c)
    } else if tk.authorities is None {
        (Err(InstructionError::InvalidAccountData), c)
    } else if !c.is_signer(3) {
        (Err(InstructionError::MissingRequiredSignature), c)
    } else if (tk.authorities matches Some((governance, authority)) && c.key(3) != governance && c.key(3) != authority) {
        (Err(InstructionError::IncorrectAuthority), c)
    } else {
        match dec_aeko20_mint(c.data(0)) {
            None => (Err(InstructionError::InvalidAccountData), c),
            Some((m, _)) => if !m.is_initialized {
                (Err(InstructionError::UninitializedAccount), c)
            } else if m.mint_policy != MintPolicy::EmissionsControlled {
                (Err(InstructionError::InvalidInstructionData), c)
            } else {
                spec_credit(c, m, amount)
            },
        }
    }
}

/// Transfer: accounts `[source (w), destination (w), owner (s)]`.
pub open spec fn spec_transfer(c: ContextModel, amount: u128) -> (Result<(), InstructionError>, ContextModel) {
    if c.accounts.len() < 3 {
        (Err(InstructionError::NotEnoughAccountKeys), c)
    } else if !c.is_signer(2) {
        (Err(InstructionError::MissingRequiredSignature), c)
    } else {
        match dec_aeko20_account(c.data(0)) {
            None => (Err(InstructionError::InvalidAccountData), c),
            Some((s, _)) => if s.owner != c.key(2) {
                (Err(token_err(Token20Error::InvalidTokenOwner)), c)
            } else if s.frozen {
                (Err(token_err(Token20Error::AccountFrozen)), c)
            } else if s.balance < amount {
                (Err(token_err(Token20Error::InsufficientBalance)), c)
            } else if !c.distinct(0, 1) {
                (Err(InstructionError::AccountBorrowFailed), c)
            } else {
                match dec_aeko20_account(c.data(1)) {
                    None => (Err(InstructionError::InvalidAccountData), c),
                    Some((d, _)) => if d.frozen {
                        (Err(token_err(Token20Error::AccountFrozen)), c)
                    } else if s.mint != d.mint {
                        (Err(InstructionError::InvalidAccountData), c)
                    } else {
                        and_then(
                            spec_write(c, 0, enc_aeko20_account(Aeko20Account { balance: (s.balance - amount) as u128, ..s })),
                            |c1: ContextModel| spec_write(c1, 1, enc_aeko20_account(Aeko20Account { balance: d.balance.saturating_add(amount), ..d })),
                        )
                    },
                }
            },
        }
    }
}

/// Burn: accounts `[mint (w), source (w), owner (s)]`.
pub open spec fn spec_burn(c: ContextModel, amount: u128) -> (Result<(), InstructionError>, ContextModel) {
    if c.accounts.len() < 3 {
        (Err(InstructionError::NotEnoughAccountKeys), c)
    } else if !c.is_signer(2) {
        (Err(InstructionError::MissingRequiredSignature), c)
    } else {
        match dec_aeko20_mint(c.data(0)) {
            None => (Err(InstructionError::InvalidAccountData), c),
            Some((m, _)) => if !c.distinct(0, 1) {
                (Err(InstructionError::AccountBorrowFailed), c)
            } else {
                match dec_aeko20_account(c.data(1)) {
                    None => (Err(InstructionError::InvalidAccountData), c),
                    Some((s, _)) => if s.owner != c.key(2) {
                        (Err(token_err(Token20Error::InvalidTokenOwner)), c)
                    } else if s.frozen {
                        (Err(token_err(Token20Error::AccountFrozen)), c)
                    } else if s.mint != c.key(0) {
                        (Err(InstructionError::InvalidAccountData), c)
                    } else if s.balance < amount || m.total_supply < amount {
                        (Err(token_err(Token20Error::InsufficientBalance)), c)
                    } else {
                        and_then(
                            spec_write(c, 1, enc_aeko20_account(Aeko20Account { balance: (s.balance - amount) as u128, ..s })),
                            |c1: ContextModel| spec_store_mint(c1, 0, Aeko20MintModel { total_supply: (m.total_supply - amount) as u128, ..m }),
                        )
                    },
                }
            },
        }
    }
}

/// Approve: accounts `[allowance (w, owned by this program), source, owner (s),
/// spender]`.
pub open spec fn spec_approve(c: ContextModel, amount: u128, expires_at_epoch: Option<u64>) -> (Result<(), InstructionError>, ContextModel) {
    if c.accounts.len() < 4 {
        (Err(InstructionError::NotEnoughAccountKeys), c)
    } else {
        match dec_aeko20_account(c.data(1)) {
            None => (Err(InstructionError::InvalidAccountData), c),
            Some((s, _)) => if !c.is_signer(2) {
                (Err(InstructionError::MissingRequiredSignature), c)
            } else if s.owner != c.key(2) {
                (Err(token_err(Token20Error::InvalidTokenOwner)), c)
            } else if c.owner(0) != c.program_id {
                (Err(InstructionError::InvalidAccountOwner), c)
            } else if !c.is_writable(0) {
                (Err(InstructionError::InvalidArgument), c)
            } else {
                spec_write(c, 0, enc_allowance_record(AllowanceRecord {
                    owner: c.key(2),
                    spender: c.key(3),
                    mint: s.mint,
                    amount,
                    expires_at_epoch,
                }))
            },
        }
    }
}

/// Revoke: accounts `[allowance (w), owner (s)]`; the allowance data is zeroed.
pub open spec fn spec_revoke(c: ContextModel) -> (Result<(), InstructionError>, ContextModel) {
    if c.accounts.len() < 2 {
        (Err(InstructionError::NotEnoughAccountKeys), c)
    } else if !c.is_signer(1) {
        (Err(InstructionError::MissingRequiredSignature), c)
    } else {
        match dec_allowance_record(c.data(0)) {
            None => (Err(InstructionError::InvalidAccountData), c),
            Some((a, _)) => if a.owner != c.key(1) {
                (Err(token_err(Token20Error::InvalidTokenOwner)), c)
            } else {
                spec_write(c, 0, Seq::empty())
            },
        }
    }
}

/// TransferFrom: accounts `[allowance (w), source (w), destination (w),
/// spender (s)]`; writes source, destination, then the allowance.
pub open spec fn spec_transfer_from(c: ContextModel, amount: u128) -> (Result<(), InstructionError>, ContextModel) {
    if c.accounts.len() < 4 {
        (Err(InstructionError::NotEnoughAccountKeys), c)
    } else if !c.is_signer(3) {
        (Err(InstructionError::MissingRequiredSignature), c)
    } else {
        match dec_allowance_record(c.data(0)) {
            None => (Err(InstructionError::InvalidAccountData), c),
            Some((a, _)) => if a.spender != c.key(3) {
                (Err(token_err(Token20Error::InvalidTokenOwner)), c)
            } else if a.amount < amount {
                (Err(token_err(Token20Error::AllowanceExceeded)), c)
            } else if !c.distinct(0, 1) {
                (Err(InstructionError::AccountBorrowFailed), c)
            } else {
                match dec_aeko20_account(c.data(1)) {
                    None => (Err(InstructionError::InvalidAccountData), c),
                    Some((s, _)) => if s.frozen {
                        (Err(token_err(Token20Error::AccountFrozen)), c)
                    } else if s.balance < amount {
                        (Err(token_err(Token20Error::InsufficientBalance)), c)
                    } else if s.mint != a.mint || s.owner != a.owner {
                        (Err(InstructionError::InvalidAccountData), c)
                    } else if !c.distinct(0, 2) || !c.distinct(1, 2) {
                        (Err(InstructionError::AccountBorrowFailed), c)
                    } else {
                        match dec_aeko20_account(c.data(2)) {
                            None => (Err(InstructionError::InvalidAccountData), c),
                            Some((d, _)) => if d.frozen {
                                (Err(token_err(Token20Error::AccountFrozen)), c)
                            } else if d.mint != s.mint {
                                (Err(InstructionError::InvalidAccountData), c)
                            } else {
                                and_then(
                                    spec_write(c, 1, enc_aeko20_account(Aeko20Account { balance: (s.balance - amount) as u128, ..s })),
                                    |c1: ContextModel| and_then(
                                        spec_write(c1, 2, enc_aeko20_account(Aeko20Account { balance: d.balance.saturating_add(amount), ..d })),
                                        |c2: ContextModel| spec_write(c2, 0, enc_allowance_record(AllowanceRecord { amount: (a.amount - amount) as u128, ..a })),
                                    ),
                                )
                            },
                        }
                    },
                }
            },
        }
    }
}

/// FreezeAccount / ThawAccount: accounts `[mint, token account (w), freeze
/// authority (s)]`.
pub open spec fn spec_set_frozen(c: ContextModel, frozen: bool) -> (Result<(), InstructionError>, ContextModel) {
    if c.accounts.len() < 3 {
        (Err(InstructionError::NotEnoughAccountKeys), c)
    } else {
        match dec_aeko20_mint(c.data(0)) {
            None => (Err(InstructionError::InvalidAccountData), c),
            Some((m, _)) => if !c.is_signer(2) {
                (Err(InstructionError::MissingRequiredSignature), c)
            } else if m.freeze_authority != Some(c.key(2)) {
                (Err(InstructionError::IncorrectAuthority), c)
            } else {
                match dec_aeko20_account(c.data(1)) {
                    None => (Err(InstructionError::InvalidAccountData), c),
                    Some((t, _)) => if t.mint != c.key(0) {
                        (Err(InstructionError::InvalidAccountData), c)
                    } else {
                        spec_write(c, 1, enc_aeko20_account(Aeko20Account { frozen, ..t }))
                    },
                }
            },
        }
    }
}

/// SetMintAuthority: accounts `[mint (w), current mint authority (s)]`.
pub open spec fn spec_set_mint_authority(c: ContextModel, new_authority: Option<Pubkey>) -> (Result<(), InstructionError>, ContextModel) {
    if c.accounts.len() < 2 {
        (Err(InstructionError::NotEnoughAccountKeys), c)
    } else if !c.is_signer(1) {
        (Err(InstructionError::MissingRequiredSignature), c)
    } else {
        match dec_aeko20_mint(c.data(0)) {
            None => (Err(InstructionError::InvalidAccountData), c),
            Some((m, _)) => if m.mint_authority != Some(c.key(1)) {
                (Err(InstructionError::IncorrectAuthority), c)
            } else {
                spec_store_mint(c, 0, Aeko20MintModel { mint_authority: new_authority, ..m })
            },
        }
    }
}

pub open spec fn spec_process(c: ContextModel, data: Seq<u8>, tk: TokenomicsGovernance) -> (Result<(), InstructionError>, ContextModel) {
    match dec_token20_instruction(data) {
        Some((ix, rest)) => if rest.len() != 0 {
            (Err(InstructionError::InvalidInstructionData), c)
        } else {
            match ix {
                Token20InstructionModel::InitializeMint { name, symbol, decimals, supply_cap, metadata_uri, mint_policy } =>
                    spec_initialize_mint(c, name, symbol, decimals, supply_cap, metadata_uri, mint_policy),
                Token20InstructionModel::InitializeAccount => spec_initialize_account(c),
                Token20InstructionModel::MintTo { amount } => spec_mint_to(c, amount),
                Token20InstructionModel::MintPublicTo { amount } => spec_mint_public_to(c, amount),
                Token20InstructionModel::MintEmissionsTo { amount } => spec_mint_emissions_to(c, tk, amount),
                Token20InstructionModel::Transfer { amount } => spec_transfer(c, amount),
                Token20InstructionModel::Burn { amount } => spec_burn(c, amount),
                Token20InstructionModel::Approve { amount, expires_at_epoch } => spec_approve(c, amount, expires_at_epoch),
                Token20InstructionModel::Revoke => spec_revoke(c),
                Token20InstructionModel::TransferFrom { amount } => spec_transfer_from(c, amount),
                Token20InstructionModel::FreezeAccount => spec_set_frozen(c, true),
                Token20InstructionModel::ThawAccount => spec_set_frozen(c, false),
                Token20InstructionModel::SetMintAuthority { new_authority } => spec_set_mint_authority(c, new_authority),
            }
        },
        None => (Err(InstructionError::InvalidInstructionData), c),
    }
}

pub struct Processor;

impl Processor {
    /// Runs one instruction; `tokenomics` is what the tokenomics account holds,
    /// which only an emissions mint reads.
    pub fn process(ctx: &mut InstructionContext, instruction_data: &[u8], tokenomics: TokenomicsGovernance) -> (r: Result<(), InstructionError>)
        ensures
            (r, final(ctx)@) == spec_process(old(ctx)@, instruction_data@, tokenomics),
    {
        let instruction = match token20_instruction_from_slice(instruction_data) {
            Some(ix) => ix,
            None => return Err(InstructionError::InvalidInstructionData),
        };
        match instruction {
            Token20Instruction::InitializeMint { name, symbol, decimals, supply_cap, metadata_uri, mint_policy } =>
                Self::process_initialize_mint(ctx, name, symbol, decimals, supply_cap, metadata_uri, mint_policy),
            Token20Instruction::InitializeAccount => Self::process_initialize_account(ctx),
            Token20Instruction::MintTo { amount } => Self::process_mint_to(ctx, amount),
            Token20Instruction::MintPublicTo { amount } => Self::process_mint_public_to(ctx, amount),
            Token20Instruction::MintEmissionsTo { amount } => Self::process_mint_emissions_to(ctx, tokenomics, amount),
            Token20Instruction::Transfer { amount } => Self::process_transfer(ctx, amount),
            Token20Instruction::Burn { amount } => Self::process_burn(ctx, amount),
            Token20Instruction::Approve { amount, expires_at_epoch } => Self::process_approve(ctx, amount, expires_at_epoch),
            Token20Instruction::Revoke => Self::process_revoke(ctx),
            Token20Instruction::TransferFrom { amount } => Self::process_transfer_from(ctx, amount),
            Token20Instruction::FreezeAccount => Self::process_freeze_account(ctx),
            Token20Instruction::ThawAccount => Self::process_thaw_account(ctx),
            Token20Instruction::SetMintAuthority { new_authority } => Self::process_set_mint_authority(ctx, new_authority),
        }
    }

    /// How token errors are reported to the runtime.
    pub fn map_program_error(error: ProgramError) -> (r: InstructionError)
        ensures
            r == spec_map_program_error(error),
    {
        match error {
            ProgramError::AccountAlreadyInitialized => InstructionError::AccountAlreadyInitialized,
            ProgramError::UninitializedAccount => InstructionError::UninitializedAccount,
            ProgramError::InvalidAccountOwner => InstructionError::InvalidAccountOwner,
            ProgramError::IncorrectAuthority => InstructionError::IncorrectAuthority,
            ProgramError::AccountDataTooSmall => InstructionError::AccountDataTooSmall,
            ProgramError::Custom(code) => {
                if code == Token20Error::InvalidTokenOwner.code() {
                    InstructionError::IncorrectAuthority
                } else if code == Token20Error::InsufficientBalance.code() || code == Token20Error::AllowanceExceeded.code() {
                    InstructionError::InsufficientFunds
                } else if code == Token20Error::AccountFrozen.code() {
                    InstructionError::Immutable
                } else {
                    InstructionError::InvalidInstructionData
                }
            },
            _ => InstructionError::InvalidInstructionData,
        }
    }

    fn token_error(e: Token20Error) -> (r: InstructionError)
        ensures
            r == token_err(e),
    {
        Self::map_program_error(ProgramError::Custom(e.code()))
    }

    fn write_mint(ctx: &mut InstructionContext, i: usize, mint: &Aeko20Mint) -> (r: Result<(), InstructionError>)
        requires
            i < old(ctx)@.accounts.len(),
        ensures
            (r, final(ctx)@) == spec_store_mint(old(ctx)@, i as int, mint@),
    {
        match aeko20_mint_to_vec(mint) {
            None => Err(InstructionError::InvalidAccountData),
            Some(bytes) => ctx.write_account(i, &bytes),
        }
    }

    pub fn process_initialize_mint(
        ctx: &mut InstructionContext,
        name: String,
        symbol: String,
        decimals: u8,
        supply_cap: Option<u128>,
        metadata_uri: Option<String>,
        mint_policy: MintPolicy,
    ) -> (r: Result<(), InstructionError>)
        ensures
            (r, final(ctx)@) == spec_initialize_mint(old(ctx)@, name@, symbol@, decimals, supply_cap,
                match metadata_uri { Some(s) => Some(s@), None => None }, mint_policy),
    {
        if let Err(e) = ctx.check_number_of_instruction_accounts(2) {
            return Err(e);
        }
        let authority_key = ctx.key(1);
        if !ctx.is_signer(1) {
            return Err(InstructionError::MissingRequiredSignature);
        }
        if ctx.owner(0) != ctx.program_id {
            return Err(InstructionError::InvalidAccountOwner);
        }
        if !ctx.is_writable(0) {
            return Err(InstructionError::InvalidArgument);
        }
        if !name.as_str().is_empty() && !is_all_zero(ctx.data(0)) {
            if let Ok(existing) = Aeko20Mint::deserialize_padded(ctx.data(0)) {
                if existing.is_initialized {
                    return Err(InstructionError::AccountAlreadyInitialized);
                }
            }
        }
        let mint = Aeko20Mint {
            mint_authority: Some(authority_key),
            freeze_authority: Some(authority_key),
            name,
            symbol,
            decimals,
            total_supply: 0,
            supply_cap,
            metadata_uri,
            transfer_hook_program_id: None,
            required_clearance: None,
            mint_policy,
            is_initialized: true,
        };
        Self::write_mint(ctx, 0, &mint)
    }

    pub fn process_initialize_account(ctx: &mut InstructionContext) -> (r: Result<(), InstructionError>)
        ensures
            (r, final(ctx)@) == spec_initialize_account(old(ctx)@),
    {
        if let Err(e) = ctx.check_number_of_instruction_accounts(3) {
            return Err(e);
        }
        let owner_key = ctx.key(1);
        if !ctx.is_signer(1) {
            return Err(InstructionError::MissingRequiredSignature);
        }
        let mint_key = ctx.key(2);
        let mint = match Aeko20Mint::deserialize_padded(ctx.data(2)) {
            Ok(m) => m,
            Err(_) => return Err(InstructionError::InvalidAccountData),
        };
        if !mint.is_initialized {
            return Err(InstructionError::UninitializedAccount);
        }
        if ctx.owner(0) != ctx.program_id {
            return Err(InstructionError::InvalidAccountOwner);
        }
        if !ctx.is_writable(0) {
            return Err(InstructionError::InvalidArgument);
        }
        if !is_all_zero(ctx.data(0)) {
            if let Ok(existing) = Aeko20Account::deserialize_padded(ctx.data(0)) {
                if existing.balance > 0 || existing.frozen || existing.owner != Pubkey::default() {
                    return Err(InstructionError::AccountAlreadyInitialized);
                }
            }
        }
        let account = Aeko20Account { owner: owner_key, mint: mint_key, balance: 0, frozen: false };
        ctx.write_account(0, &aeko20_account_to_vec(&account))
    }

    fn credit(ctx: &mut InstructionContext, mut mint: Aeko20Mint, amount: u128) -> (r: Result<(), InstructionError>)
        requires
            2 <= old(ctx)@.accounts.len(),
        ensures
            (r, final(ctx)@) == spec_credit(old(ctx)@, mint@, amount),
    {
        if let Err(e) = ctx.borrow_both(0, 1) {
            return Err(e);
        }
        let mut destination = match Aeko20Account::deserialize_padded(ctx.data(1)) {
            Ok(d) => d,
            Err(_) => return Err(InstructionError::InvalidAccountData),
        };
        if destination.frozen {
            return Err(Self::token_error(Token20Error::AccountFrozen));
        }
        if destination.mint != ctx.key(0) {
            return Err(InstructionError::InvalidAccountData);
        }
        if let Some(cap) = mint.supply_cap {
            if mint.total_supply.saturating_add(amount) > cap {
                return Err(InstructionError::InvalidArgument);
            }
        }
        mint.total_supply = mint.total_supply.saturating_add(amount);
        destination.balance = destination.balance.saturating_add(amount);
        if let Err(e) = Self::write_mint(ctx, 0, &mint) {
            return Err(e);
        }
        ctx.write_account(1, &aeko20_account_to_vec(&destination))
    }

    fn authority_mint(ctx: &mut InstructionContext, a: usize, policy: MintPolicy, amount: u128) -> (r: Result<(), InstructionError>)
        requires
            2 <= old(ctx)@.accounts.len(),
            a < old(ctx)@.accounts.len(),
        ensures
            (r, final(ctx)@) == spec_authority_mint(old(ctx)@, a as int, policy, amount),
    {
        let mint = match Aeko20Mint::deserialize_padded(ctx.data(0)) {
            Ok(m) => m,
            Err(_) => return Err(InstructionError::InvalidAccountData),
        };
        if !mint.is_initialized {
            return Err(InstructionError::UninitializedAccount);
        }
        if mint.mint_policy != policy {
            return Err(InstructionError::InvalidArgument);
        }
        if !opt_key_eq(&mint.mint_authority, &Some(ctx.key(a))) {
            return Err(InstructionError::IncorrectAuthority);
        }
        if let Some(cap) = mint.supply_cap {
            if mint.total_supply.saturating_add(amount) > cap {
                return Err(InstructionError::InvalidArgument);
            }
        }
        Self::credit(ctx, mint, amount)
    }

    pub fn process_mint_to(ctx: &mut InstructionContext, amount: u128) -> (r: Result<(), InstructionError>)
        ensures
            (r, final(ctx)@) == spec_mint_to(old(ctx)@, amount),
    {
        if let Err(e) = ctx.check_number_of_instruction_accounts(3) {
            return Err(e);
        }
        if !ctx.is_signer(2) {
            return Err(InstructionError::MissingRequiredSignature);
        }
        Self::authority_mint(ctx, 2, MintPolicy::AuthorityGated, amount)
    }

    pub fn process_mint_public_to(ctx: &mut InstructionContext, amount: u128) -> (r: Result<(), InstructionError>)
        ensures
            (r, final(ctx)@) == spec_mint_public_to(old(ctx)@, amount),
    {
        if let Err(e) = ctx.check_number_of_instruction_accounts(4) {
            return Err(e);
        }
        if ctx.owner(2) == ctx.program_id {
            return Err(InstructionError::InvalidAccountOwner);
        }
        if is_all_zero(ctx.data(2)) {
            return Err(InstructionError::InvalidAccountData);
        }
        if !ctx.is_signer(3) {
            return Err(InstructionError::MissingRequiredSignature);
        }
        Self::authority_mint(ctx, 3, MintPolicy::PublicMintControlled, amount)
    }

    pub fn process_mint_emissions_to(ctx: &mut InstructionContext, tokenomics: TokenomicsGovernance, amount: u128) -> (r: Result<(), InstructionError>)
        ensures
            (r, final(ctx)@) == spec_mint_emissions_to(old(ctx)@, tokenomics, amount),
    {
        if let Err(e) = ctx.check_number_of_instruction_accounts(4) {
            return Err(e);
        }
        if ctx.owner(2) != tokenomics.program_id {
            return Err(InstructionError::InvalidAccountOwner);
        }
        let (governance_program, authority) = match tokenomics.authorities {
            Some(keys) => keys,
            None => return Err(InstructionError::InvalidAccountData),
        };
        let governance_key = ctx.key(3);
        if !ctx.is_signer(3) {
            return Err(InstructionError::MissingRequiredSignature);
        }
        if governance_key != governance_program && governance_key != authority {
            return Err(InstructionError::IncorrectAuthority);
        }
        let mint = match Aeko20Mint::deserialize_padded(ctx.data(0)) {
            Ok(m) => m,
            Err(_) => return Err(InstructionError::InvalidAccountData),
        };
        if !mint.is_initialized {
            return Err(InstructionError::UninitializedAccount);
        }
        if mint.mint_policy != MintPolicy::EmissionsControlled {
            return Err(InstructionError::InvalidInstructionData);
        }
        Self::credit(ctx, mint, amount)
    }

    pub fn process_transfer(ctx: &mut InstructionContext, amount: u128) -> (r: Result<(), InstructionError>)
        ensures
            (r, final(ctx)@) == spec_transfer(old(ctx)@, amount),
    {
        if let Err(e) = ctx.check_number_of_instruction_accounts(3) {
            return Err(e);
        }
        let owner_key = ctx.key(2);
        if !ctx.is_signer(2) {
            return Err(InstructionError::MissingRequiredSignature);
        }
        let mut source = match Aeko20Account::deserialize_padded(ctx.data(0)) {
            Ok(s) => s,
            Err(_) => return Err(InstructionError::InvalidAccountData),
        };
        if source.owner != owner_key {
            return Err(Self::token_error(Token20Error::InvalidTokenOwner));
        }
        if source.frozen {
            return Err(Self::token_error(Token20Error::AccountFrozen));
        }
        if source.balance < amount {
            return Err(Self::token_error(Token20Error::InsufficientBalance));
        }
        if let Err(e) = ctx.borrow_both(0, 1) {
            return Err(e);
        }
        let mut destination = match Aeko20Account::deserialize_padded(ctx.data(1)) {
            Ok(d) => d,
            Err(_) => return Err(InstructionError::InvalidAccountData),
        };
        if destination.frozen {
            return Err(Self::token_error(Token20Error::AccountFrozen));
        }
        if source.mint != destination.mint {
            return Err(InstructionError::InvalidAccountData);
        }
        source.balance = source.balance - amount;
        destination.balance = destination.balance.saturating_add(amount);
        if let Err(e) = ctx.write_account(0, &aeko20_account_to_vec(&source)) {
            return Err(e);
        }
        ctx.write_account(1, &aeko20_account_to_vec(&destination))
    }

    pub fn process_burn(ctx: &mut InstructionContext, amount: u128) -> (r: Result<(), InstructionError>)
        ensures
            (r, final(ctx)@) == spec_burn(old(ctx)@, amount),
    {
        if let Err(e) = ctx.check_number_of_instruction_accounts(3) {
            return Err(e);
        }
        let owner_key = ctx.key(2);
        if !ctx.is_signer(2) {
            return Err(InstructionError::MissingRequiredSignature);
        }
        let mut mint = match Aeko20Mint::deserialize_padded(ctx.data(0)) {
            Ok(m) => m,
            Err(_) => return Err(InstructionError::InvalidAccountData),
        };
        if let Err(e) = ctx.borrow_both(0, 1) {
            return Err(e);
        }
        let mut source = match Aeko20Account::deserialize_padded(ctx.data(1)) {
            Ok(s) => s,
            Err(_) => return Err(InstructionError::InvalidAccountData),
        };
        if source.owner != owner_key {
            return Err(Self::token_error(Token20Error::InvalidTokenOwner));
        }
        if source.frozen {
            return Err(Self::token_error(Token20Error::AccountFrozen));
        }
        if source.mint != ctx.key(0) {
            return Err(InstructionError::InvalidAccountData);
        }
        if source.balance < amount || mint.total_supply < amount {
            return Err(Self::token_error(Token20Error::InsufficientBalance));
        }
        source.balance = source.balance - amount;
        mint.total_supply = mint.total_supply - amount;
        if let Err(e) = ctx.write_account(1, &aeko20_account_to_vec(&source)) {
            return Err(e);
        }
        Self::write_mint(ctx, 0, &mint)
    }

    pub fn process_approve(ctx: &mut InstructionContext, amount: u128, expires_at_epoch: Option<u64>) -> (r: Result<(), InstructionError>)
        ensures
            (r, final(ctx)@) == spec_approve(old(ctx)@, amount, expires_at_epoch),
    {
        if let Err(e) = ctx.check_number_of_instruction_accounts(4) {
            return Err(e);
        }
        let source = match Aeko20Account::deserialize_padded(ctx.data(1)) {
            Ok(s) => s,
            Err(_) => return Err(InstructionError::InvalidAccountData),
        };
        let owner_key = ctx.key(2);
        if !ctx.is_signer(2) {
            return Err(InstructionError::MissingRequiredSignature);
        }
        if source.owner != owner_key {
            return Err(Self::token_error(Token20Error::InvalidTokenOwner));
        }
        let spender_key = ctx.key(3);
        if ctx.owner(0) != ctx.program_id {
            return Err(InstructionError::InvalidAccountOwner);
        }
        if !ctx.is_writable(0) {
            return Err(InstructionError::InvalidArgument);
        }
        let allowance = AllowanceRecord { owner: owner_key, spender: spender_key, mint: source.mint, amount, expires_at_epoch };
        ctx.write_account(0, &allowance_record_to_vec(&allowance))
    }

    pub fn process_revoke(ctx: &mut InstructionContext) -> (r: Result<(), InstructionError>)
        ensures
            (r, final(ctx)@) == spec_revoke(old(ctx)@),
    {
        if let Err(e) = ctx.check_number_of_instruction_accounts(2) {
            return Err(e);
        }
        let owner_key = ctx.key(1);
        if !ctx.is_signer(1) {
            return Err(InstructionError::MissingRequiredSignature);
        }
        let allowance = match AllowanceRecord::deserialize_padded(ctx.data(0)) {
            Ok(a) => a,
            Err(_) => return Err(InstructionError::InvalidAccountData),
        };
        if allowance.owner != owner_key {
            return Err(Self::token_error(Token20Error::InvalidTokenOwner));
        }
        let empty: Vec<u8> = Vec::new();
        ctx.write_account(0, &empty)
    }

    pub fn process_transfer_from(ctx: &mut InstructionContext, amount: u128) -> (r: Result<(), InstructionError>)
        ensures
            (r, final(ctx)@) == spec_transfer_from(old(ctx)@, amount),
    {
        if let Err(e) = ctx.check_number_of_instruction_accounts(4) {
            return Err(e);
        }
        let spender_key = ctx.key(3);
        if !ctx.is_signer(3) {
            return Err(InstructionError::MissingRequiredSignature);
        }
        let mut allowance = match AllowanceRecord::deserialize_padded(ctx.data(0)) {
            Ok(a) => a,
            Err(_) => return Err(InstructionError::InvalidAccountData),
        };
        if allowance.spender != spender_key {
            return Err(Self::token_error(Token20Error::InvalidTokenOwner));
        }
        if allowance.amount < amount {
            return Err(Self::token_error(Token20Error::AllowanceExceeded));
        }
        if let Err(e) = ctx.borrow_both(0, 1) {
            return Err(e);
        }
        let mut source = match Aeko20Account::deserialize_padded(ctx.data(1)) {
            Ok(s) => s,
            Err(_) => return Err(InstructionError::InvalidAccountData),
        };
        if source.frozen {
            return Err(Self::token_error(Token20Error::AccountFrozen));
        }
        if source.balance < amount {
            return Err(Self::token_error(Token20Error::InsufficientBalance));
        }
        if source.mint != allowance.mint || source.owner != allowance.owner {
            return Err(InstructionError::InvalidAccountData);
        }
        if let Err(e) = ctx.borrow_both(0, 2) {
            return Err(e);
        }
        if let Err(e) = ctx.borrow_both(1, 2) {
            return Err(e);
        }
        let mut destination = match Aeko20Account::deserialize_padded(ctx.data(2)) {
            Ok(d) => d,
            Err(_) => return Err(InstructionError::InvalidAccountData),
        };
        if destination.frozen {
            return Err(Self::token_error(Token20Error::AccountFrozen));
        }
        if destination.mint != source.mint {
            return Err(InstructionError::InvalidAccountData);
        }
        source.balance = source.balance - amount;
        destination.balance = destination.balance.saturating_add(amount);
        allowance.amount = allowance.amount - amount;
        if let Err(e) = ctx.write_account(1, &aeko20_account_to_vec(&source)) {
            return Err(e);
        }
        if let Err(e) = ctx.write_account(2, &aeko20_account_to_vec(&destination)) {
            return Err(e);
        }
        ctx.write_account(0, &allowance_record_to_vec(&allowance))
    }

    fn set_frozen(ctx: &mut InstructionContext, frozen: bool) -> (r: Result<(), InstructionError>)
        ensures
            (r, final(ctx)@) == spec_set_frozen(old(ctx)@, frozen),
    {
        if let Err(e) = ctx.check_number_of_instruction_accounts(3) {
            return Err(e);
        }
        let mint = match Aeko20Mint::deserialize_padded(ctx.data(0)) {
            Ok(m) => m,
            Err(_) => return Err(InstructionError::InvalidAccountData),
        };
        let mint_key = ctx.key(0);
        let authority_key = ctx.key(2);
        if !ctx.is_signer(2) {
            return Err(InstructionError::MissingRequiredSignature);
        }
        if !opt_key_eq(&mint.freeze_authority, &Some(authority_key)) {
            return Err(InstructionError::IncorrectAuthority);
        }
        let mut token = match Aeko20Account::deserialize_padded(ctx.data(1)) {
            Ok(t) => t,
            Err(_) => return Err(InstructionError::InvalidAccountData),
        };
        if token.mint != mint_key {
            return Err(InstructionError::InvalidAccountData);
        }
        token.frozen = frozen;
        ctx.write_account(1, &aeko20_account_to_vec(&token))
    }

    pub fn process_freeze_account(ctx: &mut InstructionContext) -> (r: Result<(), InstructionError>)
        ensures
            (r, final(ctx)@) == spec_set_frozen(old(ctx)@, true),
    {
        Self::set_frozen(ctx, true)
    }

    pub fn process_thaw_account(ctx: &mut InstructionContext) -> (r: Result<(), InstructionError>)
        ensures
            (r, final(ctx)@) == spec_set_frozen(old(ctx)@, false),
    {
        Self::set_frozen(ctx, false)
    }

    pub fn process_set_mint_authority(ctx: &mut InstructionContext, new_authority: Option<Pubkey>) -> (r: Result<(), InstructionError>)
        ensures
            (r, final(ctx)@) == spec_set_mint_authority(old(ctx)@, new_authority),
    {
        if let Err(e) = ctx.check_number_of_instruction_accounts(2) {
            return Err(e);
        }
        let current_authority = ctx.key(1);
        if !ctx.is_signer(1) {
            return Err(InstructionError::MissingRequiredSignature);
        }
        let mut mint = match Aeko20Mint::deserialize_padded(ctx.data(0)) {
            Ok(m) => m,
            Err(_) => return Err(InstructionError::InvalidAccountData),
        };
        if !opt_key_eq(&mint.mint_authority, &Some(current_authority)) {
            return Err(InstructionError::IncorrectAuthority);
        }
        mint.mint_authority = new_authority;
        Self::write_mint(ctx, 0, &mint)
    }
}

/// The balance held by token account `i`, if its data decodes.
pub open spec fn balance_at(c: ContextModel, i: int) -> Option<u128> {
    match dec_aeko20_account(c.data(i)) {
        Some((a, _)) => Some(a.balance),
        None => None,
    }
}

/// The total supply of mint account `i`, if its data decodes.
pub open spec fn supply_at(c: ContextModel, i: int) -> Option<u128> {
    match dec_aeko20_mint(c.data(i)) {
        Some((m, _)) => Some(m.total_supply),
        None => None,
    }
}

proof fn lemma_account_written(c: ContextModel, i: int, a: Aeko20Account)
    requires
        0 <= i < c.accounts.len(),
        spec_write(c, i, enc_aeko20_account(a)).0 is Ok,
    ensures
        dec_aeko20_account(spec_write(c, i, enc_aeko20_account(a)).1.data(i)) matches Some((b, _)) && b == a,
{
    law_write_then_read(c, i, enc_aeko20_account(a));
    lemma_aeko20_account(a, Seq::new((c.data(i).len() - enc_aeko20_account(a).len()) as nat, |k: int| 0u8));
}

proof fn lemma_mint_written(c: ContextModel, i: int, m: Aeko20MintModel)
    requires
        0 <= i < c.accounts.len(),
        spec_store_mint(c, i, m).0 is Ok,
    ensures
        dec_aeko20_mint(spec_store_mint(c, i, m).1.data(i)) matches Some((n, _)) && n == m,
{
    law_write_then_read(c, i, enc_aeko20_mint(m));
    lemma_aeko20_mint(m, Seq::new((c.data(i).len() - enc_aeko20_mint(m).len()) as nat, |k: int| 0u8));
}

/// A transfer moves exactly `amount` from the source (account 0) to the
/// destination (account 1): the two balances keep their sum, as long as the
/// destination's balance does not reach the top of `u128` (where it saturates).
pub proof fn law_transfer_conserves_balance(c: ContextModel, amount: u128)
    requires
        spec_transfer(c, amount).0 is Ok,
        balance_at(c, 1) matches Some(d) && d + amount <= u128::MAX,
    ensures
        ({
            let c2 = spec_transfer(c, amount).1;
            &&& balance_at(c, 0) matches Some(s) && balance_at(c2, 0) == Some((s - amount) as u128)
            &&& balance_at(c, 1) matches Some(d) && balance_at(c2, 1) == Some((d + amount) as u128)
            &&& balance_at(c2, 0)->0 + balance_at(c2, 1)->0 == balance_at(c, 0)->0 + balance_at(c, 1)->0
        }),
{
    let (s, _) = dec_aeko20_account(c.data(0))->0;
    let (d, _) = dec_aeko20_account(c.data(1))->0;
    let s2 = Aeko20Account { balance: (s.balance - amount) as u128, ..s };
    let d2 = Aeko20Account { balance: d.balance.saturating_add(amount), ..d };
    lemma_account_written(c, 0, s2);
    let c1 = spec_write(c, 0, enc_aeko20_account(s2)).1;
    law_write_then_read(c, 0, enc_aeko20_account(s2));
    assert(c1.accounts[1] == c.accounts[1]);
    lemma_account_written(c1, 1, d2);
    law_write_then_read(c1, 1, enc_aeko20_account(d2));
    let c2 = spec_write(c1, 1, enc_aeko20_account(d2)).1;
    assert(c2.accounts[0] == c1.accounts[0]);
}

/// A burn takes exactly `amount` from the token account (account 1) and from
/// the mint's total supply (account 0).
pub proof fn law_burn_reduces_balance_and_supply(c: ContextModel, amount: u128)
    requires
        spec_burn(c, amount).0 is Ok,
    ensures
        ({
            let c2 = spec_burn(c, amount).1;
            &&& balance_at(c, 1) matches Some(b) && balance_at(c2, 1) == Some((b - amount) as u128)
            &&& supply_at(c, 0) matches Some(t) && supply_at(c2, 0) == Some((t - amount) as u128)
        }),
{
    let (m, _) = dec_aeko20_mint(c.data(0))->0;
    let (s, _) = dec_aeko20_account(c.data(1))->0;
    let s2 = Aeko20Account { balance: (s.balance - amount) as u128, ..s };
    let m2 = Aeko20MintModel { total_supply: (m.total_supply - amount) as u128, ..m };
    lemma_account_written(c, 1, s2);
    law_write_then_read(c, 1, enc_aeko20_account(s2));
    let c1 = spec_write(c, 1, enc_aeko20_account(s2)).1;
    assert(c1.accounts[0] == c.accounts[0]);
    lemma_mint_written(c1, 0, m2);
    law_write_then_read(c1, 0, enc_aeko20_mint(m2));
    let c2 = spec_store_mint(c1, 0, m2).1;
    assert(c2.accounts[1] == c1.accounts[1]);
}

/// Minting credits exactly `amount` to the destination (account 1) and adds it
/// to the mint's total supply (account 0), for a mint by its authority, as long
/// as neither reaches the top of `u128`.
pub proof fn law_mint_to_credits_balance_and_supply(c: ContextModel, amount: u128)
    requires
        spec_mint_to(c, amount).0 is Ok,
        balance_at(c, 1) matches Some(b) && b + amount <= u128::MAX,
        supply_at(c, 0) matches Some(t) && t + amount <= u128::MAX,
    ensures
        ({
            let c2 = spec_mint_to(c, amount).1;
            &&& balance_at(c, 1) matches Some(b) && balance_at(c2, 1) == Some((b + amount) as u128)
            &&& supply_at(c, 0) matches Some(t) && supply_at(c2, 0) == Some((t + amount) as u128)
        }),
{
    let (m, _) = dec_aeko20_mint(c.data(0))->0;
    let (d, _) = dec_aeko20_account(c.data(1))->0;
    let m2 = Aeko20MintModel { total_supply: m.total_supply.saturating_add(amount), ..m };
    let d2 = Aeko20Account { balance: d.balance.saturating_add(amount), ..d };
    lemma_mint_written(c, 0, m2);
    law_write_then_read(c, 0, enc_aeko20_mint(m2));
    let c1 = spec_store_mint(c, 0, m2).1;
    assert(c1.accounts[1] == c.accounts[1]);
    lemma_account_written(c1, 1, d2);
    law_write_then_read(c1, 1, enc_aeko20_account(d2));
    let c2 = spec_write(c1, 1, enc_aeko20_account(d2)).1;
    assert(c2.accounts[0] == c1.accounts[0]);
}

/// MintTo by the mint authority of an authority-gated mint, into a distinct,
/// unfrozen token account of that mint, where the grown records fit their
/// accounts and nothing overflows: it succeeds exactly when the new supply
/// stays within the cap, if there is one. On success the supply and the
/// balance both grow by `amount`, and the supply is within the cap; on a
/// refusal both accounts are as they were.
pub proof fn law_mint_to_within_cap(c: ContextModel, amount: u128, m: Aeko20MintModel, d: Aeko20Account)
    requires
        c.accounts.len() >= 3,
        c.is_signer(2),
        c.distinct(0, 1),
        dec_aeko20_mint(c.data(0)) matches Some((x, _)) && x == m,
        m.is_initialized,
        m.mint_policy == MintPolicy::AuthorityGated,
        m.mint_authority == Some(c.key(2)),
        dec_aeko20_account(c.data(1)) matches Some((y, _)) && y == d,
        !d.frozen,
        d.mint == c.key(0),
        m.total_supply + amount <= u128::MAX,
        d.balance + amount <= u128::MAX,
        fits_aeko20_mint(Aeko20MintModel { total_supply: (m.total_supply + amount) as u128, ..m }),
        enc_aeko20_mint(Aeko20MintModel { total_supply: (m.total_supply + amount) as u128, ..m }).len() <= c.data(0).len(),
        enc_aeko20_account(Aeko20Account { balance: (d.balance + amount) as u128, ..d }).len() <= c.data(1).len(),
    ensures
        spec_mint_to(c, amount).0 is Ok <==> !(m.supply_cap matches Some(cap) && m.total_supply + amount > cap),
        spec_mint_to(c, amount).0 is Ok ==> ({
            let c2 = spec_mint_to(c, amount).1;
            &&& supply_at(c2, 0) == Some((m.total_supply + amount) as u128)
            &&& balance_at(c2, 1) == Some((d.balance + amount) as u128)
            &&& (m.supply_cap matches Some(cap) ==> m.total_supply + amount <= cap)
        }),
        spec_mint_to(c, amount).0 is Err ==> spec_mint_to(c, amount).1 == c,
{
    let m2 = Aeko20MintModel { total_supply: m.total_supply.saturating_add(amount), ..m };
    let d2 = Aeko20Account { balance: d.balance.saturating_add(amount), ..d };
    assert(m2 == Aeko20MintModel { total_supply: (m.total_supply + amount) as u128, ..m });
    assert(d2 == Aeko20Account { balance: (d.balance + amount) as u128, ..d });
    if !over_cap(m, amount) {
        lemma_mint_written(c, 0, m2);
        law_write_then_read(c, 0, enc_aeko20_mint(m2));
        let c1 = spec_store_mint(c, 0, m2).1;
        assert(c1.accounts[1] == c.accounts[1]);
        lemma_account_written(c1, 1, d2);
        law_write_then_read(c1, 1, enc_aeko20_account(d2));
        let c2 = spec_write(c1, 1, enc_aeko20_account(d2)).1;
        assert(c2.accounts[0] == c1.accounts[0]);
    }
}

/// The allowance of `spender`, if account `i` holds an allowance record.
pub open spec fn allowance_at(c: ContextModel, i: int) -> Option<(Pubkey, u128)> {
    match dec_allowance_record(c.data(i)) {
        Some((a, _)) => Some((a.spender, a.amount)),
        None => None,
    }
}

/// A spender moves at most what it was allowed: a TransferFrom that succeeds
/// was signed by the allowance's spender, the allowance (account 0) covered
/// the amount and is lowered by exactly that amount, and the amount leaves
/// the owner's account (account 1).
pub proof fn law_transfer_from_spends_the_allowance(c: ContextModel, amount: u128)
    requires
        spec_transfer_from(c, amount).0 is Ok,
    ensures
        ({
            let c2 = spec_transfer_from(c, amount).1;
            &&& allowance_at(c, 0) matches Some((spender, allowed))
            &&& spender == c.key(3)
            &&& c.is_signer(3)
            &&& allowed >= amount
            &&& allowance_at(c2, 0) == Some((spender, (allowed - amount) as u128))
            &&& balance_at(c, 1) matches Some(b)
            &&& b >= amount
            &&& balance_at(c2, 1) == Some((b - amount) as u128)
        }),
{
    let (a, _) = dec_allowance_record(c.data(0))->0;
    let (s, _) = dec_aeko20_account(c.data(1))->0;
    let (d, _) = dec_aeko20_account(c.data(2))->0;
    let s2 = Aeko20Account { balance: (s.balance - amount) as u128, ..s };
    let d2 = Aeko20Account { balance: d.balance.saturating_add(amount), ..d };
    let a2 = AllowanceRecord { amount: (a.amount - amount) as u128, ..a };
    lemma_account_written(c, 1, s2);
    law_write_then_read(c, 1, enc_aeko20_account(s2));
    let c1 = spec_write(c, 1, enc_aeko20_account(s2)).1;
    law_write_then_read(c1, 2, enc_aeko20_account(d2));
    let c2 = spec_write(c1, 2, enc_aeko20_account(d2)).1;
    assert(c2.accounts[1] == c1.accounts[1]);
    law_write_then_read(c2, 0, enc_allowance_record(a2));
    let c3 = spec_write(c2, 0, enc_allowance_record(a2)).1;
    assert(c3.accounts[1] == c2.accounts[1]);
    lemma_allowance_record(a2, Seq::new((c2.data(0).len() - enc_allowance_record(a2).len()) as nat, |k: int| 0u8));
}

/// An approval records what the owner allowed: an Approve that succeeds was
/// signed by the owner of the source account (account 1), and the allowance
/// (account 0) then reads back as the owner's allowance of exactly `amount`
/// to the spender (account 3), for the source's mint, with the given expiry.
pub proof fn law_approve_sets_the_allowance(c: ContextModel, amount: u128, expires_at_epoch: Option<u64>)
    requires
        spec_approve(c, amount, expires_at_epoch).0 is Ok,
    ensures
        ({
            let c2 = spec_approve(c, amount, expires_at_epoch).1;
            &&& c.is_signer(2)
            &&& dec_aeko20_account(c.data(1)) matches Some((src, _))
            &&& src.owner == c.key(2)
            &&& dec_allowance_record(c2.data(0)) matches Some((a, _))
            &&& a.owner == c.key(2) && a.spender == c.key(3) && a.amount == amount
            &&& a.mint == src.mint && a.expires_at_epoch == expires_at_epoch
        }),
{
    let (src, _) = dec_aeko20_account(c.data(1))->0;
    let a = AllowanceRecord { owner: c.key(2), spender: c.key(3), mint: src.mint, amount, expires_at_epoch };
    law_write_then_read(c, 0, enc_allowance_record(a));
    lemma_allowance_record(a, Seq::new((c.data(0).len() - enc_allowance_record(a).len()) as nat, |k: int| 0u8));
}

/// Freezing and thawing change only the flag: a Freeze/Thaw that succeeds was
/// signed by the mint's freeze authority, and the token account (account 1)
/// of that mint then reads back with `frozen` set as asked and everything
/// else, its balance included, as it was.
pub proof fn law_freeze_sets_only_the_flag(c: ContextModel, frozen: bool)
    requires
        spec_set_frozen(c, frozen).0 is Ok,
    ensures
        ({
            let c2 = spec_set_frozen(c, frozen).1;
            &&& c.is_signer(2)
            &&& dec_aeko20_mint(c.data(0)) matches Some((m, _))
            &&& m.freeze_authority == Some(c.key(2))
            &&& dec_aeko20_account(c.data(1)) matches Some((t, _))
            &&& t.mint == c.key(0)
            &&& dec_aeko20_account(c2.data(1)) matches Some((t2, _))
            &&& t2.frozen == frozen
            &&& t2 == Aeko20Account { frozen: t2.frozen, ..t }
        }),
{
    let (t, _) = dec_aeko20_account(c.data(1))->0;
    lemma_account_written(c, 1, Aeko20Account { frozen, ..t });
}

} // verus!
