//! Instruction processing of the social staking program.
//!
//! Opening a position ends in a system transfer of the stake from the staker
//! to the stake vault, which [`Processor::process`] hands back to the caller
//! as a [`ProcessStep`].
use vstd::prelude::*;
use crate::errors::{map_err, spec_map_err, InstructionError};
use crate::pubkey::Pubkey;
use crate::runtime::{
    and_then, law_write_then_read, spec_signer_key, spec_transfer_owned, spec_verify_owned, spec_write, ContextModel,
    InstructionContext,
};
use crate::social_staking::state::{
    custom, find_position, first_pos, has_pos, lemma_first_pos, spec_decode_state,
};
use crate::social_staking::types::{
    dec_social_staking_instruction, dec_social_staking_state_account, enc_social_stake_position,
    enc_social_staking_state_account, lemma_social_staking_state_account,
    fits_social_staking_state_account, social_stake_position_to_vec,
    social_staking_instruction_from_slice, social_staking_state_account_to_vec,
    SocialStakePosition, SocialStakeState, SocialStakingError, SocialStakingInstruction,
    SocialStakingInstructionModel, SocialStakingStateAccount, SocialStakingStateAccountModel,
    StakeYieldRecord,
};

verus! {

pub open spec fn err(e: SocialStakingError) -> InstructionError {
    InstructionError::Custom(e.spec_code())
}

/// A lamport transfer through the system program, signed by `from`.
#[derive(Clone, Copy, Debug, PartialEq, Eq)]
pub struct SystemTransfer {
    pub from: Pubkey,
    pub to: Pubkey,
    pub lamports: u64,
}

/// What is left to do after [`Processor::process`].
#[derive(Clone, Copy, Debug, PartialEq, Eq)]
pub enum ProcessStep {
    Done,
    Transfer(SystemTransfer),
}

/// The state in account 0: owned by this program, decodable, initialized.
pub open spec fn spec_load(c: ContextModel) -> Result<SocialStakingStateAccountModel, InstructionError> {
    if c.owner(0) != c.program_id {
        Err(InstructionError::InvalidAccountOwner)
    } else {
        match spec_decode_state(c.data(0)) {
            None => Err(InstructionError::InvalidAccountData),
            Some(s) => if !s.is_initialized {
                Err(err(SocialStakingError::Uninitialized))
            } else {
                Ok(s)
            },
        }
    }
}

pub open spec fn spec_store(c: ContextModel, s: SocialStakingStateAccountModel) -> (Result<(), InstructionError>, ContextModel) {
    if !fits_social_staking_state_account(s) {
        (Err(InstructionError::InvalidAccountData), c)
    } else {
        spec_write(c, 0, enc_social_staking_state_account(s))
    }
}

/// The state with position `i` replaced.
pub open spec fn with_position(s: SocialStakingStateAccountModel, i: int, p: SocialStakePosition) -> SocialStakingStateAccountModel {
    SocialStakingStateAccountModel { positions: s.positions.update(i, p), ..s }
}

/// InitializeConfig: accounts `[state (w, owned), payer, authority (s)]`.
pub open spec fn spec_initialize(c: ContextModel, state: SocialStakingStateAccountModel) -> (Result<(), InstructionError>, ContextModel) {
    if c.accounts.len() < 3 {
        (Err(InstructionError::NotEnoughAccountKeys), c)
    } else if !c.is_signer(2) {
        (Err(InstructionError::MissingRequiredSignature), c)
    } else if c.key(2) != state.config.authority {
        (Err(InstructionError::IncorrectAuthority), c)
    } else if c.owner(0) != c.program_id {
        (Err(InstructionError::InvalidAccountOwner), c)
    } else {
        spec_store(c, state)
    }
}

/// UpdateVaults: accounts `[state (w), authority (s), stake vault, reward vault]`.
pub open spec fn spec_update_vaults(c: ContextModel, stake_vault: Pubkey, reward_vault: Pubkey) -> (Result<(), InstructionError>, ContextModel) {
    match spec_signer_key(c, 1) {
        Err(e) => (Err(e), c),
        Ok(authority) => if spec_verify_owned(c, 2, stake_vault) is Err {
            (Err(spec_verify_owned(c, 2, stake_vault)->Err_0), c)
        } else if spec_verify_owned(c, 3, reward_vault) is Err {
            (Err(spec_verify_owned(c, 3, reward_vault)->Err_0), c)
        } else {
            match spec_load(c) {
                Err(e) => (Err(e), c),
                Ok(s) => if authority != s.config.authority {
                    (Err(InstructionError::IncorrectAuthority), c)
                } else {
                    spec_store(c, SocialStakingStateAccountModel {
                        config: crate::social_staking::types::SocialStakeConfig { stake_vault, reward_vault, ..s.config },
                        ..s
                    })
                },
            }
        },
    }
}

/// OpenPosition: accounts `[state (w), staker (s), stake vault]`. On success the
/// stake is then to be moved from the staker to the stake vault.
pub open spec fn spec_open_position(c: ContextModel, position: SocialStakePosition) -> (Result<Option<SystemTransfer>, InstructionError>, ContextModel) {
    match spec_signer_key(c, 1) {
        Err(e) => (Err(e), c),
        Ok(staker) => if position.staker != staker {
            (Err(InstructionError::IncorrectAuthority), c)
        } else if c.accounts.len() < 3 {
            (Err(InstructionError::NotEnoughAccountKeys), c)
        } else {
            match spec_load(c) {
                Err(e) => (Err(e), c),
                Ok(s) => if !s.config.staking_enabled {
                    (Err(err(SocialStakingError::StakingDisabled)), c)
                } else if position.staked_amount == 0 || position.staked_amount < s.config.min_stake_amount {
                    (Err(err(SocialStakingError::StakeTooLow)), c)
                } else if position.state != SocialStakeState::Active {
                    (Err(err(SocialStakingError::PositionNotActive)), c)
                } else if has_pos(s.positions, position.position_id, None) {
                    (Err(err(SocialStakingError::PositionAlreadyExists)), c)
                } else {
                    let (r, c1) = spec_store(c, SocialStakingStateAccountModel { positions: s.positions.push(position), ..s });
                    if r is Err {
                        (Err(r->Err_0), c1)
                    } else if spec_verify_owned(c1, 2, s.config.stake_vault) is Err {
                        (Err(spec_verify_owned(c1, 2, s.config.stake_vault)->Err_0), c1)
                    } else {
                        (Ok(Some(SystemTransfer { from: staker, to: s.config.stake_vault, lamports: position.staked_amount })), c1)
                    }
                },
            }
        },
    }
}

/// RequestUnstake: accounts `[state (w), staker (s)]`.
pub open spec fn spec_request_unstake(c: ContextModel, position_id: [u8; 32], unlock_epoch: u64) -> (Result<(), InstructionError>, ContextModel) {
    match spec_signer_key(c, 1) {
        Err(e) => (Err(e), c),
        Ok(staker) => if c.accounts.len() < 2 {
            (Err(InstructionError::NotEnoughAccountKeys), c)
        } else {
            match spec_load(c) {
                Err(e) => (Err(e), c),
                Ok(s) => if !has_pos(s.positions, position_id, Some(staker)) {
                    (Err(err(SocialStakingError::PositionNotFound)), c)
                } else {
                    let i = first_pos(s.positions, position_id, Some(staker));
                    let p = s.positions[i];
                    if p.state != SocialStakeState::Active {
                        (Err(err(SocialStakingError::PositionNotActive)), c)
                    } else if unlock_epoch < p.activated_at_epoch.saturating_add(s.config.cooldown_epochs) {
                        (Err(err(SocialStakingError::InvalidUnstakeEpoch)), c)
                    } else {
                        spec_store(c, with_position(s, i, SocialStakePosition { state: SocialStakeState::CoolingDown, unlock_epoch: Some(unlock_epoch), ..p }))
                    }
                },
            }
        },
    }
}

/// Paying `amount` out of the vault in account 2 to the staker in account 1,
/// after checking the vault.
pub open spec fn spec_pay_out(c: ContextModel, vault: Pubkey, amount: u64) -> (Result<(), InstructionError>, ContextModel) {
    if spec_verify_owned(c, 2, vault) is Err {
        (Err(spec_verify_owned(c, 2, vault)->Err_0), c)
    } else {
        spec_transfer_owned(c, 2, 1, amount)
    }
}

/// FinalizeUnstake: accounts `[state (w), staker (s), stake vault (w)]`; the
/// stake is paid back from the vault.
pub open spec fn spec_finalize_unstake(c: ContextModel, position_id: [u8; 32], current_epoch: u64) -> (Result<(), InstructionError>, ContextModel) {
    match spec_signer_key(c, 1) {
        Err(e) => (Err(e), c),
        Ok(staker) => if c.accounts.len() < 3 {
            (Err(InstructionError::NotEnoughAccountKeys), c)
        } else {
            match spec_load(c) {
                Err(e) => (Err(e), c),
                Ok(s) => if !has_pos(s.positions, position_id, Some(staker)) {
                    (Err(err(SocialStakingError::PositionNotFound)), c)
                } else {
                    let i = first_pos(s.positions, position_id, Some(staker));
                    let p = s.positions[i];
                    if p.state != SocialStakeState::CoolingDown {
                        (Err(err(SocialStakingError::PositionNotActive)), c)
                    } else if (match p.unlock_epoch { Some(u) => u, None => u64::MAX }) > current_epoch {
                        (Err(err(SocialStakingError::CooldownNotReached)), c)
                    } else {
                        and_then(
                            spec_store(c, with_position(s, i, SocialStakePosition { state: SocialStakeState::Closed, ..p })),
                            |c1: ContextModel| spec_pay_out(c1, s.config.stake_vault, p.staked_amount),
                        )
                    }
                },
            }
        },
    }
}

/// RecordStakeYield: accounts `[state (w), authority (s)]`.
pub open spec fn spec_record_yield(c: ContextModel, record: StakeYieldRecord) -> (Result<(), InstructionError>, ContextModel) {
    match spec_signer_key(c, 1) {
        Err(e) => (Err(e), c),
        Ok(authority) => if c.accounts.len() < 2 {
            (Err(InstructionError::NotEnoughAccountKeys), c)
        } else {
            match spec_load(c) {
                Err(e) => (Err(e), c),
                Ok(s) => if authority != s.config.authority {
                    (Err(err(SocialStakingError::Unauthorized)), c)
                } else if !has_pos(s.positions, record.position_id, None) {
                    (Err(err(SocialStakingError::PositionNotFound)), c)
                } else {
                    let i = first_pos(s.positions, record.position_id, None);
                    let p = s.positions[i];
                    if p.state != SocialStakeState::Active {
                        (Err(err(SocialStakingError::PositionNotActive)), c)
                    } else if record.yield_amount == 0 || record.creator != p.creator || record.staker != p.staker {
                        (Err(err(SocialStakingError::InvalidYieldRecord)), c)
                    } else {
                        let s2 = with_position(s, i, SocialStakePosition { accumulated_yield: p.accumulated_yield.saturating_add(record.yield_amount), ..p });
                        spec_store(c, SocialStakingStateAccountModel { yield_records: s2.yield_records.push(record), ..s2 })
                    }
                },
            }
        },
    }
}

/// ClaimStakeYield: accounts `[state (w), staker (s), reward vault (w)]`.
pub open spec fn spec_claim_yield(c: ContextModel, position_id: [u8; 32], amount: u64) -> (Result<(), InstructionError>, ContextModel) {
    match spec_signer_key(c, 1) {
        Err(e) => (Err(e), c),
        Ok(staker) => if c.accounts.len() < 3 {
            (Err(InstructionError::NotEnoughAccountKeys), c)
        } else {
            match spec_load(c) {
                Err(e) => (Err(e), c),
                Ok(s) => if !has_pos(s.positions, position_id, Some(staker)) {
                    (Err(err(SocialStakingError::PositionNotFound)), c)
                } else {
                    let i = first_pos(s.positions, position_id, Some(staker));
                    let p = s.positions[i];
                    if p.accumulated_yield < amount || amount == 0 {
                        (Err(err(SocialStakingError::NothingToClaim)), c)
                    } else {
                        and_then(
                            spec_store(c, with_position(s, i, SocialStakePosition {
                                accumulated_yield: (p.accumulated_yield - amount) as u64,
                                claimed_yield: p.claimed_yield.saturating_add(amount),
                                ..p
                            })),
                            |c1: ContextModel| spec_pay_out(c1, s.config.reward_vault, amount),
                        )
                    }
                },
            }
        },
    }
}

/// The encoding of an optional position.
pub open spec fn enc_opt_position(p: Option<SocialStakePosition>) -> Seq<u8> {
    match p {
        Some(v) => seq![1u8] + enc_social_stake_position(v),
        None => seq![0u8],
    }
}

/// ReadPosition: accounts `[state]`; returns the first position with the id,
/// or the whole state when no id is given.
pub open spec fn spec_read(c: ContextModel, position_id: Option<[u8; 32]>) -> (Result<(), InstructionError>, ContextModel) {
    if c.accounts.len() < 1 {
        (Err(InstructionError::NotEnoughAccountKeys), c)
    } else {
        match spec_load(c) {
            Err(e) => (Err(e), c),
            Ok(s) => match position_id {
                Some(id) => (Ok(()), c.with_return(enc_opt_position(
                    if has_pos(s.positions, id, None) { Some(s.positions[first_pos(s.positions, id, None)]) } else { None },
                ))),
                None => if !fits_social_staking_state_account(s) {
                    (Err(InstructionError::InvalidAccountData), c)
                } else {
                    (Ok(()), c.with_return(enc_social_staking_state_account(s)))
                },
            },
        }
    }
}

/// Lifts a step without a follow-up call.
pub open spec fn done(r: (Result<(), InstructionError>, ContextModel)) -> (Result<Option<SystemTransfer>, InstructionError>, ContextModel) {
    (if r.0 is Err { Err(r.0->Err_0) } else { Ok(None) }, r.1)
}

pub open spec fn spec_process(c: ContextModel, data: Seq<u8>) -> (Result<Option<SystemTransfer>, InstructionError>, ContextModel) {
    match dec_social_staking_instruction(data) {
        Some((ix, rest)) => if rest.len() != 0 {
            (Err(InstructionError::InvalidInstructionData), c)
        } else {
            match ix {
                SocialStakingInstructionModel::InitializeConfig { state } => done(spec_initialize(c, state)),
                SocialStakingInstructionModel::OpenPosition { position } => spec_open_position(c, position),
                SocialStakingInstructionModel::RequestUnstake { position_id, unlock_epoch } => done(spec_request_unstake(c, position_id, unlock_epoch)),
                SocialStakingInstructionModel::FinalizeUnstake { position_id, current_epoch } => done(spec_finalize_unstake(c, position_id, current_epoch)),
                SocialStakingInstructionModel::RecordStakeYield { record } => done(spec_record_yield(c, record)),
                SocialStakingInstructionModel::ClaimStakeYield { position_id, amount } => done(spec_claim_yield(c, position_id, amount)),
                SocialStakingInstructionModel::ReadPosition { position_id } => done(spec_read(c, position_id)),
            }
        },
        None => (Err(InstructionError::InvalidInstructionData), c),
    }
}

pub struct Processor;

impl Processor {
    /// Runs one instruction; an opened position comes back with the system
    /// transfer still to be made.
    pub fn process(ctx: &mut InstructionContext, instruction_data: &[u8]) -> (r: Result<ProcessStep, InstructionError>)
        ensures
            ({
                let (sr, sc) = spec_process(old(ctx)@, instruction_data@);
                &&& final(ctx)@ == sc
                &&& sr == (match r {
                    Ok(ProcessStep::Done) => Ok(None),
                    Ok(ProcessStep::Transfer(t)) => Ok(Some(t)),
                    Err(e) => Err(e),
                })
            }),
    {
        let instruction = match social_staking_instruction_from_slice(instruction_data) {
            Some(ix) => ix,
            None => return Err(InstructionError::InvalidInstructionData),
        };
        let r = match instruction {
            SocialStakingInstruction::InitializeConfig { state } => Self::process_initialize(ctx, state),
            SocialStakingInstruction::OpenPosition { position } => {
                return match Self::process_open_position(ctx, position) {
                    Ok(t) => Ok(ProcessStep::Transfer(t)),
                    Err(e) => Err(e),
                };
            },
            SocialStakingInstruction::RequestUnstake { position_id, unlock_epoch } => Self::process_request_unstake(ctx, position_id, unlock_epoch),
            SocialStakingInstruction::FinalizeUnstake { position_id, current_epoch } => Self::process_finalize_unstake(ctx, position_id, current_epoch),
            SocialStakingInstruction::RecordStakeYield { record } => Self::process_record_yield(ctx, record),
            SocialStakingInstruction::ClaimStakeYield { position_id, amount } => Self::process_claim_yield(ctx, position_id, amount),
            SocialStakingInstruction::ReadPosition { position_id } => Self::process_read(ctx, position_id),
        };
        match r {
            Ok(()) => Ok(ProcessStep::Done),
            Err(e) => Err(e),
        }
    }

    /// How program errors are reported: a custom code is kept, any other error
    /// becomes `InvalidArgument`.
    pub fn map_program_error(error: crate::errors::ProgramError) -> (r: InstructionError)
        ensures
            r == spec_map_err(error),
    {
        map_err(error)
    }

    fn load(ctx: &InstructionContext) -> (r: Result<SocialStakingStateAccount, InstructionError>)
        requires
            0 < ctx@.accounts.len(),
        ensures
            r.is_ok() == spec_load(ctx@).is_ok(),
            r matches Ok(s) ==> spec_load(ctx@) == Ok::<_, InstructionError>(s@),
            r matches Err(e) ==> spec_load(ctx@) == Err::<SocialStakingStateAccountModel, _>(e),
    {
        if ctx.owner(0) != ctx.program_id {
            return Err(InstructionError::InvalidAccountOwner);
        }
        let state = match SocialStakingStateAccount::deserialize_padded(ctx.data(0)) {
            Ok(s) => s,
            Err(_) => return Err(InstructionError::InvalidAccountData),
        };
        if let Err(e) = state.ensure_initialized() {
            return Err(map_err(e));
        }
        Ok(state)
    }

    fn write_back(ctx: &mut InstructionContext, state: &SocialStakingStateAccount) -> (r: Result<(), InstructionError>)
        requires
            0 < old(ctx)@.accounts.len(),
        ensures
            (r, final(ctx)@) == spec_store(old(ctx)@, state@),
    {
        match social_staking_state_account_to_vec(state) {
            None => Err(InstructionError::InvalidAccountData),
            Some(bytes) => ctx.write_account(0, &bytes),
        }
    }

    pub fn process_initialize(ctx: &mut InstructionContext, state: SocialStakingStateAccount) -> (r: Result<(), InstructionError>)
        ensures
            (r, final(ctx)@) == spec_initialize(old(ctx)@, state@),
    {
        if let Err(e) = ctx.check_number_of_instruction_accounts(3) {
            return Err(e);
        }
        if !ctx.is_signer(2) {
            return Err(InstructionError::MissingRequiredSignature);
        }
        if ctx.key(2) != state.config.authority {
            return Err(InstructionError::IncorrectAuthority);
        }
        if ctx.owner(0) != ctx.program_id {
            return Err(InstructionError::InvalidAccountOwner);
        }
        Self::write_back(ctx, &state)
    }

    /// Replaces the stake and reward vaults (no instruction of this program
    /// routes here).
    pub fn process_update_vaults(ctx: &mut InstructionContext, stake_vault: Pubkey, reward_vault: Pubkey) -> (r: Result<(), InstructionError>)
        ensures
            (r, final(ctx)@) == spec_update_vaults(old(ctx)@, stake_vault, reward_vault),
    {
        let authority = match ctx.signer_key(1) {
            Ok(k) => k,
            Err(e) => return Err(e),
        };
        if let Err(e) = ctx.verify_owned_account(2, stake_vault) {
            return Err(e);
        }
        if let Err(e) = ctx.verify_owned_account(3, reward_vault) {
            return Err(e);
        }
        let mut state = match Self::load(ctx) {
            Ok(s) => s,
            Err(e) => return Err(e),
        };
        if authority != state.config.authority {
            return Err(InstructionError::IncorrectAuthority);
        }
        state.config.stake_vault = stake_vault;
        state.config.reward_vault = reward_vault;
        Self::write_back(ctx, &state)
    }

    pub fn process_open_position(ctx: &mut InstructionContext, position: SocialStakePosition) -> (r: Result<SystemTransfer, InstructionError>)
        ensures
            ({
                let (sr, sc) = spec_open_position(old(ctx)@, position);
                &&& final(ctx)@ == sc
                &&& sr == (match r {
                    Ok(t) => Ok(Some(t)),
                    Err(e) => Err(e),
                })
            }),
    {
        let staker = match ctx.signer_key(1) {
            Ok(k) => k,
            Err(e) => return Err(e),
        };
        if position.staker != staker {
            return Err(InstructionError::IncorrectAuthority);
        }
        if let Err(e) = ctx.check_number_of_instruction_accounts(3) {
            return Err(e);
        }
        let mut state = match Self::load(ctx) {
            Ok(s) => s,
            Err(e) => return Err(e),
        };
        if !state.config.staking_enabled {
            return Err(InstructionError::Custom(SocialStakingError::StakingDisabled.code()));
        }
        if position.staked_amount == 0 || position.staked_amount < state.config.min_stake_amount {
            return Err(InstructionError::Custom(SocialStakingError::StakeTooLow.code()));
        }
        if position.state != SocialStakeState::Active {
            return Err(InstructionError::Custom(SocialStakingError::PositionNotActive.code()));
        }
        if state.position_exists(&position.position_id) {
            return Err(InstructionError::Custom(SocialStakingError::PositionAlreadyExists.code()));
        }
        let stake_vault = state.config.stake_vault;
        let amount = position.staked_amount;
        state.positions.push(position);
        if let Err(e) = Self::write_back(ctx, &state) {
            return Err(e);
        }
        if let Err(e) = ctx.verify_owned_account(2, stake_vault) {
            return Err(e);
        }
        Ok(SystemTransfer { from: staker, to: stake_vault, lamports: amount })
    }

    pub fn process_request_unstake(ctx: &mut InstructionContext, position_id: [u8; 32], unlock_epoch: u64) -> (r: Result<(), InstructionError>)
        ensures
            (r, final(ctx)@) == spec_request_unstake(old(ctx)@, position_id, unlock_epoch),
    {
        let staker = match ctx.signer_key(1) {
            Ok(k) => k,
            Err(e) => return Err(e),
        };
        if let Err(e) = ctx.check_number_of_instruction_accounts(2) {
            return Err(e);
        }
        let mut state = match Self::load(ctx) {
            Ok(s) => s,
            Err(e) => return Err(e),
        };
        let cooldown_epochs = state.config.cooldown_epochs;
        let i = match find_position(&state.positions, &position_id, Some(staker)) {
            Some(i) => i,
            None => return Err(InstructionError::Custom(SocialStakingError::PositionNotFound.code())),
        };
        let mut p = state.positions[i];
        if p.state != SocialStakeState::Active {
            return Err(InstructionError::Custom(SocialStakingError::PositionNotActive.code()));
        }
        if unlock_epoch < p.activated_at_epoch.saturating_add(cooldown_epochs) {
            return Err(InstructionError::Custom(SocialStakingError::InvalidUnstakeEpoch.code()));
        }
        p.state = SocialStakeState::CoolingDown;
        p.unlock_epoch = Some(unlock_epoch);
        state.positions.set(i, p);
        Self::write_back(ctx, &state)
    }

    fn pay_out(ctx: &mut InstructionContext, vault: Pubkey, amount: u64) -> (r: Result<(), InstructionError>)
        ensures
            (r, final(ctx)@) == spec_pay_out(old(ctx)@, vault, amount),
    {
        if let Err(e) = ctx.verify_owned_account(2, vault) {
            return Err(e);
        }
        ctx.transfer_owned_lamports(2, 1, amount)
    }

    pub fn process_finalize_unstake(ctx: &mut InstructionContext, position_id: [u8; 32], current_epoch: u64) -> (r: Result<(), InstructionError>)
        ensures
            (r, final(ctx)@) == spec_finalize_unstake(old(ctx)@, position_id, current_epoch),
    {
        let staker = match ctx.signer_key(1) {
            Ok(k) => k,
            Err(e) => return Err(e),
        };
        if let Err(e) = ctx.check_number_of_instruction_accounts(3) {
            return Err(e);
        }
        let mut state = match Self::load(ctx) {
            Ok(s) => s,
            Err(e) => return Err(e),
        };
        let stake_vault = state.config.stake_vault;
        let i = match find_position(&state.positions, &position_id, Some(staker)) {
            Some(i) => i,
            None => return Err(InstructionError::Custom(SocialStakingError::PositionNotFound.code())),
        };
        let mut p = state.positions[i];
        if p.state != SocialStakeState::CoolingDown {
            return Err(InstructionError::Custom(SocialStakingError::PositionNotActive.code()));
        }
        let unlock = match p.unlock_epoch {
            Some(u) => u,
            None => u64::MAX,
        };
        if unlock > current_epoch {
            return Err(InstructionError::Custom(SocialStakingError::CooldownNotReached.code()));
        }
        let amount = p.staked_amount;
        p.state = SocialStakeState::Closed;
        state.positions.set(i, p);
        if let Err(e) = Self::write_back(ctx, &state) {
            return Err(e);
        }
        Self::pay_out(ctx, stake_vault, amount)
    }

    pub fn process_record_yield(ctx: &mut InstructionContext, record: StakeYieldRecord) -> (r: Result<(), InstructionError>)
        ensures
            (r, final(ctx)@) == spec_record_yield(old(ctx)@, record),
    {
        let authority = match ctx.signer_key(1) {
            Ok(k) => k,
            Err(e) => return Err(e),
        };
        if let Err(e) = ctx.check_number_of_instruction_accounts(2) {
            return Err(e);
        }
        let mut state = match Self::load(ctx) {
            Ok(s) => s,
            Err(e) => return Err(e),
        };
        if let Err(e) = state.ensure_authority(&authority) {
            return Err(map_err(e));
        }
        let i = match find_position(&state.positions, &record.position_id, None) {
            Some(i) => i,
            None => return Err(InstructionError::Custom(SocialStakingError::PositionNotFound.code())),
        };
        let mut p = state.positions[i];
        if p.state != SocialStakeState::Active {
            return Err(InstructionError::Custom(SocialStakingError::PositionNotActive.code()));
        }
        if record.yield_amount == 0 || record.creator != p.creator || record.staker != p.staker {
            return Err(InstructionError::Custom(SocialStakingError::InvalidYieldRecord.code()));
        }
        p.accumulated_yield = p.accumulated_yield.saturating_add(record.yield_amount);
        state.positions.set(i, p);
        state.yield_records.push(record);
        Self::write_back(ctx, &state)
    }

    pub fn process_claim_yield(ctx: &mut InstructionContext, position_id: [u8; 32], amount: u64) -> (r: Result<(), InstructionError>)
        ensures
            (r, final(ctx)@) == spec_claim_yield(old(ctx)@, position_id, amount),
    {
        let staker = match ctx.signer_key(1) {
            Ok(k) => k,
            Err(e) => return Err(e),
        };
        if let Err(e) = ctx.check_number_of_instruction_accounts(3) {
            return Err(e);
        }
        let mut state = match Self::load(ctx) {
            Ok(s) => s,
            Err(e) => return Err(e),
        };
        let reward_vault = state.config.reward_vault;
        let i = match find_position(&state.positions, &position_id, Some(staker)) {
            Some(i) => i,
            None => return Err(InstructionError::Custom(SocialStakingError::PositionNotFound.code())),
        };
        let mut p = state.positions[i];
        if p.accumulated_yield < amount || amount == 0 {
            return Err(InstructionError::Custom(SocialStakingError::NothingToClaim.code()));
        }
        p.accumulated_yield = p.accumulated_yield - amount;
        p.claimed_yield = p.claimed_yield.saturating_add(amount);
        state.positions.set(i, p);
        if let Err(e) = Self::write_back(ctx, &state) {
            return Err(e);
        }
        Self::pay_out(ctx, reward_vault, amount)
    }

    pub fn process_read(ctx: &mut InstructionContext, position_id: Option<[u8; 32]>) -> (r: Result<(), InstructionError>)
        ensures
            (r, final(ctx)@) == spec_read(old(ctx)@, position_id),
    {
        if let Err(e) = ctx.check_number_of_instruction_accounts(1) {
            return Err(e);
        }
        let state = match Self::load(ctx) {
            Ok(s) => s,
            Err(e) => return Err(e),
        };
        let out = match position_id {
            Some(id) => match find_position(&state.positions, &id, None) {
                Some(i) => {
                    let mut out = vec![1u8];
                    let body = social_stake_position_to_vec(&state.positions[i]);
                    let mut b = body;
                    out.append(&mut b);
                    assert(out@ =~= seq![1u8] + enc_social_stake_position(state@.positions[i as int]));
                    out
                },
                None => {
                    let out = vec![0u8];
                    assert(out@ =~= seq![0u8]);
                    out
                },
            },
            None => match social_staking_state_account_to_vec(&state) {
                Some(b) => b,
                None => return Err(InstructionError::InvalidAccountData),
            },
        };
        ctx.set_return_data(out);
        Ok(())
    }
}

/// The epoch from which a position may be finalized; a position without an
/// unlock epoch counts as unlocking at the last epoch.
pub open spec fn unlock_or_never(p: SocialStakePosition) -> u64 {
    match p.unlock_epoch {
        Some(u) => u,
        None => u64::MAX,
    }
}

/// A position moves only forward, Active to CoolingDown to Closed: for the
/// signer's position in a loadable state, unstaking is accepted only from
/// Active, and finalizing only from CoolingDown once the unlock epoch is
/// reached (refused before it); a closed position refuses both.
pub proof fn law_position_lifecycle(c: ContextModel, position_id: [u8; 32], unlock_epoch: u64, current_epoch: u64)
    requires
        c.accounts.len() >= 3,
        c.is_signer(1),
        spec_load(c) matches Ok(s) && has_pos(s.positions, position_id, Some(c.key(1))),
    ensures
        ({
            let s = spec_load(c)->Ok_0;
            let p = s.positions[first_pos(s.positions, position_id, Some(c.key(1)))];
            &&& spec_request_unstake(c, position_id, unlock_epoch).0 is Ok ==> p.state == SocialStakeState::Active
            &&& spec_finalize_unstake(c, position_id, current_epoch).0 is Ok ==>
                    p.state == SocialStakeState::CoolingDown && unlock_or_never(p) <= current_epoch
            &&& p.state == SocialStakeState::Closed ==>
                    spec_request_unstake(c, position_id, unlock_epoch) == (Err::<(), _>(err(SocialStakingError::PositionNotActive)), c)
                    && spec_finalize_unstake(c, position_id, current_epoch) == (Err::<(), _>(err(SocialStakingError::PositionNotActive)), c)
            &&& p.state == SocialStakeState::CoolingDown && unlock_or_never(p) > current_epoch ==>
                    spec_finalize_unstake(c, position_id, current_epoch) == (Err::<(), _>(err(SocialStakingError::CooldownNotReached)), c)
        }),
{
}

/// A claim pays out of the staker's own yield: a ClaimStakeYield of `amount`
/// that succeeds took it from a position of the signing staker with that id,
/// holding at least that much unclaimed yield. The stored state (read from
/// the front of account 0) has that position's unclaimed yield lowered by
/// `amount` and its claimed yield raised by it (their sum is kept, short of
/// overflow), every other position as it was, and the vault (account 2) has
/// paid `amount` lamports to the staker (account 1).
pub proof fn law_claim_moves_yield(c: ContextModel, position_id: [u8; 32], amount: u64)
    requires
        spec_claim_yield(c, position_id, amount).0 is Ok,
    ensures
        ({
            let c2 = spec_claim_yield(c, position_id, amount).1;
            &&& spec_decode_state(c.data(0)) matches Some(s)
            &&& dec_social_staking_state_account(c2.data(0)) matches Some((s2, _))
            &&& s2.positions.len() == s.positions.len()
            &&& exists|i: int| {
                &&& 0 <= i < s.positions.len()
                &&& s.positions[i].position_id == position_id
                &&& s.positions[i].staker == c.key(1)
                &&& 0 < amount <= s.positions[i].accumulated_yield
                &&& s2.positions[i].accumulated_yield == s.positions[i].accumulated_yield - amount
                &&& (s.positions[i].claimed_yield + amount <= u64::MAX ==>
                        s2.positions[i].claimed_yield == s.positions[i].claimed_yield + amount
                        && s2.positions[i].accumulated_yield + s2.positions[i].claimed_yield
                            == s.positions[i].accumulated_yield + s.positions[i].claimed_yield)
                &&& forall|j: int| 0 <= j < s.positions.len() && j != i ==> s2.positions[j] == s.positions[j]
            }
            &&& c2.lamports(2) == c.lamports(2) - amount
            &&& c2.lamports(1) == c.lamports(1) + amount
        }),
{
    let s = spec_decode_state(c.data(0))->Some_0;
    let staker = c.key(1);
    lemma_first_pos(s.positions, position_id, Some(staker));
    let i = first_pos(s.positions, position_id, Some(staker));
    let p = s.positions[i];
    let s2 = with_position(s, i, SocialStakePosition {
        accumulated_yield: (p.accumulated_yield - amount) as u64,
        claimed_yield: p.claimed_yield.saturating_add(amount),
        ..p
    });
    let bytes = enc_social_staking_state_account(s2);
    law_write_then_read(c, 0, bytes);
    let c1 = spec_store(c, s2).1;
    lemma_social_staking_state_account(s2, Seq::new((c.data(0).len() - bytes.len()) as nat, |k: int| 0u8));
    let c2 = spec_claim_yield(c, position_id, amount).1;
    assert(c2.accounts[0].data == c1.accounts[0].data);
    assert(c2.data(0) == c1.data(0));
    assert(s2.positions[i].accumulated_yield == s.positions[i].accumulated_yield - amount);
}

/// The state stored by a successful write of `s2` reads back from the front
/// of account 0.
proof fn lemma_stored(c: ContextModel, s2: SocialStakingStateAccountModel)
    requires
        0 < c.accounts.len(),
        spec_store(c, s2).0 is Ok,
    ensures
        dec_social_staking_state_account(spec_store(c, s2).1.data(0)) matches Some((t, _)) && t == s2,
{
    let bytes = enc_social_staking_state_account(s2);
    law_write_then_read(c, 0, bytes);
    lemma_social_staking_state_account(s2, Seq::new((c.data(0).len() - bytes.len()) as nat, |k: int| 0u8));
}

/// Recorded yield accrues to the position it names: a RecordStakeYield that
/// succeeds was signed by the configured authority and names an active
/// position of that staker and creator; in the stored state that position's
/// unclaimed yield grows by the recorded amount (short of overflow), the
/// record is appended, and every other position is as it was.
pub proof fn law_recorded_yield_accrues(c: ContextModel, record: StakeYieldRecord)
    requires
        spec_record_yield(c, record).0 is Ok,
    ensures
        ({
            let c2 = spec_record_yield(c, record).1;
            &&& spec_decode_state(c.data(0)) matches Some(s)
            &&& c.is_signer(1) && c.key(1) == s.config.authority
            &&& dec_social_staking_state_account(c2.data(0)) matches Some((s2, _))
            &&& s2.yield_records == s.yield_records.push(record)
            &&& s2.positions.len() == s.positions.len()
            &&& exists|i: int| {
                &&& 0 <= i < s.positions.len()
                &&& s.positions[i].position_id == record.position_id
                &&& s.positions[i].staker == record.staker && s.positions[i].creator == record.creator
                &&& s.positions[i].state == SocialStakeState::Active
                &&& s2.positions[i].accumulated_yield >= s.positions[i].accumulated_yield
                &&& (s.positions[i].accumulated_yield + record.yield_amount <= u64::MAX ==>
                        s2.positions[i].accumulated_yield == s.positions[i].accumulated_yield + record.yield_amount)
                &&& s2.positions[i].claimed_yield == s.positions[i].claimed_yield
                &&& s2.positions[i].staked_amount == s.positions[i].staked_amount
                &&& forall|j: int| 0 <= j < s.positions.len() && j != i ==> s2.positions[j] == s.positions[j]
            }
        }),
{
    let s = spec_decode_state(c.data(0))->Some_0;
    lemma_first_pos(s.positions, record.position_id, None);
    let i = first_pos(s.positions, record.position_id, None);
    let p = s.positions[i];
    let t = with_position(s, i, SocialStakePosition { accumulated_yield: p.accumulated_yield.saturating_add(record.yield_amount), ..p });
    let s2 = SocialStakingStateAccountModel { yield_records: t.yield_records.push(record), ..t };
    lemma_stored(c, s2);
}

/// Unstaking returns the stake once: a FinalizeUnstake that succeeds found a
/// cooling-down position of the signing staker whose unlock epoch has come (a
/// position without one counts as unlocking at the last epoch);
/// in the stored state that position is closed (nothing else about it or any
/// other position changes), and the stake vault (account 2) has paid the
/// staked amount to the staker (account 1).
pub proof fn law_finalize_returns_the_stake(c: ContextModel, position_id: [u8; 32], current_epoch: u64)
    requires
        spec_finalize_unstake(c, position_id, current_epoch).0 is Ok,
    ensures
        ({
            let c2 = spec_finalize_unstake(c, position_id, current_epoch).1;
            &&& spec_decode_state(c.data(0)) matches Some(s)
            &&& dec_social_staking_state_account(c2.data(0)) matches Some((s2, _))
            &&& s2.positions.len() == s.positions.len()
            &&& exists|i: int| {
                &&& 0 <= i < s.positions.len()
                &&& s.positions[i].position_id == position_id
                &&& s.positions[i].staker == c.key(1)
                &&& s.positions[i].state == SocialStakeState::CoolingDown
                &&& (match s.positions[i].unlock_epoch { Some(u) => u, None => u64::MAX }) <= current_epoch
                &&& s2.positions[i] == SocialStakePosition { state: SocialStakeState::Closed, ..s.positions[i] }
                &&& c2.lamports(2) == c.lamports(2) - s.positions[i].staked_amount
                &&& c2.lamports(1) == c.lamports(1) + s.positions[i].staked_amount
                &&& forall|j: int| 0 <= j < s.positions.len() && j != i ==> s2.positions[j] == s.positions[j]
            }
        }),
{
    let s = spec_decode_state(c.data(0))->Some_0;
    let staker = c.key(1);
    lemma_first_pos(s.positions, position_id, Some(staker));
    let i = first_pos(s.positions, position_id, Some(staker));
    let p = s.positions[i];
    let s2 = with_position(s, i, SocialStakePosition { state: SocialStakeState::Closed, ..p });
    lemma_stored(c, s2);
    let c1 = spec_store(c, s2).1;
    let c2 = spec_finalize_unstake(c, position_id, current_epoch).1;
    assert(c2.data(0) == c1.data(0));
    assert(s.positions[i].position_id == position_id);
    assert(s.positions[i].staker == c.key(1));
    assert((match s.positions[i].unlock_epoch { Some(u) => u, None => u64::MAX }) <= current_epoch);
    assert(s2.positions[i] == SocialStakePosition { state: SocialStakeState::Closed, ..s.positions[i] });
    assert(c2.lamports(2) == c.lamports(2) - s.positions[i].staked_amount);
    assert(c2.lamports(1) == c.lamports(1) + s.positions[i].staked_amount);
}

} // verus!
