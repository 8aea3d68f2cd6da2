//! Instruction processing of the creator rewards program.
use vstd::prelude::*;
use crate::errors::{map_err, spec_map_err, InstructionError, ProgramError};
use crate::pubkey::Pubkey;
use crate::runtime::{spec_write, ContextModel, InstructionContext};
use crate::social_rewards::state::{
    custom, find_creator_account, find_epoch_record, first_creator_account, has_creator_account,
    has_epoch_record, has_settlement, settlement_matches, spec_decode_state,
};
use vstd::arithmetic::div_mod::{lemma_div_is_ordered, lemma_div_multiples_vanish, lemma_fundamental_div_mod};
use vstd::arithmetic::mul::{lemma_mul_inequality, lemma_mul_is_distributive_add};
use crate::social_rewards::types::{
    creator_reward_account_to_vec, dec_social_rewards_instruction, enc_creator_reward_account,
    enc_reward_epoch_settlement, enc_social_rewards_state_account,
    fits_social_rewards_state_account, reward_epoch_settlement_to_vec,
    social_rewards_instruction_from_slice, social_rewards_state_account_to_vec,
    CreatorEpochInput, CreatorRewardAccount, CreatorRewardEpochRecord, RewardEpochSettlement,
    RewardSettlementInput, RewardSettlementInputModel, SocialRewardsError,
    SocialRewardsInstruction, SocialRewardsInstructionModel, SocialRewardsStateAccount,
    SocialRewardsStateAccountModel,
};

verus! {

pub open spec fn err(e: SocialRewardsError) -> InstructionError {
    InstructionError::Custom(e.spec_code())
}

/// `a * b`, or `u128::MAX` when the product does not fit.
pub open spec fn sat_mul(a: u128, b: u128) -> u128 {
    if a * b > u128::MAX { u128::MAX } else { (a * b) as u128 }
}

fn saturating_mul_u128(a: u128, b: u128) -> (r: u128)
    ensures
        r == sat_mul(a, b),
{
    match a.checked_mul(b) {
        Some(v) => v,
        None => u128::MAX,
    }
}

/// An entry's effective points: its points weighted by its reputation
/// multiplier (in basis points, at least 1), less its penalty (in basis points
/// of the weighted points).
pub open spec fn spec_effective_points(e: CreatorEpochInput) -> u128 {
    let multiplier: u16 = if e.reputation_multiplier_bps > 1 { e.reputation_multiplier_bps } else { 1 };
    let weighted = sat_mul(e.earned_points, multiplier as u128) / 10_000;
    let penalty = sat_mul(weighted, e.penalty_bps as u128) / 10_000;
    weighted.saturating_sub(penalty)
}

/// The sum of the entries' effective points, saturating at `u128::MAX`.
pub open spec fn spec_total_points(entries: Seq<CreatorEpochInput>) -> u128
    decreases entries.len(),
{
    if entries.len() == 0 {
        0
    } else {
        spec_total_points(entries.drop_last()).saturating_add(spec_effective_points(entries.last()))
    }
}

/// A creator's share of the pool: pool times effective points over the total
/// (the product saturating, the quotient truncated to 64 bits).
pub open spec fn spec_reward_amount(pool: u64, effective: u128, total: u128) -> u64 {
    (sat_mul(pool as u128, effective) / total) as u64
}

/// The state with `record` booked: its creator credited (a reward account
/// opened when there is none) and the record kept; refused when the creator
/// already has a record for that epoch.
pub open spec fn spec_apply_record(s: SocialRewardsStateAccountModel, record: CreatorRewardEpochRecord) -> Result<SocialRewardsStateAccountModel, ProgramError> {
    if has_epoch_record(s.epochs, record.epoch, record.creator) {
        Err(custom(SocialRewardsError::EpochAlreadyRecorded))
    } else {
        let creators = if has_creator_account(s.creators, record.creator) {
            let i = first_creator_account(s.creators, record.creator);
            let a = s.creators[i];
            s.creators.update(i, CreatorRewardAccount {
                total_earned: a.total_earned.saturating_add(record.reward_amount as u128),
                claimable_amount: a.claimable_amount.saturating_add(record.reward_amount),
                last_settled_epoch: record.epoch,
                ..a
            })
        } else {
            s.creators.push(CreatorRewardAccount {
                creator: record.creator,
                total_earned: record.reward_amount as u128,
                total_claimed: 0,
                claimable_amount: record.reward_amount,
                last_settled_epoch: record.epoch,
            })
        };
        Ok(SocialRewardsStateAccountModel { creators, epochs: s.epochs.push(record), ..s })
    }
}

/// The epoch record of entry `e` of a settlement.
pub open spec fn spec_entry_record(input: RewardSettlementInputModel, e: CreatorEpochInput, total: u128) -> CreatorRewardEpochRecord {
    CreatorRewardEpochRecord {
        epoch: input.epoch,
        creator: e.creator,
        earned_points: spec_effective_points(e),
        reward_amount: spec_reward_amount(input.reward_pool_amount, spec_effective_points(e), total),
        claimed_amount: 0,
        penalty_bps: e.penalty_bps,
    }
}

/// Booking the records of the first `k` entries, in order, stopping at the
/// first refusal.
pub open spec fn spec_apply_entries(s: SocialRewardsStateAccountModel, input: RewardSettlementInputModel, total: u128, k: nat) -> Result<SocialRewardsStateAccountModel, ProgramError>
    decreases k,
{
    if k == 0 {
        Ok(s)
    } else {
        match spec_apply_entries(s, input, total, (k - 1) as nat) {
            Err(e) => Err(e),
            Ok(s1) => spec_apply_record(s1, spec_entry_record(input, input.creator_entries[k - 1], total)),
        }
    }
}

/// The state after booking the first `k` entries of a settlement, stopping at
/// the first entry whose record is refused (the entries before it stay
/// booked).
pub open spec fn spec_booked(s: SocialRewardsStateAccountModel, input: RewardSettlementInputModel, total: u128, k: nat) -> SocialRewardsStateAccountModel
    decreases k,
{
    if k == 0 {
        s
    } else {
        match spec_apply_entries(s, input, total, (k - 1) as nat) {
            Err(_) => spec_booked(s, input, total, (k - 1) as nat),
            Ok(s1) => match spec_apply_record(s1, spec_entry_record(input, input.creator_entries[k - 1], total)) {
                Ok(s2) => s2,
                Err(_) => s1,
            },
        }
    }
}

/// What a refused settlement leaves in the state: the state as it was when
/// the settlement is refused before any entry is booked (rewards off, empty
/// pool or entries, epoch already settled, no effective points); otherwise
/// the entries before the refused one stay booked.
pub open spec fn spec_settle_left(s: SocialRewardsStateAccountModel, input: RewardSettlementInputModel) -> SocialRewardsStateAccountModel {
    let total = spec_total_points(input.creator_entries);
    if !s.config.rewards_enabled || input.reward_pool_amount == 0 || input.creator_entries.len() == 0
        || has_settlement(s.settlements, input.epoch) || total == 0 {
        s
    } else {
        spec_booked(s, input, total, input.creator_entries.len())
    }
}

/// Settling an epoch: every entry's share of the pool is booked and the
/// settlement recorded; refused when rewards are off, the pool or the entries
/// are empty, the epoch was settled, or no entry has effective points.
pub open spec fn spec_settle(s: SocialRewardsStateAccountModel, input: RewardSettlementInputModel) -> Result<(SocialRewardsStateAccountModel, RewardEpochSettlement), ProgramError> {
    let total = spec_total_points(input.creator_entries);
    if !s.config.rewards_enabled || input.reward_pool_amount == 0 || input.creator_entries.len() == 0 {
        Err(custom(SocialRewardsError::InvalidSettlementInput))
    } else if has_settlement(s.settlements, input.epoch) {
        Err(custom(SocialRewardsError::EpochAlreadySettled))
    } else if total == 0 {
        Err(custom(SocialRewardsError::InvalidSettlementInput))
    } else {
        match spec_apply_entries(s, input, total, input.creator_entries.len()) {
            Err(e) => Err(e),
            Ok(s2) => {
                let st = RewardEpochSettlement {
                    epoch: input.epoch,
                    reward_pool_amount: input.reward_pool_amount,
                    total_effective_points: total,
                    settled_creator_count: input.creator_entries.len() as u32,
                };
                Ok((SocialRewardsStateAccountModel { settlements: s2.settlements.push(st), ..s2 }, st))
            },
        }
    }
}

pub open spec fn spec_store(c: ContextModel, s: SocialRewardsStateAccountModel) -> (Result<(), InstructionError>, ContextModel) {
    if !fits_social_rewards_state_account(s) {
        (Err(InstructionError::InvalidAccountData), c)
    } else {
        spec_write(c, 0, enc_social_rewards_state_account(s))
    }
}

/// The state in account 0, owned by this program, decodable and initialized,
/// for an instruction signed by account 1.
pub open spec fn spec_load(c: ContextModel) -> Result<SocialRewardsStateAccountModel, InstructionError> {
    if c.accounts.len() < 2 {
        Err(InstructionError::NotEnoughAccountKeys)
    } else if !c.is_signer(1) {
        Err(InstructionError::MissingRequiredSignature)
    } else if c.owner(0) != c.program_id {
        Err(InstructionError::InvalidAccountOwner)
    } else {
        match spec_decode_state(c.data(0)) {
            None => Err(InstructionError::InvalidAccountData),
            Some(s) => if !s.is_initialized { Err(err(SocialRewardsError::Uninitialized)) } else { Ok(s) },
        }
    }
}

/// InitializeConfig: accounts `[state (w, owned), payer, authority or
/// settlement authority (s)]`; a state that does not encode is `InvalidInstructionData`.
pub open spec fn spec_initialize(c: ContextModel, state: SocialRewardsStateAccountModel) -> (Result<(), InstructionError>, ContextModel) {
    if c.accounts.len() < 3 {
        (Err(InstructionError::NotEnoughAccountKeys), c)
    } else if !c.is_signer(2) {
        (Err(InstructionError::MissingRequiredSignature), c)
    } else if c.key(2) != state.config.authority && c.key(2) != state.config.settlement_authority {
        (Err(InstructionError::IncorrectAuthority), c)
    } else if c.owner(0) != c.program_id {
        (Err(InstructionError::InvalidAccountOwner), c)
    } else if !fits_social_rewards_state_account(state) {
        (Err(InstructionError::InvalidInstructionData), c)
    } else {
        spec_write(c, 0, enc_social_rewards_state_account(state))
    }
}

pub open spec fn authorized(s: SocialRewardsStateAccountModel, k: Pubkey) -> bool {
    k == s.config.authority || k == s.config.settlement_authority
}

/// SettleRewardEpoch: accounts `[state (w), authority (s)]`; the settlement is returned.
pub open spec fn spec_settle_epoch(c: ContextModel, input: RewardSettlementInputModel) -> (Result<(), InstructionError>, ContextModel) {
    match spec_load(c) {
        Err(e) => (Err(e), c),
        Ok(s) => if !authorized(s, c.key(1)) {
            (Err(err(SocialRewardsError::Unauthorized)), c)
        } else {
            match spec_settle(s, input) {
                Err(e) => (Err(spec_map_err(e)), c),
                Ok((s2, st)) => {
                    let (r, c1) = spec_store(c, s2);
                    if r is Err { (r, c1) } else { (Ok(()), c1.with_return(enc_reward_epoch_settlement(st))) }
                },
            }
        },
    }
}

/// RecordRewardEpoch: accounts `[state (w), authority (s)]`.
pub open spec fn spec_record_epoch(c: ContextModel, record: CreatorRewardEpochRecord) -> (Result<(), InstructionError>, ContextModel) {
    match spec_load(c) {
        Err(e) => (Err(e), c),
        Ok(s) => if !authorized(s, c.key(1)) {
            (Err(err(SocialRewardsError::Unauthorized)), c)
        } else {
            match spec_apply_record(s, record) {
                Err(e) => (Err(spec_map_err(e)), c),
                Ok(s2) => spec_store(c, s2),
            }
        },
    }
}

/// ClaimCreatorReward: accounts `[state (w), creator or authority (s)]`.
pub open spec fn spec_claim(c: ContextModel, creator: Pubkey, amount: u64) -> (Result<(), InstructionError>, ContextModel) {
    match spec_load(c) {
        Err(e) => (Err(e), c),
        Ok(s) => if !s.config.rewards_enabled {
            (Err(err(SocialRewardsError::RewardsPaused)), c)
        } else if c.key(1) != creator && c.key(1) != s.config.authority {
            (Err(err(SocialRewardsError::Unauthorized)), c)
        } else if !has_creator_account(s.creators, creator) {
            (Err(err(SocialRewardsError::NothingToClaim)), c)
        } else if amount < s.config.min_claim_amount {
            (Err(err(SocialRewardsError::ClaimBelowMinimum)), c)
        } else {
            let i = first_creator_account(s.creators, creator);
            let a = s.creators[i];
            if a.claimable_amount < amount || amount == 0 {
                (Err(err(SocialRewardsError::NothingToClaim)), c)
            } else {
                spec_store(c, SocialRewardsStateAccountModel {
                    creators: s.creators.update(i, CreatorRewardAccount {
                        claimable_amount: (a.claimable_amount - amount) as u64,
                        total_claimed: a.total_claimed.saturating_add(amount as u128),
                        ..a
                    }),
                    ..s
                })
            }
        },
    }
}

pub open spec fn enc_opt_account(a: Option<CreatorRewardAccount>) -> Seq<u8> {
    match a {
        Some(v) => seq![1u8] + enc_creator_reward_account(v),
        None => seq![0u8],
    }
}

/// ReadRewardState: accounts `[state (owned)]`; returns the creator's reward
/// account (if any), or the whole state.
pub open spec fn spec_read(c: ContextModel, creator: Option<Pubkey>) -> (Result<(), InstructionError>, ContextModel) {
    if c.accounts.len() < 1 {
        (Err(InstructionError::NotEnoughAccountKeys), c)
    } else if c.owner(0) != c.program_id {
        (Err(InstructionError::InvalidAccountOwner), c)
    } else {
        match spec_decode_state(c.data(0)) {
            None => (Err(InstructionError::InvalidAccountData), c),
            Some(s) => if !s.is_initialized {
                (Err(err(SocialRewardsError::Uninitialized)), c)
            } else {
                match creator {
                    Some(k) => (Ok(()), c.with_return(enc_opt_account(
                        if has_creator_account(s.creators, k) { Some(s.creators[first_creator_account(s.creators, k)]) } else { None },
                    ))),
                    None => if !fits_social_rewards_state_account(s) {
                        (Err(InstructionError::InvalidAccountData), c)
                    } else {
                        (Ok(()), c.with_return(enc_social_rewards_state_account(s)))
                    },
                }
            },
        }
    }
}

pub open spec fn spec_process(c: ContextModel, data: Seq<u8>) -> (Result<(), InstructionError>, ContextModel) {
    match dec_social_rewards_instruction(data) {
        Some((ix, rest)) => if rest.len() != 0 {
            (Err(InstructionError::InvalidInstructionData), c)
        } else {
            match ix {
                SocialRewardsInstructionModel::InitializeConfig { state } => spec_initialize(c, state),
                SocialRewardsInstructionModel::SettleRewardEpoch { input } => spec_settle_epoch(c, input),
                SocialRewardsInstructionModel::RecordRewardEpoch { record } => spec_record_epoch(c, record),
                SocialRewardsInstructionModel::ClaimCreatorReward { creator, amount } => spec_claim(c, creator, amount),
                SocialRewardsInstructionModel::ReadRewardState { creator } => spec_read(c, creator),
            }
        },
        None => (Err(InstructionError::InvalidInstructionData), c),
    }
}

pub struct Processor;

impl Processor {
    pub fn process(ctx: &mut InstructionContext, instruction_data: &[u8]) -> (r: Result<(), InstructionError>)
        ensures
            (r, final(ctx)@) == spec_process(old(ctx)@, instruction_data@),
    {
        let instruction = match social_rewards_instruction_from_slice(instruction_data) {
            Some(ix) => ix,
            None => return Err(InstructionError::InvalidInstructionData),
        };
        match instruction {
            SocialRewardsInstruction::InitializeConfig { state } => Self::process_initialize(ctx, state),
            SocialRewardsInstruction::SettleRewardEpoch { input } => Self::process_settle_epoch(ctx, input),
            SocialRewardsInstruction::RecordRewardEpoch { record } => Self::process_record_epoch(ctx, record),
            SocialRewardsInstruction::ClaimCreatorReward { creator, amount } => Self::process_claim(ctx, creator, amount),
            SocialRewardsInstruction::ReadRewardState { creator } => Self::process_read(ctx, creator),
        }
    }

    /// How program errors are reported: a custom code is kept, any other error
    /// becomes `InvalidArgument`.
    pub fn map_program_error(error: ProgramError) -> (r: InstructionError)
        ensures
            r == spec_map_err(error),
    {
        map_err(error)
    }

    /// An entry with its effective points; see [`spec_effective_points`].
    pub fn to_effective_points(entry: &CreatorEpochInput) -> (r: (CreatorEpochInput, u128))
        ensures
            r == (*entry, spec_effective_points(*entry)),
    {
        let multiplier: u16 = if entry.reputation_multiplier_bps > 1 { entry.reputation_multiplier_bps } else { 1 };
        let multiplied = saturating_mul_u128(entry.earned_points, multiplier as u128);
        let weighted = multiplied / 10_000u128;
        let penalty = saturating_mul_u128(weighted, entry.penalty_bps as u128) / 10_000u128;
        (*entry, weighted.saturating_sub(penalty))
    }

    /// Books one epoch record; see [`spec_apply_record`].
    pub fn apply_record(state: &mut SocialRewardsStateAccount, record: CreatorRewardEpochRecord) -> (r: Result<(), ProgramError>)
        ensures
            match spec_apply_record(old(state)@, record) {
                Ok(s) => r is Ok && final(state)@ == s,
                Err(e) => r == Err::<(), ProgramError>(e) && final(state)@ == old(state)@,
            },
    {
        if find_epoch_record(&state.epochs, &record.epoch, &record.creator).is_some() {
            return Err(ProgramError::Custom(SocialRewardsError::EpochAlreadyRecorded.code()));
        }
        match find_creator_account(&state.creators, &record.creator) {
            Some(i) => {
                let mut a = state.creators[i];
                a.total_earned = a.total_earned.saturating_add(record.reward_amount as u128);
                a.claimable_amount = a.claimable_amount.saturating_add(record.reward_amount);
                a.last_settled_epoch = record.epoch;
                state.creators.set(i, a);
            },
            None => {
                state.creators.push(CreatorRewardAccount {
                    creator: record.creator,
                    total_earned: record.reward_amount as u128,
                    total_claimed: 0,
                    claimable_amount: record.reward_amount,
                    last_settled_epoch: record.epoch,
                });
            },
        }
        state.epochs.push(record);
        Ok(())
    }

    /// Settles an epoch; see [`spec_settle`].
    pub fn settle_epoch_rewards(state: &mut SocialRewardsStateAccount, input: RewardSettlementInput) -> (r: Result<RewardEpochSettlement, ProgramError>)
        ensures
            match spec_settle(old(state)@, input@) {
                Ok((s, st)) => r == Ok::<_, ProgramError>(st) && final(state)@ == s,
                Err(e) => r == Err::<RewardEpochSettlement, _>(e),
            },
            !old(state)@.config.rewards_enabled || input@.reward_pool_amount == 0 || input@.creator_entries.len() == 0
                || has_settlement(old(state)@.settlements, input@.epoch) || spec_total_points(input@.creator_entries) == 0
                ==> final(state)@ == old(state)@,
            r is Err ==> final(state)@ == spec_settle_left(old(state)@, input@),
    {
        let ghost inp = input@;
        let entries = &input.creator_entries;
        if !state.config.rewards_enabled || input.reward_pool_amount == 0 || entries.len() == 0 {
            return Err(ProgramError::Custom(SocialRewardsError::InvalidSettlementInput.code()));
        }
        if state.epoch_already_settled(input.epoch) {
            return Err(ProgramError::Custom(SocialRewardsError::EpochAlreadySettled.code()));
        }
        let mut total: u128 = 0;
        let mut k: usize = 0;
        while k < entries.len()
            invariant
                k <= entries@.len(),
                total == spec_total_points(entries@.take(k as int)),
            decreases entries@.len() - k,
        {
            assert(entries@.take(k + 1).drop_last() =~= entries@.take(k as int));
            let (_, points) = Self::to_effective_points(&entries[k]);
            total = total.saturating_add(points);
            k = k + 1;
        }
        assert(entries@.take(entries@.len() as int) =~= entries@);
        if total == 0 {
            return Err(ProgramError::Custom(SocialRewardsError::InvalidSettlementInput.code()));
        }
        let ghost start = state@;
        let mut j: usize = 0;
        while j < entries.len()
            invariant
                j <= entries@.len(),
                entries@ == inp.creator_entries,
                input@ == inp,
                inp.epoch == input.epoch,
                inp.reward_pool_amount == input.reward_pool_amount,
                total > 0,
                total == spec_total_points(inp.creator_entries),
                start == old(state)@,
                start.config.rewards_enabled,
                inp.reward_pool_amount != 0,
                !has_settlement(start.settlements, inp.epoch),
                spec_apply_entries(start, inp, total, j as nat) == Ok::<_, ProgramError>(state@),
            decreases entries@.len() - j,
        {
            let (entry, points) = Self::to_effective_points(&entries[j]);
            let product = saturating_mul_u128(input.reward_pool_amount as u128, points);
            let reward_amount = #[verifier::truncate] ((product / total) as u64);
            let record = CreatorRewardEpochRecord {
                epoch: input.epoch,
                creator: entry.creator,
                earned_points: points,
                reward_amount,
                claimed_amount: 0,
                penalty_bps: entry.penalty_bps,
            };
            assert(record == spec_entry_record(inp, inp.creator_entries[j as int], total));
            if let Err(e) = Self::apply_record(state, record) {
                assert(spec_apply_entries(start, inp, total, (j + 1) as nat) == Err::<SocialRewardsStateAccountModel, _>(e));
                proof {
                    lemma_apply_entries_stops(start, inp, total, (j + 1) as nat, entries@.len());
                    lemma_booked_stops(start, inp, total, (j + 1) as nat, entries@.len());
                }
                return Err(e);
            }
            j = j + 1;
        }
        let settlement = RewardEpochSettlement {
            epoch: input.epoch,
            reward_pool_amount: input.reward_pool_amount,
            total_effective_points: total,
            settled_creator_count: #[verifier::truncate] (entries.len() as u32),
        };
        state.settlements.push(settlement);
        Ok(settlement)
    }

    fn load(ctx: &InstructionContext) -> (r: Result<SocialRewardsStateAccount, InstructionError>)
        ensures
            r.is_ok() == spec_load(ctx@).is_ok(),
            r matches Ok(s) ==> spec_load(ctx@) == Ok::<_, InstructionError>(s@),
            r matches Err(e) ==> spec_load(ctx@) == Err::<SocialRewardsStateAccountModel, _>(e),
    {
        if let Err(e) = ctx.check_number_of_instruction_accounts(2) {
            return Err(e);
        }
        if !ctx.is_signer(1) {
            return Err(InstructionError::MissingRequiredSignature);
        }
        if ctx.owner(0) != ctx.program_id {
            return Err(InstructionError::InvalidAccountOwner);
        }
        let state = match SocialRewardsStateAccount::deserialize_padded(ctx.data(0)) {
            Ok(s) => s,
            Err(_) => return Err(InstructionError::InvalidAccountData),
        };
        if let Err(e) = state.ensure_initialized() {
            return Err(map_err(e));
        }
        Ok(state)
    }

    fn write_back(ctx: &mut InstructionContext, state: &SocialRewardsStateAccount) -> (r: Result<(), InstructionError>)
        requires
            0 < old(ctx)@.accounts.len(),
        ensures
            (r, final(ctx)@) == spec_store(old(ctx)@, state@),
    {
        match social_rewards_state_account_to_vec(state) {
            None => Err(InstructionError::InvalidAccountData),
            Some(bytes) => ctx.write_account(0, &bytes),
        }
    }

    pub fn process_initialize(ctx: &mut InstructionContext, state: SocialRewardsStateAccount) -> (r: Result<(), InstructionError>)
        ensures
            (r, final(ctx)@) == spec_initialize(old(ctx)@, state@),
    {
        if let Err(e) = ctx.check_number_of_instruction_accounts(3) {
            return Err(e);
        }
        if !ctx.is_signer(2) {
            return Err(InstructionError::MissingRequiredSignature);
        }
        let authority = ctx.key(2);
        if authority != state.config.authority && authority != state.config.settlement_authority {
            return Err(InstructionError::IncorrectAuthority);
        }
        if ctx.owner(0) != ctx.program_id {
            return Err(InstructionError::InvalidAccountOwner);
        }
        match social_rewards_state_account_to_vec(&state) {
            None => Err(InstructionError::InvalidInstructionData),
            Some(bytes) => ctx.write_account(0, &bytes),
        }
    }

    pub fn process_settle_epoch(ctx: &mut InstructionContext, input: RewardSettlementInput) -> (r: Result<(), InstructionError>)
        ensures
            (r, final(ctx)@) == spec_settle_epoch(old(ctx)@, input@),
    {
        let mut state = match Self::load(ctx) {
            Ok(s) => s,
            Err(e) => return Err(e),
        };
        if let Err(e) = state.ensure_authority(&ctx.key(1)) {
            return Err(map_err(e));
        }
        let settlement = match Self::settle_epoch_rewards(&mut state, input) {
            Ok(st) => st,
            Err(e) => return Err(map_err(e)),
        };
        if let Err(e) = Self::write_back(ctx, &state) {
            return Err(e);
        }
        ctx.set_return_data(reward_epoch_settlement_to_vec(&settlement));
        Ok(())
    }

    pub fn process_record_epoch(ctx: &mut InstructionContext, record: CreatorRewardEpochRecord) -> (r: Result<(), InstructionError>)
        ensures
            (r, final(ctx)@) == spec_record_epoch(old(ctx)@, record),
    {
        let mut state = match Self::load(ctx) {
            Ok(s) => s,
            Err(e) => return Err(e),
        };
        if let Err(e) = state.ensure_authority(&ctx.key(1)) {
            return Err(map_err(e));
        }
        if let Err(e) = Self::apply_record(&mut state, record) {
            return Err(map_err(e));
        }
        Self::write_back(ctx, &state)
    }

    pub fn process_claim(ctx: &mut InstructionContext, creator: Pubkey, amount: u64) -> (r: Result<(), InstructionError>)
        ensures
            (r, final(ctx)@) == spec_claim(old(ctx)@, creator, amount),
    {
        let mut state = match Self::load(ctx) {
            Ok(s) => s,
            Err(e) => return Err(e),
        };
        if !state.config.rewards_enabled {
            return Err(InstructionError::Custom(SocialRewardsError::RewardsPaused.code()));
        }
        let authority = ctx.key(1);
        if authority != creator && authority != state.config.authority {
            return Err(InstructionError::Custom(SocialRewardsError::Unauthorized.code()));
        }
        let i = match find_creator_account(&state.creators, &creator) {
            Some(i) => i,
            None => return Err(InstructionError::Custom(SocialRewardsError::NothingToClaim.code())),
        };
        if amount < state.config.min_claim_amount {
            return Err(InstructionError::Custom(SocialRewardsError::ClaimBelowMinimum.code()));
        }
        let mut a = state.creators[i];
        if a.claimable_amount < amount || amount == 0 {
            return Err(InstructionError::Custom(SocialRewardsError::NothingToClaim.code()));
        }
        a.claimable_amount = a.claimable_amount - amount;
        a.total_claimed = a.total_claimed.saturating_add(amount as u128);
        state.creators.set(i, a);
        Self::write_back(ctx, &state)
    }

    pub fn process_read(ctx: &mut InstructionContext, creator: Option<Pubkey>) -> (r: Result<(), InstructionError>)
        ensures
            (r, final(ctx)@) == spec_read(old(ctx)@, creator),
    {
        if let Err(e) = ctx.check_number_of_instruction_accounts(1) {
            return Err(e);
        }
        if ctx.owner(0) != ctx.program_id {
            return Err(InstructionError::InvalidAccountOwner);
        }
        let state = match SocialRewardsStateAccount::deserialize_padded(ctx.data(0)) {
            Ok(s) => s,
            Err(_) => return Err(InstructionError::InvalidAccountData),
        };
        if let Err(e) = state.ensure_initialized() {
            return Err(map_err(e));
        }
        let out = match creator {
            Some(k) => match find_creator_account(&state.creators, &k) {
                Some(i) => {
                    let mut out = vec![1u8];
                    let mut body = creator_reward_account_to_vec(&state.creators[i]);
                    out.append(&mut body);
                    assert(out@ =~= seq![1u8] + enc_creator_reward_account(state@.creators[i as int]));
                    out
                },
                None => {
                    let out = vec![0u8];
                    assert(out@ =~= seq![0u8]);
                    out
                },
            },
            None => match social_rewards_state_account_to_vec(&state) {
                Some(b) => b,
                None => return Err(InstructionError::InvalidAccountData),
            },
        };
        ctx.set_return_data(out);
        Ok(())
    }
}

/// Once booking stops at an entry, it stays stopped with the same refusal.
/// Once an entry is refused, booking further entries changes nothing.
pub proof fn lemma_booked_stops(s: SocialRewardsStateAccountModel, input: RewardSettlementInputModel, total: u128, k: nat, n: nat)
    requires
        k <= n,
        spec_apply_entries(s, input, total, k) is Err,
    ensures
        spec_booked(s, input, total, n) == spec_booked(s, input, total, k),
    decreases n - k,
{
    if k < n {
        lemma_booked_stops(s, input, total, k, (n - 1) as nat);
        lemma_apply_entries_stops(s, input, total, k, (n - 1) as nat);
    }
}

pub proof fn lemma_apply_entries_stops(s: SocialRewardsStateAccountModel, input: RewardSettlementInputModel, total: u128, k: nat, n: nat)
    requires
        k <= n,
        spec_apply_entries(s, input, total, k) is Err,
    ensures
        spec_apply_entries(s, input, total, n) == spec_apply_entries(s, input, total, k),
    decreases n - k,
{
    if k < n {
        lemma_apply_entries_stops(s, input, total, k, (n - 1) as nat);
    }
}

/// The sum of the entries' effective points, without saturation.
pub open spec fn points_sum(es: Seq<CreatorEpochInput>) -> int
    decreases es.len(),
{
    if es.len() == 0 {
        0
    } else {
        points_sum(es.drop_last()) + spec_effective_points(es.last())
    }
}

/// The sum of the records' reward amounts.
pub open spec fn rewards_sum(rs: Seq<CreatorRewardEpochRecord>) -> int
    decreases rs.len(),
{
    if rs.len() == 0 {
        0
    } else {
        rewards_sum(rs.drop_last()) + rs.last().reward_amount
    }
}

/// The records a settlement books for its first `k` entries, in order.
pub open spec fn settlement_records(input: RewardSettlementInputModel, total: u128, k: nat) -> Seq<CreatorRewardEpochRecord> {
    Seq::new(k, |i: int| spec_entry_record(input, input.creator_entries[i], total))
}

proof fn lemma_apply_entries_shape(s: SocialRewardsStateAccountModel, input: RewardSettlementInputModel, total: u128, k: nat)
    requires
        k <= input.creator_entries.len(),
        spec_apply_entries(s, input, total, k) is Ok,
    ensures
        ({
            let s2 = spec_apply_entries(s, input, total, k)->Ok_0;
            &&& s2.config == s.config
            &&& s2.settlements == s.settlements
            &&& s2.is_initialized == s.is_initialized
            &&& s2.epochs == s.epochs + settlement_records(input, total, k)
        }),
    decreases k,
{
    if k > 0 {
        lemma_apply_entries_shape(s, input, total, (k - 1) as nat);
        assert(s.epochs + settlement_records(input, total, k) =~= (s.epochs + settlement_records(input, total, (k - 1) as nat)).push(
            spec_entry_record(input, input.creator_entries[k - 1], total)));
    } else {
        assert(s.epochs + settlement_records(input, total, 0) =~= s.epochs);
    }
}

proof fn lemma_points_prefix(es: Seq<CreatorEpochInput>, k: int)
    requires
        0 <= k <= es.len(),
    ensures
        0 <= points_sum(es.take(k)) <= points_sum(es),
    decreases es.len(),
{
    if es.len() > 0 {
        if k == es.len() {
            assert(es.take(k) =~= es);
            lemma_points_prefix(es.drop_last(), k - 1);
        } else {
            assert(es.take(k) =~= es.drop_last().take(k));
            lemma_points_prefix(es.drop_last(), k);
        }
        lemma_points_prefix(es.drop_last(), 0);
    } else {
        assert(es.take(k) =~= es);
    }
}

proof fn lemma_points_exact(es: Seq<CreatorEpochInput>)
    requires
        points_sum(es) <= u128::MAX,
    ensures
        spec_total_points(es) == points_sum(es),
    decreases es.len(),
{
    if es.len() > 0 {
        lemma_points_prefix(es.drop_last(), es.len() - 1);
        assert(es.drop_last().take(es.len() - 1) =~= es.drop_last());
        lemma_points_exact(es.drop_last());
    }
}

proof fn lemma_floor_add(a: int, b: int, t: int)
    requires
        a >= 0,
        b >= 0,
        t > 0,
    ensures
        a / t + b / t <= (a + b) / t,
{
    lemma_fundamental_div_mod(a, t);
    lemma_fundamental_div_mod(b, t);
    lemma_fundamental_div_mod(a + b, t);
    let qa = a / t;
    let qb = b / t;
    let q = (a + b) / t;
    let ra = a % t;
    let rb = b % t;
    let r = (a + b) % t;
    assert(qa + qb <= q) by (nonlinear_arith)
        requires
            a == t * qa + ra,
            b == t * qb + rb,
            a + b == t * q + r,
            0 <= ra < t,
            0 <= rb < t,
            0 <= r < t,
            t > 0,
    ;
}

proof fn lemma_rewards_bounded(input: RewardSettlementInputModel, total: u128, k: nat)
    requires
        k <= input.creator_entries.len(),
        total > 0,
        points_sum(input.creator_entries) == total,
        input.reward_pool_amount * total <= u128::MAX,
    ensures
        rewards_sum(settlement_records(input, total, k))
            <= (input.reward_pool_amount * points_sum(input.creator_entries.take(k as int))) / (total as int),
    decreases k,
{
    let es = input.creator_entries;
    let pool = input.reward_pool_amount as int;
    let t = total as int;
    if k == 0 {
        assert(es.take(0) =~= Seq::<CreatorEpochInput>::empty());
        assert(settlement_records(input, total, 0) =~= Seq::<CreatorRewardEpochRecord>::empty());
        assert(pool * 0 == 0);
    } else {
        let j = k - 1;
        lemma_rewards_bounded(input, total, j as nat);
        let e = spec_effective_points(es[j]) as int;
        let pj = points_sum(es.take(j));
        assert(es.take(k as int).drop_last() =~= es.take(j));
        assert(es.take(k as int).last() == es[j]);
        assert(points_sum(es.take(k as int)) == pj + e);
        lemma_points_prefix(es, k as int);
        lemma_points_prefix(es, j);
        assert(e <= t);
        lemma_mul_inequality(e, t, pool);
        assert(pool * e == e * pool) by (nonlinear_arith);
        assert(pool * t == t * pool) by (nonlinear_arith);
        assert(pool * e <= pool * t);
        assert(sat_mul(input.reward_pool_amount as u128, spec_effective_points(es[j])) == pool * e);
        lemma_div_is_ordered(pool * e, pool * t, t);
        lemma_div_multiples_vanish(pool, t);
        assert(t * pool == pool * t) by (nonlinear_arith);
        assert((pool * e) / t <= pool);
        let recs = settlement_records(input, total, k);
        assert(recs.drop_last() =~= settlement_records(input, total, j as nat));
        assert(recs.last().reward_amount == (pool * e) / t);
        lemma_floor_add(pool * pj, pool * e, t);
        lemma_mul_is_distributive_add(pool, pj, e);
        assert(pool * pj >= 0) by (nonlinear_arith)
            requires
                pool >= 0,
                pj >= 0,
        ;
        assert(pool * e >= 0) by (nonlinear_arith)
            requires
                pool >= 0,
                e >= 0,
        ;
    }
}

/// A settlement books, for each entry in order, a record whose reward is the
/// entry's share of the pool (pool times its effective points over the total),
/// and these rewards together never exceed the pool; this holds as long as the
/// pool times the summed points stays within `u128` (beyond, the products
/// saturate).
pub proof fn law_settlement_within_pool(s: SocialRewardsStateAccountModel, input: RewardSettlementInputModel)
    requires
        spec_settle(s, input) is Ok,
        points_sum(input.creator_entries) * input.reward_pool_amount <= u128::MAX,
    ensures
        ({
            let (s2, st) = spec_settle(s, input)->Ok_0;
            let records = settlement_records(input, st.total_effective_points, input.creator_entries.len());
            &&& st.total_effective_points == points_sum(input.creator_entries)
            &&& s2.epochs == s.epochs + records
            &&& rewards_sum(records) <= input.reward_pool_amount
        }),
{
    let es = input.creator_entries;
    let pool = input.reward_pool_amount as int;
    lemma_points_prefix(es, 0);
    assert(es.take(0) =~= Seq::<CreatorEpochInput>::empty());
    assert(pool >= 1);
    assert(points_sum(es) <= points_sum(es) * pool) by (nonlinear_arith)
        requires
            pool >= 1,
            points_sum(es) >= 0,
    ;
    lemma_points_exact(es);
    let total = spec_total_points(es);
    lemma_apply_entries_shape(s, input, total, es.len());
    assert(pool * total == points_sum(es) * pool) by (nonlinear_arith)
        requires
            total == points_sum(es),
    ;
    lemma_rewards_bounded(input, total, es.len());
    assert(es.take(es.len() as int) =~= es);
    lemma_div_multiples_vanish(pool, total as int);
    assert((total as int) * pool == pool * total) by (nonlinear_arith);
}

/// An epoch is settled once: after a settlement, settling the same epoch again
/// is refused, with `EpochAlreadySettled` whenever the new input has a pool and
/// entries.
pub proof fn law_epoch_settles_once(s: SocialRewardsStateAccountModel, input: RewardSettlementInputModel, again: RewardSettlementInputModel)
    requires
        spec_settle(s, input) is Ok,
        again.epoch == input.epoch,
    ensures
        spec_settle(spec_settle(s, input)->Ok_0.0, again) is Err,
        again.reward_pool_amount != 0 && again.creator_entries.len() > 0 ==>
            spec_settle(spec_settle(s, input)->Ok_0.0, again) == Err::<(SocialRewardsStateAccountModel, RewardEpochSettlement), _>(
                custom(SocialRewardsError::EpochAlreadySettled)),
{
    let total = spec_total_points(input.creator_entries);
    lemma_apply_entries_shape(s, input, total, input.creator_entries.len());
    let (s2, st) = spec_settle(s, input)->Ok_0;
    let n = s2.settlements.len() - 1;
    assert(settlement_matches(s2.settlements[n], again.epoch));
}

} // verus!
