//! Instruction processing of the anti-spam program.
use vstd::prelude::*;
use crate::errors::{map_err, spec_map_err, InstructionError, ProgramError};
use crate::pubkey::Pubkey;
use crate::runtime::{spec_write, ContextModel, InstructionContext};
use crate::social_anti_spam::state::{
    custom, empty_profile, find_profile, first_profile, has_profile, spec_decode_state,
    spec_get_or_insert,
};
use crate::social_anti_spam::types::{
    anti_spam_profile_to_vec, dec_social_anti_spam_instruction, enc_anti_spam_profile,
    enc_social_anti_spam_state_account, fits_social_anti_spam_state_account,
    social_anti_spam_instruction_from_slice, social_anti_spam_state_account_to_vec,
    AntiSpamMode, AntiSpamProfile, SocialAntiSpamError, SocialAntiSpamInstruction,
    SocialAntiSpamInstructionModel, SocialAntiSpamStateAccount, SocialAntiSpamStateAccountModel,
};

verus! {

/// A change the authority makes to one wallet's profile.
#[derive(Clone, Copy, Debug, PartialEq, Eq)]
pub enum ProfileUpdate {
    /// One more spam flag, at the given time.
    Flag(i64),
    /// Gate the wallet until the given epoch.
    ApplyCooldown(u64),
    /// Lift the cooldown.
    ClearCooldown,
    /// Slash: one more slash and flag, gated for the configured cooldown
    /// (only in `PenaltyEnabled` mode).
    Penalty,
}

/// Why a wallet may not post or engage now, in the order checked: a cooldown still
/// running on its profile, then the configured mode's threshold.
pub open spec fn spec_evaluate_eligibility(
    s: SocialAntiSpamStateAccountModel,
    wallet: Pubkey,
    current_epoch: u64,
    reputation_score: u16,
    staked_amount: u64,
) -> Result<(), ProgramError> {
    if has_profile(s.profiles, wallet) && (match s.profiles[first_profile(s.profiles, wallet)].gated_until_epoch {
        Some(e) => e,
        None => 0,
    }) > current_epoch {
        Err(custom(SocialAntiSpamError::CooldownActive))
    } else {
        match s.config.mode {
            AntiSpamMode::ObserveOnly => Ok(()),
            AntiSpamMode::GateByReputation | AntiSpamMode::PenaltyEnabled => if reputation_score < s.config.min_post_reputation {
                Err(custom(SocialAntiSpamError::ReputationTooLow))
            } else {
                Ok(())
            },
            AntiSpamMode::GateByStake => if staked_amount < s.config.min_post_stake {
                Err(custom(SocialAntiSpamError::StakeTooLow))
            } else {
                Ok(())
            },
        }
    }
}

/// The state after the authority applies `update` to `wallet`'s profile
/// (created empty when missing), or why it is refused.
/// The state after one more slash and flag for `wallet`, gated until the
/// configured cooldown epoch (the profile is created if missing).
pub open spec fn spec_penalize(s: SocialAntiSpamStateAccountModel, wallet: Pubkey) -> SocialAntiSpamStateAccountModel {
    let (s1, i) = spec_get_or_insert(s, wallet);
    let p = s1.profiles[i];
    let p2 = AntiSpamProfile {
        slash_count: p.slash_count.saturating_add(1),
        spam_flags: p.spam_flags.saturating_add(1),
        gated_until_epoch: Some(s.config.cooldown_epochs),
        ..p
    };
    SocialAntiSpamStateAccountModel { profiles: s1.profiles.update(i, p2), ..s1 }
}

pub open spec fn spec_apply_update(s: SocialAntiSpamStateAccountModel, authority: Pubkey, wallet: Pubkey, update: ProfileUpdate) -> Result<SocialAntiSpamStateAccountModel, ProgramError> {
    if authority != s.config.authority {
        Err(custom(SocialAntiSpamError::Unauthorized))
    } else if update == ProfileUpdate::Penalty && s.config.mode != AntiSpamMode::PenaltyEnabled {
        Err(custom(SocialAntiSpamError::NotAllowedByMode))
    } else {
        let (s1, i) = spec_get_or_insert(s, wallet);
        let p = s1.profiles[i];
        let p2 = match update {
            ProfileUpdate::Flag(t) => AntiSpamProfile { spam_flags: p.spam_flags.saturating_add(1), last_flagged_at_unix: Some(t), ..p },
            ProfileUpdate::ApplyCooldown(e) => AntiSpamProfile { gated_until_epoch: Some(e), ..p },
            ProfileUpdate::ClearCooldown => AntiSpamProfile { gated_until_epoch: None, ..p },
            ProfileUpdate::Penalty => AntiSpamProfile {
                slash_count: p.slash_count.saturating_add(1),
                spam_flags: p.spam_flags.saturating_add(1),
                gated_until_epoch: Some(s.config.cooldown_epochs),
                ..p
            },
        };
        Ok(SocialAntiSpamStateAccountModel { profiles: s1.profiles.update(i, p2), ..s1 })
    }
}

/// InitializeConfig: accounts `[state (w, owned), payer, authority (s)]`; a
/// state that does not encode is `InvalidInstructionData`.
pub open spec fn spec_initialize(c: ContextModel, state: SocialAntiSpamStateAccountModel) -> (Result<(), InstructionError>, ContextModel) {
    if c.accounts.len() < 3 {
        (Err(InstructionError::NotEnoughAccountKeys), c)
    } else if !c.is_signer(2) {
        (Err(InstructionError::MissingRequiredSignature), c)
    } else if c.key(2) != state.config.authority {
        (Err(InstructionError::IncorrectAuthority), c)
    } else if c.owner(0) != c.program_id {
        (Err(InstructionError::InvalidAccountOwner), c)
    } else if !fits_social_anti_spam_state_account(state) {
        (Err(InstructionError::InvalidInstructionData), c)
    } else {
        spec_write(c, 0, enc_social_anti_spam_state_account(state))
    }
}

/// The state in account 0, owned by this program, decodable and initialized.
pub open spec fn spec_load_owned(c: ContextModel) -> Result<SocialAntiSpamStateAccountModel, InstructionError> {
    if c.owner(0) != c.program_id {
        Err(InstructionError::InvalidAccountOwner)
    } else {
        match spec_decode_state(c.data(0)) {
            None => Err(InstructionError::InvalidAccountData),
            Some(s) => if !s.is_initialized { Err(spec_map_err(custom(SocialAntiSpamError::Uninitialized))) } else { Ok(s) },
        }
    }
}

/// CheckPost/EngagementEligibility: accounts `[state]`; returns `true`
/// (encoded) when the wallet may act, and fails with the reason otherwise.
pub open spec fn spec_check(c: ContextModel, wallet: Pubkey, current_epoch: u64, reputation_score: u16, staked_amount: u64) -> (Result<(), InstructionError>, ContextModel) {
    if c.accounts.len() < 1 {
        (Err(InstructionError::NotEnoughAccountKeys), c)
    } else {
        match spec_load_owned(c) {
            Err(e) => (Err(e), c),
            Ok(s) => match spec_evaluate_eligibility(s, wallet, current_epoch, reputation_score, staked_amount) {
                Err(e) => (Err(spec_map_err(e)), c),
                Ok(_) => (Ok(()), c.with_return(seq![1u8])),
            },
        }
    }
}

/// Flag / ApplyCooldown / ClearCooldown / ApplySpamPenalty: accounts
/// `[state (w), authority (s)]`.
pub open spec fn spec_mutate(c: ContextModel, wallet: Pubkey, update: ProfileUpdate) -> (Result<(), InstructionError>, ContextModel) {
    if c.accounts.len() < 2 {
        (Err(InstructionError::NotEnoughAccountKeys), c)
    } else if !c.is_signer(1) {
        (Err(InstructionError::MissingRequiredSignature), c)
    } else {
        match spec_decode_state(c.data(0)) {
            None => (Err(InstructionError::InvalidAccountData), c),
            Some(s) => if !s.is_initialized {
                (Err(spec_map_err(custom(SocialAntiSpamError::Uninitialized))), c)
            } else {
                match spec_apply_update(s, c.key(1), wallet, update) {
                    Err(e) => (Err(spec_map_err(e)), c),
                    Ok(s2) => if !fits_social_anti_spam_state_account(s2) {
                        (Err(InstructionError::InvalidAccountData), c)
                    } else {
                        spec_write(c, 0, enc_social_anti_spam_state_account(s2))
                    },
                }
            },
        }
    }
}

pub open spec fn enc_opt_profile(p: Option<AntiSpamProfile>) -> Seq<u8> {
    match p {
        Some(v) => seq![1u8] + enc_anti_spam_profile(v),
        None => seq![0u8],
    }
}

/// ReadAntiSpamProfile: accounts `[state]`; returns the wallet's profile (if
/// any), or the whole state when no wallet is given.
pub open spec fn spec_read(c: ContextModel, wallet: Option<Pubkey>) -> (Result<(), InstructionError>, ContextModel) {
    if c.accounts.len() < 1 {
        (Err(InstructionError::NotEnoughAccountKeys), c)
    } else {
        match spec_load_owned(c) {
            Err(e) => (Err(e), c),
            Ok(s) => match wallet {
                Some(w) => (Ok(()), c.with_return(enc_opt_profile(
                    if has_profile(s.profiles, w) { Some(s.profiles[first_profile(s.profiles, w)]) } else { None },
                ))),
                None => if !fits_social_anti_spam_state_account(s) {
                    (Err(InstructionError::InvalidAccountData), c)
                } else {
                    (Ok(()), c.with_return(enc_social_anti_spam_state_account(s)))
                },
            },
        }
    }
}

pub open spec fn spec_process(c: ContextModel, data: Seq<u8>) -> (Result<(), InstructionError>, ContextModel) {
    match dec_social_anti_spam_instruction(data) {
        Some((ix, rest)) => if rest.len() != 0 {
            (Err(InstructionError::InvalidInstructionData), c)
        } else {
            match ix {
                SocialAntiSpamInstructionModel::InitializeConfig { state } => spec_initialize(c, state),
                SocialAntiSpamInstructionModel::CheckPostEligibility { wallet, current_epoch, reputation_score, staked_amount } =>
                    spec_check(c, wallet, current_epoch, reputation_score, staked_amount),
                SocialAntiSpamInstructionModel::CheckEngagementEligibility { wallet, current_epoch, reputation_score, staked_amount } =>
                    spec_check(c, wallet, current_epoch, reputation_score, staked_amount),
                SocialAntiSpamInstructionModel::FlagSpamBehavior { wallet, timestamp } => spec_mutate(c, wallet, ProfileUpdate::Flag(timestamp)),
                SocialAntiSpamInstructionModel::ApplyCooldown { wallet, gated_until_epoch } => spec_mutate(c, wallet, ProfileUpdate::ApplyCooldown(gated_until_epoch)),
                SocialAntiSpamInstructionModel::ClearCooldown { wallet } => spec_mutate(c, wallet, ProfileUpdate::ClearCooldown),
                SocialAntiSpamInstructionModel::ApplySpamPenalty { wallet } => spec_mutate(c, wallet, ProfileUpdate::Penalty),
                SocialAntiSpamInstructionModel::ReadAntiSpamProfile { wallet } => spec_read(c, wallet),
            }
        },
        None => (Err(InstructionError::InvalidInstructionData), c),
    }
}

pub struct Processor;

impl Processor {
    pub fn process(ctx: &mut InstructionContext, instruction_data: &[u8]) -> (r: Result<(), InstructionError>)
        ensures
            (r, final(ctx)@) == spec_process(old(ctx)@, instruction_data@),
    {
        let instruction = match social_anti_spam_instruction_from_slice(instruction_data) {
            Some(ix) => ix,
            None => return Err(InstructionError::InvalidInstructionData),
        };
        match instruction {
            SocialAntiSpamInstruction::InitializeConfig { state } => Self::process_initialize(ctx, state),
            SocialAntiSpamInstruction::CheckPostEligibility { wallet, current_epoch, reputation_score, staked_amount } =>
                Self::process_check(ctx, wallet, current_epoch, reputation_score, staked_amount),
            SocialAntiSpamInstruction::CheckEngagementEligibility { wallet, current_epoch, reputation_score, staked_amount } =>
                Self::process_check(ctx, wallet, current_epoch, reputation_score, staked_amount),
            SocialAntiSpamInstruction::FlagSpamBehavior { wallet, timestamp } => Self::process_flag(ctx, wallet, timestamp),
            SocialAntiSpamInstruction::ApplyCooldown { wallet, gated_until_epoch } => Self::process_apply_cooldown(ctx, wallet, gated_until_epoch),
            SocialAntiSpamInstruction::ClearCooldown { wallet } => Self::process_clear_cooldown(ctx, wallet),
            SocialAntiSpamInstruction::ApplySpamPenalty { wallet } => Self::process_apply_penalty(ctx, wallet),
            SocialAntiSpamInstruction::ReadAntiSpamProfile { wallet } => Self::process_read(ctx, wallet),
        }
    }

    /// How program errors are reported: a custom code is kept, any other error
    /// becomes `InvalidArgument`.
    pub fn map_program_error(error: ProgramError) -> (r: InstructionError)
        ensures
            r == spec_map_err(error),
    {
        map_err(error)
    }

    pub fn process_initialize(ctx: &mut InstructionContext, state: SocialAntiSpamStateAccount) -> (r: Result<(), InstructionError>)
        ensures
            (r, final(ctx)@) == spec_initialize(old(ctx)@, state@),
    {
        if let Err(e) = ctx.check_number_of_instruction_accounts(3) {
            return Err(e);
        }
        if !ctx.is_signer(2) {
            return Err(InstructionError::MissingRequiredSignature);
        }
        if ctx.key(2) != state.config.authority {
            return Err(InstructionError::IncorrectAuthority);
        }
        if ctx.owner(0) != ctx.program_id {
            return Err(InstructionError::InvalidAccountOwner);
        }
        match social_anti_spam_state_account_to_vec(&state) {
            None => Err(InstructionError::InvalidInstructionData),
            Some(bytes) => ctx.write_account(0, &bytes),
        }
    }

    fn load_owned(ctx: &InstructionContext) -> (r: Result<SocialAntiSpamStateAccount, InstructionError>)
        requires
            0 < ctx@.accounts.len(),
        ensures
            r.is_ok() == spec_load_owned(ctx@).is_ok(),
            r matches Ok(s) ==> spec_load_owned(ctx@) == Ok::<_, InstructionError>(s@),
            r matches Err(e) ==> spec_load_owned(ctx@) == Err::<SocialAntiSpamStateAccountModel, _>(e),
    {
        if ctx.owner(0) != ctx.program_id {
            return Err(InstructionError::InvalidAccountOwner);
        }
        let state = match SocialAntiSpamStateAccount::deserialize_padded(ctx.data(0)) {
            Ok(s) => s,
            Err(_) => return Err(InstructionError::InvalidAccountData),
        };
        if let Err(e) = state.ensure_initialized() {
            return Err(map_err(e));
        }
        Ok(state)
    }

    /// The eligibility rules; see [`spec_evaluate_eligibility`].
    pub fn evaluate_eligibility(
        state: &SocialAntiSpamStateAccount,
        wallet: Pubkey,
        current_epoch: u64,
        reputation_score: u16,
        staked_amount: u64,
    ) -> (r: Result<(), ProgramError>)
        ensures
            r == spec_evaluate_eligibility(state@, wallet, current_epoch, reputation_score, staked_amount),
    {
        if let Some(profile) = state.profile_for_wallet(&wallet) {
            let gated = match profile.gated_until_epoch {
                Some(e) => e,
                None => 0,
            };
            if gated > current_epoch {
                return Err(ProgramError::Custom(SocialAntiSpamError::CooldownActive.code()));
            }
        }
        match state.config.mode {
            AntiSpamMode::ObserveOnly => Ok(()),
            AntiSpamMode::GateByReputation | AntiSpamMode::PenaltyEnabled => {
                if reputation_score < state.config.min_post_reputation {
                    Err(ProgramError::Custom(SocialAntiSpamError::ReputationTooLow.code()))
                } else {
                    Ok(())
                }
            },
            AntiSpamMode::GateByStake => {
                if staked_amount < state.config.min_post_stake {
                    Err(ProgramError::Custom(SocialAntiSpamError::StakeTooLow.code()))
                } else {
                    Ok(())
                }
            },
        }
    }

    pub fn process_check(
        ctx: &mut InstructionContext,
        wallet: Pubkey,
        current_epoch: u64,
        reputation_score: u16,
        staked_amount: u64,
    ) -> (r: Result<(), InstructionError>)
        ensures
            (r, final(ctx)@) == spec_check(old(ctx)@, wallet, current_epoch, reputation_score, staked_amount),
    {
        if let Err(e) = ctx.check_number_of_instruction_accounts(1) {
            return Err(e);
        }
        let state = match Self::load_owned(ctx) {
            Ok(s) => s,
            Err(e) => return Err(e),
        };
        if let Err(e) = Self::evaluate_eligibility(&state, wallet, current_epoch, reputation_score, staked_amount) {
            return Err(map_err(e));
        }
        let out = vec![1u8];
        assert(out@ =~= seq![1u8]);
        ctx.set_return_data(out);
        Ok(())
    }

    /// Finds `wallet`'s profile, appending an empty one when there is none.
    pub fn get_or_insert_profile(state: &mut SocialAntiSpamStateAccount, wallet: Pubkey) -> (r: usize)
        ensures
            (final(state)@, r as int) == spec_get_or_insert(old(state)@, wallet),
            r < final(state)@.profiles.len(),
    {
        match find_profile(&state.profiles, &wallet) {
            Some(i) => i,
            None => {
                state.profiles.push(AntiSpamProfile {
                    wallet,
                    post_count_window: 0,
                    engagement_count_window: 0,
                    spam_flags: 0,
                    gated_until_epoch: None,
                    slash_count: 0,
                    last_flagged_at_unix: None,
                });
                assert(state@.profiles =~= spec_get_or_insert(old(state)@, wallet).0.profiles);
                state.profiles.len() - 1
            },
        }
    }

    /// One more slash and flag for `wallet`, gated for the configured cooldown.
    pub fn apply_penalty_to_profile(state: &mut SocialAntiSpamStateAccount, wallet: Pubkey)
        ensures
            final(state)@ == spec_penalize(old(state)@, wallet),
    {
        let cooldown_epochs = state.config.cooldown_epochs;
        let i = Self::get_or_insert_profile(state, wallet);
        let mut p = state.profiles[i];
        p.slash_count = p.slash_count.saturating_add(1);
        p.spam_flags = p.spam_flags.saturating_add(1);
        p.gated_until_epoch = Some(cooldown_epochs);
        state.profiles.set(i, p);
    }

    fn apply_update(state: &mut SocialAntiSpamStateAccount, authority: Pubkey, wallet: Pubkey, update: ProfileUpdate) -> (r: Result<(), ProgramError>)
        ensures
            match spec_apply_update(old(state)@, authority, wallet, update) {
                Ok(s) => r is Ok && final(state)@ == s,
                Err(e) => r == Err::<(), ProgramError>(e),
            },
    {
        if let Err(e) = state.ensure_authority(&authority) {
            return Err(e);
        }
        match update {
            ProfileUpdate::Penalty => {
                if state.config.mode != AntiSpamMode::PenaltyEnabled {
                    return Err(ProgramError::Custom(SocialAntiSpamError::NotAllowedByMode.code()));
                }
                Self::apply_penalty_to_profile(state, wallet);
            },
            _ => {
                let i = Self::get_or_insert_profile(state, wallet);
                let mut p = state.profiles[i];
                match update {
                    ProfileUpdate::Flag(t) => {
                        p.spam_flags = p.spam_flags.saturating_add(1);
                        p.last_flagged_at_unix = Some(t);
                    },
                    ProfileUpdate::ApplyCooldown(e) => {
                        p.gated_until_epoch = Some(e);
                    },
                    _ => {
                        p.gated_until_epoch = None;
                    },
                }
                state.profiles.set(i, p);
            },
        }
        Ok(())
    }

    /// Loads the state, applies `update` signed by account 1, and stores it.
    pub fn mutate_profile(ctx: &mut InstructionContext, wallet: Pubkey, update: ProfileUpdate) -> (r: Result<(), InstructionError>)
        ensures
            (r, final(ctx)@) == spec_mutate(old(ctx)@, wallet, update),
    {
        if let Err(e) = ctx.check_number_of_instruction_accounts(2) {
            return Err(e);
        }
        if !ctx.is_signer(1) {
            return Err(InstructionError::MissingRequiredSignature);
        }
        let authority = ctx.key(1);
        let mut state = match SocialAntiSpamStateAccount::deserialize_padded(ctx.data(0)) {
            Ok(s) => s,
            Err(_) => return Err(InstructionError::InvalidAccountData),
        };
        if let Err(e) = state.ensure_initialized() {
            return Err(map_err(e));
        }
        if let Err(e) = Self::apply_update(&mut state, authority, wallet, update) {
            return Err(map_err(e));
        }
        match social_anti_spam_state_account_to_vec(&state) {
            None => Err(InstructionError::InvalidAccountData),
            Some(bytes) => ctx.write_account(0, &bytes),
        }
    }

    pub fn process_flag(ctx: &mut InstructionContext, wallet: Pubkey, timestamp: i64) -> (r: Result<(), InstructionError>)
        ensures
            (r, final(ctx)@) == spec_mutate(old(ctx)@, wallet, ProfileUpdate::Flag(timestamp)),
    {
        Self::mutate_profile(ctx, wallet, ProfileUpdate::Flag(timestamp))
    }

    pub fn process_apply_cooldown(ctx: &mut InstructionContext, wallet: Pubkey, gated_until_epoch: u64) -> (r: Result<(), InstructionError>)
        ensures
            (r, final(ctx)@) == spec_mutate(old(ctx)@, wallet, ProfileUpdate::ApplyCooldown(gated_until_epoch)),
    {
        Self::mutate_profile(ctx, wallet, ProfileUpdate::ApplyCooldown(gated_until_epoch))
    }

    pub fn process_clear_cooldown(ctx: &mut InstructionContext, wallet: Pubkey) -> (r: Result<(), InstructionError>)
        ensures
            (r, final(ctx)@) == spec_mutate(old(ctx)@, wallet, ProfileUpdate::ClearCooldown),
    {
        Self::mutate_profile(ctx, wallet, ProfileUpdate::ClearCooldown)
    }

    pub fn process_apply_penalty(ctx: &mut InstructionContext, wallet: Pubkey) -> (r: Result<(), InstructionError>)
        ensures
            (r, final(ctx)@) == spec_mutate(old(ctx)@, wallet, ProfileUpdate::Penalty),
    {
        Self::mutate_profile(ctx, wallet, ProfileUpdate::Penalty)
    }

    pub fn process_read(ctx: &mut InstructionContext, wallet: Option<Pubkey>) -> (r: Result<(), InstructionError>)
        ensures
            (r, final(ctx)@) == spec_read(old(ctx)@, wallet),
    {
        if let Err(e) = ctx.check_number_of_instruction_accounts(1) {
            return Err(e);
        }
        let state = match Self::load_owned(ctx) {
            Ok(s) => s,
            Err(e) => return Err(e),
        };
        let out = match wallet {
            Some(w) => match find_profile(&state.profiles, &w) {
                Some(i) => {
                    let mut out = vec![1u8];
                    let mut body = anti_spam_profile_to_vec(&state.profiles[i]);
                    out.append(&mut body);
                    assert(out@ =~= seq![1u8] + enc_anti_spam_profile(state@.profiles[i as int]));
                    out
                },
                None => {
                    let out = vec![0u8];
                    assert(out@ =~= seq![0u8]);
                    out
                },
            },
            None => match social_anti_spam_state_account_to_vec(&state) {
                Some(b) => b,
                None => return Err(InstructionError::InvalidAccountData),
            },
        };
        ctx.set_return_data(out);
        Ok(())
    }
}

/// A wallet under a running cooldown is refused until the cooldown's end
/// epoch: while the current epoch is before it, every eligibility check fails
/// with `CooldownActive`, whatever its reputation or stake.
pub proof fn law_cooldown_blocks_until_epoch(
    s: SocialAntiSpamStateAccountModel,
    wallet: Pubkey,
    current_epoch: u64,
    reputation_score: u16,
    staked_amount: u64,
)
    requires
        has_profile(s.profiles, wallet),
        s.profiles[first_profile(s.profiles, wallet)].gated_until_epoch matches Some(e) && e > current_epoch,
    ensures
        spec_evaluate_eligibility(s, wallet, current_epoch, reputation_score, staked_amount)
            == Err::<(), _>(custom(SocialAntiSpamError::CooldownActive)),
{
}

/// Without a running cooldown, observe-only mode lets every wallet through.
pub proof fn law_observe_only_admits(
    s: SocialAntiSpamStateAccountModel,
    wallet: Pubkey,
    current_epoch: u64,
    reputation_score: u16,
    staked_amount: u64,
)
    requires
        s.config.mode == AntiSpamMode::ObserveOnly,
        !has_profile(s.profiles, wallet) || (match s.profiles[first_profile(s.profiles, wallet)].gated_until_epoch {
            Some(e) => e <= current_epoch,
            None => true,
        }),
    ensures
        spec_evaluate_eligibility(s, wallet, current_epoch, reputation_score, staked_amount) is Ok,
{
}

} // verus!
