//! Instruction processing of the monetization program.
use vstd::prelude::*;
use crate::errors::{map_err, spec_map_err, InstructionError, ProgramError};
use crate::pubkey::Pubkey;
use crate::runtime::{and_then, law_write_then_read, spec_add_lamports, spec_sub_lamports, spec_write, ContextModel, InstructionContext};
use crate::social_monetization::state::{
    custom, find_own_subscription, find_revenue, first_own_subscription, first_revenue,
    has_own_subscription, has_revenue, has_subscription, has_tip, has_unlock, is_first_revenue,
    lemma_first_revenue, lemma_first_revenue_unique, revenue_matches, spec_decode_state,
};
use crate::social_monetization::types::{
    creator_revenue_account_to_vec, dec_social_monetization_instruction, dec_social_monetization_state_account,
    lemma_social_monetization_state_account,
    enc_creator_revenue_account, enc_social_monetization_state_account,
    fits_social_monetization_state_account, social_monetization_instruction_from_slice,
    social_monetization_state_account_to_vec, CreatorRevenueAccount, CreatorTipRecord,
    PaidContentUnlockRecord, SocialMonetizationError, SocialMonetizationInstruction,
    SocialMonetizationInstructionModel, SocialMonetizationStateAccount,
    SocialMonetizationStateAccountModel, SubscriptionRecord, SubscriptionState,
};

verus! {

pub open spec fn err(e: SocialMonetizationError) -> InstructionError {
    InstructionError::Custom(e.spec_code())
}

/// What the creator keeps of `amount` after the platform fee of `fee_bps`
/// basis points (the fee is truncated to 64 bits, the difference saturates at 0).
pub open spec fn spec_net_amount(fee_bps: u16, amount: u64) -> u64 {
    let fee = (amount * fee_bps) / 10_000;
    amount.saturating_sub(fee as u64)
}

/// The state after crediting `creator` with the net of `amount`, opening the
/// creator's revenue account when there is none.
pub open spec fn spec_credit(s: SocialMonetizationStateAccountModel, creator: Pubkey, amount: u64) -> SocialMonetizationStateAccountModel {
    let net = spec_net_amount(s.config.platform_fee_bps, amount);
    if has_revenue(s.revenues, creator) {
        let i = first_revenue(s.revenues, creator);
        let r = s.revenues[i];
        SocialMonetizationStateAccountModel {
            revenues: s.revenues.update(i, CreatorRevenueAccount {
                total_earned: r.total_earned.saturating_add(net as u128),
                claimable_amount: r.claimable_amount.saturating_add(net),
                ..r
            }),
            ..s
        }
    } else {
        SocialMonetizationStateAccountModel {
            revenues: s.revenues.push(CreatorRevenueAccount { creator, total_earned: net as u128, total_claimed: 0, claimable_amount: net }),
            ..s
        }
    }
}

pub open spec fn spec_store(c: ContextModel, s: SocialMonetizationStateAccountModel) -> (Result<(), InstructionError>, ContextModel) {
    if !fits_social_monetization_state_account(s) {
        (Err(InstructionError::InvalidAccountData), c)
    } else {
        spec_write(c, 0, enc_social_monetization_state_account(s))
    }
}

/// The state in account 0, decodable and initialized.
pub open spec fn spec_load(c: ContextModel) -> Result<SocialMonetizationStateAccountModel, InstructionError> {
    match spec_decode_state(c.data(0)) {
        None => Err(InstructionError::InvalidAccountData),
        Some(s) => if !s.is_initialized { Err(err(SocialMonetizationError::Uninitialized)) } else { Ok(s) },
    }
}

/// InitializeConfig: accounts `[state (w, owned), payer, authority (s)]`; a
/// state that does not encode is `InvalidInstructionData`.
pub open spec fn spec_initialize(c: ContextModel, state: SocialMonetizationStateAccountModel) -> (Result<(), InstructionError>, ContextModel) {
    if c.accounts.len() < 3 {
        (Err(InstructionError::NotEnoughAccountKeys), c)
    } else if !c.is_signer(2) {
        (Err(InstructionError::MissingRequiredSignature), c)
    } else if c.key(2) != state.config.authority {
        (Err(InstructionError::IncorrectAuthority), c)
    } else if c.owner(0) != c.program_id {
        (Err(InstructionError::InvalidAccountOwner), c)
    } else if !fits_social_monetization_state_account(state) {
        (Err(InstructionError::InvalidInstructionData), c)
    } else {
        spec_write(c, 0, enc_social_monetization_state_account(state))
    }
}

/// The checks every user instruction starts with: accounts `[state (w), user (s)]`.
pub open spec fn spec_user_state(c: ContextModel) -> Result<SocialMonetizationStateAccountModel, InstructionError> {
    if c.accounts.len() < 2 {
        Err(InstructionError::NotEnoughAccountKeys)
    } else if !c.is_signer(1) {
        Err(InstructionError::MissingRequiredSignature)
    } else {
        spec_load(c)
    }
}

/// SendCreatorTip: accounts `[state (w), sender (s)]`.
pub open spec fn spec_send_tip(c: ContextModel, record: CreatorTipRecord) -> (Result<(), InstructionError>, ContextModel) {
    if c.accounts.len() < 2 {
        (Err(InstructionError::NotEnoughAccountKeys), c)
    } else if !c.is_signer(1) {
        (Err(InstructionError::MissingRequiredSignature), c)
    } else if c.key(1) != record.sender {
        (Err(InstructionError::IncorrectAuthority), c)
    } else {
        match spec_load(c) {
            Err(e) => (Err(e), c),
            Ok(s) => if record.amount == 0 {
                (Err(err(SocialMonetizationError::InvalidAmount)), c)
            } else if has_tip(s.tips, record.tip_id) {
                (Err(err(SocialMonetizationError::DuplicateTip)), c)
            } else {
                spec_store(c, spec_credit(SocialMonetizationStateAccountModel { tips: s.tips.push(record), ..s }, record.creator, record.amount))
            },
        }
    }
}

/// CreateSubscription: accounts `[state (w), subscriber (s)]`.
pub open spec fn spec_create_subscription(c: ContextModel, record: SubscriptionRecord) -> (Result<(), InstructionError>, ContextModel) {
    match spec_user_state(c) {
        Err(e) => (Err(e), c),
        Ok(s) => if !s.config.subscriptions_enabled {
            (Err(err(SocialMonetizationError::SubscriptionsDisabled)), c)
        } else if c.key(1) != record.subscriber {
            (Err(InstructionError::IncorrectAuthority), c)
        } else if record.amount_per_period == 0 || record.period_seconds == 0 {
            (Err(err(SocialMonetizationError::InvalidAmount)), c)
        } else if record.valid_until_unix <= record.started_at_unix {
            (Err(err(SocialMonetizationError::InvalidSubscriptionWindow)), c)
        } else if has_subscription(s.subscriptions, record.subscription_id) {
            (Err(err(SocialMonetizationError::DuplicateSubscription)), c)
        } else {
            spec_store(c, spec_credit(
                SocialMonetizationStateAccountModel { subscriptions: s.subscriptions.push(record), ..s },
                record.creator,
                record.amount_per_period,
            ))
        },
    }
}

/// RenewSubscription: accounts `[state (w), subscriber (s)]`; the new end must
/// be later, and one more period is credited to the creator.
pub open spec fn spec_renew(c: ContextModel, subscription_id: [u8; 32], valid_until_unix: i64) -> (Result<(), InstructionError>, ContextModel) {
    match spec_user_state(c) {
        Err(e) => (Err(e), c),
        Ok(s) => if !has_own_subscription(s.subscriptions, subscription_id, c.key(1)) {
            (Err(err(SocialMonetizationError::SubscriptionNotFound)), c)
        } else {
            let i = first_own_subscription(s.subscriptions, subscription_id, c.key(1));
            let sub = s.subscriptions[i];
            if sub.state != SubscriptionState::Active {
                (Err(err(SocialMonetizationError::SubscriptionNotActive)), c)
            } else if valid_until_unix <= sub.valid_until_unix {
                (Err(err(SocialMonetizationError::InvalidSubscriptionWindow)), c)
            } else {
                let s2 = SocialMonetizationStateAccountModel {
                    subscriptions: s.subscriptions.update(i, SubscriptionRecord { valid_until_unix, state: SubscriptionState::Active, ..sub }),
                    ..s
                };
                spec_store(c, spec_credit(s2, sub.creator, sub.amount_per_period))
            }
        },
    }
}

/// CancelSubscription: accounts `[state (w), subscriber (s)]`.
pub open spec fn spec_cancel(c: ContextModel, subscription_id: [u8; 32]) -> (Result<(), InstructionError>, ContextModel) {
    match spec_user_state(c) {
        Err(e) => (Err(e), c),
        Ok(s) => if !has_own_subscription(s.subscriptions, subscription_id, c.key(1)) {
            (Err(err(SocialMonetizationError::SubscriptionNotFound)), c)
        } else {
            let i = first_own_subscription(s.subscriptions, subscription_id, c.key(1));
            let sub = s.subscriptions[i];
            if sub.state != SubscriptionState::Active {
                (Err(err(SocialMonetizationError::SubscriptionNotActive)), c)
            } else {
                spec_store(c, SocialMonetizationStateAccountModel {
                    subscriptions: s.subscriptions.update(i, SubscriptionRecord { state: SubscriptionState::Canceled, ..sub }),
                    ..s
                })
            }
        },
    }
}

/// UnlockPaidContent: accounts `[state (w), buyer (s)]`.
pub open spec fn spec_unlock(c: ContextModel, record: PaidContentUnlockRecord) -> (Result<(), InstructionError>, ContextModel) {
    match spec_user_state(c) {
        Err(e) => (Err(e), c),
        Ok(s) => if !s.config.paid_content_enabled {
            (Err(err(SocialMonetizationError::PaidContentDisabled)), c)
        } else if c.key(1) != record.buyer {
            (Err(InstructionError::IncorrectAuthority), c)
        } else if record.amount == 0 {
            (Err(err(SocialMonetizationError::InvalidAmount)), c)
        } else if has_unlock(s.unlocks, record.unlock_id) {
            (Err(err(SocialMonetizationError::DuplicateUnlock)), c)
        } else {
            spec_store(c, spec_credit(SocialMonetizationStateAccountModel { unlocks: s.unlocks.push(record), ..s }, record.creator, record.amount))
        },
    }
}

/// ClaimMonetizationPayout: accounts `[state (w), treasury (w), destination (w),
/// creator or authority (s)]`; the amount leaves the treasury for the destination.
pub open spec fn spec_claim(c: ContextModel, creator: Pubkey, amount: u64) -> (Result<(), InstructionError>, ContextModel) {
    if c.accounts.len() < 4 {
        (Err(InstructionError::NotEnoughAccountKeys), c)
    } else if !c.is_signer(3) {
        (Err(InstructionError::MissingRequiredSignature), c)
    } else {
        match spec_load(c) {
            Err(e) => (Err(e), c),
            Ok(s) => if c.key(3) != creator && c.key(3) != s.config.authority {
                (Err(err(SocialMonetizationError::Unauthorized)), c)
            } else if c.key(1) != s.config.treasury {
                (Err(InstructionError::InvalidArgument), c)
            } else if !has_revenue(s.revenues, creator) {
                (Err(err(SocialMonetizationError::NothingToClaim)), c)
            } else if amount == 0 {
                (Err(err(SocialMonetizationError::InvalidAmount)), c)
            } else {
                let i = first_revenue(s.revenues, creator);
                let r = s.revenues[i];
                if r.claimable_amount < amount {
                    (Err(err(SocialMonetizationError::NothingToClaim)), c)
                } else {
                    and_then(
                        spec_store(c, SocialMonetizationStateAccountModel {
                            revenues: s.revenues.update(i, CreatorRevenueAccount {
                                claimable_amount: (r.claimable_amount - amount) as u64,
                                total_claimed: r.total_claimed.saturating_add(amount as u128),
                                ..r
                            }),
                            ..s
                        }),
                        |c1: ContextModel| and_then(
                            spec_sub_lamports(c1, 1, amount),
                            |c2: ContextModel| spec_add_lamports(c2, 2, amount),
                        ),
                    )
                }
            },
        }
    }
}

pub open spec fn enc_opt_revenue(r: Option<CreatorRevenueAccount>) -> Seq<u8> {
    match r {
        Some(v) => seq![1u8] + enc_creator_revenue_account(v),
        None => seq![0u8],
    }
}

/// ReadMonetizationState: accounts `[state (owned)]`; returns the creator's
/// revenue account (if any), or the whole state when no creator is given.
pub open spec fn spec_read(c: ContextModel, creator: Option<Pubkey>) -> (Result<(), InstructionError>, ContextModel) {
    if c.accounts.len() < 1 {
        (Err(InstructionError::NotEnoughAccountKeys), c)
    } else if c.owner(0) != c.program_id {
        (Err(InstructionError::InvalidAccountOwner), c)
    } else {
        match spec_load(c) {
            Err(e) => (Err(e), c),
            Ok(s) => match creator {
                Some(k) => (Ok(()), c.with_return(enc_opt_revenue(
                    if has_revenue(s.revenues, k) { Some(s.revenues[first_revenue(s.revenues, k)]) } else { None },
                ))),
                None => if !fits_social_monetization_state_account(s) {
                    (Err(InstructionError::InvalidAccountData), c)
                } else {
                    (Ok(()), c.with_return(enc_social_monetization_state_account(s)))
                },
            },
        }
    }
}

pub open spec fn spec_process(c: ContextModel, data: Seq<u8>) -> (Result<(), InstructionError>, ContextModel) {
    match dec_social_monetization_instruction(data) {
        Some((ix, rest)) => if rest.len() != 0 {
            (Err(InstructionError::InvalidInstructionData), c)
        } else {
            match ix {
                SocialMonetizationInstructionModel::InitializeConfig { state } => spec_initialize(c, state),
                SocialMonetizationInstructionModel::SendCreatorTip { record } => spec_send_tip(c, record),
                SocialMonetizationInstructionModel::CreateSubscription { record } => spec_create_subscription(c, record),
                SocialMonetizationInstructionModel::RenewSubscription { subscription_id, valid_until_unix } => spec_renew(c, subscription_id, valid_until_unix),
                SocialMonetizationInstructionModel::CancelSubscription { subscription_id } => spec_cancel(c, subscription_id),
                SocialMonetizationInstructionModel::UnlockPaidContent { record } => spec_unlock(c, record),
                SocialMonetizationInstructionModel::ClaimMonetizationPayout { creator, amount } => spec_claim(c, creator, amount),
                SocialMonetizationInstructionModel::ReadMonetizationState { creator } => spec_read(c, creator),
            }
        },
        None => (Err(InstructionError::InvalidInstructionData), c),
    }
}

pub struct Processor;

impl Processor {
    pub fn process(ctx: &mut InstructionContext, instruction_data: &[u8]) -> (r: Result<(), InstructionError>)
        ensures
            (r, final(ctx)@) == spec_process(old(ctx)@, instruction_data@),
    {
        let instruction = match social_monetization_instruction_from_slice(instruction_data) {
            Some(ix) => ix,
            None => return Err(InstructionError::InvalidInstructionData),
        };
        match instruction {
            SocialMonetizationInstruction::InitializeConfig { state } => Self::process_initialize(ctx, state),
            SocialMonetizationInstruction::SendCreatorTip { record } => Self::process_send_tip(ctx, record),
            SocialMonetizationInstruction::CreateSubscription { record } => Self::process_create_subscription(ctx, record),
            SocialMonetizationInstruction::RenewSubscription { subscription_id, valid_until_unix } =>
                Self::process_renew_subscription(ctx, subscription_id, valid_until_unix),
            SocialMonetizationInstruction::CancelSubscription { subscription_id } => Self::process_cancel_subscription(ctx, subscription_id),
            SocialMonetizationInstruction::UnlockPaidContent { record } => Self::process_unlock_paid_content(ctx, record),
            SocialMonetizationInstruction::ClaimMonetizationPayout { creator, amount } => Self::process_claim(ctx, creator, amount),
            SocialMonetizationInstruction::ReadMonetizationState { creator } => Self::process_read(ctx, creator),
        }
    }

    /// How program errors are reported: a custom code is kept, any other error
    /// becomes `InvalidArgument`.
    pub fn map_program_error(error: ProgramError) -> (r: InstructionError)
        ensures
            r == spec_map_err(error),
    {
        map_err(error)
    }

    /// What the creator keeps of `amount` after the platform fee.
    pub fn creator_net_amount(state: &SocialMonetizationStateAccount, amount: u64) -> (r: u64)
        ensures
            r == spec_net_amount(state.config.platform_fee_bps, amount),
    {
        let bps = state.config.platform_fee_bps;
        assert((amount as u128) * (bps as u128) <= 0xffff_ffff_ffff_ffffu128 * 0xffffu128) by (nonlinear_arith)
            requires
                amount <= 0xffff_ffff_ffff_ffffu64,
                bps <= 0xffffu16,
        ;
        let product: u128 = (amount as u128) * (bps as u128);
        let fee: u128 = product / 10_000u128;
        amount.saturating_sub(#[verifier::truncate] (fee as u64))
    }

    /// Credits `creator` with the net of `amount`.
    pub fn credit_creator(state: &mut SocialMonetizationStateAccount, creator: Pubkey, amount: u64)
        ensures
            final(state)@ == spec_credit(old(state)@, creator, amount),
    {
        let net = Self::creator_net_amount(state, amount);
        match find_revenue(&state.revenues, &creator) {
            Some(i) => {
                let mut r = state.revenues[i];
                r.total_earned = r.total_earned.saturating_add(net as u128);
                r.claimable_amount = r.claimable_amount.saturating_add(net);
                state.revenues.set(i, r);
            },
            None => {
                state.revenues.push(CreatorRevenueAccount { creator, total_earned: net as u128, total_claimed: 0, claimable_amount: net });
            },
        }
        assert(state@.revenues =~= spec_credit(old(state)@, creator, amount).revenues);
    }

    fn load(ctx: &InstructionContext) -> (r: Result<SocialMonetizationStateAccount, InstructionError>)
        requires
            0 < ctx@.accounts.len(),
        ensures
            r.is_ok() == spec_load(ctx@).is_ok(),
            r matches Ok(s) ==> spec_load(ctx@) == Ok::<_, InstructionError>(s@),
            r matches Err(e) ==> spec_load(ctx@) == Err::<SocialMonetizationStateAccountModel, _>(e),
    {
        let state = match SocialMonetizationStateAccount::deserialize_padded(ctx.data(0)) {
            Ok(s) => s,
            Err(_) => return Err(InstructionError::InvalidAccountData),
        };
        if let Err(e) = state.ensure_initialized() {
            return Err(map_err(e));
        }
        Ok(state)
    }

    fn load_user(ctx: &InstructionContext) -> (r: Result<SocialMonetizationStateAccount, InstructionError>)
        ensures
            r.is_ok() == spec_user_state(ctx@).is_ok(),
            r matches Ok(s) ==> spec_user_state(ctx@) == Ok::<_, InstructionError>(s@),
            r matches Err(e) ==> spec_user_state(ctx@) == Err::<SocialMonetizationStateAccountModel, _>(e),
    {
        if let Err(e) = ctx.check_number_of_instruction_accounts(2) {
            return Err(e);
        }
        if !ctx.is_signer(1) {
            return Err(InstructionError::MissingRequiredSignature);
        }
        Self::load(ctx)
    }

    fn write_back(ctx: &mut InstructionContext, state: &SocialMonetizationStateAccount) -> (r: Result<(), InstructionError>)
        requires
            0 < old(ctx)@.accounts.len(),
        ensures
            (r, final(ctx)@) == spec_store(old(ctx)@, state@),
    {
        match social_monetization_state_account_to_vec(state) {
            None => Err(InstructionError::InvalidAccountData),
            Some(bytes) => ctx.write_account(0, &bytes),
        }
    }

    pub fn process_initialize(ctx: &mut InstructionContext, state: SocialMonetizationStateAccount) -> (r: Result<(), InstructionError>)
        ensures
            (r, final(ctx)@) == spec_initialize(old(ctx)@, state@),
    {
        if let Err(e) = ctx.check_number_of_instruction_accounts(3) {
            return Err(e);
        }
        if !ctx.is_signer(2) {
            return Err(InstructionError::MissingRequiredSignature);
        }
        if ctx.key(2) != state.config.authority {
            return Err(InstructionError::IncorrectAuthority);
        }
        if ctx.owner(0) != ctx.program_id {
            return Err(InstructionError::InvalidAccountOwner);
        }
        match social_monetization_state_account_to_vec(&state) {
            None => Err(InstructionError::InvalidInstructionData),
            Some(bytes) => ctx.write_account(0, &bytes),
        }
    }

    pub fn process_send_tip(ctx: &mut InstructionContext, record: CreatorTipRecord) -> (r: Result<(), InstructionError>)
        ensures
            (r, final(ctx)@) == spec_send_tip(old(ctx)@, record),
    {
        if let Err(e) = ctx.check_number_of_instruction_accounts(2) {
            return Err(e);
        }
        if !ctx.is_signer(1) {
            return Err(InstructionError::MissingRequiredSignature);
        }
        if ctx.key(1) != record.sender {
            return Err(InstructionError::IncorrectAuthority);
        }
        let mut state = match Self::load(ctx) {
            Ok(s) => s,
            Err(e) => return Err(e),
        };
        if record.amount == 0 {
            return Err(InstructionError::Custom(SocialMonetizationError::InvalidAmount.code()));
        }
        if state.tip_exists(&record.tip_id) {
            return Err(InstructionError::Custom(SocialMonetizationError::DuplicateTip.code()));
        }
        state.tips.push(record);
        Self::credit_creator(&mut state, record.creator, record.amount);
        Self::write_back(ctx, &state)
    }

    pub fn process_create_subscription(ctx: &mut InstructionContext, record: SubscriptionRecord) -> (r: Result<(), InstructionError>)
        ensures
            (r, final(ctx)@) == spec_create_subscription(old(ctx)@, record),
    {
        let mut state = match Self::load_user(ctx) {
            Ok(s) => s,
            Err(e) => return Err(e),
        };
        if !state.config.subscriptions_enabled {
            return Err(InstructionError::Custom(SocialMonetizationError::SubscriptionsDisabled.code()));
        }
        if ctx.key(1) != record.subscriber {
            return Err(InstructionError::IncorrectAuthority);
        }
        if record.amount_per_period == 0 || record.period_seconds == 0 {
            return Err(InstructionError::Custom(SocialMonetizationError::InvalidAmount.code()));
        }
        if record.valid_until_unix <= record.started_at_unix {
            return Err(InstructionError::Custom(SocialMonetizationError::InvalidSubscriptionWindow.code()));
        }
        if state.subscription_exists(&record.subscription_id) {
            return Err(InstructionError::Custom(SocialMonetizationError::DuplicateSubscription.code()));
        }
        state.subscriptions.push(record);
        Self::credit_creator(&mut state, record.creator, record.amount_per_period);
        Self::write_back(ctx, &state)
    }

    pub fn process_renew_subscription(ctx: &mut InstructionContext, subscription_id: [u8; 32], valid_until_unix: i64) -> (r: Result<(), InstructionError>)
        ensures
            (r, final(ctx)@) == spec_renew(old(ctx)@, subscription_id, valid_until_unix),
    {
        let mut state = match Self::load_user(ctx) {
            Ok(s) => s,
            Err(e) => return Err(e),
        };
        let subscriber = ctx.key(1);
        let i = match find_own_subscription(&state.subscriptions, &subscription_id, &subscriber) {
            Some(i) => i,
            None => return Err(InstructionError::Custom(SocialMonetizationError::SubscriptionNotFound.code())),
        };
        let mut sub = state.subscriptions[i];
        if sub.state != SubscriptionState::Active {
            return Err(InstructionError::Custom(SocialMonetizationError::SubscriptionNotActive.code()));
        }
        if valid_until_unix <= sub.valid_until_unix {
            return Err(InstructionError::Custom(SocialMonetizationError::InvalidSubscriptionWindow.code()));
        }
        sub.valid_until_unix = valid_until_unix;
        sub.state = SubscriptionState::Active;
        state.subscriptions.set(i, sub);
        Self::credit_creator(&mut state, sub.creator, sub.amount_per_period);
        Self::write_back(ctx, &state)
    }

    pub fn process_cancel_subscription(ctx: &mut InstructionContext, subscription_id: [u8; 32]) -> (r: Result<(), InstructionError>)
        ensures
            (r, final(ctx)@) == spec_cancel(old(ctx)@, subscription_id),
    {
        let mut state = match Self::load_user(ctx) {
            Ok(s) => s,
            Err(e) => return Err(e),
        };
        let subscriber = ctx.key(1);
        let i = match find_own_subscription(&state.subscriptions, &subscription_id, &subscriber) {
            Some(i) => i,
            None => return Err(InstructionError::Custom(SocialMonetizationError::SubscriptionNotFound.code())),
        };
        let mut sub = state.subscriptions[i];
        if sub.state != SubscriptionState::Active {
            return Err(InstructionError::Custom(SocialMonetizationError::SubscriptionNotActive.code()));
        }
        sub.state = SubscriptionState::Canceled;
        state.subscriptions.set(i, sub);
        Self::write_back(ctx, &state)
    }

    pub fn process_unlock_paid_content(ctx: &mut InstructionContext, record: PaidContentUnlockRecord) -> (r: Result<(), InstructionError>)
        ensures
            (r, final(ctx)@) == spec_unlock(old(ctx)@, record),
    {
        let mut state = match Self::load_user(ctx) {
            Ok(s) => s,
            Err(e) => return Err(e),
        };
        if !state.config.paid_content_enabled {
            return Err(InstructionError::Custom(SocialMonetizationError::PaidContentDisabled.code()));
        }
        if ctx.key(1) != record.buyer {
            return Err(InstructionError::IncorrectAuthority);
        }
        if record.amount == 0 {
            return Err(InstructionError::Custom(SocialMonetizationError::InvalidAmount.code()));
        }
        if state.unlock_exists(&record.unlock_id) {
            return Err(InstructionError::Custom(SocialMonetizationError::DuplicateUnlock.code()));
        }
        state.unlocks.push(record);
        Self::credit_creator(&mut state, record.creator, record.amount);
        Self::write_back(ctx, &state)
    }

    pub fn process_claim(ctx: &mut InstructionContext, creator: Pubkey, amount: u64) -> (r: Result<(), InstructionError>)
        ensures
            (r, final(ctx)@) == spec_claim(old(ctx)@, creator, amount),
    {
        if let Err(e) = ctx.check_number_of_instruction_accounts(4) {
            return Err(e);
        }
        if !ctx.is_signer(3) {
            return Err(InstructionError::MissingRequiredSignature);
        }
        let authority = ctx.key(3);
        let mut state = match Self::load(ctx) {
            Ok(s) => s,
            Err(e) => return Err(e),
        };
        if authority != creator && authority != state.config.authority {
            return Err(InstructionError::Custom(SocialMonetizationError::Unauthorized.code()));
        }
        if ctx.key(1) != state.config.treasury {
            return Err(InstructionError::InvalidArgument);
        }
        let i = match find_revenue(&state.revenues, &creator) {
            Some(i) => i,
            None => return Err(InstructionError::Custom(SocialMonetizationError::NothingToClaim.code())),
        };
        if amount == 0 {
            return Err(InstructionError::Custom(SocialMonetizationError::InvalidAmount.code()));
        }
        let mut r = state.revenues[i];
        if r.claimable_amount < amount {
            return Err(InstructionError::Custom(SocialMonetizationError::NothingToClaim.code()));
        }
        r.claimable_amount = r.claimable_amount - amount;
        r.total_claimed = r.total_claimed.saturating_add(amount as u128);
        state.revenues.set(i, r);
        if let Err(e) = Self::write_back(ctx, &state) {
            return Err(e);
        }
        if let Err(e) = ctx.checked_sub_lamports(1, amount) {
            return Err(e);
        }
        ctx.checked_add_lamports(2, amount)
    }

    pub fn process_read(ctx: &mut InstructionContext, creator: Option<Pubkey>) -> (r: Result<(), InstructionError>)
        ensures
            (r, final(ctx)@) == spec_read(old(ctx)@, creator),
    {
        if let Err(e) = ctx.check_number_of_instruction_accounts(1) {
            return Err(e);
        }
        if ctx.owner(0) != ctx.program_id {
            return Err(InstructionError::InvalidAccountOwner);
        }
        let state = match Self::load(ctx) {
            Ok(s) => s,
            Err(e) => return Err(e),
        };
        let out = match creator {
            Some(k) => match find_revenue(&state.revenues, &k) {
                Some(i) => {
                    let mut out = vec![1u8];
                    let mut body = creator_revenue_account_to_vec(&state.revenues[i]);
                    out.append(&mut body);
                    assert(out@ =~= seq![1u8] + enc_creator_revenue_account(state@.revenues[i as int]));
                    out
                },
                None => {
                    let out = vec![0u8];
                    assert(out@ =~= seq![0u8]);
                    out
                },
            },
            None => match social_monetization_state_account_to_vec(&state) {
                Some(b) => b,
                None => return Err(InstructionError::InvalidAccountData),
            },
        };
        ctx.set_return_data(out);
        Ok(())
    }
}

/// The platform fee only reduces what the creator keeps: the net is at most
/// the amount, equals it without a fee, and for a fee of at most 100% is the
/// amount less the truncated fee.
pub proof fn law_fee_reduces_amount(fee_bps: u16, amount: u64)
    ensures
        spec_net_amount(fee_bps, amount) <= amount,
        fee_bps == 0 ==> spec_net_amount(fee_bps, amount) == amount,
        fee_bps <= 10_000 ==> spec_net_amount(fee_bps, amount) == amount - (amount * fee_bps) / 10_000,
{
    if fee_bps <= 10_000 {
        assert((amount * fee_bps) / 10_000 <= amount) by (nonlinear_arith)
            requires
                fee_bps <= 10_000,
        ;
    }
    if fee_bps == 0 {
        assert(amount * fee_bps == 0) by (nonlinear_arith)
            requires
                fee_bps == 0,
        ;
    }
}

/// What `creator` may claim: the claimable amount of its revenue account, or
/// nothing when it has none.
pub open spec fn claimable_of(revenues: Seq<CreatorRevenueAccount>, creator: Pubkey) -> u64 {
    if has_revenue(revenues, creator) { revenues[first_revenue(revenues, creator)].claimable_amount } else { 0 }
}

/// The revenue facts of crediting `creator` with `amount`: what the creator
/// may claim grows by the amount less the platform fee (at a fee of at most
/// 100% and short of overflow) and never shrinks; every revenue account of any
/// other creator is as it was, a new account, if any, is the creator's, and
/// nothing but the revenue accounts changes.
pub open spec fn credits_creator(s: SocialMonetizationStateAccountModel, s2: SocialMonetizationStateAccountModel, creator: Pubkey, amount: u64) -> bool {
    &&& s2 == SocialMonetizationStateAccountModel { revenues: s2.revenues, ..s }
    &&& s2.revenues.len() >= s.revenues.len()
    &&& forall|j: int| 0 <= j < s.revenues.len() && s.revenues[j].creator != creator ==> s2.revenues[j] == s.revenues[j]
    &&& forall|j: int| s.revenues.len() <= j < s2.revenues.len() ==> s2.revenues[j].creator == creator
    &&& claimable_of(s2.revenues, creator) >= claimable_of(s.revenues, creator)
    &&& (s.config.platform_fee_bps <= 10_000 && claimable_of(s.revenues, creator) + amount <= u64::MAX
        ==> claimable_of(s2.revenues, creator) == claimable_of(s.revenues, creator)
            + (amount - (amount * s.config.platform_fee_bps) / 10_000))
}

/// Crediting goes to the named creator, net of the platform fee.
pub proof fn law_credit_goes_to_the_creator(s: SocialMonetizationStateAccountModel, creator: Pubkey, amount: u64)
    ensures
        credits_creator(s, spec_credit(s, creator, amount), creator, amount),
{
    let s2 = spec_credit(s, creator, amount);
    let fee = (amount * s.config.platform_fee_bps) / 10_000;
    if s.config.platform_fee_bps <= 10_000 {
        assert(fee <= amount) by (nonlinear_arith)
            requires fee == (amount * s.config.platform_fee_bps) / 10_000, s.config.platform_fee_bps <= 10_000, amount >= 0;
    }
    if has_revenue(s.revenues, creator) {
        lemma_first_revenue(s.revenues, creator);
        let i = first_revenue(s.revenues, creator);
        assert(is_first_revenue(s2.revenues, creator, i));
        lemma_first_revenue_unique(s2.revenues, creator, i);
    } else {
        let n = s.revenues.len() as int;
        assert(forall|j: int| 0 <= j < n ==> !revenue_matches(#[trigger] s.revenues[j], creator));
        assert(is_first_revenue(s2.revenues, creator, n));
        lemma_first_revenue_unique(s2.revenues, creator, n);
    }
}

/// The state stored by a successful write of `s2` reads back from the front
/// of account 0.
proof fn lemma_stored(c: ContextModel, s2: SocialMonetizationStateAccountModel)
    requires
        0 < c.accounts.len(),
        spec_store(c, s2).0 is Ok,
    ensures
        dec_social_monetization_state_account(spec_store(c, s2).1.data(0)) matches Some((t, _)) && t == s2,
{
    let bytes = enc_social_monetization_state_account(s2);
    law_write_then_read(c, 0, bytes);
    lemma_social_monetization_state_account(s2, Seq::new((c.data(0).len() - bytes.len()) as nat, |k: int| 0u8));
}

/// A tip goes to its creator: a SendCreatorTip that succeeds was signed by
/// the tip's sender, is recorded among the tips, and is credited (net of the
/// platform fee) to the tip's creator and to no other revenue account.
pub proof fn law_tip_credits_its_creator(c: ContextModel, record: CreatorTipRecord)
    requires
        spec_send_tip(c, record).0 is Ok,
    ensures
        ({
            let c2 = spec_send_tip(c, record).1;
            &&& c.is_signer(1) && c.key(1) == record.sender
            &&& spec_decode_state(c.data(0)) matches Some(s)
            &&& dec_social_monetization_state_account(c2.data(0)) matches Some((s2, _))
            &&& s2.tips == s.tips.push(record)
            &&& credits_creator(SocialMonetizationStateAccountModel { tips: s2.tips, ..s }, s2, record.creator, record.amount)
        }),
{
    let s = spec_decode_state(c.data(0))->Some_0;
    let t = SocialMonetizationStateAccountModel { tips: s.tips.push(record), ..s };
    law_credit_goes_to_the_creator(t, record.creator, record.amount);
    lemma_stored(c, spec_credit(t, record.creator, record.amount));
}

/// A paid unlock goes to the content's creator: an UnlockPaidContent that
/// succeeds was signed by the buyer, is recorded among the unlocks, and is
/// credited (net of the platform fee) to the record's creator and to no other
/// revenue account.
pub proof fn law_unlock_credits_its_creator(c: ContextModel, record: PaidContentUnlockRecord)
    requires
        spec_unlock(c, record).0 is Ok,
    ensures
        ({
            let c2 = spec_unlock(c, record).1;
            &&& c.is_signer(1) && c.key(1) == record.buyer
            &&& spec_decode_state(c.data(0)) matches Some(s)
            &&& dec_social_monetization_state_account(c2.data(0)) matches Some((s2, _))
            &&& s2.unlocks == s.unlocks.push(record)
            &&& credits_creator(SocialMonetizationStateAccountModel { unlocks: s2.unlocks, ..s }, s2, record.creator, record.amount)
        }),
{
    let s = spec_decode_state(c.data(0))->Some_0;
    let t = SocialMonetizationStateAccountModel { unlocks: s.unlocks.push(record), ..s };
    law_credit_goes_to_the_creator(t, record.creator, record.amount);
    lemma_stored(c, spec_credit(t, record.creator, record.amount));
}

/// A payout claim takes from what the creator may claim: a claim of `amount`
/// that succeeds finds at least that much claimable for the creator, lowers
/// it by `amount`, raises what was claimed by it, leaves every other revenue
/// account as it was, and moves `amount` lamports from the treasury
/// (account 1) to the destination (account 2).
pub proof fn law_claim_takes_from_the_claimable(c: ContextModel, creator: Pubkey, amount: u64)
    requires
        spec_claim(c, creator, amount).0 is Ok,
    ensures
        ({
            let c2 = spec_claim(c, creator, amount).1;
            &&& spec_decode_state(c.data(0)) matches Some(s)
            &&& dec_social_monetization_state_account(c2.data(0)) matches Some((s2, _))
            &&& s2 == SocialMonetizationStateAccountModel { revenues: s2.revenues, ..s }
            &&& s2.revenues.len() == s.revenues.len()
            &&& 0 < amount <= claimable_of(s.revenues, creator)
            &&& claimable_of(s2.revenues, creator) == claimable_of(s.revenues, creator) - amount
            &&& forall|j: int| 0 <= j < s.revenues.len() && s.revenues[j].creator != creator ==> s2.revenues[j] == s.revenues[j]
            &&& c2.lamports(1) == c.lamports(1) - amount
            &&& c2.lamports(2) == c.lamports(2) + amount
        }),
{
    let s = spec_decode_state(c.data(0))->Some_0;
    lemma_first_revenue(s.revenues, creator);
    let i = first_revenue(s.revenues, creator);
    let r = s.revenues[i];
    let s2 = SocialMonetizationStateAccountModel {
        revenues: s.revenues.update(i, CreatorRevenueAccount {
            claimable_amount: (r.claimable_amount - amount) as u64,
            total_claimed: r.total_claimed.saturating_add(amount as u128),
            ..r
        }),
        ..s
    };
    lemma_stored(c, s2);
    assert(is_first_revenue(s2.revenues, creator, i));
    lemma_first_revenue_unique(s2.revenues, creator, i);
    let c1 = spec_store(c, s2).1;
    let c2 = spec_claim(c, creator, amount).1;
    assert(c2.data(0) == c1.data(0));
}

} // verus!
