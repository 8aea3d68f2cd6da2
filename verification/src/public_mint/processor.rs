//! Instruction processing of the public-mint program.
//!
//! A public mint ends in a call into the token program. [`Processor::process`]
//! does everything before that call and hands it back as a [`ProcessStep`];
//! the caller makes the call and passes its outcome to
//! [`Processor::complete_public_mint`], which stores the state.
use vstd::prelude::*;
use crate::errors::{spec_map_err, InstructionError, ProgramError};
use crate::public_mint::state::spec_decide_mint;
use crate::public_mint::state::decide_public_mint;
use crate::public_mint::types::{
    dec_public_mint_instruction, dec_public_mint_state, enc_public_mint_state,
    enc_wallet_mint_window, fits_public_mint_state, lemma_public_mint_state, public_mint_instruction_from_slice,
    public_mint_state_to_vec, wallet_mint_window_to_vec, PublicMintError, PublicMintInstruction,
    PublicMintInstructionModel, PublicMintPolicy, PublicMintState, PublicMintStateModel,
};
use crate::public_mint::{MAX_ALLOWLISTED_WALLETS, MAX_BLOCKLISTED_WALLETS};
use crate::pubkey::{contains_key, remove_key, spec_zero_pubkey, without_key, Pubkey};
use crate::runtime::{and_then, spec_write, AccountMeta, ContextModel, Instruction, InstructionContext};
use crate::token20::instruction::mint_public_to;
use crate::token20::types::{dec_aeko20_account, enc_token20_instruction, Aeko20Account, Token20InstructionModel};

verus! {

/// What the public mint reads from the tokenomics account: the program that
/// owns such accounts, and the default monthly social subsidy cap the account
/// holds (`None` when its data does not decode).
#[derive(Clone, Copy, Debug)]
pub struct TokenomicsView {
    pub program_id: Pubkey,
    pub subsidy_cap: Option<u128>,
}

/// A public mint the policy accepted: the token program's `MintPublicTo`
/// instruction, the key that signs it, and, for once it succeeded, the state to
/// store and the updated wallet window to return.
#[derive(Debug)]
pub struct PublicMintPlan {
    pub instruction: Instruction,
    pub signer: Pubkey,
    pub serialized_state: Vec<u8>,
    pub return_data: Vec<u8>,
}

/// Mathematical model of [`PublicMintPlan`].
pub struct PublicMintPlanModel {
    pub instruction_program: Pubkey,
    pub instruction_accounts: Seq<AccountMeta>,
    pub instruction_data: Seq<u8>,
    pub signer: Pubkey,
    pub serialized_state: Seq<u8>,
    pub return_data: Seq<u8>,
}

impl View for PublicMintPlan {
    type V = PublicMintPlanModel;

    open spec fn view(&self) -> PublicMintPlanModel {
        PublicMintPlanModel {
            instruction_program: self.instruction.program_id,
            instruction_accounts: self.instruction.accounts@,
            instruction_data: self.instruction.data@,
            signer: self.signer,
            serialized_state: self.serialized_state@,
            return_data: self.return_data@,
        }
    }
}

/// What is left to do after [`Processor::process`].
#[derive(Debug)]
pub enum ProcessStep {
    Done,
    Invoke(PublicMintPlan),
}

/// How policy refusals are reported to the runtime.
pub open spec fn spec_map_program_error(e: ProgramError) -> InstructionError {
    if e == ProgramError::Custom(PublicMintError::WalletBlocked.spec_code()) {
        InstructionError::IncorrectAuthority
    } else if e == ProgramError::Custom(PublicMintError::CooldownActive.spec_code()) {
        InstructionError::InvalidArgument
    } else if e == ProgramError::Custom(PublicMintError::AllowlistRequired.spec_code()) {
        InstructionError::IncorrectAuthority
    } else if e == ProgramError::Custom(PublicMintError::MintWindowExceeded.spec_code()) {
        InstructionError::InsufficientFunds
    } else {
        InstructionError::InvalidInstructionData
    }
}

pub open spec fn refusal(e: PublicMintError) -> InstructionError {
    spec_map_program_error(ProgramError::Custom(e.spec_code()))
}

/// Storing the state in account 0.
pub open spec fn spec_store(c: ContextModel, s: PublicMintStateModel) -> (Result<(), InstructionError>, ContextModel) {
    if !fits_public_mint_state(s) {
        (Err(InstructionError::InvalidAccountData), c)
    } else {
        spec_write(c, 0, enc_public_mint_state(s))
    }
}

/// The stored state, for an instruction signed by account 1, which must be
/// the policy authority.
pub open spec fn spec_authorized(c: ContextModel, require_initialized: bool) -> Result<PublicMintStateModel, InstructionError> {
    if !c.is_signer(1) {
        Err(InstructionError::MissingRequiredSignature)
    } else {
        match dec_public_mint_state(c.data(0)) {
            None => Err(InstructionError::InvalidAccountData),
            Some((s, _)) => if require_initialized && !s.policy.is_initialized {
                Err(InstructionError::UninitializedAccount)
            } else if s.policy.authority != c.key(1) {
                Err(InstructionError::IncorrectAuthority)
            } else {
                Ok(s)
            },
        }
    }
}

/// InitializePolicy: accounts `[state (w, owned by this program), authority (s)]`.
pub open spec fn spec_initialize_policy(c: ContextModel, state: PublicMintStateModel) -> (Result<(), InstructionError>, ContextModel) {
    if c.accounts.len() < 2 {
        (Err(InstructionError::NotEnoughAccountKeys), c)
    } else if !c.is_signer(1) {
        (Err(InstructionError::MissingRequiredSignature), c)
    } else if state.policy.authority != c.key(1) {
        (Err(InstructionError::IncorrectAuthority), c)
    } else if c.owner(0) != c.program_id {
        (Err(InstructionError::InvalidAccountOwner), c)
    } else if dec_public_mint_state(c.data(0)) matches Some((s, _)) && s.policy.is_initialized {
        (Err(InstructionError::AccountAlreadyInitialized), c)
    } else {
        spec_store(c, state)
    }
}

/// UpdatePolicy: accounts `[state (w), authority (s)]`.
pub open spec fn spec_update_policy(c: ContextModel, policy: PublicMintPolicy) -> (Result<(), InstructionError>, ContextModel) {
    if c.accounts.len() < 2 {
        (Err(InstructionError::NotEnoughAccountKeys), c)
    } else {
        match spec_authorized(c, true) {
            Err(e) => (Err(e), c),
            Ok(s) => if policy.requires_allowlist && policy.authority == spec_zero_pubkey() {
                (Err(InstructionError::InvalidArgument), c)
            } else {
                spec_store(c, PublicMintStateModel { policy, ..s })
            },
        }
    }
}

/// `list` with `wallet` appended unless present, keeping at most `max` entries
/// by dropping the oldest.
pub open spec fn spec_listed(list: Seq<Pubkey>, wallet: Pubkey, max: usize) -> Seq<Pubkey> {
    if list.contains(wallet) {
        list
    } else if list.push(wallet).len() > max {
        list.push(wallet).remove(0)
    } else {
        list.push(wallet)
    }
}

/// Add/RemoveFromBlocklist/Allowlist: accounts `[state (w), authority (s)]`.
pub open spec fn spec_list_update(c: ContextModel, wallet: Pubkey, allow: bool, add: bool) -> (Result<(), InstructionError>, ContextModel) {
    if c.accounts.len() < 2 {
        (Err(InstructionError::NotEnoughAccountKeys), c)
    } else {
        match spec_authorized(c, false) {
            Err(e) => (Err(e), c),
            Ok(s) => spec_store(
                c,
                if allow {
                    PublicMintStateModel {
                        allowlist: if add { spec_listed(s.allowlist, wallet, MAX_ALLOWLISTED_WALLETS) } else { without_key(s.allowlist, wallet) },
                        ..s
                    }
                } else {
                    PublicMintStateModel {
                        blocklist: if add { spec_listed(s.blocklist, wallet, MAX_BLOCKLISTED_WALLETS) } else { without_key(s.blocklist, wallet) },
                        ..s
                    }
                },
            ),
        }
    }
}

/// The checks of a public mint on its accounts: `[state (w), mint, destination,
/// tokenomics, wallet, wallet authority (s), mint authority (s)]`. Gives the
/// stored state and the subsidy cap.
pub open spec fn spec_mint_accounts(c: ContextModel, token_program: Pubkey, tk: TokenomicsView) -> Result<(PublicMintStateModel, u128), InstructionError> {
    if c.accounts.len() < 7 {
        Err(InstructionError::NotEnoughAccountKeys)
    } else if !c.is_signer(5) {
        Err(InstructionError::MissingRequiredSignature)
    } else if c.key(5) != c.key(4) {
        Err(InstructionError::IncorrectAuthority)
    } else if !c.is_signer(6) {
        Err(InstructionError::MissingRequiredSignature)
    } else if c.owner(3) != tk.program_id {
        Err(refusal(PublicMintError::InvalidTokenomicsState))
    } else if tk.subsidy_cap is None {
        Err(InstructionError::InvalidAccountData)
    } else if c.owner(1) != token_program || c.owner(2) != token_program {
        Err(InstructionError::InvalidAccountOwner)
    } else {
        match dec_aeko20_account(c.data(2)) {
            None => Err(InstructionError::InvalidAccountData),
            Some((dest, _)) => if dest.owner != c.key(4) || dest.mint != c.key(1) {
                Err(InstructionError::InvalidAccountData)
            } else {
                match dec_public_mint_state(c.data(0)) {
                    None => Err(InstructionError::InvalidAccountData),
                    Some((s, _)) => if !s.policy.is_initialized {
                        Err(InstructionError::UninitializedAccount)
                    } else if !s.policy.enabled {
                        Err(refusal(PublicMintError::PolicyDisabled))
                    } else if s.policy.mint != c.key(1) {
                        Err(InstructionError::InvalidAccountData)
                    } else {
                        Ok((s, tk.subsidy_cap->0))
                    },
                }
            },
        }
    }
}

/// PublicMint, up to the call into the token program: the plan, or the error
/// (a refusal that counts a failed attempt stores the state first).
pub open spec fn spec_plan_public_mint(
    c: ContextModel,
    token_program: Pubkey,
    tk: TokenomicsView,
    current_epoch: u64,
    amount: u128,
    app_id: Option<Pubkey>,
    requested_subsidy: u128,
) -> (Result<PublicMintPlanModel, InstructionError>, ContextModel) {
    match spec_mint_accounts(c, token_program, tk) {
        Err(e) => (Err(e), c),
        Ok((s, cap)) => {
            let (outcome, s1) = spec_decide_mint(s, c.key(4), current_epoch, amount, app_id, requested_subsidy, cap);
            match outcome {
                Err((e, false)) => (Err(refusal(e)), c),
                Err((e, true)) => {
                    let (r, c1) = spec_store(c, s1);
                    (if r is Err { Err(r->Err_0) } else { Err(refusal(e)) }, c1)
                },
                Ok(window) => if !fits_public_mint_state(s1) {
                    (Err(InstructionError::InvalidAccountData), c)
                } else if enc_public_mint_state(s1).len() > c.data(0).len() {
                    (Err(InstructionError::AccountDataTooSmall), c)
                } else {
                    (
                        Ok(PublicMintPlanModel {
                            instruction_program: token_program,
                            instruction_accounts: seq![
                                AccountMeta { pubkey: c.key(1), is_signer: false, is_writable: true },
                                AccountMeta { pubkey: c.key(2), is_signer: false, is_writable: true },
                                AccountMeta { pubkey: c.key(0), is_signer: false, is_writable: false },
                                AccountMeta { pubkey: c.key(6), is_signer: true, is_writable: false },
                            ],
                            instruction_data: enc_token20_instruction(Token20InstructionModel::MintPublicTo { amount }),
                            signer: c.key(6),
                            serialized_state: enc_public_mint_state(s1),
                            return_data: enc_wallet_mint_window(window),
                        }),
                        c,
                    )
                },
            }
        },
    }
}

/// After the token program's mint succeeded: the state is stored and the wallet
/// window returned.
pub open spec fn spec_complete(c: ContextModel, plan: PublicMintPlanModel) -> (Result<(), InstructionError>, ContextModel) {
    and_then(spec_write(c, 0, plan.serialized_state), |c1: ContextModel| (Ok(()), c1.with_return(plan.return_data)))
}

/// An instruction's outcome up to any call it leaves to the caller.
pub open spec fn spec_process(
    c: ContextModel,
    data: Seq<u8>,
    token_program: Pubkey,
    tk: TokenomicsView,
) -> (Result<Option<PublicMintPlanModel>, InstructionError>, ContextModel) {
    let done = |r: (Result<(), InstructionError>, ContextModel)| (
        if r.0 is Err { Err(r.0->Err_0) } else { Ok(None::<PublicMintPlanModel>) },
        r.1,
    );
    match dec_public_mint_instruction(data) {
        Some((ix, rest)) => if rest.len() != 0 {
            (Err(InstructionError::InvalidInstructionData), c)
        } else {
            match ix {
                PublicMintInstructionModel::InitializePolicy { state } => done(spec_initialize_policy(c, state)),
                PublicMintInstructionModel::UpdatePolicy { policy } => done(spec_update_policy(c, policy)),
                PublicMintInstructionModel::AddToBlocklist { wallet } => done(spec_list_update(c, wallet, false, true)),
                PublicMintInstructionModel::RemoveFromBlocklist { wallet } => done(spec_list_update(c, wallet, false, false)),
                PublicMintInstructionModel::AddToAllowlist { wallet } => done(spec_list_update(c, wallet, true, true)),
                PublicMintInstructionModel::RemoveFromAllowlist { wallet } => done(spec_list_update(c, wallet, true, false)),
                PublicMintInstructionModel::PublicMint { current_epoch, amount, app_id, requested_subsidy } => {
                    let (r, c1) = spec_plan_public_mint(c, token_program, tk, current_epoch, amount, app_id, requested_subsidy);
                    (if r is Err { Err(r->Err_0) } else { Ok(Some(r->Ok_0)) }, c1)
                },
            }
        },
        None => (Err(InstructionError::InvalidInstructionData), c),
    }
}

pub struct Processor;

impl Processor {
    /// Runs the instruction; a public mint that passed the policy comes back as
    /// the call to make into the token program (`token_program` is that
    /// program's id, `tokenomics` what the tokenomics account holds).
    pub fn process(
        ctx: &mut InstructionContext,
        instruction_data: &[u8],
        token_program: Pubkey,
        tokenomics: TokenomicsView,
    ) -> (r: Result<ProcessStep, InstructionError>)
        ensures
            ({
                let (sr, sc) = spec_process(old(ctx)@, instruction_data@, token_program, tokenomics);
                &&& final(ctx)@ == sc
                &&& r.is_ok() == sr.is_ok()
                &&& r matches Err(e) ==> sr == Err::<Option<PublicMintPlanModel>, _>(e)
                &&& r matches Ok(ProcessStep::Done) ==> sr == Ok::<_, InstructionError>(None::<PublicMintPlanModel>)
                &&& r matches Ok(ProcessStep::Invoke(p)) ==> sr == Ok::<_, InstructionError>(Some(p@))
            }),
    {
        let instruction = match public_mint_instruction_from_slice(instruction_data) {
            Some(ix) => ix,
            None => return Err(InstructionError::InvalidInstructionData),
        };
        let r = match instruction {
            PublicMintInstruction::InitializePolicy { state } => Self::process_initialize_policy(ctx, state),
            PublicMintInstruction::UpdatePolicy { policy } => Self::process_update_policy(ctx, policy),
            PublicMintInstruction::AddToBlocklist { wallet } => Self::process_add_to_blocklist(ctx, wallet),
            PublicMintInstruction::RemoveFromBlocklist { wallet } => Self::process_remove_from_blocklist(ctx, wallet),
            PublicMintInstruction::AddToAllowlist { wallet } => Self::process_add_to_allowlist(ctx, wallet),
            PublicMintInstruction::RemoveFromAllowlist { wallet } => Self::process_remove_from_allowlist(ctx, wallet),
            PublicMintInstruction::PublicMint { current_epoch, amount, app_id, requested_subsidy } => {
                return match Self::process_public_mint(ctx, token_program, tokenomics, current_epoch, amount, app_id, requested_subsidy) {
                    Ok(plan) => Ok(ProcessStep::Invoke(plan)),
                    Err(e) => Err(e),
                };
            },
        };
        match r {
            Ok(()) => Ok(ProcessStep::Done),
            Err(e) => Err(e),
        }
    }

    /// Stores the state in account 0.
    fn write_state(ctx: &mut InstructionContext, state: &PublicMintState) -> (r: Result<(), InstructionError>)
        requires
            0 < old(ctx)@.accounts.len(),
        ensures
            (r, final(ctx)@) == spec_store(old(ctx)@, state@),
    {
        match public_mint_state_to_vec(state) {
            None => Err(InstructionError::InvalidAccountData),
            Some(bytes) => ctx.write_account(0, &bytes),
        }
    }

    /// How policy refusals are reported to the runtime.
    pub fn map_program_error(error: ProgramError) -> (r: InstructionError)
        ensures
            r == spec_map_program_error(error),
    {
        match error {
            ProgramError::Custom(code) => {
                if code == PublicMintError::WalletBlocked.code() {
                    InstructionError::IncorrectAuthority
                } else if code == PublicMintError::CooldownActive.code() {
                    InstructionError::InvalidArgument
                } else if code == PublicMintError::AllowlistRequired.code() {
                    InstructionError::IncorrectAuthority
                } else if code == PublicMintError::MintWindowExceeded.code() {
                    InstructionError::InsufficientFunds
                } else {
                    InstructionError::InvalidInstructionData
                }
            },
            _ => InstructionError::InvalidInstructionData,
        }
    }

    fn refuse(e: PublicMintError) -> (r: InstructionError)
        ensures
            r == refusal(e),
    {
        Self::map_program_error(ProgramError::Custom(e.code()))
    }

    fn load_authorized(ctx: &InstructionContext, require_initialized: bool) -> (r: Result<PublicMintState, InstructionError>)
        requires
            2 <= ctx@.accounts.len(),
        ensures
            r.is_ok() == spec_authorized(ctx@, require_initialized).is_ok(),
            r matches Ok(s) ==> spec_authorized(ctx@, require_initialized) == Ok::<_, InstructionError>(s@),
            r matches Err(e) ==> spec_authorized(ctx@, require_initialized) == Err::<PublicMintStateModel, _>(e),
    {
        if !ctx.is_signer(1) {
            return Err(InstructionError::MissingRequiredSignature);
        }
        let state = match PublicMintState::deserialize_padded(ctx.data(0)) {
            Ok(s) => s,
            Err(_) => return Err(InstructionError::InvalidAccountData),
        };
        if require_initialized && !state.policy.is_initialized {
            return Err(InstructionError::UninitializedAccount);
        }
        if state.policy.authority != ctx.key(1) {
            return Err(InstructionError::IncorrectAuthority);
        }
        Ok(state)
    }

    pub fn process_initialize_policy(ctx: &mut InstructionContext, state: PublicMintState) -> (r: Result<(), InstructionError>)
        ensures
            (r, final(ctx)@) == spec_initialize_policy(old(ctx)@, state@),
    {
        if let Err(e) = ctx.check_number_of_instruction_accounts(2) {
            return Err(e);
        }
        if !ctx.is_signer(1) {
            return Err(InstructionError::MissingRequiredSignature);
        }
        if state.policy.authority != ctx.key(1) {
            return Err(InstructionError::IncorrectAuthority);
        }
        if ctx.owner(0) != ctx.program_id {
            return Err(InstructionError::InvalidAccountOwner);
        }
        if let Ok(stored) = PublicMintState::deserialize_padded(ctx.data(0)) {
            if stored.policy.is_initialized {
                return Err(InstructionError::AccountAlreadyInitialized);
            }
        }
        Self::write_state(ctx, &state)
    }

    pub fn process_update_policy(ctx: &mut InstructionContext, policy: PublicMintPolicy) -> (r: Result<(), InstructionError>)
        ensures
            (r, final(ctx)@) == spec_update_policy(old(ctx)@, policy),
    {
        if let Err(e) = ctx.check_number_of_instruction_accounts(2) {
            return Err(e);
        }
        let mut state = match Self::load_authorized(ctx, true) {
            Ok(s) => s,
            Err(e) => return Err(e),
        };
        if policy.requires_allowlist && policy.authority == Pubkey::default() {
            return Err(InstructionError::InvalidArgument);
        }
        state.policy = policy;
        Self::write_state(ctx, &state)
    }

    fn list_add(list: &mut Vec<Pubkey>, wallet: Pubkey, max: usize)
        ensures
            final(list)@ == spec_listed(old(list)@, wallet, max),
    {
        if !contains_key(list, &wallet) {
            list.push(wallet);
            if list.len() > max {
                list.remove(0);
            }
        }
    }

    fn process_list_update(ctx: &mut InstructionContext, wallet: Pubkey, allow: bool, add: bool) -> (r: Result<(), InstructionError>)
        ensures
            (r, final(ctx)@) == spec_list_update(old(ctx)@, wallet, allow, add),
    {
        if let Err(e) = ctx.check_number_of_instruction_accounts(2) {
            return Err(e);
        }
        let mut state = match Self::load_authorized(ctx, false) {
            Ok(s) => s,
            Err(e) => return Err(e),
        };
        if allow {
            if add {
                Self::list_add(&mut state.allowlist, wallet, MAX_ALLOWLISTED_WALLETS);
            } else {
                remove_key(&mut state.allowlist, &wallet);
            }
        } else {
            if add {
                Self::list_add(&mut state.blocklist, wallet, MAX_BLOCKLISTED_WALLETS);
            } else {
                remove_key(&mut state.blocklist, &wallet);
            }
        }
        Self::write_state(ctx, &state)
    }

    pub fn process_add_to_blocklist(ctx: &mut InstructionContext, wallet: Pubkey) -> (r: Result<(), InstructionError>)
        ensures
            (r, final(ctx)@) == spec_list_update(old(ctx)@, wallet, false, true),
    {
        Self::process_list_update(ctx, wallet, false, true)
    }

    pub fn process_remove_from_blocklist(ctx: &mut InstructionContext, wallet: Pubkey) -> (r: Result<(), InstructionError>)
        ensures
            (r, final(ctx)@) == spec_list_update(old(ctx)@, wallet, false, false),
    {
        Self::process_list_update(ctx, wallet, false, false)
    }

    pub fn process_add_to_allowlist(ctx: &mut InstructionContext, wallet: Pubkey) -> (r: Result<(), InstructionError>)
        ensures
            (r, final(ctx)@) == spec_list_update(old(ctx)@, wallet, true, true),
    {
        Self::process_list_update(ctx, wallet, true, true)
    }

    pub fn process_remove_from_allowlist(ctx: &mut InstructionContext, wallet: Pubkey) -> (r: Result<(), InstructionError>)
        ensures
            (r, final(ctx)@) == spec_list_update(old(ctx)@, wallet, true, false),
    {
        Self::process_list_update(ctx, wallet, true, false)
    }

    fn load_mint_accounts(ctx: &InstructionContext, token_program: Pubkey, tk: TokenomicsView) -> (r: Result<(PublicMintState, u128), InstructionError>)
        ensures
            r.is_ok() == spec_mint_accounts(ctx@, token_program, tk).is_ok(),
            r matches Ok((s, cap)) ==> spec_mint_accounts(ctx@, token_program, tk) == Ok::<_, InstructionError>((s@, cap)),
            r matches Err(e) ==> spec_mint_accounts(ctx@, token_program, tk) == Err::<(PublicMintStateModel, u128), _>(e),
    {
        if let Err(e) = ctx.check_number_of_instruction_accounts(7) {
            return Err(e);
        }
        let wallet_key = ctx.key(4);
        if !ctx.is_signer(5) {
            return Err(InstructionError::MissingRequiredSignature);
        }
        if ctx.key(5) != wallet_key {
            return Err(InstructionError::IncorrectAuthority);
        }
        if !ctx.is_signer(6) {
            return Err(InstructionError::MissingRequiredSignature);
        }
        if ctx.owner(3) != tk.program_id {
            return Err(Self::refuse(PublicMintError::InvalidTokenomicsState));
        }
        let cap = match tk.subsidy_cap {
            Some(cap) => cap,
            None => return Err(InstructionError::InvalidAccountData),
        };
        if ctx.owner(1) != token_program {
            return Err(InstructionError::InvalidAccountOwner);
        }
        let mint_key = ctx.key(1);
        if ctx.owner(2) != token_program {
            return Err(InstructionError::InvalidAccountOwner);
        }
        let destination = match Aeko20Account::deserialize_padded(ctx.data(2)) {
            Ok(d) => d,
            Err(_) => return Err(InstructionError::InvalidAccountData),
        };
        if destination.owner != wallet_key || destination.mint != mint_key {
            return Err(InstructionError::InvalidAccountData);
        }
        let state = match PublicMintState::deserialize_padded(ctx.data(0)) {
            Ok(s) => s,
            Err(_) => return Err(InstructionError::InvalidAccountData),
        };
        if !state.policy.is_initialized {
            return Err(InstructionError::UninitializedAccount);
        }
        if !state.policy.enabled {
            return Err(Self::refuse(PublicMintError::PolicyDisabled));
        }
        if state.policy.mint != mint_key {
            return Err(InstructionError::InvalidAccountData);
        }
        Ok((state, cap))
    }

    /// PublicMint up to the call into the token program.
    pub fn process_public_mint(
        ctx: &mut InstructionContext,
        token_program: Pubkey,
        tokenomics: TokenomicsView,
        current_epoch: u64,
        amount: u128,
        app_id: Option<Pubkey>,
        requested_subsidy: u128,
    ) -> (r: Result<PublicMintPlan, InstructionError>)
        ensures
            ({
                let (sr, sc) = spec_plan_public_mint(old(ctx)@, token_program, tokenomics, current_epoch, amount, app_id, requested_subsidy);
                &&& final(ctx)@ == sc
                &&& r.is_ok() == sr.is_ok()
                &&& r matches Ok(p) ==> sr == Ok::<_, InstructionError>(p@)
                &&& r matches Err(e) ==> sr == Err::<PublicMintPlanModel, _>(e)
            }),
    {
        let (mut state, cap) = match Self::load_mint_accounts(ctx, token_program, tokenomics) {
            Ok(v) => v,
            Err(e) => return Err(e),
        };
        let wallet_key = ctx.key(4);
        let window = match decide_public_mint(&mut state, wallet_key, current_epoch, amount, app_id, requested_subsidy, cap) {
            Ok(w) => w,
            Err((e, write)) => {
                if write {
                    if let Err(err) = Self::write_state(ctx, &state) {
                        return Err(err);
                    }
                }
                return Err(Self::refuse(e));
            },
        };
        let return_data = wallet_mint_window_to_vec(&window);
        let serialized_state = match public_mint_state_to_vec(&state) {
            Some(b) => b,
            None => return Err(InstructionError::InvalidAccountData),
        };
        if serialized_state.len() > ctx.data(0).len() {
            return Err(InstructionError::AccountDataTooSmall);
        }
        let mint_authority_key = ctx.key(6);
        let instruction = mint_public_to(&token_program, &ctx.key(1), &ctx.key(2), &ctx.key(0), &mint_authority_key, amount);
        Ok(PublicMintPlan { instruction, signer: mint_authority_key, serialized_state, return_data })
    }

    /// Finishes a public mint once the token program's mint succeeded; a failed
    /// mint is reported as it came back and nothing is stored.
    pub fn complete_public_mint(
        ctx: &mut InstructionContext,
        plan: PublicMintPlan,
        invoke_result: Result<(), InstructionError>,
    ) -> (r: Result<(), InstructionError>)
        requires
            0 < old(ctx)@.accounts.len(),
        ensures
            invoke_result matches Err(e) ==> r == Err::<(), _>(e) && final(ctx)@ == old(ctx)@,
            invoke_result is Ok ==> (r, final(ctx)@) == spec_complete(old(ctx)@, plan@),
    {
        if let Err(e) = invoke_result {
            return Err(e);
        }
        if let Err(e) = ctx.write_account(0, &plan.serialized_state) {
            return Err(e);
        }
        ctx.set_return_data(plan.return_data);
        Ok(())
    }
}

/// A listed wallet is on the list afterwards (for any positive capacity).
pub proof fn law_listed_wallet_is_on_list(list: Seq<Pubkey>, wallet: Pubkey, max: usize)
    requires
        max > 0,
    ensures
        spec_listed(list, wallet, max).contains(wallet),
{
    let pushed = list.push(wallet);
    assert(pushed[list.len() as int] == wallet);
    if !list.contains(wallet) && pushed.len() > max {
        let r = pushed.remove(0);
        assert(r[list.len() - 1] == wallet);
    } else if !list.contains(wallet) {
        assert(pushed.contains(wallet));
    }
}

/// Listing a wallet twice is listing it once: the second addition changes
/// nothing.
pub proof fn law_listing_is_idempotent(list: Seq<Pubkey>, wallet: Pubkey, max: usize)
    requires
        max > 0,
    ensures
        spec_listed(spec_listed(list, wallet, max), wallet, max) == spec_listed(list, wallet, max),
{
    law_listed_wallet_is_on_list(list, wallet, max);
}

/// A removed wallet is on the list no more, and every other entry stays.
pub proof fn law_unlisted_wallet_is_off_list(list: Seq<Pubkey>, wallet: Pubkey)
    ensures
        !without_key(list, wallet).contains(wallet),
        forall|k: Pubkey| k != wallet ==> (list.contains(k) <==> without_key(list, wallet).contains(k)),
{
    broadcast use {vstd::seq_lib::group_filter_ensures, vstd::seq::Seq::group_seq_extra};
    let out = without_key(list, wallet);
    if out.contains(wallet) {
        let j = choose|j: int| 0 <= j < out.len() && out[j] == wallet;
        assert(out[j] != wallet);
    }
    assert forall|k: Pubkey| k != wallet implies (list.contains(k) <==> out.contains(k)) by {
        if list.contains(k) {
            let j = choose|j: int| 0 <= j < list.len() && list[j] == k;
            assert(out.contains(list[j]));
        }
        if out.contains(k) {
            assert(list.contains(k));
        }
    }
}

/// Listing keeps a list free of repeats and within its capacity.
pub proof fn lemma_listed_shape(list: Seq<Pubkey>, wallet: Pubkey, max: usize)
    requires
        max > 0,
    ensures
        list.no_duplicates() ==> spec_listed(list, wallet, max).no_duplicates(),
        list.len() <= max ==> spec_listed(list, wallet, max).len() <= max,
{
    if !list.contains(wallet) {
        let p = list.push(wallet);
        if list.no_duplicates() {
            assert forall|i: int, j: int| 0 <= i < p.len() && 0 <= j < p.len() && i != j implies p[i] != p[j] by {
                if i == list.len() as int {
                    assert(list[j] == p[j]);
                } else if j == list.len() as int {
                    assert(list[i] == p[i]);
                }
            }
            if p.len() > max {
                let r = p.remove(0);
                assert forall|i: int, j: int| 0 <= i < r.len() && 0 <= j < r.len() && i != j implies r[i] != r[j] by {
                    assert(r[i] == p[i + 1]);
                    assert(r[j] == p[j + 1]);
                }
            }
        }
    }
}

/// AddToBlocklist over accounts `[state (w), authority (s)]`: a signer other
/// than the policy authority is refused with the state unchanged; otherwise,
/// when the grown state fits its account, the stored state reads back with the
/// wallet on its blocklist and nothing else changed; a blocklist without
/// repeats and within its capacity stays so (the oldest entry leaves when it
/// is full), and blocklisting a listed wallet again changes nothing. Any
/// refusal leaves the accounts as they were.
pub proof fn law_add_to_blocklist(c: ContextModel, wallet: Pubkey)
    requires
        c.accounts.len() >= 2,
    ensures
        spec_list_update(c, wallet, false, true).0 is Err ==> spec_list_update(c, wallet, false, true).1 == c,
        c.is_signer(1) && (dec_public_mint_state(c.data(0)) matches Some((s, _)) && s.policy.authority != c.key(1))
            ==> spec_list_update(c, wallet, false, true).0 == Err::<(), InstructionError>(InstructionError::IncorrectAuthority),
        spec_list_update(c, wallet, false, true).0 is Ok ==> ({
            let s = dec_public_mint_state(c.data(0))->Some_0.0;
            let c2 = spec_list_update(c, wallet, false, true).1;
            &&& dec_public_mint_state(c2.data(0)) matches Some((s2, _))
            &&& s2 == PublicMintStateModel { blocklist: spec_listed(s.blocklist, wallet, MAX_BLOCKLISTED_WALLETS), ..s }
            &&& s2.blocklist.contains(wallet)
            &&& s.blocklist.no_duplicates() ==> s2.blocklist.no_duplicates()
            &&& s.blocklist.len() <= MAX_BLOCKLISTED_WALLETS ==> s2.blocklist.len() <= MAX_BLOCKLISTED_WALLETS
            &&& s.blocklist.contains(wallet) ==> s2 == s
        }),
{
    if spec_list_update(c, wallet, false, true).0 is Ok {
        let s = dec_public_mint_state(c.data(0))->Some_0.0;
        let s2 = PublicMintStateModel { blocklist: spec_listed(s.blocklist, wallet, MAX_BLOCKLISTED_WALLETS), ..s };
        let bytes = enc_public_mint_state(s2);
        let zeros = Seq::new((c.data(0).len() - bytes.len()) as nat, |k: int| 0u8);
        lemma_public_mint_state(s2, zeros);
        law_listed_wallet_is_on_list(s.blocklist, wallet, MAX_BLOCKLISTED_WALLETS);
        lemma_listed_shape(s.blocklist, wallet, MAX_BLOCKLISTED_WALLETS);
        if s.blocklist.contains(wallet) {
            assert(s2 =~= s);
        }
    }
}

} // verus!
