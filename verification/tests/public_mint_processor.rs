use aeko_programs::errors::InstructionError;
use aeko_programs::public_mint::processor::{ProcessStep, Processor, TokenomicsView};
use aeko_programs::public_mint::types::{
    public_mint_state_to_vec, wallet_mint_window_from_slice, PublicMintPolicy, PublicMintState,
};
use aeko_programs::public_mint::{id, instruction};
use aeko_programs::pubkey::Pubkey;
use aeko_programs::runtime::{AccountInfo, Instruction, InstructionContext};
use aeko_programs::token20::processor::{Processor as TokenProcessor, TokenomicsGovernance};
use aeko_programs::token20::types::{aeko20_account_to_vec, aeko20_mint_to_vec, Aeko20Account, Aeko20Mint, MintPolicy};

const ACCOUNT_SPACE: usize = 16_384;

fn key(n: u8) -> Pubkey {
    Pubkey::new_from_array([n; 32])
}

fn token_program() -> Pubkey {
    key(250)
}

fn tokenomics_program() -> Pubkey {
    key(251)
}

fn tokenomics() -> TokenomicsView {
    TokenomicsView { program_id: tokenomics_program(), subsidy_cap: Some(250_000) }
}

/// An account of `space` bytes owned by `owner`, starting with `bytes`.
fn account(owner: Pubkey, space: usize, bytes: &[u8]) -> (Pubkey, Vec<u8>) {
    let mut data = vec![0u8; space];
    data[..bytes.len()].copy_from_slice(bytes);
    (owner, data)
}

/// The context an instruction runs in: each of its accounts looked up by key
/// in `book` (key, owner, data).
fn context(ix: &Instruction, book: &[(Pubkey, Pubkey, Vec<u8>)]) -> InstructionContext {
    let infos = ix
        .accounts
        .iter()
        .map(|meta| {
            let (_, owner, data) = book.iter().find(|(k, _, _)| *k == meta.pubkey).expect("account in book");
            AccountInfo { key: meta.pubkey, owner: *owner, is_signer: meta.is_signer, is_writable: meta.is_writable, lamports: 1, data: data.clone() }
        })
        .collect();
    InstructionContext { program_id: ix.program_id, accounts: infos, return_data: None }
}

fn run_simple(ix: &Instruction, book: &[(Pubkey, Pubkey, Vec<u8>)]) -> (Result<(), InstructionError>, InstructionContext) {
    let mut ctx = context(ix, book);
    let r = match Processor::process(&mut ctx, &ix.data, token_program(), tokenomics()) {
        Ok(ProcessStep::Done) => Ok(()),
        Ok(ProcessStep::Invoke(_)) => panic!("no invocation expected"),
        Err(e) => Err(e),
    };
    (r, ctx)
}

fn policy_state(authority: Pubkey, mint: Pubkey, subsidy_app: Option<Pubkey>) -> PublicMintState {
    PublicMintState {
        policy: PublicMintPolicy {
            mint,
            authority,
            enabled: true,
            per_wallet_limit: 1_000,
            window_epochs: 30,
            cooldown_epochs: 1,
            requires_allowlist: false,
            anomaly_threshold: 3,
            fee_subsidy_enabled: subsidy_app.is_some(),
            subsidy_app,
            is_initialized: true,
        },
        wallet_windows: Vec::new(),
        blocklist: Vec::new(),
        allowlist: Vec::new(),
    }
}

fn state_book(state_pubkey: Pubkey, authority: Pubkey, state: &PublicMintState) -> Vec<(Pubkey, Pubkey, Vec<u8>)> {
    let (owner, data) = account(id(), ACCOUNT_SPACE, &public_mint_state_to_vec(state).unwrap());
    vec![(state_pubkey, owner, data), (authority, key(240), Vec::new())]
}

#[test]
fn initialize_policy_writes_state() {
    let authority = key(1);
    let state_pubkey = key(2);
    let mint_pubkey = key(3);
    let state = policy_state(authority, mint_pubkey, None);
    let ix = instruction::initialize_policy(&id(), &state_pubkey, &authority, state);
    let book = vec![(state_pubkey, id(), vec![0u8; ACCOUNT_SPACE]), (authority, key(240), Vec::new())];
    let (r, ctx) = run_simple(&ix, &book);
    assert_eq!(r, Ok(()));
    let stored = PublicMintState::deserialize_padded(&ctx.accounts[0].data).unwrap();
    assert_eq!(stored.policy.mint, mint_pubkey);
}

#[test]
fn update_policy_rewrites_limits() {
    let authority = key(1);
    let state_pubkey = key(2);
    let mut state = policy_state(authority, key(3), None);
    let book = state_book(state_pubkey, authority, &state);
    state.policy.per_wallet_limit = 5_000;
    state.policy.cooldown_epochs = 3;
    state.policy.requires_allowlist = true;
    let ix = instruction::update_policy(&id(), &state_pubkey, &authority, state.policy);
    let (r, ctx) = run_simple(&ix, &book);
    assert_eq!(r, Ok(()));
    let updated = PublicMintState::deserialize_padded(&ctx.accounts[0].data).unwrap();
    assert_eq!(updated.policy.per_wallet_limit, 5_000);
    assert_eq!(updated.policy.cooldown_epochs, 3);
    assert!(updated.policy.requires_allowlist);
}

#[test]
fn add_and_remove_blocklist_entry() {
    let authority = key(1);
    let blocked_wallet = key(4);
    let state_pubkey = key(2);
    let state = policy_state(authority, key(3), None);
    let book = state_book(state_pubkey, authority, &state);
    let add_ix = instruction::add_to_blocklist(&id(), &state_pubkey, &authority, blocked_wallet);
    let (r, ctx) = run_simple(&add_ix, &book);
    assert_eq!(r, Ok(()));
    let after_add = PublicMintState::deserialize_padded(&ctx.accounts[0].data).unwrap();
    assert!(after_add.is_blocklisted(&blocked_wallet));

    let book = vec![(state_pubkey, id(), ctx.accounts[0].data.clone()), (authority, key(240), Vec::new())];
    let remove_ix = instruction::remove_from_blocklist(&id(), &state_pubkey, &authority, blocked_wallet);
    let (r, ctx) = run_simple(&remove_ix, &book);
    assert_eq!(r, Ok(()));
    let after_remove = PublicMintState::deserialize_padded(&ctx.accounts[0].data).unwrap();
    assert!(!after_remove.is_blocklisted(&blocked_wallet));
}

#[test]
fn add_and_remove_allowlist_entry() {
    let authority = key(1);
    let allowed_wallet = key(5);
    let state_pubkey = key(2);
    let mut state = policy_state(authority, key(3), None);
    state.policy.requires_allowlist = true;
    let book = state_book(state_pubkey, authority, &state);
    let add_ix = instruction::add_to_allowlist(&id(), &state_pubkey, &authority, allowed_wallet);
    let (r, ctx) = run_simple(&add_ix, &book);
    assert_eq!(r, Ok(()));
    let after_add = PublicMintState::deserialize_padded(&ctx.accounts[0].data).unwrap();
    assert!(after_add.is_allowlisted(&allowed_wallet));

    let book = vec![(state_pubkey, id(), ctx.accounts[0].data.clone()), (authority, key(240), Vec::new())];
    let remove_ix = instruction::remove_from_allowlist(&id(), &state_pubkey, &authority, allowed_wallet);
    let (r, ctx) = run_simple(&remove_ix, &book);
    assert_eq!(r, Ok(()));
    let after_remove = PublicMintState::deserialize_padded(&ctx.accounts[0].data).unwrap();
    assert!(!after_remove.is_allowlisted(&allowed_wallet));
}

struct MintSetup {
    state_pubkey: Pubkey,
    mint_pubkey: Pubkey,
    destination_pubkey: Pubkey,
    tokenomics_pubkey: Pubkey,
    wallet: Pubkey,
    mint_authority: Pubkey,
    book: Vec<(Pubkey, Pubkey, Vec<u8>)>,
}

fn mint_setup(state: &PublicMintState, wallet: Pubkey, mint_authority: Pubkey) -> MintSetup {
    let state_pubkey = key(2);
    let mint_pubkey = state.policy.mint;
    let destination_pubkey = key(6);
    let tokenomics_pubkey = key(7);
    let mint = Aeko20Mint {
        mint_authority: Some(mint_authority),
        freeze_authority: Some(mint_authority),
        name: "AEKO".to_string(),
        symbol: "AEKO".to_string(),
        decimals: 9,
        total_supply: 0,
        supply_cap: None,
        metadata_uri: None,
        transfer_hook_program_id: None,
        required_clearance: None,
        mint_policy: MintPolicy::PublicMintControlled,
        is_initialized: true,
    };
    let destination = Aeko20Account { owner: wallet, mint: mint_pubkey, balance: 0, frozen: false };
    let (o, d) = account(id(), ACCOUNT_SPACE, &public_mint_state_to_vec(state).unwrap());
    let (mo, md) = account(token_program(), ACCOUNT_SPACE, &aeko20_mint_to_vec(&mint).unwrap());
    let (dop, dd) = account(token_program(), ACCOUNT_SPACE, &aeko20_account_to_vec(&destination));
    let (to, td) = account(tokenomics_program(), ACCOUNT_SPACE, &[7u8; 128]);
    let book = vec![
        (state_pubkey, o, d),
        (mint_pubkey, mo, md),
        (destination_pubkey, dop, dd),
        (tokenomics_pubkey, to, td),
        (wallet, key(240), Vec::new()),
        (mint_authority, key(240), Vec::new()),
    ];
    MintSetup { state_pubkey, mint_pubkey, destination_pubkey, tokenomics_pubkey, wallet, mint_authority, book }
}

fn public_mint_ix(s: &MintSetup, epoch: u64, amount: u128, app: Option<Pubkey>, subsidy: u128) -> Instruction {
    instruction::public_mint(
        &id(),
        &s.state_pubkey,
        &s.mint_pubkey,
        &s.destination_pubkey,
        &s.tokenomics_pubkey,
        &s.wallet,
        &s.wallet,
        &s.mint_authority,
        epoch,
        amount,
        app,
        subsidy,
    )
}

#[test]
fn public_mint_updates_wallet_window_and_subsidy_usage() {
    let authority = key(1);
    let wallet = key(8);
    let subsidy_app = Some(key(9));
    let mint_authority = key(10);
    let state = policy_state(authority, key(3), subsidy_app);
    let s = mint_setup(&state, wallet, mint_authority);
    let ix = public_mint_ix(&s, 5, 100, subsidy_app, 10);
    let mut ctx = context(&ix, &s.book);
    let plan = match Processor::process(&mut ctx, &ix.data, token_program(), tokenomics()) {
        Ok(ProcessStep::Invoke(plan)) => plan,
        other => panic!("expected an invocation, got {:?}", other),
    };
    assert_eq!(plan.instruction.program_id, token_program());
    assert_eq!(plan.signer, mint_authority);

    let mut token_ctx = context(&plan.instruction, &s.book);
    let invoked = TokenProcessor::process(
        &mut token_ctx,
        &plan.instruction.data,
        TokenomicsGovernance { program_id: tokenomics_program(), authorities: None },
    );
    assert_eq!(invoked, Ok(()));
    let minted = Aeko20Account::deserialize_padded(&token_ctx.accounts[1].data).unwrap();
    assert_eq!(minted.balance, 100);

    let r = Processor::complete_public_mint(&mut ctx, plan, invoked);
    assert_eq!(r, Ok(()));
    let (_, data) = ctx.return_data.clone().expect("return data");
    let window = wallet_mint_window_from_slice(&data).unwrap();
    assert_eq!(window.minted_in_window, 100);
    assert_eq!(window.subsidy_used_in_window, 10);

    let updated = PublicMintState::deserialize_padded(&ctx.accounts[0].data).unwrap();
    assert_eq!(updated.wallet_windows.len(), 1);
    assert_eq!(updated.wallet_windows[0].minted_in_window, 100);
}

#[test]
fn allowlisted_policy_rejects_non_allowlisted_wallets() {
    let mut state = policy_state(key(1), key(3), None);
    state.policy.requires_allowlist = true;
    let s = mint_setup(&state, key(8), key(10));
    let ix = public_mint_ix(&s, 1, 100, None, 0);
    let mut ctx = context(&ix, &s.book);
    let r = Processor::process(&mut ctx, &ix.data, token_program(), tokenomics());
    assert!(matches!(r, Err(InstructionError::IncorrectAuthority)));
    let updated = PublicMintState::deserialize_padded(&ctx.accounts[0].data).unwrap();
    assert_eq!(updated.wallet_windows.len(), 1);
    assert_eq!(updated.wallet_windows[0].anomaly_score, 1);
}

#[test]
fn repeated_failed_attempts_auto_block_wallet() {
    let mut state = policy_state(key(1), key(3), None);
    state.policy.anomaly_threshold = 2;
    let mut s = mint_setup(&state, key(8), key(10));
    let ix = public_mint_ix(&s, 1, 2_000, None, 0);

    let mut ctx = context(&ix, &s.book);
    let r = Processor::process(&mut ctx, &ix.data, token_program(), tokenomics());
    assert!(matches!(r, Err(InstructionError::InsufficientFunds)));

    s.book[0].2 = ctx.accounts[0].data.clone();
    let mut ctx = context(&ix, &s.book);
    let r = Processor::process(&mut ctx, &ix.data, token_program(), tokenomics());
    assert!(matches!(r, Err(InstructionError::InsufficientFunds)));

    let updated = PublicMintState::deserialize_padded(&ctx.accounts[0].data).unwrap();
    assert_eq!(updated.wallet_windows[0].anomaly_score, 2);
    assert!(updated.wallet_windows[0].blocked);
}

#[test]
fn blocked_wallet_is_refused_without_counting() {
    let mut state = policy_state(key(1), key(3), None);
    state.blocklist.push(key(8));
    let s = mint_setup(&state, key(8), key(10));
    let ix = public_mint_ix(&s, 1, 10, None, 0);
    let mut ctx = context(&ix, &s.book);
    let before = ctx.accounts[0].data.clone();
    let r = Processor::process(&mut ctx, &ix.data, token_program(), tokenomics());
    assert!(matches!(r, Err(InstructionError::IncorrectAuthority)));
    assert_eq!(ctx.accounts[0].data, before);
}

#[test]
fn failed_token_invocation_leaves_the_state() {
    let state = policy_state(key(1), key(3), None);
    let s = mint_setup(&state, key(8), key(10));
    let ix = public_mint_ix(&s, 5, 100, None, 0);
    let mut ctx = context(&ix, &s.book);
    let before = ctx.accounts[0].data.clone();
    let plan = match Processor::process(&mut ctx, &ix.data, token_program(), tokenomics()) {
        Ok(ProcessStep::Invoke(plan)) => plan,
        other => panic!("expected an invocation, got {:?}", other),
    };
    let r = Processor::complete_public_mint(&mut ctx, plan, Err(InstructionError::InvalidArgument));
    assert_eq!(r, Err(InstructionError::InvalidArgument));
    assert_eq!(ctx.accounts[0].data, before);
    assert!(ctx.return_data.is_none());
}

#[test]
fn subsidy_from_another_app_is_refused() {
    let state = policy_state(key(1), key(3), Some(key(9)));
    let s = mint_setup(&state, key(8), key(10));
    let ix = public_mint_ix(&s, 5, 100, Some(key(11)), 10);
    let mut ctx = context(&ix, &s.book);
    let r = Processor::process(&mut ctx, &ix.data, token_program(), tokenomics());
    assert!(r.is_err());
    let updated = PublicMintState::deserialize_padded(&ctx.accounts[0].data).unwrap();
    assert_eq!(updated.wallet_windows[0].anomaly_score, 1);
    assert_eq!(updated.wallet_windows[0].minted_in_window, 0);
}

#[test]
fn blocklisting_twice_changes_nothing() {
    let authority = key(1);
    let blocked_wallet = key(4);
    let state_pubkey = key(2);
    let state = policy_state(authority, key(3), None);
    let book = state_book(state_pubkey, authority, &state);
    let add_ix = instruction::add_to_blocklist(&id(), &state_pubkey, &authority, blocked_wallet);
    let (r, ctx) = run_simple(&add_ix, &book);
    assert_eq!(r, Ok(()));
    let once = ctx.accounts[0].data.clone();
    let book = vec![(state_pubkey, id(), once.clone()), (authority, key(240), Vec::new())];
    let (r, ctx) = run_simple(&add_ix, &book);
    assert_eq!(r, Ok(()));
    assert_eq!(ctx.accounts[0].data, once);
    let after = PublicMintState::deserialize_padded(&ctx.accounts[0].data).unwrap();
    assert_eq!(after.blocklist, vec![blocked_wallet]);

    let by_stranger = instruction::add_to_blocklist(&id(), &state_pubkey, &key(9), key(5));
    let book = vec![(state_pubkey, id(), once.clone()), (key(9), key(240), Vec::new())];
    let (r, ctx) = run_simple(&by_stranger, &book);
    assert_eq!(r, Err(InstructionError::IncorrectAuthority));
    assert_eq!(ctx.accounts[0].data, once);
}
