use aeko_programs::errors::InstructionError;
use aeko_programs::pubkey::Pubkey;
use aeko_programs::runtime::{AccountInfo, Instruction, InstructionContext};
use aeko_programs::token20::instruction;
use aeko_programs::token20::processor::{Processor, TokenomicsGovernance};
use aeko_programs::token20::types::{
    aeko20_account_to_vec, aeko20_mint_to_vec, Aeko20Account, Aeko20Mint, AllowanceRecord, MintPolicy,
};

const ACCOUNT_SPACE: usize = 4096;

fn key(n: u8) -> Pubkey {
    Pubkey::new_from_array([n; 32])
}

fn id() -> Pubkey {
    key(250)
}

fn tokenomics_program() -> Pubkey {
    key(251)
}

fn no_tokenomics() -> TokenomicsGovernance {
    TokenomicsGovernance { program_id: tokenomics_program(), authorities: None }
}

/// An account of `ACCOUNT_SPACE` bytes owned by `owner`, starting with `bytes`.
fn account(owner: Pubkey, bytes: &[u8]) -> (Pubkey, Vec<u8>) {
    let mut data = vec![0u8; ACCOUNT_SPACE];
    data[..bytes.len()].copy_from_slice(bytes);
    (owner, data)
}

fn wallet() -> (Pubkey, Vec<u8>) {
    (key(240), Vec::new())
}

/// Runs `ix` over the given accounts (matched to the instruction's metas in
/// order) and returns the result and the accounts' data afterwards.
fn run(ix: &Instruction, accounts: Vec<(Pubkey, Vec<u8>)>, tk: TokenomicsGovernance) -> (Result<(), InstructionError>, Vec<Vec<u8>>) {
    let infos = ix
        .accounts
        .iter()
        .zip(accounts)
        .map(|(meta, (owner, data))| AccountInfo {
            key: meta.pubkey,
            owner,
            is_signer: meta.is_signer,
            is_writable: meta.is_writable,
            lamports: 1,
            data,
        })
        .collect();
    let mut ctx = InstructionContext { program_id: ix.program_id, accounts: infos, return_data: None };
    let r = Processor::process(&mut ctx, &ix.data, tk);
    (r, ctx.accounts.into_iter().map(|a| a.data).collect())
}

fn sample_mint(authority: Pubkey, cap: Option<u128>, policy: MintPolicy) -> Aeko20Mint {
    Aeko20Mint {
        mint_authority: Some(authority),
        freeze_authority: Some(authority),
        name: "AEKO".to_string(),
        symbol: "AEKO".to_string(),
        decimals: 9,
        total_supply: 0,
        supply_cap: cap,
        metadata_uri: None,
        transfer_hook_program_id: None,
        required_clearance: None,
        mint_policy: policy,
        is_initialized: true,
    }
}

#[test]
fn initialize_mint_writes_mint_state() {
    let authority = key(1);
    let mint_pubkey = key(2);
    let ix = instruction::initialize_mint(&id(), &mint_pubkey, &authority, "AEKO".to_string(), "AEKO".to_string(), 9, Some(500_000_000_000), None, MintPolicy::AuthorityGated);
    let (r, accounts) = run(&ix, vec![account(id(), &[]), wallet()], no_tokenomics());
    assert_eq!(r, Ok(()));
    let mint = Aeko20Mint::deserialize_padded(&accounts[0]).unwrap();
    assert!(mint.is_initialized);
    assert_eq!(mint.symbol, "AEKO");
    assert_eq!(mint.total_supply, 0);
}

#[test]
fn initialize_account_mint_transfer_and_burn_flow() {
    let authority = key(1);
    let alice = key(3);
    let bob = key(4);
    let mint_pubkey = key(2);
    let alice_account_pubkey = key(5);
    let bob_account_pubkey = key(6);
    let mint_bytes = aeko20_mint_to_vec(&sample_mint(authority, Some(500_000_000_000), MintPolicy::AuthorityGated)).unwrap();
    let mint_account = account(id(), &mint_bytes);

    let ix = instruction::initialize_account(&id(), &alice_account_pubkey, &alice, &mint_pubkey);
    let (r, accounts) = run(&ix, vec![account(id(), &[]), wallet(), mint_account.clone()], no_tokenomics());
    assert_eq!(r, Ok(()));
    let alice_account = (id(), accounts[0].clone());

    let ix = instruction::initialize_account(&id(), &bob_account_pubkey, &bob, &mint_pubkey);
    let (r, accounts) = run(&ix, vec![account(id(), &[]), wallet(), mint_account.clone()], no_tokenomics());
    assert_eq!(r, Ok(()));
    let bob_account = (id(), accounts[0].clone());

    let ix = instruction::mint_to(&id(), &mint_pubkey, &alice_account_pubkey, &authority, 1_000);
    let (r, accounts) = run(&ix, vec![mint_account, alice_account, wallet()], no_tokenomics());
    assert_eq!(r, Ok(()));
    let mint_account = (id(), accounts[0].clone());
    let alice_account = (id(), accounts[1].clone());

    let ix = instruction::transfer(&id(), &alice_account_pubkey, &bob_account_pubkey, &alice, 400);
    let (r, accounts) = run(&ix, vec![alice_account, bob_account, wallet()], no_tokenomics());
    assert_eq!(r, Ok(()));
    let alice_account = (id(), accounts[0].clone());
    let bob_account = accounts[1].clone();

    let ix = instruction::burn(&id(), &mint_pubkey, &alice_account_pubkey, &alice, 100);
    let (r, accounts) = run(&ix, vec![mint_account, alice_account, wallet()], no_tokenomics());
    assert_eq!(r, Ok(()));

    let final_mint = Aeko20Mint::deserialize_padded(&accounts[0]).unwrap();
    let final_alice = Aeko20Account::deserialize_padded(&accounts[1]).unwrap();
    let final_bob = Aeko20Account::deserialize_padded(&bob_account).unwrap();
    assert_eq!(final_mint.total_supply, 900);
    assert_eq!(final_alice.balance, 500);
    assert_eq!(final_bob.balance, 400);
}

#[test]
fn approve_transfer_from_and_revoke_flow() {
    let owner = key(7);
    let spender = key(8);
    let mint_pubkey = key(2);
    let owner_account_pubkey = key(9);
    let destination_account_pubkey = key(10);
    let allowance_pubkey = key(11);
    let owner_state = account(id(), &aeko20_account_to_vec(&Aeko20Account { owner, mint: mint_pubkey, balance: 1_000, frozen: false }));
    let destination_state = account(id(), &aeko20_account_to_vec(&Aeko20Account { owner: key(12), mint: mint_pubkey, balance: 0, frozen: false }));

    let ix = instruction::approve(&id(), &allowance_pubkey, &owner_account_pubkey, &owner, &spender, 300, Some(10));
    let (r, accounts) = run(&ix, vec![account(id(), &[]), owner_state, wallet(), wallet()], no_tokenomics());
    assert_eq!(r, Ok(()));
    let allowance_state = (id(), accounts[0].clone());

    let ix = instruction::transfer_from(&id(), &allowance_pubkey, &owner_account_pubkey, &destination_account_pubkey, &spender, 200);
    let (r, accounts) = run(&ix, vec![allowance_state, (id(), accounts[1].clone()), destination_state, wallet()], no_tokenomics());
    assert_eq!(r, Ok(()));
    let updated_allowance = AllowanceRecord::deserialize_padded(&accounts[0]).unwrap();
    let updated_owner = Aeko20Account::deserialize_padded(&accounts[1]).unwrap();
    let updated_destination = Aeko20Account::deserialize_padded(&accounts[2]).unwrap();
    assert_eq!(updated_allowance.amount, 100);
    assert_eq!(updated_owner.balance, 800);
    assert_eq!(updated_destination.balance, 200);

    let ix = instruction::revoke(&id(), &allowance_pubkey, &owner);
    let (r, accounts) = run(&ix, vec![(id(), accounts[0].clone()), wallet()], no_tokenomics());
    assert_eq!(r, Ok(()));
    assert!(accounts[0].iter().all(|byte| *byte == 0));
}

#[test]
fn freeze_and_thaw_account_updates_frozen_state() {
    let authority = key(1);
    let mint_pubkey = key(2);
    let token_account_pubkey = key(13);
    let mint_state = account(id(), &aeko20_mint_to_vec(&sample_mint(authority, None, MintPolicy::AuthorityGated)).unwrap());
    let token_state = account(id(), &aeko20_account_to_vec(&Aeko20Account { owner: key(14), mint: mint_pubkey, balance: 10, frozen: false }));

    let ix = instruction::freeze_account(&id(), &mint_pubkey, &token_account_pubkey, &authority);
    let (r, accounts) = run(&ix, vec![mint_state.clone(), token_state, wallet()], no_tokenomics());
    assert_eq!(r, Ok(()));
    let frozen = Aeko20Account::deserialize_padded(&accounts[1]).unwrap();
    assert!(frozen.frozen);

    let ix = instruction::thaw_account(&id(), &mint_pubkey, &token_account_pubkey, &authority);
    let (r, accounts) = run(&ix, vec![mint_state, (id(), accounts[1].clone()), wallet()], no_tokenomics());
    assert_eq!(r, Ok(()));
    let thawed = Aeko20Account::deserialize_padded(&accounts[1]).unwrap();
    assert!(!thawed.frozen);
}

#[test]
fn set_mint_authority_rotates_authority() {
    let authority = key(1);
    let new_authority = key(15);
    let mint_pubkey = key(2);
    let mint_state = account(id(), &aeko20_mint_to_vec(&sample_mint(authority, None, MintPolicy::AuthorityGated)).unwrap());
    let ix = instruction::set_mint_authority(&id(), &mint_pubkey, &authority, Some(new_authority));
    let (r, accounts) = run(&ix, vec![mint_state, wallet()], no_tokenomics());
    assert_eq!(r, Ok(()));
    let updated = Aeko20Mint::deserialize_padded(&accounts[0]).unwrap();
    assert_eq!(updated.mint_authority, Some(new_authority));
}

#[test]
fn emissions_controlled_mint_uses_tokenomics_authority() {
    let governance = key(16);
    let mint_pubkey = key(2);
    let destination_pubkey = key(17);
    let tokenomics_state_pubkey = key(18);
    let mint_account = account(id(), &aeko20_mint_to_vec(&sample_mint(governance, Some(500_000_000_000), MintPolicy::EmissionsControlled)).unwrap());
    let destination_account = account(id(), &aeko20_account_to_vec(&Aeko20Account { owner: key(19), mint: mint_pubkey, balance: 0, frozen: false }));
    let tokenomics_account = account(tokenomics_program(), &[1u8; 64]);
    let tk = TokenomicsGovernance { program_id: tokenomics_program(), authorities: Some((governance, governance)) };

    let ix = instruction::mint_emissions_to(&id(), &mint_pubkey, &destination_pubkey, &tokenomics_state_pubkey, &governance, 1_500);
    let (r, accounts) = run(&ix, vec![mint_account, destination_account, tokenomics_account, wallet()], tk);
    assert_eq!(r, Ok(()));
    let updated_mint = Aeko20Mint::deserialize_padded(&accounts[0]).unwrap();
    let updated_destination = Aeko20Account::deserialize_padded(&accounts[1]).unwrap();
    assert_eq!(updated_mint.total_supply, 1_500);
    assert_eq!(updated_destination.balance, 1_500);
}

#[test]
fn transfer_beyond_balance_is_refused_and_changes_nothing() {
    let alice = key(20);
    let mint_pubkey = key(2);
    let src = account(id(), &aeko20_account_to_vec(&Aeko20Account { owner: alice, mint: mint_pubkey, balance: 50, frozen: false }));
    let dst = account(id(), &aeko20_account_to_vec(&Aeko20Account { owner: key(21), mint: mint_pubkey, balance: 0, frozen: false }));
    let ix = instruction::transfer(&id(), &key(22), &key(23), &alice, 51);
    let (r, accounts) = run(&ix, vec![src.clone(), dst.clone(), wallet()], no_tokenomics());
    assert_eq!(r, Err(InstructionError::InsufficientFunds));
    assert_eq!(accounts[0], src.1);
    assert_eq!(accounts[1], dst.1);
}

#[test]
fn transfer_into_the_same_account_is_a_borrow_failure() {
    let alice = key(20);
    let src = account(id(), &aeko20_account_to_vec(&Aeko20Account { owner: alice, mint: key(2), balance: 50, frozen: false }));
    let ix = instruction::transfer(&id(), &key(22), &key(22), &alice, 10);
    let (r, _) = run(&ix, vec![src.clone(), src, wallet()], no_tokenomics());
    assert_eq!(r, Err(InstructionError::AccountBorrowFailed));
}

#[test]
fn emissions_mint_by_a_stranger_is_refused() {
    let governance = key(16);
    let mint_account = account(id(), &aeko20_mint_to_vec(&sample_mint(governance, None, MintPolicy::EmissionsControlled)).unwrap());
    let destination_account = account(id(), &aeko20_account_to_vec(&Aeko20Account { owner: key(19), mint: key(2), balance: 0, frozen: false }));
    let tk = TokenomicsGovernance { program_id: tokenomics_program(), authorities: Some((governance, governance)) };
    let ix = instruction::mint_emissions_to(&id(), &key(2), &key(17), &key(18), &key(30), 5);
    let (r, _) = run(&ix, vec![mint_account.clone(), destination_account.clone(), account(tokenomics_program(), &[1u8]), wallet()], tk);
    assert_eq!(r, Err(InstructionError::IncorrectAuthority));
    let (r, _) = run(&ix, vec![mint_account, destination_account, account(key(99), &[1u8]), wallet()], tk);
    assert_eq!(r, Err(InstructionError::InvalidAccountOwner));
}

#[test]
fn minting_beyond_the_cap_is_refused() {
    let authority = key(1);
    let mint_account = account(id(), &aeko20_mint_to_vec(&sample_mint(authority, Some(100), MintPolicy::AuthorityGated)).unwrap());
    let dest = account(id(), &aeko20_account_to_vec(&Aeko20Account { owner: key(3), mint: key(2), balance: 0, frozen: false }));
    let ix = instruction::mint_to(&id(), &key(2), &key(5), &authority, 101);
    let (r, _) = run(&ix, vec![mint_account.clone(), dest.clone(), wallet()], no_tokenomics());
    assert_eq!(r, Err(InstructionError::InvalidArgument));
    let ix = instruction::mint_to(&id(), &key(2), &key(5), &authority, 100);
    let (r, accounts) = run(&ix, vec![mint_account, dest, wallet()], no_tokenomics());
    assert_eq!(r, Ok(()));
    assert_eq!(Aeko20Account::deserialize_padded(&accounts[1]).unwrap().balance, 100);
}
