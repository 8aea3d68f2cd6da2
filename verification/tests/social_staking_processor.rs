use aeko_programs::errors::InstructionError;
use aeko_programs::pubkey::Pubkey;
use aeko_programs::runtime::{AccountInfo, AccountMeta, Instruction, InstructionContext};
use aeko_programs::social_staking::instruction;
use aeko_programs::social_staking::processor::{ProcessStep, Processor, SystemTransfer};
use aeko_programs::social_staking::types::{
    social_staking_state_account_to_vec, SocialStakeConfig, SocialStakePosition, SocialStakeState,
    SocialStakingError, SocialStakingStateAccount, StakeYieldRecord,
};

fn key(n: u8) -> Pubkey {
    Pubkey::new_from_array([n; 32])
}

fn program() -> Pubkey {
    key(237)
}

const STATE: u8 = 100;
const VAULT: u8 = 101;
const STAKER: u8 = 3;

/// Runs `ix`; the state and the vault are owned by the program, the vault
/// holding `vault_lamports`. Returns the result, the state data and each
/// account's lamports.
fn run(ix: &Instruction, state: &[u8], vault_lamports: u64) -> (Result<ProcessStep, InstructionError>, Vec<u8>, Vec<u64>) {
    let infos = ix
        .accounts
        .iter()
        .map(|m| {
            let (owner, data, lamports) = if m.pubkey == key(STATE) {
                let mut d = vec![0u8; 4096];
                d[..state.len()].copy_from_slice(state);
                (program(), d, 1)
            } else if m.pubkey == key(VAULT) {
                (program(), Vec::new(), vault_lamports)
            } else {
                (key(240), Vec::new(), 10)
            };
            AccountInfo { key: m.pubkey, owner, is_signer: m.is_signer, is_writable: m.is_writable, lamports, data }
        })
        .collect();
    let mut ctx = InstructionContext { program_id: ix.program_id, accounts: infos, return_data: None };
    let r = Processor::process(&mut ctx, &ix.data);
    let lamports = ctx.accounts.iter().map(|a| a.lamports).collect();
    (r, ctx.accounts[0].data.clone(), lamports)
}

fn with_vault(mut ix: Instruction) -> Instruction {
    ix.accounts.push(AccountMeta { pubkey: key(VAULT), is_signer: false, is_writable: true });
    ix
}

fn custom(e: SocialStakingError) -> InstructionError {
    InstructionError::Custom(e.code())
}

/// A state whose encoding ends in a non-zero byte, so that it reads back.
fn readable_state() -> SocialStakingStateAccount {
    let mut s = SocialStakingStateAccount::new(SocialStakeConfig {
        authority: key(1),
        stake_vault: key(VAULT),
        reward_vault: key(VAULT),
        min_stake_amount: 100,
        cooldown_epochs: 3,
        staking_enabled: true,
    });
    s.yield_records.push(StakeYieldRecord { epoch: 1, position_id: [9u8; 32], creator: key(4), staker: key(5), yield_amount: 1 << 56 });
    s
}

fn position(state: SocialStakeState, unlock: Option<u64>) -> SocialStakePosition {
    SocialStakePosition {
        position_id: [1u8; 32],
        staker: key(STAKER),
        creator: key(4),
        staked_amount: 500,
        activated_at_epoch: 10,
        unlock_epoch: unlock,
        accumulated_yield: 0,
        claimed_yield: 0,
        state,
    }
}

#[test]
fn opening_a_position_asks_for_the_stake_transfer() {
    let bytes = social_staking_state_account_to_vec(&readable_state()).unwrap();
    let bare = instruction::open_position(&program(), &key(STATE), &key(STAKER), position(SocialStakeState::Active, None));
    assert!(matches!(run(&bare, &bytes, 0).0, Err(InstructionError::NotEnoughAccountKeys)));

    let ix = with_vault(bare);
    let (r, data, _) = run(&ix, &bytes, 0);
    match r {
        Ok(ProcessStep::Transfer(t)) => assert_eq!(t, SystemTransfer { from: key(STAKER), to: key(VAULT), lamports: 500 }),
        other => panic!("expected a transfer, got {:?}", other),
    }
    let stored = SocialStakingStateAccount::deserialize_padded(&data).unwrap();
    assert_eq!(stored.positions, vec![position(SocialStakeState::Active, None)]);
    assert!(matches!(run(&ix, &data, 0).0, Err(InstructionError::Custom(c)) if c == SocialStakingError::PositionAlreadyExists.code()));

    let mut low = position(SocialStakeState::Active, None);
    low.staked_amount = 99;
    let low_ix = with_vault(instruction::open_position(&program(), &key(STATE), &key(STAKER), low));
    assert!(matches!(run(&low_ix, &bytes, 0).0, Err(e) if e == custom(SocialStakingError::StakeTooLow)));
}

#[test]
fn unstake_waits_for_the_cooldown_then_pays_back() {
    let mut s = readable_state();
    s.positions.push(position(SocialStakeState::Active, None));
    let bytes = social_staking_state_account_to_vec(&s).unwrap();

    let early = instruction::request_unstake(&program(), &key(STATE), &key(STAKER), [1u8; 32], 12);
    assert!(matches!(run(&early, &bytes, 0).0, Err(e) if e == custom(SocialStakingError::InvalidUnstakeEpoch)));
    let request = instruction::request_unstake(&program(), &key(STATE), &key(STAKER), [1u8; 32], 13);
    let (r, data, _) = run(&request, &bytes, 0);
    assert!(matches!(r, Ok(ProcessStep::Done)));
    let stored = SocialStakingStateAccount::deserialize_padded(&data).unwrap();
    assert_eq!(stored.positions[0], position(SocialStakeState::CoolingDown, Some(13)));

    let too_soon = with_vault(instruction::finalize_unstake(&program(), &key(STATE), &key(STAKER), [1u8; 32], 12));
    assert!(matches!(run(&too_soon, &data, 1_000).0, Err(e) if e == custom(SocialStakingError::CooldownNotReached)));
    let finalize = with_vault(instruction::finalize_unstake(&program(), &key(STATE), &key(STAKER), [1u8; 32], 13));
    let (r, closed, lamports) = run(&finalize, &data, 1_000);
    assert!(matches!(r, Ok(ProcessStep::Done)));
    assert_eq!(SocialStakingStateAccount::deserialize_padded(&closed).unwrap().positions[0].state, SocialStakeState::Closed);
    assert_eq!(lamports, vec![1, 510, 500]);
    assert!(matches!(run(&finalize, &closed, 1_000).0, Err(e) if e == custom(SocialStakingError::PositionNotActive)));
    let (r, _, _) = run(&finalize, &data, 499);
    assert!(matches!(r, Err(InstructionError::InsufficientFunds)));
}
