use aeko_programs::errors::InstructionError;
use aeko_programs::pubkey::Pubkey;
use aeko_programs::runtime::{AccountInfo, Instruction, InstructionContext};
use aeko_programs::social_rewards::instruction;
use aeko_programs::social_rewards::processor::Processor;
use aeko_programs::social_rewards::types::{
    creator_reward_account_to_vec, reward_epoch_settlement_from_slice, social_rewards_state_account_to_vec,
    CreatorEpochInput, CreatorRewardAccount, RewardConfig, RewardEpochSettlement, RewardSettlementInput,
    SocialRewardsError, SocialRewardsStateAccount,
};

fn key(n: u8) -> Pubkey {
    Pubkey::new_from_array([n; 32])
}

fn program() -> Pubkey {
    key(236)
}

const STATE: u8 = 100;
const AUTHORITY: u8 = 1;
const CREATOR: u8 = 3;

/// Runs `ix` with the state account (owned by the program) holding `state`
/// followed by zeros; returns the result, the state data and the return data.
fn run(ix: &Instruction, state: &[u8]) -> (Result<(), InstructionError>, Vec<u8>, Option<(Pubkey, Vec<u8>)>) {
    let infos = ix
        .accounts
        .iter()
        .map(|m| {
            let (owner, data) = if m.pubkey == key(STATE) {
                let mut d = vec![0u8; 4096];
                d[..state.len()].copy_from_slice(state);
                (program(), d)
            } else {
                (key(240), Vec::new())
            };
            AccountInfo { key: m.pubkey, owner, is_signer: m.is_signer, is_writable: m.is_writable, lamports: 1, data }
        })
        .collect();
    let mut ctx = InstructionContext { program_id: ix.program_id, accounts: infos, return_data: None };
    let r = Processor::process(&mut ctx, &ix.data);
    (r, ctx.accounts[0].data.clone(), ctx.return_data)
}

fn custom(e: SocialRewardsError) -> InstructionError {
    InstructionError::Custom(e.code())
}

fn config() -> RewardConfig {
    RewardConfig {
        authority: key(AUTHORITY),
        treasury: key(10),
        reward_vault: key(11),
        settlement_authority: key(12),
        min_claim_amount: 10,
        rewards_enabled: true,
    }
}

/// A state whose encoding ends in a non-zero byte (the last settlement's
/// creator count is 2^24), so that it reads back.
fn readable_state() -> SocialRewardsStateAccount {
    let mut s = SocialRewardsStateAccount::new(config());
    s.creators.push(CreatorRewardAccount { creator: key(CREATOR), total_earned: 500, total_claimed: 0, claimable_amount: 500, last_settled_epoch: 1 });
    s.settlements.push(RewardEpochSettlement { epoch: 1, reward_pool_amount: 500, total_effective_points: 5, settled_creator_count: 1 << 24 });
    s
}

#[test]
fn fresh_rewards_state_ending_in_zeros_does_not_load() {
    let state = SocialRewardsStateAccount::new(config());
    let init = instruction::initialize_config(&program(), &key(STATE), &key(2), &key(AUTHORITY), state.clone());
    let (r, data, _) = run(&init, &[]);
    assert_eq!(r, Ok(()));
    assert!(data.starts_with(&social_rewards_state_account_to_vec(&state).unwrap()));
    let read = instruction::read_reward_state(&program(), &key(STATE), None);
    assert_eq!(run(&read, &data).0, Err(InstructionError::InvalidAccountData));
}

#[test]
fn creator_claims_and_reads_back_the_account() {
    let bytes = social_rewards_state_account_to_vec(&readable_state()).unwrap();
    let too_small = instruction::claim_creator_reward(&program(), &key(STATE), &key(CREATOR), key(CREATOR), 5);
    assert_eq!(run(&too_small, &bytes).0, Err(custom(SocialRewardsError::ClaimBelowMinimum)));
    let too_much = instruction::claim_creator_reward(&program(), &key(STATE), &key(CREATOR), key(CREATOR), 501);
    assert_eq!(run(&too_much, &bytes).0, Err(custom(SocialRewardsError::NothingToClaim)));
    let stranger = instruction::claim_creator_reward(&program(), &key(STATE), &key(9), key(CREATOR), 200);
    assert_eq!(run(&stranger, &bytes).0, Err(custom(SocialRewardsError::Unauthorized)));

    let claim = instruction::claim_creator_reward(&program(), &key(STATE), &key(CREATOR), key(CREATOR), 200);
    let (r, data, _) = run(&claim, &bytes);
    assert_eq!(r, Ok(()));
    let read = instruction::read_reward_state(&program(), &key(STATE), Some(key(CREATOR)));
    let (r, _, ret) = run(&read, &data);
    assert_eq!(r, Ok(()));
    let expected = CreatorRewardAccount { creator: key(CREATOR), total_earned: 500, total_claimed: 200, claimable_amount: 300, last_settled_epoch: 1 };
    let mut encoded = vec![1u8];
    encoded.extend(creator_reward_account_to_vec(&expected));
    assert_eq!(ret, Some((program(), encoded)));
    let unknown = instruction::read_reward_state(&program(), &key(STATE), Some(key(44)));
    assert_eq!(run(&unknown, &data).2, Some((program(), vec![0u8])));
}

#[test]
fn settlement_through_the_processor_returns_the_settlement() {
    let bytes = social_rewards_state_account_to_vec(&readable_state()).unwrap();
    let input = RewardSettlementInput {
        epoch: 2,
        reward_pool_amount: 90,
        creator_entries: vec![CreatorEpochInput { creator: key(CREATOR), earned_points: 300, penalty_bps: 0, reputation_multiplier_bps: 10_000 }],
    };
    let by_stranger = instruction::settle_reward_epoch(&program(), &key(STATE), &key(9), input.clone());
    assert_eq!(run(&by_stranger, &bytes).0, Err(custom(SocialRewardsError::Unauthorized)));
    let settle = instruction::settle_reward_epoch(&program(), &key(STATE), &key(12), input);
    let (r, _, ret) = run(&settle, &bytes);
    assert_eq!(r, Ok(()));
    let (program_id, data) = ret.unwrap();
    assert_eq!(program_id, program());
    let settlement = reward_epoch_settlement_from_slice(&data).unwrap();
    assert_eq!(settlement, RewardEpochSettlement { epoch: 2, reward_pool_amount: 90, total_effective_points: 300, settled_creator_count: 1 });
}
