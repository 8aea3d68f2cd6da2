use aeko_programs::errors::ProgramError;
use aeko_programs::pubkey::Pubkey;
use aeko_programs::social_anti_spam::processor::Processor as AntiSpamProcessor;
use aeko_programs::social_anti_spam::types::{AntiSpamConfig, AntiSpamMode, AntiSpamProfile, SocialAntiSpamError, SocialAntiSpamStateAccount};
use aeko_programs::social_monetization::processor::Processor as MonetizationProcessor;
use aeko_programs::social_monetization::types::{
    MonetizationConfig, PaidContentUnlockRecord, SocialMonetizationStateAccount, SubscriptionRecord, SubscriptionState,
};
use aeko_programs::social_posts::processor::Processor as PostsProcessor;
use aeko_programs::social_posts::types::{
    EngagementActionKind, EngagementProof, ModerationState, PostAnchor, PostKind, SocialPostsConfig,
    SocialPostsStateAccount, VisibilityClass,
};
use aeko_programs::social_rewards::processor::Processor as RewardsProcessor;
use aeko_programs::social_rewards::types::{
    CreatorEpochInput, RewardConfig, RewardSettlementInput, SocialRewardsError, SocialRewardsStateAccount,
};
use aeko_programs::social_staking::types::{
    SocialStakeConfig, SocialStakePosition, SocialStakeState, SocialStakingStateAccount, StakeYieldRecord,
};

fn key(n: u8) -> Pubkey {
    Pubkey::new_from_array([n; 32])
}

fn anti_spam_state(mode: AntiSpamMode) -> SocialAntiSpamStateAccount {
    SocialAntiSpamStateAccount::new(AntiSpamConfig {
        authority: key(1),
        mode,
        min_post_stake: 500,
        min_post_reputation: 400,
        cooldown_epochs: 3,
        slash_bps: 100,
    })
}

#[test]
fn gate_by_reputation_rejects_low_score() {
    let state = anti_spam_state(AntiSpamMode::GateByReputation);
    let result = AntiSpamProcessor::evaluate_eligibility(&state, key(2), 10, 200, 1_000);
    assert!(result.is_err());
}

#[test]
fn gate_by_stake_rejects_low_stake() {
    let state = anti_spam_state(AntiSpamMode::GateByStake);
    let result = AntiSpamProcessor::evaluate_eligibility(&state, key(2), 10, 999, 100);
    assert!(result.is_err());
}

#[test]
fn cooldown_profile_rejects_actions_until_epoch_passes() {
    let wallet = key(3);
    let mut state = anti_spam_state(AntiSpamMode::ObserveOnly);
    state.profiles.push(AntiSpamProfile {
        wallet,
        post_count_window: 0,
        engagement_count_window: 0,
        spam_flags: 1,
        gated_until_epoch: Some(15),
        slash_count: 0,
        last_flagged_at_unix: None,
    });
    let blocked = AntiSpamProcessor::evaluate_eligibility(&state, wallet, 14, 999, 999);
    assert!(blocked.is_err());
    let allowed = AntiSpamProcessor::evaluate_eligibility(&state, wallet, 15, 999, 999);
    assert!(allowed.is_ok());
}

#[test]
fn penalty_mode_updates_slash_and_cooldown_state() {
    let wallet = key(4);
    let mut state = anti_spam_state(AntiSpamMode::PenaltyEnabled);
    AntiSpamProcessor::apply_penalty_to_profile(&mut state, wallet);
    let profile = state.profile_for_wallet(&wallet).expect("profile");
    assert_eq!(profile.slash_count, 1);
    assert_eq!(profile.spam_flags, 1);
    assert_eq!(profile.gated_until_epoch, Some(3));
}

#[test]
fn eligibility_errors_name_their_reason() {
    let rep = anti_spam_state(AntiSpamMode::GateByReputation);
    assert_eq!(
        AntiSpamProcessor::evaluate_eligibility(&rep, key(5), 1, 399, 0),
        Err(ProgramError::Custom(SocialAntiSpamError::ReputationTooLow.code()))
    );
    assert!(AntiSpamProcessor::evaluate_eligibility(&rep, key(5), 1, 400, 0).is_ok());
    let stake = anti_spam_state(AntiSpamMode::GateByStake);
    assert_eq!(
        AntiSpamProcessor::evaluate_eligibility(&stake, key(5), 1, 0, 499),
        Err(ProgramError::Custom(SocialAntiSpamError::StakeTooLow.code()))
    );
    assert!(AntiSpamProcessor::evaluate_eligibility(&anti_spam_state(AntiSpamMode::ObserveOnly), key(5), 1, 0, 0).is_ok());
}

fn monetization_state(platform_fee_bps: u16) -> SocialMonetizationStateAccount {
    SocialMonetizationStateAccount::new(MonetizationConfig {
        authority: key(10),
        treasury: key(11),
        platform_fee_bps,
        subscriptions_enabled: true,
        paid_content_enabled: true,
    })
}

#[test]
fn platform_fee_reduces_creator_claimable_amount() {
    let creator = key(12);
    let mut state = monetization_state(500);
    MonetizationProcessor::credit_creator(&mut state, creator, 1_000);
    let revenue = state.revenues.iter().find(|entry| entry.creator == creator).unwrap();
    assert_eq!(revenue.claimable_amount, 950);
    assert_eq!(revenue.total_earned, 950);
}

#[test]
fn subscription_lifecycle_changes_state() {
    let creator = key(13);
    let subscriber = key(14);
    let mut state = monetization_state(0);
    state.subscriptions.push(SubscriptionRecord {
        subscription_id: [1u8; 32],
        creator,
        subscriber,
        amount_per_period: 100,
        period_seconds: 30,
        started_at_unix: 10,
        valid_until_unix: 40,
        state: SubscriptionState::Active,
    });
    let subscription = state.subscriptions.first_mut().unwrap();
    subscription.valid_until_unix = 70;
    assert_eq!(subscription.state, SubscriptionState::Active);
    subscription.state = SubscriptionState::Canceled;
    assert_eq!(subscription.state, SubscriptionState::Canceled);
}

#[test]
fn duplicate_unlock_detection_is_possible() {
    let mut state = monetization_state(0);
    state.unlocks.push(PaidContentUnlockRecord {
        unlock_id: [9u8; 32],
        content_id: [7u8; 32],
        creator: key(15),
        buyer: key(16),
        amount: 200,
        unlocked_at_unix: 33,
    });
    assert!(state.unlock_exists(&[9u8; 32]));
    assert!(!state.unlock_exists(&[8u8; 32]));
}

#[test]
fn repeated_credit_accumulates_and_fee_truncates() {
    let creator = key(17);
    let mut state = monetization_state(333);
    assert_eq!(MonetizationProcessor::creator_net_amount(&state, 1_000), 967);
    MonetizationProcessor::credit_creator(&mut state, creator, 1_000);
    MonetizationProcessor::credit_creator(&mut state, creator, 10);
    assert_eq!(state.revenues.len(), 1);
    assert_eq!(state.revenues[0].claimable_amount, 967 + 10);
    assert_eq!(state.revenues[0].total_earned, 977);
    assert_eq!(MonetizationProcessor::creator_net_amount(&monetization_state(20_000), 100), 0);
}

fn posts_state() -> SocialPostsStateAccount {
    SocialPostsStateAccount::new(SocialPostsConfig {
        authority: key(20),
        posting_enabled: true,
        engagement_enabled: true,
        max_content_uri_len: 128,
    })
}

fn test_post(creator: Pubkey) -> PostAnchor {
    PostAnchor {
        post_id: [1u8; 32],
        creator,
        content_hash: [2u8; 32],
        metadata_hash: [3u8; 32],
        content_uri: "ipfs://post/1".to_string(),
        parent_post_id: None,
        post_kind: PostKind::Original,
        created_at_unix: 1_700_000_000,
        edited_at_unix: None,
        visibility: VisibilityClass::Public,
        moderation_state: ModerationState::Active,
        signature_ref: None,
    }
}

#[test]
fn validate_post_anchor_rejects_duplicates() {
    let creator = key(21);
    let mut state = posts_state();
    let post = test_post(creator);
    state.posts.push(post.clone());
    let result = PostsProcessor::validate_post_anchor(&state, &post);
    assert!(result.is_err());
}

#[test]
fn validate_engagement_proof_rejects_duplicate_replay_guard() {
    let creator = key(22);
    let actor = key(23);
    let mut state = posts_state();
    state.posts.push(test_post(creator));
    state.engagement_proofs.push(EngagementProof {
        proof_id: [4u8; 32],
        actor,
        target_post_id: Some([1u8; 32]),
        target_creator: creator,
        action_kind: EngagementActionKind::Like,
        action_weight: 1,
        slot: 9,
        unix_timestamp: 1_700_000_010,
        replay_guard: [8u8; 32],
    });
    let result = PostsProcessor::validate_engagement_proof(
        &state,
        &EngagementProof {
            proof_id: [5u8; 32],
            actor,
            target_post_id: Some([1u8; 32]),
            target_creator: creator,
            action_kind: EngagementActionKind::Share,
            action_weight: 2,
            slot: 10,
            unix_timestamp: 1_700_000_020,
            replay_guard: [8u8; 32],
        },
    );
    assert!(result.is_err());
}

#[test]
fn post_anchor_validation_checks_uri_and_time() {
    let state = posts_state();
    let mut post = test_post(key(24));
    assert!(PostsProcessor::validate_post_anchor(&state, &post).is_ok());
    post.content_uri = String::new();
    assert!(PostsProcessor::validate_post_anchor(&state, &post).is_err());
    post.content_uri = "x".repeat(129);
    assert!(PostsProcessor::validate_post_anchor(&state, &post).is_err());
    post.content_uri = "x".repeat(128);
    assert!(PostsProcessor::validate_post_anchor(&state, &post).is_ok());
    post.created_at_unix = 0;
    assert!(PostsProcessor::validate_post_anchor(&state, &post).is_err());
}

fn rewards_state(min_claim_amount: u64) -> SocialRewardsStateAccount {
    SocialRewardsStateAccount::new(RewardConfig {
        authority: key(30),
        treasury: key(31),
        reward_vault: key(32),
        settlement_authority: key(33),
        min_claim_amount,
        rewards_enabled: true,
    })
}

#[test]
fn settlement_distributes_reward_pool_by_effective_points() {
    let mut state = rewards_state(10);
    let creator_a = key(34);
    let creator_b = key(35);
    let settlement = RewardsProcessor::settle_epoch_rewards(
        &mut state,
        RewardSettlementInput {
            epoch: 7,
            reward_pool_amount: 1_000,
            creator_entries: vec![
                CreatorEpochInput { creator: creator_a, earned_points: 100, penalty_bps: 0, reputation_multiplier_bps: 10_000 },
                CreatorEpochInput { creator: creator_b, earned_points: 100, penalty_bps: 5_000, reputation_multiplier_bps: 10_000 },
            ],
        },
    )
    .expect("settlement should succeed");
    assert_eq!(settlement.epoch, 7);
    assert_eq!(settlement.reward_pool_amount, 1_000);
    assert_eq!(settlement.total_effective_points, 150);
    let creator_a_reward = state.creators.iter().find(|entry| entry.creator == creator_a).expect("creator a reward");
    let creator_b_reward = state.creators.iter().find(|entry| entry.creator == creator_b).expect("creator b reward");
    assert_eq!(creator_a_reward.claimable_amount, 666);
    assert_eq!(creator_b_reward.claimable_amount, 333);
}

#[test]
fn settlement_rejects_duplicate_epoch() {
    let mut state = rewards_state(10);
    let input = RewardSettlementInput {
        epoch: 9,
        reward_pool_amount: 500,
        creator_entries: vec![CreatorEpochInput { creator: key(36), earned_points: 100, penalty_bps: 0, reputation_multiplier_bps: 10_000 }],
    };
    RewardsProcessor::settle_epoch_rewards(&mut state, input.clone()).expect("first settlement");
    let second = RewardsProcessor::settle_epoch_rewards(&mut state, input);
    assert!(second.is_err());
    assert_eq!(second, Err(ProgramError::Custom(SocialRewardsError::EpochAlreadySettled.code())));
}

#[test]
fn settlement_rewards_stay_within_the_pool() {
    let mut state = rewards_state(0);
    let input = RewardSettlementInput {
        epoch: 3,
        reward_pool_amount: 100,
        creator_entries: vec![
            CreatorEpochInput { creator: key(40), earned_points: 10, penalty_bps: 0, reputation_multiplier_bps: 10_000 },
            CreatorEpochInput { creator: key(41), earned_points: 10, penalty_bps: 0, reputation_multiplier_bps: 10_000 },
            CreatorEpochInput { creator: key(42), earned_points: 10, penalty_bps: 0, reputation_multiplier_bps: 10_000 },
        ],
    };
    let settlement = RewardsProcessor::settle_epoch_rewards(&mut state, input).unwrap();
    assert_eq!(settlement.total_effective_points, 30);
    assert_eq!(settlement.settled_creator_count, 3);
    let total: u64 = state.epochs.iter().map(|r| r.reward_amount).sum();
    assert_eq!(total, 99);
    assert!(state.epochs.iter().all(|r| r.reward_amount == 33));
}

#[test]
fn settlement_without_points_or_pool_is_refused() {
    let mut state = rewards_state(0);
    let zero_points = RewardSettlementInput {
        epoch: 1,
        reward_pool_amount: 100,
        creator_entries: vec![CreatorEpochInput { creator: key(43), earned_points: 0, penalty_bps: 0, reputation_multiplier_bps: 10_000 }],
    };
    let invalid = Err(ProgramError::Custom(SocialRewardsError::InvalidSettlementInput.code()));
    assert_eq!(RewardsProcessor::settle_epoch_rewards(&mut state, zero_points), invalid);
    let no_pool = RewardSettlementInput { epoch: 1, reward_pool_amount: 0, creator_entries: vec![] };
    assert_eq!(RewardsProcessor::settle_epoch_rewards(&mut state, no_pool), invalid);
    assert!(state.settlements.is_empty());
}

#[test]
fn effective_points_weigh_multiplier_and_penalty() {
    let entry = CreatorEpochInput { creator: key(44), earned_points: 1_000, penalty_bps: 2_500, reputation_multiplier_bps: 15_000 };
    assert_eq!(RewardsProcessor::to_effective_points(&entry).1, 1_125);
    let small = CreatorEpochInput { creator: key(44), earned_points: 5_000, penalty_bps: 0, reputation_multiplier_bps: 0 };
    assert_eq!(RewardsProcessor::to_effective_points(&small).1, 0);
}

fn staking_state(min_stake_amount: u64, cooldown_epochs: u64) -> SocialStakingStateAccount {
    SocialStakingStateAccount::new(SocialStakeConfig {
        authority: key(50),
        stake_vault: key(51),
        reward_vault: key(52),
        min_stake_amount,
        cooldown_epochs,
        staking_enabled: true,
    })
}

fn test_position(staker: Pubkey, creator: Pubkey, position_id: [u8; 32], staked_amount: u64, activated_at_epoch: u64) -> SocialStakePosition {
    SocialStakePosition {
        position_id,
        staker,
        creator,
        staked_amount,
        activated_at_epoch,
        unlock_epoch: None,
        accumulated_yield: 0,
        claimed_yield: 0,
        state: SocialStakeState::Active,
    }
}

#[test]
fn open_request_finalize_state_machine_is_consistent() {
    let id = [1u8; 32];
    let mut state = staking_state(100, 3);
    state.positions.push(test_position(key(53), key(54), id, 500, 10));
    let p = state.positions.first_mut().unwrap();
    p.state = SocialStakeState::CoolingDown;
    p.unlock_epoch = Some(13);
    assert_eq!(p.unlock_epoch, Some(13));
    p.state = SocialStakeState::Closed;
    assert_eq!(p.state, SocialStakeState::Closed);
}

#[test]
fn record_yield_updates_position() {
    let id = [2u8; 32];
    let staker = key(55);
    let creator = key(56);
    let mut state = staking_state(100, 3);
    state.positions.push(test_position(staker, creator, id, 500, 7));
    let record = StakeYieldRecord { epoch: 8, position_id: id, creator, staker, yield_amount: 120 };
    state.positions.first_mut().unwrap().accumulated_yield += record.yield_amount;
    state.yield_records.push(record);
    assert_eq!(state.positions[0].accumulated_yield, 120);
    assert!(state.position_exists(&id));
}

#[test]
fn a_refused_entry_leaves_the_entries_before_it_booked() {
    let mut state = rewards_state(0);
    let input = RewardSettlementInput {
        epoch: 5,
        reward_pool_amount: 100,
        creator_entries: vec![
            CreatorEpochInput { creator: key(45), earned_points: 10, penalty_bps: 0, reputation_multiplier_bps: 10_000 },
            CreatorEpochInput { creator: key(45), earned_points: 10, penalty_bps: 0, reputation_multiplier_bps: 10_000 },
            CreatorEpochInput { creator: key(46), earned_points: 10, penalty_bps: 0, reputation_multiplier_bps: 10_000 },
        ],
    };
    let r = RewardsProcessor::settle_epoch_rewards(&mut state, input);
    assert_eq!(r, Err(ProgramError::Custom(SocialRewardsError::EpochAlreadyRecorded.code())));
    assert_eq!(state.epochs.len(), 1);
    assert_eq!(state.epochs[0].creator, key(45));
    assert_eq!(state.epochs[0].reward_amount, 33);
    assert_eq!(state.creators.len(), 1);
    assert!(state.settlements.is_empty());
}
