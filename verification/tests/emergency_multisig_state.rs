use aeko_programs::emergency_multisig::types::{MultisigConfig, Proposal, ProposalStatus, ProposedAction};
use aeko_programs::errors::ProgramError;
use aeko_programs::pubkey::Pubkey;

fn key(n: u8) -> Pubkey {
    Pubkey::new_from_array([n; 32])
}

fn dummy_config(freeze_q: u8, revoke_q: u8) -> MultisigConfig {
    let authority = key(100);
    let signers: Vec<Pubkey> = (0..5u8).map(|i| key(i + 1)).collect();
    MultisigConfig::new(authority, signers, freeze_q, revoke_q, revoke_q, 1)
}

fn dummy_proposal(required: u8, expires_at: u64) -> Proposal {
    Proposal {
        proposal_id: [1u8; 32],
        proposer: key(50),
        action: ProposedAction::FreezeSubnet { subnet_id: [2u8; 32], reason_code: 1 },
        status: ProposalStatus::Pending,
        approval_count: 0,
        required_approvals: required,
        created_at_slot: 1,
        expires_at_slot: expires_at,
    }
}

#[test]
fn quorum_met_only_when_count_reaches_required() {
    let mut p = dummy_proposal(3, 1000);
    assert!(!p.quorum_met());
    p.approval_count = 2;
    assert!(!p.quorum_met());
    p.approval_count = 3;
    assert!(p.quorum_met());
}

#[test]
fn expiry_works_correctly() {
    let p = dummy_proposal(3, 100);
    assert!(!p.is_expired(100));
    assert!(p.is_expired(101));
}

#[test]
fn ensure_executable_fails_when_not_quorum() {
    let p = dummy_proposal(3, 1000);
    assert!(p.ensure_executable(50).is_err());
}

#[test]
fn ensure_executable_fails_when_expired() {
    let mut p = dummy_proposal(1, 100);
    p.approval_count = 1;
    assert!(p.ensure_executable(101).is_err());
}

#[test]
fn ensure_executable_succeeds_with_quorum_and_not_expired() {
    let mut p = dummy_proposal(2, 1000);
    p.approval_count = 2;
    assert!(p.ensure_executable(500).is_ok());
}

#[test]
fn is_signer_includes_upgrade_authority() {
    let authority = key(7);
    let config = MultisigConfig::new(authority, vec![], 3, 4, 4, 1);
    assert!(config.is_signer(&authority));
    assert!(!config.is_signer(&key(8)));
}

#[test]
fn required_approvals_matches_action_type() {
    let config = dummy_config(3, 4);
    assert_eq!(
        config.required_approvals(&ProposedAction::FreezeSubnet { subnet_id: [0u8; 32], reason_code: 0 }),
        3
    );
    assert_eq!(
        config.required_approvals(&ProposedAction::EmergencyRevokeKey { key_id: [0u8; 32], reason_code: 0 }),
        4
    );
}

#[test]
fn executed_or_cancelled_proposal_is_refused_with_its_code() {
    let mut p = dummy_proposal(1, 1000);
    p.approval_count = 1;
    p.status = ProposalStatus::Executed;
    let executed = p.ensure_executable(10);
    p.status = ProposalStatus::Cancelled;
    let cancelled = p.ensure_executable(10);
    assert!(matches!(executed, Err(ProgramError::Custom(_))));
    assert!(matches!(cancelled, Err(ProgramError::Custom(_))));
    assert_ne!(executed, cancelled);
}

#[test]
fn listed_signer_is_signer_and_policy_quorum_applies_to_upgrades() {
    let config = dummy_config(2, 5);
    assert!(config.is_signer(&key(3)));
    assert!(config.is_signer(&key(100)));
    assert_eq!(
        config.required_approvals(&ProposedAction::UpgradeClearancePolicy { tier_byte: 3, new_policy_hash: [9u8; 32] }),
        5
    );
    assert_eq!(config.required_approvals(&ProposedAction::UnfreezeSubnet { subnet_id: [1u8; 32] }), 2);
}
