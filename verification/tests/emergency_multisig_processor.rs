use std::collections::HashMap;

use aeko_programs::emergency_multisig::instruction;
use aeko_programs::emergency_multisig::processor::Processor;
use aeko_programs::emergency_multisig::types::{
    proposed_action_to_vec, EmergencyMultisigError, Proposal, ProposalStatus, ProposedAction,
};
use aeko_programs::emergency_multisig::id;
use aeko_programs::errors::InstructionError;
use aeko_programs::pubkey::Pubkey;
use aeko_programs::permission_types::types::{ClearanceTier, KeyAlgorithm, KeyState, KeyType};
use aeko_programs::revocation_registry::types::{key_record_to_vec, KeyRecord};
use aeko_programs::runtime::{AccountInfo, AccountMeta, Instruction, InstructionContext};
use aeko_programs::subnet_registry::types::{subnet_record_to_vec, SubnetRecord};

fn key(n: u8) -> Pubkey {
    Pubkey::new_from_array([n; 32])
}

/// Accounts by key: owner and data. Keys not present are empty wallets.
type Bank = HashMap<[u8; 32], (Pubkey, Vec<u8>)>;

fn open(bank: &mut Bank, k: Pubkey, space: usize) {
    bank.insert(k.to_bytes(), (id(), vec![0u8; space]));
}

/// Runs `ix` against the bank, writing the accounts back; returns the result
/// and the return data.
fn exec(ix: &Instruction, bank: &mut Bank) -> (Result<(), InstructionError>, Option<(Pubkey, Vec<u8>)>) {
    let infos = ix
        .accounts
        .iter()
        .map(|m| {
            let (owner, data) = bank.get(&m.pubkey.to_bytes()).cloned().unwrap_or((key(240), Vec::new()));
            AccountInfo { key: m.pubkey, owner, is_signer: m.is_signer, is_writable: m.is_writable, lamports: 1, data }
        })
        .collect();
    let mut ctx = InstructionContext { program_id: ix.program_id, accounts: infos, return_data: None };
    let r = Processor::process(&mut ctx, &ix.data);
    for a in ctx.accounts {
        if let Some(slot) = bank.get_mut(&a.key.to_bytes()) {
            slot.1 = a.data;
        }
    }
    (r, ctx.return_data)
}

fn custom(e: EmergencyMultisigError) -> InstructionError {
    InstructionError::Custom(e.code())
}

const CONFIG: u8 = 100;
const PROPOSAL: u8 = 101;
const AUTHORITY: u8 = 1;

fn setup() -> Bank {
    let mut bank = Bank::new();
    open(&mut bank, key(CONFIG), 1024);
    // A zeroed account reads as a pending proposal, so a fresh proposal
    // account holds bytes that do not decode.
    bank.insert(key(PROPOSAL).to_bytes(), (id(), vec![0xFFu8; 512]));
    let ix = instruction::initialize_multisig(&id(), &key(CONFIG), &key(AUTHORITY), vec![key(2), key(3), key(4)], 2, 3, 3, 10);
    assert_eq!(exec(&ix, &mut bank).0, Ok(()));
    bank
}

fn proposal(bank: &Bank) -> Proposal {
    Proposal::deserialize_padded(&bank[&key(PROPOSAL).to_bytes()].1).unwrap()
}

const SUBNET: u8 = 120;
const KEY_RECORD: u8 = 121;

fn subnet_record(subnet_id: [u8; 32]) -> Vec<u8> {
    let mut bytes = subnet_record_to_vec(&SubnetRecord {
        is_initialized: true,
        is_frozen: false,
        subnet_id,
        owner: key(60),
        min_clearance: ClearanceTier::Kyc,
        freeze_reason_code: None,
        validator_set: vec![key(61)],
        created_at_slot: 2,
    })
    .unwrap();
    bytes.resize(512, 0);
    bytes
}

fn action() -> ProposedAction {
    ProposedAction::FreezeSubnet { subnet_id: [5u8; 32], reason_code: 7 }
}

#[test]
fn multisig_freeze_proposal_flow() {
    let mut bank = setup();
    let again = instruction::initialize_multisig(&id(), &key(CONFIG), &key(AUTHORITY), vec![], 1, 1, 1, 11);
    assert_eq!(exec(&again, &mut bank).0, Err(custom(EmergencyMultisigError::AlreadyInitialized)));

    let propose = instruction::propose_action(&id(), &key(PROPOSAL), &key(CONFIG), &key(2), [9u8; 32], action(), 100, 10);
    assert_eq!(exec(&propose, &mut bank).0, Ok(()));
    let p = proposal(&bank);
    assert_eq!(p.required_approvals, 2);
    assert_eq!(p.expires_at_slot, 110);
    assert_eq!(p.status, ProposalStatus::Pending);
    assert_eq!(exec(&propose, &mut bank).0, Err(custom(EmergencyMultisigError::ProposalAlreadyExists)));

    open(&mut bank, key(110), 128);
    let vote1 = instruction::approve_action(&id(), &key(PROPOSAL), &key(110), &key(CONFIG), &key(2), [9u8; 32], 20);
    assert_eq!(exec(&vote1, &mut bank).0, Ok(()));
    assert_eq!(proposal(&bank).approval_count, 1);
    assert_eq!(exec(&vote1, &mut bank).0, Err(custom(EmergencyMultisigError::AlreadyApproved)));

    let target = vec![AccountMeta { pubkey: key(SUBNET), is_signer: false, is_writable: true }];
    let execute = instruction::execute_action(&id(), &key(PROPOSAL), &key(CONFIG), &key(4), [9u8; 32], 30, target);
    assert_eq!(exec(&execute, &mut bank).0, Err(custom(EmergencyMultisigError::QuorumNotMet)));

    open(&mut bank, key(111), 128);
    let vote2 = instruction::approve_action(&id(), &key(PROPOSAL), &key(111), &key(CONFIG), &key(3), [9u8; 32], 21);
    assert_eq!(exec(&vote2, &mut bank).0, Ok(()));
    assert_eq!(proposal(&bank).approval_count, 2);

    // Without the subnet record the action cannot be applied.
    let bare = instruction::execute_action(&id(), &key(PROPOSAL), &key(CONFIG), &key(4), [9u8; 32], 30, vec![]);
    assert_eq!(exec(&bare, &mut bank).0, Err(InstructionError::NotEnoughAccountKeys));
    assert_eq!(proposal(&bank).status, ProposalStatus::Pending);

    bank.insert(key(SUBNET).to_bytes(), (key(230), subnet_record([5u8; 32])));
    let (r, ret) = exec(&execute, &mut bank);
    assert_eq!(r, Ok(()));
    assert_eq!(proposal(&bank).status, ProposalStatus::Executed);
    let frozen = SubnetRecord::deserialize_padded(&bank[&key(SUBNET).to_bytes()].1).unwrap();
    assert!(frozen.is_frozen);
    assert_eq!(frozen.freeze_reason_code, Some(7));
    assert_eq!(ret, Some((id(), proposed_action_to_vec(&action()))));
    assert_eq!(exec(&execute, &mut bank).0, Err(custom(EmergencyMultisigError::ProposalAlreadyExecuted)));
}

#[test]
fn multisig_rejects_outsiders_and_expired_votes() {
    let mut bank = setup();
    let outsider = instruction::propose_action(&id(), &key(PROPOSAL), &key(CONFIG), &key(50), [9u8; 32], action(), 5, 10);
    assert_eq!(exec(&outsider, &mut bank).0, Err(custom(EmergencyMultisigError::SignerNotMember)));

    let by_authority = instruction::propose_action(&id(), &key(PROPOSAL), &key(CONFIG), &key(AUTHORITY), [9u8; 32], action(), 5, 10);
    assert_eq!(exec(&by_authority, &mut bank).0, Ok(()));

    open(&mut bank, key(112), 128);
    let late = instruction::approve_action(&id(), &key(PROPOSAL), &key(112), &key(CONFIG), &key(2), [9u8; 32], 16);
    assert_eq!(exec(&late, &mut bank).0, Err(custom(EmergencyMultisigError::ProposalExpired)));
    let wrong_id = instruction::approve_action(&id(), &key(PROPOSAL), &key(112), &key(CONFIG), &key(2), [8u8; 32], 12);
    assert_eq!(exec(&wrong_id, &mut bank).0, Err(InstructionError::InvalidArgument));
    assert_eq!(proposal(&bank).approval_count, 0);
}

#[test]
fn multisig_cancel_by_proposer_or_authority_only() {
    let mut bank = setup();
    let propose = instruction::propose_action(&id(), &key(PROPOSAL), &key(CONFIG), &key(2), [9u8; 32], action(), 100, 10);
    assert_eq!(exec(&propose, &mut bank).0, Ok(()));
    let by_other = instruction::cancel_action(&id(), &key(PROPOSAL), &key(CONFIG), &key(3), [9u8; 32]);
    assert_eq!(exec(&by_other, &mut bank).0, Err(InstructionError::IncorrectAuthority));
    let by_authority = instruction::cancel_action(&id(), &key(PROPOSAL), &key(CONFIG), &key(AUTHORITY), [9u8; 32]);
    assert_eq!(exec(&by_authority, &mut bank).0, Ok(()));
    assert_eq!(proposal(&bank).status, ProposalStatus::Cancelled);
    assert_eq!(exec(&by_authority, &mut bank).0, Err(custom(EmergencyMultisigError::ProposalAlreadyExecuted)));
    let repropose = instruction::propose_action(&id(), &key(PROPOSAL), &key(CONFIG), &key(2), [9u8; 32], action(), 100, 12);
    assert_eq!(exec(&repropose, &mut bank).0, Ok(()));
}

#[test]
fn zeroed_proposal_account_reads_as_pending() {
    let mut bank = setup();
    open(&mut bank, key(PROPOSAL), 512);
    let propose = instruction::propose_action(&id(), &key(PROPOSAL), &key(CONFIG), &key(2), [9u8; 32], action(), 100, 10);
    assert_eq!(exec(&propose, &mut bank).0, Err(custom(EmergencyMultisigError::ProposalAlreadyExists)));
}

#[test]
fn executing_an_emergency_revocation_compromises_the_key() {
    let mut bank = setup();
    let revoke = ProposedAction::EmergencyRevokeKey { key_id: [6u8; 32], reason_code: 3 };
    let propose = instruction::propose_action(&id(), &key(PROPOSAL), &key(CONFIG), &key(2), [9u8; 32], revoke, 100, 10);
    assert_eq!(exec(&propose, &mut bank).0, Ok(()));
    let needed = proposal(&bank).required_approvals;
    for (i, voter) in [2u8, 3, 4].iter().enumerate().take(needed as usize) {
        open(&mut bank, key(130 + i as u8), 128);
        let vote = instruction::approve_action(&id(), &key(PROPOSAL), &key(130 + i as u8), &key(CONFIG), &key(*voter), [9u8; 32], 20);
        assert_eq!(exec(&vote, &mut bank).0, Ok(()));
    }
    let record = KeyRecord {
        key_id: [6u8; 32],
        owner: key(62),
        key_type: KeyType::NodeKey,
        key_algorithm: KeyAlgorithm::Ed25519,
        public_key_bytes: vec![1u8; 32],
        state: KeyState::Active,
        created_at_slot: 1,
        expires_at_slot: None,
        successor_key_id: None,
    };
    let mut bytes = key_record_to_vec(&record).unwrap();
    bytes.resize(256, 0);
    bank.insert(key(KEY_RECORD).to_bytes(), (key(232), bytes));
    let target = vec![AccountMeta { pubkey: key(KEY_RECORD), is_signer: false, is_writable: true }];
    let execute = instruction::execute_action(&id(), &key(PROPOSAL), &key(CONFIG), &key(4), [9u8; 32], 30, target);
    assert_eq!(exec(&execute, &mut bank).0, Ok(()));
    assert_eq!(KeyRecord::deserialize_padded(&bank[&key(KEY_RECORD).to_bytes()].1).unwrap().state, KeyState::Compromised);
    assert_eq!(proposal(&bank).status, ProposalStatus::Executed);
}

#[test]
fn executing_against_another_subnets_record_changes_nothing() {
    let mut bank = setup();
    let propose = instruction::propose_action(&id(), &key(PROPOSAL), &key(CONFIG), &key(2), [9u8; 32], action(), 100, 10);
    assert_eq!(exec(&propose, &mut bank).0, Ok(()));
    for (i, voter) in [2u8, 3].iter().enumerate() {
        open(&mut bank, key(140 + i as u8), 128);
        let vote = instruction::approve_action(&id(), &key(PROPOSAL), &key(140 + i as u8), &key(CONFIG), &key(*voter), [9u8; 32], 20);
        assert_eq!(exec(&vote, &mut bank).0, Ok(()));
    }
    bank.insert(key(SUBNET).to_bytes(), (key(230), subnet_record([6u8; 32])));
    let before = bank[&key(SUBNET).to_bytes()].1.clone();
    let target = vec![AccountMeta { pubkey: key(SUBNET), is_signer: false, is_writable: true }];
    let execute = instruction::execute_action(&id(), &key(PROPOSAL), &key(CONFIG), &key(4), [9u8; 32], 30, target);
    assert_eq!(exec(&execute, &mut bank).0, Err(InstructionError::InvalidArgument));
    assert_eq!(bank[&key(SUBNET).to_bytes()].1, before);
    assert_eq!(proposal(&bank).status, ProposalStatus::Pending);
}
