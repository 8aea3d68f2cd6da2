use std::collections::HashMap;

use aeko_programs::errors::InstructionError;
use aeko_programs::permission_types::types::{KeyAlgorithm, KeyState, KeyType};
use aeko_programs::pubkey::Pubkey;
use aeko_programs::revocation_registry::instruction;
use aeko_programs::revocation_registry::processor::Processor;
use aeko_programs::revocation_registry::types::{KeyRecord, RevocationRegistryError, RotationIntent};
use aeko_programs::runtime::{AccountInfo, Instruction, InstructionContext};

fn key(n: u8) -> Pubkey {
    Pubkey::new_from_array([n; 32])
}

fn program() -> Pubkey {
    key(232)
}

type Bank = HashMap<[u8; 32], (Pubkey, Vec<u8>)>;

fn exec(ix: &Instruction, bank: &mut Bank) -> (Result<(), InstructionError>, Option<(Pubkey, Vec<u8>)>) {
    let infos = ix
        .accounts
        .iter()
        .map(|m| {
            let (owner, data) = bank.get(&m.pubkey.to_bytes()).cloned().unwrap_or((key(240), Vec::new()));
            AccountInfo { key: m.pubkey, owner, is_signer: m.is_signer, is_writable: m.is_writable, lamports: 1, data }
        })
        .collect();
    let mut ctx = InstructionContext { program_id: ix.program_id, accounts: infos, return_data: None };
    let r = Processor::process(&mut ctx, &ix.data);
    for a in ctx.accounts {
        if let Some(slot) = bank.get_mut(&a.key.to_bytes()) {
            slot.1 = a.data;
        }
    }
    (r, ctx.return_data)
}

fn custom(e: RevocationRegistryError) -> InstructionError {
    InstructionError::Custom(e.code())
}

const CONFIG: u8 = 100;
const KEY_A: u8 = 101;
const KEY_B: u8 = 102;
const INTENT: u8 = 103;
const APPROVAL: u8 = 104;
const OWNER: u8 = 1;
const AUTHORITY: u8 = 2;

fn register(bank: &mut Bank, record: u8, key_id: [u8; 32]) -> Result<(), InstructionError> {
    // A zeroed account reads as an active key, so a fresh record account holds
    // bytes that do not decode.
    bank.insert(key(record).to_bytes(), (program(), vec![0xFFu8; 256]));
    let ix = instruction::register_key(&program(), &key(record), &key(OWNER), key_id, KeyType::NodeKey, KeyAlgorithm::Ed25519, vec![5u8; 32], None, 3);
    exec(&ix, bank).0
}

fn record(bank: &Bank, at: u8) -> KeyRecord {
    KeyRecord::deserialize_padded(&bank[&key(at).to_bytes()].1).unwrap()
}

fn revoked(bank: &mut Bank, at: u8, key_id: [u8; 32]) -> Option<(Pubkey, Vec<u8>)> {
    let ix = instruction::is_revoked(&program(), &key(at), key_id);
    let (r, ret) = exec(&ix, bank);
    assert_eq!(r, Ok(()));
    ret
}

fn setup() -> Bank {
    let mut bank = Bank::new();
    bank.insert(key(CONFIG).to_bytes(), (program(), vec![0u8; 128]));
    bank.insert(key(INTENT).to_bytes(), (program(), vec![0u8; 256]));
    bank.insert(key(APPROVAL).to_bytes(), (program(), vec![0u8; 128]));
    let init = instruction::initialize_registry(&program(), &key(CONFIG), &key(AUTHORITY), 1);
    assert_eq!(exec(&init, &mut bank).0, Ok(()));
    assert_eq!(register(&mut bank, KEY_A, [0xAAu8; 32]), Ok(()));
    assert_eq!(register(&mut bank, KEY_B, [0xBBu8; 32]), Ok(()));
    bank
}

#[test]
fn key_rotation_flow_with_quorum() {
    let mut bank = setup();
    assert_eq!(record(&bank, KEY_A).state, KeyState::Active);
    assert_eq!(revoked(&mut bank, KEY_A, [0xAAu8; 32]), Some((program(), vec![0u8])));

    let initiate = instruction::initiate_rotation(&program(), &key(KEY_A), &key(INTENT), &key(OWNER), [0xAAu8; 32], [0xBBu8; 32], 1, 50, 10);
    assert_eq!(exec(&initiate, &mut bank).0, Ok(()));
    assert_eq!(record(&bank, KEY_A).state, KeyState::PendingRotation);
    assert_eq!(revoked(&mut bank, KEY_A, [0xAAu8; 32]), Some((program(), vec![1u8])));

    let execute = instruction::execute_rotation(&program(), &key(KEY_A), &key(KEY_B), &key(INTENT), &key(9), [0xAAu8; 32], 30);
    assert_eq!(exec(&execute, &mut bank).0, Err(custom(RevocationRegistryError::QuorumNotMet)));

    let approve = instruction::approve_rotation(&program(), &key(INTENT), &key(APPROVAL), &key(8), [0xAAu8; 32], 20);
    assert_eq!(exec(&approve, &mut bank).0, Ok(()));
    let intent = RotationIntent::deserialize_padded(&bank[&key(INTENT).to_bytes()].1).unwrap();
    assert_eq!(intent.approval_count, 1);
    assert_eq!(intent.expires_at_slot, 60);

    assert_eq!(exec(&execute, &mut bank).0, Ok(()));
    let a = record(&bank, KEY_A);
    assert_eq!(a.state, KeyState::Rotated);
    assert_eq!(a.successor_key_id, Some([0xBBu8; 32]));
    assert!(RotationIntent::deserialize_padded(&bank[&key(INTENT).to_bytes()].1).unwrap().is_executed);
    assert_eq!(exec(&execute, &mut bank).0, Err(custom(RevocationRegistryError::RotationAlreadyApproved)));
    assert_eq!(revoked(&mut bank, KEY_B, [0xBBu8; 32]), Some((program(), vec![0u8])));
}

#[test]
fn expired_rotation_intent_is_refused() {
    let mut bank = setup();
    let initiate = instruction::initiate_rotation(&program(), &key(KEY_A), &key(INTENT), &key(OWNER), [0xAAu8; 32], [0xBBu8; 32], 1, 5, 10);
    assert_eq!(exec(&initiate, &mut bank).0, Ok(()));
    let approve = instruction::approve_rotation(&program(), &key(INTENT), &key(APPROVAL), &key(8), [0xAAu8; 32], 16);
    assert_eq!(exec(&approve, &mut bank).0, Err(custom(RevocationRegistryError::RotationExpired)));
}

#[test]
fn revoke_and_compromise_keys() {
    let mut bank = setup();
    let by_stranger = instruction::revoke_key(&program(), &key(KEY_B), &key(7), [0xBBu8; 32]);
    assert_eq!(exec(&by_stranger, &mut bank).0, Err(InstructionError::IncorrectAuthority));
    let revoke = instruction::revoke_key(&program(), &key(KEY_B), &key(OWNER), [0xBBu8; 32]);
    assert_eq!(exec(&revoke, &mut bank).0, Ok(()));
    assert_eq!(record(&bank, KEY_B).state, KeyState::Revoked);
    assert_eq!(revoked(&mut bank, KEY_B, [0xBBu8; 32]), Some((program(), vec![1u8])));

    let compromise_b = instruction::mark_compromised(&program(), &key(KEY_B), &key(CONFIG), &key(AUTHORITY), [0xBBu8; 32], 1);
    assert_eq!(exec(&compromise_b, &mut bank).0, Err(custom(RevocationRegistryError::KeyAlreadyTerminal)));
    let not_authority = instruction::mark_compromised(&program(), &key(KEY_A), &key(CONFIG), &key(OWNER), [0xAAu8; 32], 1);
    assert_eq!(exec(&not_authority, &mut bank).0, Err(custom(RevocationRegistryError::Unauthorized)));
    let compromise_a = instruction::mark_compromised(&program(), &key(KEY_A), &key(CONFIG), &key(AUTHORITY), [0xAAu8; 32], 1);
    assert_eq!(exec(&compromise_a, &mut bank).0, Ok(()));
    assert_eq!(record(&bank, KEY_A).state, KeyState::Compromised);

    assert_eq!(register(&mut bank, KEY_A, [0xAAu8; 32]), Ok(()));
    bank.get_mut(&key(KEY_A).to_bytes()).unwrap().1 = vec![0u8; 64];
    assert_eq!(revoked(&mut bank, KEY_A, [0xAAu8; 32]), Some((program(), vec![0u8])));
}

#[test]
fn registering_over_a_live_key_is_refused() {
    let mut bank = setup();
    let again = instruction::register_key(&program(), &key(KEY_A), &key(OWNER), [0xAAu8; 32], KeyType::NodeKey, KeyAlgorithm::Ed25519, vec![], None, 4);
    assert_eq!(exec(&again, &mut bank).0, Err(custom(RevocationRegistryError::KeyAlreadyExists)));
}

#[test]
fn an_approver_counts_once() {
    let mut bank = setup();
    let initiate = instruction::initiate_rotation(&program(), &key(KEY_A), &key(INTENT), &key(OWNER), [0xAAu8; 32], [0xBBu8; 32], 2, 50, 10);
    assert_eq!(exec(&initiate, &mut bank).0, Ok(()));
    let approve = instruction::approve_rotation(&program(), &key(INTENT), &key(APPROVAL), &key(8), [0xAAu8; 32], 20);
    assert_eq!(exec(&approve, &mut bank).0, Ok(()));
    assert_eq!(exec(&approve, &mut bank).0, Err(custom(RevocationRegistryError::RotationAlreadyApproved)));
    let intent = RotationIntent::deserialize_padded(&bank[&key(INTENT).to_bytes()].1).unwrap();
    assert_eq!(intent.approval_count, 1);
    let execute = instruction::execute_rotation(&program(), &key(KEY_A), &key(KEY_B), &key(INTENT), &key(9), [0xAAu8; 32], 30);
    assert_eq!(exec(&execute, &mut bank).0, Err(custom(RevocationRegistryError::QuorumNotMet)));
}

#[test]
fn rotation_to_a_revoked_successor_is_refused_and_changes_nothing() {
    let mut bank = setup();
    let initiate = instruction::initiate_rotation(&program(), &key(KEY_A), &key(INTENT), &key(OWNER), [0xAAu8; 32], [0xBBu8; 32], 1, 50, 10);
    assert_eq!(exec(&initiate, &mut bank).0, Ok(()));
    let approve = instruction::approve_rotation(&program(), &key(INTENT), &key(APPROVAL), &key(8), [0xAAu8; 32], 20);
    assert_eq!(exec(&approve, &mut bank).0, Ok(()));
    let revoke = instruction::revoke_key(&program(), &key(KEY_B), &key(OWNER), [0xBBu8; 32]);
    assert_eq!(exec(&revoke, &mut bank).0, Ok(()));
    let old_before = bank[&key(KEY_A).to_bytes()].1.clone();
    let intent_before = bank[&key(INTENT).to_bytes()].1.clone();
    let execute = instruction::execute_rotation(&program(), &key(KEY_A), &key(KEY_B), &key(INTENT), &key(9), [0xAAu8; 32], 30);
    assert_eq!(exec(&execute, &mut bank).0, Err(custom(RevocationRegistryError::SuccessorKeyMissing)));
    assert_eq!(bank[&key(KEY_A).to_bytes()].1, old_before);
    assert_eq!(bank[&key(INTENT).to_bytes()].1, intent_before);
    assert_eq!(record(&bank, KEY_A).state, KeyState::PendingRotation);
    // A successor record of another key is refused too.
    let wrong = instruction::execute_rotation(&program(), &key(KEY_A), &key(KEY_A), &key(INTENT), &key(9), [0xAAu8; 32], 30);
    assert_eq!(exec(&wrong, &mut bank).0, Err(InstructionError::InvalidArgument));
    assert_eq!(bank[&key(INTENT).to_bytes()].1, intent_before);
}
