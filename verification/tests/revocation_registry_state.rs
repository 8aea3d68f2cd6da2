use aeko_programs::errors::ProgramError;
use aeko_programs::permission_types::types::{KeyAlgorithm, KeyState, KeyType};
use aeko_programs::pubkey::Pubkey;
use aeko_programs::revocation_registry::state::deserialize_key_record;
use aeko_programs::revocation_registry::types::{key_record_to_vec, KeyRecord, RevocationRegistryError, RotationIntent};

fn key(n: u8) -> Pubkey {
    Pubkey::new_from_array([n; 32])
}

fn dummy_key_record(state: KeyState) -> KeyRecord {
    KeyRecord {
        key_id: [1u8; 32],
        owner: key(9),
        key_type: KeyType::NodeKey,
        key_algorithm: KeyAlgorithm::Ed25519,
        public_key_bytes: vec![0u8; 32],
        state,
        created_at_slot: 1,
        expires_at_slot: None,
        successor_key_id: None,
    }
}

/// The announcement a validator gossips after a rotation executes.
struct NodeKeyRotationGossipPayload {
    from: Pubkey,
    new_key_id: [u8; 32],
    new_dh_pubkey: [u8; 32],
    rotation_slot: u64,
}

#[test]
fn active_to_pending_rotation_succeeds() {
    let mut r = dummy_key_record(KeyState::Active);
    r.initiate_rotation().unwrap();
    assert_eq!(r.state, KeyState::PendingRotation);
}

#[test]
fn pending_to_rotated_succeeds() {
    let mut r = dummy_key_record(KeyState::PendingRotation);
    r.complete_rotation([2u8; 32]).unwrap();
    assert_eq!(r.state, KeyState::Rotated);
    assert_eq!(r.successor_key_id, Some([2u8; 32]));
}

#[test]
fn active_to_revoked_succeeds() {
    let mut r = dummy_key_record(KeyState::Active);
    r.revoke().unwrap();
    assert_eq!(r.state, KeyState::Revoked);
}

#[test]
fn active_to_compromised_succeeds() {
    let mut r = dummy_key_record(KeyState::Active);
    r.mark_compromised().unwrap();
    assert_eq!(r.state, KeyState::Compromised);
}

#[test]
fn terminal_state_blocks_further_transitions() {
    for state in [KeyState::Rotated, KeyState::Revoked, KeyState::Compromised] {
        let mut r = dummy_key_record(state);
        assert!(r.mark_compromised().is_err(), "terminal state {:?} should reject transitions", state);
    }
}

#[test]
fn invalid_transition_pending_to_revoked_is_rejected() {
    let mut r = dummy_key_record(KeyState::PendingRotation);
    assert!(r.revoke().is_err());
}

#[test]
fn invalid_transition_active_to_rotated_directly_is_rejected() {
    let mut r = dummy_key_record(KeyState::Active);
    assert!(r.complete_rotation([2u8; 32]).is_err());
}

#[test]
fn is_revoked_true_for_non_active_states() {
    for state in [KeyState::PendingRotation, KeyState::Rotated, KeyState::Revoked, KeyState::Compromised] {
        assert!(dummy_key_record(state).is_revoked(), "{:?} should be revoked", state);
    }
    assert!(!dummy_key_record(KeyState::Active).is_revoked());
}

#[test]
fn rotation_intent_quorum_and_expiry() {
    let intent = RotationIntent {
        key_id: [1u8; 32],
        successor_key_id: [2u8; 32],
        initiator: key(3),
        created_at_slot: 100,
        expires_at_slot: 200,
        required_approvals: 3,
        approval_count: 2,
        is_executed: false,
    };
    assert!(!intent.quorum_met());
    assert!(!intent.is_expired(200));
    assert!(intent.is_expired(201));

    let mut met = intent.clone();
    met.approval_count = 3;
    assert!(met.quorum_met());
}

#[test]
fn mark_compromised_makes_key_revoked_in_same_slot() {
    let current_slot = 42_000u64;
    let mut k = KeyRecord {
        key_id: [0xABu8; 32],
        owner: key(4),
        key_type: KeyType::NodeKey,
        key_algorithm: KeyAlgorithm::Ed25519,
        public_key_bytes: vec![0u8; 32],
        state: KeyState::Active,
        created_at_slot: current_slot - 100,
        expires_at_slot: None,
        successor_key_id: None,
    };
    assert!(!k.is_revoked(), "Active key should not be revoked");
    assert_eq!(k.state, KeyState::Active);

    k.mark_compromised().unwrap();
    assert!(k.is_revoked(), "Compromised key must report is_revoked() == true");
    assert_eq!(k.state, KeyState::Compromised);

    let serialized = key_record_to_vec(&k).unwrap();
    let reloaded = deserialize_key_record(&serialized).unwrap();
    assert!(reloaded.is_revoked(), "Revoked state must survive a round trip");
    assert_eq!(reloaded.state, KeyState::Compromised);

    let mut already_compromised = k.clone();
    let err = already_compromised.mark_compromised();
    assert!(err.is_err(), "Cannot compromise an already-terminal key");
}

#[test]
fn compromised_key_during_pending_rotation_is_revoked_immediately() {
    let mut k = KeyRecord {
        key_id: [0xCDu8; 32],
        owner: key(5),
        key_type: KeyType::NodeKey,
        key_algorithm: KeyAlgorithm::Ed25519,
        public_key_bytes: vec![0u8; 32],
        state: KeyState::PendingRotation,
        created_at_slot: 1,
        expires_at_slot: None,
        successor_key_id: None,
    };
    k.mark_compromised().unwrap();
    assert_eq!(k.state, KeyState::Compromised);
    assert!(k.is_revoked());
}

#[test]
fn node_key_rotation_gossip_value_is_well_formed() {
    let validator_pubkey = key(6);
    let new_key_id = [0x11u8; 32];
    let new_dh_pubkey = [0x22u8; 32];
    let rotation_slot = 50_000u64;
    let rotation_value = NodeKeyRotationGossipPayload { from: validator_pubkey, new_key_id, new_dh_pubkey, rotation_slot };
    assert_eq!(rotation_value.from, validator_pubkey);
    assert_eq!(rotation_value.new_key_id, new_key_id);
    assert_eq!(rotation_value.new_dh_pubkey, new_dh_pubkey);
    assert_eq!(rotation_value.rotation_slot, rotation_slot);

    let successor_key = KeyRecord {
        key_id: new_key_id,
        owner: validator_pubkey,
        key_type: KeyType::NodeKey,
        key_algorithm: KeyAlgorithm::X25519,
        public_key_bytes: new_dh_pubkey.to_vec(),
        state: KeyState::Active,
        created_at_slot: rotation_slot,
        expires_at_slot: None,
        successor_key_id: None,
    };
    assert!(!successor_key.is_revoked(), "Successor key must be Active after rotation");
}

#[test]
fn is_revoked_byte_check_consistent_with_full_deserialization() {
    let k = KeyRecord {
        key_id: [0xEFu8; 32],
        owner: key(7),
        key_type: KeyType::NodeKey,
        key_algorithm: KeyAlgorithm::Ed25519,
        public_key_bytes: vec![0u8; 32],
        state: KeyState::Compromised,
        created_at_slot: 1,
        expires_at_slot: None,
        successor_key_id: None,
    };
    let serialized = key_record_to_vec(&k).unwrap();
    let reloaded = deserialize_key_record(&serialized).unwrap();
    assert!(reloaded.is_revoked());
    assert!(reloaded.state.is_invalid());
    assert!(reloaded.state.is_terminal());
}

#[test]
fn refused_transitions_carry_their_codes_and_leave_the_record() {
    let mut r = dummy_key_record(KeyState::Revoked);
    let before = r.clone();
    assert_eq!(r.revoke(), Err(ProgramError::Custom(RevocationRegistryError::KeyAlreadyTerminal.code())));
    assert_eq!(r.initiate_rotation(), Err(ProgramError::Custom(RevocationRegistryError::KeyAlreadyTerminal.code())));
    assert_eq!(r, before);
    let mut p = dummy_key_record(KeyState::PendingRotation);
    assert_eq!(p.revoke(), Err(ProgramError::Custom(RevocationRegistryError::InvalidStateTransition.code())));
    assert_eq!(p.state, KeyState::PendingRotation);
}

#[test]
fn key_record_layout_matches_borsh() {
    let k = dummy_key_record(KeyState::Rotated);
    let reference = borsh::to_vec(&([1u8; 32], [9u8; 32], 2u8, 0u8, vec![0u8; 32], 2u8, 1u64, None::<u64>, None::<[u8; 32]>)).unwrap();
    assert_eq!(key_record_to_vec(&k).unwrap(), reference);
}
