use aeko_programs::permission_types::envelope::{FIXED_OVERHEAD, VERSION};
use aeko_programs::permission_types::types::{
    encrypted_payload_envelope_from_slice, encrypted_payload_envelope_to_vec, EncryptedPayloadEnvelope, KeyState,
};

fn envelope(version: u8) -> EncryptedPayloadEnvelope {
    let mut aad = [0u8; 64];
    for (i, b) in aad.iter_mut().enumerate() {
        *b = i as u8;
    }
    EncryptedPayloadEnvelope {
        version,
        tier: 3,
        key_id: [7u8; 32],
        nonce: [8u8; 12],
        ciphertext: vec![1, 2, 3, 4, 5],
        tag: [9u8; 16],
        aad,
    }
}

#[test]
fn envelope_accessors_split_the_additional_data() {
    let e = envelope(VERSION);
    let expected_sig: Vec<u8> = (0u8..32).collect();
    let expected_subnet: Vec<u8> = (32u8..64).collect();
    assert_eq!(e.tx_signature().to_vec(), expected_sig);
    assert_eq!(e.subnet_id().to_vec(), expected_subnet);
}

#[test]
fn only_version_one_is_valid() {
    assert!(envelope(1).is_valid_version());
    assert!(!envelope(0).is_valid_version());
    assert!(!envelope(2).is_valid_version());
}

#[test]
fn envelope_round_trips_and_has_the_fixed_overhead() {
    let e = envelope(VERSION);
    let bytes = encrypted_payload_envelope_to_vec(&e).unwrap();
    assert_eq!(bytes.len(), FIXED_OVERHEAD + 4 + e.ciphertext.len());
    assert_eq!(encrypted_payload_envelope_from_slice(&bytes).unwrap(), e);
}

#[test]
fn key_states_terminal_and_invalid() {
    let all = [KeyState::Active, KeyState::PendingRotation, KeyState::Rotated, KeyState::Revoked, KeyState::Compromised];
    let terminal: Vec<bool> = all.iter().map(|s| s.is_terminal()).collect();
    let invalid: Vec<bool> = all.iter().map(|s| s.is_invalid()).collect();
    assert_eq!(terminal, vec![false, false, true, true, true]);
    assert_eq!(invalid, vec![false, true, true, true, true]);
}
