use aeko_programs::finality_oracle::types::{finality_proof_to_vec, FinalityProof};
use aeko_programs::permission_types::types::ClearanceTier;
use aeko_programs::pubkey::Pubkey;

fn key(n: u8) -> Pubkey {
    Pubkey::new_from_array([n; 32])
}

fn dummy_proof(tier: ClearanceTier) -> FinalityProof {
    let issuer = key(5);
    let sig = [1u8; 64];
    let hash = FinalityProof::compute_hash(100, &sig, tier, None, &issuer, 101);
    FinalityProof {
        slot: 100,
        transaction_signature: sig,
        clearance_tier: tier,
        subnet_id: None,
        issued_by: issuer,
        issued_at_slot: 101,
        proof_hash: hash,
    }
}

#[test]
fn proof_hash_verifies_correctly() {
    let proof = dummy_proof(ClearanceTier::Enterprise);
    assert!(proof.verify_hash());
}

#[test]
fn tampered_proof_fails_hash_check() {
    let mut proof = dummy_proof(ClearanceTier::Enterprise);
    proof.slot += 1;
    assert!(!proof.verify_hash());
}

#[test]
fn different_clearance_tiers_produce_different_hashes() {
    let issuer = key(6);
    let sig = [1u8; 64];
    let h_l3 = FinalityProof::compute_hash(100, &sig, ClearanceTier::Enterprise, None, &issuer, 101);
    let h_l5 = FinalityProof::compute_hash(100, &sig, ClearanceTier::Military, None, &issuer, 101);
    assert_ne!(h_l3, h_l5);
}

#[test]
fn subnet_id_affects_hash() {
    let issuer = key(6);
    let sig = [1u8; 64];
    let h_no_subnet = FinalityProof::compute_hash(100, &sig, ClearanceTier::Enterprise, None, &issuer, 101);
    let h_with_subnet = FinalityProof::compute_hash(100, &sig, ClearanceTier::Enterprise, Some(&[0xAAu8; 32]), &issuer, 101);
    assert_ne!(h_no_subnet, h_with_subnet);
}

#[test]
fn finality_proof_borsh_round_trip() {
    let proof = dummy_proof(ClearanceTier::Government);
    let encoded = finality_proof_to_vec(&proof);
    let decoded = FinalityProof::deserialize_padded(&encoded).unwrap();
    assert_eq!(proof, decoded);
}

#[test]
fn compute_hash_of_all_zero_fields_matches_the_mixing_formula() {
    let h = FinalityProof::compute_hash(0, &[0u8; 64], ClearanceTier::Public, None, &key(0), 0);
    let expected: [u8; 32] = [
        96, 118, 76, 134, 7, 214, 172, 166, 104, 42, 44, 34, 224, 226, 252, 218, 176, 129, 210, 163, 180, 197,
        214, 39, 248, 201, 218, 107, 124, 77, 30, 239,
    ];
    assert_eq!(h, expected);
}

#[test]
fn compute_hash_with_subnet_matches_the_mixing_formula() {
    let h = FinalityProof::compute_hash(100, &[1u8; 64], ClearanceTier::Enterprise, Some(&[0xAAu8; 32]), &key(5), 101);
    let expected: [u8; 32] = [
        168, 251, 249, 62, 67, 96, 29, 18, 202, 232, 225, 146, 51, 12, 53, 246, 111, 91, 55, 75, 95, 35, 55, 195,
        15, 59, 39, 139, 191, 19, 231, 243,
    ];
    assert_eq!(h, expected);
}

#[test]
fn finality_proof_layout_matches_borsh() {
    let proof = FinalityProof {
        slot: 77,
        transaction_signature: [3u8; 64],
        clearance_tier: ClearanceTier::Kyc,
        subnet_id: Some([4u8; 32]),
        issued_by: key(9),
        issued_at_slot: 78,
        proof_hash: [8u8; 32],
    };
    let ours = finality_proof_to_vec(&proof);
    let reference = borsh::to_vec(&(77u64, [3u8; 64], 2u8, Some([4u8; 32]), [9u8; 32], 78u64, [8u8; 32])).unwrap();
    assert_eq!(ours, reference);
}
