use aeko_programs::permission_types::types::{
    clearance_sbt_from_slice, clearance_sbt_to_vec, clearance_tier_from_slice, clearance_tier_to_vec, ClearanceSbt,
    ClearanceTier,
};
use aeko_programs::pubkey::Pubkey;

fn key(n: u8) -> Pubkey {
    Pubkey::new_from_array([n; 32])
}

fn make_sbt(tier: ClearanceTier, valid_until_slot: Option<u64>) -> ClearanceSbt {
    ClearanceSbt {
        holder: key(1),
        tier,
        issuer: key(2),
        issued_at_slot: 1,
        valid_until_slot,
        revocation_registry: key(3),
        is_active: true,
    }
}

const ALL_TIERS: [ClearanceTier; 6] = [
    ClearanceTier::Public,
    ClearanceTier::VerifiedHuman,
    ClearanceTier::Kyc,
    ClearanceTier::Enterprise,
    ClearanceTier::Government,
    ClearanceTier::Military,
];

#[test]
fn l0_satisfies_l0_only() {
    assert!(ClearanceTier::Public.satisfies(ClearanceTier::Public));
    assert!(!ClearanceTier::Public.satisfies(ClearanceTier::VerifiedHuman));
    assert!(!ClearanceTier::Public.satisfies(ClearanceTier::Military));
}

#[test]
fn higher_tier_satisfies_lower_requirements() {
    for required in ALL_TIERS {
        assert!(ClearanceTier::Military.satisfies(required), "L5 should satisfy {:?}", required);
    }
}

#[test]
fn l3_does_not_satisfy_l4_or_l5() {
    assert!(!ClearanceTier::Enterprise.satisfies(ClearanceTier::Government));
    assert!(!ClearanceTier::Enterprise.satisfies(ClearanceTier::Military));
}

#[test]
fn sbt_no_expiry_is_always_valid() {
    let sbt = make_sbt(ClearanceTier::Kyc, None);
    assert!(sbt.is_valid_at(0));
    assert!(sbt.is_valid_at(u64::MAX));
}

#[test]
fn sbt_expires_after_valid_until_slot() {
    let sbt = make_sbt(ClearanceTier::Kyc, Some(100));
    assert!(sbt.is_valid_at(100));
    assert!(!sbt.is_valid_at(101));
    assert!(!sbt.is_valid_at(u64::MAX));
}

#[test]
fn inactive_sbt_is_always_invalid() {
    let mut sbt = make_sbt(ClearanceTier::Kyc, None);
    sbt.is_active = false;
    assert!(!sbt.is_valid_at(0));
    assert!(!sbt.is_valid_at(50));
}

#[test]
fn clearance_sbt_round_trips_borsh() {
    let sbt = make_sbt(ClearanceTier::Enterprise, Some(999));
    let encoded = clearance_sbt_to_vec(&sbt);
    let decoded = clearance_sbt_from_slice(&encoded).unwrap();
    assert_eq!(sbt, decoded);
}

#[test]
fn clearance_tier_round_trips_borsh() {
    for tier in ALL_TIERS {
        let encoded = clearance_tier_to_vec(&tier);
        let decoded = clearance_tier_from_slice(&encoded).unwrap();
        assert_eq!(tier, decoded);
    }
}

#[test]
fn tier_ranks_follow_declaration_order_and_order_satisfaction() {
    for (i, a) in ALL_TIERS.iter().enumerate() {
        assert_eq!(a.rank() as usize, i);
        for (j, b) in ALL_TIERS.iter().enumerate() {
            assert_eq!(a.satisfies(*b), i >= j);
        }
    }
}

#[test]
fn clearance_sbt_layout_matches_borsh() {
    let sbt = make_sbt(ClearanceTier::Government, Some(5));
    let reference = borsh::to_vec(&([1u8; 32], 4u8, [2u8; 32], 1u64, Some(5u64), [3u8; 32], true)).unwrap();
    assert_eq!(clearance_sbt_to_vec(&sbt), reference);
}

#[test]
fn unknown_tier_byte_does_not_decode() {
    assert!(clearance_tier_from_slice(&[6u8]).is_none());
    assert!(clearance_tier_from_slice(&[]).is_none());
    assert!(clearance_tier_from_slice(&[1u8, 0u8]).is_none());
}
