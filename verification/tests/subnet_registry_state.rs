use aeko_programs::errors::ProgramError;
use aeko_programs::permission_types::types::ClearanceTier;
use aeko_programs::pubkey::Pubkey;
use aeko_programs::subnet_registry::types::{subnet_record_to_vec, SubnetRecord, SubnetRegistryError};

fn key(n: u8) -> Pubkey {
    Pubkey::new_from_array([n; 32])
}

fn dummy_subnet(frozen: bool) -> SubnetRecord {
    SubnetRecord {
        is_initialized: true,
        is_frozen: frozen,
        subnet_id: [1u8; 32],
        owner: key(2),
        min_clearance: ClearanceTier::Enterprise,
        freeze_reason_code: if frozen { Some(1) } else { None },
        validator_set: vec![],
        created_at_slot: 1,
    }
}

#[test]
fn freeze_and_unfreeze() {
    let mut subnet = dummy_subnet(false);
    assert!(subnet.ensure_not_frozen().is_ok());
    subnet.freeze(42);
    assert!(subnet.ensure_not_frozen().is_err());
    assert_eq!(subnet.freeze_reason_code, Some(42));
    subnet.unfreeze();
    assert!(subnet.ensure_not_frozen().is_ok());
    assert_eq!(subnet.freeze_reason_code, None);
}

#[test]
fn add_and_remove_members() {
    let mut subnet = dummy_subnet(false);
    let member_a = key(10);
    let member_b = key(11);
    subnet.add_member(member_a).unwrap();
    subnet.add_member(member_b).unwrap();
    assert_eq!(subnet.validator_set.len(), 2);
    assert!(subnet.add_member(member_a).is_err());
    subnet.remove_member(&member_a).unwrap();
    assert_eq!(subnet.validator_set.len(), 1);
    assert!(subnet.remove_member(&member_a).is_err());
}

#[test]
fn frozen_subnet_is_not_frozen_after_unfreeze() {
    let mut subnet = dummy_subnet(true);
    assert!(subnet.is_frozen);
    subnet.unfreeze();
    assert!(!subnet.is_frozen);
}

#[test]
fn subnet_record_borsh_round_trip() {
    let mut subnet = dummy_subnet(false);
    subnet.add_member(key(12)).unwrap();
    let encoded = subnet_record_to_vec(&subnet).unwrap();
    let decoded = SubnetRecord::deserialize_padded(&encoded).unwrap();
    assert_eq!(subnet, decoded);
}

#[test]
fn is_frozen_byte_is_second_byte_of_serialised_record() {
    let frozen = dummy_subnet(true);
    let encoded = subnet_record_to_vec(&frozen).unwrap();
    assert_eq!(encoded[0], 1, "is_initialized should be byte 0");
    assert_eq!(encoded[1], 1, "is_frozen should be byte 1");
    let not_frozen = dummy_subnet(false);
    let encoded2 = subnet_record_to_vec(&not_frozen).unwrap();
    assert_eq!(encoded2[1], 0, "is_frozen=false should be byte 1 = 0");
}

#[test]
fn add_then_remove_restores_the_record_and_swap_removes() {
    let mut subnet = dummy_subnet(false);
    subnet.add_member(key(20)).unwrap();
    subnet.add_member(key(21)).unwrap();
    let before = subnet.clone();
    subnet.add_member(key(22)).unwrap();
    subnet.remove_member(&key(22)).unwrap();
    assert_eq!(subnet, before);
    subnet.add_member(key(23)).unwrap();
    subnet.remove_member(&key(20)).unwrap();
    assert_eq!(subnet.validator_set, vec![key(23), key(21)]);
}

#[test]
fn membership_errors_carry_their_codes() {
    let mut subnet = dummy_subnet(false);
    subnet.add_member(key(30)).unwrap();
    assert_eq!(subnet.add_member(key(30)), Err(ProgramError::Custom(SubnetRegistryError::MemberAlreadyExists.code())));
    assert_eq!(subnet.remove_member(&key(31)), Err(ProgramError::Custom(SubnetRegistryError::MemberNotFound.code())));
    subnet.freeze(3);
    assert_eq!(subnet.ensure_not_frozen(), Err(ProgramError::Custom(SubnetRegistryError::SubnetFrozen.code())));
}

#[test]
fn subnet_record_layout_matches_borsh() {
    let mut subnet = dummy_subnet(true);
    subnet.validator_set = vec![key(5)];
    let reference = borsh::to_vec(&(true, true, [1u8; 32], [2u8; 32], 3u8, Some(1u16), vec![[5u8; 32]], 1u64)).unwrap();
    assert_eq!(subnet_record_to_vec(&subnet).unwrap(), reference);
}
