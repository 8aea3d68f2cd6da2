use std::collections::HashMap;

use aeko_programs::errors::InstructionError;
use aeko_programs::permission_registry::instruction as access_ix;
use aeko_programs::permission_registry::processor::Processor as AccessProcessor;
use aeko_programs::permission_registry::state::{deserialize_clearance_sbt, deserialize_role_assignment};
use aeko_programs::permission_registry::types::{permission_registry_instruction_to_vec, PermissionRegistryError, PermissionRegistryInstruction};
use aeko_programs::permission_types::types::{
    access_result_from_slice, clearance_sbt_to_vec, encrypted_payload_envelope_to_vec, role_entry_to_vec,
    wallet_role_assignment_to_vec, AccessDeniedReason, AccessResult, ClearanceSbt, ClearanceTier,
    EncryptedPayloadEnvelope, KeyAlgorithm, KeyState, KeyType, RoleEntry, WalletRoleAssignment,
};
use aeko_programs::revocation_registry::types::{key_record_to_vec, KeyRecord};
use aeko_programs::runtime::AccountMeta;
use aeko_programs::pubkey::Pubkey;
use aeko_programs::runtime::{AccountInfo, Instruction, InstructionContext};
use aeko_programs::subnet_registry::instruction;
use aeko_programs::subnet_registry::processor::Processor;
use aeko_programs::subnet_registry::types::{SubnetMembership, SubnetRecord, SubnetRegistryError};

fn key(n: u8) -> Pubkey {
    Pubkey::new_from_array([n; 32])
}

fn subnet_program() -> Pubkey {
    key(230)
}

fn access_program() -> Pubkey {
    key(231)
}

type Bank = HashMap<[u8; 32], (Pubkey, Vec<u8>)>;

fn exec(
    ix: &Instruction,
    bank: &mut Bank,
    run: fn(&mut InstructionContext, &[u8]) -> Result<(), InstructionError>,
) -> (Result<(), InstructionError>, Option<(Pubkey, Vec<u8>)>) {
    let infos = ix
        .accounts
        .iter()
        .map(|m| {
            let (owner, data) = bank.get(&m.pubkey.to_bytes()).cloned().unwrap_or((key(240), Vec::new()));
            AccountInfo { key: m.pubkey, owner, is_signer: m.is_signer, is_writable: m.is_writable, lamports: 1, data }
        })
        .collect();
    let mut ctx = InstructionContext { program_id: ix.program_id, accounts: infos, return_data: None };
    let r = run(&mut ctx, &ix.data);
    for a in ctx.accounts {
        if let Some(slot) = bank.get_mut(&a.key.to_bytes()) {
            slot.1 = a.data;
        }
    }
    (r, ctx.return_data)
}

fn subnet(ix: &Instruction, bank: &mut Bank) -> (Result<(), InstructionError>, Option<(Pubkey, Vec<u8>)>) {
    exec(ix, bank, Processor::process)
}

const RECORD: u8 = 100;
const MEMBERSHIP: u8 = 101;
const OWNER: u8 = 1;
const MEMBER: u8 = 2;

fn setup() -> Bank {
    let mut bank = Bank::new();
    bank.insert(key(RECORD).to_bytes(), (subnet_program(), vec![0u8; 1024]));
    bank.insert(key(MEMBERSHIP).to_bytes(), (subnet_program(), vec![0u8; 256]));
    let create = instruction::create_subnet(&subnet_program(), &key(RECORD), &key(OWNER), [7u8; 32], ClearanceTier::Kyc, 5);
    assert_eq!(subnet(&create, &mut bank).0, Ok(()));
    bank
}

fn record(bank: &Bank) -> SubnetRecord {
    SubnetRecord::deserialize_padded(&bank[&key(RECORD).to_bytes()].1).unwrap()
}

fn check(bank: &mut Bank) -> (Result<(), InstructionError>, Option<(Pubkey, Vec<u8>)>) {
    let ix = instruction::check_subnet_access(&subnet_program(), &key(RECORD), &key(MEMBERSHIP), [7u8; 32], key(MEMBER));
    subnet(&ix, bank)
}

fn custom(e: SubnetRegistryError) -> InstructionError {
    InstructionError::Custom(e.code())
}

#[test]
fn subnet_membership_and_freeze_flow() {
    let mut bank = setup();
    assert_eq!(record(&bank).owner, key(OWNER));
    let again = instruction::create_subnet(&subnet_program(), &key(RECORD), &key(OWNER), [7u8; 32], ClearanceTier::Kyc, 6);
    assert_eq!(subnet(&again, &mut bank).0, Err(custom(SubnetRegistryError::SubnetAlreadyExists)));

    assert_eq!(check(&mut bank).0, Err(custom(SubnetRegistryError::MemberNotFound)));
    let add = instruction::add_subnet_member(&subnet_program(), &key(RECORD), &key(MEMBERSHIP), &key(OWNER), [7u8; 32], key(MEMBER), [3u8; 32], 9);
    assert_eq!(subnet(&add, &mut bank).0, Ok(()));
    assert_eq!(record(&bank).validator_set, vec![key(MEMBER)]);
    let m = SubnetMembership::deserialize_padded(&bank[&key(MEMBERSHIP).to_bytes()].1).unwrap();
    assert!(m.is_active);
    assert_eq!(m.joined_at_slot, 9);
    assert_eq!(check(&mut bank), (Ok(()), Some((subnet_program(), vec![1u8]))));

    let freeze = instruction::freeze_subnet(&subnet_program(), &key(RECORD), &key(OWNER), [7u8; 32], 4);
    assert_eq!(subnet(&freeze, &mut bank).0, Ok(()));
    assert_eq!(check(&mut bank).0, Err(custom(SubnetRegistryError::SubnetFrozen)));
    let unfreeze = instruction::unfreeze_subnet(&subnet_program(), &key(RECORD), &key(OWNER), [7u8; 32]);
    assert_eq!(subnet(&unfreeze, &mut bank).0, Ok(()));
    assert_eq!(check(&mut bank).0, Ok(()));

    let remove = instruction::remove_subnet_member(&subnet_program(), &key(RECORD), &key(MEMBERSHIP), &key(OWNER), [7u8; 32], key(MEMBER));
    assert_eq!(subnet(&remove, &mut bank).0, Ok(()));
    assert!(record(&bank).validator_set.is_empty());
    assert_eq!(check(&mut bank).0, Err(custom(SubnetRegistryError::MemberNotFound)));
}

#[test]
fn subnet_changes_need_the_owner_and_the_right_id() {
    let mut bank = setup();
    let by_stranger = instruction::freeze_subnet(&subnet_program(), &key(RECORD), &key(9), [7u8; 32], 4);
    assert_eq!(subnet(&by_stranger, &mut bank).0, Err(InstructionError::IncorrectAuthority));
    let wrong_id = instruction::freeze_subnet(&subnet_program(), &key(RECORD), &key(OWNER), [8u8; 32], 4);
    assert_eq!(subnet(&wrong_id, &mut bank).0, Err(InstructionError::InvalidArgument));
    assert!(!record(&bank).is_frozen);
}

fn access(ix: &Instruction, bank: &mut Bank) -> (Result<(), InstructionError>, Option<(Pubkey, Vec<u8>)>) {
    exec(ix, bank, |c, d| AccessProcessor::process(c, d, &subnet_program()))
}

fn access_bank(frozen_subnet: bool, role_active: bool) -> Bank {
    access_bank_with(frozen_subnet, role_active, ClearanceTier::Military)
}

fn access_bank_with(frozen_subnet: bool, role_active: bool, role_max: ClearanceTier) -> Bank {
    let mut bank = setup();
    let add = instruction::add_subnet_member(&subnet_program(), &key(RECORD), &key(MEMBERSHIP), &key(OWNER), [7u8; 32], key(MEMBER), [3u8; 32], 9);
    assert_eq!(subnet(&add, &mut bank).0, Ok(()));
    if frozen_subnet {
        let freeze = instruction::freeze_subnet(&subnet_program(), &key(RECORD), &key(OWNER), [7u8; 32], 4);
        assert_eq!(subnet(&freeze, &mut bank).0, Ok(()));
    }
    let sbt = ClearanceSbt {
        holder: key(MEMBER),
        tier: ClearanceTier::Enterprise,
        issuer: key(20),
        issued_at_slot: 1,
        valid_until_slot: Some(1_000),
        revocation_registry: key(21),
        is_active: true,
    };
    let assignment = WalletRoleAssignment { wallet: key(MEMBER), role_id: [4u8; 32], assigned_at_slot: 2, assigned_by: key(22), is_active: true };
    let role = RoleEntry {
        role_id: [4u8; 32],
        authority: key(22),
        label: "operator".to_string(),
        min_clearance: ClearanceTier::Kyc,
        max_clearance: role_max,
        subnet_bindings: vec![[7u8; 32]],
        created_at_slot: 1,
        is_active: role_active,
    };
    bank.insert(key(50).to_bytes(), (access_program(), clearance_sbt_to_vec(&sbt)));
    bank.insert(key(51).to_bytes(), (access_program(), wallet_role_assignment_to_vec(&assignment)));
    bank.insert(key(52).to_bytes(), (access_program(), role_entry_to_vec(&role).unwrap()));
    bank
}

fn evaluate(bank: &mut Bank, tier: ClearanceTier, slot: u64) -> (Result<(), InstructionError>, AccessResult) {
    let ix = access_ix::evaluate_access(&access_program(), &key(50), &key(51), &key(52), &key(RECORD), key(MEMBER), tier, [4u8; 32], [7u8; 32], slot);
    let (r, ret) = access(&ix, bank);
    let (program, data) = ret.expect("return data");
    assert_eq!(program, access_program());
    (r, access_result_from_slice(&data).unwrap())
}

#[test]
fn access_chain_grants_and_reads_the_frozen_subnet() {
    let mut bank = access_bank(false, true);
    assert_eq!(evaluate(&mut bank, ClearanceTier::Kyc, 10), (Ok(()), AccessResult::Granted));

    let mut frozen = access_bank(true, true);
    let denied = AccessResult::Denied(AccessDeniedReason::SubnetFrozen);
    assert_eq!(evaluate(&mut frozen, ClearanceTier::Kyc, 10), (Err(InstructionError::Custom(6)), denied));
}

#[test]
fn access_chain_denies_in_order() {
    let mut bank = access_bank(true, false);
    assert_eq!(evaluate(&mut bank, ClearanceTier::Public, 10), (Ok(()), AccessResult::Granted));
    let expired = AccessResult::Denied(AccessDeniedReason::ClearanceExpired);
    assert_eq!(evaluate(&mut bank, ClearanceTier::Kyc, 1_001), (Err(InstructionError::Custom(1)), expired));
    let missing = AccessResult::Denied(AccessDeniedReason::ClearanceMissing);
    assert_eq!(evaluate(&mut bank, ClearanceTier::Government, 10), (Err(InstructionError::Custom(0)), missing));
    let inactive = AccessResult::Denied(AccessDeniedReason::RoleInactive);
    assert_eq!(evaluate(&mut bank, ClearanceTier::Kyc, 10), (Err(InstructionError::Custom(4)), inactive));
}

fn evaluate_for(bank: &mut Bank, wallet: Pubkey, subnet_id: [u8; 32]) -> (Result<(), InstructionError>, AccessResult) {
    let ix = access_ix::evaluate_access(&access_program(), &key(50), &key(51), &key(52), &key(RECORD), wallet, ClearanceTier::Kyc, [4u8; 32], subnet_id, 10);
    let (r, ret) = access(&ix, bank);
    (r, access_result_from_slice(&ret.expect("return data").1).unwrap())
}

#[test]
fn access_is_evaluated_for_the_named_wallet() {
    let mut bank = access_bank(false, true);
    // The token and the assignment belong to MEMBER, not to wallet 9.
    let missing = AccessResult::Denied(AccessDeniedReason::ClearanceMissing);
    assert_eq!(evaluate_for(&mut bank, key(9), [7u8; 32]), (Err(InstructionError::Custom(0)), missing));
    // With a token of wallet 9 but MEMBER's assignment, the role is missing.
    let own = ClearanceSbt {
        holder: key(9),
        tier: ClearanceTier::Enterprise,
        issuer: key(20),
        issued_at_slot: 1,
        valid_until_slot: None,
        revocation_registry: key(21),
        is_active: true,
    };
    bank.insert(key(50).to_bytes(), (access_program(), clearance_sbt_to_vec(&own)));
    let role_missing = AccessResult::Denied(AccessDeniedReason::RoleMissing);
    assert_eq!(evaluate_for(&mut bank, key(9), [7u8; 32]), (Err(InstructionError::Custom(3)), role_missing));
}

#[test]
fn a_clearance_outside_the_role_range_is_denied() {
    // Enterprise clearance, role open to Kyc..=Kyc only.
    let mut bank = access_bank_with(false, true, ClearanceTier::Kyc);
    let out = AccessResult::Denied(AccessDeniedReason::ClearanceOutOfRange);
    assert_eq!(evaluate(&mut bank, ClearanceTier::Kyc, 10), (Err(InstructionError::Custom(5)), out));
}

#[test]
fn the_subnet_record_must_be_the_registrys_record_of_the_subnet() {
    let mut bank = access_bank(false, true);
    let missing = AccessResult::Denied(AccessDeniedReason::SubnetMembershipMissing);
    assert_eq!(evaluate_for(&mut bank, key(MEMBER), [8u8; 32]), (Err(InstructionError::Custom(7)), missing));
    bank.get_mut(&key(RECORD).to_bytes()).unwrap().0 = key(240);
    assert_eq!(evaluate_for(&mut bank, key(MEMBER), [7u8; 32]), (Err(InstructionError::Custom(7)), missing));
}

#[test]
fn a_wallet_outside_the_subnet_is_denied() {
    let mut bank = access_bank(false, true);
    assert_eq!(evaluate_for(&mut bank, key(MEMBER), [7u8; 32]), (Ok(()), AccessResult::Granted));
    let remove = instruction::remove_subnet_member(&subnet_program(), &key(RECORD), &key(MEMBERSHIP), &key(OWNER), [7u8; 32], key(MEMBER));
    assert_eq!(subnet(&remove, &mut bank).0, Ok(()));
    let missing = AccessResult::Denied(AccessDeniedReason::SubnetMembershipMissing);
    assert_eq!(evaluate_for(&mut bank, key(MEMBER), [7u8; 32]), (Err(InstructionError::Custom(7)), missing));
}

const SUBNET_CONFIG: u8 = 102;
const SUBNET_ADMIN: u8 = 30;

#[test]
fn the_upgrade_authority_may_freeze_and_unfreeze_a_subnet() {
    let mut bank = setup();
    bank.insert(key(SUBNET_CONFIG).to_bytes(), (subnet_program(), vec![0u8; 128]));
    let init = instruction::initialize_registry(&subnet_program(), &key(SUBNET_CONFIG), &key(SUBNET_ADMIN), 1);
    assert_eq!(subnet(&init, &mut bank).0, Ok(()));
    let mut freeze = instruction::freeze_subnet(&subnet_program(), &key(RECORD), &key(SUBNET_ADMIN), [7u8; 32], 4);
    // Without the configuration the signer is a stranger.
    assert_eq!(subnet(&freeze, &mut bank).0, Err(InstructionError::IncorrectAuthority));
    freeze.accounts.push(AccountMeta { pubkey: key(SUBNET_CONFIG), is_signer: false, is_writable: false });
    assert_eq!(subnet(&freeze, &mut bank).0, Ok(()));
    assert!(record(&bank).is_frozen);
    assert_eq!(record(&bank).freeze_reason_code, Some(4));
    let mut unfreeze = instruction::unfreeze_subnet(&subnet_program(), &key(RECORD), &key(SUBNET_ADMIN), [7u8; 32]);
    unfreeze.accounts.push(AccountMeta { pubkey: key(SUBNET_CONFIG), is_signer: false, is_writable: false });
    assert_eq!(subnet(&unfreeze, &mut bank).0, Ok(()));
    assert!(!record(&bank).is_frozen);
    // A stranger gains nothing from naming the configuration.
    let mut by_stranger = instruction::freeze_subnet(&subnet_program(), &key(RECORD), &key(9), [7u8; 32], 4);
    by_stranger.accounts.push(AccountMeta { pubkey: key(SUBNET_CONFIG), is_signer: false, is_writable: false });
    assert_eq!(subnet(&by_stranger, &mut bank).0, Err(InstructionError::IncorrectAuthority));
}

const ACCESS_CONFIG: u8 = 60;
const ACCESS_ADMIN: u8 = 31;

fn registry_bank() -> Bank {
    let mut bank = access_bank(false, true);
    bank.insert(key(ACCESS_CONFIG).to_bytes(), (access_program(), vec![0u8; 128]));
    let init = access_ix::initialize_registry(&access_program(), &key(ACCESS_CONFIG), &key(ACCESS_ADMIN), 1);
    assert_eq!(access_plain(&init, &mut bank), Ok(()));
    bank
}

fn access_plain(ix: &Instruction, bank: &mut Bank) -> Result<(), InstructionError> {
    access(ix, bank).0
}

#[test]
fn the_issuer_or_the_upgrade_authority_may_revoke_a_clearance() {
    let mut bank = registry_bank();
    let stranger = access_ix::revoke_clearance(&access_program(), &key(50), &key(9), key(MEMBER), ClearanceTier::Enterprise);
    assert_eq!(access_plain(&stranger, &mut bank), Err(InstructionError::IncorrectAuthority));
    let mut by_admin = access_ix::revoke_clearance(&access_program(), &key(50), &key(ACCESS_ADMIN), key(MEMBER), ClearanceTier::Enterprise);
    assert_eq!(access_plain(&by_admin, &mut bank), Err(InstructionError::IncorrectAuthority));
    by_admin.accounts.push(AccountMeta { pubkey: key(ACCESS_CONFIG), is_signer: false, is_writable: false });
    assert_eq!(access_plain(&by_admin, &mut bank), Ok(()));
    let sbt = deserialize_clearance_sbt(&bank[&key(50).to_bytes()].1).unwrap();
    assert!(!sbt.is_active);
    assert_eq!(sbt.holder, key(MEMBER));
}

#[test]
fn a_role_is_assigned_only_on_the_callers_own_clearance() {
    let mut bank = access_bank(false, true);
    bank.insert(key(53).to_bytes(), (access_program(), vec![0u8; 256]));
    // The token in account 50 is MEMBER's; wallet 9 signs.
    let by_other = access_ix::assign_role(&access_program(), &key(53), &key(52), &key(50), &key(9), key(11), [4u8; 32], 12);
    assert_eq!(access_plain(&by_other, &mut bank), Err(InstructionError::Custom(PermissionRegistryError::ClearanceMissing.code())));
    assert_eq!(bank[&key(53).to_bytes()].1, vec![0u8; 256]);
    let by_holder = access_ix::assign_role(&access_program(), &key(53), &key(52), &key(50), &key(MEMBER), key(11), [4u8; 32], 12);
    assert_eq!(access_plain(&by_holder, &mut bank), Ok(()));
    let a = deserialize_role_assignment(&bank[&key(53).to_bytes()].1).unwrap();
    assert_eq!(a.wallet, key(11));
    assert_eq!(a.assigned_by, key(MEMBER));
}

fn key_record(state: KeyState, owner: Pubkey) -> Vec<u8> {
    key_record_to_vec(&KeyRecord {
        key_id: [6u8; 32],
        owner,
        key_type: KeyType::SessionKey,
        key_algorithm: KeyAlgorithm::X25519,
        public_key_bytes: vec![2u8; 32],
        state,
        created_at_slot: 1,
        expires_at_slot: None,
        successor_key_id: None,
    })
    .unwrap()
}

fn decrypt(bank: &mut Bank) -> (Result<(), InstructionError>, Option<(Pubkey, Vec<u8>)>) {
    let envelope = EncryptedPayloadEnvelope {
        version: 1,
        tier: 3,
        key_id: [6u8; 32],
        nonce: [0u8; 12],
        ciphertext: vec![9u8; 4],
        tag: [0u8; 16],
        aad: [0u8; 64],
    };
    let header = encrypted_payload_envelope_to_vec(&envelope).unwrap();
    let data = permission_registry_instruction_to_vec(&PermissionRegistryInstruction::DecryptHeader { envelope_header: header }).unwrap();
    let ix = Instruction {
        program_id: access_program(),
        accounts: vec![AccountMeta { pubkey: key(70), is_signer: false, is_writable: false }],
        data,
    };
    access(&ix, bank)
}

#[test]
fn decrypt_header_rejects_a_revoked_key_whatever_its_owner() {
    let mut bank = Bank::new();
    // Never registered: accepted.
    bank.insert(key(70).to_bytes(), (key(237), vec![0u8; 200]));
    assert_eq!(decrypt(&mut bank), (Ok(()), Some((access_program(), vec![6u8; 32]))));
    // An active key: accepted.
    bank.insert(key(70).to_bytes(), (key(237), key_record(KeyState::Active, Pubkey::new_from_array([0u8; 32]))));
    assert_eq!(decrypt(&mut bank).0, Ok(()));
    // A revoked key whose owner starts with a zero byte: refused.
    let mut owner = [5u8; 32];
    owner[0] = 0;
    bank.insert(key(70).to_bytes(), (key(237), key_record(KeyState::Revoked, Pubkey::new_from_array(owner))));
    assert_eq!(decrypt(&mut bank), (Err(InstructionError::Custom(PermissionRegistryError::KeyRevoked.code())), None));
}

#[test]
fn decrypt_header_judges_undecodable_data_by_its_state_byte() {
    let mut bank = Bank::new();
    // Too short to hold a state: accepted.
    bank.insert(key(70).to_bytes(), (key(237), vec![0xFFu8; 20]));
    assert_eq!(decrypt(&mut bank).0, Ok(()));
    // Not a key record, with a non-zero byte at offset 32: refused.
    bank.insert(key(70).to_bytes(), (key(237), vec![0xFFu8; 40]));
    assert_eq!(decrypt(&mut bank).0, Err(InstructionError::Custom(PermissionRegistryError::KeyRevoked.code())));
    // Not a key record, with a zero byte at offset 32: accepted.
    let mut data = vec![0xFFu8; 40];
    data[32] = 0;
    bank.insert(key(70).to_bytes(), (key(237), data));
    assert_eq!(decrypt(&mut bank).0, Ok(()));
}
