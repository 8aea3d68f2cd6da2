use std::collections::HashMap;

use aeko_programs::errors::InstructionError;
use aeko_programs::finality_oracle::instruction;
use aeko_programs::finality_oracle::processor::Processor;
use aeko_programs::finality_oracle::types::{FinalityOracleError, FinalityProof, ProofRequest};
use aeko_programs::permission_types::types::{clearance_sbt_to_vec, ClearanceSbt, ClearanceTier, KeyAlgorithm, KeyState, KeyType};
use aeko_programs::revocation_registry::types::{key_record_to_vec, KeyRecord};
use aeko_programs::subnet_registry::types::{subnet_membership_to_vec, SubnetMembership};
use aeko_programs::pubkey::Pubkey;
use aeko_programs::runtime::{AccountInfo, AccountMeta, Instruction, InstructionContext};

fn key(n: u8) -> Pubkey {
    Pubkey::new_from_array([n; 32])
}

fn program() -> Pubkey {
    key(233)
}

fn subnet_registry() -> Pubkey {
    key(236)
}

type Bank = HashMap<[u8; 32], (Pubkey, Vec<u8>)>;

fn exec(ix: &Instruction, bank: &mut Bank) -> (Result<(), InstructionError>, Option<(Pubkey, Vec<u8>)>) {
    let infos = ix
        .accounts
        .iter()
        .map(|m| {
            let (owner, data) = bank.get(&m.pubkey.to_bytes()).cloned().unwrap_or((key(240), Vec::new()));
            AccountInfo { key: m.pubkey, owner, is_signer: m.is_signer, is_writable: m.is_writable, lamports: 1, data }
        })
        .collect();
    let mut ctx = InstructionContext { program_id: ix.program_id, accounts: infos, return_data: None };
    let r = Processor::process(&mut ctx, &ix.data, &subnet_registry());
    for a in ctx.accounts {
        if let Some(slot) = bank.get_mut(&a.key.to_bytes()) {
            slot.1 = a.data;
        }
    }
    (r, ctx.return_data)
}

fn custom(e: FinalityOracleError) -> InstructionError {
    InstructionError::Custom(e.code())
}

const REQUEST: u8 = 100;
const PROOF: u8 = 101;
const SBT: u8 = 102;
const KEY_RECORD: u8 = 103;
const ISSUER: u8 = 1;
const REQUESTER: u8 = 2;
const REQUESTER_SBT: u8 = 104;
const MEMBERSHIP: u8 = 105;

fn sbt_bytes(holder: u8, tier: ClearanceTier) -> Vec<u8> {
    clearance_sbt_to_vec(&ClearanceSbt {
        holder: key(holder),
        tier,
        issuer: key(20),
        issued_at_slot: 1,
        valid_until_slot: None,
        revocation_registry: key(21),
        is_active: true,
    })
}

fn issuer_key_record(state: KeyState) -> Vec<u8> {
    key_record_to_vec(&KeyRecord {
        key_id: [8u8; 32],
        owner: key(ISSUER),
        key_type: KeyType::NodeKey,
        key_algorithm: KeyAlgorithm::Ed25519,
        public_key_bytes: vec![1u8; 32],
        state,
        created_at_slot: 1,
        expires_at_slot: None,
        successor_key_id: None,
    })
    .unwrap()
}

fn setup(tier: ClearanceTier) -> Bank {
    let mut bank = Bank::new();
    // A zeroed request account reads as an open request, so a fresh one holds
    // bytes that do not decode.
    bank.insert(key(REQUEST).to_bytes(), (program(), vec![0xFFu8; 256]));
    bank.insert(key(PROOF).to_bytes(), (program(), vec![0u8; 256]));
    let sbt = ClearanceSbt {
        holder: key(ISSUER),
        tier,
        issuer: key(20),
        issued_at_slot: 1,
        valid_until_slot: None,
        revocation_registry: key(21),
        is_active: true,
    };
    bank.insert(key(SBT).to_bytes(), (key(234), clearance_sbt_to_vec(&sbt)));
    bank.insert(key(KEY_RECORD).to_bytes(), (key(235), vec![0u8; 64]));
    bank.insert(key(REQUESTER_SBT).to_bytes(), (key(234), sbt_bytes(REQUESTER, ClearanceTier::Enterprise)));
    bank
}

fn request(bank: &mut Bank, sig: [u8; 64], subnet_id: Option<[u8; 32]>) {
    let request = instruction::request_finality_proof(&program(), &key(REQUEST), &key(REQUESTER_SBT), &key(REQUESTER), sig, ClearanceTier::Kyc, subnet_id, 40);
    assert_eq!(exec(&request, bank).0, Ok(()));
}

#[test]
fn finality_request_issue_and_verify_flow() {
    let mut bank = setup(ClearanceTier::Government);
    let sig = [3u8; 64];
    let request = instruction::request_finality_proof(&program(), &key(REQUEST), &key(REQUESTER_SBT), &key(REQUESTER), sig, ClearanceTier::Kyc, None, 40);
    assert_eq!(exec(&request, &mut bank).0, Ok(()));
    let stored = ProofRequest::deserialize_padded(&bank[&key(REQUEST).to_bytes()].1).unwrap();
    assert!(!stored.is_fulfilled);
    assert_eq!(stored.requester, key(REQUESTER));
    assert_eq!(exec(&request, &mut bank).0, Err(custom(FinalityOracleError::ProofRequestAlreadyExists)));

    let hash = FinalityProof::compute_hash(41, &sig, ClearanceTier::Kyc, None, &key(ISSUER), 42);
    let issue = instruction::issue_finality_proof(&program(), &key(PROOF), &key(REQUEST), &key(SBT), None, &key(ISSUER), 41, sig, ClearanceTier::Kyc, None, hash, 42);
    assert_eq!(exec(&issue, &mut bank).0, Ok(()));
    assert!(ProofRequest::deserialize_padded(&bank[&key(REQUEST).to_bytes()].1).unwrap().is_fulfilled);
    // A fulfilled request cannot be answered twice.
    assert_eq!(exec(&issue, &mut bank).0, Err(custom(FinalityOracleError::ProofRequestNotFound)));

    let verify = instruction::verify_finality_proof(&program(), &key(PROOF), &key(KEY_RECORD), sig);
    let (r, ret) = exec(&verify, &mut bank);
    assert_eq!(r, Ok(()));
    assert_eq!(ret, Some((program(), hash.to_vec())));

    let other_sig = instruction::verify_finality_proof(&program(), &key(PROOF), &key(KEY_RECORD), [4u8; 64]);
    assert_eq!(exec(&other_sig, &mut bank).0, Err(InstructionError::InvalidArgument));
}

#[test]
fn requesting_with_another_wallets_clearance_is_refused() {
    let mut bank = setup(ClearanceTier::Government);
    let before = bank[&key(REQUEST).to_bytes()].1.clone();
    // The token in SBT belongs to the issuer, not to the requester.
    let request = instruction::request_finality_proof(&program(), &key(REQUEST), &key(SBT), &key(REQUESTER), [3u8; 64], ClearanceTier::Kyc, None, 40);
    assert_eq!(exec(&request, &mut bank).0, Err(custom(FinalityOracleError::InsufficientClearance)));
    assert_eq!(bank[&key(REQUEST).to_bytes()].1, before);
}

#[test]
fn issuing_needs_an_open_request_for_the_signature() {
    let mut bank = setup(ClearanceTier::Government);
    let sig = [3u8; 64];
    let hash = FinalityProof::compute_hash(41, &sig, ClearanceTier::Kyc, None, &key(ISSUER), 42);
    let issue = instruction::issue_finality_proof(&program(), &key(PROOF), &key(REQUEST), &key(SBT), None, &key(ISSUER), 41, sig, ClearanceTier::Kyc, None, hash, 42);
    // Bytes that do not decode as a request.
    assert_eq!(exec(&issue, &mut bank).0, Err(InstructionError::InvalidArgument));
    // A zeroed (never written) request account.
    bank.get_mut(&key(REQUEST).to_bytes()).unwrap().1 = vec![0u8; 256];
    assert_eq!(exec(&issue, &mut bank).0, Err(custom(FinalityOracleError::ProofRequestNotFound)));
    assert_eq!(bank[&key(PROOF).to_bytes()].1, vec![0u8; 256]);
    // A request for another signature (written over bytes that do not
    // decode, since a zeroed account reads as an open request).
    bank.get_mut(&key(REQUEST).to_bytes()).unwrap().1 = vec![0xFFu8; 256];
    request(&mut bank, [5u8; 64], None);
    assert_eq!(exec(&issue, &mut bank).0, Err(InstructionError::InvalidArgument));
    assert_eq!(bank[&key(PROOF).to_bytes()].1, vec![0u8; 256]);
}

#[test]
fn proof_with_a_wrong_commitment_fails_verification() {
    let mut bank = setup(ClearanceTier::Government);
    let sig = [3u8; 64];
    request(&mut bank, sig, None);
    let issue = instruction::issue_finality_proof(&program(), &key(PROOF), &key(REQUEST), &key(SBT), None, &key(ISSUER), 41, sig, ClearanceTier::Kyc, None, [0u8; 32], 42);
    assert_eq!(exec(&issue, &mut bank).0, Ok(()));
    let verify = instruction::verify_finality_proof(&program(), &key(PROOF), &key(KEY_RECORD), sig);
    assert_eq!(exec(&verify, &mut bank).0, Err(custom(FinalityOracleError::ProofHashMismatch)));
}

#[test]
fn issuing_above_the_issuer_clearance_is_refused() {
    let mut bank = setup(ClearanceTier::Kyc);
    let sig = [3u8; 64];
    request(&mut bank, sig, None);
    let hash = FinalityProof::compute_hash(41, &sig, ClearanceTier::Military, None, &key(ISSUER), 42);
    let issue = instruction::issue_finality_proof(&program(), &key(PROOF), &key(REQUEST), &key(SBT), None, &key(ISSUER), 41, sig, ClearanceTier::Military, None, hash, 42);
    assert_eq!(exec(&issue, &mut bank).0, Err(custom(FinalityOracleError::InsufficientClearance)));
    let verify = instruction::verify_finality_proof(&program(), &key(PROOF), &key(KEY_RECORD), sig);
    assert_eq!(exec(&verify, &mut bank).0, Err(custom(FinalityOracleError::ProofNotFound)));
}

#[test]
fn subnet_scoped_proofs_need_the_issuers_membership() {
    let mut bank = setup(ClearanceTier::Government);
    let sig = [3u8; 64];
    let subnet = [7u8; 32];
    request(&mut bank, sig, Some(subnet));
    let hash = FinalityProof::compute_hash(41, &sig, ClearanceTier::Kyc, Some(&subnet), &key(ISSUER), 42);
    let issue = instruction::issue_finality_proof(&program(), &key(PROOF), &key(REQUEST), &key(SBT), Some(&key(MEMBERSHIP)), &key(ISSUER), 41, sig, ClearanceTier::Kyc, Some(subnet), hash, 42);
    assert_eq!(exec(&issue, &mut bank).0, Err(custom(FinalityOracleError::IssuerNotSubnetMember)));
    let membership = SubnetMembership { subnet_id: subnet, member: key(ISSUER), key_id: [8u8; 32], joined_at_slot: 3, is_active: true };
    // A membership record not held by the subnet registry proves nothing.
    bank.insert(key(MEMBERSHIP).to_bytes(), (key(240), subnet_membership_to_vec(&membership)));
    assert_eq!(exec(&issue, &mut bank).0, Err(custom(FinalityOracleError::IssuerNotSubnetMember)));
    bank.insert(key(MEMBERSHIP).to_bytes(), (subnet_registry(), subnet_membership_to_vec(&membership)));
    assert_eq!(exec(&issue, &mut bank).0, Ok(()));

    // Verification asks that the issuer still be a member.
    let mut verify = instruction::verify_finality_proof(&program(), &key(PROOF), &key(KEY_RECORD), sig);
    assert_eq!(exec(&verify, &mut bank).0, Err(custom(FinalityOracleError::IssuerNotSubnetMember)));
    verify.accounts.push(AccountMeta { pubkey: key(MEMBERSHIP), is_signer: false, is_writable: false });
    assert_eq!(exec(&verify, &mut bank), (Ok(()), Some((program(), hash.to_vec()))));
    let left = SubnetMembership { is_active: false, ..membership };
    bank.insert(key(MEMBERSHIP).to_bytes(), (subnet_registry(), subnet_membership_to_vec(&left)));
    assert_eq!(exec(&verify, &mut bank).0, Err(custom(FinalityOracleError::IssuerNotSubnetMember)));
}

#[test]
fn a_revoked_issuer_key_fails_verification() {
    let mut bank = setup(ClearanceTier::Government);
    let sig = [3u8; 64];
    request(&mut bank, sig, None);
    let hash = FinalityProof::compute_hash(41, &sig, ClearanceTier::Kyc, None, &key(ISSUER), 42);
    let issue = instruction::issue_finality_proof(&program(), &key(PROOF), &key(REQUEST), &key(SBT), None, &key(ISSUER), 41, sig, ClearanceTier::Kyc, None, hash, 42);
    assert_eq!(exec(&issue, &mut bank).0, Ok(()));
    let verify = instruction::verify_finality_proof(&program(), &key(PROOF), &key(KEY_RECORD), sig);
    bank.get_mut(&key(KEY_RECORD).to_bytes()).unwrap().1 = issuer_key_record(KeyState::Active);
    assert_eq!(exec(&verify, &mut bank).0, Ok(()));
    bank.get_mut(&key(KEY_RECORD).to_bytes()).unwrap().1 = issuer_key_record(KeyState::Revoked);
    let (r, ret) = exec(&verify, &mut bank);
    assert_eq!(r, Err(custom(FinalityOracleError::ProofIssuerRevoked)));
    assert_eq!(ret, None);
}
