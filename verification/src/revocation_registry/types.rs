//! Data types and their byte layout.
use vstd::prelude::*;
use crate::codec::{dec_arr, dec_bool, dec_bytes, dec_pubkey, dec_u16, dec_u64, dec_u8, enc_arr, enc_bool, enc_bytes, enc_pubkey, enc_u16, enc_u64, enc_u8, fits_u32, lemma_arr, lemma_assoc, lemma_bool, lemma_bytes, lemma_pubkey, lemma_skip_skip, lemma_u16, lemma_u64, lemma_u8, read_arr, read_bool, read_bytes, read_ok, read_pubkey, read_u16, read_u64, read_u8, write_arr, write_bool, write_bytes, write_pubkey, write_u16, write_u64, write_u8};
use crate::layout::{dec_opt_arr32, dec_opt_u64, enc_opt_arr32, enc_opt_u64, lemma_opt_arr32, lemma_opt_u64, read_opt_arr32, read_opt_u64, write_opt_arr32, write_opt_u64};
use crate::permission_types::types::{KeyAlgorithm, KeyState, KeyType, dec_key_algorithm, dec_key_state, dec_key_type, enc_key_algorithm, enc_key_state, enc_key_type, lemma_key_algorithm, lemma_key_state, lemma_key_type, read_key_algorithm, read_key_state, read_key_type, write_key_algorithm, write_key_state, write_key_type};
use crate::pubkey::{Pubkey};

verus! {

/// Custom error codes of the revocation registry.
#[derive(Clone, Copy, Debug, PartialEq, Eq, Structural)]
pub enum RevocationRegistryError {
    AlreadyInitialized,
    Uninitialized,
    Unauthorized,
    KeyAlreadyExists,
    KeyNotFound,
    KeyAlreadyTerminal,
    InvalidStateTransition,
    RotationIntentNotFound,
    RotationAlreadyApproved,
    QuorumNotMet,
    RotationExpired,
    SuccessorKeyMissing,
    InvalidAccountData,
    InvalidInstructionData,
}

impl RevocationRegistryError {
    /// The custom error code carried by this error.
    pub open spec fn spec_code(self) -> u32 {
        match self {
            RevocationRegistryError::AlreadyInitialized => 0,
            RevocationRegistryError::Uninitialized => 1,
            RevocationRegistryError::Unauthorized => 2,
            RevocationRegistryError::KeyAlreadyExists => 3,
            RevocationRegistryError::KeyNotFound => 4,
            RevocationRegistryError::KeyAlreadyTerminal => 5,
            RevocationRegistryError::InvalidStateTransition => 6,
            RevocationRegistryError::RotationIntentNotFound => 7,
            RevocationRegistryError::RotationAlreadyApproved => 8,
            RevocationRegistryError::QuorumNotMet => 9,
            RevocationRegistryError::RotationExpired => 10,
            RevocationRegistryError::SuccessorKeyMissing => 11,
            RevocationRegistryError::InvalidAccountData => 12,
            RevocationRegistryError::InvalidInstructionData => 13,
        }
    }

    pub fn code(self) -> (c: u32)
        ensures
            c == self.spec_code(),
    {
        match self {
            RevocationRegistryError::AlreadyInitialized => 0,
            RevocationRegistryError::Uninitialized => 1,
            RevocationRegistryError::Unauthorized => 2,
            RevocationRegistryError::KeyAlreadyExists => 3,
            RevocationRegistryError::KeyNotFound => 4,
            RevocationRegistryError::KeyAlreadyTerminal => 5,
            RevocationRegistryError::InvalidStateTransition => 6,
            RevocationRegistryError::RotationIntentNotFound => 7,
            RevocationRegistryError::RotationAlreadyApproved => 8,
            RevocationRegistryError::QuorumNotMet => 9,
            RevocationRegistryError::RotationExpired => 10,
            RevocationRegistryError::SuccessorKeyMissing => 11,
            RevocationRegistryError::InvalidAccountData => 12,
            RevocationRegistryError::InvalidInstructionData => 13,
        }
    }
}

/// Singleton configuration of the revocation registry.
#[derive(Clone, Copy, Debug, PartialEq, Eq)]
pub struct RevRegistryConfig {
    pub is_initialized: bool,
    pub upgrade_authority: Pubkey,
    pub created_at_slot: u64,
}

#[verifier::opaque]
pub open spec fn enc_rev_registry_config(v: RevRegistryConfig) -> Seq<u8> {
    enc_bool(v.is_initialized) + (enc_pubkey(v.upgrade_authority) + (enc_u64(v.created_at_slot)))
}

#[verifier::opaque]
pub open spec fn dec_rev_registry_config(s: Seq<u8>) -> Option<(RevRegistryConfig, Seq<u8>)> {
    match dec_bool(s) {
            Some((is_initialized, r1)) => match dec_pubkey(r1) {
            Some((upgrade_authority, r2)) => match dec_u64(r2) {
            Some((created_at_slot, r3)) => Some((RevRegistryConfig { is_initialized, upgrade_authority, created_at_slot }, r3)),
            None => None,
        },
            None => None,
        },
            None => None,
        }
}

pub fn read_rev_registry_config(d: &[u8], pos: usize) -> (r: Option<(RevRegistryConfig, usize)>)
    requires
        pos <= d@.len(),
    ensures
        read_ok(dec_rev_registry_config(d@.skip(pos as int)), r, d@),
{
    proof {
        reveal(dec_rev_registry_config);
    }
    match read_bool(d, pos) {
        None => None,
        Some((is_initialized, p1)) => match read_pubkey(d, p1) {
        None => None,
        Some((upgrade_authority, p2)) => match read_u64(d, p2) {
        None => None,
        Some((created_at_slot, p3)) => Some((RevRegistryConfig { is_initialized, upgrade_authority, created_at_slot }, p3)),
    },
    },
    }
}

pub fn write_rev_registry_config(out: &mut Vec<u8>, v: &RevRegistryConfig)
    ensures
        final(out)@ == old(out)@ + enc_rev_registry_config(*v),
{
    proof {
        reveal(enc_rev_registry_config);
    }
    write_bool(out, *&v.is_initialized);
    let ghost o0 = out@;
    write_pubkey(out, &v.upgrade_authority);
    let ghost o1 = out@;
    write_u64(out, *&v.created_at_slot);
    let ghost o2 = out@;
    proof {
        lemma_assoc(o0, enc_pubkey((*v).upgrade_authority), enc_u64((*v).created_at_slot));
        lemma_assoc(old(out)@, enc_bool((*v).is_initialized), enc_pubkey((*v).upgrade_authority) + (enc_u64((*v).created_at_slot)));
    }
}

pub proof fn lemma_rev_registry_config(v: RevRegistryConfig, rest: Seq<u8>)
    ensures
        dec_rev_registry_config(enc_rev_registry_config(v) + rest) == Some((v, rest)),
{
    reveal(enc_rev_registry_config);
    reveal(dec_rev_registry_config);
    lemma_assoc(enc_bool(v.is_initialized), enc_pubkey(v.upgrade_authority) + (enc_u64(v.created_at_slot)), rest);
    lemma_bool(v.is_initialized, enc_pubkey(v.upgrade_authority) + (enc_u64(v.created_at_slot)) + rest);
    lemma_assoc(enc_pubkey(v.upgrade_authority), enc_u64(v.created_at_slot), rest);
    lemma_pubkey(v.upgrade_authority, enc_u64(v.created_at_slot) + rest);
    lemma_u64(v.created_at_slot, rest);
}

/// Decodes a [`RevRegistryConfig`] that must take up all of `d`.
pub fn rev_registry_config_from_slice(d: &[u8]) -> (r: Option<RevRegistryConfig>)
    ensures
        r is Some <==> (dec_rev_registry_config(d@) matches Some((_, rest)) && rest.len() == 0),
        r matches Some(v) ==> dec_rev_registry_config(d@) == Some((v, Seq::<u8>::empty())),
{
    assert(d@.skip(0) =~= d@);
    match read_rev_registry_config(d, 0) {
        None => None,
        Some((v, p)) => {
            if p == d.len() {
                assert(d@.skip(p as int) =~= Seq::<u8>::empty());
                Some(v)
            } else {
                None
            }
        },
    }
}

/// Decodes a [`RevRegistryConfig`] from the front of `d`, ignoring what follows it.
pub fn rev_registry_config_from_prefix(d: &[u8]) -> (r: Option<RevRegistryConfig>)
    ensures
        r is Some <==> dec_rev_registry_config(d@) is Some,
        r matches Some(v) ==> dec_rev_registry_config(d@) matches Some((m, _)) && m == v,
{
    assert(d@.skip(0) =~= d@);
    match read_rev_registry_config(d, 0) {
        None => None,
        Some((v, _)) => Some(v),
    }
}

/// Serialises a [`RevRegistryConfig`].
pub fn rev_registry_config_to_vec(v: &RevRegistryConfig) -> (r: Vec<u8>)
    ensures
        r@ == enc_rev_registry_config(*v),
{
    let mut out: Vec<u8> = Vec::new();
    write_rev_registry_config(&mut out, v);
    assert(out@ =~= enc_rev_registry_config(*v));
    out
}

/// Full lifecycle record of a cryptographic key.
#[derive(Clone, Debug, PartialEq, Eq)]
pub struct KeyRecord {
    pub key_id: [u8; 32],
    pub owner: Pubkey,
    pub key_type: KeyType,
    pub key_algorithm: KeyAlgorithm,
    pub public_key_bytes: Vec<u8>,
    pub state: KeyState,
    pub created_at_slot: u64,
    pub expires_at_slot: Option<u64>,
    pub successor_key_id: Option<[u8; 32]>,
}

/// Mathematical model of [`KeyRecord`].
#[verifier::ext_equal]
pub struct KeyRecordModel {
    pub key_id: [u8; 32],
    pub owner: Pubkey,
    pub key_type: KeyType,
    pub key_algorithm: KeyAlgorithm,
    pub public_key_bytes: Seq<u8>,
    pub state: KeyState,
    pub created_at_slot: u64,
    pub expires_at_slot: Option<u64>,
    pub successor_key_id: Option<[u8; 32]>,
}

impl View for KeyRecord {
    type V = KeyRecordModel;

    open spec fn view(&self) -> KeyRecordModel {
        KeyRecordModel {
            key_id: self.key_id,
            owner: self.owner,
            key_type: self.key_type,
            key_algorithm: self.key_algorithm,
            public_key_bytes: self.public_key_bytes@,
            state: self.state,
            created_at_slot: self.created_at_slot,
            expires_at_slot: self.expires_at_slot,
            successor_key_id: self.successor_key_id,
        }
    }
}

#[verifier::opaque]
pub open spec fn enc_key_record(v: KeyRecordModel) -> Seq<u8> {
    enc_arr::<32>(v.key_id) + (enc_pubkey(v.owner) + (enc_key_type(v.key_type) + (enc_key_algorithm(v.key_algorithm) + (enc_bytes(v.public_key_bytes) + (enc_key_state(v.state) + (enc_u64(v.created_at_slot) + (enc_opt_u64(v.expires_at_slot) + (enc_opt_arr32(v.successor_key_id)))))))))
}

#[verifier::opaque]
pub open spec fn dec_key_record(s: Seq<u8>) -> Option<(KeyRecordModel, Seq<u8>)> {
    match dec_arr::<32>(s) {
            Some((key_id, r1)) => match dec_pubkey(r1) {
            Some((owner, r2)) => match dec_key_type(r2) {
            Some((key_type, r3)) => match dec_key_algorithm(r3) {
            Some((key_algorithm, r4)) => match dec_bytes(r4) {
            Some((public_key_bytes, r5)) => match dec_key_state(r5) {
            Some((state, r6)) => match dec_u64(r6) {
            Some((created_at_slot, r7)) => match dec_opt_u64(r7) {
            Some((expires_at_slot, r8)) => match dec_opt_arr32(r8) {
            Some((successor_key_id, r9)) => Some((KeyRecordModel { key_id, owner, key_type, key_algorithm, public_key_bytes, state, created_at_slot, expires_at_slot, successor_key_id }, r9)),
            None => None,
        },
            None => None,
        },
            None => None,
        },
            None => None,
        },
            None => None,
        },
            None => None,
        },
            None => None,
        },
            None => None,
        },
            None => None,
        }
}

pub open spec fn fits_key_record(v: KeyRecordModel) -> bool {
    fits_u32(v.public_key_bytes.len())
}

pub fn read_key_record(d: &[u8], pos: usize) -> (r: Option<(KeyRecord, usize)>)
    requires
        pos <= d@.len(),
    ensures
        match r {
            None => dec_key_record(d@.skip(pos as int)) is None,
            Some((v, p)) => p <= d@.len() && dec_key_record(d@.skip(pos as int)) == Some((v@, d@.skip(p as int))),
        },
{
    proof {
        reveal(dec_key_record);
    }
    match read_arr::<32>(d, pos) {
        None => None,
        Some((key_id, p1)) => match read_pubkey(d, p1) {
        None => None,
        Some((owner, p2)) => match read_key_type(d, p2) {
        None => None,
        Some((key_type, p3)) => match read_key_algorithm(d, p3) {
        None => None,
        Some((key_algorithm, p4)) => match read_bytes(d, p4) {
        None => None,
        Some((public_key_bytes, p5)) => match read_key_state(d, p5) {
        None => None,
        Some((state, p6)) => match read_u64(d, p6) {
        None => None,
        Some((created_at_slot, p7)) => match read_opt_u64(d, p7) {
        None => None,
        Some((expires_at_slot, p8)) => match read_opt_arr32(d, p8) {
        None => None,
        Some((successor_key_id, p9)) => Some((KeyRecord { key_id, owner, key_type, key_algorithm, public_key_bytes, state, created_at_slot, expires_at_slot, successor_key_id }, p9)),
    },
    },
    },
    },
    },
    },
    },
    },
    }
}

pub fn write_key_record(out: &mut Vec<u8>, v: &KeyRecord) -> (ok: bool)
    ensures
        ok == fits_key_record(v@),
        ok ==> final(out)@ == old(out)@ + enc_key_record(v@),
{
    proof {
        reveal(enc_key_record);
    }
    write_arr::<32>(out, &v.key_id);
    let ghost o0 = out@;
    write_pubkey(out, &v.owner);
    let ghost o1 = out@;
    write_key_type(out, &v.key_type);
    let ghost o2 = out@;
    write_key_algorithm(out, &v.key_algorithm);
    let ghost o3 = out@;
    if !write_bytes(out, &v.public_key_bytes.as_slice()) { return false; }
    let ghost o4 = out@;
    write_key_state(out, &v.state);
    let ghost o5 = out@;
    write_u64(out, *&v.created_at_slot);
    let ghost o6 = out@;
    write_opt_u64(out, &v.expires_at_slot);
    let ghost o7 = out@;
    write_opt_arr32(out, &v.successor_key_id);
    let ghost o8 = out@;
    proof {
        lemma_assoc(o6, enc_opt_u64(v@.expires_at_slot), enc_opt_arr32(v@.successor_key_id));
        lemma_assoc(o5, enc_u64(v@.created_at_slot), enc_opt_u64(v@.expires_at_slot) + (enc_opt_arr32(v@.successor_key_id)));
        lemma_assoc(o4, enc_key_state(v@.state), enc_u64(v@.created_at_slot) + (enc_opt_u64(v@.expires_at_slot) + (enc_opt_arr32(v@.successor_key_id))));
        lemma_assoc(o3, enc_bytes(v@.public_key_bytes), enc_key_state(v@.state) + (enc_u64(v@.created_at_slot) + (enc_opt_u64(v@.expires_at_slot) + (enc_opt_arr32(v@.successor_key_id)))));
        lemma_assoc(o2, enc_key_algorithm(v@.key_algorithm), enc_bytes(v@.public_key_bytes) + (enc_key_state(v@.state) + (enc_u64(v@.created_at_slot) + (enc_opt_u64(v@.expires_at_slot) + (enc_opt_arr32(v@.successor_key_id))))));
        lemma_assoc(o1, enc_key_type(v@.key_type), enc_key_algorithm(v@.key_algorithm) + (enc_bytes(v@.public_key_bytes) + (enc_key_state(v@.state) + (enc_u64(v@.created_at_slot) + (enc_opt_u64(v@.expires_at_slot) + (enc_opt_arr32(v@.successor_key_id)))))));
        lemma_assoc(o0, enc_pubkey(v@.owner), enc_key_type(v@.key_type) + (enc_key_algorithm(v@.key_algorithm) + (enc_bytes(v@.public_key_bytes) + (enc_key_state(v@.state) + (enc_u64(v@.created_at_slot) + (enc_opt_u64(v@.expires_at_slot) + (enc_opt_arr32(v@.successor_key_id))))))));
        lemma_assoc(old(out)@, enc_arr::<32>(v@.key_id), enc_pubkey(v@.owner) + (enc_key_type(v@.key_type) + (enc_key_algorithm(v@.key_algorithm) + (enc_bytes(v@.public_key_bytes) + (enc_key_state(v@.state) + (enc_u64(v@.created_at_slot) + (enc_opt_u64(v@.expires_at_slot) + (enc_opt_arr32(v@.successor_key_id)))))))));
    }
    true
}

pub proof fn lemma_key_record(v: KeyRecordModel, rest: Seq<u8>)
    requires
        fits_key_record(v),
    ensures
        dec_key_record(enc_key_record(v) + rest) == Some((v, rest)),
{
    reveal(enc_key_record);
    reveal(dec_key_record);
    lemma_assoc(enc_arr::<32>(v.key_id), enc_pubkey(v.owner) + (enc_key_type(v.key_type) + (enc_key_algorithm(v.key_algorithm) + (enc_bytes(v.public_key_bytes) + (enc_key_state(v.state) + (enc_u64(v.created_at_slot) + (enc_opt_u64(v.expires_at_slot) + (enc_opt_arr32(v.successor_key_id)))))))), rest);
    lemma_arr::<32>(v.key_id, enc_pubkey(v.owner) + (enc_key_type(v.key_type) + (enc_key_algorithm(v.key_algorithm) + (enc_bytes(v.public_key_bytes) + (enc_key_state(v.state) + (enc_u64(v.created_at_slot) + (enc_opt_u64(v.expires_at_slot) + (enc_opt_arr32(v.successor_key_id)))))))) + rest);
    lemma_assoc(enc_pubkey(v.owner), enc_key_type(v.key_type) + (enc_key_algorithm(v.key_algorithm) + (enc_bytes(v.public_key_bytes) + (enc_key_state(v.state) + (enc_u64(v.created_at_slot) + (enc_opt_u64(v.expires_at_slot) + (enc_opt_arr32(v.successor_key_id))))))), rest);
    lemma_pubkey(v.owner, enc_key_type(v.key_type) + (enc_key_algorithm(v.key_algorithm) + (enc_bytes(v.public_key_bytes) + (enc_key_state(v.state) + (enc_u64(v.created_at_slot) + (enc_opt_u64(v.expires_at_slot) + (enc_opt_arr32(v.successor_key_id))))))) + rest);
    lemma_assoc(enc_key_type(v.key_type), enc_key_algorithm(v.key_algorithm) + (enc_bytes(v.public_key_bytes) + (enc_key_state(v.state) + (enc_u64(v.created_at_slot) + (enc_opt_u64(v.expires_at_slot) + (enc_opt_arr32(v.successor_key_id)))))), rest);
    lemma_key_type(v.key_type, enc_key_algorithm(v.key_algorithm) + (enc_bytes(v.public_key_bytes) + (enc_key_state(v.state) + (enc_u64(v.created_at_slot) + (enc_opt_u64(v.expires_at_slot) + (enc_opt_arr32(v.successor_key_id)))))) + rest);
    lemma_assoc(enc_key_algorithm(v.key_algorithm), enc_bytes(v.public_key_bytes) + (enc_key_state(v.state) + (enc_u64(v.created_at_slot) + (enc_opt_u64(v.expires_at_slot) + (enc_opt_arr32(v.successor_key_id))))), rest);
    lemma_key_algorithm(v.key_algorithm, enc_bytes(v.public_key_bytes) + (enc_key_state(v.state) + (enc_u64(v.created_at_slot) + (enc_opt_u64(v.expires_at_slot) + (enc_opt_arr32(v.successor_key_id))))) + rest);
    lemma_assoc(enc_bytes(v.public_key_bytes), enc_key_state(v.state) + (enc_u64(v.created_at_slot) + (enc_opt_u64(v.expires_at_slot) + (enc_opt_arr32(v.successor_key_id)))), rest);
    lemma_bytes(v.public_key_bytes, enc_key_state(v.state) + (enc_u64(v.created_at_slot) + (enc_opt_u64(v.expires_at_slot) + (enc_opt_arr32(v.successor_key_id)))) + rest);
    lemma_assoc(enc_key_state(v.state), enc_u64(v.created_at_slot) + (enc_opt_u64(v.expires_at_slot) + (enc_opt_arr32(v.successor_key_id))), rest);
    lemma_key_state(v.state, enc_u64(v.created_at_slot) + (enc_opt_u64(v.expires_at_slot) + (enc_opt_arr32(v.successor_key_id))) + rest);
    lemma_assoc(enc_u64(v.created_at_slot), enc_opt_u64(v.expires_at_slot) + (enc_opt_arr32(v.successor_key_id)), rest);
    lemma_u64(v.created_at_slot, enc_opt_u64(v.expires_at_slot) + (enc_opt_arr32(v.successor_key_id)) + rest);
    lemma_assoc(enc_opt_u64(v.expires_at_slot), enc_opt_arr32(v.successor_key_id), rest);
    lemma_opt_u64(v.expires_at_slot, enc_opt_arr32(v.successor_key_id) + rest);
    lemma_opt_arr32(v.successor_key_id, rest);
}

/// Decodes a [`KeyRecord`] that must take up all of `d`.
pub fn key_record_from_slice(d: &[u8]) -> (r: Option<KeyRecord>)
    ensures
        r is Some <==> (dec_key_record(d@) matches Some((_, rest)) && rest.len() == 0),
        r matches Some(v) ==> dec_key_record(d@) == Some((v@, Seq::<u8>::empty())),
{
    assert(d@.skip(0) =~= d@);
    match read_key_record(d, 0) {
        None => None,
        Some((v, p)) => {
            if p == d.len() {
                assert(d@.skip(p as int) =~= Seq::<u8>::empty());
                Some(v)
            } else {
                None
            }
        },
    }
}

/// Decodes a [`KeyRecord`] from the front of `d`, ignoring what follows it.
pub fn key_record_from_prefix(d: &[u8]) -> (r: Option<KeyRecord>)
    ensures
        r is Some <==> dec_key_record(d@) is Some,
        r matches Some(v) ==> dec_key_record(d@) matches Some((m, _)) && m == v@,
{
    assert(d@.skip(0) =~= d@);
    match read_key_record(d, 0) {
        None => None,
        Some((v, _)) => Some(v),
    }
}

/// Serialises a [`KeyRecord`]; `None` when a length does not fit the `u32` prefix.
pub fn key_record_to_vec(v: &KeyRecord) -> (r: Option<Vec<u8>>)
    ensures
        r is Some <==> fits_key_record(v@),
        r matches Some(b) ==> b@ == enc_key_record(v@),
{
    let mut out: Vec<u8> = Vec::new();
    if write_key_record(&mut out, v) {
        assert(out@ =~= enc_key_record(v@));
        Some(out)
    } else {
        None
    }
}

/// Intent to rotate a key, pending quorum approval.
#[derive(Clone, Copy, Debug, PartialEq, Eq)]
pub struct RotationIntent {
    pub key_id: [u8; 32],
    pub successor_key_id: [u8; 32],
    pub initiator: Pubkey,
    pub created_at_slot: u64,
    pub expires_at_slot: u64,
    pub required_approvals: u8,
    pub approval_count: u8,
    pub is_executed: bool,
}

#[verifier::opaque]
pub open spec fn enc_rotation_intent(v: RotationIntent) -> Seq<u8> {
    enc_arr::<32>(v.key_id) + (enc_arr::<32>(v.successor_key_id) + (enc_pubkey(v.initiator) + (enc_u64(v.created_at_slot) + (enc_u64(v.expires_at_slot) + (enc_u8(v.required_approvals) + (enc_u8(v.approval_count) + (enc_bool(v.is_executed))))))))
}

#[verifier::opaque]
pub open spec fn dec_rotation_intent(s: Seq<u8>) -> Option<(RotationIntent, Seq<u8>)> {
    match dec_arr::<32>(s) {
            Some((key_id, r1)) => match dec_arr::<32>(r1) {
            Some((successor_key_id, r2)) => match dec_pubkey(r2) {
            Some((initiator, r3)) => match dec_u64(r3) {
            Some((created_at_slot, r4)) => match dec_u64(r4) {
            Some((expires_at_slot, r5)) => match dec_u8(r5) {
            Some((required_approvals, r6)) => match dec_u8(r6) {
            Some((approval_count, r7)) => match dec_bool(r7) {
            Some((is_executed, r8)) => Some((RotationIntent { key_id, successor_key_id, initiator, created_at_slot, expires_at_slot, required_approvals, approval_count, is_executed }, r8)),
            None => None,
        },
            None => None,
        },
            None => None,
        },
            None => None,
        },
            None => None,
        },
            None => None,
        },
            None => None,
        },
            None => None,
        }
}

pub fn read_rotation_intent(d: &[u8], pos: usize) -> (r: Option<(RotationIntent, usize)>)
    requires
        pos <= d@.len(),
    ensures
        read_ok(dec_rotation_intent(d@.skip(pos as int)), r, d@),
{
    proof {
        reveal(dec_rotation_intent);
    }
    match read_arr::<32>(d, pos) {
        None => None,
        Some((key_id, p1)) => match read_arr::<32>(d, p1) {
        None => None,
        Some((successor_key_id, p2)) => match read_pubkey(d, p2) {
        None => None,
        Some((initiator, p3)) => match read_u64(d, p3) {
        None => None,
        Some((created_at_slot, p4)) => match read_u64(d, p4) {
        None => None,
        Some((expires_at_slot, p5)) => match read_u8(d, p5) {
        None => None,
        Some((required_approvals, p6)) => match read_u8(d, p6) {
        None => None,
        Some((approval_count, p7)) => match read_bool(d, p7) {
        None => None,
        Some((is_executed, p8)) => Some((RotationIntent { key_id, successor_key_id, initiator, created_at_slot, expires_at_slot, required_approvals, approval_count, is_executed }, p8)),
    },
    },
    },
    },
    },
    },
    },
    }
}

pub fn write_rotation_intent(out: &mut Vec<u8>, v: &RotationIntent)
    ensures
        final(out)@ == old(out)@ + enc_rotation_intent(*v),
{
    proof {
        reveal(enc_rotation_intent);
    }
    write_arr::<32>(out, &v.key_id);
    let ghost o0 = out@;
    write_arr::<32>(out, &v.successor_key_id);
    let ghost o1 = out@;
    write_pubkey(out, &v.initiator);
    let ghost o2 = out@;
    write_u64(out, *&v.created_at_slot);
    let ghost o3 = out@;
    write_u64(out, *&v.expires_at_slot);
    let ghost o4 = out@;
    write_u8(out, *&v.required_approvals);
    let ghost o5 = out@;
    write_u8(out, *&v.approval_count);
    let ghost o6 = out@;
    write_bool(out, *&v.is_executed);
    let ghost o7 = out@;
    proof {
        lemma_assoc(o5, enc_u8((*v).approval_count), enc_bool((*v).is_executed));
        lemma_assoc(o4, enc_u8((*v).required_approvals), enc_u8((*v).approval_count) + (enc_bool((*v).is_executed)));
        lemma_assoc(o3, enc_u64((*v).expires_at_slot), enc_u8((*v).required_approvals) + (enc_u8((*v).approval_count) + (enc_bool((*v).is_executed))));
        lemma_assoc(o2, enc_u64((*v).created_at_slot), enc_u64((*v).expires_at_slot) + (enc_u8((*v).required_approvals) + (enc_u8((*v).approval_count) + (enc_bool((*v).is_executed)))));
        lemma_assoc(o1, enc_pubkey((*v).initiator), enc_u64((*v).created_at_slot) + (enc_u64((*v).expires_at_slot) + (enc_u8((*v).required_approvals) + (enc_u8((*v).approval_count) + (enc_bool((*v).is_executed))))));
        lemma_assoc(o0, enc_arr::<32>((*v).successor_key_id), enc_pubkey((*v).initiator) + (enc_u64((*v).created_at_slot) + (enc_u64((*v).expires_at_slot) + (enc_u8((*v).required_approvals) + (enc_u8((*v).approval_count) + (enc_bool((*v).is_executed)))))));
        lemma_assoc(old(out)@, enc_arr::<32>((*v).key_id), enc_arr::<32>((*v).successor_key_id) + (enc_pubkey((*v).initiator) + (enc_u64((*v).created_at_slot) + (enc_u64((*v).expires_at_slot) + (enc_u8((*v).required_approvals) + (enc_u8((*v).approval_count) + (enc_bool((*v).is_executed))))))));
    }
}

pub proof fn lemma_rotation_intent(v: RotationIntent, rest: Seq<u8>)
    ensures
        dec_rotation_intent(enc_rotation_intent(v) + rest) == Some((v, rest)),
{
    reveal(enc_rotation_intent);
    reveal(dec_rotation_intent);
    lemma_assoc(enc_arr::<32>(v.key_id), enc_arr::<32>(v.successor_key_id) + (enc_pubkey(v.initiator) + (enc_u64(v.created_at_slot) + (enc_u64(v.expires_at_slot) + (enc_u8(v.required_approvals) + (enc_u8(v.approval_count) + (enc_bool(v.is_executed))))))), rest);
    lemma_arr::<32>(v.key_id, enc_arr::<32>(v.successor_key_id) + (enc_pubkey(v.initiator) + (enc_u64(v.created_at_slot) + (enc_u64(v.expires_at_slot) + (enc_u8(v.required_approvals) + (enc_u8(v.approval_count) + (enc_bool(v.is_executed))))))) + rest);
    lemma_assoc(enc_arr::<32>(v.successor_key_id), enc_pubkey(v.initiator) + (enc_u64(v.created_at_slot) + (enc_u64(v.expires_at_slot) + (enc_u8(v.required_approvals) + (enc_u8(v.approval_count) + (enc_bool(v.is_executed)))))), rest);
    lemma_arr::<32>(v.successor_key_id, enc_pubkey(v.initiator) + (enc_u64(v.created_at_slot) + (enc_u64(v.expires_at_slot) + (enc_u8(v.required_approvals) + (enc_u8(v.approval_count) + (enc_bool(v.is_executed)))))) + rest);
    lemma_assoc(enc_pubkey(v.initiator), enc_u64(v.created_at_slot) + (enc_u64(v.expires_at_slot) + (enc_u8(v.required_approvals) + (enc_u8(v.approval_count) + (enc_bool(v.is_executed))))), rest);
    lemma_pubkey(v.initiator, enc_u64(v.created_at_slot) + (enc_u64(v.expires_at_slot) + (enc_u8(v.required_approvals) + (enc_u8(v.approval_count) + (enc_bool(v.is_executed))))) + rest);
    lemma_assoc(enc_u64(v.created_at_slot), enc_u64(v.expires_at_slot) + (enc_u8(v.required_approvals) + (enc_u8(v.approval_count) + (enc_bool(v.is_executed)))), rest);
    lemma_u64(v.created_at_slot, enc_u64(v.expires_at_slot) + (enc_u8(v.required_approvals) + (enc_u8(v.approval_count) + (enc_bool(v.is_executed)))) + rest);
    lemma_assoc(enc_u64(v.expires_at_slot), enc_u8(v.required_approvals) + (enc_u8(v.approval_count) + (enc_bool(v.is_executed))), rest);
    lemma_u64(v.expires_at_slot, enc_u8(v.required_approvals) + (enc_u8(v.approval_count) + (enc_bool(v.is_executed))) + rest);
    lemma_assoc(enc_u8(v.required_approvals), enc_u8(v.approval_count) + (enc_bool(v.is_executed)), rest);
    lemma_u8(v.required_approvals, enc_u8(v.approval_count) + (enc_bool(v.is_executed)) + rest);
    lemma_assoc(enc_u8(v.approval_count), enc_bool(v.is_executed), rest);
    lemma_u8(v.approval_count, enc_bool(v.is_executed) + rest);
    lemma_bool(v.is_executed, rest);
}

/// Decodes a [`RotationIntent`] that must take up all of `d`.
pub fn rotation_intent_from_slice(d: &[u8]) -> (r: Option<RotationIntent>)
    ensures
        r is Some <==> (dec_rotation_intent(d@) matches Some((_, rest)) && rest.len() == 0),
        r matches Some(v) ==> dec_rotation_intent(d@) == Some((v, Seq::<u8>::empty())),
{
    assert(d@.skip(0) =~= d@);
    match read_rotation_intent(d, 0) {
        None => None,
        Some((v, p)) => {
            if p == d.len() {
                assert(d@.skip(p as int) =~= Seq::<u8>::empty());
                Some(v)
            } else {
                None
            }
        },
    }
}

/// Decodes a [`RotationIntent`] from the front of `d`, ignoring what follows it.
pub fn rotation_intent_from_prefix(d: &[u8]) -> (r: Option<RotationIntent>)
    ensures
        r is Some <==> dec_rotation_intent(d@) is Some,
        r matches Some(v) ==> dec_rotation_intent(d@) matches Some((m, _)) && m == v,
{
    assert(d@.skip(0) =~= d@);
    match read_rotation_intent(d, 0) {
        None => None,
        Some((v, _)) => Some(v),
    }
}

/// Serialises a [`RotationIntent`].
pub fn rotation_intent_to_vec(v: &RotationIntent) -> (r: Vec<u8>)
    ensures
        r@ == enc_rotation_intent(*v),
{
    let mut out: Vec<u8> = Vec::new();
    write_rotation_intent(&mut out, v);
    assert(out@ =~= enc_rotation_intent(*v));
    out
}

/// Record that one approver approved a rotation.
#[derive(Clone, Copy, Debug, PartialEq, Eq)]
pub struct RotationApproval {
    pub key_id: [u8; 32],
    pub approver: Pubkey,
    pub approved_at_slot: u64,
}

#[verifier::opaque]
pub open spec fn enc_rotation_approval(v: RotationApproval) -> Seq<u8> {
    enc_arr::<32>(v.key_id) + (enc_pubkey(v.approver) + (enc_u64(v.approved_at_slot)))
}

#[verifier::opaque]
pub open spec fn dec_rotation_approval(s: Seq<u8>) -> Option<(RotationApproval, Seq<u8>)> {
    match dec_arr::<32>(s) {
            Some((key_id, r1)) => match dec_pubkey(r1) {
            Some((approver, r2)) => match dec_u64(r2) {
            Some((approved_at_slot, r3)) => Some((RotationApproval { key_id, approver, approved_at_slot }, r3)),
            None => None,
        },
            None => None,
        },
            None => None,
        }
}

pub fn read_rotation_approval(d: &[u8], pos: usize) -> (r: Option<(RotationApproval, usize)>)
    requires
        pos <= d@.len(),
    ensures
        read_ok(dec_rotation_approval(d@.skip(pos as int)), r, d@),
{
    proof {
        reveal(dec_rotation_approval);
    }
    match read_arr::<32>(d, pos) {
        None => None,
        Some((key_id, p1)) => match read_pubkey(d, p1) {
        None => None,
        Some((approver, p2)) => match read_u64(d, p2) {
        None => None,
        Some((approved_at_slot, p3)) => Some((RotationApproval { key_id, approver, approved_at_slot }, p3)),
    },
    },
    }
}

pub fn write_rotation_approval(out: &mut Vec<u8>, v: &RotationApproval)
    ensures
        final(out)@ == old(out)@ + enc_rotation_approval(*v),
{
    proof {
        reveal(enc_rotation_approval);
    }
    write_arr::<32>(out, &v.key_id);
    let ghost o0 = out@;
    write_pubkey(out, &v.approver);
    let ghost o1 = out@;
    write_u64(out, *&v.approved_at_slot);
    let ghost o2 = out@;
    proof {
        lemma_assoc(o0, enc_pubkey((*v).approver), enc_u64((*v).approved_at_slot));
        lemma_assoc(old(out)@, enc_arr::<32>((*v).key_id), enc_pubkey((*v).approver) + (enc_u64((*v).approved_at_slot)));
    }
}

pub proof fn lemma_rotation_approval(v: RotationApproval, rest: Seq<u8>)
    ensures
        dec_rotation_approval(enc_rotation_approval(v) + rest) == Some((v, rest)),
{
    reveal(enc_rotation_approval);
    reveal(dec_rotation_approval);
    lemma_assoc(enc_arr::<32>(v.key_id), enc_pubkey(v.approver) + (enc_u64(v.approved_at_slot)), rest);
    lemma_arr::<32>(v.key_id, enc_pubkey(v.approver) + (enc_u64(v.approved_at_slot)) + rest);
    lemma_assoc(enc_pubkey(v.approver), enc_u64(v.approved_at_slot), rest);
    lemma_pubkey(v.approver, enc_u64(v.approved_at_slot) + rest);
    lemma_u64(v.approved_at_slot, rest);
}

/// Decodes a [`RotationApproval`] that must take up all of `d`.
pub fn rotation_approval_from_slice(d: &[u8]) -> (r: Option<RotationApproval>)
    ensures
        r is Some <==> (dec_rotation_approval(d@) matches Some((_, rest)) && rest.len() == 0),
        r matches Some(v) ==> dec_rotation_approval(d@) == Some((v, Seq::<u8>::empty())),
{
    assert(d@.skip(0) =~= d@);
    match read_rotation_approval(d, 0) {
        None => None,
        Some((v, p)) => {
            if p == d.len() {
                assert(d@.skip(p as int) =~= Seq::<u8>::empty());
                Some(v)
            } else {
                None
            }
        },
    }
}

/// Decodes a [`RotationApproval`] from the front of `d`, ignoring what follows it.
pub fn rotation_approval_from_prefix(d: &[u8]) -> (r: Option<RotationApproval>)
    ensures
        r is Some <==> dec_rotation_approval(d@) is Some,
        r matches Some(v) ==> dec_rotation_approval(d@) matches Some((m, _)) && m == v,
{
    assert(d@.skip(0) =~= d@);
    match read_rotation_approval(d, 0) {
        None => None,
        Some((v, _)) => Some(v),
    }
}

/// Serialises a [`RotationApproval`].
pub fn rotation_approval_to_vec(v: &RotationApproval) -> (r: Vec<u8>)
    ensures
        r@ == enc_rotation_approval(*v),
{
    let mut out: Vec<u8> = Vec::new();
    write_rotation_approval(&mut out, v);
    assert(out@ =~= enc_rotation_approval(*v));
    out
}

/// Instructions of the revocation registry.
#[derive(Clone, Debug, PartialEq, Eq)]
pub enum RevocationRegistryInstruction {
    InitializeRegistry{ current_slot: u64 },
    RegisterKey{ key_id: [u8; 32], key_type: KeyType, key_algorithm: KeyAlgorithm, public_key_bytes: Vec<u8>, expires_at_slot: Option<u64>, current_slot: u64 },
    InitiateRotation{ key_id: [u8; 32], successor_key_id: [u8; 32], required_approvals: u8, ttl_slots: u64, current_slot: u64 },
    ApproveRotation{ key_id: [u8; 32], current_slot: u64 },
    ExecuteRotation{ key_id: [u8; 32], current_slot: u64 },
    RevokeKey{ key_id: [u8; 32] },
    MarkCompromised{ key_id: [u8; 32], reason_code: u16 },
    IsRevoked{ key_id: [u8; 32] },
}

/// Mathematical model of [`RevocationRegistryInstruction`].
pub enum RevocationRegistryInstructionModel {
    InitializeRegistry{ current_slot: u64 },
    RegisterKey{ key_id: [u8; 32], key_type: KeyType, key_algorithm: KeyAlgorithm, public_key_bytes: Seq<u8>, expires_at_slot: Option<u64>, current_slot: u64 },
    InitiateRotation{ key_id: [u8; 32], successor_key_id: [u8; 32], required_approvals: u8, ttl_slots: u64, current_slot: u64 },
    ApproveRotation{ key_id: [u8; 32], current_slot: u64 },
    ExecuteRotation{ key_id: [u8; 32], current_slot: u64 },
    RevokeKey{ key_id: [u8; 32] },
    MarkCompromised{ key_id: [u8; 32], reason_code: u16 },
    IsRevoked{ key_id: [u8; 32] },
}

impl View for RevocationRegistryInstruction {
    type V = RevocationRegistryInstructionModel;

    open spec fn view(&self) -> RevocationRegistryInstructionModel {
        match self {
            RevocationRegistryInstruction::InitializeRegistry{ current_slot } => RevocationRegistryInstructionModel::InitializeRegistry{ current_slot: (*current_slot) },
            RevocationRegistryInstruction::RegisterKey{ key_id, key_type, key_algorithm, public_key_bytes, expires_at_slot, current_slot } => RevocationRegistryInstructionModel::RegisterKey{ key_id: (*key_id), key_type: (*key_type), key_algorithm: (*key_algorithm), public_key_bytes: (*public_key_bytes)@, expires_at_slot: (*expires_at_slot), current_slot: (*current_slot) },
            RevocationRegistryInstruction::InitiateRotation{ key_id, successor_key_id, required_approvals, ttl_slots, current_slot } => RevocationRegistryInstructionModel::InitiateRotation{ key_id: (*key_id), successor_key_id: (*successor_key_id), required_approvals: (*required_approvals), ttl_slots: (*ttl_slots), current_slot: (*current_slot) },
            RevocationRegistryInstruction::ApproveRotation{ key_id, current_slot } => RevocationRegistryInstructionModel::ApproveRotation{ key_id: (*key_id), current_slot: (*current_slot) },
            RevocationRegistryInstruction::ExecuteRotation{ key_id, current_slot } => RevocationRegistryInstructionModel::ExecuteRotation{ key_id: (*key_id), current_slot: (*current_slot) },
            RevocationRegistryInstruction::RevokeKey{ key_id } => RevocationRegistryInstructionModel::RevokeKey{ key_id: (*key_id) },
            RevocationRegistryInstruction::MarkCompromised{ key_id, reason_code } => RevocationRegistryInstructionModel::MarkCompromised{ key_id: (*key_id), reason_code: (*reason_code) },
            RevocationRegistryInstruction::IsRevoked{ key_id } => RevocationRegistryInstructionModel::IsRevoked{ key_id: (*key_id) },
        }
    }
}

#[verifier::opaque]
pub open spec fn enc_revocation_registry_instruction(v: RevocationRegistryInstructionModel) -> Seq<u8> {
    match v {
        RevocationRegistryInstructionModel::InitializeRegistry{ current_slot } => seq![0u8] + (enc_u64(current_slot)),
        RevocationRegistryInstructionModel::RegisterKey{ key_id, key_type, key_algorithm, public_key_bytes, expires_at_slot, current_slot } => seq![1u8] + (enc_arr::<32>(key_id) + (enc_key_type(key_type) + (enc_key_algorithm(key_algorithm) + (enc_bytes(public_key_bytes) + (enc_opt_u64(expires_at_slot) + (enc_u64(current_slot))))))),
        RevocationRegistryInstructionModel::InitiateRotation{ key_id, successor_key_id, required_approvals, ttl_slots, current_slot } => seq![2u8] + (enc_arr::<32>(key_id) + (enc_arr::<32>(successor_key_id) + (enc_u8(required_approvals) + (enc_u64(ttl_slots) + (enc_u64(current_slot)))))),
        RevocationRegistryInstructionModel::ApproveRotation{ key_id, current_slot } => seq![3u8] + (enc_arr::<32>(key_id) + (enc_u64(current_slot))),
        RevocationRegistryInstructionModel::ExecuteRotation{ key_id, current_slot } => seq![4u8] + (enc_arr::<32>(key_id) + (enc_u64(current_slot))),
        RevocationRegistryInstructionModel::RevokeKey{ key_id } => seq![5u8] + (enc_arr::<32>(key_id)),
        RevocationRegistryInstructionModel::MarkCompromised{ key_id, reason_code } => seq![6u8] + (enc_arr::<32>(key_id) + (enc_u16(reason_code))),
        RevocationRegistryInstructionModel::IsRevoked{ key_id } => seq![7u8] + (enc_arr::<32>(key_id)),
    }
}

#[verifier::opaque]
pub open spec fn dec_revocation_registry_instruction(s: Seq<u8>) -> Option<(RevocationRegistryInstructionModel, Seq<u8>)> {
    if s.len() == 0 {
        None
    } else if s[0] == 0 {
        let r0 = s.skip(1);
        match dec_u64(r0) {
            Some((current_slot, r1)) => Some((RevocationRegistryInstructionModel::InitializeRegistry{ current_slot }, r1)),
            None => None,
        }
    } else if s[0] == 1 {
        let r0 = s.skip(1);
        match dec_arr::<32>(r0) {
            Some((key_id, r1)) => match dec_key_type(r1) {
            Some((key_type, r2)) => match dec_key_algorithm(r2) {
            Some((key_algorithm, r3)) => match dec_bytes(r3) {
            Some((public_key_bytes, r4)) => match dec_opt_u64(r4) {
            Some((expires_at_slot, r5)) => match dec_u64(r5) {
            Some((current_slot, r6)) => Some((RevocationRegistryInstructionModel::RegisterKey{ key_id, key_type, key_algorithm, public_key_bytes, expires_at_slot, current_slot }, r6)),
            None => None,
        },
            None => None,
        },
            None => None,
        },
            None => None,
        },
            None => None,
        },
            None => None,
        }
    } else if s[0] == 2 {
        let r0 = s.skip(1);
        match dec_arr::<32>(r0) {
            Some((key_id, r1)) => match dec_arr::<32>(r1) {
            Some((successor_key_id, r2)) => match dec_u8(r2) {
            Some((required_approvals, r3)) => match dec_u64(r3) {
            Some((ttl_slots, r4)) => match dec_u64(r4) {
            Some((current_slot, r5)) => Some((RevocationRegistryInstructionModel::InitiateRotation{ key_id, successor_key_id, required_approvals, ttl_slots, current_slot }, r5)),
            None => None,
        },
            None => None,
        },
            None => None,
        },
            None => None,
        },
            None => None,
        }
    } else if s[0] == 3 {
        let r0 = s.skip(1);
        match dec_arr::<32>(r0) {
            Some((key_id, r1)) => match dec_u64(r1) {
            Some((current_slot, r2)) => Some((RevocationRegistryInstructionModel::ApproveRotation{ key_id, current_slot }, r2)),
            None => None,
        },
            None => None,
        }
    } else if s[0] == 4 {
        let r0 = s.skip(1);
        match dec_arr::<32>(r0) {
            Some((key_id, r1)) => match dec_u64(r1) {
            Some((current_slot, r2)) => Some((RevocationRegistryInstructionModel::ExecuteRotation{ key_id, current_slot }, r2)),
            None => None,
        },
            None => None,
        }
    } else if s[0] == 5 {
        let r0 = s.skip(1);
        match dec_arr::<32>(r0) {
            Some((key_id, r1)) => Some((RevocationRegistryInstructionModel::RevokeKey{ key_id }, r1)),
            None => None,
        }
    } else if s[0] == 6 {
        let r0 = s.skip(1);
        match dec_arr::<32>(r0) {
            Some((key_id, r1)) => match dec_u16(r1) {
            Some((reason_code, r2)) => Some((RevocationRegistryInstructionModel::MarkCompromised{ key_id, reason_code }, r2)),
            None => None,
        },
            None => None,
        }
    } else if s[0] == 7 {
        let r0 = s.skip(1);
        match dec_arr::<32>(r0) {
            Some((key_id, r1)) => Some((RevocationRegistryInstructionModel::IsRevoked{ key_id }, r1)),
            None => None,
        }
    } else { None }
}

pub open spec fn fits_revocation_registry_instruction(v: RevocationRegistryInstructionModel) -> bool {
    match v {
        RevocationRegistryInstructionModel::InitializeRegistry{ current_slot } => true,
        RevocationRegistryInstructionModel::RegisterKey{ key_id, key_type, key_algorithm, public_key_bytes, expires_at_slot, current_slot } => fits_u32(public_key_bytes.len()),
        RevocationRegistryInstructionModel::InitiateRotation{ key_id, successor_key_id, required_approvals, ttl_slots, current_slot } => true,
        RevocationRegistryInstructionModel::ApproveRotation{ key_id, current_slot } => true,
        RevocationRegistryInstructionModel::ExecuteRotation{ key_id, current_slot } => true,
        RevocationRegistryInstructionModel::RevokeKey{ key_id } => true,
        RevocationRegistryInstructionModel::MarkCompromised{ key_id, reason_code } => true,
        RevocationRegistryInstructionModel::IsRevoked{ key_id } => true,
    }
}

pub fn read_revocation_registry_instruction(d: &[u8], pos: usize) -> (r: Option<(RevocationRegistryInstruction, usize)>)
    requires
        pos <= d@.len(),
    ensures
        match r {
            None => dec_revocation_registry_instruction(d@.skip(pos as int)) is None,
            Some((v, p)) => p <= d@.len() && dec_revocation_registry_instruction(d@.skip(pos as int)) == Some((v@, d@.skip(p as int))),
        },
{
    proof {
        reveal(dec_revocation_registry_instruction);
    }
    match read_u8(d, pos) {
        None => None,
        Some((tag, p0)) => {
            proof {
                lemma_skip_skip(d@, pos as int, 1);
            }
            match tag {
            0 => match read_u64(d, p0) {
                None => None,
                Some((current_slot, p1)) => Some((RevocationRegistryInstruction::InitializeRegistry{ current_slot }, p1)),
            },
            1 => match read_arr::<32>(d, p0) {
                None => None,
                Some((key_id, p1)) => match read_key_type(d, p1) {
                None => None,
                Some((key_type, p2)) => match read_key_algorithm(d, p2) {
                None => None,
                Some((key_algorithm, p3)) => match read_bytes(d, p3) {
                None => None,
                Some((public_key_bytes, p4)) => match read_opt_u64(d, p4) {
                None => None,
                Some((expires_at_slot, p5)) => match read_u64(d, p5) {
                None => None,
                Some((current_slot, p6)) => Some((RevocationRegistryInstruction::RegisterKey{ key_id, key_type, key_algorithm, public_key_bytes, expires_at_slot, current_slot }, p6)),
            },
            },
            },
            },
            },
            },
            2 => match read_arr::<32>(d, p0) {
                None => None,
                Some((key_id, p1)) => match read_arr::<32>(d, p1) {
                None => None,
                Some((successor_key_id, p2)) => match read_u8(d, p2) {
                None => None,
                Some((required_approvals, p3)) => match read_u64(d, p3) {
                None => None,
                Some((ttl_slots, p4)) => match read_u64(d, p4) {
                None => None,
                Some((current_slot, p5)) => Some((RevocationRegistryInstruction::InitiateRotation{ key_id, successor_key_id, required_approvals, ttl_slots, current_slot }, p5)),
            },
            },
            },
            },
            },
            3 => match read_arr::<32>(d, p0) {
                None => None,
                Some((key_id, p1)) => match read_u64(d, p1) {
                None => None,
                Some((current_slot, p2)) => Some((RevocationRegistryInstruction::ApproveRotation{ key_id, current_slot }, p2)),
            },
            },
            4 => match read_arr::<32>(d, p0) {
                None => None,
                Some((key_id, p1)) => match read_u64(d, p1) {
                None => None,
                Some((current_slot, p2)) => Some((RevocationRegistryInstruction::ExecuteRotation{ key_id, current_slot }, p2)),
            },
            },
            5 => match read_arr::<32>(d, p0) {
                None => None,
                Some((key_id, p1)) => Some((RevocationRegistryInstruction::RevokeKey{ key_id }, p1)),
            },
            6 => match read_arr::<32>(d, p0) {
                None => None,
                Some((key_id, p1)) => match read_u16(d, p1) {
                None => None,
                Some((reason_code, p2)) => Some((RevocationRegistryInstruction::MarkCompromised{ key_id, reason_code }, p2)),
            },
            },
            7 => match read_arr::<32>(d, p0) {
                None => None,
                Some((key_id, p1)) => Some((RevocationRegistryInstruction::IsRevoked{ key_id }, p1)),
            },
            _ => None,
            }
        },
    }
}

pub fn write_revocation_registry_instruction(out: &mut Vec<u8>, v: &RevocationRegistryInstruction) -> (ok: bool)
    ensures
        ok == fits_revocation_registry_instruction(v@),
        ok ==> final(out)@ == old(out)@ + enc_revocation_registry_instruction(v@),
{
    proof {
        reveal(enc_revocation_registry_instruction);
    }
    match v {
        RevocationRegistryInstruction::InitializeRegistry{ current_slot } => {
            out.push(0u8);
            let ghost ot = out@;
            assert(ot =~= old(out)@ + seq![0u8]);
            write_u64(out, *current_slot);
            let ghost o0 = out@;
            proof {
            }
            proof {
                lemma_assoc(old(out)@, seq![0u8], enc_u64((*current_slot)));
            }
        },
        RevocationRegistryInstruction::RegisterKey{ key_id, key_type, key_algorithm, public_key_bytes, expires_at_slot, current_slot } => {
            out.push(1u8);
            let ghost ot = out@;
            assert(ot =~= old(out)@ + seq![1u8]);
            write_arr::<32>(out, key_id);
            let ghost o0 = out@;
            write_key_type(out, key_type);
            let ghost o1 = out@;
            write_key_algorithm(out, key_algorithm);
            let ghost o2 = out@;
            if !write_bytes(out, public_key_bytes.as_slice()) { return false; }
            let ghost o3 = out@;
            write_opt_u64(out, expires_at_slot);
            let ghost o4 = out@;
            write_u64(out, *current_slot);
            let ghost o5 = out@;
            proof {
                lemma_assoc(o3, enc_opt_u64((*expires_at_slot)), enc_u64((*current_slot)));
                lemma_assoc(o2, enc_bytes((*public_key_bytes)@), enc_opt_u64((*expires_at_slot)) + (enc_u64((*current_slot))));
                lemma_assoc(o1, enc_key_algorithm((*key_algorithm)), enc_bytes((*public_key_bytes)@) + (enc_opt_u64((*expires_at_slot)) + (enc_u64((*current_slot)))));
                lemma_assoc(o0, enc_key_type((*key_type)), enc_key_algorithm((*key_algorithm)) + (enc_bytes((*public_key_bytes)@) + (enc_opt_u64((*expires_at_slot)) + (enc_u64((*current_slot))))));
                lemma_assoc(ot, enc_arr::<32>((*key_id)), enc_key_type((*key_type)) + (enc_key_algorithm((*key_algorithm)) + (enc_bytes((*public_key_bytes)@) + (enc_opt_u64((*expires_at_slot)) + (enc_u64((*current_slot)))))));
            }
            proof {
                lemma_assoc(old(out)@, seq![1u8], enc_arr::<32>((*key_id)) + (enc_key_type((*key_type)) + (enc_key_algorithm((*key_algorithm)) + (enc_bytes((*public_key_bytes)@) + (enc_opt_u64((*expires_at_slot)) + (enc_u64((*current_slot))))))));
            }
        },
        RevocationRegistryInstruction::InitiateRotation{ key_id, successor_key_id, required_approvals, ttl_slots, current_slot } => {
            out.push(2u8);
            let ghost ot = out@;
            assert(ot =~= old(out)@ + seq![2u8]);
            write_arr::<32>(out, key_id);
            let ghost o0 = out@;
            write_arr::<32>(out, successor_key_id);
            let ghost o1 = out@;
            write_u8(out, *required_approvals);
            let ghost o2 = out@;
            write_u64(out, *ttl_slots);
            let ghost o3 = out@;
            write_u64(out, *current_slot);
            let ghost o4 = out@;
            proof {
                lemma_assoc(o2, enc_u64((*ttl_slots)), enc_u64((*current_slot)));
                lemma_assoc(o1, enc_u8((*required_approvals)), enc_u64((*ttl_slots)) + (enc_u64((*current_slot))));
                lemma_assoc(o0, enc_arr::<32>((*successor_key_id)), enc_u8((*required_approvals)) + (enc_u64((*ttl_slots)) + (enc_u64((*current_slot)))));
                lemma_assoc(ot, enc_arr::<32>((*key_id)), enc_arr::<32>((*successor_key_id)) + (enc_u8((*required_approvals)) + (enc_u64((*ttl_slots)) + (enc_u64((*current_slot))))));
            }
            proof {
                lemma_assoc(old(out)@, seq![2u8], enc_arr::<32>((*key_id)) + (enc_arr::<32>((*successor_key_id)) + (enc_u8((*required_approvals)) + (enc_u64((*ttl_slots)) + (enc_u64((*current_slot)))))));
            }
        },
        RevocationRegistryInstruction::ApproveRotation{ key_id, current_slot } => {
            out.push(3u8);
            let ghost ot = out@;
            assert(ot =~= old(out)@ + seq![3u8]);
            write_arr::<32>(out, key_id);
            let ghost o0 = out@;
            write_u64(out, *current_slot);
            let ghost o1 = out@;
            proof {
                lemma_assoc(ot, enc_arr::<32>((*key_id)), enc_u64((*current_slot)));
            }
            proof {
                lemma_assoc(old(out)@, seq![3u8], enc_arr::<32>((*key_id)) + (enc_u64((*current_slot))));
            }
        },
        RevocationRegistryInstruction::ExecuteRotation{ key_id, current_slot } => {
            out.push(4u8);
            let ghost ot = out@;
            assert(ot =~= old(out)@ + seq![4u8]);
            write_arr::<32>(out, key_id);
            let ghost o0 = out@;
            write_u64(out, *current_slot);
            let ghost o1 = out@;
            proof {
                lemma_assoc(ot, enc_arr::<32>((*key_id)), enc_u64((*current_slot)));
            }
            proof {
                lemma_assoc(old(out)@, seq![4u8], enc_arr::<32>((*key_id)) + (enc_u64((*current_slot))));
            }
        },
        RevocationRegistryInstruction::RevokeKey{ key_id } => {
            out.push(5u8);
            let ghost ot = out@;
            assert(ot =~= old(out)@ + seq![5u8]);
            write_arr::<32>(out, key_id);
            let ghost o0 = out@;
            proof {
            }
            proof {
                lemma_assoc(old(out)@, seq![5u8], enc_arr::<32>((*key_id)));
            }
        },
        RevocationRegistryInstruction::MarkCompromised{ key_id, reason_code } => {
            out.push(6u8);
            let ghost ot = out@;
            assert(ot =~= old(out)@ + seq![6u8]);
            write_arr::<32>(out, key_id);
            let ghost o0 = out@;
            write_u16(out, *reason_code);
            let ghost o1 = out@;
            proof {
                lemma_assoc(ot, enc_arr::<32>((*key_id)), enc_u16((*reason_code)));
            }
            proof {
                lemma_assoc(old(out)@, seq![6u8], enc_arr::<32>((*key_id)) + (enc_u16((*reason_code))));
            }
        },
        RevocationRegistryInstruction::IsRevoked{ key_id } => {
            out.push(7u8);
            let ghost ot = out@;
            assert(ot =~= old(out)@ + seq![7u8]);
            write_arr::<32>(out, key_id);
            let ghost o0 = out@;
            proof {
            }
            proof {
                lemma_assoc(old(out)@, seq![7u8], enc_arr::<32>((*key_id)));
            }
        },
    }
    true
}

proof fn lemma_revocation_registry_instruction_initialize_registry(current_slot: u64, rest: Seq<u8>)
    ensures
        dec_revocation_registry_instruction(enc_revocation_registry_instruction(RevocationRegistryInstructionModel::InitializeRegistry{ current_slot }) + rest) == Some((RevocationRegistryInstructionModel::InitializeRegistry{ current_slot }, rest)),
{
    reveal(enc_revocation_registry_instruction);
    reveal(dec_revocation_registry_instruction);
    assert((enc_revocation_registry_instruction(RevocationRegistryInstructionModel::InitializeRegistry{ current_slot }) + rest).skip(1) =~= (enc_u64(current_slot)) + rest);
    lemma_u64(current_slot, rest);
}

#[verifier::spinoff_prover]
#[verifier::rlimit(40)]
proof fn lemma_revocation_registry_instruction_register_key(key_id: [u8; 32], key_type: KeyType, key_algorithm: KeyAlgorithm, public_key_bytes: Seq<u8>, expires_at_slot: Option<u64>, current_slot: u64, rest: Seq<u8>)
    requires
        fits_u32(public_key_bytes.len()),
    ensures
        dec_revocation_registry_instruction(enc_revocation_registry_instruction(RevocationRegistryInstructionModel::RegisterKey{ key_id, key_type, key_algorithm, public_key_bytes, expires_at_slot, current_slot }) + rest) == Some((RevocationRegistryInstructionModel::RegisterKey{ key_id, key_type, key_algorithm, public_key_bytes, expires_at_slot, current_slot }, rest)),
{
    reveal(enc_revocation_registry_instruction);
    reveal(dec_revocation_registry_instruction);
    assert((enc_revocation_registry_instruction(RevocationRegistryInstructionModel::RegisterKey{ key_id, key_type, key_algorithm, public_key_bytes, expires_at_slot, current_slot }) + rest).skip(1) =~= (enc_arr::<32>(key_id) + (enc_key_type(key_type) + (enc_key_algorithm(key_algorithm) + (enc_bytes(public_key_bytes) + (enc_opt_u64(expires_at_slot) + (enc_u64(current_slot))))))) + rest);
    lemma_assoc(enc_arr::<32>(key_id), enc_key_type(key_type) + (enc_key_algorithm(key_algorithm) + (enc_bytes(public_key_bytes) + (enc_opt_u64(expires_at_slot) + (enc_u64(current_slot))))), rest);
    lemma_arr::<32>(key_id, enc_key_type(key_type) + (enc_key_algorithm(key_algorithm) + (enc_bytes(public_key_bytes) + (enc_opt_u64(expires_at_slot) + (enc_u64(current_slot))))) + rest);
    lemma_assoc(enc_key_type(key_type), enc_key_algorithm(key_algorithm) + (enc_bytes(public_key_bytes) + (enc_opt_u64(expires_at_slot) + (enc_u64(current_slot)))), rest);
    lemma_key_type(key_type, enc_key_algorithm(key_algorithm) + (enc_bytes(public_key_bytes) + (enc_opt_u64(expires_at_slot) + (enc_u64(current_slot)))) + rest);
    lemma_assoc(enc_key_algorithm(key_algorithm), enc_bytes(public_key_bytes) + (enc_opt_u64(expires_at_slot) + (enc_u64(current_slot))), rest);
    lemma_key_algorithm(key_algorithm, enc_bytes(public_key_bytes) + (enc_opt_u64(expires_at_slot) + (enc_u64(current_slot))) + rest);
    lemma_assoc(enc_bytes(public_key_bytes), enc_opt_u64(expires_at_slot) + (enc_u64(current_slot)), rest);
    lemma_bytes(public_key_bytes, enc_opt_u64(expires_at_slot) + (enc_u64(current_slot)) + rest);
    lemma_assoc(enc_opt_u64(expires_at_slot), enc_u64(current_slot), rest);
    lemma_opt_u64(expires_at_slot, enc_u64(current_slot) + rest);
    lemma_u64(current_slot, rest);
}

proof fn lemma_revocation_registry_instruction_initiate_rotation(key_id: [u8; 32], successor_key_id: [u8; 32], required_approvals: u8, ttl_slots: u64, current_slot: u64, rest: Seq<u8>)
    ensures
        dec_revocation_registry_instruction(enc_revocation_registry_instruction(RevocationRegistryInstructionModel::InitiateRotation{ key_id, successor_key_id, required_approvals, ttl_slots, current_slot }) + rest) == Some((RevocationRegistryInstructionModel::InitiateRotation{ key_id, successor_key_id, required_approvals, ttl_slots, current_slot }, rest)),
{
    reveal(enc_revocation_registry_instruction);
    reveal(dec_revocation_registry_instruction);
    assert((enc_revocation_registry_instruction(RevocationRegistryInstructionModel::InitiateRotation{ key_id, successor_key_id, required_approvals, ttl_slots, current_slot }) + rest).skip(1) =~= (enc_arr::<32>(key_id) + (enc_arr::<32>(successor_key_id) + (enc_u8(required_approvals) + (enc_u64(ttl_slots) + (enc_u64(current_slot)))))) + rest);
    lemma_assoc(enc_arr::<32>(key_id), enc_arr::<32>(successor_key_id) + (enc_u8(required_approvals) + (enc_u64(ttl_slots) + (enc_u64(current_slot)))), rest);
    lemma_arr::<32>(key_id, enc_arr::<32>(successor_key_id) + (enc_u8(required_approvals) + (enc_u64(ttl_slots) + (enc_u64(current_slot)))) + rest);
    lemma_assoc(enc_arr::<32>(successor_key_id), enc_u8(required_approvals) + (enc_u64(ttl_slots) + (enc_u64(current_slot))), rest);
    lemma_arr::<32>(successor_key_id, enc_u8(required_approvals) + (enc_u64(ttl_slots) + (enc_u64(current_slot))) + rest);
    lemma_assoc(enc_u8(required_approvals), enc_u64(ttl_slots) + (enc_u64(current_slot)), rest);
    lemma_u8(required_approvals, enc_u64(ttl_slots) + (enc_u64(current_slot)) + rest);
    lemma_assoc(enc_u64(ttl_slots), enc_u64(current_slot), rest);
    lemma_u64(ttl_slots, enc_u64(current_slot) + rest);
    lemma_u64(current_slot, rest);
}

proof fn lemma_revocation_registry_instruction_approve_rotation(key_id: [u8; 32], current_slot: u64, rest: Seq<u8>)
    ensures
        dec_revocation_registry_instruction(enc_revocation_registry_instruction(RevocationRegistryInstructionModel::ApproveRotation{ key_id, current_slot }) + rest) == Some((RevocationRegistryInstructionModel::ApproveRotation{ key_id, current_slot }, rest)),
{
    reveal(enc_revocation_registry_instruction);
    reveal(dec_revocation_registry_instruction);
    assert((enc_revocation_registry_instruction(RevocationRegistryInstructionModel::ApproveRotation{ key_id, current_slot }) + rest).skip(1) =~= (enc_arr::<32>(key_id) + (enc_u64(current_slot))) + rest);
    lemma_assoc(enc_arr::<32>(key_id), enc_u64(current_slot), rest);
    lemma_arr::<32>(key_id, enc_u64(current_slot) + rest);
    lemma_u64(current_slot, rest);
}

proof fn lemma_revocation_registry_instruction_execute_rotation(key_id: [u8; 32], current_slot: u64, rest: Seq<u8>)
    ensures
        dec_revocation_registry_instruction(enc_revocation_registry_instruction(RevocationRegistryInstructionModel::ExecuteRotation{ key_id, current_slot }) + rest) == Some((RevocationRegistryInstructionModel::ExecuteRotation{ key_id, current_slot }, rest)),
{
    reveal(enc_revocation_registry_instruction);
    reveal(dec_revocation_registry_instruction);
    assert((enc_revocation_registry_instruction(RevocationRegistryInstructionModel::ExecuteRotation{ key_id, current_slot }) + rest).skip(1) =~= (enc_arr::<32>(key_id) + (enc_u64(current_slot))) + rest);
    lemma_assoc(enc_arr::<32>(key_id), enc_u64(current_slot), rest);
    lemma_arr::<32>(key_id, enc_u64(current_slot) + rest);
    lemma_u64(current_slot, rest);
}

proof fn lemma_revocation_registry_instruction_revoke_key(key_id: [u8; 32], rest: Seq<u8>)
    ensures
        dec_revocation_registry_instruction(enc_revocation_registry_instruction(RevocationRegistryInstructionModel::RevokeKey{ key_id }) + rest) == Some((RevocationRegistryInstructionModel::RevokeKey{ key_id }, rest)),
{
    reveal(enc_revocation_registry_instruction);
    reveal(dec_revocation_registry_instruction);
    assert((enc_revocation_registry_instruction(RevocationRegistryInstructionModel::RevokeKey{ key_id }) + rest).skip(1) =~= (enc_arr::<32>(key_id)) + rest);
    lemma_arr::<32>(key_id, rest);
}

proof fn lemma_revocation_registry_instruction_mark_compromised(key_id: [u8; 32], reason_code: u16, rest: Seq<u8>)
    ensures
        dec_revocation_registry_instruction(enc_revocation_registry_instruction(RevocationRegistryInstructionModel::MarkCompromised{ key_id, reason_code }) + rest) == Some((RevocationRegistryInstructionModel::MarkCompromised{ key_id, reason_code }, rest)),
{
    reveal(enc_revocation_registry_instruction);
    reveal(dec_revocation_registry_instruction);
    assert((enc_revocation_registry_instruction(RevocationRegistryInstructionModel::MarkCompromised{ key_id, reason_code }) + rest).skip(1) =~= (enc_arr::<32>(key_id) + (enc_u16(reason_code))) + rest);
    lemma_assoc(enc_arr::<32>(key_id), enc_u16(reason_code), rest);
    lemma_arr::<32>(key_id, enc_u16(reason_code) + rest);
    lemma_u16(reason_code, rest);
}

proof fn lemma_revocation_registry_instruction_is_revoked(key_id: [u8; 32], rest: Seq<u8>)
    ensures
        dec_revocation_registry_instruction(enc_revocation_registry_instruction(RevocationRegistryInstructionModel::IsRevoked{ key_id }) + rest) == Some((RevocationRegistryInstructionModel::IsRevoked{ key_id }, rest)),
{
    reveal(enc_revocation_registry_instruction);
    reveal(dec_revocation_registry_instruction);
    assert((enc_revocation_registry_instruction(RevocationRegistryInstructionModel::IsRevoked{ key_id }) + rest).skip(1) =~= (enc_arr::<32>(key_id)) + rest);
    lemma_arr::<32>(key_id, rest);
}

pub proof fn lemma_revocation_registry_instruction(v: RevocationRegistryInstructionModel, rest: Seq<u8>)
    requires
        fits_revocation_registry_instruction(v),
    ensures
        dec_revocation_registry_instruction(enc_revocation_registry_instruction(v) + rest) == Some((v, rest)),
{
    reveal(enc_revocation_registry_instruction);
    reveal(dec_revocation_registry_instruction);
    match v {
        RevocationRegistryInstructionModel::InitializeRegistry{ current_slot } => lemma_revocation_registry_instruction_initialize_registry(current_slot, rest),
        RevocationRegistryInstructionModel::RegisterKey{ key_id, key_type, key_algorithm, public_key_bytes, expires_at_slot, current_slot } => lemma_revocation_registry_instruction_register_key(key_id, key_type, key_algorithm, public_key_bytes, expires_at_slot, current_slot, rest),
        RevocationRegistryInstructionModel::InitiateRotation{ key_id, successor_key_id, required_approvals, ttl_slots, current_slot } => lemma_revocation_registry_instruction_initiate_rotation(key_id, successor_key_id, required_approvals, ttl_slots, current_slot, rest),
        RevocationRegistryInstructionModel::ApproveRotation{ key_id, current_slot } => lemma_revocation_registry_instruction_approve_rotation(key_id, current_slot, rest),
        RevocationRegistryInstructionModel::ExecuteRotation{ key_id, current_slot } => lemma_revocation_registry_instruction_execute_rotation(key_id, current_slot, rest),
        RevocationRegistryInstructionModel::RevokeKey{ key_id } => lemma_revocation_registry_instruction_revoke_key(key_id, rest),
        RevocationRegistryInstructionModel::MarkCompromised{ key_id, reason_code } => lemma_revocation_registry_instruction_mark_compromised(key_id, reason_code, rest),
        RevocationRegistryInstructionModel::IsRevoked{ key_id } => lemma_revocation_registry_instruction_is_revoked(key_id, rest),
    }
}

/// Decodes a [`RevocationRegistryInstruction`] that must take up all of `d`.
pub fn revocation_registry_instruction_from_slice(d: &[u8]) -> (r: Option<RevocationRegistryInstruction>)
    ensures
        r is Some <==> (dec_revocation_registry_instruction(d@) matches Some((_, rest)) && rest.len() == 0),
        r matches Some(v) ==> dec_revocation_registry_instruction(d@) == Some((v@, Seq::<u8>::empty())),
{
    assert(d@.skip(0) =~= d@);
    match read_revocation_registry_instruction(d, 0) {
        None => None,
        Some((v, p)) => {
            if p == d.len() {
                assert(d@.skip(p as int) =~= Seq::<u8>::empty());
                Some(v)
            } else {
                None
            }
        },
    }
}

/// Decodes a [`RevocationRegistryInstruction`] from the front of `d`, ignoring what follows it.
pub fn revocation_registry_instruction_from_prefix(d: &[u8]) -> (r: Option<RevocationRegistryInstruction>)
    ensures
        r is Some <==> dec_revocation_registry_instruction(d@) is Some,
        r matches Some(v) ==> dec_revocation_registry_instruction(d@) matches Some((m, _)) && m == v@,
{
    assert(d@.skip(0) =~= d@);
    match read_revocation_registry_instruction(d, 0) {
        None => None,
        Some((v, _)) => Some(v),
    }
}

/// Serialises a [`RevocationRegistryInstruction`]; `None` when a length does not fit the `u32` prefix.
pub fn revocation_registry_instruction_to_vec(v: &RevocationRegistryInstruction) -> (r: Option<Vec<u8>>)
    ensures
        r is Some <==> fits_revocation_registry_instruction(v@),
        r matches Some(b) ==> b@ == enc_revocation_registry_instruction(v@),
{
    let mut out: Vec<u8> = Vec::new();
    if write_revocation_registry_instruction(&mut out, v) {
        assert(out@ =~= enc_revocation_registry_instruction(v@));
        Some(out)
    } else {
        None
    }
}

} // verus!
