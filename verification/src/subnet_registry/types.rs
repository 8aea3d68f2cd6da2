//! Data types and their byte layout.
use vstd::prelude::*;
use crate::codec::{dec_arr, dec_bool, dec_pubkey, dec_u16, dec_u64, enc_arr, enc_bool, enc_pubkey, enc_u16, enc_u64, lemma_arr, lemma_assoc, lemma_bool, lemma_pubkey, lemma_skip_skip, lemma_u16, lemma_u64, read_arr, read_bool, read_ok, read_pubkey, read_u16, read_u64, read_u8, write_arr, write_bool, write_pubkey, write_u16, write_u64};
use crate::layout::{dec_opt_u16, dec_vec_pubkey, enc_opt_u16, enc_vec_pubkey, fits_vec_pubkey, lemma_opt_u16, lemma_vec_pubkey, read_opt_u16, read_vec_pubkey, write_opt_u16, write_vec_pubkey};
use crate::permission_types::types::{ClearanceTier, dec_clearance_tier, enc_clearance_tier, lemma_clearance_tier, read_clearance_tier, write_clearance_tier};
use crate::pubkey::{Pubkey};

verus! {

/// Custom error codes of the subnet registry.
#[derive(Clone, Copy, Debug, PartialEq, Eq, Structural)]
pub enum SubnetRegistryError {
    AlreadyInitialized,
    Uninitialized,
    Unauthorized,
    SubnetAlreadyExists,
    SubnetNotFound,
    SubnetFrozen,
    SubnetNotFrozen,
    ClearanceBelowMinimum,
    MemberAlreadyExists,
    MemberNotFound,
    MemberKeyRevoked,
    ValidatorSetFull,
    InvalidAccountData,
    InvalidInstructionData,
}

impl SubnetRegistryError {
    /// The custom error code carried by this error.
    pub open spec fn spec_code(self) -> u32 {
        match self {
            SubnetRegistryError::AlreadyInitialized => 0,
            SubnetRegistryError::Uninitialized => 1,
            SubnetRegistryError::Unauthorized => 2,
            SubnetRegistryError::SubnetAlreadyExists => 3,
            SubnetRegistryError::SubnetNotFound => 4,
            SubnetRegistryError::SubnetFrozen => 5,
            SubnetRegistryError::SubnetNotFrozen => 6,
            SubnetRegistryError::ClearanceBelowMinimum => 7,
            SubnetRegistryError::MemberAlreadyExists => 8,
            SubnetRegistryError::MemberNotFound => 9,
            SubnetRegistryError::MemberKeyRevoked => 10,
            SubnetRegistryError::ValidatorSetFull => 11,
            SubnetRegistryError::InvalidAccountData => 12,
            SubnetRegistryError::InvalidInstructionData => 13,
        }
    }

    pub fn code(self) -> (c: u32)
        ensures
            c == self.spec_code(),
    {
        match self {
            SubnetRegistryError::AlreadyInitialized => 0,
            SubnetRegistryError::Uninitialized => 1,
            SubnetRegistryError::Unauthorized => 2,
            SubnetRegistryError::SubnetAlreadyExists => 3,
            SubnetRegistryError::SubnetNotFound => 4,
            SubnetRegistryError::SubnetFrozen => 5,
            SubnetRegistryError::SubnetNotFrozen => 6,
            SubnetRegistryError::ClearanceBelowMinimum => 7,
            SubnetRegistryError::MemberAlreadyExists => 8,
            SubnetRegistryError::MemberNotFound => 9,
            SubnetRegistryError::MemberKeyRevoked => 10,
            SubnetRegistryError::ValidatorSetFull => 11,
            SubnetRegistryError::InvalidAccountData => 12,
            SubnetRegistryError::InvalidInstructionData => 13,
        }
    }
}

/// Singleton configuration of the subnet registry.
#[derive(Clone, Copy, Debug, PartialEq, Eq)]
pub struct SubnetRegistryConfig {
    pub is_initialized: bool,
    pub upgrade_authority: Pubkey,
    pub created_at_slot: u64,
}

#[verifier::opaque]
pub open spec fn enc_subnet_registry_config(v: SubnetRegistryConfig) -> Seq<u8> {
    enc_bool(v.is_initialized) + (enc_pubkey(v.upgrade_authority) + (enc_u64(v.created_at_slot)))
}

#[verifier::opaque]
pub open spec fn dec_subnet_registry_config(s: Seq<u8>) -> Option<(SubnetRegistryConfig, Seq<u8>)> {
    match dec_bool(s) {
            Some((is_initialized, r1)) => match dec_pubkey(r1) {
            Some((upgrade_authority, r2)) => match dec_u64(r2) {
            Some((created_at_slot, r3)) => Some((SubnetRegistryConfig { is_initialized, upgrade_authority, created_at_slot }, r3)),
            None => None,
        },
            None => None,
        },
            None => None,
        }
}

pub fn read_subnet_registry_config(d: &[u8], pos: usize) -> (r: Option<(SubnetRegistryConfig, usize)>)
    requires
        pos <= d@.len(),
    ensures
        read_ok(dec_subnet_registry_config(d@.skip(pos as int)), r, d@),
{
    proof {
        reveal(dec_subnet_registry_config);
    }
    match read_bool(d, pos) {
        None => None,
        Some((is_initialized, p1)) => match read_pubkey(d, p1) {
        None => None,
        Some((upgrade_authority, p2)) => match read_u64(d, p2) {
        None => None,
        Some((created_at_slot, p3)) => Some((SubnetRegistryConfig { is_initialized, upgrade_authority, created_at_slot }, p3)),
    },
    },
    }
}

pub fn write_subnet_registry_config(out: &mut Vec<u8>, v: &SubnetRegistryConfig)
    ensures
        final(out)@ == old(out)@ + enc_subnet_registry_config(*v),
{
    proof {
        reveal(enc_subnet_registry_config);
    }
    write_bool(out, *&v.is_initialized);
    let ghost o0 = out@;
    write_pubkey(out, &v.upgrade_authority);
    let ghost o1 = out@;
    write_u64(out, *&v.created_at_slot);
    let ghost o2 = out@;
    proof {
        lemma_assoc(o0, enc_pubkey((*v).upgrade_authority), enc_u64((*v).created_at_slot));
        lemma_assoc(old(out)@, enc_bool((*v).is_initialized), enc_pubkey((*v).upgrade_authority) + (enc_u64((*v).created_at_slot)));
    }
}

pub proof fn lemma_subnet_registry_config(v: SubnetRegistryConfig, rest: Seq<u8>)
    ensures
        dec_subnet_registry_config(enc_subnet_registry_config(v) + rest) == Some((v, rest)),
{
    reveal(enc_subnet_registry_config);
    reveal(dec_subnet_registry_config);
    lemma_assoc(enc_bool(v.is_initialized), enc_pubkey(v.upgrade_authority) + (enc_u64(v.created_at_slot)), rest);
    lemma_bool(v.is_initialized, enc_pubkey(v.upgrade_authority) + (enc_u64(v.created_at_slot)) + rest);
    lemma_assoc(enc_pubkey(v.upgrade_authority), enc_u64(v.created_at_slot), rest);
    lemma_pubkey(v.upgrade_authority, enc_u64(v.created_at_slot) + rest);
    lemma_u64(v.created_at_slot, rest);
}

/// Decodes a [`SubnetRegistryConfig`] that must take up all of `d`.
pub fn subnet_registry_config_from_slice(d: &[u8]) -> (r: Option<SubnetRegistryConfig>)
    ensures
        r is Some <==> (dec_subnet_registry_config(d@) matches Some((_, rest)) && rest.len() == 0),
        r matches Some(v) ==> dec_subnet_registry_config(d@) == Some((v, Seq::<u8>::empty())),
{
    assert(d@.skip(0) =~= d@);
    match read_subnet_registry_config(d, 0) {
        None => None,
        Some((v, p)) => {
            if p == d.len() {
                assert(d@.skip(p as int) =~= Seq::<u8>::empty());
                Some(v)
            } else {
                None
            }
        },
    }
}

/// Decodes a [`SubnetRegistryConfig`] from the front of `d`, ignoring what follows it.
pub fn subnet_registry_config_from_prefix(d: &[u8]) -> (r: Option<SubnetRegistryConfig>)
    ensures
        r is Some <==> dec_subnet_registry_config(d@) is Some,
        r matches Some(v) ==> dec_subnet_registry_config(d@) matches Some((m, _)) && m == v,
{
    assert(d@.skip(0) =~= d@);
    match read_subnet_registry_config(d, 0) {
        None => None,
        Some((v, _)) => Some(v),
    }
}

/// Serialises a [`SubnetRegistryConfig`].
pub fn subnet_registry_config_to_vec(v: &SubnetRegistryConfig) -> (r: Vec<u8>)
    ensures
        r@ == enc_subnet_registry_config(*v),
{
    let mut out: Vec<u8> = Vec::new();
    write_subnet_registry_config(&mut out, v);
    assert(out@ =~= enc_subnet_registry_config(*v));
    out
}

/// Descriptor of one permissioned subnet. Its first two bytes are `is_initialized` and `is_frozen`.
#[derive(Clone, Debug, PartialEq, Eq)]
pub struct SubnetRecord {
    pub is_initialized: bool,
    pub is_frozen: bool,
    pub subnet_id: [u8; 32],
    pub owner: Pubkey,
    pub min_clearance: ClearanceTier,
    pub freeze_reason_code: Option<u16>,
    pub validator_set: Vec<Pubkey>,
    pub created_at_slot: u64,
}

/// Mathematical model of [`SubnetRecord`].
#[verifier::ext_equal]
pub struct SubnetRecordModel {
    pub is_initialized: bool,
    pub is_frozen: bool,
    pub subnet_id: [u8; 32],
    pub owner: Pubkey,
    pub min_clearance: ClearanceTier,
    pub freeze_reason_code: Option<u16>,
    pub validator_set: Seq<Pubkey>,
    pub created_at_slot: u64,
}

impl View for SubnetRecord {
    type V = SubnetRecordModel;

    open spec fn view(&self) -> SubnetRecordModel {
        SubnetRecordModel {
            is_initialized: self.is_initialized,
            is_frozen: self.is_frozen,
            subnet_id: self.subnet_id,
            owner: self.owner,
            min_clearance: self.min_clearance,
            freeze_reason_code: self.freeze_reason_code,
            validator_set: self.validator_set@,
            created_at_slot: self.created_at_slot,
        }
    }
}

#[verifier::opaque]
pub open spec fn enc_subnet_record(v: SubnetRecordModel) -> Seq<u8> {
    enc_bool(v.is_initialized) + (enc_bool(v.is_frozen) + (enc_arr::<32>(v.subnet_id) + (enc_pubkey(v.owner) + (enc_clearance_tier(v.min_clearance) + (enc_opt_u16(v.freeze_reason_code) + (enc_vec_pubkey(v.validator_set) + (enc_u64(v.created_at_slot))))))))
}

#[verifier::opaque]
pub open spec fn dec_subnet_record(s: Seq<u8>) -> Option<(SubnetRecordModel, Seq<u8>)> {
    match dec_bool(s) {
            Some((is_initialized, r1)) => match dec_bool(r1) {
            Some((is_frozen, r2)) => match dec_arr::<32>(r2) {
            Some((subnet_id, r3)) => match dec_pubkey(r3) {
            Some((owner, r4)) => match dec_clearance_tier(r4) {
            Some((min_clearance, r5)) => match dec_opt_u16(r5) {
            Some((freeze_reason_code, r6)) => match dec_vec_pubkey(r6) {
            Some((validator_set, r7)) => match dec_u64(r7) {
            Some((created_at_slot, r8)) => Some((SubnetRecordModel { is_initialized, is_frozen, subnet_id, owner, min_clearance, freeze_reason_code, validator_set, created_at_slot }, r8)),
            None => None,
        },
            None => None,
        },
            None => None,
        },
            None => None,
        },
            None => None,
        },
            None => None,
        },
            None => None,
        },
            None => None,
        }
}

pub open spec fn fits_subnet_record(v: SubnetRecordModel) -> bool {
    fits_vec_pubkey(v.validator_set)
}

pub fn read_subnet_record(d: &[u8], pos: usize) -> (r: Option<(SubnetRecord, usize)>)
    requires
        pos <= d@.len(),
    ensures
        match r {
            None => dec_subnet_record(d@.skip(pos as int)) is None,
            Some((v, p)) => p <= d@.len() && dec_subnet_record(d@.skip(pos as int)) == Some((v@, d@.skip(p as int))),
        },
{
    proof {
        reveal(dec_subnet_record);
    }
    match read_bool(d, pos) {
        None => None,
        Some((is_initialized, p1)) => match read_bool(d, p1) {
        None => None,
        Some((is_frozen, p2)) => match read_arr::<32>(d, p2) {
        None => None,
        Some((subnet_id, p3)) => match read_pubkey(d, p3) {
        None => None,
        Some((owner, p4)) => match read_clearance_tier(d, p4) {
        None => None,
        Some((min_clearance, p5)) => match read_opt_u16(d, p5) {
        None => None,
        Some((freeze_reason_code, p6)) => match read_vec_pubkey(d, p6) {
        None => None,
        Some((validator_set, p7)) => match read_u64(d, p7) {
        None => None,
        Some((created_at_slot, p8)) => Some((SubnetRecord { is_initialized, is_frozen, subnet_id, owner, min_clearance, freeze_reason_code, validator_set, created_at_slot }, p8)),
    },
    },
    },
    },
    },
    },
    },
    }
}

pub fn write_subnet_record(out: &mut Vec<u8>, v: &SubnetRecord) -> (ok: bool)
    ensures
        ok == fits_subnet_record(v@),
        ok ==> final(out)@ == old(out)@ + enc_subnet_record(v@),
{
    proof {
        reveal(enc_subnet_record);
    }
    write_bool(out, *&v.is_initialized);
    let ghost o0 = out@;
    write_bool(out, *&v.is_frozen);
    let ghost o1 = out@;
    write_arr::<32>(out, &v.subnet_id);
    let ghost o2 = out@;
    write_pubkey(out, &v.owner);
    let ghost o3 = out@;
    write_clearance_tier(out, &v.min_clearance);
    let ghost o4 = out@;
    write_opt_u16(out, &v.freeze_reason_code);
    let ghost o5 = out@;
    if !write_vec_pubkey(out, &v.validator_set) { return false; }
    let ghost o6 = out@;
    write_u64(out, *&v.created_at_slot);
    let ghost o7 = out@;
    proof {
        lemma_assoc(o5, enc_vec_pubkey(v@.validator_set), enc_u64(v@.created_at_slot));
        lemma_assoc(o4, enc_opt_u16(v@.freeze_reason_code), enc_vec_pubkey(v@.validator_set) + (enc_u64(v@.created_at_slot)));
        lemma_assoc(o3, enc_clearance_tier(v@.min_clearance), enc_opt_u16(v@.freeze_reason_code) + (enc_vec_pubkey(v@.validator_set) + (enc_u64(v@.created_at_slot))));
        lemma_assoc(o2, enc_pubkey(v@.owner), enc_clearance_tier(v@.min_clearance) + (enc_opt_u16(v@.freeze_reason_code) + (enc_vec_pubkey(v@.validator_set) + (enc_u64(v@.created_at_slot)))));
        lemma_assoc(o1, enc_arr::<32>(v@.subnet_id), enc_pubkey(v@.owner) + (enc_clearance_tier(v@.min_clearance) + (enc_opt_u16(v@.freeze_reason_code) + (enc_vec_pubkey(v@.validator_set) + (enc_u64(v@.created_at_slot))))));
        lemma_assoc(o0, enc_bool(v@.is_frozen), enc_arr::<32>(v@.subnet_id) + (enc_pubkey(v@.owner) + (enc_clearance_tier(v@.min_clearance) + (enc_opt_u16(v@.freeze_reason_code) + (enc_vec_pubkey(v@.validator_set) + (enc_u64(v@.created_at_slot)))))));
        lemma_assoc(old(out)@, enc_bool(v@.is_initialized), enc_bool(v@.is_frozen) + (enc_arr::<32>(v@.subnet_id) + (enc_pubkey(v@.owner) + (enc_clearance_tier(v@.min_clearance) + (enc_opt_u16(v@.freeze_reason_code) + (enc_vec_pubkey(v@.validator_set) + (enc_u64(v@.created_at_slot))))))));
    }
    true
}

pub proof fn lemma_subnet_record(v: SubnetRecordModel, rest: Seq<u8>)
    requires
        fits_subnet_record(v),
    ensures
        dec_subnet_record(enc_subnet_record(v) + rest) == Some((v, rest)),
{
    reveal(enc_subnet_record);
    reveal(dec_subnet_record);
    lemma_assoc(enc_bool(v.is_initialized), enc_bool(v.is_frozen) + (enc_arr::<32>(v.subnet_id) + (enc_pubkey(v.owner) + (enc_clearance_tier(v.min_clearance) + (enc_opt_u16(v.freeze_reason_code) + (enc_vec_pubkey(v.validator_set) + (enc_u64(v.created_at_slot))))))), rest);
    lemma_bool(v.is_initialized, enc_bool(v.is_frozen) + (enc_arr::<32>(v.subnet_id) + (enc_pubkey(v.owner) + (enc_clearance_tier(v.min_clearance) + (enc_opt_u16(v.freeze_reason_code) + (enc_vec_pubkey(v.validator_set) + (enc_u64(v.created_at_slot))))))) + rest);
    lemma_assoc(enc_bool(v.is_frozen), enc_arr::<32>(v.subnet_id) + (enc_pubkey(v.owner) + (enc_clearance_tier(v.min_clearance) + (enc_opt_u16(v.freeze_reason_code) + (enc_vec_pubkey(v.validator_set) + (enc_u64(v.created_at_slot)))))), rest);
    lemma_bool(v.is_frozen, enc_arr::<32>(v.subnet_id) + (enc_pubkey(v.owner) + (enc_clearance_tier(v.min_clearance) + (enc_opt_u16(v.freeze_reason_code) + (enc_vec_pubkey(v.validator_set) + (enc_u64(v.created_at_slot)))))) + rest);
    lemma_assoc(enc_arr::<32>(v.subnet_id), enc_pubkey(v.owner) + (enc_clearance_tier(v.min_clearance) + (enc_opt_u16(v.freeze_reason_code) + (enc_vec_pubkey(v.validator_set) + (enc_u64(v.created_at_slot))))), rest);
    lemma_arr::<32>(v.subnet_id, enc_pubkey(v.owner) + (enc_clearance_tier(v.min_clearance) + (enc_opt_u16(v.freeze_reason_code) + (enc_vec_pubkey(v.validator_set) + (enc_u64(v.created_at_slot))))) + rest);
    lemma_assoc(enc_pubkey(v.owner), enc_clearance_tier(v.min_clearance) + (enc_opt_u16(v.freeze_reason_code) + (enc_vec_pubkey(v.validator_set) + (enc_u64(v.created_at_slot)))), rest);
    lemma_pubkey(v.owner, enc_clearance_tier(v.min_clearance) + (enc_opt_u16(v.freeze_reason_code) + (enc_vec_pubkey(v.validator_set) + (enc_u64(v.created_at_slot)))) + rest);
    lemma_assoc(enc_clearance_tier(v.min_clearance), enc_opt_u16(v.freeze_reason_code) + (enc_vec_pubkey(v.validator_set) + (enc_u64(v.created_at_slot))), rest);
    lemma_clearance_tier(v.min_clearance, enc_opt_u16(v.freeze_reason_code) + (enc_vec_pubkey(v.validator_set) + (enc_u64(v.created_at_slot))) + rest);
    lemma_assoc(enc_opt_u16(v.freeze_reason_code), enc_vec_pubkey(v.validator_set) + (enc_u64(v.created_at_slot)), rest);
    lemma_opt_u16(v.freeze_reason_code, enc_vec_pubkey(v.validator_set) + (enc_u64(v.created_at_slot)) + rest);
    lemma_assoc(enc_vec_pubkey(v.validator_set), enc_u64(v.created_at_slot), rest);
    lemma_vec_pubkey(v.validator_set, enc_u64(v.created_at_slot) + rest);
    lemma_u64(v.created_at_slot, rest);
}

/// Decodes a [`SubnetRecord`] that must take up all of `d`.
pub fn subnet_record_from_slice(d: &[u8]) -> (r: Option<SubnetRecord>)
    ensures
        r is Some <==> (dec_subnet_record(d@) matches Some((_, rest)) && rest.len() == 0),
        r matches Some(v) ==> dec_subnet_record(d@) == Some((v@, Seq::<u8>::empty())),
{
    assert(d@.skip(0) =~= d@);
    match read_subnet_record(d, 0) {
        None => None,
        Some((v, p)) => {
            if p == d.len() {
                assert(d@.skip(p as int) =~= Seq::<u8>::empty());
                Some(v)
            } else {
                None
            }
        },
    }
}

/// Decodes a [`SubnetRecord`] from the front of `d`, ignoring what follows it.
pub fn subnet_record_from_prefix(d: &[u8]) -> (r: Option<SubnetRecord>)
    ensures
        r is Some <==> dec_subnet_record(d@) is Some,
        r matches Some(v) ==> dec_subnet_record(d@) matches Some((m, _)) && m == v@,
{
    assert(d@.skip(0) =~= d@);
    match read_subnet_record(d, 0) {
        None => None,
        Some((v, _)) => Some(v),
    }
}

/// Serialises a [`SubnetRecord`]; `None` when a length does not fit the `u32` prefix.
pub fn subnet_record_to_vec(v: &SubnetRecord) -> (r: Option<Vec<u8>>)
    ensures
        r is Some <==> fits_subnet_record(v@),
        r matches Some(b) ==> b@ == enc_subnet_record(v@),
{
    let mut out: Vec<u8> = Vec::new();
    if write_subnet_record(&mut out, v) {
        assert(out@ =~= enc_subnet_record(v@));
        Some(out)
    } else {
        None
    }
}

/// Record that a wallet or validator is a member of a subnet.
#[derive(Clone, Copy, Debug, PartialEq, Eq)]
pub struct SubnetMembership {
    pub subnet_id: [u8; 32],
    pub member: Pubkey,
    pub key_id: [u8; 32],
    pub joined_at_slot: u64,
    pub is_active: bool,
}

#[verifier::opaque]
pub open spec fn enc_subnet_membership(v: SubnetMembership) -> Seq<u8> {
    enc_arr::<32>(v.subnet_id) + (enc_pubkey(v.member) + (enc_arr::<32>(v.key_id) + (enc_u64(v.joined_at_slot) + (enc_bool(v.is_active)))))
}

#[verifier::opaque]
pub open spec fn dec_subnet_membership(s: Seq<u8>) -> Option<(SubnetMembership, Seq<u8>)> {
    match dec_arr::<32>(s) {
            Some((subnet_id, r1)) => match dec_pubkey(r1) {
            Some((member, r2)) => match dec_arr::<32>(r2) {
            Some((key_id, r3)) => match dec_u64(r3) {
            Some((joined_at_slot, r4)) => match dec_bool(r4) {
            Some((is_active, r5)) => Some((SubnetMembership { subnet_id, member, key_id, joined_at_slot, is_active }, r5)),
            None => None,
        },
            None => None,
        },
            None => None,
        },
            None => None,
        },
            None => None,
        }
}

pub fn read_subnet_membership(d: &[u8], pos: usize) -> (r: Option<(SubnetMembership, usize)>)
    requires
        pos <= d@.len(),
    ensures
        read_ok(dec_subnet_membership(d@.skip(pos as int)), r, d@),
{
    proof {
        reveal(dec_subnet_membership);
    }
    match read_arr::<32>(d, pos) {
        None => None,
        Some((subnet_id, p1)) => match read_pubkey(d, p1) {
        None => None,
        Some((member, p2)) => match read_arr::<32>(d, p2) {
        None => None,
        Some((key_id, p3)) => match read_u64(d, p3) {
        None => None,
        Some((joined_at_slot, p4)) => match read_bool(d, p4) {
        None => None,
        Some((is_active, p5)) => Some((SubnetMembership { subnet_id, member, key_id, joined_at_slot, is_active }, p5)),
    },
    },
    },
    },
    }
}

pub fn write_subnet_membership(out: &mut Vec<u8>, v: &SubnetMembership)
    ensures
        final(out)@ == old(out)@ + enc_subnet_membership(*v),
{
    proof {
        reveal(enc_subnet_membership);
    }
    write_arr::<32>(out, &v.subnet_id);
    let ghost o0 = out@;
    write_pubkey(out, &v.member);
    let ghost o1 = out@;
    write_arr::<32>(out, &v.key_id);
    let ghost o2 = out@;
    write_u64(out, *&v.joined_at_slot);
    let ghost o3 = out@;
    write_bool(out, *&v.is_active);
    let ghost o4 = out@;
    proof {
        lemma_assoc(o2, enc_u64((*v).joined_at_slot), enc_bool((*v).is_active));
        lemma_assoc(o1, enc_arr::<32>((*v).key_id), enc_u64((*v).joined_at_slot) + (enc_bool((*v).is_active)));
        lemma_assoc(o0, enc_pubkey((*v).member), enc_arr::<32>((*v).key_id) + (enc_u64((*v).joined_at_slot) + (enc_bool((*v).is_active))));
        lemma_assoc(old(out)@, enc_arr::<32>((*v).subnet_id), enc_pubkey((*v).member) + (enc_arr::<32>((*v).key_id) + (enc_u64((*v).joined_at_slot) + (enc_bool((*v).is_active)))));
    }
}

pub proof fn lemma_subnet_membership(v: SubnetMembership, rest: Seq<u8>)
    ensures
        dec_subnet_membership(enc_subnet_membership(v) + rest) == Some((v, rest)),
{
    reveal(enc_subnet_membership);
    reveal(dec_subnet_membership);
    lemma_assoc(enc_arr::<32>(v.subnet_id), enc_pubkey(v.member) + (enc_arr::<32>(v.key_id) + (enc_u64(v.joined_at_slot) + (enc_bool(v.is_active)))), rest);
    lemma_arr::<32>(v.subnet_id, enc_pubkey(v.member) + (enc_arr::<32>(v.key_id) + (enc_u64(v.joined_at_slot) + (enc_bool(v.is_active)))) + rest);
    lemma_assoc(enc_pubkey(v.member), enc_arr::<32>(v.key_id) + (enc_u64(v.joined_at_slot) + (enc_bool(v.is_active))), rest);
    lemma_pubkey(v.member, enc_arr::<32>(v.key_id) + (enc_u64(v.joined_at_slot) + (enc_bool(v.is_active))) + rest);
    lemma_assoc(enc_arr::<32>(v.key_id), enc_u64(v.joined_at_slot) + (enc_bool(v.is_active)), rest);
    lemma_arr::<32>(v.key_id, enc_u64(v.joined_at_slot) + (enc_bool(v.is_active)) + rest);
    lemma_assoc(enc_u64(v.joined_at_slot), enc_bool(v.is_active), rest);
    lemma_u64(v.joined_at_slot, enc_bool(v.is_active) + rest);
    lemma_bool(v.is_active, rest);
}

/// Decodes a [`SubnetMembership`] that must take up all of `d`.
pub fn subnet_membership_from_slice(d: &[u8]) -> (r: Option<SubnetMembership>)
    ensures
        r is Some <==> (dec_subnet_membership(d@) matches Some((_, rest)) && rest.len() == 0),
        r matches Some(v) ==> dec_subnet_membership(d@) == Some((v, Seq::<u8>::empty())),
{
    assert(d@.skip(0) =~= d@);
    match read_subnet_membership(d, 0) {
        None => None,
        Some((v, p)) => {
            if p == d.len() {
                assert(d@.skip(p as int) =~= Seq::<u8>::empty());
                Some(v)
            } else {
                None
            }
        },
    }
}

/// Decodes a [`SubnetMembership`] from the front of `d`, ignoring what follows it.
pub fn subnet_membership_from_prefix(d: &[u8]) -> (r: Option<SubnetMembership>)
    ensures
        r is Some <==> dec_subnet_membership(d@) is Some,
        r matches Some(v) ==> dec_subnet_membership(d@) matches Some((m, _)) && m == v,
{
    assert(d@.skip(0) =~= d@);
    match read_subnet_membership(d, 0) {
        None => None,
        Some((v, _)) => Some(v),
    }
}

/// Serialises a [`SubnetMembership`].
pub fn subnet_membership_to_vec(v: &SubnetMembership) -> (r: Vec<u8>)
    ensures
        r@ == enc_subnet_membership(*v),
{
    let mut out: Vec<u8> = Vec::new();
    write_subnet_membership(&mut out, v);
    assert(out@ =~= enc_subnet_membership(*v));
    out
}

/// Instructions of the subnet registry.
#[derive(Clone, Copy, Debug, PartialEq, Eq)]
pub enum SubnetRegistryInstruction {
    InitializeRegistry{ current_slot: u64 },
    CreateSubnet{ subnet_id: [u8; 32], min_clearance: ClearanceTier, current_slot: u64 },
    FreezeSubnet{ subnet_id: [u8; 32], reason_code: u16 },
    UnfreezeSubnet{ subnet_id: [u8; 32] },
    AddSubnetMember{ subnet_id: [u8; 32], member: Pubkey, key_id: [u8; 32], current_slot: u64 },
    RemoveSubnetMember{ subnet_id: [u8; 32], member: Pubkey },
    CheckSubnetAccess{ subnet_id: [u8; 32], member: Pubkey },
}

#[verifier::opaque]
pub open spec fn enc_subnet_registry_instruction(v: SubnetRegistryInstruction) -> Seq<u8> {
    match v {
        SubnetRegistryInstruction::InitializeRegistry{ current_slot } => seq![0u8] + (enc_u64(current_slot)),
        SubnetRegistryInstruction::CreateSubnet{ subnet_id, min_clearance, current_slot } => seq![1u8] + (enc_arr::<32>(subnet_id) + (enc_clearance_tier(min_clearance) + (enc_u64(current_slot)))),
        SubnetRegistryInstruction::FreezeSubnet{ subnet_id, reason_code } => seq![2u8] + (enc_arr::<32>(subnet_id) + (enc_u16(reason_code))),
        SubnetRegistryInstruction::UnfreezeSubnet{ subnet_id } => seq![3u8] + (enc_arr::<32>(subnet_id)),
        SubnetRegistryInstruction::AddSubnetMember{ subnet_id, member, key_id, current_slot } => seq![4u8] + (enc_arr::<32>(subnet_id) + (enc_pubkey(member) + (enc_arr::<32>(key_id) + (enc_u64(current_slot))))),
        SubnetRegistryInstruction::RemoveSubnetMember{ subnet_id, member } => seq![5u8] + (enc_arr::<32>(subnet_id) + (enc_pubkey(member))),
        SubnetRegistryInstruction::CheckSubnetAccess{ subnet_id, member } => seq![6u8] + (enc_arr::<32>(subnet_id) + (enc_pubkey(member))),
    }
}

#[verifier::opaque]
pub open spec fn dec_subnet_registry_instruction(s: Seq<u8>) -> Option<(SubnetRegistryInstruction, Seq<u8>)> {
    if s.len() == 0 {
        None
    } else if s[0] == 0 {
        let r0 = s.skip(1);
        match dec_u64(r0) {
            Some((current_slot, r1)) => Some((SubnetRegistryInstruction::InitializeRegistry{ current_slot }, r1)),
            None => None,
        }
    } else if s[0] == 1 {
        let r0 = s.skip(1);
        match dec_arr::<32>(r0) {
            Some((subnet_id, r1)) => match dec_clearance_tier(r1) {
            Some((min_clearance, r2)) => match dec_u64(r2) {
            Some((current_slot, r3)) => Some((SubnetRegistryInstruction::CreateSubnet{ subnet_id, min_clearance, current_slot }, r3)),
            None => None,
        },
            None => None,
        },
            None => None,
        }
    } else if s[0] == 2 {
        let r0 = s.skip(1);
        match dec_arr::<32>(r0) {
            Some((subnet_id, r1)) => match dec_u16(r1) {
            Some((reason_code, r2)) => Some((SubnetRegistryInstruction::FreezeSubnet{ subnet_id, reason_code }, r2)),
            None => None,
        },
            None => None,
        }
    } else if s[0] == 3 {
        let r0 = s.skip(1);
        match dec_arr::<32>(r0) {
            Some((subnet_id, r1)) => Some((SubnetRegistryInstruction::UnfreezeSubnet{ subnet_id }, r1)),
            None => None,
        }
    } else if s[0] == 4 {
        let r0 = s.skip(1);
        match dec_arr::<32>(r0) {
            Some((subnet_id, r1)) => match dec_pubkey(r1) {
            Some((member, r2)) => match dec_arr::<32>(r2) {
            Some((key_id, r3)) => match dec_u64(r3) {
            Some((current_slot, r4)) => Some((SubnetRegistryInstruction::AddSubnetMember{ subnet_id, member, key_id, current_slot }, r4)),
            None => None,
        },
            None => None,
        },
            None => None,
        },
            None => None,
        }
    } else if s[0] == 5 {
        let r0 = s.skip(1);
        match dec_arr::<32>(r0) {
            Some((subnet_id, r1)) => match dec_pubkey(r1) {
            Some((member, r2)) => Some((SubnetRegistryInstruction::RemoveSubnetMember{ subnet_id, member }, r2)),
            None => None,
        },
            None => None,
        }
    } else if s[0] == 6 {
        let r0 = s.skip(1);
        match dec_arr::<32>(r0) {
            Some((subnet_id, r1)) => match dec_pubkey(r1) {
            Some((member, r2)) => Some((SubnetRegistryInstruction::CheckSubnetAccess{ subnet_id, member }, r2)),
            None => None,
        },
            None => None,
        }
    } else { None }
}

pub fn read_subnet_registry_instruction(d: &[u8], pos: usize) -> (r: Option<(SubnetRegistryInstruction, usize)>)
    requires
        pos <= d@.len(),
    ensures
        read_ok(dec_subnet_registry_instruction(d@.skip(pos as int)), r, d@),
{
    proof {
        reveal(dec_subnet_registry_instruction);
    }
    match read_u8(d, pos) {
        None => None,
        Some((tag, p0)) => {
            proof {
                lemma_skip_skip(d@, pos as int, 1);
            }
            match tag {
            0 => match read_u64(d, p0) {
                None => None,
                Some((current_slot, p1)) => Some((SubnetRegistryInstruction::InitializeRegistry{ current_slot }, p1)),
            },
            1 => match read_arr::<32>(d, p0) {
                None => None,
                Some((subnet_id, p1)) => match read_clearance_tier(d, p1) {
                None => None,
                Some((min_clearance, p2)) => match read_u64(d, p2) {
                None => None,
                Some((current_slot, p3)) => Some((SubnetRegistryInstruction::CreateSubnet{ subnet_id, min_clearance, current_slot }, p3)),
            },
            },
            },
            2 => match read_arr::<32>(d, p0) {
                None => None,
                Some((subnet_id, p1)) => match read_u16(d, p1) {
                None => None,
                Some((reason_code, p2)) => Some((SubnetRegistryInstruction::FreezeSubnet{ subnet_id, reason_code }, p2)),
            },
            },
            3 => match read_arr::<32>(d, p0) {
                None => None,
                Some((subnet_id, p1)) => Some((SubnetRegistryInstruction::UnfreezeSubnet{ subnet_id }, p1)),
            },
            4 => match read_arr::<32>(d, p0) {
                None => None,
                Some((subnet_id, p1)) => match read_pubkey(d, p1) {
                None => None,
                Some((member, p2)) => match read_arr::<32>(d, p2) {
                None => None,
                Some((key_id, p3)) => match read_u64(d, p3) {
                None => None,
                Some((current_slot, p4)) => Some((SubnetRegistryInstruction::AddSubnetMember{ subnet_id, member, key_id, current_slot }, p4)),
            },
            },
            },
            },
            5 => match read_arr::<32>(d, p0) {
                None => None,
                Some((subnet_id, p1)) => match read_pubkey(d, p1) {
                None => None,
                Some((member, p2)) => Some((SubnetRegistryInstruction::RemoveSubnetMember{ subnet_id, member }, p2)),
            },
            },
            6 => match read_arr::<32>(d, p0) {
                None => None,
                Some((subnet_id, p1)) => match read_pubkey(d, p1) {
                None => None,
                Some((member, p2)) => Some((SubnetRegistryInstruction::CheckSubnetAccess{ subnet_id, member }, p2)),
            },
            },
            _ => None,
            }
        },
    }
}

pub fn write_subnet_registry_instruction(out: &mut Vec<u8>, v: &SubnetRegistryInstruction)
    ensures
        final(out)@ == old(out)@ + enc_subnet_registry_instruction(*v),
{
    proof {
        reveal(enc_subnet_registry_instruction);
    }
    match v {
        SubnetRegistryInstruction::InitializeRegistry{ current_slot } => {
            out.push(0u8);
            let ghost ot = out@;
            assert(ot =~= old(out)@ + seq![0u8]);
            write_u64(out, *current_slot);
            let ghost o0 = out@;
            proof {
            }
            proof {
                lemma_assoc(old(out)@, seq![0u8], enc_u64((*current_slot)));
            }
        },
        SubnetRegistryInstruction::CreateSubnet{ subnet_id, min_clearance, current_slot } => {
            out.push(1u8);
            let ghost ot = out@;
            assert(ot =~= old(out)@ + seq![1u8]);
            write_arr::<32>(out, subnet_id);
            let ghost o0 = out@;
            write_clearance_tier(out, min_clearance);
            let ghost o1 = out@;
            write_u64(out, *current_slot);
            let ghost o2 = out@;
            proof {
                lemma_assoc(o0, enc_clearance_tier((*min_clearance)), enc_u64((*current_slot)));
                lemma_assoc(ot, enc_arr::<32>((*subnet_id)), enc_clearance_tier((*min_clearance)) + (enc_u64((*current_slot))));
            }
            proof {
                lemma_assoc(old(out)@, seq![1u8], enc_arr::<32>((*subnet_id)) + (enc_clearance_tier((*min_clearance)) + (enc_u64((*current_slot)))));
            }
        },
        SubnetRegistryInstruction::FreezeSubnet{ subnet_id, reason_code } => {
            out.push(2u8);
            let ghost ot = out@;
            assert(ot =~= old(out)@ + seq![2u8]);
            write_arr::<32>(out, subnet_id);
            let ghost o0 = out@;
            write_u16(out, *reason_code);
            let ghost o1 = out@;
            proof {
                lemma_assoc(ot, enc_arr::<32>((*subnet_id)), enc_u16((*reason_code)));
            }
            proof {
                lemma_assoc(old(out)@, seq![2u8], enc_arr::<32>((*subnet_id)) + (enc_u16((*reason_code))));
            }
        },
        SubnetRegistryInstruction::UnfreezeSubnet{ subnet_id } => {
            out.push(3u8);
            let ghost ot = out@;
            assert(ot =~= old(out)@ + seq![3u8]);
            write_arr::<32>(out, subnet_id);
            let ghost o0 = out@;
            proof {
            }
            proof {
                lemma_assoc(old(out)@, seq![3u8], enc_arr::<32>((*subnet_id)));
            }
        },
        SubnetRegistryInstruction::AddSubnetMember{ subnet_id, member, key_id, current_slot } => {
            out.push(4u8);
            let ghost ot = out@;
            assert(ot =~= old(out)@ + seq![4u8]);
            write_arr::<32>(out, subnet_id);
            let ghost o0 = out@;
            write_pubkey(out, member);
            let ghost o1 = out@;
            write_arr::<32>(out, key_id);
            let ghost o2 = out@;
            write_u64(out, *current_slot);
            let ghost o3 = out@;
            proof {
                lemma_assoc(o1, enc_arr::<32>((*key_id)), enc_u64((*current_slot)));
                lemma_assoc(o0, enc_pubkey((*member)), enc_arr::<32>((*key_id)) + (enc_u64((*current_slot))));
                lemma_assoc(ot, enc_arr::<32>((*subnet_id)), enc_pubkey((*member)) + (enc_arr::<32>((*key_id)) + (enc_u64((*current_slot)))));
            }
            proof {
                lemma_assoc(old(out)@, seq![4u8], enc_arr::<32>((*subnet_id)) + (enc_pubkey((*member)) + (enc_arr::<32>((*key_id)) + (enc_u64((*current_slot))))));
            }
        },
        SubnetRegistryInstruction::RemoveSubnetMember{ subnet_id, member } => {
            out.push(5u8);
            let ghost ot = out@;
            assert(ot =~= old(out)@ + seq![5u8]);
            write_arr::<32>(out, subnet_id);
            let ghost o0 = out@;
            write_pubkey(out, member);
            let ghost o1 = out@;
            proof {
                lemma_assoc(ot, enc_arr::<32>((*subnet_id)), enc_pubkey((*member)));
            }
            proof {
                lemma_assoc(old(out)@, seq![5u8], enc_arr::<32>((*subnet_id)) + (enc_pubkey((*member))));
            }
        },
        SubnetRegistryInstruction::CheckSubnetAccess{ subnet_id, member } => {
            out.push(6u8);
            let ghost ot = out@;
            assert(ot =~= old(out)@ + seq![6u8]);
            write_arr::<32>(out, subnet_id);
            let ghost o0 = out@;
            write_pubkey(out, member);
            let ghost o1 = out@;
            proof {
                lemma_assoc(ot, enc_arr::<32>((*subnet_id)), enc_pubkey((*member)));
            }
            proof {
                lemma_assoc(old(out)@, seq![6u8], enc_arr::<32>((*subnet_id)) + (enc_pubkey((*member))));
            }
        },
    }
}

proof fn lemma_subnet_registry_instruction_initialize_registry(current_slot: u64, rest: Seq<u8>)
    ensures
        dec_subnet_registry_instruction(enc_subnet_registry_instruction(SubnetRegistryInstruction::InitializeRegistry{ current_slot }) + rest) == Some((SubnetRegistryInstruction::InitializeRegistry{ current_slot }, rest)),
{
    reveal(enc_subnet_registry_instruction);
    reveal(dec_subnet_registry_instruction);
    assert((enc_subnet_registry_instruction(SubnetRegistryInstruction::InitializeRegistry{ current_slot }) + rest).skip(1) =~= (enc_u64(current_slot)) + rest);
    lemma_u64(current_slot, rest);
}

proof fn lemma_subnet_registry_instruction_create_subnet(subnet_id: [u8; 32], min_clearance: ClearanceTier, current_slot: u64, rest: Seq<u8>)
    ensures
        dec_subnet_registry_instruction(enc_subnet_registry_instruction(SubnetRegistryInstruction::CreateSubnet{ subnet_id, min_clearance, current_slot }) + rest) == Some((SubnetRegistryInstruction::CreateSubnet{ subnet_id, min_clearance, current_slot }, rest)),
{
    reveal(enc_subnet_registry_instruction);
    reveal(dec_subnet_registry_instruction);
    assert((enc_subnet_registry_instruction(SubnetRegistryInstruction::CreateSubnet{ subnet_id, min_clearance, current_slot }) + rest).skip(1) =~= (enc_arr::<32>(subnet_id) + (enc_clearance_tier(min_clearance) + (enc_u64(current_slot)))) + rest);
    lemma_assoc(enc_arr::<32>(subnet_id), enc_clearance_tier(min_clearance) + (enc_u64(current_slot)), rest);
    lemma_arr::<32>(subnet_id, enc_clearance_tier(min_clearance) + (enc_u64(current_slot)) + rest);
    lemma_assoc(enc_clearance_tier(min_clearance), enc_u64(current_slot), rest);
    lemma_clearance_tier(min_clearance, enc_u64(current_slot) + rest);
    lemma_u64(current_slot, rest);
}

proof fn lemma_subnet_registry_instruction_freeze_subnet(subnet_id: [u8; 32], reason_code: u16, rest: Seq<u8>)
    ensures
        dec_subnet_registry_instruction(enc_subnet_registry_instruction(SubnetRegistryInstruction::FreezeSubnet{ subnet_id, reason_code }) + rest) == Some((SubnetRegistryInstruction::FreezeSubnet{ subnet_id, reason_code }, rest)),
{
    reveal(enc_subnet_registry_instruction);
    reveal(dec_subnet_registry_instruction);
    assert((enc_subnet_registry_instruction(SubnetRegistryInstruction::FreezeSubnet{ subnet_id, reason_code }) + rest).skip(1) =~= (enc_arr::<32>(subnet_id) + (enc_u16(reason_code))) + rest);
    lemma_assoc(enc_arr::<32>(subnet_id), enc_u16(reason_code), rest);
    lemma_arr::<32>(subnet_id, enc_u16(reason_code) + rest);
    lemma_u16(reason_code, rest);
}

proof fn lemma_subnet_registry_instruction_unfreeze_subnet(subnet_id: [u8; 32], rest: Seq<u8>)
    ensures
        dec_subnet_registry_instruction(enc_subnet_registry_instruction(SubnetRegistryInstruction::UnfreezeSubnet{ subnet_id }) + rest) == Some((SubnetRegistryInstruction::UnfreezeSubnet{ subnet_id }, rest)),
{
    reveal(enc_subnet_registry_instruction);
    reveal(dec_subnet_registry_instruction);
    assert((enc_subnet_registry_instruction(SubnetRegistryInstruction::UnfreezeSubnet{ subnet_id }) + rest).skip(1) =~= (enc_arr::<32>(subnet_id)) + rest);
    lemma_arr::<32>(subnet_id, rest);
}

proof fn lemma_subnet_registry_instruction_add_subnet_member(subnet_id: [u8; 32], member: Pubkey, key_id: [u8; 32], current_slot: u64, rest: Seq<u8>)
    ensures
        dec_subnet_registry_instruction(enc_subnet_registry_instruction(SubnetRegistryInstruction::AddSubnetMember{ subnet_id, member, key_id, current_slot }) + rest) == Some((SubnetRegistryInstruction::AddSubnetMember{ subnet_id, member, key_id, current_slot }, rest)),
{
    reveal(enc_subnet_registry_instruction);
    reveal(dec_subnet_registry_instruction);
    assert((enc_subnet_registry_instruction(SubnetRegistryInstruction::AddSubnetMember{ subnet_id, member, key_id, current_slot }) + rest).skip(1) =~= (enc_arr::<32>(subnet_id) + (enc_pubkey(member) + (enc_arr::<32>(key_id) + (enc_u64(current_slot))))) + rest);
    lemma_assoc(enc_arr::<32>(subnet_id), enc_pubkey(member) + (enc_arr::<32>(key_id) + (enc_u64(current_slot))), rest);
    lemma_arr::<32>(subnet_id, enc_pubkey(member) + (enc_arr::<32>(key_id) + (enc_u64(current_slot))) + rest);
    lemma_assoc(enc_pubkey(member), enc_arr::<32>(key_id) + (enc_u64(current_slot)), rest);
    lemma_pubkey(member, enc_arr::<32>(key_id) + (enc_u64(current_slot)) + rest);
    lemma_assoc(enc_arr::<32>(key_id), enc_u64(current_slot), rest);
    lemma_arr::<32>(key_id, enc_u64(current_slot) + rest);
    lemma_u64(current_slot, rest);
}

proof fn lemma_subnet_registry_instruction_remove_subnet_member(subnet_id: [u8; 32], member: Pubkey, rest: Seq<u8>)
    ensures
        dec_subnet_registry_instruction(enc_subnet_registry_instruction(SubnetRegistryInstruction::RemoveSubnetMember{ subnet_id, member }) + rest) == Some((SubnetRegistryInstruction::RemoveSubnetMember{ subnet_id, member }, rest)),
{
    reveal(enc_subnet_registry_instruction);
    reveal(dec_subnet_registry_instruction);
    assert((enc_subnet_registry_instruction(SubnetRegistryInstruction::RemoveSubnetMember{ subnet_id, member }) + rest).skip(1) =~= (enc_arr::<32>(subnet_id) + (enc_pubkey(member))) + rest);
    lemma_assoc(enc_arr::<32>(subnet_id), enc_pubkey(member), rest);
    lemma_arr::<32>(subnet_id, enc_pubkey(member) + rest);
    lemma_pubkey(member, rest);
}

proof fn lemma_subnet_registry_instruction_check_subnet_access(subnet_id: [u8; 32], member: Pubkey, rest: Seq<u8>)
    ensures
        dec_subnet_registry_instruction(enc_subnet_registry_instruction(SubnetRegistryInstruction::CheckSubnetAccess{ subnet_id, member }) + rest) == Some((SubnetRegistryInstruction::CheckSubnetAccess{ subnet_id, member }, rest)),
{
    reveal(enc_subnet_registry_instruction);
    reveal(dec_subnet_registry_instruction);
    assert((enc_subnet_registry_instruction(SubnetRegistryInstruction::CheckSubnetAccess{ subnet_id, member }) + rest).skip(1) =~= (enc_arr::<32>(subnet_id) + (enc_pubkey(member))) + rest);
    lemma_assoc(enc_arr::<32>(subnet_id), enc_pubkey(member), rest);
    lemma_arr::<32>(subnet_id, enc_pubkey(member) + rest);
    lemma_pubkey(member, rest);
}

pub proof fn lemma_subnet_registry_instruction(v: SubnetRegistryInstruction, rest: Seq<u8>)
    ensures
        dec_subnet_registry_instruction(enc_subnet_registry_instruction(v) + rest) == Some((v, rest)),
{
    reveal(enc_subnet_registry_instruction);
    reveal(dec_subnet_registry_instruction);
    match v {
        SubnetRegistryInstruction::InitializeRegistry{ current_slot } => lemma_subnet_registry_instruction_initialize_registry(current_slot, rest),
        SubnetRegistryInstruction::CreateSubnet{ subnet_id, min_clearance, current_slot } => lemma_subnet_registry_instruction_create_subnet(subnet_id, min_clearance, current_slot, rest),
        SubnetRegistryInstruction::FreezeSubnet{ subnet_id, reason_code } => lemma_subnet_registry_instruction_freeze_subnet(subnet_id, reason_code, rest),
        SubnetRegistryInstruction::UnfreezeSubnet{ subnet_id } => lemma_subnet_registry_instruction_unfreeze_subnet(subnet_id, rest),
        SubnetRegistryInstruction::AddSubnetMember{ subnet_id, member, key_id, current_slot } => lemma_subnet_registry_instruction_add_subnet_member(subnet_id, member, key_id, current_slot, rest),
        SubnetRegistryInstruction::RemoveSubnetMember{ subnet_id, member } => lemma_subnet_registry_instruction_remove_subnet_member(subnet_id, member, rest),
        SubnetRegistryInstruction::CheckSubnetAccess{ subnet_id, member } => lemma_subnet_registry_instruction_check_subnet_access(subnet_id, member, rest),
    }
}

/// Decodes a [`SubnetRegistryInstruction`] that must take up all of `d`.
pub fn subnet_registry_instruction_from_slice(d: &[u8]) -> (r: Option<SubnetRegistryInstruction>)
    ensures
        r is Some <==> (dec_subnet_registry_instruction(d@) matches Some((_, rest)) && rest.len() == 0),
        r matches Some(v) ==> dec_subnet_registry_instruction(d@) == Some((v, Seq::<u8>::empty())),
{
    assert(d@.skip(0) =~= d@);
    match read_subnet_registry_instruction(d, 0) {
        None => None,
        Some((v, p)) => {
            if p == d.len() {
                assert(d@.skip(p as int) =~= Seq::<u8>::empty());
                Some(v)
            } else {
                None
            }
        },
    }
}

/// Decodes a [`SubnetRegistryInstruction`] from the front of `d`, ignoring what follows it.
pub fn subnet_registry_instruction_from_prefix(d: &[u8]) -> (r: Option<SubnetRegistryInstruction>)
    ensures
        r is Some <==> dec_subnet_registry_instruction(d@) is Some,
        r matches Some(v) ==> dec_subnet_registry_instruction(d@) matches Some((m, _)) && m == v,
{
    assert(d@.skip(0) =~= d@);
    match read_subnet_registry_instruction(d, 0) {
        None => None,
        Some((v, _)) => Some(v),
    }
}

/// Serialises a [`SubnetRegistryInstruction`].
pub fn subnet_registry_instruction_to_vec(v: &SubnetRegistryInstruction) -> (r: Vec<u8>)
    ensures
        r@ == enc_subnet_registry_instruction(*v),
{
    let mut out: Vec<u8> = Vec::new();
    write_subnet_registry_instruction(&mut out, v);
    assert(out@ =~= enc_subnet_registry_instruction(*v));
    out
}

} // verus!
