//! Data types and their byte layout.
use vstd::prelude::*;
use crate::codec::{dec_arr, dec_bool, dec_pubkey, dec_u64, enc_arr, enc_bool, enc_pubkey, enc_u64, lemma_arr, lemma_assoc, lemma_bool, lemma_pubkey, lemma_skip_skip, lemma_u64, read_arr, read_bool, read_ok, read_pubkey, read_u64, read_u8, write_arr, write_bool, write_pubkey, write_u64};
use crate::layout::{dec_opt_arr32, enc_opt_arr32, lemma_opt_arr32, read_opt_arr32, write_opt_arr32};
use crate::permission_types::types::{ClearanceTier, dec_clearance_tier, enc_clearance_tier, lemma_clearance_tier, read_clearance_tier, write_clearance_tier};
use crate::pubkey::{Pubkey};

verus! {

/// Custom error codes of the finality-oracle program.
#[derive(Clone, Copy, Debug, PartialEq, Eq, Structural)]
pub enum FinalityOracleError {
    AlreadyInitialized,
    Uninitialized,
    Unauthorized,
    ProofRequestAlreadyExists,
    ProofRequestNotFound,
    InsufficientClearance,
    IssuerNotSubnetMember,
    ProofHashMismatch,
    ProofIssuerRevoked,
    ProofNotFound,
    InvalidAccountData,
    InvalidInstructionData,
}

impl FinalityOracleError {
    /// The custom error code carried by this error.
    pub open spec fn spec_code(self) -> u32 {
        match self {
            FinalityOracleError::AlreadyInitialized => 0,
            FinalityOracleError::Uninitialized => 1,
            FinalityOracleError::Unauthorized => 2,
            FinalityOracleError::ProofRequestAlreadyExists => 3,
            FinalityOracleError::ProofRequestNotFound => 4,
            FinalityOracleError::InsufficientClearance => 5,
            FinalityOracleError::IssuerNotSubnetMember => 6,
            FinalityOracleError::ProofHashMismatch => 7,
            FinalityOracleError::ProofIssuerRevoked => 8,
            FinalityOracleError::ProofNotFound => 9,
            FinalityOracleError::InvalidAccountData => 10,
            FinalityOracleError::InvalidInstructionData => 11,
        }
    }

    pub fn code(self) -> (c: u32)
        ensures
            c == self.spec_code(),
    {
        match self {
            FinalityOracleError::AlreadyInitialized => 0,
            FinalityOracleError::Uninitialized => 1,
            FinalityOracleError::Unauthorized => 2,
            FinalityOracleError::ProofRequestAlreadyExists => 3,
            FinalityOracleError::ProofRequestNotFound => 4,
            FinalityOracleError::InsufficientClearance => 5,
            FinalityOracleError::IssuerNotSubnetMember => 6,
            FinalityOracleError::ProofHashMismatch => 7,
            FinalityOracleError::ProofIssuerRevoked => 8,
            FinalityOracleError::ProofNotFound => 9,
            FinalityOracleError::InvalidAccountData => 10,
            FinalityOracleError::InvalidInstructionData => 11,
        }
    }
}

/// Singleton configuration of the finality oracle.
#[derive(Clone, Copy, Debug, PartialEq, Eq)]
pub struct OracleConfig {
    pub is_initialized: bool,
    pub upgrade_authority: Pubkey,
    pub created_at_slot: u64,
}

#[verifier::opaque]
pub open spec fn enc_oracle_config(v: OracleConfig) -> Seq<u8> {
    enc_bool(v.is_initialized) + (enc_pubkey(v.upgrade_authority) + (enc_u64(v.created_at_slot)))
}

#[verifier::opaque]
pub open spec fn dec_oracle_config(s: Seq<u8>) -> Option<(OracleConfig, Seq<u8>)> {
    match dec_bool(s) {
            Some((is_initialized, r1)) => match dec_pubkey(r1) {
            Some((upgrade_authority, r2)) => match dec_u64(r2) {
            Some((created_at_slot, r3)) => Some((OracleConfig { is_initialized, upgrade_authority, created_at_slot }, r3)),
            None => None,
        },
            None => None,
        },
            None => None,
        }
}

pub fn read_oracle_config(d: &[u8], pos: usize) -> (r: Option<(OracleConfig, usize)>)
    requires
        pos <= d@.len(),
    ensures
        read_ok(dec_oracle_config(d@.skip(pos as int)), r, d@),
{
    proof {
        reveal(dec_oracle_config);
    }
    match read_bool(d, pos) {
        None => None,
        Some((is_initialized, p1)) => match read_pubkey(d, p1) {
        None => None,
        Some((upgrade_authority, p2)) => match read_u64(d, p2) {
        None => None,
        Some((created_at_slot, p3)) => Some((OracleConfig { is_initialized, upgrade_authority, created_at_slot }, p3)),
    },
    },
    }
}

pub fn write_oracle_config(out: &mut Vec<u8>, v: &OracleConfig)
    ensures
        final(out)@ == old(out)@ + enc_oracle_config(*v),
{
    proof {
        reveal(enc_oracle_config);
    }
    write_bool(out, *&v.is_initialized);
    let ghost o0 = out@;
    write_pubkey(out, &v.upgrade_authority);
    let ghost o1 = out@;
    write_u64(out, *&v.created_at_slot);
    let ghost o2 = out@;
    proof {
        lemma_assoc(o0, enc_pubkey((*v).upgrade_authority), enc_u64((*v).created_at_slot));
        lemma_assoc(old(out)@, enc_bool((*v).is_initialized), enc_pubkey((*v).upgrade_authority) + (enc_u64((*v).created_at_slot)));
    }
}

pub proof fn lemma_oracle_config(v: OracleConfig, rest: Seq<u8>)
    ensures
        dec_oracle_config(enc_oracle_config(v) + rest) == Some((v, rest)),
{
    reveal(enc_oracle_config);
    reveal(dec_oracle_config);
    lemma_assoc(enc_bool(v.is_initialized), enc_pubkey(v.upgrade_authority) + (enc_u64(v.created_at_slot)), rest);
    lemma_bool(v.is_initialized, enc_pubkey(v.upgrade_authority) + (enc_u64(v.created_at_slot)) + rest);
    lemma_assoc(enc_pubkey(v.upgrade_authority), enc_u64(v.created_at_slot), rest);
    lemma_pubkey(v.upgrade_authority, enc_u64(v.created_at_slot) + rest);
    lemma_u64(v.created_at_slot, rest);
}

/// Decodes a [`OracleConfig`] that must take up all of `d`.
pub fn oracle_config_from_slice(d: &[u8]) -> (r: Option<OracleConfig>)
    ensures
        r is Some <==> (dec_oracle_config(d@) matches Some((_, rest)) && rest.len() == 0),
        r matches Some(v) ==> dec_oracle_config(d@) == Some((v, Seq::<u8>::empty())),
{
    assert(d@.skip(0) =~= d@);
    match read_oracle_config(d, 0) {
        None => None,
        Some((v, p)) => {
            if p == d.len() {
                assert(d@.skip(p as int) =~= Seq::<u8>::empty());
                Some(v)
            } else {
                None
            }
        },
    }
}

/// Decodes a [`OracleConfig`] from the front of `d`, ignoring what follows it.
pub fn oracle_config_from_prefix(d: &[u8]) -> (r: Option<OracleConfig>)
    ensures
        r is Some <==> dec_oracle_config(d@) is Some,
        r matches Some(v) ==> dec_oracle_config(d@) matches Some((m, _)) && m == v,
{
    assert(d@.skip(0) =~= d@);
    match read_oracle_config(d, 0) {
        None => None,
        Some((v, _)) => Some(v),
    }
}

/// Serialises a [`OracleConfig`].
pub fn oracle_config_to_vec(v: &OracleConfig) -> (r: Vec<u8>)
    ensures
        r@ == enc_oracle_config(*v),
{
    let mut out: Vec<u8> = Vec::new();
    write_oracle_config(&mut out, v);
    assert(out@ =~= enc_oracle_config(*v));
    out
}

/// A request for a finality proof.
#[derive(Clone, Copy, Debug, PartialEq, Eq)]
pub struct ProofRequest {
    pub transaction_signature: [u8; 64],
    pub requester: Pubkey,
    pub required_clearance: ClearanceTier,
    pub subnet_id: Option<[u8; 32]>,
    pub requested_at_slot: u64,
    pub is_fulfilled: bool,
}

#[verifier::opaque]
pub open spec fn enc_proof_request(v: ProofRequest) -> Seq<u8> {
    enc_arr::<64>(v.transaction_signature) + (enc_pubkey(v.requester) + (enc_clearance_tier(v.required_clearance) + (enc_opt_arr32(v.subnet_id) + (enc_u64(v.requested_at_slot) + (enc_bool(v.is_fulfilled))))))
}

#[verifier::opaque]
pub open spec fn dec_proof_request(s: Seq<u8>) -> Option<(ProofRequest, Seq<u8>)> {
    match dec_arr::<64>(s) {
            Some((transaction_signature, r1)) => match dec_pubkey(r1) {
            Some((requester, r2)) => match dec_clearance_tier(r2) {
            Some((required_clearance, r3)) => match dec_opt_arr32(r3) {
            Some((subnet_id, r4)) => match dec_u64(r4) {
            Some((requested_at_slot, r5)) => match dec_bool(r5) {
            Some((is_fulfilled, r6)) => Some((ProofRequest { transaction_signature, requester, required_clearance, subnet_id, requested_at_slot, is_fulfilled }, r6)),
            None => None,
        },
            None => None,
        },
            None => None,
        },
            None => None,
        },
            None => None,
        },
            None => None,
        }
}

pub fn read_proof_request(d: &[u8], pos: usize) -> (r: Option<(ProofRequest, usize)>)
    requires
        pos <= d@.len(),
    ensures
        read_ok(dec_proof_request(d@.skip(pos as int)), r, d@),
{
    proof {
        reveal(dec_proof_request);
    }
    match read_arr::<64>(d, pos) {
        None => None,
        Some((transaction_signature, p1)) => match read_pubkey(d, p1) {
        None => None,
        Some((requester, p2)) => match read_clearance_tier(d, p2) {
        None => None,
        Some((required_clearance, p3)) => match read_opt_arr32(d, p3) {
        None => None,
        Some((subnet_id, p4)) => match read_u64(d, p4) {
        None => None,
        Some((requested_at_slot, p5)) => match read_bool(d, p5) {
        None => None,
        Some((is_fulfilled, p6)) => Some((ProofRequest { transaction_signature, requester, required_clearance, subnet_id, requested_at_slot, is_fulfilled }, p6)),
    },
    },
    },
    },
    },
    }
}

pub fn write_proof_request(out: &mut Vec<u8>, v: &ProofRequest)
    ensures
        final(out)@ == old(out)@ + enc_proof_request(*v),
{
    proof {
        reveal(enc_proof_request);
    }
    write_arr::<64>(out, &v.transaction_signature);
    let ghost o0 = out@;
    write_pubkey(out, &v.requester);
    let ghost o1 = out@;
    write_clearance_tier(out, &v.required_clearance);
    let ghost o2 = out@;
    write_opt_arr32(out, &v.subnet_id);
    let ghost o3 = out@;
    write_u64(out, *&v.requested_at_slot);
    let ghost o4 = out@;
    write_bool(out, *&v.is_fulfilled);
    let ghost o5 = out@;
    proof {
        lemma_assoc(o3, enc_u64((*v).requested_at_slot), enc_bool((*v).is_fulfilled));
        lemma_assoc(o2, enc_opt_arr32((*v).subnet_id), enc_u64((*v).requested_at_slot) + (enc_bool((*v).is_fulfilled)));
        lemma_assoc(o1, enc_clearance_tier((*v).required_clearance), enc_opt_arr32((*v).subnet_id) + (enc_u64((*v).requested_at_slot) + (enc_bool((*v).is_fulfilled))));
        lemma_assoc(o0, enc_pubkey((*v).requester), enc_clearance_tier((*v).required_clearance) + (enc_opt_arr32((*v).subnet_id) + (enc_u64((*v).requested_at_slot) + (enc_bool((*v).is_fulfilled)))));
        lemma_assoc(old(out)@, enc_arr::<64>((*v).transaction_signature), enc_pubkey((*v).requester) + (enc_clearance_tier((*v).required_clearance) + (enc_opt_arr32((*v).subnet_id) + (enc_u64((*v).requested_at_slot) + (enc_bool((*v).is_fulfilled))))));
    }
}

pub proof fn lemma_proof_request(v: ProofRequest, rest: Seq<u8>)
    ensures
        dec_proof_request(enc_proof_request(v) + rest) == Some((v, rest)),
{
    reveal(enc_proof_request);
    reveal(dec_proof_request);
    lemma_assoc(enc_arr::<64>(v.transaction_signature), enc_pubkey(v.requester) + (enc_clearance_tier(v.required_clearance) + (enc_opt_arr32(v.subnet_id) + (enc_u64(v.requested_at_slot) + (enc_bool(v.is_fulfilled))))), rest);
    lemma_arr::<64>(v.transaction_signature, enc_pubkey(v.requester) + (enc_clearance_tier(v.required_clearance) + (enc_opt_arr32(v.subnet_id) + (enc_u64(v.requested_at_slot) + (enc_bool(v.is_fulfilled))))) + rest);
    lemma_assoc(enc_pubkey(v.requester), enc_clearance_tier(v.required_clearance) + (enc_opt_arr32(v.subnet_id) + (enc_u64(v.requested_at_slot) + (enc_bool(v.is_fulfilled)))), rest);
    lemma_pubkey(v.requester, enc_clearance_tier(v.required_clearance) + (enc_opt_arr32(v.subnet_id) + (enc_u64(v.requested_at_slot) + (enc_bool(v.is_fulfilled)))) + rest);
    lemma_assoc(enc_clearance_tier(v.required_clearance), enc_opt_arr32(v.subnet_id) + (enc_u64(v.requested_at_slot) + (enc_bool(v.is_fulfilled))), rest);
    lemma_clearance_tier(v.required_clearance, enc_opt_arr32(v.subnet_id) + (enc_u64(v.requested_at_slot) + (enc_bool(v.is_fulfilled))) + rest);
    lemma_assoc(enc_opt_arr32(v.subnet_id), enc_u64(v.requested_at_slot) + (enc_bool(v.is_fulfilled)), rest);
    lemma_opt_arr32(v.subnet_id, enc_u64(v.requested_at_slot) + (enc_bool(v.is_fulfilled)) + rest);
    lemma_assoc(enc_u64(v.requested_at_slot), enc_bool(v.is_fulfilled), rest);
    lemma_u64(v.requested_at_slot, enc_bool(v.is_fulfilled) + rest);
    lemma_bool(v.is_fulfilled, rest);
}

/// Decodes a [`ProofRequest`] that must take up all of `d`.
pub fn proof_request_from_slice(d: &[u8]) -> (r: Option<ProofRequest>)
    ensures
        r is Some <==> (dec_proof_request(d@) matches Some((_, rest)) && rest.len() == 0),
        r matches Some(v) ==> dec_proof_request(d@) == Some((v, Seq::<u8>::empty())),
{
    assert(d@.skip(0) =~= d@);
    match read_proof_request(d, 0) {
        None => None,
        Some((v, p)) => {
            if p == d.len() {
                assert(d@.skip(p as int) =~= Seq::<u8>::empty());
                Some(v)
            } else {
                None
            }
        },
    }
}

/// Decodes a [`ProofRequest`] from the front of `d`, ignoring what follows it.
pub fn proof_request_from_prefix(d: &[u8]) -> (r: Option<ProofRequest>)
    ensures
        r is Some <==> dec_proof_request(d@) is Some,
        r matches Some(v) ==> dec_proof_request(d@) matches Some((m, _)) && m == v,
{
    assert(d@.skip(0) =~= d@);
    match read_proof_request(d, 0) {
        None => None,
        Some((v, _)) => Some(v),
    }
}

/// Serialises a [`ProofRequest`].
pub fn proof_request_to_vec(v: &ProofRequest) -> (r: Vec<u8>)
    ensures
        r@ == enc_proof_request(*v),
{
    let mut out: Vec<u8> = Vec::new();
    write_proof_request(&mut out, v);
    assert(out@ =~= enc_proof_request(*v));
    out
}

/// An issued finality proof with its committed digest.
#[derive(Clone, Copy, Debug, PartialEq, Eq)]
pub struct FinalityProof {
    pub slot: u64,
    pub transaction_signature: [u8; 64],
    pub clearance_tier: ClearanceTier,
    pub subnet_id: Option<[u8; 32]>,
    pub issued_by: Pubkey,
    pub issued_at_slot: u64,
    pub proof_hash: [u8; 32],
}

#[verifier::opaque]
pub open spec fn enc_finality_proof(v: FinalityProof) -> Seq<u8> {
    enc_u64(v.slot) + (enc_arr::<64>(v.transaction_signature) + (enc_clearance_tier(v.clearance_tier) + (enc_opt_arr32(v.subnet_id) + (enc_pubkey(v.issued_by) + (enc_u64(v.issued_at_slot) + (enc_arr::<32>(v.proof_hash)))))))
}

#[verifier::opaque]
pub open spec fn dec_finality_proof(s: Seq<u8>) -> Option<(FinalityProof, Seq<u8>)> {
    match dec_u64(s) {
            Some((slot, r1)) => match dec_arr::<64>(r1) {
            Some((transaction_signature, r2)) => match dec_clearance_tier(r2) {
            Some((clearance_tier, r3)) => match dec_opt_arr32(r3) {
            Some((subnet_id, r4)) => match dec_pubkey(r4) {
            Some((issued_by, r5)) => match dec_u64(r5) {
            Some((issued_at_slot, r6)) => match dec_arr::<32>(r6) {
            Some((proof_hash, r7)) => Some((FinalityProof { slot, transaction_signature, clearance_tier, subnet_id, issued_by, issued_at_slot, proof_hash }, r7)),
            None => None,
        },
            None => None,
        },
            None => None,
        },
            None => None,
        },
            None => None,
        },
            None => None,
        },
            None => None,
        }
}

pub fn read_finality_proof(d: &[u8], pos: usize) -> (r: Option<(FinalityProof, usize)>)
    requires
        pos <= d@.len(),
    ensures
        read_ok(dec_finality_proof(d@.skip(pos as int)), r, d@),
{
    proof {
        reveal(dec_finality_proof);
    }
    match read_u64(d, pos) {
        None => None,
        Some((slot, p1)) => match read_arr::<64>(d, p1) {
        None => None,
        Some((transaction_signature, p2)) => match read_clearance_tier(d, p2) {
        None => None,
        Some((clearance_tier, p3)) => match read_opt_arr32(d, p3) {
        None => None,
        Some((subnet_id, p4)) => match read_pubkey(d, p4) {
        None => None,
        Some((issued_by, p5)) => match read_u64(d, p5) {
        None => None,
        Some((issued_at_slot, p6)) => match read_arr::<32>(d, p6) {
        None => None,
        Some((proof_hash, p7)) => Some((FinalityProof { slot, transaction_signature, clearance_tier, subnet_id, issued_by, issued_at_slot, proof_hash }, p7)),
    },
    },
    },
    },
    },
    },
    }
}

pub fn write_finality_proof(out: &mut Vec<u8>, v: &FinalityProof)
    ensures
        final(out)@ == old(out)@ + enc_finality_proof(*v),
{
    proof {
        reveal(enc_finality_proof);
    }
    write_u64(out, *&v.slot);
    let ghost o0 = out@;
    write_arr::<64>(out, &v.transaction_signature);
    let ghost o1 = out@;
    write_clearance_tier(out, &v.clearance_tier);
    let ghost o2 = out@;
    write_opt_arr32(out, &v.subnet_id);
    let ghost o3 = out@;
    write_pubkey(out, &v.issued_by);
    let ghost o4 = out@;
    write_u64(out, *&v.issued_at_slot);
    let ghost o5 = out@;
    write_arr::<32>(out, &v.proof_hash);
    let ghost o6 = out@;
    proof {
        lemma_assoc(o4, enc_u64((*v).issued_at_slot), enc_arr::<32>((*v).proof_hash));
        lemma_assoc(o3, enc_pubkey((*v).issued_by), enc_u64((*v).issued_at_slot) + (enc_arr::<32>((*v).proof_hash)));
        lemma_assoc(o2, enc_opt_arr32((*v).subnet_id), enc_pubkey((*v).issued_by) + (enc_u64((*v).issued_at_slot) + (enc_arr::<32>((*v).proof_hash))));
        lemma_assoc(o1, enc_clearance_tier((*v).clearance_tier), enc_opt_arr32((*v).subnet_id) + (enc_pubkey((*v).issued_by) + (enc_u64((*v).issued_at_slot) + (enc_arr::<32>((*v).proof_hash)))));
        lemma_assoc(o0, enc_arr::<64>((*v).transaction_signature), enc_clearance_tier((*v).clearance_tier) + (enc_opt_arr32((*v).subnet_id) + (enc_pubkey((*v).issued_by) + (enc_u64((*v).issued_at_slot) + (enc_arr::<32>((*v).proof_hash))))));
        lemma_assoc(old(out)@, enc_u64((*v).slot), enc_arr::<64>((*v).transaction_signature) + (enc_clearance_tier((*v).clearance_tier) + (enc_opt_arr32((*v).subnet_id) + (enc_pubkey((*v).issued_by) + (enc_u64((*v).issued_at_slot) + (enc_arr::<32>((*v).proof_hash)))))));
    }
}

pub proof fn lemma_finality_proof(v: FinalityProof, rest: Seq<u8>)
    ensures
        dec_finality_proof(enc_finality_proof(v) + rest) == Some((v, rest)),
{
    reveal(enc_finality_proof);
    reveal(dec_finality_proof);
    lemma_assoc(enc_u64(v.slot), enc_arr::<64>(v.transaction_signature) + (enc_clearance_tier(v.clearance_tier) + (enc_opt_arr32(v.subnet_id) + (enc_pubkey(v.issued_by) + (enc_u64(v.issued_at_slot) + (enc_arr::<32>(v.proof_hash)))))), rest);
    lemma_u64(v.slot, enc_arr::<64>(v.transaction_signature) + (enc_clearance_tier(v.clearance_tier) + (enc_opt_arr32(v.subnet_id) + (enc_pubkey(v.issued_by) + (enc_u64(v.issued_at_slot) + (enc_arr::<32>(v.proof_hash)))))) + rest);
    lemma_assoc(enc_arr::<64>(v.transaction_signature), enc_clearance_tier(v.clearance_tier) + (enc_opt_arr32(v.subnet_id) + (enc_pubkey(v.issued_by) + (enc_u64(v.issued_at_slot) + (enc_arr::<32>(v.proof_hash))))), rest);
    lemma_arr::<64>(v.transaction_signature, enc_clearance_tier(v.clearance_tier) + (enc_opt_arr32(v.subnet_id) + (enc_pubkey(v.issued_by) + (enc_u64(v.issued_at_slot) + (enc_arr::<32>(v.proof_hash))))) + rest);
    lemma_assoc(enc_clearance_tier(v.clearance_tier), enc_opt_arr32(v.subnet_id) + (enc_pubkey(v.issued_by) + (enc_u64(v.issued_at_slot) + (enc_arr::<32>(v.proof_hash)))), rest);
    lemma_clearance_tier(v.clearance_tier, enc_opt_arr32(v.subnet_id) + (enc_pubkey(v.issued_by) + (enc_u64(v.issued_at_slot) + (enc_arr::<32>(v.proof_hash)))) + rest);
    lemma_assoc(enc_opt_arr32(v.subnet_id), enc_pubkey(v.issued_by) + (enc_u64(v.issued_at_slot) + (enc_arr::<32>(v.proof_hash))), rest);
    lemma_opt_arr32(v.subnet_id, enc_pubkey(v.issued_by) + (enc_u64(v.issued_at_slot) + (enc_arr::<32>(v.proof_hash))) + rest);
    lemma_assoc(enc_pubkey(v.issued_by), enc_u64(v.issued_at_slot) + (enc_arr::<32>(v.proof_hash)), rest);
    lemma_pubkey(v.issued_by, enc_u64(v.issued_at_slot) + (enc_arr::<32>(v.proof_hash)) + rest);
    lemma_assoc(enc_u64(v.issued_at_slot), enc_arr::<32>(v.proof_hash), rest);
    lemma_u64(v.issued_at_slot, enc_arr::<32>(v.proof_hash) + rest);
    lemma_arr::<32>(v.proof_hash, rest);
}

/// Decodes a [`FinalityProof`] that must take up all of `d`.
pub fn finality_proof_from_slice(d: &[u8]) -> (r: Option<FinalityProof>)
    ensures
        r is Some <==> (dec_finality_proof(d@) matches Some((_, rest)) && rest.len() == 0),
        r matches Some(v) ==> dec_finality_proof(d@) == Some((v, Seq::<u8>::empty())),
{
    assert(d@.skip(0) =~= d@);
    match read_finality_proof(d, 0) {
        None => None,
        Some((v, p)) => {
            if p == d.len() {
                assert(d@.skip(p as int) =~= Seq::<u8>::empty());
                Some(v)
            } else {
                None
            }
        },
    }
}

/// Decodes a [`FinalityProof`] from the front of `d`, ignoring what follows it.
pub fn finality_proof_from_prefix(d: &[u8]) -> (r: Option<FinalityProof>)
    ensures
        r is Some <==> dec_finality_proof(d@) is Some,
        r matches Some(v) ==> dec_finality_proof(d@) matches Some((m, _)) && m == v,
{
    assert(d@.skip(0) =~= d@);
    match read_finality_proof(d, 0) {
        None => None,
        Some((v, _)) => Some(v),
    }
}

/// Serialises a [`FinalityProof`].
pub fn finality_proof_to_vec(v: &FinalityProof) -> (r: Vec<u8>)
    ensures
        r@ == enc_finality_proof(*v),
{
    let mut out: Vec<u8> = Vec::new();
    write_finality_proof(&mut out, v);
    assert(out@ =~= enc_finality_proof(*v));
    out
}

/// Instructions of the finality-oracle program.
#[derive(Clone, Copy, Debug, PartialEq, Eq)]
pub enum FinalityOracleInstruction {
    InitializeOracle{ current_slot: u64 },
    RequestFinalityProof{ transaction_signature: [u8; 64], required_clearance: ClearanceTier, subnet_id: Option<[u8; 32]>, current_slot: u64 },
    IssueFinalityProof{ slot: u64, transaction_signature: [u8; 64], clearance_tier: ClearanceTier, subnet_id: Option<[u8; 32]>, proof_hash: [u8; 32], current_slot: u64 },
    VerifyFinalityProof{ transaction_signature: [u8; 64] },
}

#[verifier::opaque]
pub open spec fn enc_finality_oracle_instruction(v: FinalityOracleInstruction) -> Seq<u8> {
    match v {
        FinalityOracleInstruction::InitializeOracle{ current_slot } => seq![0u8] + (enc_u64(current_slot)),
        FinalityOracleInstruction::RequestFinalityProof{ transaction_signature, required_clearance, subnet_id, current_slot } => seq![1u8] + (enc_arr::<64>(transaction_signature) + (enc_clearance_tier(required_clearance) + (enc_opt_arr32(subnet_id) + (enc_u64(current_slot))))),
        FinalityOracleInstruction::IssueFinalityProof{ slot, transaction_signature, clearance_tier, subnet_id, proof_hash, current_slot } => seq![2u8] + (enc_u64(slot) + (enc_arr::<64>(transaction_signature) + (enc_clearance_tier(clearance_tier) + (enc_opt_arr32(subnet_id) + (enc_arr::<32>(proof_hash) + (enc_u64(current_slot))))))),
        FinalityOracleInstruction::VerifyFinalityProof{ transaction_signature } => seq![3u8] + (enc_arr::<64>(transaction_signature)),
    }
}

#[verifier::opaque]
pub open spec fn dec_finality_oracle_instruction(s: Seq<u8>) -> Option<(FinalityOracleInstruction, Seq<u8>)> {
    if s.len() == 0 {
        None
    } else if s[0] == 0 {
        let r0 = s.skip(1);
        match dec_u64(r0) {
            Some((current_slot, r1)) => Some((FinalityOracleInstruction::InitializeOracle{ current_slot }, r1)),
            None => None,
        }
    } else if s[0] == 1 {
        let r0 = s.skip(1);
        match dec_arr::<64>(r0) {
            Some((transaction_signature, r1)) => match dec_clearance_tier(r1) {
            Some((required_clearance, r2)) => match dec_opt_arr32(r2) {
            Some((subnet_id, r3)) => match dec_u64(r3) {
            Some((current_slot, r4)) => Some((FinalityOracleInstruction::RequestFinalityProof{ transaction_signature, required_clearance, subnet_id, current_slot }, r4)),
            None => None,
        },
            None => None,
        },
            None => None,
        },
            None => None,
        }
    } else if s[0] == 2 {
        let r0 = s.skip(1);
        match dec_u64(r0) {
            Some((slot, r1)) => match dec_arr::<64>(r1) {
            Some((transaction_signature, r2)) => match dec_clearance_tier(r2) {
            Some((clearance_tier, r3)) => match dec_opt_arr32(r3) {
            Some((subnet_id, r4)) => match dec_arr::<32>(r4) {
            Some((proof_hash, r5)) => match dec_u64(r5) {
            Some((current_slot, r6)) => Some((FinalityOracleInstruction::IssueFinalityProof{ slot, transaction_signature, clearance_tier, subnet_id, proof_hash, current_slot }, r6)),
            None => None,
        },
            None => None,
        },
            None => None,
        },
            None => None,
        },
            None => None,
        },
            None => None,
        }
    } else if s[0] == 3 {
        let r0 = s.skip(1);
        match dec_arr::<64>(r0) {
            Some((transaction_signature, r1)) => Some((FinalityOracleInstruction::VerifyFinalityProof{ transaction_signature }, r1)),
            None => None,
        }
    } else { None }
}

pub fn read_finality_oracle_instruction(d: &[u8], pos: usize) -> (r: Option<(FinalityOracleInstruction, usize)>)
    requires
        pos <= d@.len(),
    ensures
        read_ok(dec_finality_oracle_instruction(d@.skip(pos as int)), r, d@),
{
    proof {
        reveal(dec_finality_oracle_instruction);
    }
    match read_u8(d, pos) {
        None => None,
        Some((tag, p0)) => {
            proof {
                lemma_skip_skip(d@, pos as int, 1);
            }
            match tag {
            0 => match read_u64(d, p0) {
                None => None,
                Some((current_slot, p1)) => Some((FinalityOracleInstruction::InitializeOracle{ current_slot }, p1)),
            },
            1 => match read_arr::<64>(d, p0) {
                None => None,
                Some((transaction_signature, p1)) => match read_clearance_tier(d, p1) {
                None => None,
                Some((required_clearance, p2)) => match read_opt_arr32(d, p2) {
                None => None,
                Some((subnet_id, p3)) => match read_u64(d, p3) {
                None => None,
                Some((current_slot, p4)) => Some((FinalityOracleInstruction::RequestFinalityProof{ transaction_signature, required_clearance, subnet_id, current_slot }, p4)),
            },
            },
            },
            },
            2 => match read_u64(d, p0) {
                None => None,
                Some((slot, p1)) => match read_arr::<64>(d, p1) {
                None => None,
                Some((transaction_signature, p2)) => match read_clearance_tier(d, p2) {
                None => None,
                Some((clearance_tier, p3)) => match read_opt_arr32(d, p3) {
                None => None,
                Some((subnet_id, p4)) => match read_arr::<32>(d, p4) {
                None => None,
                Some((proof_hash, p5)) => match read_u64(d, p5) {
                None => None,
                Some((current_slot, p6)) => Some((FinalityOracleInstruction::IssueFinalityProof{ slot, transaction_signature, clearance_tier, subnet_id, proof_hash, current_slot }, p6)),
            },
            },
            },
            },
            },
            },
            3 => match read_arr::<64>(d, p0) {
                None => None,
                Some((transaction_signature, p1)) => Some((FinalityOracleInstruction::VerifyFinalityProof{ transaction_signature }, p1)),
            },
            _ => None,
            }
        },
    }
}

pub fn write_finality_oracle_instruction(out: &mut Vec<u8>, v: &FinalityOracleInstruction)
    ensures
        final(out)@ == old(out)@ + enc_finality_oracle_instruction(*v),
{
    proof {
        reveal(enc_finality_oracle_instruction);
    }
    match v {
        FinalityOracleInstruction::InitializeOracle{ current_slot } => {
            out.push(0u8);
            let ghost ot = out@;
            assert(ot =~= old(out)@ + seq![0u8]);
            write_u64(out, *current_slot);
            let ghost o0 = out@;
            proof {
            }
            proof {
                lemma_assoc(old(out)@, seq![0u8], enc_u64((*current_slot)));
            }
        },
        FinalityOracleInstruction::RequestFinalityProof{ transaction_signature, required_clearance, subnet_id, current_slot } => {
            out.push(1u8);
            let ghost ot = out@;
            assert(ot =~= old(out)@ + seq![1u8]);
            write_arr::<64>(out, transaction_signature);
            let ghost o0 = out@;
            write_clearance_tier(out, required_clearance);
            let ghost o1 = out@;
            write_opt_arr32(out, subnet_id);
            let ghost o2 = out@;
            write_u64(out, *current_slot);
            let ghost o3 = out@;
            proof {
                lemma_assoc(o1, enc_opt_arr32((*subnet_id)), enc_u64((*current_slot)));
                lemma_assoc(o0, enc_clearance_tier((*required_clearance)), enc_opt_arr32((*subnet_id)) + (enc_u64((*current_slot))));
                lemma_assoc(ot, enc_arr::<64>((*transaction_signature)), enc_clearance_tier((*required_clearance)) + (enc_opt_arr32((*subnet_id)) + (enc_u64((*current_slot)))));
            }
            proof {
                lemma_assoc(old(out)@, seq![1u8], enc_arr::<64>((*transaction_signature)) + (enc_clearance_tier((*required_clearance)) + (enc_opt_arr32((*subnet_id)) + (enc_u64((*current_slot))))));
            }
        },
        FinalityOracleInstruction::IssueFinalityProof{ slot, transaction_signature, clearance_tier, subnet_id, proof_hash, current_slot } => {
            out.push(2u8);
            let ghost ot = out@;
            assert(ot =~= old(out)@ + seq![2u8]);
            write_u64(out, *slot);
            let ghost o0 = out@;
            write_arr::<64>(out, transaction_signature);
            let ghost o1 = out@;
            write_clearance_tier(out, clearance_tier);
            let ghost o2 = out@;
            write_opt_arr32(out, subnet_id);
            let ghost o3 = out@;
            write_arr::<32>(out, proof_hash);
            let ghost o4 = out@;
            write_u64(out, *current_slot);
            let ghost o5 = out@;
            proof {
                lemma_assoc(o3, enc_arr::<32>((*proof_hash)), enc_u64((*current_slot)));
                lemma_assoc(o2, enc_opt_arr32((*subnet_id)), enc_arr::<32>((*proof_hash)) + (enc_u64((*current_slot))));
                lemma_assoc(o1, enc_clearance_tier((*clearance_tier)), enc_opt_arr32((*subnet_id)) + (enc_arr::<32>((*proof_hash)) + (enc_u64((*current_slot)))));
                lemma_assoc(o0, enc_arr::<64>((*transaction_signature)), enc_clearance_tier((*clearance_tier)) + (enc_opt_arr32((*subnet_id)) + (enc_arr::<32>((*proof_hash)) + (enc_u64((*current_slot))))));
                lemma_assoc(ot, enc_u64((*slot)), enc_arr::<64>((*transaction_signature)) + (enc_clearance_tier((*clearance_tier)) + (enc_opt_arr32((*subnet_id)) + (enc_arr::<32>((*proof_hash)) + (enc_u64((*current_slot)))))));
            }
            proof {
                lemma_assoc(old(out)@, seq![2u8], enc_u64((*slot)) + (enc_arr::<64>((*transaction_signature)) + (enc_clearance_tier((*clearance_tier)) + (enc_opt_arr32((*subnet_id)) + (enc_arr::<32>((*proof_hash)) + (enc_u64((*current_slot))))))));
            }
        },
        FinalityOracleInstruction::VerifyFinalityProof{ transaction_signature } => {
            out.push(3u8);
            let ghost ot = out@;
            assert(ot =~= old(out)@ + seq![3u8]);
            write_arr::<64>(out, transaction_signature);
            let ghost o0 = out@;
            proof {
            }
            proof {
                lemma_assoc(old(out)@, seq![3u8], enc_arr::<64>((*transaction_signature)));
            }
        },
    }
}

proof fn lemma_finality_oracle_instruction_initialize_oracle(current_slot: u64, rest: Seq<u8>)
    ensures
        dec_finality_oracle_instruction(enc_finality_oracle_instruction(FinalityOracleInstruction::InitializeOracle{ current_slot }) + rest) == Some((FinalityOracleInstruction::InitializeOracle{ current_slot }, rest)),
{
    reveal(enc_finality_oracle_instruction);
    reveal(dec_finality_oracle_instruction);
    assert((enc_finality_oracle_instruction(FinalityOracleInstruction::InitializeOracle{ current_slot }) + rest).skip(1) =~= (enc_u64(current_slot)) + rest);
    lemma_u64(current_slot, rest);
}

proof fn lemma_finality_oracle_instruction_request_finality_proof(transaction_signature: [u8; 64], required_clearance: ClearanceTier, subnet_id: Option<[u8; 32]>, current_slot: u64, rest: Seq<u8>)
    ensures
        dec_finality_oracle_instruction(enc_finality_oracle_instruction(FinalityOracleInstruction::RequestFinalityProof{ transaction_signature, required_clearance, subnet_id, current_slot }) + rest) == Some((FinalityOracleInstruction::RequestFinalityProof{ transaction_signature, required_clearance, subnet_id, current_slot }, rest)),
{
    reveal(enc_finality_oracle_instruction);
    reveal(dec_finality_oracle_instruction);
    assert((enc_finality_oracle_instruction(FinalityOracleInstruction::RequestFinalityProof{ transaction_signature, required_clearance, subnet_id, current_slot }) + rest).skip(1) =~= (enc_arr::<64>(transaction_signature) + (enc_clearance_tier(required_clearance) + (enc_opt_arr32(subnet_id) + (enc_u64(current_slot))))) + rest);
    lemma_assoc(enc_arr::<64>(transaction_signature), enc_clearance_tier(required_clearance) + (enc_opt_arr32(subnet_id) + (enc_u64(current_slot))), rest);
    lemma_arr::<64>(transaction_signature, enc_clearance_tier(required_clearance) + (enc_opt_arr32(subnet_id) + (enc_u64(current_slot))) + rest);
    lemma_assoc(enc_clearance_tier(required_clearance), enc_opt_arr32(subnet_id) + (enc_u64(current_slot)), rest);
    lemma_clearance_tier(required_clearance, enc_opt_arr32(subnet_id) + (enc_u64(current_slot)) + rest);
    lemma_assoc(enc_opt_arr32(subnet_id), enc_u64(current_slot), rest);
    lemma_opt_arr32(subnet_id, enc_u64(current_slot) + rest);
    lemma_u64(current_slot, rest);
}

proof fn lemma_finality_oracle_instruction_issue_finality_proof(slot: u64, transaction_signature: [u8; 64], clearance_tier: ClearanceTier, subnet_id: Option<[u8; 32]>, proof_hash: [u8; 32], current_slot: u64, rest: Seq<u8>)
    ensures
        dec_finality_oracle_instruction(enc_finality_oracle_instruction(FinalityOracleInstruction::IssueFinalityProof{ slot, transaction_signature, clearance_tier, subnet_id, proof_hash, current_slot }) + rest) == Some((FinalityOracleInstruction::IssueFinalityProof{ slot, transaction_signature, clearance_tier, subnet_id, proof_hash, current_slot }, rest)),
{
    reveal(enc_finality_oracle_instruction);
    reveal(dec_finality_oracle_instruction);
    assert((enc_finality_oracle_instruction(FinalityOracleInstruction::IssueFinalityProof{ slot, transaction_signature, clearance_tier, subnet_id, proof_hash, current_slot }) + rest).skip(1) =~= (enc_u64(slot) + (enc_arr::<64>(transaction_signature) + (enc_clearance_tier(clearance_tier) + (enc_opt_arr32(subnet_id) + (enc_arr::<32>(proof_hash) + (enc_u64(current_slot))))))) + rest);
    lemma_assoc(enc_u64(slot), enc_arr::<64>(transaction_signature) + (enc_clearance_tier(clearance_tier) + (enc_opt_arr32(subnet_id) + (enc_arr::<32>(proof_hash) + (enc_u64(current_slot))))), rest);
    lemma_u64(slot, enc_arr::<64>(transaction_signature) + (enc_clearance_tier(clearance_tier) + (enc_opt_arr32(subnet_id) + (enc_arr::<32>(proof_hash) + (enc_u64(current_slot))))) + rest);
    lemma_assoc(enc_arr::<64>(transaction_signature), enc_clearance_tier(clearance_tier) + (enc_opt_arr32(subnet_id) + (enc_arr::<32>(proof_hash) + (enc_u64(current_slot)))), rest);
    lemma_arr::<64>(transaction_signature, enc_clearance_tier(clearance_tier) + (enc_opt_arr32(subnet_id) + (enc_arr::<32>(proof_hash) + (enc_u64(current_slot)))) + rest);
    lemma_assoc(enc_clearance_tier(clearance_tier), enc_opt_arr32(subnet_id) + (enc_arr::<32>(proof_hash) + (enc_u64(current_slot))), rest);
    lemma_clearance_tier(clearance_tier, enc_opt_arr32(subnet_id) + (enc_arr::<32>(proof_hash) + (enc_u64(current_slot))) + rest);
    lemma_assoc(enc_opt_arr32(subnet_id), enc_arr::<32>(proof_hash) + (enc_u64(current_slot)), rest);
    lemma_opt_arr32(subnet_id, enc_arr::<32>(proof_hash) + (enc_u64(current_slot)) + rest);
    lemma_assoc(enc_arr::<32>(proof_hash), enc_u64(current_slot), rest);
    lemma_arr::<32>(proof_hash, enc_u64(current_slot) + rest);
    lemma_u64(current_slot, rest);
}

proof fn lemma_finality_oracle_instruction_verify_finality_proof(transaction_signature: [u8; 64], rest: Seq<u8>)
    ensures
        dec_finality_oracle_instruction(enc_finality_oracle_instruction(FinalityOracleInstruction::VerifyFinalityProof{ transaction_signature }) + rest) == Some((FinalityOracleInstruction::VerifyFinalityProof{ transaction_signature }, rest)),
{
    reveal(enc_finality_oracle_instruction);
    reveal(dec_finality_oracle_instruction);
    assert((enc_finality_oracle_instruction(FinalityOracleInstruction::VerifyFinalityProof{ transaction_signature }) + rest).skip(1) =~= (enc_arr::<64>(transaction_signature)) + rest);
    lemma_arr::<64>(transaction_signature, rest);
}

pub proof fn lemma_finality_oracle_instruction(v: FinalityOracleInstruction, rest: Seq<u8>)
    ensures
        dec_finality_oracle_instruction(enc_finality_oracle_instruction(v) + rest) == Some((v, rest)),
{
    reveal(enc_finality_oracle_instruction);
    reveal(dec_finality_oracle_instruction);
    match v {
        FinalityOracleInstruction::InitializeOracle{ current_slot } => lemma_finality_oracle_instruction_initialize_oracle(current_slot, rest),
        FinalityOracleInstruction::RequestFinalityProof{ transaction_signature, required_clearance, subnet_id, current_slot } => lemma_finality_oracle_instruction_request_finality_proof(transaction_signature, required_clearance, subnet_id, current_slot, rest),
        FinalityOracleInstruction::IssueFinalityProof{ slot, transaction_signature, clearance_tier, subnet_id, proof_hash, current_slot } => lemma_finality_oracle_instruction_issue_finality_proof(slot, transaction_signature, clearance_tier, subnet_id, proof_hash, current_slot, rest),
        FinalityOracleInstruction::VerifyFinalityProof{ transaction_signature } => lemma_finality_oracle_instruction_verify_finality_proof(transaction_signature, rest),
    }
}

/// Decodes a [`FinalityOracleInstruction`] that must take up all of `d`.
pub fn finality_oracle_instruction_from_slice(d: &[u8]) -> (r: Option<FinalityOracleInstruction>)
    ensures
        r is Some <==> (dec_finality_oracle_instruction(d@) matches Some((_, rest)) && rest.len() == 0),
        r matches Some(v) ==> dec_finality_oracle_instruction(d@) == Some((v, Seq::<u8>::empty())),
{
    assert(d@.skip(0) =~= d@);
    match read_finality_oracle_instruction(d, 0) {
        None => None,
        Some((v, p)) => {
            if p == d.len() {
                assert(d@.skip(p as int) =~= Seq::<u8>::empty());
                Some(v)
            } else {
                None
            }
        },
    }
}

/// Decodes a [`FinalityOracleInstruction`] from the front of `d`, ignoring what follows it.
pub fn finality_oracle_instruction_from_prefix(d: &[u8]) -> (r: Option<FinalityOracleInstruction>)
    ensures
        r is Some <==> dec_finality_oracle_instruction(d@) is Some,
        r matches Some(v) ==> dec_finality_oracle_instruction(d@) matches Some((m, _)) && m == v,
{
    assert(d@.skip(0) =~= d@);
    match read_finality_oracle_instruction(d, 0) {
        None => None,
        Some((v, _)) => Some(v),
    }
}

/// Serialises a [`FinalityOracleInstruction`].
pub fn finality_oracle_instruction_to_vec(v: &FinalityOracleInstruction) -> (r: Vec<u8>)
    ensures
        r@ == enc_finality_oracle_instruction(*v),
{
    let mut out: Vec<u8> = Vec::new();
    write_finality_oracle_instruction(&mut out, v);
    assert(out@ =~= enc_finality_oracle_instruction(*v));
    out
}

} // verus!
