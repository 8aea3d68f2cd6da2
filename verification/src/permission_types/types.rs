//! Data types and their byte layout.
use vstd::prelude::*;
use crate::codec::{dec_arr, dec_bool, dec_bytes, dec_pubkey, dec_string, dec_u64, dec_u8, enc_arr, enc_bool, enc_bytes, enc_pubkey, enc_string, enc_u64, enc_u8, fits_string, fits_u32, lemma_arr, lemma_assoc, lemma_bool, lemma_bytes, lemma_pubkey, lemma_skip_skip, lemma_string, lemma_u64, lemma_u8, read_arr, read_bool, read_bytes, read_ok, read_pubkey, read_string, read_u64, read_u8, write_arr, write_bool, write_bytes, write_pubkey, write_string, write_u64, write_u8};
use crate::layout::{dec_opt_u64, dec_vec_arr32, enc_opt_u64, enc_vec_arr32, fits_vec_arr32, lemma_opt_u64, lemma_vec_arr32, read_opt_u64, read_vec_arr32, write_opt_u64, write_vec_arr32};
use crate::pubkey::{Pubkey};

verus! {

/// Six-tier clearance hierarchy. A wallet without any clearance record is implicitly `Public`.
/// A program requiring tier T accepts wallets holding T or any higher tier.
#[derive(Clone, Copy, Debug, PartialEq, Eq, Structural)]
pub enum ClearanceTier {
    /// L0: public / anonymous; implicit, never stored.
    Public,
    /// L1: proof of humanity.
    VerifiedHuman,
    /// L2: government ID verification.
    Kyc,
    /// L3: corporate credential.
    Enterprise,
    /// L4: sovereign identity assertion.
    Government,
    /// L5: hardware-bound key and biometric.
    Military,
}

#[verifier::opaque]
pub open spec fn enc_clearance_tier(v: ClearanceTier) -> Seq<u8> {
    match v {
        ClearanceTier::Public => seq![0u8],
        ClearanceTier::VerifiedHuman => seq![1u8],
        ClearanceTier::Kyc => seq![2u8],
        ClearanceTier::Enterprise => seq![3u8],
        ClearanceTier::Government => seq![4u8],
        ClearanceTier::Military => seq![5u8],
    }
}

#[verifier::opaque]
pub open spec fn dec_clearance_tier(s: Seq<u8>) -> Option<(ClearanceTier, Seq<u8>)> {
    if s.len() == 0 {
        None
    } else if s[0] == 0 {
        Some((ClearanceTier::Public, s.skip(1)))
    } else if s[0] == 1 {
        Some((ClearanceTier::VerifiedHuman, s.skip(1)))
    } else if s[0] == 2 {
        Some((ClearanceTier::Kyc, s.skip(1)))
    } else if s[0] == 3 {
        Some((ClearanceTier::Enterprise, s.skip(1)))
    } else if s[0] == 4 {
        Some((ClearanceTier::Government, s.skip(1)))
    } else if s[0] == 5 {
        Some((ClearanceTier::Military, s.skip(1)))
    } else { None }
}

pub fn read_clearance_tier(d: &[u8], pos: usize) -> (r: Option<(ClearanceTier, usize)>)
    requires
        pos <= d@.len(),
    ensures
        read_ok(dec_clearance_tier(d@.skip(pos as int)), r, d@),
{
    proof {
        reveal(dec_clearance_tier);
    }
    match read_u8(d, pos) {
        None => None,
        Some((tag, p0)) => {
            proof {
                lemma_skip_skip(d@, pos as int, 1);
            }
            match tag {
            0 => Some((ClearanceTier::Public, p0)),
            1 => Some((ClearanceTier::VerifiedHuman, p0)),
            2 => Some((ClearanceTier::Kyc, p0)),
            3 => Some((ClearanceTier::Enterprise, p0)),
            4 => Some((ClearanceTier::Government, p0)),
            5 => Some((ClearanceTier::Military, p0)),
            _ => None,
            }
        },
    }
}

pub fn write_clearance_tier(out: &mut Vec<u8>, v: &ClearanceTier)
    ensures
        final(out)@ == old(out)@ + enc_clearance_tier(*v),
{
    proof {
        reveal(enc_clearance_tier);
    }
    match v {
        ClearanceTier::Public => {
            out.push(0u8);
            assert(out@ =~= old(out)@ + seq![0u8]);
        },
        ClearanceTier::VerifiedHuman => {
            out.push(1u8);
            assert(out@ =~= old(out)@ + seq![1u8]);
        },
        ClearanceTier::Kyc => {
            out.push(2u8);
            assert(out@ =~= old(out)@ + seq![2u8]);
        },
        ClearanceTier::Enterprise => {
            out.push(3u8);
            assert(out@ =~= old(out)@ + seq![3u8]);
        },
        ClearanceTier::Government => {
            out.push(4u8);
            assert(out@ =~= old(out)@ + seq![4u8]);
        },
        ClearanceTier::Military => {
            out.push(5u8);
            assert(out@ =~= old(out)@ + seq![5u8]);
        },
    }
}

pub proof fn lemma_clearance_tier(v: ClearanceTier, rest: Seq<u8>)
    ensures
        dec_clearance_tier(enc_clearance_tier(v) + rest) == Some((v, rest)),
{
    reveal(enc_clearance_tier);
    reveal(dec_clearance_tier);
    match v {
        ClearanceTier::Public => {
            assert((enc_clearance_tier(v) + rest).skip(1) =~= rest);
        },
        ClearanceTier::VerifiedHuman => {
            assert((enc_clearance_tier(v) + rest).skip(1) =~= rest);
        },
        ClearanceTier::Kyc => {
            assert((enc_clearance_tier(v) + rest).skip(1) =~= rest);
        },
        ClearanceTier::Enterprise => {
            assert((enc_clearance_tier(v) + rest).skip(1) =~= rest);
        },
        ClearanceTier::Government => {
            assert((enc_clearance_tier(v) + rest).skip(1) =~= rest);
        },
        ClearanceTier::Military => {
            assert((enc_clearance_tier(v) + rest).skip(1) =~= rest);
        },
    }
}

/// Decodes a [`ClearanceTier`] that must take up all of `d`.
pub fn clearance_tier_from_slice(d: &[u8]) -> (r: Option<ClearanceTier>)
    ensures
        r is Some <==> (dec_clearance_tier(d@) matches Some((_, rest)) && rest.len() == 0),
        r matches Some(v) ==> dec_clearance_tier(d@) == Some((v, Seq::<u8>::empty())),
{
    assert(d@.skip(0) =~= d@);
    match read_clearance_tier(d, 0) {
        None => None,
        Some((v, p)) => {
            if p == d.len() {
                assert(d@.skip(p as int) =~= Seq::<u8>::empty());
                Some(v)
            } else {
                None
            }
        },
    }
}

/// Decodes a [`ClearanceTier`] from the front of `d`, ignoring what follows it.
pub fn clearance_tier_from_prefix(d: &[u8]) -> (r: Option<ClearanceTier>)
    ensures
        r is Some <==> dec_clearance_tier(d@) is Some,
        r matches Some(v) ==> dec_clearance_tier(d@) matches Some((m, _)) && m == v,
{
    assert(d@.skip(0) =~= d@);
    match read_clearance_tier(d, 0) {
        None => None,
        Some((v, _)) => Some(v),
    }
}

/// Serialises a [`ClearanceTier`].
pub fn clearance_tier_to_vec(v: &ClearanceTier) -> (r: Vec<u8>)
    ensures
        r@ == enc_clearance_tier(*v),
{
    let mut out: Vec<u8> = Vec::new();
    write_clearance_tier(&mut out, v);
    assert(out@ =~= enc_clearance_tier(*v));
    out
}

/// Reason codes returned when access evaluation denies a request; the code of each is its position.
#[derive(Clone, Copy, Debug, PartialEq, Eq, Structural)]
pub enum AccessDeniedReason {
    ClearanceMissing,
    ClearanceExpired,
    ClearanceRevoked,
    RoleMissing,
    RoleInactive,
    ClearanceOutOfRange,
    SubnetFrozen,
    SubnetMembershipMissing,
    DenyByDefault,
    RequiresEnclave,
}

#[verifier::opaque]
pub open spec fn enc_access_denied_reason(v: AccessDeniedReason) -> Seq<u8> {
    match v {
        AccessDeniedReason::ClearanceMissing => seq![0u8],
        AccessDeniedReason::ClearanceExpired => seq![1u8],
        AccessDeniedReason::ClearanceRevoked => seq![2u8],
        AccessDeniedReason::RoleMissing => seq![3u8],
        AccessDeniedReason::RoleInactive => seq![4u8],
        AccessDeniedReason::ClearanceOutOfRange => seq![5u8],
        AccessDeniedReason::SubnetFrozen => seq![6u8],
        AccessDeniedReason::SubnetMembershipMissing => seq![7u8],
        AccessDeniedReason::DenyByDefault => seq![8u8],
        AccessDeniedReason::RequiresEnclave => seq![9u8],
    }
}

#[verifier::opaque]
pub open spec fn dec_access_denied_reason(s: Seq<u8>) -> Option<(AccessDeniedReason, Seq<u8>)> {
    if s.len() == 0 {
        None
    } else if s[0] == 0 {
        Some((AccessDeniedReason::ClearanceMissing, s.skip(1)))
    } else if s[0] == 1 {
        Some((AccessDeniedReason::ClearanceExpired, s.skip(1)))
    } else if s[0] == 2 {
        Some((AccessDeniedReason::ClearanceRevoked, s.skip(1)))
    } else if s[0] == 3 {
        Some((AccessDeniedReason::RoleMissing, s.skip(1)))
    } else if s[0] == 4 {
        Some((AccessDeniedReason::RoleInactive, s.skip(1)))
    } else if s[0] == 5 {
        Some((AccessDeniedReason::ClearanceOutOfRange, s.skip(1)))
    } else if s[0] == 6 {
        Some((AccessDeniedReason::SubnetFrozen, s.skip(1)))
    } else if s[0] == 7 {
        Some((AccessDeniedReason::SubnetMembershipMissing, s.skip(1)))
    } else if s[0] == 8 {
        Some((AccessDeniedReason::DenyByDefault, s.skip(1)))
    } else if s[0] == 9 {
        Some((AccessDeniedReason::RequiresEnclave, s.skip(1)))
    } else { None }
}

pub fn read_access_denied_reason(d: &[u8], pos: usize) -> (r: Option<(AccessDeniedReason, usize)>)
    requires
        pos <= d@.len(),
    ensures
        read_ok(dec_access_denied_reason(d@.skip(pos as int)), r, d@),
{
    proof {
        reveal(dec_access_denied_reason);
    }
    match read_u8(d, pos) {
        None => None,
        Some((tag, p0)) => {
            proof {
                lemma_skip_skip(d@, pos as int, 1);
            }
            match tag {
            0 => Some((AccessDeniedReason::ClearanceMissing, p0)),
            1 => Some((AccessDeniedReason::ClearanceExpired, p0)),
            2 => Some((AccessDeniedReason::ClearanceRevoked, p0)),
            3 => Some((AccessDeniedReason::RoleMissing, p0)),
            4 => Some((AccessDeniedReason::RoleInactive, p0)),
            5 => Some((AccessDeniedReason::ClearanceOutOfRange, p0)),
            6 => Some((AccessDeniedReason::SubnetFrozen, p0)),
            7 => Some((AccessDeniedReason::SubnetMembershipMissing, p0)),
            8 => Some((AccessDeniedReason::DenyByDefault, p0)),
            9 => Some((AccessDeniedReason::RequiresEnclave, p0)),
            _ => None,
            }
        },
    }
}

pub fn write_access_denied_reason(out: &mut Vec<u8>, v: &AccessDeniedReason)
    ensures
        final(out)@ == old(out)@ + enc_access_denied_reason(*v),
{
    proof {
        reveal(enc_access_denied_reason);
    }
    match v {
        AccessDeniedReason::ClearanceMissing => {
            out.push(0u8);
            assert(out@ =~= old(out)@ + seq![0u8]);
        },
        AccessDeniedReason::ClearanceExpired => {
            out.push(1u8);
            assert(out@ =~= old(out)@ + seq![1u8]);
        },
        AccessDeniedReason::ClearanceRevoked => {
            out.push(2u8);
            assert(out@ =~= old(out)@ + seq![2u8]);
        },
        AccessDeniedReason::RoleMissing => {
            out.push(3u8);
            assert(out@ =~= old(out)@ + seq![3u8]);
        },
        AccessDeniedReason::RoleInactive => {
            out.push(4u8);
            assert(out@ =~= old(out)@ + seq![4u8]);
        },
        AccessDeniedReason::ClearanceOutOfRange => {
            out.push(5u8);
            assert(out@ =~= old(out)@ + seq![5u8]);
        },
        AccessDeniedReason::SubnetFrozen => {
            out.push(6u8);
            assert(out@ =~= old(out)@ + seq![6u8]);
        },
        AccessDeniedReason::SubnetMembershipMissing => {
            out.push(7u8);
            assert(out@ =~= old(out)@ + seq![7u8]);
        },
        AccessDeniedReason::DenyByDefault => {
            out.push(8u8);
            assert(out@ =~= old(out)@ + seq![8u8]);
        },
        AccessDeniedReason::RequiresEnclave => {
            out.push(9u8);
            assert(out@ =~= old(out)@ + seq![9u8]);
        },
    }
}

pub proof fn lemma_access_denied_reason(v: AccessDeniedReason, rest: Seq<u8>)
    ensures
        dec_access_denied_reason(enc_access_denied_reason(v) + rest) == Some((v, rest)),
{
    reveal(enc_access_denied_reason);
    reveal(dec_access_denied_reason);
    match v {
        AccessDeniedReason::ClearanceMissing => {
            assert((enc_access_denied_reason(v) + rest).skip(1) =~= rest);
        },
        AccessDeniedReason::ClearanceExpired => {
            assert((enc_access_denied_reason(v) + rest).skip(1) =~= rest);
        },
        AccessDeniedReason::ClearanceRevoked => {
            assert((enc_access_denied_reason(v) + rest).skip(1) =~= rest);
        },
        AccessDeniedReason::RoleMissing => {
            assert((enc_access_denied_reason(v) + rest).skip(1) =~= rest);
        },
        AccessDeniedReason::RoleInactive => {
            assert((enc_access_denied_reason(v) + rest).skip(1) =~= rest);
        },
        AccessDeniedReason::ClearanceOutOfRange => {
            assert((enc_access_denied_reason(v) + rest).skip(1) =~= rest);
        },
        AccessDeniedReason::SubnetFrozen => {
            assert((enc_access_denied_reason(v) + rest).skip(1) =~= rest);
        },
        AccessDeniedReason::SubnetMembershipMissing => {
            assert((enc_access_denied_reason(v) + rest).skip(1) =~= rest);
        },
        AccessDeniedReason::DenyByDefault => {
            assert((enc_access_denied_reason(v) + rest).skip(1) =~= rest);
        },
        AccessDeniedReason::RequiresEnclave => {
            assert((enc_access_denied_reason(v) + rest).skip(1) =~= rest);
        },
    }
}

/// Result of the access policy chain (clearance, role, subnet).
#[derive(Clone, Copy, Debug, PartialEq, Eq)]
pub enum AccessResult {
    Granted,
    Denied(AccessDeniedReason),
}

#[verifier::opaque]
pub open spec fn enc_access_result(v: AccessResult) -> Seq<u8> {
    match v {
        AccessResult::Granted => seq![0u8],
        AccessResult::Denied(_0) => seq![1u8] + (enc_access_denied_reason(_0)),
    }
}

#[verifier::opaque]
pub open spec fn dec_access_result(s: Seq<u8>) -> Option<(AccessResult, Seq<u8>)> {
    if s.len() == 0 {
        None
    } else if s[0] == 0 {
        Some((AccessResult::Granted, s.skip(1)))
    } else if s[0] == 1 {
        let r0 = s.skip(1);
        match dec_access_denied_reason(r0) {
            Some((_0, r1)) => Some((AccessResult::Denied(_0), r1)),
            None => None,
        }
    } else { None }
}

pub fn read_access_result(d: &[u8], pos: usize) -> (r: Option<(AccessResult, usize)>)
    requires
        pos <= d@.len(),
    ensures
        read_ok(dec_access_result(d@.skip(pos as int)), r, d@),
{
    proof {
        reveal(dec_access_result);
    }
    match read_u8(d, pos) {
        None => None,
        Some((tag, p0)) => {
            proof {
                lemma_skip_skip(d@, pos as int, 1);
            }
            match tag {
            0 => Some((AccessResult::Granted, p0)),
            1 => match read_access_denied_reason(d, p0) {
                None => None,
                Some((_0, p1)) => Some((AccessResult::Denied(_0), p1)),
            },
            _ => None,
            }
        },
    }
}

pub fn write_access_result(out: &mut Vec<u8>, v: &AccessResult)
    ensures
        final(out)@ == old(out)@ + enc_access_result(*v),
{
    proof {
        reveal(enc_access_result);
    }
    match v {
        AccessResult::Granted => {
            out.push(0u8);
            assert(out@ =~= old(out)@ + seq![0u8]);
        },
        AccessResult::Denied(_0) => {
            out.push(1u8);
            let ghost ot = out@;
            assert(ot =~= old(out)@ + seq![1u8]);
            write_access_denied_reason(out, _0);
            let ghost o0 = out@;
            proof {
            }
            proof {
                lemma_assoc(old(out)@, seq![1u8], enc_access_denied_reason((*_0)));
            }
        },
    }
}

proof fn lemma_access_result_denied(_0: AccessDeniedReason, rest: Seq<u8>)
    ensures
        dec_access_result(enc_access_result(AccessResult::Denied(_0)) + rest) == Some((AccessResult::Denied(_0), rest)),
{
    reveal(enc_access_result);
    reveal(dec_access_result);
    assert((enc_access_result(AccessResult::Denied(_0)) + rest).skip(1) =~= (enc_access_denied_reason(_0)) + rest);
    lemma_access_denied_reason(_0, rest);
}

pub proof fn lemma_access_result(v: AccessResult, rest: Seq<u8>)
    ensures
        dec_access_result(enc_access_result(v) + rest) == Some((v, rest)),
{
    reveal(enc_access_result);
    reveal(dec_access_result);
    match v {
        AccessResult::Granted => {
            assert((enc_access_result(v) + rest).skip(1) =~= rest);
        },
        AccessResult::Denied(_0) => lemma_access_result_denied(_0, rest),
    }
}

/// Decodes a [`AccessResult`] that must take up all of `d`.
pub fn access_result_from_slice(d: &[u8]) -> (r: Option<AccessResult>)
    ensures
        r is Some <==> (dec_access_result(d@) matches Some((_, rest)) && rest.len() == 0),
        r matches Some(v) ==> dec_access_result(d@) == Some((v, Seq::<u8>::empty())),
{
    assert(d@.skip(0) =~= d@);
    match read_access_result(d, 0) {
        None => None,
        Some((v, p)) => {
            if p == d.len() {
                assert(d@.skip(p as int) =~= Seq::<u8>::empty());
                Some(v)
            } else {
                None
            }
        },
    }
}

/// Decodes a [`AccessResult`] from the front of `d`, ignoring what follows it.
pub fn access_result_from_prefix(d: &[u8]) -> (r: Option<AccessResult>)
    ensures
        r is Some <==> dec_access_result(d@) is Some,
        r matches Some(v) ==> dec_access_result(d@) matches Some((m, _)) && m == v,
{
    assert(d@.skip(0) =~= d@);
    match read_access_result(d, 0) {
        None => None,
        Some((v, _)) => Some(v),
    }
}

/// Serialises a [`AccessResult`].
pub fn access_result_to_vec(v: &AccessResult) -> (r: Vec<u8>)
    ensures
        r@ == enc_access_result(*v),
{
    let mut out: Vec<u8> = Vec::new();
    write_access_result(&mut out, v);
    assert(out@ =~= enc_access_result(*v));
    out
}

/// Account proving that a wallet holds a clearance tier (a non-transferable token).
#[derive(Clone, Copy, Debug, PartialEq, Eq)]
pub struct ClearanceSbt {
    pub holder: Pubkey,
    pub tier: ClearanceTier,
    pub issuer: Pubkey,
    pub issued_at_slot: u64,
    pub valid_until_slot: Option<u64>,
    pub revocation_registry: Pubkey,
    pub is_active: bool,
}

#[verifier::opaque]
pub open spec fn enc_clearance_sbt(v: ClearanceSbt) -> Seq<u8> {
    enc_pubkey(v.holder) + (enc_clearance_tier(v.tier) + (enc_pubkey(v.issuer) + (enc_u64(v.issued_at_slot) + (enc_opt_u64(v.valid_until_slot) + (enc_pubkey(v.revocation_registry) + (enc_bool(v.is_active)))))))
}

#[verifier::opaque]
pub open spec fn dec_clearance_sbt(s: Seq<u8>) -> Option<(ClearanceSbt, Seq<u8>)> {
    match dec_pubkey(s) {
            Some((holder, r1)) => match dec_clearance_tier(r1) {
            Some((tier, r2)) => match dec_pubkey(r2) {
            Some((issuer, r3)) => match dec_u64(r3) {
            Some((issued_at_slot, r4)) => match dec_opt_u64(r4) {
            Some((valid_until_slot, r5)) => match dec_pubkey(r5) {
            Some((revocation_registry, r6)) => match dec_bool(r6) {
            Some((is_active, r7)) => Some((ClearanceSbt { holder, tier, issuer, issued_at_slot, valid_until_slot, revocation_registry, is_active }, r7)),
            None => None,
        },
            None => None,
        },
            None => None,
        },
            None => None,
        },
            None => None,
        },
            None => None,
        },
            None => None,
        }
}

pub fn read_clearance_sbt(d: &[u8], pos: usize) -> (r: Option<(ClearanceSbt, usize)>)
    requires
        pos <= d@.len(),
    ensures
        read_ok(dec_clearance_sbt(d@.skip(pos as int)), r, d@),
{
    proof {
        reveal(dec_clearance_sbt);
    }
    match read_pubkey(d, pos) {
        None => None,
        Some((holder, p1)) => match read_clearance_tier(d, p1) {
        None => None,
        Some((tier, p2)) => match read_pubkey(d, p2) {
        None => None,
        Some((issuer, p3)) => match read_u64(d, p3) {
        None => None,
        Some((issued_at_slot, p4)) => match read_opt_u64(d, p4) {
        None => None,
        Some((valid_until_slot, p5)) => match read_pubkey(d, p5) {
        None => None,
        Some((revocation_registry, p6)) => match read_bool(d, p6) {
        None => None,
        Some((is_active, p7)) => Some((ClearanceSbt { holder, tier, issuer, issued_at_slot, valid_until_slot, revocation_registry, is_active }, p7)),
    },
    },
    },
    },
    },
    },
    }
}

pub fn write_clearance_sbt(out: &mut Vec<u8>, v: &ClearanceSbt)
    ensures
        final(out)@ == old(out)@ + enc_clearance_sbt(*v),
{
    proof {
        reveal(enc_clearance_sbt);
    }
    write_pubkey(out, &v.holder);
    let ghost o0 = out@;
    write_clearance_tier(out, &v.tier);
    let ghost o1 = out@;
    write_pubkey(out, &v.issuer);
    let ghost o2 = out@;
    write_u64(out, *&v.issued_at_slot);
    let ghost o3 = out@;
    write_opt_u64(out, &v.valid_until_slot);
    let ghost o4 = out@;
    write_pubkey(out, &v.revocation_registry);
    let ghost o5 = out@;
    write_bool(out, *&v.is_active);
    let ghost o6 = out@;
    proof {
        lemma_assoc(o4, enc_pubkey((*v).revocation_registry), enc_bool((*v).is_active));
        lemma_assoc(o3, enc_opt_u64((*v).valid_until_slot), enc_pubkey((*v).revocation_registry) + (enc_bool((*v).is_active)));
        lemma_assoc(o2, enc_u64((*v).issued_at_slot), enc_opt_u64((*v).valid_until_slot) + (enc_pubkey((*v).revocation_registry) + (enc_bool((*v).is_active))));
        lemma_assoc(o1, enc_pubkey((*v).issuer), enc_u64((*v).issued_at_slot) + (enc_opt_u64((*v).valid_until_slot) + (enc_pubkey((*v).revocation_registry) + (enc_bool((*v).is_active)))));
        lemma_assoc(o0, enc_clearance_tier((*v).tier), enc_pubkey((*v).issuer) + (enc_u64((*v).issued_at_slot) + (enc_opt_u64((*v).valid_until_slot) + (enc_pubkey((*v).revocation_registry) + (enc_bool((*v).is_active))))));
        lemma_assoc(old(out)@, enc_pubkey((*v).holder), enc_clearance_tier((*v).tier) + (enc_pubkey((*v).issuer) + (enc_u64((*v).issued_at_slot) + (enc_opt_u64((*v).valid_until_slot) + (enc_pubkey((*v).revocation_registry) + (enc_bool((*v).is_active)))))));
    }
}

pub proof fn lemma_clearance_sbt(v: ClearanceSbt, rest: Seq<u8>)
    ensures
        dec_clearance_sbt(enc_clearance_sbt(v) + rest) == Some((v, rest)),
{
    reveal(enc_clearance_sbt);
    reveal(dec_clearance_sbt);
    lemma_assoc(enc_pubkey(v.holder), enc_clearance_tier(v.tier) + (enc_pubkey(v.issuer) + (enc_u64(v.issued_at_slot) + (enc_opt_u64(v.valid_until_slot) + (enc_pubkey(v.revocation_registry) + (enc_bool(v.is_active)))))), rest);
    lemma_pubkey(v.holder, enc_clearance_tier(v.tier) + (enc_pubkey(v.issuer) + (enc_u64(v.issued_at_slot) + (enc_opt_u64(v.valid_until_slot) + (enc_pubkey(v.revocation_registry) + (enc_bool(v.is_active)))))) + rest);
    lemma_assoc(enc_clearance_tier(v.tier), enc_pubkey(v.issuer) + (enc_u64(v.issued_at_slot) + (enc_opt_u64(v.valid_until_slot) + (enc_pubkey(v.revocation_registry) + (enc_bool(v.is_active))))), rest);
    lemma_clearance_tier(v.tier, enc_pubkey(v.issuer) + (enc_u64(v.issued_at_slot) + (enc_opt_u64(v.valid_until_slot) + (enc_pubkey(v.revocation_registry) + (enc_bool(v.is_active))))) + rest);
    lemma_assoc(enc_pubkey(v.issuer), enc_u64(v.issued_at_slot) + (enc_opt_u64(v.valid_until_slot) + (enc_pubkey(v.revocation_registry) + (enc_bool(v.is_active)))), rest);
    lemma_pubkey(v.issuer, enc_u64(v.issued_at_slot) + (enc_opt_u64(v.valid_until_slot) + (enc_pubkey(v.revocation_registry) + (enc_bool(v.is_active)))) + rest);
    lemma_assoc(enc_u64(v.issued_at_slot), enc_opt_u64(v.valid_until_slot) + (enc_pubkey(v.revocation_registry) + (enc_bool(v.is_active))), rest);
    lemma_u64(v.issued_at_slot, enc_opt_u64(v.valid_until_slot) + (enc_pubkey(v.revocation_registry) + (enc_bool(v.is_active))) + rest);
    lemma_assoc(enc_opt_u64(v.valid_until_slot), enc_pubkey(v.revocation_registry) + (enc_bool(v.is_active)), rest);
    lemma_opt_u64(v.valid_until_slot, enc_pubkey(v.revocation_registry) + (enc_bool(v.is_active)) + rest);
    lemma_assoc(enc_pubkey(v.revocation_registry), enc_bool(v.is_active), rest);
    lemma_pubkey(v.revocation_registry, enc_bool(v.is_active) + rest);
    lemma_bool(v.is_active, rest);
}

/// Decodes a [`ClearanceSbt`] that must take up all of `d`.
pub fn clearance_sbt_from_slice(d: &[u8]) -> (r: Option<ClearanceSbt>)
    ensures
        r is Some <==> (dec_clearance_sbt(d@) matches Some((_, rest)) && rest.len() == 0),
        r matches Some(v) ==> dec_clearance_sbt(d@) == Some((v, Seq::<u8>::empty())),
{
    assert(d@.skip(0) =~= d@);
    match read_clearance_sbt(d, 0) {
        None => None,
        Some((v, p)) => {
            if p == d.len() {
                assert(d@.skip(p as int) =~= Seq::<u8>::empty());
                Some(v)
            } else {
                None
            }
        },
    }
}

/// Decodes a [`ClearanceSbt`] from the front of `d`, ignoring what follows it.
pub fn clearance_sbt_from_prefix(d: &[u8]) -> (r: Option<ClearanceSbt>)
    ensures
        r is Some <==> dec_clearance_sbt(d@) is Some,
        r matches Some(v) ==> dec_clearance_sbt(d@) matches Some((m, _)) && m == v,
{
    assert(d@.skip(0) =~= d@);
    match read_clearance_sbt(d, 0) {
        None => None,
        Some((v, _)) => Some(v),
    }
}

/// Serialises a [`ClearanceSbt`].
pub fn clearance_sbt_to_vec(v: &ClearanceSbt) -> (r: Vec<u8>)
    ensures
        r@ == enc_clearance_sbt(*v),
{
    let mut out: Vec<u8> = Vec::new();
    write_clearance_sbt(&mut out, v);
    assert(out@ =~= enc_clearance_sbt(*v));
    out
}

/// Registry entry authorising an issuer to issue clearance for one tier.
#[derive(Clone, Debug, PartialEq, Eq)]
pub struct IssuerRecord {
    pub authority: Pubkey,
    pub tier: ClearanceTier,
    pub label: String,
    pub is_active: bool,
    pub registered_at_slot: u64,
}

/// Mathematical model of [`IssuerRecord`].
#[verifier::ext_equal]
pub struct IssuerRecordModel {
    pub authority: Pubkey,
    pub tier: ClearanceTier,
    pub label: Seq<char>,
    pub is_active: bool,
    pub registered_at_slot: u64,
}

impl View for IssuerRecord {
    type V = IssuerRecordModel;

    open spec fn view(&self) -> IssuerRecordModel {
        IssuerRecordModel {
            authority: self.authority,
            tier: self.tier,
            label: self.label@,
            is_active: self.is_active,
            registered_at_slot: self.registered_at_slot,
        }
    }
}

#[verifier::opaque]
pub open spec fn enc_issuer_record(v: IssuerRecordModel) -> Seq<u8> {
    enc_pubkey(v.authority) + (enc_clearance_tier(v.tier) + (enc_string(v.label) + (enc_bool(v.is_active) + (enc_u64(v.registered_at_slot)))))
}

#[verifier::opaque]
pub open spec fn dec_issuer_record(s: Seq<u8>) -> Option<(IssuerRecordModel, Seq<u8>)> {
    match dec_pubkey(s) {
            Some((authority, r1)) => match dec_clearance_tier(r1) {
            Some((tier, r2)) => match dec_string(r2) {
            Some((label, r3)) => match dec_bool(r3) {
            Some((is_active, r4)) => match dec_u64(r4) {
            Some((registered_at_slot, r5)) => Some((IssuerRecordModel { authority, tier, label, is_active, registered_at_slot }, r5)),
            None => None,
        },
            None => None,
        },
            None => None,
        },
            None => None,
        },
            None => None,
        }
}

pub open spec fn fits_issuer_record(v: IssuerRecordModel) -> bool {
    fits_string(v.label)
}

pub fn read_issuer_record(d: &[u8], pos: usize) -> (r: Option<(IssuerRecord, usize)>)
    requires
        pos <= d@.len(),
    ensures
        match r {
            None => dec_issuer_record(d@.skip(pos as int)) is None,
            Some((v, p)) => p <= d@.len() && dec_issuer_record(d@.skip(pos as int)) == Some((v@, d@.skip(p as int))),
        },
{
    proof {
        reveal(dec_issuer_record);
    }
    match read_pubkey(d, pos) {
        None => None,
        Some((authority, p1)) => match read_clearance_tier(d, p1) {
        None => None,
        Some((tier, p2)) => match read_string(d, p2) {
        None => None,
        Some((label, p3)) => match read_bool(d, p3) {
        None => None,
        Some((is_active, p4)) => match read_u64(d, p4) {
        None => None,
        Some((registered_at_slot, p5)) => Some((IssuerRecord { authority, tier, label, is_active, registered_at_slot }, p5)),
    },
    },
    },
    },
    }
}

pub fn write_issuer_record(out: &mut Vec<u8>, v: &IssuerRecord) -> (ok: bool)
    ensures
        ok == fits_issuer_record(v@),
        ok ==> final(out)@ == old(out)@ + enc_issuer_record(v@),
{
    proof {
        reveal(enc_issuer_record);
    }
    write_pubkey(out, &v.authority);
    let ghost o0 = out@;
    write_clearance_tier(out, &v.tier);
    let ghost o1 = out@;
    if !write_string(out, &v.label) { return false; }
    let ghost o2 = out@;
    write_bool(out, *&v.is_active);
    let ghost o3 = out@;
    write_u64(out, *&v.registered_at_slot);
    let ghost o4 = out@;
    proof {
        lemma_assoc(o2, enc_bool(v@.is_active), enc_u64(v@.registered_at_slot));
        lemma_assoc(o1, enc_string(v@.label), enc_bool(v@.is_active) + (enc_u64(v@.registered_at_slot)));
        lemma_assoc(o0, enc_clearance_tier(v@.tier), enc_string(v@.label) + (enc_bool(v@.is_active) + (enc_u64(v@.registered_at_slot))));
        lemma_assoc(old(out)@, enc_pubkey(v@.authority), enc_clearance_tier(v@.tier) + (enc_string(v@.label) + (enc_bool(v@.is_active) + (enc_u64(v@.registered_at_slot)))));
    }
    true
}

pub proof fn lemma_issuer_record(v: IssuerRecordModel, rest: Seq<u8>)
    requires
        fits_issuer_record(v),
    ensures
        dec_issuer_record(enc_issuer_record(v) + rest) == Some((v, rest)),
{
    reveal(enc_issuer_record);
    reveal(dec_issuer_record);
    lemma_assoc(enc_pubkey(v.authority), enc_clearance_tier(v.tier) + (enc_string(v.label) + (enc_bool(v.is_active) + (enc_u64(v.registered_at_slot)))), rest);
    lemma_pubkey(v.authority, enc_clearance_tier(v.tier) + (enc_string(v.label) + (enc_bool(v.is_active) + (enc_u64(v.registered_at_slot)))) + rest);
    lemma_assoc(enc_clearance_tier(v.tier), enc_string(v.label) + (enc_bool(v.is_active) + (enc_u64(v.registered_at_slot))), rest);
    lemma_clearance_tier(v.tier, enc_string(v.label) + (enc_bool(v.is_active) + (enc_u64(v.registered_at_slot))) + rest);
    lemma_assoc(enc_string(v.label), enc_bool(v.is_active) + (enc_u64(v.registered_at_slot)), rest);
    lemma_string(v.label, enc_bool(v.is_active) + (enc_u64(v.registered_at_slot)) + rest);
    lemma_assoc(enc_bool(v.is_active), enc_u64(v.registered_at_slot), rest);
    lemma_bool(v.is_active, enc_u64(v.registered_at_slot) + rest);
    lemma_u64(v.registered_at_slot, rest);
}

/// Decodes a [`IssuerRecord`] that must take up all of `d`.
pub fn issuer_record_from_slice(d: &[u8]) -> (r: Option<IssuerRecord>)
    ensures
        r is Some <==> (dec_issuer_record(d@) matches Some((_, rest)) && rest.len() == 0),
        r matches Some(v) ==> dec_issuer_record(d@) == Some((v@, Seq::<u8>::empty())),
{
    assert(d@.skip(0) =~= d@);
    match read_issuer_record(d, 0) {
        None => None,
        Some((v, p)) => {
            if p == d.len() {
                assert(d@.skip(p as int) =~= Seq::<u8>::empty());
                Some(v)
            } else {
                None
            }
        },
    }
}

/// Decodes a [`IssuerRecord`] from the front of `d`, ignoring what follows it.
pub fn issuer_record_from_prefix(d: &[u8]) -> (r: Option<IssuerRecord>)
    ensures
        r is Some <==> dec_issuer_record(d@) is Some,
        r matches Some(v) ==> dec_issuer_record(d@) matches Some((m, _)) && m == v@,
{
    assert(d@.skip(0) =~= d@);
    match read_issuer_record(d, 0) {
        None => None,
        Some((v, _)) => Some(v),
    }
}

/// Serialises a [`IssuerRecord`]; `None` when a length does not fit the `u32` prefix.
pub fn issuer_record_to_vec(v: &IssuerRecord) -> (r: Option<Vec<u8>>)
    ensures
        r is Some <==> fits_issuer_record(v@),
        r matches Some(b) ==> b@ == enc_issuer_record(v@),
{
    let mut out: Vec<u8> = Vec::new();
    if write_issuer_record(&mut out, v) {
        assert(out@ =~= enc_issuer_record(v@));
        Some(out)
    } else {
        None
    }
}

/// Encrypted transaction payload envelope. The additional authenticated data holds the
/// transaction signature (bytes 0..32) and the subnet id (bytes 32..64).
#[derive(Clone, Debug, PartialEq, Eq)]
pub struct EncryptedPayloadEnvelope {
    pub version: u8,
    pub tier: u8,
    pub key_id: [u8; 32],
    pub nonce: [u8; 12],
    pub ciphertext: Vec<u8>,
    pub tag: [u8; 16],
    pub aad: [u8; 64],
}

/// Mathematical model of [`EncryptedPayloadEnvelope`].
#[verifier::ext_equal]
pub struct EncryptedPayloadEnvelopeModel {
    pub version: u8,
    pub tier: u8,
    pub key_id: [u8; 32],
    pub nonce: [u8; 12],
    pub ciphertext: Seq<u8>,
    pub tag: [u8; 16],
    pub aad: [u8; 64],
}

impl View for EncryptedPayloadEnvelope {
    type V = EncryptedPayloadEnvelopeModel;

    open spec fn view(&self) -> EncryptedPayloadEnvelopeModel {
        EncryptedPayloadEnvelopeModel {
            version: self.version,
            tier: self.tier,
            key_id: self.key_id,
            nonce: self.nonce,
            ciphertext: self.ciphertext@,
            tag: self.tag,
            aad: self.aad,
        }
    }
}

#[verifier::opaque]
pub open spec fn enc_encrypted_payload_envelope(v: EncryptedPayloadEnvelopeModel) -> Seq<u8> {
    enc_u8(v.version) + (enc_u8(v.tier) + (enc_arr::<32>(v.key_id) + (enc_arr::<12>(v.nonce) + (enc_bytes(v.ciphertext) + (enc_arr::<16>(v.tag) + (enc_arr::<64>(v.aad)))))))
}

#[verifier::opaque]
pub open spec fn dec_encrypted_payload_envelope(s: Seq<u8>) -> Option<(EncryptedPayloadEnvelopeModel, Seq<u8>)> {
    match dec_u8(s) {
            Some((version, r1)) => match dec_u8(r1) {
            Some((tier, r2)) => match dec_arr::<32>(r2) {
            Some((key_id, r3)) => match dec_arr::<12>(r3) {
            Some((nonce, r4)) => match dec_bytes(r4) {
            Some((ciphertext, r5)) => match dec_arr::<16>(r5) {
            Some((tag, r6)) => match dec_arr::<64>(r6) {
            Some((aad, r7)) => Some((EncryptedPayloadEnvelopeModel { version, tier, key_id, nonce, ciphertext, tag, aad }, r7)),
            None => None,
        },
            None => None,
        },
            None => None,
        },
            None => None,
        },
            None => None,
        },
            None => None,
        },
            None => None,
        }
}

pub open spec fn fits_encrypted_payload_envelope(v: EncryptedPayloadEnvelopeModel) -> bool {
    fits_u32(v.ciphertext.len())
}

pub fn read_encrypted_payload_envelope(d: &[u8], pos: usize) -> (r: Option<(EncryptedPayloadEnvelope, usize)>)
    requires
        pos <= d@.len(),
    ensures
        match r {
            None => dec_encrypted_payload_envelope(d@.skip(pos as int)) is None,
            Some((v, p)) => p <= d@.len() && dec_encrypted_payload_envelope(d@.skip(pos as int)) == Some((v@, d@.skip(p as int))),
        },
{
    proof {
        reveal(dec_encrypted_payload_envelope);
    }
    match read_u8(d, pos) {
        None => None,
        Some((version, p1)) => match read_u8(d, p1) {
        None => None,
        Some((tier, p2)) => match read_arr::<32>(d, p2) {
        None => None,
        Some((key_id, p3)) => match read_arr::<12>(d, p3) {
        None => None,
        Some((nonce, p4)) => match read_bytes(d, p4) {
        None => None,
        Some((ciphertext, p5)) => match read_arr::<16>(d, p5) {
        None => None,
        Some((tag, p6)) => match read_arr::<64>(d, p6) {
        None => None,
        Some((aad, p7)) => Some((EncryptedPayloadEnvelope { version, tier, key_id, nonce, ciphertext, tag, aad }, p7)),
    },
    },
    },
    },
    },
    },
    }
}

pub fn write_encrypted_payload_envelope(out: &mut Vec<u8>, v: &EncryptedPayloadEnvelope) -> (ok: bool)
    ensures
        ok == fits_encrypted_payload_envelope(v@),
        ok ==> final(out)@ == old(out)@ + enc_encrypted_payload_envelope(v@),
{
    proof {
        reveal(enc_encrypted_payload_envelope);
    }
    write_u8(out, *&v.version);
    let ghost o0 = out@;
    write_u8(out, *&v.tier);
    let ghost o1 = out@;
    write_arr::<32>(out, &v.key_id);
    let ghost o2 = out@;
    write_arr::<12>(out, &v.nonce);
    let ghost o3 = out@;
    if !write_bytes(out, &v.ciphertext.as_slice()) { return false; }
    let ghost o4 = out@;
    write_arr::<16>(out, &v.tag);
    let ghost o5 = out@;
    write_arr::<64>(out, &v.aad);
    let ghost o6 = out@;
    proof {
        lemma_assoc(o4, enc_arr::<16>(v@.tag), enc_arr::<64>(v@.aad));
        lemma_assoc(o3, enc_bytes(v@.ciphertext), enc_arr::<16>(v@.tag) + (enc_arr::<64>(v@.aad)));
        lemma_assoc(o2, enc_arr::<12>(v@.nonce), enc_bytes(v@.ciphertext) + (enc_arr::<16>(v@.tag) + (enc_arr::<64>(v@.aad))));
        lemma_assoc(o1, enc_arr::<32>(v@.key_id), enc_arr::<12>(v@.nonce) + (enc_bytes(v@.ciphertext) + (enc_arr::<16>(v@.tag) + (enc_arr::<64>(v@.aad)))));
        lemma_assoc(o0, enc_u8(v@.tier), enc_arr::<32>(v@.key_id) + (enc_arr::<12>(v@.nonce) + (enc_bytes(v@.ciphertext) + (enc_arr::<16>(v@.tag) + (enc_arr::<64>(v@.aad))))));
        lemma_assoc(old(out)@, enc_u8(v@.version), enc_u8(v@.tier) + (enc_arr::<32>(v@.key_id) + (enc_arr::<12>(v@.nonce) + (enc_bytes(v@.ciphertext) + (enc_arr::<16>(v@.tag) + (enc_arr::<64>(v@.aad)))))));
    }
    true
}

pub proof fn lemma_encrypted_payload_envelope(v: EncryptedPayloadEnvelopeModel, rest: Seq<u8>)
    requires
        fits_encrypted_payload_envelope(v),
    ensures
        dec_encrypted_payload_envelope(enc_encrypted_payload_envelope(v) + rest) == Some((v, rest)),
{
    reveal(enc_encrypted_payload_envelope);
    reveal(dec_encrypted_payload_envelope);
    lemma_assoc(enc_u8(v.version), enc_u8(v.tier) + (enc_arr::<32>(v.key_id) + (enc_arr::<12>(v.nonce) + (enc_bytes(v.ciphertext) + (enc_arr::<16>(v.tag) + (enc_arr::<64>(v.aad)))))), rest);
    lemma_u8(v.version, enc_u8(v.tier) + (enc_arr::<32>(v.key_id) + (enc_arr::<12>(v.nonce) + (enc_bytes(v.ciphertext) + (enc_arr::<16>(v.tag) + (enc_arr::<64>(v.aad)))))) + rest);
    lemma_assoc(enc_u8(v.tier), enc_arr::<32>(v.key_id) + (enc_arr::<12>(v.nonce) + (enc_bytes(v.ciphertext) + (enc_arr::<16>(v.tag) + (enc_arr::<64>(v.aad))))), rest);
    lemma_u8(v.tier, enc_arr::<32>(v.key_id) + (enc_arr::<12>(v.nonce) + (enc_bytes(v.ciphertext) + (enc_arr::<16>(v.tag) + (enc_arr::<64>(v.aad))))) + rest);
    lemma_assoc(enc_arr::<32>(v.key_id), enc_arr::<12>(v.nonce) + (enc_bytes(v.ciphertext) + (enc_arr::<16>(v.tag) + (enc_arr::<64>(v.aad)))), rest);
    lemma_arr::<32>(v.key_id, enc_arr::<12>(v.nonce) + (enc_bytes(v.ciphertext) + (enc_arr::<16>(v.tag) + (enc_arr::<64>(v.aad)))) + rest);
    lemma_assoc(enc_arr::<12>(v.nonce), enc_bytes(v.ciphertext) + (enc_arr::<16>(v.tag) + (enc_arr::<64>(v.aad))), rest);
    lemma_arr::<12>(v.nonce, enc_bytes(v.ciphertext) + (enc_arr::<16>(v.tag) + (enc_arr::<64>(v.aad))) + rest);
    lemma_assoc(enc_bytes(v.ciphertext), enc_arr::<16>(v.tag) + (enc_arr::<64>(v.aad)), rest);
    lemma_bytes(v.ciphertext, enc_arr::<16>(v.tag) + (enc_arr::<64>(v.aad)) + rest);
    lemma_assoc(enc_arr::<16>(v.tag), enc_arr::<64>(v.aad), rest);
    lemma_arr::<16>(v.tag, enc_arr::<64>(v.aad) + rest);
    lemma_arr::<64>(v.aad, rest);
}

/// Decodes a [`EncryptedPayloadEnvelope`] that must take up all of `d`.
pub fn encrypted_payload_envelope_from_slice(d: &[u8]) -> (r: Option<EncryptedPayloadEnvelope>)
    ensures
        r is Some <==> (dec_encrypted_payload_envelope(d@) matches Some((_, rest)) && rest.len() == 0),
        r matches Some(v) ==> dec_encrypted_payload_envelope(d@) == Some((v@, Seq::<u8>::empty())),
{
    assert(d@.skip(0) =~= d@);
    match read_encrypted_payload_envelope(d, 0) {
        None => None,
        Some((v, p)) => {
            if p == d.len() {
                assert(d@.skip(p as int) =~= Seq::<u8>::empty());
                Some(v)
            } else {
                None
            }
        },
    }
}

/// Decodes a [`EncryptedPayloadEnvelope`] from the front of `d`, ignoring what follows it.
pub fn encrypted_payload_envelope_from_prefix(d: &[u8]) -> (r: Option<EncryptedPayloadEnvelope>)
    ensures
        r is Some <==> dec_encrypted_payload_envelope(d@) is Some,
        r matches Some(v) ==> dec_encrypted_payload_envelope(d@) matches Some((m, _)) && m == v@,
{
    assert(d@.skip(0) =~= d@);
    match read_encrypted_payload_envelope(d, 0) {
        None => None,
        Some((v, _)) => Some(v),
    }
}

/// Serialises a [`EncryptedPayloadEnvelope`]; `None` when a length does not fit the `u32` prefix.
pub fn encrypted_payload_envelope_to_vec(v: &EncryptedPayloadEnvelope) -> (r: Option<Vec<u8>>)
    ensures
        r is Some <==> fits_encrypted_payload_envelope(v@),
        r matches Some(b) ==> b@ == enc_encrypted_payload_envelope(v@),
{
    let mut out: Vec<u8> = Vec::new();
    if write_encrypted_payload_envelope(&mut out, v) {
        assert(out@ =~= enc_encrypted_payload_envelope(v@));
        Some(out)
    } else {
        None
    }
}

/// What a key is used for.
#[derive(Clone, Copy, Debug, PartialEq, Eq, Structural)]
pub enum KeyType {
    SessionKey,
    RotationKey,
    NodeKey,
    HardwareKey,
}

#[verifier::opaque]
pub open spec fn enc_key_type(v: KeyType) -> Seq<u8> {
    match v {
        KeyType::SessionKey => seq![0u8],
        KeyType::RotationKey => seq![1u8],
        KeyType::NodeKey => seq![2u8],
        KeyType::HardwareKey => seq![3u8],
    }
}

#[verifier::opaque]
pub open spec fn dec_key_type(s: Seq<u8>) -> Option<(KeyType, Seq<u8>)> {
    if s.len() == 0 {
        None
    } else if s[0] == 0 {
        Some((KeyType::SessionKey, s.skip(1)))
    } else if s[0] == 1 {
        Some((KeyType::RotationKey, s.skip(1)))
    } else if s[0] == 2 {
        Some((KeyType::NodeKey, s.skip(1)))
    } else if s[0] == 3 {
        Some((KeyType::HardwareKey, s.skip(1)))
    } else { None }
}

pub fn read_key_type(d: &[u8], pos: usize) -> (r: Option<(KeyType, usize)>)
    requires
        pos <= d@.len(),
    ensures
        read_ok(dec_key_type(d@.skip(pos as int)), r, d@),
{
    proof {
        reveal(dec_key_type);
    }
    match read_u8(d, pos) {
        None => None,
        Some((tag, p0)) => {
            proof {
                lemma_skip_skip(d@, pos as int, 1);
            }
            match tag {
            0 => Some((KeyType::SessionKey, p0)),
            1 => Some((KeyType::RotationKey, p0)),
            2 => Some((KeyType::NodeKey, p0)),
            3 => Some((KeyType::HardwareKey, p0)),
            _ => None,
            }
        },
    }
}

pub fn write_key_type(out: &mut Vec<u8>, v: &KeyType)
    ensures
        final(out)@ == old(out)@ + enc_key_type(*v),
{
    proof {
        reveal(enc_key_type);
    }
    match v {
        KeyType::SessionKey => {
            out.push(0u8);
            assert(out@ =~= old(out)@ + seq![0u8]);
        },
        KeyType::RotationKey => {
            out.push(1u8);
            assert(out@ =~= old(out)@ + seq![1u8]);
        },
        KeyType::NodeKey => {
            out.push(2u8);
            assert(out@ =~= old(out)@ + seq![2u8]);
        },
        KeyType::HardwareKey => {
            out.push(3u8);
            assert(out@ =~= old(out)@ + seq![3u8]);
        },
    }
}

pub proof fn lemma_key_type(v: KeyType, rest: Seq<u8>)
    ensures
        dec_key_type(enc_key_type(v) + rest) == Some((v, rest)),
{
    reveal(enc_key_type);
    reveal(dec_key_type);
    match v {
        KeyType::SessionKey => {
            assert((enc_key_type(v) + rest).skip(1) =~= rest);
        },
        KeyType::RotationKey => {
            assert((enc_key_type(v) + rest).skip(1) =~= rest);
        },
        KeyType::NodeKey => {
            assert((enc_key_type(v) + rest).skip(1) =~= rest);
        },
        KeyType::HardwareKey => {
            assert((enc_key_type(v) + rest).skip(1) =~= rest);
        },
    }
}

/// Signing or key-agreement algorithm.
#[derive(Clone, Copy, Debug, PartialEq, Eq, Structural)]
pub enum KeyAlgorithm {
    Ed25519,
    X25519,
    Secp256k1,
    Dilithium3,
    Falcon512,
}

#[verifier::opaque]
pub open spec fn enc_key_algorithm(v: KeyAlgorithm) -> Seq<u8> {
    match v {
        KeyAlgorithm::Ed25519 => seq![0u8],
        KeyAlgorithm::X25519 => seq![1u8],
        KeyAlgorithm::Secp256k1 => seq![2u8],
        KeyAlgorithm::Dilithium3 => seq![3u8],
        KeyAlgorithm::Falcon512 => seq![4u8],
    }
}

#[verifier::opaque]
pub open spec fn dec_key_algorithm(s: Seq<u8>) -> Option<(KeyAlgorithm, Seq<u8>)> {
    if s.len() == 0 {
        None
    } else if s[0] == 0 {
        Some((KeyAlgorithm::Ed25519, s.skip(1)))
    } else if s[0] == 1 {
        Some((KeyAlgorithm::X25519, s.skip(1)))
    } else if s[0] == 2 {
        Some((KeyAlgorithm::Secp256k1, s.skip(1)))
    } else if s[0] == 3 {
        Some((KeyAlgorithm::Dilithium3, s.skip(1)))
    } else if s[0] == 4 {
        Some((KeyAlgorithm::Falcon512, s.skip(1)))
    } else { None }
}

pub fn read_key_algorithm(d: &[u8], pos: usize) -> (r: Option<(KeyAlgorithm, usize)>)
    requires
        pos <= d@.len(),
    ensures
        read_ok(dec_key_algorithm(d@.skip(pos as int)), r, d@),
{
    proof {
        reveal(dec_key_algorithm);
    }
    match read_u8(d, pos) {
        None => None,
        Some((tag, p0)) => {
            proof {
                lemma_skip_skip(d@, pos as int, 1);
            }
            match tag {
            0 => Some((KeyAlgorithm::Ed25519, p0)),
            1 => Some((KeyAlgorithm::X25519, p0)),
            2 => Some((KeyAlgorithm::Secp256k1, p0)),
            3 => Some((KeyAlgorithm::Dilithium3, p0)),
            4 => Some((KeyAlgorithm::Falcon512, p0)),
            _ => None,
            }
        },
    }
}

pub fn write_key_algorithm(out: &mut Vec<u8>, v: &KeyAlgorithm)
    ensures
        final(out)@ == old(out)@ + enc_key_algorithm(*v),
{
    proof {
        reveal(enc_key_algorithm);
    }
    match v {
        KeyAlgorithm::Ed25519 => {
            out.push(0u8);
            assert(out@ =~= old(out)@ + seq![0u8]);
        },
        KeyAlgorithm::X25519 => {
            out.push(1u8);
            assert(out@ =~= old(out)@ + seq![1u8]);
        },
        KeyAlgorithm::Secp256k1 => {
            out.push(2u8);
            assert(out@ =~= old(out)@ + seq![2u8]);
        },
        KeyAlgorithm::Dilithium3 => {
            out.push(3u8);
            assert(out@ =~= old(out)@ + seq![3u8]);
        },
        KeyAlgorithm::Falcon512 => {
            out.push(4u8);
            assert(out@ =~= old(out)@ + seq![4u8]);
        },
    }
}

pub proof fn lemma_key_algorithm(v: KeyAlgorithm, rest: Seq<u8>)
    ensures
        dec_key_algorithm(enc_key_algorithm(v) + rest) == Some((v, rest)),
{
    reveal(enc_key_algorithm);
    reveal(dec_key_algorithm);
    match v {
        KeyAlgorithm::Ed25519 => {
            assert((enc_key_algorithm(v) + rest).skip(1) =~= rest);
        },
        KeyAlgorithm::X25519 => {
            assert((enc_key_algorithm(v) + rest).skip(1) =~= rest);
        },
        KeyAlgorithm::Secp256k1 => {
            assert((enc_key_algorithm(v) + rest).skip(1) =~= rest);
        },
        KeyAlgorithm::Dilithium3 => {
            assert((enc_key_algorithm(v) + rest).skip(1) =~= rest);
        },
        KeyAlgorithm::Falcon512 => {
            assert((enc_key_algorithm(v) + rest).skip(1) =~= rest);
        },
    }
}

/// Lifecycle state of a key. `Rotated`, `Revoked` and `Compromised` are terminal.
#[derive(Clone, Copy, Debug, PartialEq, Eq, Structural)]
pub enum KeyState {
    Active,
    PendingRotation,
    Rotated,
    Revoked,
    Compromised,
}

#[verifier::opaque]
pub open spec fn enc_key_state(v: KeyState) -> Seq<u8> {
    match v {
        KeyState::Active => seq![0u8],
        KeyState::PendingRotation => seq![1u8],
        KeyState::Rotated => seq![2u8],
        KeyState::Revoked => seq![3u8],
        KeyState::Compromised => seq![4u8],
    }
}

#[verifier::opaque]
pub open spec fn dec_key_state(s: Seq<u8>) -> Option<(KeyState, Seq<u8>)> {
    if s.len() == 0 {
        None
    } else if s[0] == 0 {
        Some((KeyState::Active, s.skip(1)))
    } else if s[0] == 1 {
        Some((KeyState::PendingRotation, s.skip(1)))
    } else if s[0] == 2 {
        Some((KeyState::Rotated, s.skip(1)))
    } else if s[0] == 3 {
        Some((KeyState::Revoked, s.skip(1)))
    } else if s[0] == 4 {
        Some((KeyState::Compromised, s.skip(1)))
    } else { None }
}

pub fn read_key_state(d: &[u8], pos: usize) -> (r: Option<(KeyState, usize)>)
    requires
        pos <= d@.len(),
    ensures
        read_ok(dec_key_state(d@.skip(pos as int)), r, d@),
{
    proof {
        reveal(dec_key_state);
    }
    match read_u8(d, pos) {
        None => None,
        Some((tag, p0)) => {
            proof {
                lemma_skip_skip(d@, pos as int, 1);
            }
            match tag {
            0 => Some((KeyState::Active, p0)),
            1 => Some((KeyState::PendingRotation, p0)),
            2 => Some((KeyState::Rotated, p0)),
            3 => Some((KeyState::Revoked, p0)),
            4 => Some((KeyState::Compromised, p0)),
            _ => None,
            }
        },
    }
}

pub fn write_key_state(out: &mut Vec<u8>, v: &KeyState)
    ensures
        final(out)@ == old(out)@ + enc_key_state(*v),
{
    proof {
        reveal(enc_key_state);
    }
    match v {
        KeyState::Active => {
            out.push(0u8);
            assert(out@ =~= old(out)@ + seq![0u8]);
        },
        KeyState::PendingRotation => {
            out.push(1u8);
            assert(out@ =~= old(out)@ + seq![1u8]);
        },
        KeyState::Rotated => {
            out.push(2u8);
            assert(out@ =~= old(out)@ + seq![2u8]);
        },
        KeyState::Revoked => {
            out.push(3u8);
            assert(out@ =~= old(out)@ + seq![3u8]);
        },
        KeyState::Compromised => {
            out.push(4u8);
            assert(out@ =~= old(out)@ + seq![4u8]);
        },
    }
}

pub proof fn lemma_key_state(v: KeyState, rest: Seq<u8>)
    ensures
        dec_key_state(enc_key_state(v) + rest) == Some((v, rest)),
{
    reveal(enc_key_state);
    reveal(dec_key_state);
    match v {
        KeyState::Active => {
            assert((enc_key_state(v) + rest).skip(1) =~= rest);
        },
        KeyState::PendingRotation => {
            assert((enc_key_state(v) + rest).skip(1) =~= rest);
        },
        KeyState::Rotated => {
            assert((enc_key_state(v) + rest).skip(1) =~= rest);
        },
        KeyState::Revoked => {
            assert((enc_key_state(v) + rest).skip(1) =~= rest);
        },
        KeyState::Compromised => {
            assert((enc_key_state(v) + rest).skip(1) =~= rest);
        },
    }
}

/// A named capability binding a clearance range to subnets.
#[derive(Clone, Debug, PartialEq, Eq)]
pub struct RoleEntry {
    pub role_id: [u8; 32],
    pub authority: Pubkey,
    pub label: String,
    pub min_clearance: ClearanceTier,
    pub max_clearance: ClearanceTier,
    pub subnet_bindings: Vec<[u8; 32]>,
    pub created_at_slot: u64,
    pub is_active: bool,
}

/// Mathematical model of [`RoleEntry`].
#[verifier::ext_equal]
pub struct RoleEntryModel {
    pub role_id: [u8; 32],
    pub authority: Pubkey,
    pub label: Seq<char>,
    pub min_clearance: ClearanceTier,
    pub max_clearance: ClearanceTier,
    pub subnet_bindings: Seq<[u8; 32]>,
    pub created_at_slot: u64,
    pub is_active: bool,
}

impl View for RoleEntry {
    type V = RoleEntryModel;

    open spec fn view(&self) -> RoleEntryModel {
        RoleEntryModel {
            role_id: self.role_id,
            authority: self.authority,
            label: self.label@,
            min_clearance: self.min_clearance,
            max_clearance: self.max_clearance,
            subnet_bindings: self.subnet_bindings@,
            created_at_slot: self.created_at_slot,
            is_active: self.is_active,
        }
    }
}

#[verifier::opaque]
pub open spec fn enc_role_entry(v: RoleEntryModel) -> Seq<u8> {
    enc_arr::<32>(v.role_id) + (enc_pubkey(v.authority) + (enc_string(v.label) + (enc_clearance_tier(v.min_clearance) + (enc_clearance_tier(v.max_clearance) + (enc_vec_arr32(v.subnet_bindings) + (enc_u64(v.created_at_slot) + (enc_bool(v.is_active))))))))
}

#[verifier::opaque]
pub open spec fn dec_role_entry(s: Seq<u8>) -> Option<(RoleEntryModel, Seq<u8>)> {
    match dec_arr::<32>(s) {
            Some((role_id, r1)) => match dec_pubkey(r1) {
            Some((authority, r2)) => match dec_string(r2) {
            Some((label, r3)) => match dec_clearance_tier(r3) {
            Some((min_clearance, r4)) => match dec_clearance_tier(r4) {
            Some((max_clearance, r5)) => match dec_vec_arr32(r5) {
            Some((subnet_bindings, r6)) => match dec_u64(r6) {
            Some((created_at_slot, r7)) => match dec_bool(r7) {
            Some((is_active, r8)) => Some((RoleEntryModel { role_id, authority, label, min_clearance, max_clearance, subnet_bindings, created_at_slot, is_active }, r8)),
            None => None,
        },
            None => None,
        },
            None => None,
        },
            None => None,
        },
            None => None,
        },
            None => None,
        },
            None => None,
        },
            None => None,
        }
}

pub open spec fn fits_role_entry(v: RoleEntryModel) -> bool {
    fits_string(v.label) && fits_vec_arr32(v.subnet_bindings)
}

pub fn read_role_entry(d: &[u8], pos: usize) -> (r: Option<(RoleEntry, usize)>)
    requires
        pos <= d@.len(),
    ensures
        match r {
            None => dec_role_entry(d@.skip(pos as int)) is None,
            Some((v, p)) => p <= d@.len() && dec_role_entry(d@.skip(pos as int)) == Some((v@, d@.skip(p as int))),
        },
{
    proof {
        reveal(dec_role_entry);
    }
    match read_arr::<32>(d, pos) {
        None => None,
        Some((role_id, p1)) => match read_pubkey(d, p1) {
        None => None,
        Some((authority, p2)) => match read_string(d, p2) {
        None => None,
        Some((label, p3)) => match read_clearance_tier(d, p3) {
        None => None,
        Some((min_clearance, p4)) => match read_clearance_tier(d, p4) {
        None => None,
        Some((max_clearance, p5)) => match read_vec_arr32(d, p5) {
        None => None,
        Some((subnet_bindings, p6)) => match read_u64(d, p6) {
        None => None,
        Some((created_at_slot, p7)) => match read_bool(d, p7) {
        None => None,
        Some((is_active, p8)) => Some((RoleEntry { role_id, authority, label, min_clearance, max_clearance, subnet_bindings, created_at_slot, is_active }, p8)),
    },
    },
    },
    },
    },
    },
    },
    }
}

pub fn write_role_entry(out: &mut Vec<u8>, v: &RoleEntry) -> (ok: bool)
    ensures
        ok == fits_role_entry(v@),
        ok ==> final(out)@ == old(out)@ + enc_role_entry(v@),
{
    proof {
        reveal(enc_role_entry);
    }
    write_arr::<32>(out, &v.role_id);
    let ghost o0 = out@;
    write_pubkey(out, &v.authority);
    let ghost o1 = out@;
    if !write_string(out, &v.label) { return false; }
    let ghost o2 = out@;
    write_clearance_tier(out, &v.min_clearance);
    let ghost o3 = out@;
    write_clearance_tier(out, &v.max_clearance);
    let ghost o4 = out@;
    if !write_vec_arr32(out, &v.subnet_bindings) { return false; }
    let ghost o5 = out@;
    write_u64(out, *&v.created_at_slot);
    let ghost o6 = out@;
    write_bool(out, *&v.is_active);
    let ghost o7 = out@;
    proof {
        lemma_assoc(o5, enc_u64(v@.created_at_slot), enc_bool(v@.is_active));
        lemma_assoc(o4, enc_vec_arr32(v@.subnet_bindings), enc_u64(v@.created_at_slot) + (enc_bool(v@.is_active)));
        lemma_assoc(o3, enc_clearance_tier(v@.max_clearance), enc_vec_arr32(v@.subnet_bindings) + (enc_u64(v@.created_at_slot) + (enc_bool(v@.is_active))));
        lemma_assoc(o2, enc_clearance_tier(v@.min_clearance), enc_clearance_tier(v@.max_clearance) + (enc_vec_arr32(v@.subnet_bindings) + (enc_u64(v@.created_at_slot) + (enc_bool(v@.is_active)))));
        lemma_assoc(o1, enc_string(v@.label), enc_clearance_tier(v@.min_clearance) + (enc_clearance_tier(v@.max_clearance) + (enc_vec_arr32(v@.subnet_bindings) + (enc_u64(v@.created_at_slot) + (enc_bool(v@.is_active))))));
        lemma_assoc(o0, enc_pubkey(v@.authority), enc_string(v@.label) + (enc_clearance_tier(v@.min_clearance) + (enc_clearance_tier(v@.max_clearance) + (enc_vec_arr32(v@.subnet_bindings) + (enc_u64(v@.created_at_slot) + (enc_bool(v@.is_active)))))));
        lemma_assoc(old(out)@, enc_arr::<32>(v@.role_id), enc_pubkey(v@.authority) + (enc_string(v@.label) + (enc_clearance_tier(v@.min_clearance) + (enc_clearance_tier(v@.max_clearance) + (enc_vec_arr32(v@.subnet_bindings) + (enc_u64(v@.created_at_slot) + (enc_bool(v@.is_active))))))));
    }
    true
}

pub proof fn lemma_role_entry(v: RoleEntryModel, rest: Seq<u8>)
    requires
        fits_role_entry(v),
    ensures
        dec_role_entry(enc_role_entry(v) + rest) == Some((v, rest)),
{
    reveal(enc_role_entry);
    reveal(dec_role_entry);
    lemma_assoc(enc_arr::<32>(v.role_id), enc_pubkey(v.authority) + (enc_string(v.label) + (enc_clearance_tier(v.min_clearance) + (enc_clearance_tier(v.max_clearance) + (enc_vec_arr32(v.subnet_bindings) + (enc_u64(v.created_at_slot) + (enc_bool(v.is_active))))))), rest);
    lemma_arr::<32>(v.role_id, enc_pubkey(v.authority) + (enc_string(v.label) + (enc_clearance_tier(v.min_clearance) + (enc_clearance_tier(v.max_clearance) + (enc_vec_arr32(v.subnet_bindings) + (enc_u64(v.created_at_slot) + (enc_bool(v.is_active))))))) + rest);
    lemma_assoc(enc_pubkey(v.authority), enc_string(v.label) + (enc_clearance_tier(v.min_clearance) + (enc_clearance_tier(v.max_clearance) + (enc_vec_arr32(v.subnet_bindings) + (enc_u64(v.created_at_slot) + (enc_bool(v.is_active)))))), rest);
    lemma_pubkey(v.authority, enc_string(v.label) + (enc_clearance_tier(v.min_clearance) + (enc_clearance_tier(v.max_clearance) + (enc_vec_arr32(v.subnet_bindings) + (enc_u64(v.created_at_slot) + (enc_bool(v.is_active)))))) + rest);
    lemma_assoc(enc_string(v.label), enc_clearance_tier(v.min_clearance) + (enc_clearance_tier(v.max_clearance) + (enc_vec_arr32(v.subnet_bindings) + (enc_u64(v.created_at_slot) + (enc_bool(v.is_active))))), rest);
    lemma_string(v.label, enc_clearance_tier(v.min_clearance) + (enc_clearance_tier(v.max_clearance) + (enc_vec_arr32(v.subnet_bindings) + (enc_u64(v.created_at_slot) + (enc_bool(v.is_active))))) + rest);
    lemma_assoc(enc_clearance_tier(v.min_clearance), enc_clearance_tier(v.max_clearance) + (enc_vec_arr32(v.subnet_bindings) + (enc_u64(v.created_at_slot) + (enc_bool(v.is_active)))), rest);
    lemma_clearance_tier(v.min_clearance, enc_clearance_tier(v.max_clearance) + (enc_vec_arr32(v.subnet_bindings) + (enc_u64(v.created_at_slot) + (enc_bool(v.is_active)))) + rest);
    lemma_assoc(enc_clearance_tier(v.max_clearance), enc_vec_arr32(v.subnet_bindings) + (enc_u64(v.created_at_slot) + (enc_bool(v.is_active))), rest);
    lemma_clearance_tier(v.max_clearance, enc_vec_arr32(v.subnet_bindings) + (enc_u64(v.created_at_slot) + (enc_bool(v.is_active))) + rest);
    lemma_assoc(enc_vec_arr32(v.subnet_bindings), enc_u64(v.created_at_slot) + (enc_bool(v.is_active)), rest);
    lemma_vec_arr32(v.subnet_bindings, enc_u64(v.created_at_slot) + (enc_bool(v.is_active)) + rest);
    lemma_assoc(enc_u64(v.created_at_slot), enc_bool(v.is_active), rest);
    lemma_u64(v.created_at_slot, enc_bool(v.is_active) + rest);
    lemma_bool(v.is_active, rest);
}

/// Decodes a [`RoleEntry`] that must take up all of `d`.
pub fn role_entry_from_slice(d: &[u8]) -> (r: Option<RoleEntry>)
    ensures
        r is Some <==> (dec_role_entry(d@) matches Some((_, rest)) && rest.len() == 0),
        r matches Some(v) ==> dec_role_entry(d@) == Some((v@, Seq::<u8>::empty())),
{
    assert(d@.skip(0) =~= d@);
    match read_role_entry(d, 0) {
        None => None,
        Some((v, p)) => {
            if p == d.len() {
                assert(d@.skip(p as int) =~= Seq::<u8>::empty());
                Some(v)
            } else {
                None
            }
        },
    }
}

/// Decodes a [`RoleEntry`] from the front of `d`, ignoring what follows it.
pub fn role_entry_from_prefix(d: &[u8]) -> (r: Option<RoleEntry>)
    ensures
        r is Some <==> dec_role_entry(d@) is Some,
        r matches Some(v) ==> dec_role_entry(d@) matches Some((m, _)) && m == v@,
{
    assert(d@.skip(0) =~= d@);
    match read_role_entry(d, 0) {
        None => None,
        Some((v, _)) => Some(v),
    }
}

/// Serialises a [`RoleEntry`]; `None` when a length does not fit the `u32` prefix.
pub fn role_entry_to_vec(v: &RoleEntry) -> (r: Option<Vec<u8>>)
    ensures
        r is Some <==> fits_role_entry(v@),
        r matches Some(b) ==> b@ == enc_role_entry(v@),
{
    let mut out: Vec<u8> = Vec::new();
    if write_role_entry(&mut out, v) {
        assert(out@ =~= enc_role_entry(v@));
        Some(out)
    } else {
        None
    }
}

/// Records that a wallet has been assigned a role.
#[derive(Clone, Copy, Debug, PartialEq, Eq)]
pub struct WalletRoleAssignment {
    pub wallet: Pubkey,
    pub role_id: [u8; 32],
    pub assigned_at_slot: u64,
    pub assigned_by: Pubkey,
    pub is_active: bool,
}

#[verifier::opaque]
pub open spec fn enc_wallet_role_assignment(v: WalletRoleAssignment) -> Seq<u8> {
    enc_pubkey(v.wallet) + (enc_arr::<32>(v.role_id) + (enc_u64(v.assigned_at_slot) + (enc_pubkey(v.assigned_by) + (enc_bool(v.is_active)))))
}

#[verifier::opaque]
pub open spec fn dec_wallet_role_assignment(s: Seq<u8>) -> Option<(WalletRoleAssignment, Seq<u8>)> {
    match dec_pubkey(s) {
            Some((wallet, r1)) => match dec_arr::<32>(r1) {
            Some((role_id, r2)) => match dec_u64(r2) {
            Some((assigned_at_slot, r3)) => match dec_pubkey(r3) {
            Some((assigned_by, r4)) => match dec_bool(r4) {
            Some((is_active, r5)) => Some((WalletRoleAssignment { wallet, role_id, assigned_at_slot, assigned_by, is_active }, r5)),
            None => None,
        },
            None => None,
        },
            None => None,
        },
            None => None,
        },
            None => None,
        }
}

pub fn read_wallet_role_assignment(d: &[u8], pos: usize) -> (r: Option<(WalletRoleAssignment, usize)>)
    requires
        pos <= d@.len(),
    ensures
        read_ok(dec_wallet_role_assignment(d@.skip(pos as int)), r, d@),
{
    proof {
        reveal(dec_wallet_role_assignment);
    }
    match read_pubkey(d, pos) {
        None => None,
        Some((wallet, p1)) => match read_arr::<32>(d, p1) {
        None => None,
        Some((role_id, p2)) => match read_u64(d, p2) {
        None => None,
        Some((assigned_at_slot, p3)) => match read_pubkey(d, p3) {
        None => None,
        Some((assigned_by, p4)) => match read_bool(d, p4) {
        None => None,
        Some((is_active, p5)) => Some((WalletRoleAssignment { wallet, role_id, assigned_at_slot, assigned_by, is_active }, p5)),
    },
    },
    },
    },
    }
}

pub fn write_wallet_role_assignment(out: &mut Vec<u8>, v: &WalletRoleAssignment)
    ensures
        final(out)@ == old(out)@ + enc_wallet_role_assignment(*v),
{
    proof {
        reveal(enc_wallet_role_assignment);
    }
    write_pubkey(out, &v.wallet);
    let ghost o0 = out@;
    write_arr::<32>(out, &v.role_id);
    let ghost o1 = out@;
    write_u64(out, *&v.assigned_at_slot);
    let ghost o2 = out@;
    write_pubkey(out, &v.assigned_by);
    let ghost o3 = out@;
    write_bool(out, *&v.is_active);
    let ghost o4 = out@;
    proof {
        lemma_assoc(o2, enc_pubkey((*v).assigned_by), enc_bool((*v).is_active));
        lemma_assoc(o1, enc_u64((*v).assigned_at_slot), enc_pubkey((*v).assigned_by) + (enc_bool((*v).is_active)));
        lemma_assoc(o0, enc_arr::<32>((*v).role_id), enc_u64((*v).assigned_at_slot) + (enc_pubkey((*v).assigned_by) + (enc_bool((*v).is_active))));
        lemma_assoc(old(out)@, enc_pubkey((*v).wallet), enc_arr::<32>((*v).role_id) + (enc_u64((*v).assigned_at_slot) + (enc_pubkey((*v).assigned_by) + (enc_bool((*v).is_active)))));
    }
}

pub proof fn lemma_wallet_role_assignment(v: WalletRoleAssignment, rest: Seq<u8>)
    ensures
        dec_wallet_role_assignment(enc_wallet_role_assignment(v) + rest) == Some((v, rest)),
{
    reveal(enc_wallet_role_assignment);
    reveal(dec_wallet_role_assignment);
    lemma_assoc(enc_pubkey(v.wallet), enc_arr::<32>(v.role_id) + (enc_u64(v.assigned_at_slot) + (enc_pubkey(v.assigned_by) + (enc_bool(v.is_active)))), rest);
    lemma_pubkey(v.wallet, enc_arr::<32>(v.role_id) + (enc_u64(v.assigned_at_slot) + (enc_pubkey(v.assigned_by) + (enc_bool(v.is_active)))) + rest);
    lemma_assoc(enc_arr::<32>(v.role_id), enc_u64(v.assigned_at_slot) + (enc_pubkey(v.assigned_by) + (enc_bool(v.is_active))), rest);
    lemma_arr::<32>(v.role_id, enc_u64(v.assigned_at_slot) + (enc_pubkey(v.assigned_by) + (enc_bool(v.is_active))) + rest);
    lemma_assoc(enc_u64(v.assigned_at_slot), enc_pubkey(v.assigned_by) + (enc_bool(v.is_active)), rest);
    lemma_u64(v.assigned_at_slot, enc_pubkey(v.assigned_by) + (enc_bool(v.is_active)) + rest);
    lemma_assoc(enc_pubkey(v.assigned_by), enc_bool(v.is_active), rest);
    lemma_pubkey(v.assigned_by, enc_bool(v.is_active) + rest);
    lemma_bool(v.is_active, rest);
}

/// Decodes a [`WalletRoleAssignment`] that must take up all of `d`.
pub fn wallet_role_assignment_from_slice(d: &[u8]) -> (r: Option<WalletRoleAssignment>)
    ensures
        r is Some <==> (dec_wallet_role_assignment(d@) matches Some((_, rest)) && rest.len() == 0),
        r matches Some(v) ==> dec_wallet_role_assignment(d@) == Some((v, Seq::<u8>::empty())),
{
    assert(d@.skip(0) =~= d@);
    match read_wallet_role_assignment(d, 0) {
        None => None,
        Some((v, p)) => {
            if p == d.len() {
                assert(d@.skip(p as int) =~= Seq::<u8>::empty());
                Some(v)
            } else {
                None
            }
        },
    }
}

/// Decodes a [`WalletRoleAssignment`] from the front of `d`, ignoring what follows it.
pub fn wallet_role_assignment_from_prefix(d: &[u8]) -> (r: Option<WalletRoleAssignment>)
    ensures
        r is Some <==> dec_wallet_role_assignment(d@) is Some,
        r matches Some(v) ==> dec_wallet_role_assignment(d@) matches Some((m, _)) && m == v,
{
    assert(d@.skip(0) =~= d@);
    match read_wallet_role_assignment(d, 0) {
        None => None,
        Some((v, _)) => Some(v),
    }
}

/// Serialises a [`WalletRoleAssignment`].
pub fn wallet_role_assignment_to_vec(v: &WalletRoleAssignment) -> (r: Vec<u8>)
    ensures
        r@ == enc_wallet_role_assignment(*v),
{
    let mut out: Vec<u8> = Vec::new();
    write_wallet_role_assignment(&mut out, v);
    assert(out@ =~= enc_wallet_role_assignment(*v));
    out
}

} // verus!
