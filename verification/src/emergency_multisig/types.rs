//! Data types and their byte layout.
use vstd::prelude::*;
use crate::codec::{dec_arr, dec_bool, dec_pubkey, dec_u16, dec_u64, dec_u8, enc_arr, enc_bool, enc_pubkey, enc_u16, enc_u64, enc_u8, lemma_arr, lemma_assoc, lemma_bool, lemma_pubkey, lemma_skip_skip, lemma_u16, lemma_u64, lemma_u8, read_arr, read_bool, read_ok, read_pubkey, read_u16, read_u64, read_u8, write_arr, write_bool, write_pubkey, write_u16, write_u64, write_u8};
use crate::layout::{dec_vec_pubkey, enc_vec_pubkey, fits_vec_pubkey, lemma_vec_pubkey, read_vec_pubkey, write_vec_pubkey};
use crate::pubkey::{Pubkey};

verus! {

/// The action a proposal requests.
#[derive(Clone, Copy, Debug, PartialEq, Eq)]
pub enum ProposedAction {
    FreezeSubnet{ subnet_id: [u8; 32], reason_code: u16 },
    UnfreezeSubnet{ subnet_id: [u8; 32] },
    EmergencyRevokeKey{ key_id: [u8; 32], reason_code: u16 },
    UpgradeClearancePolicy{ tier_byte: u8, new_policy_hash: [u8; 32] },
}

#[verifier::opaque]
pub open spec fn enc_proposed_action(v: ProposedAction) -> Seq<u8> {
    match v {
        ProposedAction::FreezeSubnet{ subnet_id, reason_code } => seq![0u8] + (enc_arr::<32>(subnet_id) + (enc_u16(reason_code))),
        ProposedAction::UnfreezeSubnet{ subnet_id } => seq![1u8] + (enc_arr::<32>(subnet_id)),
        ProposedAction::EmergencyRevokeKey{ key_id, reason_code } => seq![2u8] + (enc_arr::<32>(key_id) + (enc_u16(reason_code))),
        ProposedAction::UpgradeClearancePolicy{ tier_byte, new_policy_hash } => seq![3u8] + (enc_u8(tier_byte) + (enc_arr::<32>(new_policy_hash))),
    }
}

#[verifier::opaque]
pub open spec fn dec_proposed_action(s: Seq<u8>) -> Option<(ProposedAction, Seq<u8>)> {
    if s.len() == 0 {
        None
    } else if s[0] == 0 {
        let r0 = s.skip(1);
        match dec_arr::<32>(r0) {
            Some((subnet_id, r1)) => match dec_u16(r1) {
            Some((reason_code, r2)) => Some((ProposedAction::FreezeSubnet{ subnet_id, reason_code }, r2)),
            None => None,
        },
            None => None,
        }
    } else if s[0] == 1 {
        let r0 = s.skip(1);
        match dec_arr::<32>(r0) {
            Some((subnet_id, r1)) => Some((ProposedAction::UnfreezeSubnet{ subnet_id }, r1)),
            None => None,
        }
    } else if s[0] == 2 {
        let r0 = s.skip(1);
        match dec_arr::<32>(r0) {
            Some((key_id, r1)) => match dec_u16(r1) {
            Some((reason_code, r2)) => Some((ProposedAction::EmergencyRevokeKey{ key_id, reason_code }, r2)),
            None => None,
        },
            None => None,
        }
    } else if s[0] == 3 {
        let r0 = s.skip(1);
        match dec_u8(r0) {
            Some((tier_byte, r1)) => match dec_arr::<32>(r1) {
            Some((new_policy_hash, r2)) => Some((ProposedAction::UpgradeClearancePolicy{ tier_byte, new_policy_hash }, r2)),
            None => None,
        },
            None => None,
        }
    } else { None }
}

pub fn read_proposed_action(d: &[u8], pos: usize) -> (r: Option<(ProposedAction, usize)>)
    requires
        pos <= d@.len(),
    ensures
        read_ok(dec_proposed_action(d@.skip(pos as int)), r, d@),
{
    proof {
        reveal(dec_proposed_action);
    }
    match read_u8(d, pos) {
        None => None,
        Some((tag, p0)) => {
            proof {
                lemma_skip_skip(d@, pos as int, 1);
            }
            match tag {
            0 => match read_arr::<32>(d, p0) {
                None => None,
                Some((subnet_id, p1)) => match read_u16(d, p1) {
                None => None,
                Some((reason_code, p2)) => Some((ProposedAction::FreezeSubnet{ subnet_id, reason_code }, p2)),
            },
            },
            1 => match read_arr::<32>(d, p0) {
                None => None,
                Some((subnet_id, p1)) => Some((ProposedAction::UnfreezeSubnet{ subnet_id }, p1)),
            },
            2 => match read_arr::<32>(d, p0) {
                None => None,
                Some((key_id, p1)) => match read_u16(d, p1) {
                None => None,
                Some((reason_code, p2)) => Some((ProposedAction::EmergencyRevokeKey{ key_id, reason_code }, p2)),
            },
            },
            3 => match read_u8(d, p0) {
                None => None,
                Some((tier_byte, p1)) => match read_arr::<32>(d, p1) {
                None => None,
                Some((new_policy_hash, p2)) => Some((ProposedAction::UpgradeClearancePolicy{ tier_byte, new_policy_hash }, p2)),
            },
            },
            _ => None,
            }
        },
    }
}

pub fn write_proposed_action(out: &mut Vec<u8>, v: &ProposedAction)
    ensures
        final(out)@ == old(out)@ + enc_proposed_action(*v),
{
    proof {
        reveal(enc_proposed_action);
    }
    match v {
        ProposedAction::FreezeSubnet{ subnet_id, reason_code } => {
            out.push(0u8);
            let ghost ot = out@;
            assert(ot =~= old(out)@ + seq![0u8]);
            write_arr::<32>(out, subnet_id);
            let ghost o0 = out@;
            write_u16(out, *reason_code);
            let ghost o1 = out@;
            proof {
                lemma_assoc(ot, enc_arr::<32>((*subnet_id)), enc_u16((*reason_code)));
            }
            proof {
                lemma_assoc(old(out)@, seq![0u8], enc_arr::<32>((*subnet_id)) + (enc_u16((*reason_code))));
            }
        },
        ProposedAction::UnfreezeSubnet{ subnet_id } => {
            out.push(1u8);
            let ghost ot = out@;
            assert(ot =~= old(out)@ + seq![1u8]);
            write_arr::<32>(out, subnet_id);
            let ghost o0 = out@;
            proof {
            }
            proof {
                lemma_assoc(old(out)@, seq![1u8], enc_arr::<32>((*subnet_id)));
            }
        },
        ProposedAction::EmergencyRevokeKey{ key_id, reason_code } => {
            out.push(2u8);
            let ghost ot = out@;
            assert(ot =~= old(out)@ + seq![2u8]);
            write_arr::<32>(out, key_id);
            let ghost o0 = out@;
            write_u16(out, *reason_code);
            let ghost o1 = out@;
            proof {
                lemma_assoc(ot, enc_arr::<32>((*key_id)), enc_u16((*reason_code)));
            }
            proof {
                lemma_assoc(old(out)@, seq![2u8], enc_arr::<32>((*key_id)) + (enc_u16((*reason_code))));
            }
        },
        ProposedAction::UpgradeClearancePolicy{ tier_byte, new_policy_hash } => {
            out.push(3u8);
            let ghost ot = out@;
            assert(ot =~= old(out)@ + seq![3u8]);
            write_u8(out, *tier_byte);
            let ghost o0 = out@;
            write_arr::<32>(out, new_policy_hash);
            let ghost o1 = out@;
            proof {
                lemma_assoc(ot, enc_u8((*tier_byte)), enc_arr::<32>((*new_policy_hash)));
            }
            proof {
                lemma_assoc(old(out)@, seq![3u8], enc_u8((*tier_byte)) + (enc_arr::<32>((*new_policy_hash))));
            }
        },
    }
}

proof fn lemma_proposed_action_freeze_subnet(subnet_id: [u8; 32], reason_code: u16, rest: Seq<u8>)
    ensures
        dec_proposed_action(enc_proposed_action(ProposedAction::FreezeSubnet{ subnet_id, reason_code }) + rest) == Some((ProposedAction::FreezeSubnet{ subnet_id, reason_code }, rest)),
{
    reveal(enc_proposed_action);
    reveal(dec_proposed_action);
    assert((enc_proposed_action(ProposedAction::FreezeSubnet{ subnet_id, reason_code }) + rest).skip(1) =~= (enc_arr::<32>(subnet_id) + (enc_u16(reason_code))) + rest);
    lemma_assoc(enc_arr::<32>(subnet_id), enc_u16(reason_code), rest);
    lemma_arr::<32>(subnet_id, enc_u16(reason_code) + rest);
    lemma_u16(reason_code, rest);
}

proof fn lemma_proposed_action_unfreeze_subnet(subnet_id: [u8; 32], rest: Seq<u8>)
    ensures
        dec_proposed_action(enc_proposed_action(ProposedAction::UnfreezeSubnet{ subnet_id }) + rest) == Some((ProposedAction::UnfreezeSubnet{ subnet_id }, rest)),
{
    reveal(enc_proposed_action);
    reveal(dec_proposed_action);
    assert((enc_proposed_action(ProposedAction::UnfreezeSubnet{ subnet_id }) + rest).skip(1) =~= (enc_arr::<32>(subnet_id)) + rest);
    lemma_arr::<32>(subnet_id, rest);
}

proof fn lemma_proposed_action_emergency_revoke_key(key_id: [u8; 32], reason_code: u16, rest: Seq<u8>)
    ensures
        dec_proposed_action(enc_proposed_action(ProposedAction::EmergencyRevokeKey{ key_id, reason_code }) + rest) == Some((ProposedAction::EmergencyRevokeKey{ key_id, reason_code }, rest)),
{
    reveal(enc_proposed_action);
    reveal(dec_proposed_action);
    assert((enc_proposed_action(ProposedAction::EmergencyRevokeKey{ key_id, reason_code }) + rest).skip(1) =~= (enc_arr::<32>(key_id) + (enc_u16(reason_code))) + rest);
    lemma_assoc(enc_arr::<32>(key_id), enc_u16(reason_code), rest);
    lemma_arr::<32>(key_id, enc_u16(reason_code) + rest);
    lemma_u16(reason_code, rest);
}

proof fn lemma_proposed_action_upgrade_clearance_policy(tier_byte: u8, new_policy_hash: [u8; 32], rest: Seq<u8>)
    ensures
        dec_proposed_action(enc_proposed_action(ProposedAction::UpgradeClearancePolicy{ tier_byte, new_policy_hash }) + rest) == Some((ProposedAction::UpgradeClearancePolicy{ tier_byte, new_policy_hash }, rest)),
{
    reveal(enc_proposed_action);
    reveal(dec_proposed_action);
    assert((enc_proposed_action(ProposedAction::UpgradeClearancePolicy{ tier_byte, new_policy_hash }) + rest).skip(1) =~= (enc_u8(tier_byte) + (enc_arr::<32>(new_policy_hash))) + rest);
    lemma_assoc(enc_u8(tier_byte), enc_arr::<32>(new_policy_hash), rest);
    lemma_u8(tier_byte, enc_arr::<32>(new_policy_hash) + rest);
    lemma_arr::<32>(new_policy_hash, rest);
}

pub proof fn lemma_proposed_action(v: ProposedAction, rest: Seq<u8>)
    ensures
        dec_proposed_action(enc_proposed_action(v) + rest) == Some((v, rest)),
{
    reveal(enc_proposed_action);
    reveal(dec_proposed_action);
    match v {
        ProposedAction::FreezeSubnet{ subnet_id, reason_code } => lemma_proposed_action_freeze_subnet(subnet_id, reason_code, rest),
        ProposedAction::UnfreezeSubnet{ subnet_id } => lemma_proposed_action_unfreeze_subnet(subnet_id, rest),
        ProposedAction::EmergencyRevokeKey{ key_id, reason_code } => lemma_proposed_action_emergency_revoke_key(key_id, reason_code, rest),
        ProposedAction::UpgradeClearancePolicy{ tier_byte, new_policy_hash } => lemma_proposed_action_upgrade_clearance_policy(tier_byte, new_policy_hash, rest),
    }
}

/// Decodes a [`ProposedAction`] that must take up all of `d`.
pub fn proposed_action_from_slice(d: &[u8]) -> (r: Option<ProposedAction>)
    ensures
        r is Some <==> (dec_proposed_action(d@) matches Some((_, rest)) && rest.len() == 0),
        r matches Some(v) ==> dec_proposed_action(d@) == Some((v, Seq::<u8>::empty())),
{
    assert(d@.skip(0) =~= d@);
    match read_proposed_action(d, 0) {
        None => None,
        Some((v, p)) => {
            if p == d.len() {
                assert(d@.skip(p as int) =~= Seq::<u8>::empty());
                Some(v)
            } else {
                None
            }
        },
    }
}

/// Decodes a [`ProposedAction`] from the front of `d`, ignoring what follows it.
pub fn proposed_action_from_prefix(d: &[u8]) -> (r: Option<ProposedAction>)
    ensures
        r is Some <==> dec_proposed_action(d@) is Some,
        r matches Some(v) ==> dec_proposed_action(d@) matches Some((m, _)) && m == v,
{
    assert(d@.skip(0) =~= d@);
    match read_proposed_action(d, 0) {
        None => None,
        Some((v, _)) => Some(v),
    }
}

/// Serialises a [`ProposedAction`].
pub fn proposed_action_to_vec(v: &ProposedAction) -> (r: Vec<u8>)
    ensures
        r@ == enc_proposed_action(*v),
{
    let mut out: Vec<u8> = Vec::new();
    write_proposed_action(&mut out, v);
    assert(out@ =~= enc_proposed_action(*v));
    out
}

/// Status of a proposal.
#[derive(Clone, Copy, Debug, PartialEq, Eq, Structural)]
pub enum ProposalStatus {
    Pending,
    Executed,
    Cancelled,
}

#[verifier::opaque]
pub open spec fn enc_proposal_status(v: ProposalStatus) -> Seq<u8> {
    match v {
        ProposalStatus::Pending => seq![0u8],
        ProposalStatus::Executed => seq![1u8],
        ProposalStatus::Cancelled => seq![2u8],
    }
}

#[verifier::opaque]
pub open spec fn dec_proposal_status(s: Seq<u8>) -> Option<(ProposalStatus, Seq<u8>)> {
    if s.len() == 0 {
        None
    } else if s[0] == 0 {
        Some((ProposalStatus::Pending, s.skip(1)))
    } else if s[0] == 1 {
        Some((ProposalStatus::Executed, s.skip(1)))
    } else if s[0] == 2 {
        Some((ProposalStatus::Cancelled, s.skip(1)))
    } else { None }
}

pub fn read_proposal_status(d: &[u8], pos: usize) -> (r: Option<(ProposalStatus, usize)>)
    requires
        pos <= d@.len(),
    ensures
        read_ok(dec_proposal_status(d@.skip(pos as int)), r, d@),
{
    proof {
        reveal(dec_proposal_status);
    }
    match read_u8(d, pos) {
        None => None,
        Some((tag, p0)) => {
            proof {
                lemma_skip_skip(d@, pos as int, 1);
            }
            match tag {
            0 => Some((ProposalStatus::Pending, p0)),
            1 => Some((ProposalStatus::Executed, p0)),
            2 => Some((ProposalStatus::Cancelled, p0)),
            _ => None,
            }
        },
    }
}

pub fn write_proposal_status(out: &mut Vec<u8>, v: &ProposalStatus)
    ensures
        final(out)@ == old(out)@ + enc_proposal_status(*v),
{
    proof {
        reveal(enc_proposal_status);
    }
    match v {
        ProposalStatus::Pending => {
            out.push(0u8);
            assert(out@ =~= old(out)@ + seq![0u8]);
        },
        ProposalStatus::Executed => {
            out.push(1u8);
            assert(out@ =~= old(out)@ + seq![1u8]);
        },
        ProposalStatus::Cancelled => {
            out.push(2u8);
            assert(out@ =~= old(out)@ + seq![2u8]);
        },
    }
}

pub proof fn lemma_proposal_status(v: ProposalStatus, rest: Seq<u8>)
    ensures
        dec_proposal_status(enc_proposal_status(v) + rest) == Some((v, rest)),
{
    reveal(enc_proposal_status);
    reveal(dec_proposal_status);
    match v {
        ProposalStatus::Pending => {
            assert((enc_proposal_status(v) + rest).skip(1) =~= rest);
        },
        ProposalStatus::Executed => {
            assert((enc_proposal_status(v) + rest).skip(1) =~= rest);
        },
        ProposalStatus::Cancelled => {
            assert((enc_proposal_status(v) + rest).skip(1) =~= rest);
        },
    }
}

/// Singleton configuration of the emergency multisig.
#[derive(Clone, Debug, PartialEq, Eq)]
pub struct MultisigConfig {
    pub is_initialized: bool,
    pub upgrade_authority: Pubkey,
    pub signers: Vec<Pubkey>,
    pub freeze_quorum: u8,
    pub revoke_quorum: u8,
    pub policy_quorum: u8,
    pub created_at_slot: u64,
}

/// Mathematical model of [`MultisigConfig`].
#[verifier::ext_equal]
pub struct MultisigConfigModel {
    pub is_initialized: bool,
    pub upgrade_authority: Pubkey,
    pub signers: Seq<Pubkey>,
    pub freeze_quorum: u8,
    pub revoke_quorum: u8,
    pub policy_quorum: u8,
    pub created_at_slot: u64,
}

impl View for MultisigConfig {
    type V = MultisigConfigModel;

    open spec fn view(&self) -> MultisigConfigModel {
        MultisigConfigModel {
            is_initialized: self.is_initialized,
            upgrade_authority: self.upgrade_authority,
            signers: self.signers@,
            freeze_quorum: self.freeze_quorum,
            revoke_quorum: self.revoke_quorum,
            policy_quorum: self.policy_quorum,
            created_at_slot: self.created_at_slot,
        }
    }
}

#[verifier::opaque]
pub open spec fn enc_multisig_config(v: MultisigConfigModel) -> Seq<u8> {
    enc_bool(v.is_initialized) + (enc_pubkey(v.upgrade_authority) + (enc_vec_pubkey(v.signers) + (enc_u8(v.freeze_quorum) + (enc_u8(v.revoke_quorum) + (enc_u8(v.policy_quorum) + (enc_u64(v.created_at_slot)))))))
}

#[verifier::opaque]
pub open spec fn dec_multisig_config(s: Seq<u8>) -> Option<(MultisigConfigModel, Seq<u8>)> {
    match dec_bool(s) {
            Some((is_initialized, r1)) => match dec_pubkey(r1) {
            Some((upgrade_authority, r2)) => match dec_vec_pubkey(r2) {
            Some((signers, r3)) => match dec_u8(r3) {
            Some((freeze_quorum, r4)) => match dec_u8(r4) {
            Some((revoke_quorum, r5)) => match dec_u8(r5) {
            Some((policy_quorum, r6)) => match dec_u64(r6) {
            Some((created_at_slot, r7)) => Some((MultisigConfigModel { is_initialized, upgrade_authority, signers, freeze_quorum, revoke_quorum, policy_quorum, created_at_slot }, r7)),
            None => None,
        },
            None => None,
        },
            None => None,
        },
            None => None,
        },
            None => None,
        },
            None => None,
        },
            None => None,
        }
}

pub open spec fn fits_multisig_config(v: MultisigConfigModel) -> bool {
    fits_vec_pubkey(v.signers)
}

pub fn read_multisig_config(d: &[u8], pos: usize) -> (r: Option<(MultisigConfig, usize)>)
    requires
        pos <= d@.len(),
    ensures
        match r {
            None => dec_multisig_config(d@.skip(pos as int)) is None,
            Some((v, p)) => p <= d@.len() && dec_multisig_config(d@.skip(pos as int)) == Some((v@, d@.skip(p as int))),
        },
{
    proof {
        reveal(dec_multisig_config);
    }
    match read_bool(d, pos) {
        None => None,
        Some((is_initialized, p1)) => match read_pubkey(d, p1) {
        None => None,
        Some((upgrade_authority, p2)) => match read_vec_pubkey(d, p2) {
        None => None,
        Some((signers, p3)) => match read_u8(d, p3) {
        None => None,
        Some((freeze_quorum, p4)) => match read_u8(d, p4) {
        None => None,
        Some((revoke_quorum, p5)) => match read_u8(d, p5) {
        None => None,
        Some((policy_quorum, p6)) => match read_u64(d, p6) {
        None => None,
        Some((created_at_slot, p7)) => Some((MultisigConfig { is_initialized, upgrade_authority, signers, freeze_quorum, revoke_quorum, policy_quorum, created_at_slot }, p7)),
    },
    },
    },
    },
    },
    },
    }
}

pub fn write_multisig_config(out: &mut Vec<u8>, v: &MultisigConfig) -> (ok: bool)
    ensures
        ok == fits_multisig_config(v@),
        ok ==> final(out)@ == old(out)@ + enc_multisig_config(v@),
{
    proof {
        reveal(enc_multisig_config);
    }
    write_bool(out, *&v.is_initialized);
    let ghost o0 = out@;
    write_pubkey(out, &v.upgrade_authority);
    let ghost o1 = out@;
    if !write_vec_pubkey(out, &v.signers) { return false; }
    let ghost o2 = out@;
    write_u8(out, *&v.freeze_quorum);
    let ghost o3 = out@;
    write_u8(out, *&v.revoke_quorum);
    let ghost o4 = out@;
    write_u8(out, *&v.policy_quorum);
    let ghost o5 = out@;
    write_u64(out, *&v.created_at_slot);
    let ghost o6 = out@;
    proof {
        lemma_assoc(o4, enc_u8(v@.policy_quorum), enc_u64(v@.created_at_slot));
        lemma_assoc(o3, enc_u8(v@.revoke_quorum), enc_u8(v@.policy_quorum) + (enc_u64(v@.created_at_slot)));
        lemma_assoc(o2, enc_u8(v@.freeze_quorum), enc_u8(v@.revoke_quorum) + (enc_u8(v@.policy_quorum) + (enc_u64(v@.created_at_slot))));
        lemma_assoc(o1, enc_vec_pubkey(v@.signers), enc_u8(v@.freeze_quorum) + (enc_u8(v@.revoke_quorum) + (enc_u8(v@.policy_quorum) + (enc_u64(v@.created_at_slot)))));
        lemma_assoc(o0, enc_pubkey(v@.upgrade_authority), enc_vec_pubkey(v@.signers) + (enc_u8(v@.freeze_quorum) + (enc_u8(v@.revoke_quorum) + (enc_u8(v@.policy_quorum) + (enc_u64(v@.created_at_slot))))));
        lemma_assoc(old(out)@, enc_bool(v@.is_initialized), enc_pubkey(v@.upgrade_authority) + (enc_vec_pubkey(v@.signers) + (enc_u8(v@.freeze_quorum) + (enc_u8(v@.revoke_quorum) + (enc_u8(v@.policy_quorum) + (enc_u64(v@.created_at_slot)))))));
    }
    true
}

pub proof fn lemma_multisig_config(v: MultisigConfigModel, rest: Seq<u8>)
    requires
        fits_multisig_config(v),
    ensures
        dec_multisig_config(enc_multisig_config(v) + rest) == Some((v, rest)),
{
    reveal(enc_multisig_config);
    reveal(dec_multisig_config);
    lemma_assoc(enc_bool(v.is_initialized), enc_pubkey(v.upgrade_authority) + (enc_vec_pubkey(v.signers) + (enc_u8(v.freeze_quorum) + (enc_u8(v.revoke_quorum) + (enc_u8(v.policy_quorum) + (enc_u64(v.created_at_slot)))))), rest);
    lemma_bool(v.is_initialized, enc_pubkey(v.upgrade_authority) + (enc_vec_pubkey(v.signers) + (enc_u8(v.freeze_quorum) + (enc_u8(v.revoke_quorum) + (enc_u8(v.policy_quorum) + (enc_u64(v.created_at_slot)))))) + rest);
    lemma_assoc(enc_pubkey(v.upgrade_authority), enc_vec_pubkey(v.signers) + (enc_u8(v.freeze_quorum) + (enc_u8(v.revoke_quorum) + (enc_u8(v.policy_quorum) + (enc_u64(v.created_at_slot))))), rest);
    lemma_pubkey(v.upgrade_authority, enc_vec_pubkey(v.signers) + (enc_u8(v.freeze_quorum) + (enc_u8(v.revoke_quorum) + (enc_u8(v.policy_quorum) + (enc_u64(v.created_at_slot))))) + rest);
    lemma_assoc(enc_vec_pubkey(v.signers), enc_u8(v.freeze_quorum) + (enc_u8(v.revoke_quorum) + (enc_u8(v.policy_quorum) + (enc_u64(v.created_at_slot)))), rest);
    lemma_vec_pubkey(v.signers, enc_u8(v.freeze_quorum) + (enc_u8(v.revoke_quorum) + (enc_u8(v.policy_quorum) + (enc_u64(v.created_at_slot)))) + rest);
    lemma_assoc(enc_u8(v.freeze_quorum), enc_u8(v.revoke_quorum) + (enc_u8(v.policy_quorum) + (enc_u64(v.created_at_slot))), rest);
    lemma_u8(v.freeze_quorum, enc_u8(v.revoke_quorum) + (enc_u8(v.policy_quorum) + (enc_u64(v.created_at_slot))) + rest);
    lemma_assoc(enc_u8(v.revoke_quorum), enc_u8(v.policy_quorum) + (enc_u64(v.created_at_slot)), rest);
    lemma_u8(v.revoke_quorum, enc_u8(v.policy_quorum) + (enc_u64(v.created_at_slot)) + rest);
    lemma_assoc(enc_u8(v.policy_quorum), enc_u64(v.created_at_slot), rest);
    lemma_u8(v.policy_quorum, enc_u64(v.created_at_slot) + rest);
    lemma_u64(v.created_at_slot, rest);
}

/// Decodes a [`MultisigConfig`] that must take up all of `d`.
pub fn multisig_config_from_slice(d: &[u8]) -> (r: Option<MultisigConfig>)
    ensures
        r is Some <==> (dec_multisig_config(d@) matches Some((_, rest)) && rest.len() == 0),
        r matches Some(v) ==> dec_multisig_config(d@) == Some((v@, Seq::<u8>::empty())),
{
    assert(d@.skip(0) =~= d@);
    match read_multisig_config(d, 0) {
        None => None,
        Some((v, p)) => {
            if p == d.len() {
                assert(d@.skip(p as int) =~= Seq::<u8>::empty());
                Some(v)
            } else {
                None
            }
        },
    }
}

/// Decodes a [`MultisigConfig`] from the front of `d`, ignoring what follows it.
pub fn multisig_config_from_prefix(d: &[u8]) -> (r: Option<MultisigConfig>)
    ensures
        r is Some <==> dec_multisig_config(d@) is Some,
        r matches Some(v) ==> dec_multisig_config(d@) matches Some((m, _)) && m == v@,
{
    assert(d@.skip(0) =~= d@);
    match read_multisig_config(d, 0) {
        None => None,
        Some((v, _)) => Some(v),
    }
}

/// Serialises a [`MultisigConfig`]; `None` when a length does not fit the `u32` prefix.
pub fn multisig_config_to_vec(v: &MultisigConfig) -> (r: Option<Vec<u8>>)
    ensures
        r is Some <==> fits_multisig_config(v@),
        r matches Some(b) ==> b@ == enc_multisig_config(v@),
{
    let mut out: Vec<u8> = Vec::new();
    if write_multisig_config(&mut out, v) {
        assert(out@ =~= enc_multisig_config(v@));
        Some(out)
    } else {
        None
    }
}

/// One pending or finished proposal.
#[derive(Clone, Copy, Debug, PartialEq, Eq)]
pub struct Proposal {
    pub proposal_id: [u8; 32],
    pub proposer: Pubkey,
    pub action: ProposedAction,
    pub status: ProposalStatus,
    pub approval_count: u8,
    pub required_approvals: u8,
    pub created_at_slot: u64,
    pub expires_at_slot: u64,
}

#[verifier::opaque]
pub open spec fn enc_proposal(v: Proposal) -> Seq<u8> {
    enc_arr::<32>(v.proposal_id) + (enc_pubkey(v.proposer) + (enc_proposed_action(v.action) + (enc_proposal_status(v.status) + (enc_u8(v.approval_count) + (enc_u8(v.required_approvals) + (enc_u64(v.created_at_slot) + (enc_u64(v.expires_at_slot))))))))
}

#[verifier::opaque]
pub open spec fn dec_proposal(s: Seq<u8>) -> Option<(Proposal, Seq<u8>)> {
    match dec_arr::<32>(s) {
            Some((proposal_id, r1)) => match dec_pubkey(r1) {
            Some((proposer, r2)) => match dec_proposed_action(r2) {
            Some((action, r3)) => match dec_proposal_status(r3) {
            Some((status, r4)) => match dec_u8(r4) {
            Some((approval_count, r5)) => match dec_u8(r5) {
            Some((required_approvals, r6)) => match dec_u64(r6) {
            Some((created_at_slot, r7)) => match dec_u64(r7) {
            Some((expires_at_slot, r8)) => Some((Proposal { proposal_id, proposer, action, status, approval_count, required_approvals, created_at_slot, expires_at_slot }, r8)),
            None => None,
        },
            None => None,
        },
            None => None,
        },
            None => None,
        },
            None => None,
        },
            None => None,
        },
            None => None,
        },
            None => None,
        }
}

pub fn read_proposal(d: &[u8], pos: usize) -> (r: Option<(Proposal, usize)>)
    requires
        pos <= d@.len(),
    ensures
        read_ok(dec_proposal(d@.skip(pos as int)), r, d@),
{
    proof {
        reveal(dec_proposal);
    }
    match read_arr::<32>(d, pos) {
        None => None,
        Some((proposal_id, p1)) => match read_pubkey(d, p1) {
        None => None,
        Some((proposer, p2)) => match read_proposed_action(d, p2) {
        None => None,
        Some((action, p3)) => match read_proposal_status(d, p3) {
        None => None,
        Some((status, p4)) => match read_u8(d, p4) {
        None => None,
        Some((approval_count, p5)) => match read_u8(d, p5) {
        None => None,
        Some((required_approvals, p6)) => match read_u64(d, p6) {
        None => None,
        Some((created_at_slot, p7)) => match read_u64(d, p7) {
        None => None,
        Some((expires_at_slot, p8)) => Some((Proposal { proposal_id, proposer, action, status, approval_count, required_approvals, created_at_slot, expires_at_slot }, p8)),
    },
    },
    },
    },
    },
    },
    },
    }
}

pub fn write_proposal(out: &mut Vec<u8>, v: &Proposal)
    ensures
        final(out)@ == old(out)@ + enc_proposal(*v),
{
    proof {
        reveal(enc_proposal);
    }
    write_arr::<32>(out, &v.proposal_id);
    let ghost o0 = out@;
    write_pubkey(out, &v.proposer);
    let ghost o1 = out@;
    write_proposed_action(out, &v.action);
    let ghost o2 = out@;
    write_proposal_status(out, &v.status);
    let ghost o3 = out@;
    write_u8(out, *&v.approval_count);
    let ghost o4 = out@;
    write_u8(out, *&v.required_approvals);
    let ghost o5 = out@;
    write_u64(out, *&v.created_at_slot);
    let ghost o6 = out@;
    write_u64(out, *&v.expires_at_slot);
    let ghost o7 = out@;
    proof {
        lemma_assoc(o5, enc_u64((*v).created_at_slot), enc_u64((*v).expires_at_slot));
        lemma_assoc(o4, enc_u8((*v).required_approvals), enc_u64((*v).created_at_slot) + (enc_u64((*v).expires_at_slot)));
        lemma_assoc(o3, enc_u8((*v).approval_count), enc_u8((*v).required_approvals) + (enc_u64((*v).created_at_slot) + (enc_u64((*v).expires_at_slot))));
        lemma_assoc(o2, enc_proposal_status((*v).status), enc_u8((*v).approval_count) + (enc_u8((*v).required_approvals) + (enc_u64((*v).created_at_slot) + (enc_u64((*v).expires_at_slot)))));
        lemma_assoc(o1, enc_proposed_action((*v).action), enc_proposal_status((*v).status) + (enc_u8((*v).approval_count) + (enc_u8((*v).required_approvals) + (enc_u64((*v).created_at_slot) + (enc_u64((*v).expires_at_slot))))));
        lemma_assoc(o0, enc_pubkey((*v).proposer), enc_proposed_action((*v).action) + (enc_proposal_status((*v).status) + (enc_u8((*v).approval_count) + (enc_u8((*v).required_approvals) + (enc_u64((*v).created_at_slot) + (enc_u64((*v).expires_at_slot)))))));
        lemma_assoc(old(out)@, enc_arr::<32>((*v).proposal_id), enc_pubkey((*v).proposer) + (enc_proposed_action((*v).action) + (enc_proposal_status((*v).status) + (enc_u8((*v).approval_count) + (enc_u8((*v).required_approvals) + (enc_u64((*v).created_at_slot) + (enc_u64((*v).expires_at_slot))))))));
    }
}

pub proof fn lemma_proposal(v: Proposal, rest: Seq<u8>)
    ensures
        dec_proposal(enc_proposal(v) + rest) == Some((v, rest)),
{
    reveal(enc_proposal);
    reveal(dec_proposal);
    lemma_assoc(enc_arr::<32>(v.proposal_id), enc_pubkey(v.proposer) + (enc_proposed_action(v.action) + (enc_proposal_status(v.status) + (enc_u8(v.approval_count) + (enc_u8(v.required_approvals) + (enc_u64(v.created_at_slot) + (enc_u64(v.expires_at_slot))))))), rest);
    lemma_arr::<32>(v.proposal_id, enc_pubkey(v.proposer) + (enc_proposed_action(v.action) + (enc_proposal_status(v.status) + (enc_u8(v.approval_count) + (enc_u8(v.required_approvals) + (enc_u64(v.created_at_slot) + (enc_u64(v.expires_at_slot))))))) + rest);
    lemma_assoc(enc_pubkey(v.proposer), enc_proposed_action(v.action) + (enc_proposal_status(v.status) + (enc_u8(v.approval_count) + (enc_u8(v.required_approvals) + (enc_u64(v.created_at_slot) + (enc_u64(v.expires_at_slot)))))), rest);
    lemma_pubkey(v.proposer, enc_proposed_action(v.action) + (enc_proposal_status(v.status) + (enc_u8(v.approval_count) + (enc_u8(v.required_approvals) + (enc_u64(v.created_at_slot) + (enc_u64(v.expires_at_slot)))))) + rest);
    lemma_assoc(enc_proposed_action(v.action), enc_proposal_status(v.status) + (enc_u8(v.approval_count) + (enc_u8(v.required_approvals) + (enc_u64(v.created_at_slot) + (enc_u64(v.expires_at_slot))))), rest);
    lemma_proposed_action(v.action, enc_proposal_status(v.status) + (enc_u8(v.approval_count) + (enc_u8(v.required_approvals) + (enc_u64(v.created_at_slot) + (enc_u64(v.expires_at_slot))))) + rest);
    lemma_assoc(enc_proposal_status(v.status), enc_u8(v.approval_count) + (enc_u8(v.required_approvals) + (enc_u64(v.created_at_slot) + (enc_u64(v.expires_at_slot)))), rest);
    lemma_proposal_status(v.status, enc_u8(v.approval_count) + (enc_u8(v.required_approvals) + (enc_u64(v.created_at_slot) + (enc_u64(v.expires_at_slot)))) + rest);
    lemma_assoc(enc_u8(v.approval_count), enc_u8(v.required_approvals) + (enc_u64(v.created_at_slot) + (enc_u64(v.expires_at_slot))), rest);
    lemma_u8(v.approval_count, enc_u8(v.required_approvals) + (enc_u64(v.created_at_slot) + (enc_u64(v.expires_at_slot))) + rest);
    lemma_assoc(enc_u8(v.required_approvals), enc_u64(v.created_at_slot) + (enc_u64(v.expires_at_slot)), rest);
    lemma_u8(v.required_approvals, enc_u64(v.created_at_slot) + (enc_u64(v.expires_at_slot)) + rest);
    lemma_assoc(enc_u64(v.created_at_slot), enc_u64(v.expires_at_slot), rest);
    lemma_u64(v.created_at_slot, enc_u64(v.expires_at_slot) + rest);
    lemma_u64(v.expires_at_slot, rest);
}

/// Decodes a [`Proposal`] that must take up all of `d`.
pub fn proposal_from_slice(d: &[u8]) -> (r: Option<Proposal>)
    ensures
        r is Some <==> (dec_proposal(d@) matches Some((_, rest)) && rest.len() == 0),
        r matches Some(v) ==> dec_proposal(d@) == Some((v, Seq::<u8>::empty())),
{
    assert(d@.skip(0) =~= d@);
    match read_proposal(d, 0) {
        None => None,
        Some((v, p)) => {
            if p == d.len() {
                assert(d@.skip(p as int) =~= Seq::<u8>::empty());
                Some(v)
            } else {
                None
            }
        },
    }
}

/// Decodes a [`Proposal`] from the front of `d`, ignoring what follows it.
pub fn proposal_from_prefix(d: &[u8]) -> (r: Option<Proposal>)
    ensures
        r is Some <==> dec_proposal(d@) is Some,
        r matches Some(v) ==> dec_proposal(d@) matches Some((m, _)) && m == v,
{
    assert(d@.skip(0) =~= d@);
    match read_proposal(d, 0) {
        None => None,
        Some((v, _)) => Some(v),
    }
}

/// Serialises a [`Proposal`].
pub fn proposal_to_vec(v: &Proposal) -> (r: Vec<u8>)
    ensures
        r@ == enc_proposal(*v),
{
    let mut out: Vec<u8> = Vec::new();
    write_proposal(&mut out, v);
    assert(out@ =~= enc_proposal(*v));
    out
}

/// Record that one signer approved a proposal.
#[derive(Clone, Copy, Debug, PartialEq, Eq)]
pub struct ProposalVote {
    pub proposal_id: [u8; 32],
    pub voter: Pubkey,
    pub voted_at_slot: u64,
}

#[verifier::opaque]
pub open spec fn enc_proposal_vote(v: ProposalVote) -> Seq<u8> {
    enc_arr::<32>(v.proposal_id) + (enc_pubkey(v.voter) + (enc_u64(v.voted_at_slot)))
}

#[verifier::opaque]
pub open spec fn dec_proposal_vote(s: Seq<u8>) -> Option<(ProposalVote, Seq<u8>)> {
    match dec_arr::<32>(s) {
            Some((proposal_id, r1)) => match dec_pubkey(r1) {
            Some((voter, r2)) => match dec_u64(r2) {
            Some((voted_at_slot, r3)) => Some((ProposalVote { proposal_id, voter, voted_at_slot }, r3)),
            None => None,
        },
            None => None,
        },
            None => None,
        }
}

pub fn read_proposal_vote(d: &[u8], pos: usize) -> (r: Option<(ProposalVote, usize)>)
    requires
        pos <= d@.len(),
    ensures
        read_ok(dec_proposal_vote(d@.skip(pos as int)), r, d@),
{
    proof {
        reveal(dec_proposal_vote);
    }
    match read_arr::<32>(d, pos) {
        None => None,
        Some((proposal_id, p1)) => match read_pubkey(d, p1) {
        None => None,
        Some((voter, p2)) => match read_u64(d, p2) {
        None => None,
        Some((voted_at_slot, p3)) => Some((ProposalVote { proposal_id, voter, voted_at_slot }, p3)),
    },
    },
    }
}

pub fn write_proposal_vote(out: &mut Vec<u8>, v: &ProposalVote)
    ensures
        final(out)@ == old(out)@ + enc_proposal_vote(*v),
{
    proof {
        reveal(enc_proposal_vote);
    }
    write_arr::<32>(out, &v.proposal_id);
    let ghost o0 = out@;
    write_pubkey(out, &v.voter);
    let ghost o1 = out@;
    write_u64(out, *&v.voted_at_slot);
    let ghost o2 = out@;
    proof {
        lemma_assoc(o0, enc_pubkey((*v).voter), enc_u64((*v).voted_at_slot));
        lemma_assoc(old(out)@, enc_arr::<32>((*v).proposal_id), enc_pubkey((*v).voter) + (enc_u64((*v).voted_at_slot)));
    }
}

pub proof fn lemma_proposal_vote(v: ProposalVote, rest: Seq<u8>)
    ensures
        dec_proposal_vote(enc_proposal_vote(v) + rest) == Some((v, rest)),
{
    reveal(enc_proposal_vote);
    reveal(dec_proposal_vote);
    lemma_assoc(enc_arr::<32>(v.proposal_id), enc_pubkey(v.voter) + (enc_u64(v.voted_at_slot)), rest);
    lemma_arr::<32>(v.proposal_id, enc_pubkey(v.voter) + (enc_u64(v.voted_at_slot)) + rest);
    lemma_assoc(enc_pubkey(v.voter), enc_u64(v.voted_at_slot), rest);
    lemma_pubkey(v.voter, enc_u64(v.voted_at_slot) + rest);
    lemma_u64(v.voted_at_slot, rest);
}

/// Decodes a [`ProposalVote`] that must take up all of `d`.
pub fn proposal_vote_from_slice(d: &[u8]) -> (r: Option<ProposalVote>)
    ensures
        r is Some <==> (dec_proposal_vote(d@) matches Some((_, rest)) && rest.len() == 0),
        r matches Some(v) ==> dec_proposal_vote(d@) == Some((v, Seq::<u8>::empty())),
{
    assert(d@.skip(0) =~= d@);
    match read_proposal_vote(d, 0) {
        None => None,
        Some((v, p)) => {
            if p == d.len() {
                assert(d@.skip(p as int) =~= Seq::<u8>::empty());
                Some(v)
            } else {
                None
            }
        },
    }
}

/// Decodes a [`ProposalVote`] from the front of `d`, ignoring what follows it.
pub fn proposal_vote_from_prefix(d: &[u8]) -> (r: Option<ProposalVote>)
    ensures
        r is Some <==> dec_proposal_vote(d@) is Some,
        r matches Some(v) ==> dec_proposal_vote(d@) matches Some((m, _)) && m == v,
{
    assert(d@.skip(0) =~= d@);
    match read_proposal_vote(d, 0) {
        None => None,
        Some((v, _)) => Some(v),
    }
}

/// Serialises a [`ProposalVote`].
pub fn proposal_vote_to_vec(v: &ProposalVote) -> (r: Vec<u8>)
    ensures
        r@ == enc_proposal_vote(*v),
{
    let mut out: Vec<u8> = Vec::new();
    write_proposal_vote(&mut out, v);
    assert(out@ =~= enc_proposal_vote(*v));
    out
}

/// Instructions of the emergency-multisig program.
#[derive(Clone, Debug, PartialEq, Eq)]
pub enum EmergencyMultisigInstruction {
    InitializeMultisig{ signers: Vec<Pubkey>, freeze_quorum: u8, revoke_quorum: u8, policy_quorum: u8, current_slot: u64 },
    ProposeAction{ proposal_id: [u8; 32], action: ProposedAction, ttl_slots: u64, current_slot: u64 },
    ApproveAction{ proposal_id: [u8; 32], current_slot: u64 },
    ExecuteAction{ proposal_id: [u8; 32], current_slot: u64 },
    CancelAction{ proposal_id: [u8; 32] },
}

/// Mathematical model of [`EmergencyMultisigInstruction`].
pub enum EmergencyMultisigInstructionModel {
    InitializeMultisig{ signers: Seq<Pubkey>, freeze_quorum: u8, revoke_quorum: u8, policy_quorum: u8, current_slot: u64 },
    ProposeAction{ proposal_id: [u8; 32], action: ProposedAction, ttl_slots: u64, current_slot: u64 },
    ApproveAction{ proposal_id: [u8; 32], current_slot: u64 },
    ExecuteAction{ proposal_id: [u8; 32], current_slot: u64 },
    CancelAction{ proposal_id: [u8; 32] },
}

impl View for EmergencyMultisigInstruction {
    type V = EmergencyMultisigInstructionModel;

    open spec fn view(&self) -> EmergencyMultisigInstructionModel {
        match self {
            EmergencyMultisigInstruction::InitializeMultisig{ signers, freeze_quorum, revoke_quorum, policy_quorum, current_slot } => EmergencyMultisigInstructionModel::InitializeMultisig{ signers: (*signers)@, freeze_quorum: (*freeze_quorum), revoke_quorum: (*revoke_quorum), policy_quorum: (*policy_quorum), current_slot: (*current_slot) },
            EmergencyMultisigInstruction::ProposeAction{ proposal_id, action, ttl_slots, current_slot } => EmergencyMultisigInstructionModel::ProposeAction{ proposal_id: (*proposal_id), action: (*action), ttl_slots: (*ttl_slots), current_slot: (*current_slot) },
            EmergencyMultisigInstruction::ApproveAction{ proposal_id, current_slot } => EmergencyMultisigInstructionModel::ApproveAction{ proposal_id: (*proposal_id), current_slot: (*current_slot) },
            EmergencyMultisigInstruction::ExecuteAction{ proposal_id, current_slot } => EmergencyMultisigInstructionModel::ExecuteAction{ proposal_id: (*proposal_id), current_slot: (*current_slot) },
            EmergencyMultisigInstruction::CancelAction{ proposal_id } => EmergencyMultisigInstructionModel::CancelAction{ proposal_id: (*proposal_id) },
        }
    }
}

#[verifier::opaque]
pub open spec fn enc_emergency_multisig_instruction(v: EmergencyMultisigInstructionModel) -> Seq<u8> {
    match v {
        EmergencyMultisigInstructionModel::InitializeMultisig{ signers, freeze_quorum, revoke_quorum, policy_quorum, current_slot } => seq![0u8] + (enc_vec_pubkey(signers) + (enc_u8(freeze_quorum) + (enc_u8(revoke_quorum) + (enc_u8(policy_quorum) + (enc_u64(current_slot)))))),
        EmergencyMultisigInstructionModel::ProposeAction{ proposal_id, action, ttl_slots, current_slot } => seq![1u8] + (enc_arr::<32>(proposal_id) + (enc_proposed_action(action) + (enc_u64(ttl_slots) + (enc_u64(current_slot))))),
        EmergencyMultisigInstructionModel::ApproveAction{ proposal_id, current_slot } => seq![2u8] + (enc_arr::<32>(proposal_id) + (enc_u64(current_slot))),
        EmergencyMultisigInstructionModel::ExecuteAction{ proposal_id, current_slot } => seq![3u8] + (enc_arr::<32>(proposal_id) + (enc_u64(current_slot))),
        EmergencyMultisigInstructionModel::CancelAction{ proposal_id } => seq![4u8] + (enc_arr::<32>(proposal_id)),
    }
}

#[verifier::opaque]
pub open spec fn dec_emergency_multisig_instruction(s: Seq<u8>) -> Option<(EmergencyMultisigInstructionModel, Seq<u8>)> {
    if s.len() == 0 {
        None
    } else if s[0] == 0 {
        let r0 = s.skip(1);
        match dec_vec_pubkey(r0) {
            Some((signers, r1)) => match dec_u8(r1) {
            Some((freeze_quorum, r2)) => match dec_u8(r2) {
            Some((revoke_quorum, r3)) => match dec_u8(r3) {
            Some((policy_quorum, r4)) => match dec_u64(r4) {
            Some((current_slot, r5)) => Some((EmergencyMultisigInstructionModel::InitializeMultisig{ signers, freeze_quorum, revoke_quorum, policy_quorum, current_slot }, r5)),
            None => None,
        },
            None => None,
        },
            None => None,
        },
            None => None,
        },
            None => None,
        }
    } else if s[0] == 1 {
        let r0 = s.skip(1);
        match dec_arr::<32>(r0) {
            Some((proposal_id, r1)) => match dec_proposed_action(r1) {
            Some((action, r2)) => match dec_u64(r2) {
            Some((ttl_slots, r3)) => match dec_u64(r3) {
            Some((current_slot, r4)) => Some((EmergencyMultisigInstructionModel::ProposeAction{ proposal_id, action, ttl_slots, current_slot }, r4)),
            None => None,
        },
            None => None,
        },
            None => None,
        },
            None => None,
        }
    } else if s[0] == 2 {
        let r0 = s.skip(1);
        match dec_arr::<32>(r0) {
            Some((proposal_id, r1)) => match dec_u64(r1) {
            Some((current_slot, r2)) => Some((EmergencyMultisigInstructionModel::ApproveAction{ proposal_id, current_slot }, r2)),
            None => None,
        },
            None => None,
        }
    } else if s[0] == 3 {
        let r0 = s.skip(1);
        match dec_arr::<32>(r0) {
            Some((proposal_id, r1)) => match dec_u64(r1) {
            Some((current_slot, r2)) => Some((EmergencyMultisigInstructionModel::ExecuteAction{ proposal_id, current_slot }, r2)),
            None => None,
        },
            None => None,
        }
    } else if s[0] == 4 {
        let r0 = s.skip(1);
        match dec_arr::<32>(r0) {
            Some((proposal_id, r1)) => Some((EmergencyMultisigInstructionModel::CancelAction{ proposal_id }, r1)),
            None => None,
        }
    } else { None }
}

pub open spec fn fits_emergency_multisig_instruction(v: EmergencyMultisigInstructionModel) -> bool {
    match v {
        EmergencyMultisigInstructionModel::InitializeMultisig{ signers, freeze_quorum, revoke_quorum, policy_quorum, current_slot } => fits_vec_pubkey(signers),
        EmergencyMultisigInstructionModel::ProposeAction{ proposal_id, action, ttl_slots, current_slot } => true,
        EmergencyMultisigInstructionModel::ApproveAction{ proposal_id, current_slot } => true,
        EmergencyMultisigInstructionModel::ExecuteAction{ proposal_id, current_slot } => true,
        EmergencyMultisigInstructionModel::CancelAction{ proposal_id } => true,
    }
}

pub fn read_emergency_multisig_instruction(d: &[u8], pos: usize) -> (r: Option<(EmergencyMultisigInstruction, usize)>)
    requires
        pos <= d@.len(),
    ensures
        match r {
            None => dec_emergency_multisig_instruction(d@.skip(pos as int)) is None,
            Some((v, p)) => p <= d@.len() && dec_emergency_multisig_instruction(d@.skip(pos as int)) == Some((v@, d@.skip(p as int))),
        },
{
    proof {
        reveal(dec_emergency_multisig_instruction);
    }
    match read_u8(d, pos) {
        None => None,
        Some((tag, p0)) => {
            proof {
                lemma_skip_skip(d@, pos as int, 1);
            }
            match tag {
            0 => match read_vec_pubkey(d, p0) {
                None => None,
                Some((signers, p1)) => match read_u8(d, p1) {
                None => None,
                Some((freeze_quorum, p2)) => match read_u8(d, p2) {
                None => None,
                Some((revoke_quorum, p3)) => match read_u8(d, p3) {
                None => None,
                Some((policy_quorum, p4)) => match read_u64(d, p4) {
                None => None,
                Some((current_slot, p5)) => Some((EmergencyMultisigInstruction::InitializeMultisig{ signers, freeze_quorum, revoke_quorum, policy_quorum, current_slot }, p5)),
            },
            },
            },
            },
            },
            1 => match read_arr::<32>(d, p0) {
                None => None,
                Some((proposal_id, p1)) => match read_proposed_action(d, p1) {
                None => None,
                Some((action, p2)) => match read_u64(d, p2) {
                None => None,
                Some((ttl_slots, p3)) => match read_u64(d, p3) {
                None => None,
                Some((current_slot, p4)) => Some((EmergencyMultisigInstruction::ProposeAction{ proposal_id, action, ttl_slots, current_slot }, p4)),
            },
            },
            },
            },
            2 => match read_arr::<32>(d, p0) {
                None => None,
                Some((proposal_id, p1)) => match read_u64(d, p1) {
                None => None,
                Some((current_slot, p2)) => Some((EmergencyMultisigInstruction::ApproveAction{ proposal_id, current_slot }, p2)),
            },
            },
            3 => match read_arr::<32>(d, p0) {
                None => None,
                Some((proposal_id, p1)) => match read_u64(d, p1) {
                None => None,
                Some((current_slot, p2)) => Some((EmergencyMultisigInstruction::ExecuteAction{ proposal_id, current_slot }, p2)),
            },
            },
            4 => match read_arr::<32>(d, p0) {
                None => None,
                Some((proposal_id, p1)) => Some((EmergencyMultisigInstruction::CancelAction{ proposal_id }, p1)),
            },
            _ => None,
            }
        },
    }
}

pub fn write_emergency_multisig_instruction(out: &mut Vec<u8>, v: &EmergencyMultisigInstruction) -> (ok: bool)
    ensures
        ok == fits_emergency_multisig_instruction(v@),
        ok ==> final(out)@ == old(out)@ + enc_emergency_multisig_instruction(v@),
{
    proof {
        reveal(enc_emergency_multisig_instruction);
    }
    match v {
        EmergencyMultisigInstruction::InitializeMultisig{ signers, freeze_quorum, revoke_quorum, policy_quorum, current_slot } => {
            out.push(0u8);
            let ghost ot = out@;
            assert(ot =~= old(out)@ + seq![0u8]);
            if !write_vec_pubkey(out, signers) { return false; }
            let ghost o0 = out@;
            write_u8(out, *freeze_quorum);
            let ghost o1 = out@;
            write_u8(out, *revoke_quorum);
            let ghost o2 = out@;
            write_u8(out, *policy_quorum);
            let ghost o3 = out@;
            write_u64(out, *current_slot);
            let ghost o4 = out@;
            proof {
                lemma_assoc(o2, enc_u8((*policy_quorum)), enc_u64((*current_slot)));
                lemma_assoc(o1, enc_u8((*revoke_quorum)), enc_u8((*policy_quorum)) + (enc_u64((*current_slot))));
                lemma_assoc(o0, enc_u8((*freeze_quorum)), enc_u8((*revoke_quorum)) + (enc_u8((*policy_quorum)) + (enc_u64((*current_slot)))));
                lemma_assoc(ot, enc_vec_pubkey((*signers)@), enc_u8((*freeze_quorum)) + (enc_u8((*revoke_quorum)) + (enc_u8((*policy_quorum)) + (enc_u64((*current_slot))))));
            }
            proof {
                lemma_assoc(old(out)@, seq![0u8], enc_vec_pubkey((*signers)@) + (enc_u8((*freeze_quorum)) + (enc_u8((*revoke_quorum)) + (enc_u8((*policy_quorum)) + (enc_u64((*current_slot)))))));
            }
        },
        EmergencyMultisigInstruction::ProposeAction{ proposal_id, action, ttl_slots, current_slot } => {
            out.push(1u8);
            let ghost ot = out@;
            assert(ot =~= old(out)@ + seq![1u8]);
            write_arr::<32>(out, proposal_id);
            let ghost o0 = out@;
            write_proposed_action(out, action);
            let ghost o1 = out@;
            write_u64(out, *ttl_slots);
            let ghost o2 = out@;
            write_u64(out, *current_slot);
            let ghost o3 = out@;
            proof {
                lemma_assoc(o1, enc_u64((*ttl_slots)), enc_u64((*current_slot)));
                lemma_assoc(o0, enc_proposed_action((*action)), enc_u64((*ttl_slots)) + (enc_u64((*current_slot))));
                lemma_assoc(ot, enc_arr::<32>((*proposal_id)), enc_proposed_action((*action)) + (enc_u64((*ttl_slots)) + (enc_u64((*current_slot)))));
            }
            proof {
                lemma_assoc(old(out)@, seq![1u8], enc_arr::<32>((*proposal_id)) + (enc_proposed_action((*action)) + (enc_u64((*ttl_slots)) + (enc_u64((*current_slot))))));
            }
        },
        EmergencyMultisigInstruction::ApproveAction{ proposal_id, current_slot } => {
            out.push(2u8);
            let ghost ot = out@;
            assert(ot =~= old(out)@ + seq![2u8]);
            write_arr::<32>(out, proposal_id);
            let ghost o0 = out@;
            write_u64(out, *current_slot);
            let ghost o1 = out@;
            proof {
                lemma_assoc(ot, enc_arr::<32>((*proposal_id)), enc_u64((*current_slot)));
            }
            proof {
                lemma_assoc(old(out)@, seq![2u8], enc_arr::<32>((*proposal_id)) + (enc_u64((*current_slot))));
            }
        },
        EmergencyMultisigInstruction::ExecuteAction{ proposal_id, current_slot } => {
            out.push(3u8);
            let ghost ot = out@;
            assert(ot =~= old(out)@ + seq![3u8]);
            write_arr::<32>(out, proposal_id);
            let ghost o0 = out@;
            write_u64(out, *current_slot);
            let ghost o1 = out@;
            proof {
                lemma_assoc(ot, enc_arr::<32>((*proposal_id)), enc_u64((*current_slot)));
            }
            proof {
                lemma_assoc(old(out)@, seq![3u8], enc_arr::<32>((*proposal_id)) + (enc_u64((*current_slot))));
            }
        },
        EmergencyMultisigInstruction::CancelAction{ proposal_id } => {
            out.push(4u8);
            let ghost ot = out@;
            assert(ot =~= old(out)@ + seq![4u8]);
            write_arr::<32>(out, proposal_id);
            let ghost o0 = out@;
            proof {
            }
            proof {
                lemma_assoc(old(out)@, seq![4u8], enc_arr::<32>((*proposal_id)));
            }
        },
    }
    true
}

proof fn lemma_emergency_multisig_instruction_initialize_multisig(signers: Seq<Pubkey>, freeze_quorum: u8, revoke_quorum: u8, policy_quorum: u8, current_slot: u64, rest: Seq<u8>)
    requires
        fits_vec_pubkey(signers),
    ensures
        dec_emergency_multisig_instruction(enc_emergency_multisig_instruction(EmergencyMultisigInstructionModel::InitializeMultisig{ signers, freeze_quorum, revoke_quorum, policy_quorum, current_slot }) + rest) == Some((EmergencyMultisigInstructionModel::InitializeMultisig{ signers, freeze_quorum, revoke_quorum, policy_quorum, current_slot }, rest)),
{
    reveal(enc_emergency_multisig_instruction);
    reveal(dec_emergency_multisig_instruction);
    assert((enc_emergency_multisig_instruction(EmergencyMultisigInstructionModel::InitializeMultisig{ signers, freeze_quorum, revoke_quorum, policy_quorum, current_slot }) + rest).skip(1) =~= (enc_vec_pubkey(signers) + (enc_u8(freeze_quorum) + (enc_u8(revoke_quorum) + (enc_u8(policy_quorum) + (enc_u64(current_slot)))))) + rest);
    lemma_assoc(enc_vec_pubkey(signers), enc_u8(freeze_quorum) + (enc_u8(revoke_quorum) + (enc_u8(policy_quorum) + (enc_u64(current_slot)))), rest);
    lemma_vec_pubkey(signers, enc_u8(freeze_quorum) + (enc_u8(revoke_quorum) + (enc_u8(policy_quorum) + (enc_u64(current_slot)))) + rest);
    lemma_assoc(enc_u8(freeze_quorum), enc_u8(revoke_quorum) + (enc_u8(policy_quorum) + (enc_u64(current_slot))), rest);
    lemma_u8(freeze_quorum, enc_u8(revoke_quorum) + (enc_u8(policy_quorum) + (enc_u64(current_slot))) + rest);
    lemma_assoc(enc_u8(revoke_quorum), enc_u8(policy_quorum) + (enc_u64(current_slot)), rest);
    lemma_u8(revoke_quorum, enc_u8(policy_quorum) + (enc_u64(current_slot)) + rest);
    lemma_assoc(enc_u8(policy_quorum), enc_u64(current_slot), rest);
    lemma_u8(policy_quorum, enc_u64(current_slot) + rest);
    lemma_u64(current_slot, rest);
}

proof fn lemma_emergency_multisig_instruction_propose_action(proposal_id: [u8; 32], action: ProposedAction, ttl_slots: u64, current_slot: u64, rest: Seq<u8>)
    ensures
        dec_emergency_multisig_instruction(enc_emergency_multisig_instruction(EmergencyMultisigInstructionModel::ProposeAction{ proposal_id, action, ttl_slots, current_slot }) + rest) == Some((EmergencyMultisigInstructionModel::ProposeAction{ proposal_id, action, ttl_slots, current_slot }, rest)),
{
    reveal(enc_emergency_multisig_instruction);
    reveal(dec_emergency_multisig_instruction);
    assert((enc_emergency_multisig_instruction(EmergencyMultisigInstructionModel::ProposeAction{ proposal_id, action, ttl_slots, current_slot }) + rest).skip(1) =~= (enc_arr::<32>(proposal_id) + (enc_proposed_action(action) + (enc_u64(ttl_slots) + (enc_u64(current_slot))))) + rest);
    lemma_assoc(enc_arr::<32>(proposal_id), enc_proposed_action(action) + (enc_u64(ttl_slots) + (enc_u64(current_slot))), rest);
    lemma_arr::<32>(proposal_id, enc_proposed_action(action) + (enc_u64(ttl_slots) + (enc_u64(current_slot))) + rest);
    lemma_assoc(enc_proposed_action(action), enc_u64(ttl_slots) + (enc_u64(current_slot)), rest);
    lemma_proposed_action(action, enc_u64(ttl_slots) + (enc_u64(current_slot)) + rest);
    lemma_assoc(enc_u64(ttl_slots), enc_u64(current_slot), rest);
    lemma_u64(ttl_slots, enc_u64(current_slot) + rest);
    lemma_u64(current_slot, rest);
}

proof fn lemma_emergency_multisig_instruction_approve_action(proposal_id: [u8; 32], current_slot: u64, rest: Seq<u8>)
    ensures
        dec_emergency_multisig_instruction(enc_emergency_multisig_instruction(EmergencyMultisigInstructionModel::ApproveAction{ proposal_id, current_slot }) + rest) == Some((EmergencyMultisigInstructionModel::ApproveAction{ proposal_id, current_slot }, rest)),
{
    reveal(enc_emergency_multisig_instruction);
    reveal(dec_emergency_multisig_instruction);
    assert((enc_emergency_multisig_instruction(EmergencyMultisigInstructionModel::ApproveAction{ proposal_id, current_slot }) + rest).skip(1) =~= (enc_arr::<32>(proposal_id) + (enc_u64(current_slot))) + rest);
    lemma_assoc(enc_arr::<32>(proposal_id), enc_u64(current_slot), rest);
    lemma_arr::<32>(proposal_id, enc_u64(current_slot) + rest);
    lemma_u64(current_slot, rest);
}

proof fn lemma_emergency_multisig_instruction_execute_action(proposal_id: [u8; 32], current_slot: u64, rest: Seq<u8>)
    ensures
        dec_emergency_multisig_instruction(enc_emergency_multisig_instruction(EmergencyMultisigInstructionModel::ExecuteAction{ proposal_id, current_slot }) + rest) == Some((EmergencyMultisigInstructionModel::ExecuteAction{ proposal_id, current_slot }, rest)),
{
    reveal(enc_emergency_multisig_instruction);
    reveal(dec_emergency_multisig_instruction);
    assert((enc_emergency_multisig_instruction(EmergencyMultisigInstructionModel::ExecuteAction{ proposal_id, current_slot }) + rest).skip(1) =~= (enc_arr::<32>(proposal_id) + (enc_u64(current_slot))) + rest);
    lemma_assoc(enc_arr::<32>(proposal_id), enc_u64(current_slot), rest);
    lemma_arr::<32>(proposal_id, enc_u64(current_slot) + rest);
    lemma_u64(current_slot, rest);
}

proof fn lemma_emergency_multisig_instruction_cancel_action(proposal_id: [u8; 32], rest: Seq<u8>)
    ensures
        dec_emergency_multisig_instruction(enc_emergency_multisig_instruction(EmergencyMultisigInstructionModel::CancelAction{ proposal_id }) + rest) == Some((EmergencyMultisigInstructionModel::CancelAction{ proposal_id }, rest)),
{
    reveal(enc_emergency_multisig_instruction);
    reveal(dec_emergency_multisig_instruction);
    assert((enc_emergency_multisig_instruction(EmergencyMultisigInstructionModel::CancelAction{ proposal_id }) + rest).skip(1) =~= (enc_arr::<32>(proposal_id)) + rest);
    lemma_arr::<32>(proposal_id, rest);
}

pub proof fn lemma_emergency_multisig_instruction(v: EmergencyMultisigInstructionModel, rest: Seq<u8>)
    requires
        fits_emergency_multisig_instruction(v),
    ensures
        dec_emergency_multisig_instruction(enc_emergency_multisig_instruction(v) + rest) == Some((v, rest)),
{
    reveal(enc_emergency_multisig_instruction);
    reveal(dec_emergency_multisig_instruction);
    match v {
        EmergencyMultisigInstructionModel::InitializeMultisig{ signers, freeze_quorum, revoke_quorum, policy_quorum, current_slot } => lemma_emergency_multisig_instruction_initialize_multisig(signers, freeze_quorum, revoke_quorum, policy_quorum, current_slot, rest),
        EmergencyMultisigInstructionModel::ProposeAction{ proposal_id, action, ttl_slots, current_slot } => lemma_emergency_multisig_instruction_propose_action(proposal_id, action, ttl_slots, current_slot, rest),
        EmergencyMultisigInstructionModel::ApproveAction{ proposal_id, current_slot } => lemma_emergency_multisig_instruction_approve_action(proposal_id, current_slot, rest),
        EmergencyMultisigInstructionModel::ExecuteAction{ proposal_id, current_slot } => lemma_emergency_multisig_instruction_execute_action(proposal_id, current_slot, rest),
        EmergencyMultisigInstructionModel::CancelAction{ proposal_id } => lemma_emergency_multisig_instruction_cancel_action(proposal_id, rest),
    }
}

/// Decodes a [`EmergencyMultisigInstruction`] that must take up all of `d`.
pub fn emergency_multisig_instruction_from_slice(d: &[u8]) -> (r: Option<EmergencyMultisigInstruction>)
    ensures
        r is Some <==> (dec_emergency_multisig_instruction(d@) matches Some((_, rest)) && rest.len() == 0),
        r matches Some(v) ==> dec_emergency_multisig_instruction(d@) == Some((v@, Seq::<u8>::empty())),
{
    assert(d@.skip(0) =~= d@);
    match read_emergency_multisig_instruction(d, 0) {
        None => None,
        Some((v, p)) => {
            if p == d.len() {
                assert(d@.skip(p as int) =~= Seq::<u8>::empty());
                Some(v)
            } else {
                None
            }
        },
    }
}

/// Decodes a [`EmergencyMultisigInstruction`] from the front of `d`, ignoring what follows it.
pub fn emergency_multisig_instruction_from_prefix(d: &[u8]) -> (r: Option<EmergencyMultisigInstruction>)
    ensures
        r is Some <==> dec_emergency_multisig_instruction(d@) is Some,
        r matches Some(v) ==> dec_emergency_multisig_instruction(d@) matches Some((m, _)) && m == v@,
{
    assert(d@.skip(0) =~= d@);
    match read_emergency_multisig_instruction(d, 0) {
        None => None,
        Some((v, _)) => Some(v),
    }
}

/// Serialises a [`EmergencyMultisigInstruction`]; `None` when a length does not fit the `u32` prefix.
pub fn emergency_multisig_instruction_to_vec(v: &EmergencyMultisigInstruction) -> (r: Option<Vec<u8>>)
    ensures
        r is Some <==> fits_emergency_multisig_instruction(v@),
        r matches Some(b) ==> b@ == enc_emergency_multisig_instruction(v@),
{
    let mut out: Vec<u8> = Vec::new();
    if write_emergency_multisig_instruction(&mut out, v) {
        assert(out@ =~= enc_emergency_multisig_instruction(v@));
        Some(out)
    } else {
        None
    }
}

/// Custom error codes of the emergency-multisig program.
#[derive(Clone, Copy, Debug, PartialEq, Eq, Structural)]
pub enum EmergencyMultisigError {
    AlreadyInitialized,
    Uninitialized,
    Unauthorized,
    SignerNotMember,
    ProposalAlreadyExists,
    ProposalNotFound,
    ProposalAlreadyExecuted,
    ProposalExpired,
    ProposalCancelled,
    QuorumNotMet,
    AlreadyApproved,
    InvalidAccountData,
    InvalidInstructionData,
}

impl EmergencyMultisigError {
    /// The custom error code carried by this error.
    pub open spec fn spec_code(self) -> u32 {
        match self {
            EmergencyMultisigError::AlreadyInitialized => 0,
            EmergencyMultisigError::Uninitialized => 1,
            EmergencyMultisigError::Unauthorized => 2,
            EmergencyMultisigError::SignerNotMember => 3,
            EmergencyMultisigError::ProposalAlreadyExists => 4,
            EmergencyMultisigError::ProposalNotFound => 5,
            EmergencyMultisigError::ProposalAlreadyExecuted => 6,
            EmergencyMultisigError::ProposalExpired => 7,
            EmergencyMultisigError::ProposalCancelled => 8,
            EmergencyMultisigError::QuorumNotMet => 9,
            EmergencyMultisigError::AlreadyApproved => 10,
            EmergencyMultisigError::InvalidAccountData => 11,
            EmergencyMultisigError::InvalidInstructionData => 12,
        }
    }

    pub fn code(self) -> (c: u32)
        ensures
            c == self.spec_code(),
    {
        match self {
            EmergencyMultisigError::AlreadyInitialized => 0,
            EmergencyMultisigError::Uninitialized => 1,
            EmergencyMultisigError::Unauthorized => 2,
            EmergencyMultisigError::SignerNotMember => 3,
            EmergencyMultisigError::ProposalAlreadyExists => 4,
            EmergencyMultisigError::ProposalNotFound => 5,
            EmergencyMultisigError::ProposalAlreadyExecuted => 6,
            EmergencyMultisigError::ProposalExpired => 7,
            EmergencyMultisigError::ProposalCancelled => 8,
            EmergencyMultisigError::QuorumNotMet => 9,
            EmergencyMultisigError::AlreadyApproved => 10,
            EmergencyMultisigError::InvalidAccountData => 11,
            EmergencyMultisigError::InvalidInstructionData => 12,
        }
    }
}

} // verus!
