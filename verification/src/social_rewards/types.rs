//! Data types and their byte layout.
use vstd::prelude::*;
use crate::codec::{dec_bool, dec_pubkey, dec_u128, dec_u16, dec_u32, dec_u64, enc_bool, enc_pubkey, enc_u128, enc_u16, enc_u32, enc_u64, fits_u32, lemma_assoc, lemma_bool, lemma_pubkey, lemma_skip_skip, lemma_u128, lemma_u16, lemma_u32, lemma_u64, read_bool, read_ok, read_pubkey, read_u128, read_u16, read_u32, read_u64, read_u8, write_bool, write_pubkey, write_u128, write_u16, write_u32, write_u64};
use crate::layout::{dec_opt_pubkey, enc_opt_pubkey, lemma_opt_pubkey, read_opt_pubkey, write_opt_pubkey};
use crate::pubkey::{Pubkey};

verus! {

/// Custom error codes of the social rewards program.
#[derive(Clone, Copy, Debug, PartialEq, Eq, Structural)]
pub enum SocialRewardsError {
    Uninitialized,
    Unauthorized,
    RewardsPaused,
    EpochAlreadyRecorded,
    NothingToClaim,
    InvalidSettlementInput,
    EpochAlreadySettled,
    ClaimBelowMinimum,
}

impl SocialRewardsError {
    /// The custom error code carried by this error.
    pub open spec fn spec_code(self) -> u32 {
        match self {
            SocialRewardsError::Uninitialized => 0,
            SocialRewardsError::Unauthorized => 1,
            SocialRewardsError::RewardsPaused => 2,
            SocialRewardsError::EpochAlreadyRecorded => 3,
            SocialRewardsError::NothingToClaim => 4,
            SocialRewardsError::InvalidSettlementInput => 5,
            SocialRewardsError::EpochAlreadySettled => 6,
            SocialRewardsError::ClaimBelowMinimum => 7,
        }
    }

    pub fn code(self) -> (c: u32)
        ensures
            c == self.spec_code(),
    {
        match self {
            SocialRewardsError::Uninitialized => 0,
            SocialRewardsError::Unauthorized => 1,
            SocialRewardsError::RewardsPaused => 2,
            SocialRewardsError::EpochAlreadyRecorded => 3,
            SocialRewardsError::NothingToClaim => 4,
            SocialRewardsError::InvalidSettlementInput => 5,
            SocialRewardsError::EpochAlreadySettled => 6,
            SocialRewardsError::ClaimBelowMinimum => 7,
        }
    }
}

/// Rewards configuration.
#[derive(Clone, Copy, Debug, PartialEq, Eq)]
pub struct RewardConfig {
    pub authority: Pubkey,
    pub treasury: Pubkey,
    pub reward_vault: Pubkey,
    pub settlement_authority: Pubkey,
    pub min_claim_amount: u64,
    pub rewards_enabled: bool,
}

#[verifier::opaque]
pub open spec fn enc_reward_config(v: RewardConfig) -> Seq<u8> {
    enc_pubkey(v.authority) + (enc_pubkey(v.treasury) + (enc_pubkey(v.reward_vault) + (enc_pubkey(v.settlement_authority) + (enc_u64(v.min_claim_amount) + (enc_bool(v.rewards_enabled))))))
}

#[verifier::opaque]
pub open spec fn dec_reward_config(s: Seq<u8>) -> Option<(RewardConfig, Seq<u8>)> {
    match dec_pubkey(s) {
            Some((authority, r1)) => match dec_pubkey(r1) {
            Some((treasury, r2)) => match dec_pubkey(r2) {
            Some((reward_vault, r3)) => match dec_pubkey(r3) {
            Some((settlement_authority, r4)) => match dec_u64(r4) {
            Some((min_claim_amount, r5)) => match dec_bool(r5) {
            Some((rewards_enabled, r6)) => Some((RewardConfig { authority, treasury, reward_vault, settlement_authority, min_claim_amount, rewards_enabled }, r6)),
            None => None,
        },
            None => None,
        },
            None => None,
        },
            None => None,
        },
            None => None,
        },
            None => None,
        }
}

pub fn read_reward_config(d: &[u8], pos: usize) -> (r: Option<(RewardConfig, usize)>)
    requires
        pos <= d@.len(),
    ensures
        read_ok(dec_reward_config(d@.skip(pos as int)), r, d@),
{
    proof {
        reveal(dec_reward_config);
    }
    match read_pubkey(d, pos) {
        None => None,
        Some((authority, p1)) => match read_pubkey(d, p1) {
        None => None,
        Some((treasury, p2)) => match read_pubkey(d, p2) {
        None => None,
        Some((reward_vault, p3)) => match read_pubkey(d, p3) {
        None => None,
        Some((settlement_authority, p4)) => match read_u64(d, p4) {
        None => None,
        Some((min_claim_amount, p5)) => match read_bool(d, p5) {
        None => None,
        Some((rewards_enabled, p6)) => Some((RewardConfig { authority, treasury, reward_vault, settlement_authority, min_claim_amount, rewards_enabled }, p6)),
    },
    },
    },
    },
    },
    }
}

pub fn write_reward_config(out: &mut Vec<u8>, v: &RewardConfig)
    ensures
        final(out)@ == old(out)@ + enc_reward_config(*v),
{
    proof {
        reveal(enc_reward_config);
    }
    write_pubkey(out, &v.authority);
    let ghost o0 = out@;
    write_pubkey(out, &v.treasury);
    let ghost o1 = out@;
    write_pubkey(out, &v.reward_vault);
    let ghost o2 = out@;
    write_pubkey(out, &v.settlement_authority);
    let ghost o3 = out@;
    write_u64(out, *&v.min_claim_amount);
    let ghost o4 = out@;
    write_bool(out, *&v.rewards_enabled);
    let ghost o5 = out@;
    proof {
        lemma_assoc(o3, enc_u64((*v).min_claim_amount), enc_bool((*v).rewards_enabled));
        lemma_assoc(o2, enc_pubkey((*v).settlement_authority), enc_u64((*v).min_claim_amount) + (enc_bool((*v).rewards_enabled)));
        lemma_assoc(o1, enc_pubkey((*v).reward_vault), enc_pubkey((*v).settlement_authority) + (enc_u64((*v).min_claim_amount) + (enc_bool((*v).rewards_enabled))));
        lemma_assoc(o0, enc_pubkey((*v).treasury), enc_pubkey((*v).reward_vault) + (enc_pubkey((*v).settlement_authority) + (enc_u64((*v).min_claim_amount) + (enc_bool((*v).rewards_enabled)))));
        lemma_assoc(old(out)@, enc_pubkey((*v).authority), enc_pubkey((*v).treasury) + (enc_pubkey((*v).reward_vault) + (enc_pubkey((*v).settlement_authority) + (enc_u64((*v).min_claim_amount) + (enc_bool((*v).rewards_enabled))))));
    }
}

pub proof fn lemma_reward_config(v: RewardConfig, rest: Seq<u8>)
    ensures
        dec_reward_config(enc_reward_config(v) + rest) == Some((v, rest)),
{
    reveal(enc_reward_config);
    reveal(dec_reward_config);
    lemma_assoc(enc_pubkey(v.authority), enc_pubkey(v.treasury) + (enc_pubkey(v.reward_vault) + (enc_pubkey(v.settlement_authority) + (enc_u64(v.min_claim_amount) + (enc_bool(v.rewards_enabled))))), rest);
    lemma_pubkey(v.authority, enc_pubkey(v.treasury) + (enc_pubkey(v.reward_vault) + (enc_pubkey(v.settlement_authority) + (enc_u64(v.min_claim_amount) + (enc_bool(v.rewards_enabled))))) + rest);
    lemma_assoc(enc_pubkey(v.treasury), enc_pubkey(v.reward_vault) + (enc_pubkey(v.settlement_authority) + (enc_u64(v.min_claim_amount) + (enc_bool(v.rewards_enabled)))), rest);
    lemma_pubkey(v.treasury, enc_pubkey(v.reward_vault) + (enc_pubkey(v.settlement_authority) + (enc_u64(v.min_claim_amount) + (enc_bool(v.rewards_enabled)))) + rest);
    lemma_assoc(enc_pubkey(v.reward_vault), enc_pubkey(v.settlement_authority) + (enc_u64(v.min_claim_amount) + (enc_bool(v.rewards_enabled))), rest);
    lemma_pubkey(v.reward_vault, enc_pubkey(v.settlement_authority) + (enc_u64(v.min_claim_amount) + (enc_bool(v.rewards_enabled))) + rest);
    lemma_assoc(enc_pubkey(v.settlement_authority), enc_u64(v.min_claim_amount) + (enc_bool(v.rewards_enabled)), rest);
    lemma_pubkey(v.settlement_authority, enc_u64(v.min_claim_amount) + (enc_bool(v.rewards_enabled)) + rest);
    lemma_assoc(enc_u64(v.min_claim_amount), enc_bool(v.rewards_enabled), rest);
    lemma_u64(v.min_claim_amount, enc_bool(v.rewards_enabled) + rest);
    lemma_bool(v.rewards_enabled, rest);
}

/// Reward accounting of one creator.
#[derive(Clone, Copy, Debug, PartialEq, Eq)]
pub struct CreatorRewardAccount {
    pub creator: Pubkey,
    pub total_earned: u128,
    pub total_claimed: u128,
    pub claimable_amount: u64,
    pub last_settled_epoch: u64,
}

#[verifier::opaque]
pub open spec fn enc_creator_reward_account(v: CreatorRewardAccount) -> Seq<u8> {
    enc_pubkey(v.creator) + (enc_u128(v.total_earned) + (enc_u128(v.total_claimed) + (enc_u64(v.claimable_amount) + (enc_u64(v.last_settled_epoch)))))
}

#[verifier::opaque]
pub open spec fn dec_creator_reward_account(s: Seq<u8>) -> Option<(CreatorRewardAccount, Seq<u8>)> {
    match dec_pubkey(s) {
            Some((creator, r1)) => match dec_u128(r1) {
            Some((total_earned, r2)) => match dec_u128(r2) {
            Some((total_claimed, r3)) => match dec_u64(r3) {
            Some((claimable_amount, r4)) => match dec_u64(r4) {
            Some((last_settled_epoch, r5)) => Some((CreatorRewardAccount { creator, total_earned, total_claimed, claimable_amount, last_settled_epoch }, r5)),
            None => None,
        },
            None => None,
        },
            None => None,
        },
            None => None,
        },
            None => None,
        }
}

pub fn read_creator_reward_account(d: &[u8], pos: usize) -> (r: Option<(CreatorRewardAccount, usize)>)
    requires
        pos <= d@.len(),
    ensures
        read_ok(dec_creator_reward_account(d@.skip(pos as int)), r, d@),
{
    proof {
        reveal(dec_creator_reward_account);
    }
    match read_pubkey(d, pos) {
        None => None,
        Some((creator, p1)) => match read_u128(d, p1) {
        None => None,
        Some((total_earned, p2)) => match read_u128(d, p2) {
        None => None,
        Some((total_claimed, p3)) => match read_u64(d, p3) {
        None => None,
        Some((claimable_amount, p4)) => match read_u64(d, p4) {
        None => None,
        Some((last_settled_epoch, p5)) => Some((CreatorRewardAccount { creator, total_earned, total_claimed, claimable_amount, last_settled_epoch }, p5)),
    },
    },
    },
    },
    }
}

pub fn write_creator_reward_account(out: &mut Vec<u8>, v: &CreatorRewardAccount)
    ensures
        final(out)@ == old(out)@ + enc_creator_reward_account(*v),
{
    proof {
        reveal(enc_creator_reward_account);
    }
    write_pubkey(out, &v.creator);
    let ghost o0 = out@;
    write_u128(out, *&v.total_earned);
    let ghost o1 = out@;
    write_u128(out, *&v.total_claimed);
    let ghost o2 = out@;
    write_u64(out, *&v.claimable_amount);
    let ghost o3 = out@;
    write_u64(out, *&v.last_settled_epoch);
    let ghost o4 = out@;
    proof {
        lemma_assoc(o2, enc_u64((*v).claimable_amount), enc_u64((*v).last_settled_epoch));
        lemma_assoc(o1, enc_u128((*v).total_claimed), enc_u64((*v).claimable_amount) + (enc_u64((*v).last_settled_epoch)));
        lemma_assoc(o0, enc_u128((*v).total_earned), enc_u128((*v).total_claimed) + (enc_u64((*v).claimable_amount) + (enc_u64((*v).last_settled_epoch))));
        lemma_assoc(old(out)@, enc_pubkey((*v).creator), enc_u128((*v).total_earned) + (enc_u128((*v).total_claimed) + (enc_u64((*v).claimable_amount) + (enc_u64((*v).last_settled_epoch)))));
    }
}

pub proof fn lemma_creator_reward_account(v: CreatorRewardAccount, rest: Seq<u8>)
    ensures
        dec_creator_reward_account(enc_creator_reward_account(v) + rest) == Some((v, rest)),
{
    reveal(enc_creator_reward_account);
    reveal(dec_creator_reward_account);
    lemma_assoc(enc_pubkey(v.creator), enc_u128(v.total_earned) + (enc_u128(v.total_claimed) + (enc_u64(v.claimable_amount) + (enc_u64(v.last_settled_epoch)))), rest);
    lemma_pubkey(v.creator, enc_u128(v.total_earned) + (enc_u128(v.total_claimed) + (enc_u64(v.claimable_amount) + (enc_u64(v.last_settled_epoch)))) + rest);
    lemma_assoc(enc_u128(v.total_earned), enc_u128(v.total_claimed) + (enc_u64(v.claimable_amount) + (enc_u64(v.last_settled_epoch))), rest);
    lemma_u128(v.total_earned, enc_u128(v.total_claimed) + (enc_u64(v.claimable_amount) + (enc_u64(v.last_settled_epoch))) + rest);
    lemma_assoc(enc_u128(v.total_claimed), enc_u64(v.claimable_amount) + (enc_u64(v.last_settled_epoch)), rest);
    lemma_u128(v.total_claimed, enc_u64(v.claimable_amount) + (enc_u64(v.last_settled_epoch)) + rest);
    lemma_assoc(enc_u64(v.claimable_amount), enc_u64(v.last_settled_epoch), rest);
    lemma_u64(v.claimable_amount, enc_u64(v.last_settled_epoch) + rest);
    lemma_u64(v.last_settled_epoch, rest);
}

/// Decodes a [`CreatorRewardAccount`] that must take up all of `d`.
pub fn creator_reward_account_from_slice(d: &[u8]) -> (r: Option<CreatorRewardAccount>)
    ensures
        r is Some <==> (dec_creator_reward_account(d@) matches Some((_, rest)) && rest.len() == 0),
        r matches Some(v) ==> dec_creator_reward_account(d@) == Some((v, Seq::<u8>::empty())),
{
    assert(d@.skip(0) =~= d@);
    match read_creator_reward_account(d, 0) {
        None => None,
        Some((v, p)) => {
            if p == d.len() {
                assert(d@.skip(p as int) =~= Seq::<u8>::empty());
                Some(v)
            } else {
                None
            }
        },
    }
}

/// Decodes a [`CreatorRewardAccount`] from the front of `d`, ignoring what follows it.
pub fn creator_reward_account_from_prefix(d: &[u8]) -> (r: Option<CreatorRewardAccount>)
    ensures
        r is Some <==> dec_creator_reward_account(d@) is Some,
        r matches Some(v) ==> dec_creator_reward_account(d@) matches Some((m, _)) && m == v,
{
    assert(d@.skip(0) =~= d@);
    match read_creator_reward_account(d, 0) {
        None => None,
        Some((v, _)) => Some(v),
    }
}

/// Serialises a [`CreatorRewardAccount`].
pub fn creator_reward_account_to_vec(v: &CreatorRewardAccount) -> (r: Vec<u8>)
    ensures
        r@ == enc_creator_reward_account(*v),
{
    let mut out: Vec<u8> = Vec::new();
    write_creator_reward_account(&mut out, v);
    assert(out@ =~= enc_creator_reward_account(*v));
    out
}


pub open spec fn enc_items_creator_reward_account(xs: Seq<CreatorRewardAccount>) -> Seq<u8>
    decreases xs.len(),
{
    if xs.len() == 0 {
        Seq::empty()
    } else {
        enc_items_creator_reward_account(xs.drop_last()) + enc_creator_reward_account(xs.last())
    }
}

pub open spec fn dec_items_creator_reward_account(s: Seq<u8>, n: nat) -> Option<(Seq<CreatorRewardAccount>, Seq<u8>)>
    decreases n,
{
    if n == 0 {
        Some((Seq::empty(), s))
    } else {
        match dec_items_creator_reward_account(s, (n - 1) as nat) {
            Some((xs, r)) => match dec_creator_reward_account(r) {
                Some((x, r2)) => Some((xs.push(x), r2)),
                None => None,
            },
            None => None,
        }
    }
}

pub open spec fn enc_vec_creator_reward_account(xs: Seq<CreatorRewardAccount>) -> Seq<u8> {
    enc_u32(xs.len() as u32) + enc_items_creator_reward_account(xs)
}

pub open spec fn dec_vec_creator_reward_account(s: Seq<u8>) -> Option<(Seq<CreatorRewardAccount>, Seq<u8>)> {
    match dec_u32(s) {
        Some((n, r)) => dec_items_creator_reward_account(r, n as nat),
        None => None,
    }
}


pub open spec fn fits_vec_creator_reward_account(xs: Seq<CreatorRewardAccount>) -> bool {
    fits_u32(xs.len())
}


pub open spec fn model_vec_creator_reward_account(v: Seq<CreatorRewardAccount>) -> Seq<CreatorRewardAccount> {
    v
}

pub proof fn lemma_items_none_creator_reward_account(s: Seq<u8>, k: nat, n: nat)
    requires
        k <= n,
        dec_items_creator_reward_account(s, k) is None,
    ensures
        dec_items_creator_reward_account(s, n) is None,
    decreases n - k,
{
    if k < n {
        lemma_items_none_creator_reward_account(s, k, (n - 1) as nat);
    }
}

pub fn read_vec_creator_reward_account(d: &[u8], pos: usize) -> (r: Option<(Vec<CreatorRewardAccount>, usize)>)
    requires
        pos <= d@.len(),
    ensures
        match r {
            None => dec_vec_creator_reward_account(d@.skip(pos as int)) is None,
            Some((v, p)) => p <= d@.len() && dec_vec_creator_reward_account(d@.skip(pos as int)) == Some((model_vec_creator_reward_account(v@), d@.skip(p as int))),
        },
{
    match read_u32(d, pos) {
        None => None,
        Some((n, p0)) => {
            let mut v: Vec<CreatorRewardAccount> = Vec::new();
            let mut p = p0;
            let mut i: u32 = 0;
            while i < n
                invariant
                    p <= d@.len(),
                    pos <= d@.len(),
                    dec_u32(d@.skip(pos as int)) == Some((n, d@.skip(p0 as int))),
                    i <= n,
                    v@.len() == i,
                    dec_items_creator_reward_account(d@.skip(p0 as int), i as nat) == Some((model_vec_creator_reward_account(v@), d@.skip(p as int))),
                decreases n - i,
            {
                match read_creator_reward_account(d, p) {
                    None => {
                        proof {
                            assert(dec_creator_reward_account(d@.skip(p as int)) is None);
                            assert(dec_items_creator_reward_account(d@.skip(p0 as int), (i + 1) as nat) is None);
                            lemma_items_none_creator_reward_account(d@.skip(p0 as int), (i + 1) as nat, n as nat);
                        }
                        return None;
                    },
                    Some((x, p2)) => {
                        let ghost old_v = v@;
                        v.push(x);
                        proof {
                            assert(model_vec_creator_reward_account(v@) =~= model_vec_creator_reward_account(old_v).push(x));
                        }
                        p = p2;
                        i = i + 1;
                    },
                }
            }
            Some((v, p))
        },
    }
}


pub fn write_vec_creator_reward_account(out: &mut Vec<u8>, v: &Vec<CreatorRewardAccount>) -> (ok: bool)
    ensures
        ok == fits_vec_creator_reward_account(model_vec_creator_reward_account(v@)),
        ok ==> final(out)@ == old(out)@ + enc_vec_creator_reward_account(model_vec_creator_reward_account(v@)),
{
    if v.len() > u32::MAX as usize {
        return false;
    }
    write_u32(out, v.len() as u32);
    let ghost base = out@;
    let mut i: usize = 0;
    while i < v.len()
        invariant
            i <= v@.len(),
            v@.len() <= u32::MAX,
            out@ == base + enc_items_creator_reward_account(model_vec_creator_reward_account(v@).take(i as int)),
        decreases v@.len() - i,
    {
        write_creator_reward_account(out, &v[i]);
        proof {
            assert(model_vec_creator_reward_account(v@).take(i + 1).drop_last() =~= model_vec_creator_reward_account(v@).take(i as int));
            assert(model_vec_creator_reward_account(v@).take(i + 1).last() == model_vec_creator_reward_account(v@)[i as int]);
        }
        i = i + 1;
    }
    proof {
        assert(model_vec_creator_reward_account(v@).take(v@.len() as int) =~= model_vec_creator_reward_account(v@));
    }
    true
}


pub proof fn lemma_items_creator_reward_account(xs: Seq<CreatorRewardAccount>, rest: Seq<u8>)
    requires
        true,
    ensures
        dec_items_creator_reward_account(enc_items_creator_reward_account(xs) + rest, xs.len()) == Some((xs, rest)),
    decreases xs.len(),
{
    if xs.len() == 0 {
        assert(enc_items_creator_reward_account(xs) + rest =~= rest);
        assert(xs =~= Seq::<CreatorRewardAccount>::empty());
    } else {
        let init = xs.drop_last();
        let last = xs.last();
        assert forall|i: int| 0 <= i < init.len() implies init[i] == xs[i] by {}
        lemma_items_creator_reward_account(init, enc_creator_reward_account(last) + rest);
        assert(enc_items_creator_reward_account(xs) + rest =~= enc_items_creator_reward_account(init) + (enc_creator_reward_account(last) + rest));
        lemma_creator_reward_account(last, rest);
        assert(init.push(last) =~= xs);
    }
}

pub proof fn lemma_vec_creator_reward_account(xs: Seq<CreatorRewardAccount>, rest: Seq<u8>)
    requires
        fits_vec_creator_reward_account(xs),
    ensures
        dec_vec_creator_reward_account(enc_vec_creator_reward_account(xs) + rest) == Some((xs, rest)),
{
    assert(enc_vec_creator_reward_account(xs) + rest =~= enc_u32(xs.len() as u32) + (enc_items_creator_reward_account(xs) + rest));
    lemma_u32(xs.len() as u32, enc_items_creator_reward_account(xs) + rest);
    lemma_items_creator_reward_account(xs, rest);
}

/// Rewards of one creator for one epoch.
#[derive(Clone, Copy, Debug, PartialEq, Eq)]
pub struct CreatorRewardEpochRecord {
    pub epoch: u64,
    pub creator: Pubkey,
    pub earned_points: u128,
    pub reward_amount: u64,
    pub claimed_amount: u64,
    pub penalty_bps: u16,
}

#[verifier::opaque]
pub open spec fn enc_creator_reward_epoch_record(v: CreatorRewardEpochRecord) -> Seq<u8> {
    enc_u64(v.epoch) + (enc_pubkey(v.creator) + (enc_u128(v.earned_points) + (enc_u64(v.reward_amount) + (enc_u64(v.claimed_amount) + (enc_u16(v.penalty_bps))))))
}

#[verifier::opaque]
pub open spec fn dec_creator_reward_epoch_record(s: Seq<u8>) -> Option<(CreatorRewardEpochRecord, Seq<u8>)> {
    match dec_u64(s) {
            Some((epoch, r1)) => match dec_pubkey(r1) {
            Some((creator, r2)) => match dec_u128(r2) {
            Some((earned_points, r3)) => match dec_u64(r3) {
            Some((reward_amount, r4)) => match dec_u64(r4) {
            Some((claimed_amount, r5)) => match dec_u16(r5) {
            Some((penalty_bps, r6)) => Some((CreatorRewardEpochRecord { epoch, creator, earned_points, reward_amount, claimed_amount, penalty_bps }, r6)),
            None => None,
        },
            None => None,
        },
            None => None,
        },
            None => None,
        },
            None => None,
        },
            None => None,
        }
}

pub fn read_creator_reward_epoch_record(d: &[u8], pos: usize) -> (r: Option<(CreatorRewardEpochRecord, usize)>)
    requires
        pos <= d@.len(),
    ensures
        read_ok(dec_creator_reward_epoch_record(d@.skip(pos as int)), r, d@),
{
    proof {
        reveal(dec_creator_reward_epoch_record);
    }
    match read_u64(d, pos) {
        None => None,
        Some((epoch, p1)) => match read_pubkey(d, p1) {
        None => None,
        Some((creator, p2)) => match read_u128(d, p2) {
        None => None,
        Some((earned_points, p3)) => match read_u64(d, p3) {
        None => None,
        Some((reward_amount, p4)) => match read_u64(d, p4) {
        None => None,
        Some((claimed_amount, p5)) => match read_u16(d, p5) {
        None => None,
        Some((penalty_bps, p6)) => Some((CreatorRewardEpochRecord { epoch, creator, earned_points, reward_amount, claimed_amount, penalty_bps }, p6)),
    },
    },
    },
    },
    },
    }
}

pub fn write_creator_reward_epoch_record(out: &mut Vec<u8>, v: &CreatorRewardEpochRecord)
    ensures
        final(out)@ == old(out)@ + enc_creator_reward_epoch_record(*v),
{
    proof {
        reveal(enc_creator_reward_epoch_record);
    }
    write_u64(out, *&v.epoch);
    let ghost o0 = out@;
    write_pubkey(out, &v.creator);
    let ghost o1 = out@;
    write_u128(out, *&v.earned_points);
    let ghost o2 = out@;
    write_u64(out, *&v.reward_amount);
    let ghost o3 = out@;
    write_u64(out, *&v.claimed_amount);
    let ghost o4 = out@;
    write_u16(out, *&v.penalty_bps);
    let ghost o5 = out@;
    proof {
        lemma_assoc(o3, enc_u64((*v).claimed_amount), enc_u16((*v).penalty_bps));
        lemma_assoc(o2, enc_u64((*v).reward_amount), enc_u64((*v).claimed_amount) + (enc_u16((*v).penalty_bps)));
        lemma_assoc(o1, enc_u128((*v).earned_points), enc_u64((*v).reward_amount) + (enc_u64((*v).claimed_amount) + (enc_u16((*v).penalty_bps))));
        lemma_assoc(o0, enc_pubkey((*v).creator), enc_u128((*v).earned_points) + (enc_u64((*v).reward_amount) + (enc_u64((*v).claimed_amount) + (enc_u16((*v).penalty_bps)))));
        lemma_assoc(old(out)@, enc_u64((*v).epoch), enc_pubkey((*v).creator) + (enc_u128((*v).earned_points) + (enc_u64((*v).reward_amount) + (enc_u64((*v).claimed_amount) + (enc_u16((*v).penalty_bps))))));
    }
}

pub proof fn lemma_creator_reward_epoch_record(v: CreatorRewardEpochRecord, rest: Seq<u8>)
    ensures
        dec_creator_reward_epoch_record(enc_creator_reward_epoch_record(v) + rest) == Some((v, rest)),
{
    reveal(enc_creator_reward_epoch_record);
    reveal(dec_creator_reward_epoch_record);
    lemma_assoc(enc_u64(v.epoch), enc_pubkey(v.creator) + (enc_u128(v.earned_points) + (enc_u64(v.reward_amount) + (enc_u64(v.claimed_amount) + (enc_u16(v.penalty_bps))))), rest);
    lemma_u64(v.epoch, enc_pubkey(v.creator) + (enc_u128(v.earned_points) + (enc_u64(v.reward_amount) + (enc_u64(v.claimed_amount) + (enc_u16(v.penalty_bps))))) + rest);
    lemma_assoc(enc_pubkey(v.creator), enc_u128(v.earned_points) + (enc_u64(v.reward_amount) + (enc_u64(v.claimed_amount) + (enc_u16(v.penalty_bps)))), rest);
    lemma_pubkey(v.creator, enc_u128(v.earned_points) + (enc_u64(v.reward_amount) + (enc_u64(v.claimed_amount) + (enc_u16(v.penalty_bps)))) + rest);
    lemma_assoc(enc_u128(v.earned_points), enc_u64(v.reward_amount) + (enc_u64(v.claimed_amount) + (enc_u16(v.penalty_bps))), rest);
    lemma_u128(v.earned_points, enc_u64(v.reward_amount) + (enc_u64(v.claimed_amount) + (enc_u16(v.penalty_bps))) + rest);
    lemma_assoc(enc_u64(v.reward_amount), enc_u64(v.claimed_amount) + (enc_u16(v.penalty_bps)), rest);
    lemma_u64(v.reward_amount, enc_u64(v.claimed_amount) + (enc_u16(v.penalty_bps)) + rest);
    lemma_assoc(enc_u64(v.claimed_amount), enc_u16(v.penalty_bps), rest);
    lemma_u64(v.claimed_amount, enc_u16(v.penalty_bps) + rest);
    lemma_u16(v.penalty_bps, rest);
}

/// Decodes a [`CreatorRewardEpochRecord`] that must take up all of `d`.
pub fn creator_reward_epoch_record_from_slice(d: &[u8]) -> (r: Option<CreatorRewardEpochRecord>)
    ensures
        r is Some <==> (dec_creator_reward_epoch_record(d@) matches Some((_, rest)) && rest.len() == 0),
        r matches Some(v) ==> dec_creator_reward_epoch_record(d@) == Some((v, Seq::<u8>::empty())),
{
    assert(d@.skip(0) =~= d@);
    match read_creator_reward_epoch_record(d, 0) {
        None => None,
        Some((v, p)) => {
            if p == d.len() {
                assert(d@.skip(p as int) =~= Seq::<u8>::empty());
                Some(v)
            } else {
                None
            }
        },
    }
}

/// Decodes a [`CreatorRewardEpochRecord`] from the front of `d`, ignoring what follows it.
pub fn creator_reward_epoch_record_from_prefix(d: &[u8]) -> (r: Option<CreatorRewardEpochRecord>)
    ensures
        r is Some <==> dec_creator_reward_epoch_record(d@) is Some,
        r matches Some(v) ==> dec_creator_reward_epoch_record(d@) matches Some((m, _)) && m == v,
{
    assert(d@.skip(0) =~= d@);
    match read_creator_reward_epoch_record(d, 0) {
        None => None,
        Some((v, _)) => Some(v),
    }
}

/// Serialises a [`CreatorRewardEpochRecord`].
pub fn creator_reward_epoch_record_to_vec(v: &CreatorRewardEpochRecord) -> (r: Vec<u8>)
    ensures
        r@ == enc_creator_reward_epoch_record(*v),
{
    let mut out: Vec<u8> = Vec::new();
    write_creator_reward_epoch_record(&mut out, v);
    assert(out@ =~= enc_creator_reward_epoch_record(*v));
    out
}


pub open spec fn enc_items_creator_reward_epoch_record(xs: Seq<CreatorRewardEpochRecord>) -> Seq<u8>
    decreases xs.len(),
{
    if xs.len() == 0 {
        Seq::empty()
    } else {
        enc_items_creator_reward_epoch_record(xs.drop_last()) + enc_creator_reward_epoch_record(xs.last())
    }
}

pub open spec fn dec_items_creator_reward_epoch_record(s: Seq<u8>, n: nat) -> Option<(Seq<CreatorRewardEpochRecord>, Seq<u8>)>
    decreases n,
{
    if n == 0 {
        Some((Seq::empty(), s))
    } else {
        match dec_items_creator_reward_epoch_record(s, (n - 1) as nat) {
            Some((xs, r)) => match dec_creator_reward_epoch_record(r) {
                Some((x, r2)) => Some((xs.push(x), r2)),
                None => None,
            },
            None => None,
        }
    }
}

pub open spec fn enc_vec_creator_reward_epoch_record(xs: Seq<CreatorRewardEpochRecord>) -> Seq<u8> {
    enc_u32(xs.len() as u32) + enc_items_creator_reward_epoch_record(xs)
}

pub open spec fn dec_vec_creator_reward_epoch_record(s: Seq<u8>) -> Option<(Seq<CreatorRewardEpochRecord>, Seq<u8>)> {
    match dec_u32(s) {
        Some((n, r)) => dec_items_creator_reward_epoch_record(r, n as nat),
        None => None,
    }
}


pub open spec fn fits_vec_creator_reward_epoch_record(xs: Seq<CreatorRewardEpochRecord>) -> bool {
    fits_u32(xs.len())
}


pub open spec fn model_vec_creator_reward_epoch_record(v: Seq<CreatorRewardEpochRecord>) -> Seq<CreatorRewardEpochRecord> {
    v
}

pub proof fn lemma_items_none_creator_reward_epoch_record(s: Seq<u8>, k: nat, n: nat)
    requires
        k <= n,
        dec_items_creator_reward_epoch_record(s, k) is None,
    ensures
        dec_items_creator_reward_epoch_record(s, n) is None,
    decreases n - k,
{
    if k < n {
        lemma_items_none_creator_reward_epoch_record(s, k, (n - 1) as nat);
    }
}

pub fn read_vec_creator_reward_epoch_record(d: &[u8], pos: usize) -> (r: Option<(Vec<CreatorRewardEpochRecord>, usize)>)
    requires
        pos <= d@.len(),
    ensures
        match r {
            None => dec_vec_creator_reward_epoch_record(d@.skip(pos as int)) is None,
            Some((v, p)) => p <= d@.len() && dec_vec_creator_reward_epoch_record(d@.skip(pos as int)) == Some((model_vec_creator_reward_epoch_record(v@), d@.skip(p as int))),
        },
{
    match read_u32(d, pos) {
        None => None,
        Some((n, p0)) => {
            let mut v: Vec<CreatorRewardEpochRecord> = Vec::new();
            let mut p = p0;
            let mut i: u32 = 0;
            while i < n
                invariant
                    p <= d@.len(),
                    pos <= d@.len(),
                    dec_u32(d@.skip(pos as int)) == Some((n, d@.skip(p0 as int))),
                    i <= n,
                    v@.len() == i,
                    dec_items_creator_reward_epoch_record(d@.skip(p0 as int), i as nat) == Some((model_vec_creator_reward_epoch_record(v@), d@.skip(p as int))),
                decreases n - i,
            {
                match read_creator_reward_epoch_record(d, p) {
                    None => {
                        proof {
                            assert(dec_creator_reward_epoch_record(d@.skip(p as int)) is None);
                            assert(dec_items_creator_reward_epoch_record(d@.skip(p0 as int), (i + 1) as nat) is None);
                            lemma_items_none_creator_reward_epoch_record(d@.skip(p0 as int), (i + 1) as nat, n as nat);
                        }
                        return None;
                    },
                    Some((x, p2)) => {
                        let ghost old_v = v@;
                        v.push(x);
                        proof {
                            assert(model_vec_creator_reward_epoch_record(v@) =~= model_vec_creator_reward_epoch_record(old_v).push(x));
                        }
                        p = p2;
                        i = i + 1;
                    },
                }
            }
            Some((v, p))
        },
    }
}


pub fn write_vec_creator_reward_epoch_record(out: &mut Vec<u8>, v: &Vec<CreatorRewardEpochRecord>) -> (ok: bool)
    ensures
        ok == fits_vec_creator_reward_epoch_record(model_vec_creator_reward_epoch_record(v@)),
        ok ==> final(out)@ == old(out)@ + enc_vec_creator_reward_epoch_record(model_vec_creator_reward_epoch_record(v@)),
{
    if v.len() > u32::MAX as usize {
        return false;
    }
    write_u32(out, v.len() as u32);
    let ghost base = out@;
    let mut i: usize = 0;
    while i < v.len()
        invariant
            i <= v@.len(),
            v@.len() <= u32::MAX,
            out@ == base + enc_items_creator_reward_epoch_record(model_vec_creator_reward_epoch_record(v@).take(i as int)),
        decreases v@.len() - i,
    {
        write_creator_reward_epoch_record(out, &v[i]);
        proof {
            assert(model_vec_creator_reward_epoch_record(v@).take(i + 1).drop_last() =~= model_vec_creator_reward_epoch_record(v@).take(i as int));
            assert(model_vec_creator_reward_epoch_record(v@).take(i + 1).last() == model_vec_creator_reward_epoch_record(v@)[i as int]);
        }
        i = i + 1;
    }
    proof {
        assert(model_vec_creator_reward_epoch_record(v@).take(v@.len() as int) =~= model_vec_creator_reward_epoch_record(v@));
    }
    true
}


pub proof fn lemma_items_creator_reward_epoch_record(xs: Seq<CreatorRewardEpochRecord>, rest: Seq<u8>)
    requires
        true,
    ensures
        dec_items_creator_reward_epoch_record(enc_items_creator_reward_epoch_record(xs) + rest, xs.len()) == Some((xs, rest)),
    decreases xs.len(),
{
    if xs.len() == 0 {
        assert(enc_items_creator_reward_epoch_record(xs) + rest =~= rest);
        assert(xs =~= Seq::<CreatorRewardEpochRecord>::empty());
    } else {
        let init = xs.drop_last();
        let last = xs.last();
        assert forall|i: int| 0 <= i < init.len() implies init[i] == xs[i] by {}
        lemma_items_creator_reward_epoch_record(init, enc_creator_reward_epoch_record(last) + rest);
        assert(enc_items_creator_reward_epoch_record(xs) + rest =~= enc_items_creator_reward_epoch_record(init) + (enc_creator_reward_epoch_record(last) + rest));
        lemma_creator_reward_epoch_record(last, rest);
        assert(init.push(last) =~= xs);
    }
}

pub proof fn lemma_vec_creator_reward_epoch_record(xs: Seq<CreatorRewardEpochRecord>, rest: Seq<u8>)
    requires
        fits_vec_creator_reward_epoch_record(xs),
    ensures
        dec_vec_creator_reward_epoch_record(enc_vec_creator_reward_epoch_record(xs) + rest) == Some((xs, rest)),
{
    assert(enc_vec_creator_reward_epoch_record(xs) + rest =~= enc_u32(xs.len() as u32) + (enc_items_creator_reward_epoch_record(xs) + rest));
    lemma_u32(xs.len() as u32, enc_items_creator_reward_epoch_record(xs) + rest);
    lemma_items_creator_reward_epoch_record(xs, rest);
}

/// Settlement input for one creator.
#[derive(Clone, Copy, Debug, PartialEq, Eq)]
pub struct CreatorEpochInput {
    pub creator: Pubkey,
    pub earned_points: u128,
    pub penalty_bps: u16,
    pub reputation_multiplier_bps: u16,
}

#[verifier::opaque]
pub open spec fn enc_creator_epoch_input(v: CreatorEpochInput) -> Seq<u8> {
    enc_pubkey(v.creator) + (enc_u128(v.earned_points) + (enc_u16(v.penalty_bps) + (enc_u16(v.reputation_multiplier_bps))))
}

#[verifier::opaque]
pub open spec fn dec_creator_epoch_input(s: Seq<u8>) -> Option<(CreatorEpochInput, Seq<u8>)> {
    match dec_pubkey(s) {
            Some((creator, r1)) => match dec_u128(r1) {
            Some((earned_points, r2)) => match dec_u16(r2) {
            Some((penalty_bps, r3)) => match dec_u16(r3) {
            Some((reputation_multiplier_bps, r4)) => Some((CreatorEpochInput { creator, earned_points, penalty_bps, reputation_multiplier_bps }, r4)),
            None => None,
        },
            None => None,
        },
            None => None,
        },
            None => None,
        }
}

pub fn read_creator_epoch_input(d: &[u8], pos: usize) -> (r: Option<(CreatorEpochInput, usize)>)
    requires
        pos <= d@.len(),
    ensures
        read_ok(dec_creator_epoch_input(d@.skip(pos as int)), r, d@),
{
    proof {
        reveal(dec_creator_epoch_input);
    }
    match read_pubkey(d, pos) {
        None => None,
        Some((creator, p1)) => match read_u128(d, p1) {
        None => None,
        Some((earned_points, p2)) => match read_u16(d, p2) {
        None => None,
        Some((penalty_bps, p3)) => match read_u16(d, p3) {
        None => None,
        Some((reputation_multiplier_bps, p4)) => Some((CreatorEpochInput { creator, earned_points, penalty_bps, reputation_multiplier_bps }, p4)),
    },
    },
    },
    }
}

pub fn write_creator_epoch_input(out: &mut Vec<u8>, v: &CreatorEpochInput)
    ensures
        final(out)@ == old(out)@ + enc_creator_epoch_input(*v),
{
    proof {
        reveal(enc_creator_epoch_input);
    }
    write_pubkey(out, &v.creator);
    let ghost o0 = out@;
    write_u128(out, *&v.earned_points);
    let ghost o1 = out@;
    write_u16(out, *&v.penalty_bps);
    let ghost o2 = out@;
    write_u16(out, *&v.reputation_multiplier_bps);
    let ghost o3 = out@;
    proof {
        lemma_assoc(o1, enc_u16((*v).penalty_bps), enc_u16((*v).reputation_multiplier_bps));
        lemma_assoc(o0, enc_u128((*v).earned_points), enc_u16((*v).penalty_bps) + (enc_u16((*v).reputation_multiplier_bps)));
        lemma_assoc(old(out)@, enc_pubkey((*v).creator), enc_u128((*v).earned_points) + (enc_u16((*v).penalty_bps) + (enc_u16((*v).reputation_multiplier_bps))));
    }
}

pub proof fn lemma_creator_epoch_input(v: CreatorEpochInput, rest: Seq<u8>)
    ensures
        dec_creator_epoch_input(enc_creator_epoch_input(v) + rest) == Some((v, rest)),
{
    reveal(enc_creator_epoch_input);
    reveal(dec_creator_epoch_input);
    lemma_assoc(enc_pubkey(v.creator), enc_u128(v.earned_points) + (enc_u16(v.penalty_bps) + (enc_u16(v.reputation_multiplier_bps))), rest);
    lemma_pubkey(v.creator, enc_u128(v.earned_points) + (enc_u16(v.penalty_bps) + (enc_u16(v.reputation_multiplier_bps))) + rest);
    lemma_assoc(enc_u128(v.earned_points), enc_u16(v.penalty_bps) + (enc_u16(v.reputation_multiplier_bps)), rest);
    lemma_u128(v.earned_points, enc_u16(v.penalty_bps) + (enc_u16(v.reputation_multiplier_bps)) + rest);
    lemma_assoc(enc_u16(v.penalty_bps), enc_u16(v.reputation_multiplier_bps), rest);
    lemma_u16(v.penalty_bps, enc_u16(v.reputation_multiplier_bps) + rest);
    lemma_u16(v.reputation_multiplier_bps, rest);
}


pub open spec fn enc_items_creator_epoch_input(xs: Seq<CreatorEpochInput>) -> Seq<u8>
    decreases xs.len(),
{
    if xs.len() == 0 {
        Seq::empty()
    } else {
        enc_items_creator_epoch_input(xs.drop_last()) + enc_creator_epoch_input(xs.last())
    }
}

pub open spec fn dec_items_creator_epoch_input(s: Seq<u8>, n: nat) -> Option<(Seq<CreatorEpochInput>, Seq<u8>)>
    decreases n,
{
    if n == 0 {
        Some((Seq::empty(), s))
    } else {
        match dec_items_creator_epoch_input(s, (n - 1) as nat) {
            Some((xs, r)) => match dec_creator_epoch_input(r) {
                Some((x, r2)) => Some((xs.push(x), r2)),
                None => None,
            },
            None => None,
        }
    }
}

pub open spec fn enc_vec_creator_epoch_input(xs: Seq<CreatorEpochInput>) -> Seq<u8> {
    enc_u32(xs.len() as u32) + enc_items_creator_epoch_input(xs)
}

pub open spec fn dec_vec_creator_epoch_input(s: Seq<u8>) -> Option<(Seq<CreatorEpochInput>, Seq<u8>)> {
    match dec_u32(s) {
        Some((n, r)) => dec_items_creator_epoch_input(r, n as nat),
        None => None,
    }
}


pub open spec fn fits_vec_creator_epoch_input(xs: Seq<CreatorEpochInput>) -> bool {
    fits_u32(xs.len())
}


pub open spec fn model_vec_creator_epoch_input(v: Seq<CreatorEpochInput>) -> Seq<CreatorEpochInput> {
    v
}

pub proof fn lemma_items_none_creator_epoch_input(s: Seq<u8>, k: nat, n: nat)
    requires
        k <= n,
        dec_items_creator_epoch_input(s, k) is None,
    ensures
        dec_items_creator_epoch_input(s, n) is None,
    decreases n - k,
{
    if k < n {
        lemma_items_none_creator_epoch_input(s, k, (n - 1) as nat);
    }
}

pub fn read_vec_creator_epoch_input(d: &[u8], pos: usize) -> (r: Option<(Vec<CreatorEpochInput>, usize)>)
    requires
        pos <= d@.len(),
    ensures
        match r {
            None => dec_vec_creator_epoch_input(d@.skip(pos as int)) is None,
            Some((v, p)) => p <= d@.len() && dec_vec_creator_epoch_input(d@.skip(pos as int)) == Some((model_vec_creator_epoch_input(v@), d@.skip(p as int))),
        },
{
    match read_u32(d, pos) {
        None => None,
        Some((n, p0)) => {
            let mut v: Vec<CreatorEpochInput> = Vec::new();
            let mut p = p0;
            let mut i: u32 = 0;
            while i < n
                invariant
                    p <= d@.len(),
                    pos <= d@.len(),
                    dec_u32(d@.skip(pos as int)) == Some((n, d@.skip(p0 as int))),
                    i <= n,
                    v@.len() == i,
                    dec_items_creator_epoch_input(d@.skip(p0 as int), i as nat) == Some((model_vec_creator_epoch_input(v@), d@.skip(p as int))),
                decreases n - i,
            {
                match read_creator_epoch_input(d, p) {
                    None => {
                        proof {
                            assert(dec_creator_epoch_input(d@.skip(p as int)) is None);
                            assert(dec_items_creator_epoch_input(d@.skip(p0 as int), (i + 1) as nat) is None);
                            lemma_items_none_creator_epoch_input(d@.skip(p0 as int), (i + 1) as nat, n as nat);
                        }
                        return None;
                    },
                    Some((x, p2)) => {
                        let ghost old_v = v@;
                        v.push(x);
                        proof {
                            assert(model_vec_creator_epoch_input(v@) =~= model_vec_creator_epoch_input(old_v).push(x));
                        }
                        p = p2;
                        i = i + 1;
                    },
                }
            }
            Some((v, p))
        },
    }
}


pub fn write_vec_creator_epoch_input(out: &mut Vec<u8>, v: &Vec<CreatorEpochInput>) -> (ok: bool)
    ensures
        ok == fits_vec_creator_epoch_input(model_vec_creator_epoch_input(v@)),
        ok ==> final(out)@ == old(out)@ + enc_vec_creator_epoch_input(model_vec_creator_epoch_input(v@)),
{
    if v.len() > u32::MAX as usize {
        return false;
    }
    write_u32(out, v.len() as u32);
    let ghost base = out@;
    let mut i: usize = 0;
    while i < v.len()
        invariant
            i <= v@.len(),
            v@.len() <= u32::MAX,
            out@ == base + enc_items_creator_epoch_input(model_vec_creator_epoch_input(v@).take(i as int)),
        decreases v@.len() - i,
    {
        write_creator_epoch_input(out, &v[i]);
        proof {
            assert(model_vec_creator_epoch_input(v@).take(i + 1).drop_last() =~= model_vec_creator_epoch_input(v@).take(i as int));
            assert(model_vec_creator_epoch_input(v@).take(i + 1).last() == model_vec_creator_epoch_input(v@)[i as int]);
        }
        i = i + 1;
    }
    proof {
        assert(model_vec_creator_epoch_input(v@).take(v@.len() as int) =~= model_vec_creator_epoch_input(v@));
    }
    true
}


pub proof fn lemma_items_creator_epoch_input(xs: Seq<CreatorEpochInput>, rest: Seq<u8>)
    requires
        true,
    ensures
        dec_items_creator_epoch_input(enc_items_creator_epoch_input(xs) + rest, xs.len()) == Some((xs, rest)),
    decreases xs.len(),
{
    if xs.len() == 0 {
        assert(enc_items_creator_epoch_input(xs) + rest =~= rest);
        assert(xs =~= Seq::<CreatorEpochInput>::empty());
    } else {
        let init = xs.drop_last();
        let last = xs.last();
        assert forall|i: int| 0 <= i < init.len() implies init[i] == xs[i] by {}
        lemma_items_creator_epoch_input(init, enc_creator_epoch_input(last) + rest);
        assert(enc_items_creator_epoch_input(xs) + rest =~= enc_items_creator_epoch_input(init) + (enc_creator_epoch_input(last) + rest));
        lemma_creator_epoch_input(last, rest);
        assert(init.push(last) =~= xs);
    }
}

pub proof fn lemma_vec_creator_epoch_input(xs: Seq<CreatorEpochInput>, rest: Seq<u8>)
    requires
        fits_vec_creator_epoch_input(xs),
    ensures
        dec_vec_creator_epoch_input(enc_vec_creator_epoch_input(xs) + rest) == Some((xs, rest)),
{
    assert(enc_vec_creator_epoch_input(xs) + rest =~= enc_u32(xs.len() as u32) + (enc_items_creator_epoch_input(xs) + rest));
    lemma_u32(xs.len() as u32, enc_items_creator_epoch_input(xs) + rest);
    lemma_items_creator_epoch_input(xs, rest);
}

/// Settlement input for one epoch.
#[derive(Clone, Debug, PartialEq, Eq)]
pub struct RewardSettlementInput {
    pub epoch: u64,
    pub reward_pool_amount: u64,
    pub creator_entries: Vec<CreatorEpochInput>,
}

/// Mathematical model of [`RewardSettlementInput`].
#[verifier::ext_equal]
pub struct RewardSettlementInputModel {
    pub epoch: u64,
    pub reward_pool_amount: u64,
    pub creator_entries: Seq<CreatorEpochInput>,
}

impl View for RewardSettlementInput {
    type V = RewardSettlementInputModel;

    open spec fn view(&self) -> RewardSettlementInputModel {
        RewardSettlementInputModel {
            epoch: self.epoch,
            reward_pool_amount: self.reward_pool_amount,
            creator_entries: self.creator_entries@,
        }
    }
}

#[verifier::opaque]
pub open spec fn enc_reward_settlement_input(v: RewardSettlementInputModel) -> Seq<u8> {
    enc_u64(v.epoch) + (enc_u64(v.reward_pool_amount) + (enc_vec_creator_epoch_input(v.creator_entries)))
}

#[verifier::opaque]
pub open spec fn dec_reward_settlement_input(s: Seq<u8>) -> Option<(RewardSettlementInputModel, Seq<u8>)> {
    match dec_u64(s) {
            Some((epoch, r1)) => match dec_u64(r1) {
            Some((reward_pool_amount, r2)) => match dec_vec_creator_epoch_input(r2) {
            Some((creator_entries, r3)) => Some((RewardSettlementInputModel { epoch, reward_pool_amount, creator_entries }, r3)),
            None => None,
        },
            None => None,
        },
            None => None,
        }
}

pub open spec fn fits_reward_settlement_input(v: RewardSettlementInputModel) -> bool {
    fits_vec_creator_epoch_input(v.creator_entries)
}

pub fn read_reward_settlement_input(d: &[u8], pos: usize) -> (r: Option<(RewardSettlementInput, usize)>)
    requires
        pos <= d@.len(),
    ensures
        match r {
            None => dec_reward_settlement_input(d@.skip(pos as int)) is None,
            Some((v, p)) => p <= d@.len() && dec_reward_settlement_input(d@.skip(pos as int)) == Some((v@, d@.skip(p as int))),
        },
{
    proof {
        reveal(dec_reward_settlement_input);
    }
    match read_u64(d, pos) {
        None => None,
        Some((epoch, p1)) => match read_u64(d, p1) {
        None => None,
        Some((reward_pool_amount, p2)) => match read_vec_creator_epoch_input(d, p2) {
        None => None,
        Some((creator_entries, p3)) => Some((RewardSettlementInput { epoch, reward_pool_amount, creator_entries }, p3)),
    },
    },
    }
}

pub fn write_reward_settlement_input(out: &mut Vec<u8>, v: &RewardSettlementInput) -> (ok: bool)
    ensures
        ok == fits_reward_settlement_input(v@),
        ok ==> final(out)@ == old(out)@ + enc_reward_settlement_input(v@),
{
    proof {
        reveal(enc_reward_settlement_input);
    }
    write_u64(out, *&v.epoch);
    let ghost o0 = out@;
    write_u64(out, *&v.reward_pool_amount);
    let ghost o1 = out@;
    if !write_vec_creator_epoch_input(out, &v.creator_entries) { return false; }
    let ghost o2 = out@;
    proof {
        lemma_assoc(o0, enc_u64(v@.reward_pool_amount), enc_vec_creator_epoch_input(v@.creator_entries));
        lemma_assoc(old(out)@, enc_u64(v@.epoch), enc_u64(v@.reward_pool_amount) + (enc_vec_creator_epoch_input(v@.creator_entries)));
    }
    true
}

pub proof fn lemma_reward_settlement_input(v: RewardSettlementInputModel, rest: Seq<u8>)
    requires
        fits_reward_settlement_input(v),
    ensures
        dec_reward_settlement_input(enc_reward_settlement_input(v) + rest) == Some((v, rest)),
{
    reveal(enc_reward_settlement_input);
    reveal(dec_reward_settlement_input);
    lemma_assoc(enc_u64(v.epoch), enc_u64(v.reward_pool_amount) + (enc_vec_creator_epoch_input(v.creator_entries)), rest);
    lemma_u64(v.epoch, enc_u64(v.reward_pool_amount) + (enc_vec_creator_epoch_input(v.creator_entries)) + rest);
    lemma_assoc(enc_u64(v.reward_pool_amount), enc_vec_creator_epoch_input(v.creator_entries), rest);
    lemma_u64(v.reward_pool_amount, enc_vec_creator_epoch_input(v.creator_entries) + rest);
    lemma_vec_creator_epoch_input(v.creator_entries, rest);
}

/// Summary of one settled epoch.
#[derive(Clone, Copy, Debug, PartialEq, Eq)]
pub struct RewardEpochSettlement {
    pub epoch: u64,
    pub reward_pool_amount: u64,
    pub total_effective_points: u128,
    pub settled_creator_count: u32,
}

#[verifier::opaque]
pub open spec fn enc_reward_epoch_settlement(v: RewardEpochSettlement) -> Seq<u8> {
    enc_u64(v.epoch) + (enc_u64(v.reward_pool_amount) + (enc_u128(v.total_effective_points) + (enc_u32(v.settled_creator_count))))
}

#[verifier::opaque]
pub open spec fn dec_reward_epoch_settlement(s: Seq<u8>) -> Option<(RewardEpochSettlement, Seq<u8>)> {
    match dec_u64(s) {
            Some((epoch, r1)) => match dec_u64(r1) {
            Some((reward_pool_amount, r2)) => match dec_u128(r2) {
            Some((total_effective_points, r3)) => match dec_u32(r3) {
            Some((settled_creator_count, r4)) => Some((RewardEpochSettlement { epoch, reward_pool_amount, total_effective_points, settled_creator_count }, r4)),
            None => None,
        },
            None => None,
        },
            None => None,
        },
            None => None,
        }
}

pub fn read_reward_epoch_settlement(d: &[u8], pos: usize) -> (r: Option<(RewardEpochSettlement, usize)>)
    requires
        pos <= d@.len(),
    ensures
        read_ok(dec_reward_epoch_settlement(d@.skip(pos as int)), r, d@),
{
    proof {
        reveal(dec_reward_epoch_settlement);
    }
    match read_u64(d, pos) {
        None => None,
        Some((epoch, p1)) => match read_u64(d, p1) {
        None => None,
        Some((reward_pool_amount, p2)) => match read_u128(d, p2) {
        None => None,
        Some((total_effective_points, p3)) => match read_u32(d, p3) {
        None => None,
        Some((settled_creator_count, p4)) => Some((RewardEpochSettlement { epoch, reward_pool_amount, total_effective_points, settled_creator_count }, p4)),
    },
    },
    },
    }
}

pub fn write_reward_epoch_settlement(out: &mut Vec<u8>, v: &RewardEpochSettlement)
    ensures
        final(out)@ == old(out)@ + enc_reward_epoch_settlement(*v),
{
    proof {
        reveal(enc_reward_epoch_settlement);
    }
    write_u64(out, *&v.epoch);
    let ghost o0 = out@;
    write_u64(out, *&v.reward_pool_amount);
    let ghost o1 = out@;
    write_u128(out, *&v.total_effective_points);
    let ghost o2 = out@;
    write_u32(out, *&v.settled_creator_count);
    let ghost o3 = out@;
    proof {
        lemma_assoc(o1, enc_u128((*v).total_effective_points), enc_u32((*v).settled_creator_count));
        lemma_assoc(o0, enc_u64((*v).reward_pool_amount), enc_u128((*v).total_effective_points) + (enc_u32((*v).settled_creator_count)));
        lemma_assoc(old(out)@, enc_u64((*v).epoch), enc_u64((*v).reward_pool_amount) + (enc_u128((*v).total_effective_points) + (enc_u32((*v).settled_creator_count))));
    }
}

pub proof fn lemma_reward_epoch_settlement(v: RewardEpochSettlement, rest: Seq<u8>)
    ensures
        dec_reward_epoch_settlement(enc_reward_epoch_settlement(v) + rest) == Some((v, rest)),
{
    reveal(enc_reward_epoch_settlement);
    reveal(dec_reward_epoch_settlement);
    lemma_assoc(enc_u64(v.epoch), enc_u64(v.reward_pool_amount) + (enc_u128(v.total_effective_points) + (enc_u32(v.settled_creator_count))), rest);
    lemma_u64(v.epoch, enc_u64(v.reward_pool_amount) + (enc_u128(v.total_effective_points) + (enc_u32(v.settled_creator_count))) + rest);
    lemma_assoc(enc_u64(v.reward_pool_amount), enc_u128(v.total_effective_points) + (enc_u32(v.settled_creator_count)), rest);
    lemma_u64(v.reward_pool_amount, enc_u128(v.total_effective_points) + (enc_u32(v.settled_creator_count)) + rest);
    lemma_assoc(enc_u128(v.total_effective_points), enc_u32(v.settled_creator_count), rest);
    lemma_u128(v.total_effective_points, enc_u32(v.settled_creator_count) + rest);
    lemma_u32(v.settled_creator_count, rest);
}

/// Decodes a [`RewardEpochSettlement`] that must take up all of `d`.
pub fn reward_epoch_settlement_from_slice(d: &[u8]) -> (r: Option<RewardEpochSettlement>)
    ensures
        r is Some <==> (dec_reward_epoch_settlement(d@) matches Some((_, rest)) && rest.len() == 0),
        r matches Some(v) ==> dec_reward_epoch_settlement(d@) == Some((v, Seq::<u8>::empty())),
{
    assert(d@.skip(0) =~= d@);
    match read_reward_epoch_settlement(d, 0) {
        None => None,
        Some((v, p)) => {
            if p == d.len() {
                assert(d@.skip(p as int) =~= Seq::<u8>::empty());
                Some(v)
            } else {
                None
            }
        },
    }
}

/// Decodes a [`RewardEpochSettlement`] from the front of `d`, ignoring what follows it.
pub fn reward_epoch_settlement_from_prefix(d: &[u8]) -> (r: Option<RewardEpochSettlement>)
    ensures
        r is Some <==> dec_reward_epoch_settlement(d@) is Some,
        r matches Some(v) ==> dec_reward_epoch_settlement(d@) matches Some((m, _)) && m == v,
{
    assert(d@.skip(0) =~= d@);
    match read_reward_epoch_settlement(d, 0) {
        None => None,
        Some((v, _)) => Some(v),
    }
}

/// Serialises a [`RewardEpochSettlement`].
pub fn reward_epoch_settlement_to_vec(v: &RewardEpochSettlement) -> (r: Vec<u8>)
    ensures
        r@ == enc_reward_epoch_settlement(*v),
{
    let mut out: Vec<u8> = Vec::new();
    write_reward_epoch_settlement(&mut out, v);
    assert(out@ =~= enc_reward_epoch_settlement(*v));
    out
}


pub open spec fn enc_items_reward_epoch_settlement(xs: Seq<RewardEpochSettlement>) -> Seq<u8>
    decreases xs.len(),
{
    if xs.len() == 0 {
        Seq::empty()
    } else {
        enc_items_reward_epoch_settlement(xs.drop_last()) + enc_reward_epoch_settlement(xs.last())
    }
}

pub open spec fn dec_items_reward_epoch_settlement(s: Seq<u8>, n: nat) -> Option<(Seq<RewardEpochSettlement>, Seq<u8>)>
    decreases n,
{
    if n == 0 {
        Some((Seq::empty(), s))
    } else {
        match dec_items_reward_epoch_settlement(s, (n - 1) as nat) {
            Some((xs, r)) => match dec_reward_epoch_settlement(r) {
                Some((x, r2)) => Some((xs.push(x), r2)),
                None => None,
            },
            None => None,
        }
    }
}

pub open spec fn enc_vec_reward_epoch_settlement(xs: Seq<RewardEpochSettlement>) -> Seq<u8> {
    enc_u32(xs.len() as u32) + enc_items_reward_epoch_settlement(xs)
}

pub open spec fn dec_vec_reward_epoch_settlement(s: Seq<u8>) -> Option<(Seq<RewardEpochSettlement>, Seq<u8>)> {
    match dec_u32(s) {
        Some((n, r)) => dec_items_reward_epoch_settlement(r, n as nat),
        None => None,
    }
}


pub open spec fn fits_vec_reward_epoch_settlement(xs: Seq<RewardEpochSettlement>) -> bool {
    fits_u32(xs.len())
}


pub open spec fn model_vec_reward_epoch_settlement(v: Seq<RewardEpochSettlement>) -> Seq<RewardEpochSettlement> {
    v
}

pub proof fn lemma_items_none_reward_epoch_settlement(s: Seq<u8>, k: nat, n: nat)
    requires
        k <= n,
        dec_items_reward_epoch_settlement(s, k) is None,
    ensures
        dec_items_reward_epoch_settlement(s, n) is None,
    decreases n - k,
{
    if k < n {
        lemma_items_none_reward_epoch_settlement(s, k, (n - 1) as nat);
    }
}

pub fn read_vec_reward_epoch_settlement(d: &[u8], pos: usize) -> (r: Option<(Vec<RewardEpochSettlement>, usize)>)
    requires
        pos <= d@.len(),
    ensures
        match r {
            None => dec_vec_reward_epoch_settlement(d@.skip(pos as int)) is None,
            Some((v, p)) => p <= d@.len() && dec_vec_reward_epoch_settlement(d@.skip(pos as int)) == Some((model_vec_reward_epoch_settlement(v@), d@.skip(p as int))),
        },
{
    match read_u32(d, pos) {
        None => None,
        Some((n, p0)) => {
            let mut v: Vec<RewardEpochSettlement> = Vec::new();
            let mut p = p0;
            let mut i: u32 = 0;
            while i < n
                invariant
                    p <= d@.len(),
                    pos <= d@.len(),
                    dec_u32(d@.skip(pos as int)) == Some((n, d@.skip(p0 as int))),
                    i <= n,
                    v@.len() == i,
                    dec_items_reward_epoch_settlement(d@.skip(p0 as int), i as nat) == Some((model_vec_reward_epoch_settlement(v@), d@.skip(p as int))),
                decreases n - i,
            {
                match read_reward_epoch_settlement(d, p) {
                    None => {
                        proof {
                            assert(dec_reward_epoch_settlement(d@.skip(p as int)) is None);
                            assert(dec_items_reward_epoch_settlement(d@.skip(p0 as int), (i + 1) as nat) is None);
                            lemma_items_none_reward_epoch_settlement(d@.skip(p0 as int), (i + 1) as nat, n as nat);
                        }
                        return None;
                    },
                    Some((x, p2)) => {
                        let ghost old_v = v@;
                        v.push(x);
                        proof {
                            assert(model_vec_reward_epoch_settlement(v@) =~= model_vec_reward_epoch_settlement(old_v).push(x));
                        }
                        p = p2;
                        i = i + 1;
                    },
                }
            }
            Some((v, p))
        },
    }
}


pub fn write_vec_reward_epoch_settlement(out: &mut Vec<u8>, v: &Vec<RewardEpochSettlement>) -> (ok: bool)
    ensures
        ok == fits_vec_reward_epoch_settlement(model_vec_reward_epoch_settlement(v@)),
        ok ==> final(out)@ == old(out)@ + enc_vec_reward_epoch_settlement(model_vec_reward_epoch_settlement(v@)),
{
    if v.len() > u32::MAX as usize {
        return false;
    }
    write_u32(out, v.len() as u32);
    let ghost base = out@;
    let mut i: usize = 0;
    while i < v.len()
        invariant
            i <= v@.len(),
            v@.len() <= u32::MAX,
            out@ == base + enc_items_reward_epoch_settlement(model_vec_reward_epoch_settlement(v@).take(i as int)),
        decreases v@.len() - i,
    {
        write_reward_epoch_settlement(out, &v[i]);
        proof {
            assert(model_vec_reward_epoch_settlement(v@).take(i + 1).drop_last() =~= model_vec_reward_epoch_settlement(v@).take(i as int));
            assert(model_vec_reward_epoch_settlement(v@).take(i + 1).last() == model_vec_reward_epoch_settlement(v@)[i as int]);
        }
        i = i + 1;
    }
    proof {
        assert(model_vec_reward_epoch_settlement(v@).take(v@.len() as int) =~= model_vec_reward_epoch_settlement(v@));
    }
    true
}


pub proof fn lemma_items_reward_epoch_settlement(xs: Seq<RewardEpochSettlement>, rest: Seq<u8>)
    requires
        true,
    ensures
        dec_items_reward_epoch_settlement(enc_items_reward_epoch_settlement(xs) + rest, xs.len()) == Some((xs, rest)),
    decreases xs.len(),
{
    if xs.len() == 0 {
        assert(enc_items_reward_epoch_settlement(xs) + rest =~= rest);
        assert(xs =~= Seq::<RewardEpochSettlement>::empty());
    } else {
        let init = xs.drop_last();
        let last = xs.last();
        assert forall|i: int| 0 <= i < init.len() implies init[i] == xs[i] by {}
        lemma_items_reward_epoch_settlement(init, enc_reward_epoch_settlement(last) + rest);
        assert(enc_items_reward_epoch_settlement(xs) + rest =~= enc_items_reward_epoch_settlement(init) + (enc_reward_epoch_settlement(last) + rest));
        lemma_reward_epoch_settlement(last, rest);
        assert(init.push(last) =~= xs);
    }
}

pub proof fn lemma_vec_reward_epoch_settlement(xs: Seq<RewardEpochSettlement>, rest: Seq<u8>)
    requires
        fits_vec_reward_epoch_settlement(xs),
    ensures
        dec_vec_reward_epoch_settlement(enc_vec_reward_epoch_settlement(xs) + rest) == Some((xs, rest)),
{
    assert(enc_vec_reward_epoch_settlement(xs) + rest =~= enc_u32(xs.len() as u32) + (enc_items_reward_epoch_settlement(xs) + rest));
    lemma_u32(xs.len() as u32, enc_items_reward_epoch_settlement(xs) + rest);
    lemma_items_reward_epoch_settlement(xs, rest);
}

/// The rewards state account.
#[derive(Clone, Debug, PartialEq, Eq)]
pub struct SocialRewardsStateAccount {
    pub is_initialized: bool,
    pub config: RewardConfig,
    pub creators: Vec<CreatorRewardAccount>,
    pub epochs: Vec<CreatorRewardEpochRecord>,
    pub settlements: Vec<RewardEpochSettlement>,
}

/// Mathematical model of [`SocialRewardsStateAccount`].
#[verifier::ext_equal]
pub struct SocialRewardsStateAccountModel {
    pub is_initialized: bool,
    pub config: RewardConfig,
    pub creators: Seq<CreatorRewardAccount>,
    pub epochs: Seq<CreatorRewardEpochRecord>,
    pub settlements: Seq<RewardEpochSettlement>,
}

impl View for SocialRewardsStateAccount {
    type V = SocialRewardsStateAccountModel;

    open spec fn view(&self) -> SocialRewardsStateAccountModel {
        SocialRewardsStateAccountModel {
            is_initialized: self.is_initialized,
            config: self.config,
            creators: self.creators@,
            epochs: self.epochs@,
            settlements: self.settlements@,
        }
    }
}

#[verifier::opaque]
pub open spec fn enc_social_rewards_state_account(v: SocialRewardsStateAccountModel) -> Seq<u8> {
    enc_bool(v.is_initialized) + (enc_reward_config(v.config) + (enc_vec_creator_reward_account(v.creators) + (enc_vec_creator_reward_epoch_record(v.epochs) + (enc_vec_reward_epoch_settlement(v.settlements)))))
}

#[verifier::opaque]
pub open spec fn dec_social_rewards_state_account(s: Seq<u8>) -> Option<(SocialRewardsStateAccountModel, Seq<u8>)> {
    match dec_bool(s) {
            Some((is_initialized, r1)) => match dec_reward_config(r1) {
            Some((config, r2)) => match dec_vec_creator_reward_account(r2) {
            Some((creators, r3)) => match dec_vec_creator_reward_epoch_record(r3) {
            Some((epochs, r4)) => match dec_vec_reward_epoch_settlement(r4) {
            Some((settlements, r5)) => Some((SocialRewardsStateAccountModel { is_initialized, config, creators, epochs, settlements }, r5)),
            None => None,
        },
            None => None,
        },
            None => None,
        },
            None => None,
        },
            None => None,
        }
}

pub open spec fn fits_social_rewards_state_account(v: SocialRewardsStateAccountModel) -> bool {
    fits_vec_creator_reward_account(v.creators) && fits_vec_creator_reward_epoch_record(v.epochs) && fits_vec_reward_epoch_settlement(v.settlements)
}

pub fn read_social_rewards_state_account(d: &[u8], pos: usize) -> (r: Option<(SocialRewardsStateAccount, usize)>)
    requires
        pos <= d@.len(),
    ensures
        match r {
            None => dec_social_rewards_state_account(d@.skip(pos as int)) is None,
            Some((v, p)) => p <= d@.len() && dec_social_rewards_state_account(d@.skip(pos as int)) == Some((v@, d@.skip(p as int))),
        },
{
    proof {
        reveal(dec_social_rewards_state_account);
    }
    match read_bool(d, pos) {
        None => None,
        Some((is_initialized, p1)) => match read_reward_config(d, p1) {
        None => None,
        Some((config, p2)) => match read_vec_creator_reward_account(d, p2) {
        None => None,
        Some((creators, p3)) => match read_vec_creator_reward_epoch_record(d, p3) {
        None => None,
        Some((epochs, p4)) => match read_vec_reward_epoch_settlement(d, p4) {
        None => None,
        Some((settlements, p5)) => Some((SocialRewardsStateAccount { is_initialized, config, creators, epochs, settlements }, p5)),
    },
    },
    },
    },
    }
}

pub fn write_social_rewards_state_account(out: &mut Vec<u8>, v: &SocialRewardsStateAccount) -> (ok: bool)
    ensures
        ok == fits_social_rewards_state_account(v@),
        ok ==> final(out)@ == old(out)@ + enc_social_rewards_state_account(v@),
{
    proof {
        reveal(enc_social_rewards_state_account);
    }
    write_bool(out, *&v.is_initialized);
    let ghost o0 = out@;
    write_reward_config(out, &v.config);
    let ghost o1 = out@;
    if !write_vec_creator_reward_account(out, &v.creators) { return false; }
    let ghost o2 = out@;
    if !write_vec_creator_reward_epoch_record(out, &v.epochs) { return false; }
    let ghost o3 = out@;
    if !write_vec_reward_epoch_settlement(out, &v.settlements) { return false; }
    let ghost o4 = out@;
    proof {
        lemma_assoc(o2, enc_vec_creator_reward_epoch_record(v@.epochs), enc_vec_reward_epoch_settlement(v@.settlements));
        lemma_assoc(o1, enc_vec_creator_reward_account(v@.creators), enc_vec_creator_reward_epoch_record(v@.epochs) + (enc_vec_reward_epoch_settlement(v@.settlements)));
        lemma_assoc(o0, enc_reward_config(v@.config), enc_vec_creator_reward_account(v@.creators) + (enc_vec_creator_reward_epoch_record(v@.epochs) + (enc_vec_reward_epoch_settlement(v@.settlements))));
        lemma_assoc(old(out)@, enc_bool(v@.is_initialized), enc_reward_config(v@.config) + (enc_vec_creator_reward_account(v@.creators) + (enc_vec_creator_reward_epoch_record(v@.epochs) + (enc_vec_reward_epoch_settlement(v@.settlements)))));
    }
    true
}

pub proof fn lemma_social_rewards_state_account(v: SocialRewardsStateAccountModel, rest: Seq<u8>)
    requires
        fits_social_rewards_state_account(v),
    ensures
        dec_social_rewards_state_account(enc_social_rewards_state_account(v) + rest) == Some((v, rest)),
{
    reveal(enc_social_rewards_state_account);
    reveal(dec_social_rewards_state_account);
    lemma_assoc(enc_bool(v.is_initialized), enc_reward_config(v.config) + (enc_vec_creator_reward_account(v.creators) + (enc_vec_creator_reward_epoch_record(v.epochs) + (enc_vec_reward_epoch_settlement(v.settlements)))), rest);
    lemma_bool(v.is_initialized, enc_reward_config(v.config) + (enc_vec_creator_reward_account(v.creators) + (enc_vec_creator_reward_epoch_record(v.epochs) + (enc_vec_reward_epoch_settlement(v.settlements)))) + rest);
    lemma_assoc(enc_reward_config(v.config), enc_vec_creator_reward_account(v.creators) + (enc_vec_creator_reward_epoch_record(v.epochs) + (enc_vec_reward_epoch_settlement(v.settlements))), rest);
    lemma_reward_config(v.config, enc_vec_creator_reward_account(v.creators) + (enc_vec_creator_reward_epoch_record(v.epochs) + (enc_vec_reward_epoch_settlement(v.settlements))) + rest);
    lemma_assoc(enc_vec_creator_reward_account(v.creators), enc_vec_creator_reward_epoch_record(v.epochs) + (enc_vec_reward_epoch_settlement(v.settlements)), rest);
    lemma_vec_creator_reward_account(v.creators, enc_vec_creator_reward_epoch_record(v.epochs) + (enc_vec_reward_epoch_settlement(v.settlements)) + rest);
    lemma_assoc(enc_vec_creator_reward_epoch_record(v.epochs), enc_vec_reward_epoch_settlement(v.settlements), rest);
    lemma_vec_creator_reward_epoch_record(v.epochs, enc_vec_reward_epoch_settlement(v.settlements) + rest);
    lemma_vec_reward_epoch_settlement(v.settlements, rest);
}

/// Decodes a [`SocialRewardsStateAccount`] that must take up all of `d`.
pub fn social_rewards_state_account_from_slice(d: &[u8]) -> (r: Option<SocialRewardsStateAccount>)
    ensures
        r is Some <==> (dec_social_rewards_state_account(d@) matches Some((_, rest)) && rest.len() == 0),
        r matches Some(v) ==> dec_social_rewards_state_account(d@) == Some((v@, Seq::<u8>::empty())),
{
    assert(d@.skip(0) =~= d@);
    match read_social_rewards_state_account(d, 0) {
        None => None,
        Some((v, p)) => {
            if p == d.len() {
                assert(d@.skip(p as int) =~= Seq::<u8>::empty());
                Some(v)
            } else {
                None
            }
        },
    }
}

/// Decodes a [`SocialRewardsStateAccount`] from the front of `d`, ignoring what follows it.
pub fn social_rewards_state_account_from_prefix(d: &[u8]) -> (r: Option<SocialRewardsStateAccount>)
    ensures
        r is Some <==> dec_social_rewards_state_account(d@) is Some,
        r matches Some(v) ==> dec_social_rewards_state_account(d@) matches Some((m, _)) && m == v@,
{
    assert(d@.skip(0) =~= d@);
    match read_social_rewards_state_account(d, 0) {
        None => None,
        Some((v, _)) => Some(v),
    }
}

/// Serialises a [`SocialRewardsStateAccount`]; `None` when a length does not fit the `u32` prefix.
pub fn social_rewards_state_account_to_vec(v: &SocialRewardsStateAccount) -> (r: Option<Vec<u8>>)
    ensures
        r is Some <==> fits_social_rewards_state_account(v@),
        r matches Some(b) ==> b@ == enc_social_rewards_state_account(v@),
{
    let mut out: Vec<u8> = Vec::new();
    if write_social_rewards_state_account(&mut out, v) {
        assert(out@ =~= enc_social_rewards_state_account(v@));
        Some(out)
    } else {
        None
    }
}

/// Instructions of the social rewards program.
#[derive(Clone, Debug, PartialEq, Eq)]
pub enum SocialRewardsInstruction {
    InitializeConfig{ state: SocialRewardsStateAccount },
    SettleRewardEpoch{ input: RewardSettlementInput },
    RecordRewardEpoch{ record: CreatorRewardEpochRecord },
    ClaimCreatorReward{ creator: Pubkey, amount: u64 },
    ReadRewardState{ creator: Option<Pubkey> },
}

/// Mathematical model of [`SocialRewardsInstruction`].
pub enum SocialRewardsInstructionModel {
    InitializeConfig{ state: SocialRewardsStateAccountModel },
    SettleRewardEpoch{ input: RewardSettlementInputModel },
    RecordRewardEpoch{ record: CreatorRewardEpochRecord },
    ClaimCreatorReward{ creator: Pubkey, amount: u64 },
    ReadRewardState{ creator: Option<Pubkey> },
}

impl View for SocialRewardsInstruction {
    type V = SocialRewardsInstructionModel;

    open spec fn view(&self) -> SocialRewardsInstructionModel {
        match self {
            SocialRewardsInstruction::InitializeConfig{ state } => SocialRewardsInstructionModel::InitializeConfig{ state: (*state)@ },
            SocialRewardsInstruction::SettleRewardEpoch{ input } => SocialRewardsInstructionModel::SettleRewardEpoch{ input: (*input)@ },
            SocialRewardsInstruction::RecordRewardEpoch{ record } => SocialRewardsInstructionModel::RecordRewardEpoch{ record: (*record) },
            SocialRewardsInstruction::ClaimCreatorReward{ creator, amount } => SocialRewardsInstructionModel::ClaimCreatorReward{ creator: (*creator), amount: (*amount) },
            SocialRewardsInstruction::ReadRewardState{ creator } => SocialRewardsInstructionModel::ReadRewardState{ creator: (*creator) },
        }
    }
}

#[verifier::opaque]
pub open spec fn enc_social_rewards_instruction(v: SocialRewardsInstructionModel) -> Seq<u8> {
    match v {
        SocialRewardsInstructionModel::InitializeConfig{ state } => seq![0u8] + (enc_social_rewards_state_account(state)),
        SocialRewardsInstructionModel::SettleRewardEpoch{ input } => seq![1u8] + (enc_reward_settlement_input(input)),
        SocialRewardsInstructionModel::RecordRewardEpoch{ record } => seq![2u8] + (enc_creator_reward_epoch_record(record)),
        SocialRewardsInstructionModel::ClaimCreatorReward{ creator, amount } => seq![3u8] + (enc_pubkey(creator) + (enc_u64(amount))),
        SocialRewardsInstructionModel::ReadRewardState{ creator } => seq![4u8] + (enc_opt_pubkey(creator)),
    }
}

#[verifier::opaque]
pub open spec fn dec_social_rewards_instruction(s: Seq<u8>) -> Option<(SocialRewardsInstructionModel, Seq<u8>)> {
    if s.len() == 0 {
        None
    } else if s[0] == 0 {
        let r0 = s.skip(1);
        match dec_social_rewards_state_account(r0) {
            Some((state, r1)) => Some((SocialRewardsInstructionModel::InitializeConfig{ state }, r1)),
            None => None,
        }
    } else if s[0] == 1 {
        let r0 = s.skip(1);
        match dec_reward_settlement_input(r0) {
            Some((input, r1)) => Some((SocialRewardsInstructionModel::SettleRewardEpoch{ input }, r1)),
            None => None,
        }
    } else if s[0] == 2 {
        let r0 = s.skip(1);
        match dec_creator_reward_epoch_record(r0) {
            Some((record, r1)) => Some((SocialRewardsInstructionModel::RecordRewardEpoch{ record }, r1)),
            None => None,
        }
    } else if s[0] == 3 {
        let r0 = s.skip(1);
        match dec_pubkey(r0) {
            Some((creator, r1)) => match dec_u64(r1) {
            Some((amount, r2)) => Some((SocialRewardsInstructionModel::ClaimCreatorReward{ creator, amount }, r2)),
            None => None,
        },
            None => None,
        }
    } else if s[0] == 4 {
        let r0 = s.skip(1);
        match dec_opt_pubkey(r0) {
            Some((creator, r1)) => Some((SocialRewardsInstructionModel::ReadRewardState{ creator }, r1)),
            None => None,
        }
    } else { None }
}

pub open spec fn fits_social_rewards_instruction(v: SocialRewardsInstructionModel) -> bool {
    match v {
        SocialRewardsInstructionModel::InitializeConfig{ state } => fits_social_rewards_state_account(state),
        SocialRewardsInstructionModel::SettleRewardEpoch{ input } => fits_reward_settlement_input(input),
        SocialRewardsInstructionModel::RecordRewardEpoch{ record } => true,
        SocialRewardsInstructionModel::ClaimCreatorReward{ creator, amount } => true,
        SocialRewardsInstructionModel::ReadRewardState{ creator } => true,
    }
}

pub fn read_social_rewards_instruction(d: &[u8], pos: usize) -> (r: Option<(SocialRewardsInstruction, usize)>)
    requires
        pos <= d@.len(),
    ensures
        match r {
            None => dec_social_rewards_instruction(d@.skip(pos as int)) is None,
            Some((v, p)) => p <= d@.len() && dec_social_rewards_instruction(d@.skip(pos as int)) == Some((v@, d@.skip(p as int))),
        },
{
    proof {
        reveal(dec_social_rewards_instruction);
    }
    match read_u8(d, pos) {
        None => None,
        Some((tag, p0)) => {
            proof {
                lemma_skip_skip(d@, pos as int, 1);
            }
            match tag {
            0 => match read_social_rewards_state_account(d, p0) {
                None => None,
                Some((state, p1)) => Some((SocialRewardsInstruction::InitializeConfig{ state }, p1)),
            },
            1 => match read_reward_settlement_input(d, p0) {
                None => None,
                Some((input, p1)) => Some((SocialRewardsInstruction::SettleRewardEpoch{ input }, p1)),
            },
            2 => match read_creator_reward_epoch_record(d, p0) {
                None => None,
                Some((record, p1)) => Some((SocialRewardsInstruction::RecordRewardEpoch{ record }, p1)),
            },
            3 => match read_pubkey(d, p0) {
                None => None,
                Some((creator, p1)) => match read_u64(d, p1) {
                None => None,
                Some((amount, p2)) => Some((SocialRewardsInstruction::ClaimCreatorReward{ creator, amount }, p2)),
            },
            },
            4 => match read_opt_pubkey(d, p0) {
                None => None,
                Some((creator, p1)) => Some((SocialRewardsInstruction::ReadRewardState{ creator }, p1)),
            },
            _ => None,
            }
        },
    }
}

pub fn write_social_rewards_instruction(out: &mut Vec<u8>, v: &SocialRewardsInstruction) -> (ok: bool)
    ensures
        ok == fits_social_rewards_instruction(v@),
        ok ==> final(out)@ == old(out)@ + enc_social_rewards_instruction(v@),
{
    proof {
        reveal(enc_social_rewards_instruction);
    }
    match v {
        SocialRewardsInstruction::InitializeConfig{ state } => {
            out.push(0u8);
            let ghost ot = out@;
            assert(ot =~= old(out)@ + seq![0u8]);
            if !write_social_rewards_state_account(out, state) { return false; }
            let ghost o0 = out@;
            proof {
            }
            proof {
                lemma_assoc(old(out)@, seq![0u8], enc_social_rewards_state_account((*state)@));
            }
        },
        SocialRewardsInstruction::SettleRewardEpoch{ input } => {
            out.push(1u8);
            let ghost ot = out@;
            assert(ot =~= old(out)@ + seq![1u8]);
            if !write_reward_settlement_input(out, input) { return false; }
            let ghost o0 = out@;
            proof {
            }
            proof {
                lemma_assoc(old(out)@, seq![1u8], enc_reward_settlement_input((*input)@));
            }
        },
        SocialRewardsInstruction::RecordRewardEpoch{ record } => {
            out.push(2u8);
            let ghost ot = out@;
            assert(ot =~= old(out)@ + seq![2u8]);
            write_creator_reward_epoch_record(out, record);
            let ghost o0 = out@;
            proof {
            }
            proof {
                lemma_assoc(old(out)@, seq![2u8], enc_creator_reward_epoch_record((*record)));
            }
        },
        SocialRewardsInstruction::ClaimCreatorReward{ creator, amount } => {
            out.push(3u8);
            let ghost ot = out@;
            assert(ot =~= old(out)@ + seq![3u8]);
            write_pubkey(out, creator);
            let ghost o0 = out@;
            write_u64(out, *amount);
            let ghost o1 = out@;
            proof {
                lemma_assoc(ot, enc_pubkey((*creator)), enc_u64((*amount)));
            }
            proof {
                lemma_assoc(old(out)@, seq![3u8], enc_pubkey((*creator)) + (enc_u64((*amount))));
            }
        },
        SocialRewardsInstruction::ReadRewardState{ creator } => {
            out.push(4u8);
            let ghost ot = out@;
            assert(ot =~= old(out)@ + seq![4u8]);
            write_opt_pubkey(out, creator);
            let ghost o0 = out@;
            proof {
            }
            proof {
                lemma_assoc(old(out)@, seq![4u8], enc_opt_pubkey((*creator)));
            }
        },
    }
    true
}

proof fn lemma_social_rewards_instruction_initialize_config(state: SocialRewardsStateAccountModel, rest: Seq<u8>)
    requires
        fits_social_rewards_state_account(state),
    ensures
        dec_social_rewards_instruction(enc_social_rewards_instruction(SocialRewardsInstructionModel::InitializeConfig{ state }) + rest) == Some((SocialRewardsInstructionModel::InitializeConfig{ state }, rest)),
{
    reveal(enc_social_rewards_instruction);
    reveal(dec_social_rewards_instruction);
    assert((enc_social_rewards_instruction(SocialRewardsInstructionModel::InitializeConfig{ state }) + rest).skip(1) =~= (enc_social_rewards_state_account(state)) + rest);
    lemma_social_rewards_state_account(state, rest);
}

proof fn lemma_social_rewards_instruction_settle_reward_epoch(input: RewardSettlementInputModel, rest: Seq<u8>)
    requires
        fits_reward_settlement_input(input),
    ensures
        dec_social_rewards_instruction(enc_social_rewards_instruction(SocialRewardsInstructionModel::SettleRewardEpoch{ input }) + rest) == Some((SocialRewardsInstructionModel::SettleRewardEpoch{ input }, rest)),
{
    reveal(enc_social_rewards_instruction);
    reveal(dec_social_rewards_instruction);
    assert((enc_social_rewards_instruction(SocialRewardsInstructionModel::SettleRewardEpoch{ input }) + rest).skip(1) =~= (enc_reward_settlement_input(input)) + rest);
    lemma_reward_settlement_input(input, rest);
}

proof fn lemma_social_rewards_instruction_record_reward_epoch(record: CreatorRewardEpochRecord, rest: Seq<u8>)
    ensures
        dec_social_rewards_instruction(enc_social_rewards_instruction(SocialRewardsInstructionModel::RecordRewardEpoch{ record }) + rest) == Some((SocialRewardsInstructionModel::RecordRewardEpoch{ record }, rest)),
{
    reveal(enc_social_rewards_instruction);
    reveal(dec_social_rewards_instruction);
    assert((enc_social_rewards_instruction(SocialRewardsInstructionModel::RecordRewardEpoch{ record }) + rest).skip(1) =~= (enc_creator_reward_epoch_record(record)) + rest);
    lemma_creator_reward_epoch_record(record, rest);
}

proof fn lemma_social_rewards_instruction_claim_creator_reward(creator: Pubkey, amount: u64, rest: Seq<u8>)
    ensures
        dec_social_rewards_instruction(enc_social_rewards_instruction(SocialRewardsInstructionModel::ClaimCreatorReward{ creator, amount }) + rest) == Some((SocialRewardsInstructionModel::ClaimCreatorReward{ creator, amount }, rest)),
{
    reveal(enc_social_rewards_instruction);
    reveal(dec_social_rewards_instruction);
    assert((enc_social_rewards_instruction(SocialRewardsInstructionModel::ClaimCreatorReward{ creator, amount }) + rest).skip(1) =~= (enc_pubkey(creator) + (enc_u64(amount))) + rest);
    lemma_assoc(enc_pubkey(creator), enc_u64(amount), rest);
    lemma_pubkey(creator, enc_u64(amount) + rest);
    lemma_u64(amount, rest);
}

proof fn lemma_social_rewards_instruction_read_reward_state(creator: Option<Pubkey>, rest: Seq<u8>)
    ensures
        dec_social_rewards_instruction(enc_social_rewards_instruction(SocialRewardsInstructionModel::ReadRewardState{ creator }) + rest) == Some((SocialRewardsInstructionModel::ReadRewardState{ creator }, rest)),
{
    reveal(enc_social_rewards_instruction);
    reveal(dec_social_rewards_instruction);
    assert((enc_social_rewards_instruction(SocialRewardsInstructionModel::ReadRewardState{ creator }) + rest).skip(1) =~= (enc_opt_pubkey(creator)) + rest);
    lemma_opt_pubkey(creator, rest);
}

pub proof fn lemma_social_rewards_instruction(v: SocialRewardsInstructionModel, rest: Seq<u8>)
    requires
        fits_social_rewards_instruction(v),
    ensures
        dec_social_rewards_instruction(enc_social_rewards_instruction(v) + rest) == Some((v, rest)),
{
    reveal(enc_social_rewards_instruction);
    reveal(dec_social_rewards_instruction);
    match v {
        SocialRewardsInstructionModel::InitializeConfig{ state } => lemma_social_rewards_instruction_initialize_config(state, rest),
        SocialRewardsInstructionModel::SettleRewardEpoch{ input } => lemma_social_rewards_instruction_settle_reward_epoch(input, rest),
        SocialRewardsInstructionModel::RecordRewardEpoch{ record } => lemma_social_rewards_instruction_record_reward_epoch(record, rest),
        SocialRewardsInstructionModel::ClaimCreatorReward{ creator, amount } => lemma_social_rewards_instruction_claim_creator_reward(creator, amount, rest),
        SocialRewardsInstructionModel::ReadRewardState{ creator } => lemma_social_rewards_instruction_read_reward_state(creator, rest),
    }
}

/// Decodes a [`SocialRewardsInstruction`] that must take up all of `d`.
pub fn social_rewards_instruction_from_slice(d: &[u8]) -> (r: Option<SocialRewardsInstruction>)
    ensures
        r is Some <==> (dec_social_rewards_instruction(d@) matches Some((_, rest)) && rest.len() == 0),
        r matches Some(v) ==> dec_social_rewards_instruction(d@) == Some((v@, Seq::<u8>::empty())),
{
    assert(d@.skip(0) =~= d@);
    match read_social_rewards_instruction(d, 0) {
        None => None,
        Some((v, p)) => {
            if p == d.len() {
                assert(d@.skip(p as int) =~= Seq::<u8>::empty());
                Some(v)
            } else {
                None
            }
        },
    }
}

/// Decodes a [`SocialRewardsInstruction`] from the front of `d`, ignoring what follows it.
pub fn social_rewards_instruction_from_prefix(d: &[u8]) -> (r: Option<SocialRewardsInstruction>)
    ensures
        r is Some <==> dec_social_rewards_instruction(d@) is Some,
        r matches Some(v) ==> dec_social_rewards_instruction(d@) matches Some((m, _)) && m == v@,
{
    assert(d@.skip(0) =~= d@);
    match read_social_rewards_instruction(d, 0) {
        None => None,
        Some((v, _)) => Some(v),
    }
}

/// Serialises a [`SocialRewardsInstruction`]; `None` when a length does not fit the `u32` prefix.
pub fn social_rewards_instruction_to_vec(v: &SocialRewardsInstruction) -> (r: Option<Vec<u8>>)
    ensures
        r is Some <==> fits_social_rewards_instruction(v@),
        r matches Some(b) ==> b@ == enc_social_rewards_instruction(v@),
{
    let mut out: Vec<u8> = Vec::new();
    if write_social_rewards_instruction(&mut out, v) {
        assert(out@ =~= enc_social_rewards_instruction(v@));
        Some(out)
    } else {
        None
    }
}

} // verus!
