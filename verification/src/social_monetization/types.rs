//! Data types and their byte layout.
use vstd::prelude::*;
use crate::codec::{dec_arr, dec_bool, dec_i64, dec_pubkey, dec_u128, dec_u16, dec_u32, dec_u64, enc_arr, enc_bool, enc_i64, enc_pubkey, enc_u128, enc_u16, enc_u32, enc_u64, fits_u32, lemma_arr, lemma_assoc, lemma_bool, lemma_i64, lemma_pubkey, lemma_skip_skip, lemma_u128, lemma_u16, lemma_u32, lemma_u64, read_arr, read_bool, read_i64, read_ok, read_pubkey, read_u128, read_u16, read_u32, read_u64, read_u8, write_arr, write_bool, write_i64, write_pubkey, write_u128, write_u16, write_u32, write_u64};
use crate::layout::{dec_opt_pubkey, enc_opt_pubkey, lemma_opt_pubkey, read_opt_pubkey, write_opt_pubkey};
use crate::pubkey::{Pubkey};

verus! {

/// Custom error codes of the social monetization program.
#[derive(Clone, Copy, Debug, PartialEq, Eq, Structural)]
pub enum SocialMonetizationError {
    Uninitialized,
    Unauthorized,
    SubscriptionsDisabled,
    PaidContentDisabled,
    SubscriptionNotFound,
    NothingToClaim,
    InvalidAmount,
    DuplicateTip,
    DuplicateSubscription,
    DuplicateUnlock,
    SubscriptionNotActive,
    InvalidSubscriptionWindow,
}

impl SocialMonetizationError {
    /// The custom error code carried by this error.
    pub open spec fn spec_code(self) -> u32 {
        match self {
            SocialMonetizationError::Uninitialized => 0,
            SocialMonetizationError::Unauthorized => 1,
            SocialMonetizationError::SubscriptionsDisabled => 2,
            SocialMonetizationError::PaidContentDisabled => 3,
            SocialMonetizationError::SubscriptionNotFound => 4,
            SocialMonetizationError::NothingToClaim => 5,
            SocialMonetizationError::InvalidAmount => 6,
            SocialMonetizationError::DuplicateTip => 7,
            SocialMonetizationError::DuplicateSubscription => 8,
            SocialMonetizationError::DuplicateUnlock => 9,
            SocialMonetizationError::SubscriptionNotActive => 10,
            SocialMonetizationError::InvalidSubscriptionWindow => 11,
        }
    }

    pub fn code(self) -> (c: u32)
        ensures
            c == self.spec_code(),
    {
        match self {
            SocialMonetizationError::Uninitialized => 0,
            SocialMonetizationError::Unauthorized => 1,
            SocialMonetizationError::SubscriptionsDisabled => 2,
            SocialMonetizationError::PaidContentDisabled => 3,
            SocialMonetizationError::SubscriptionNotFound => 4,
            SocialMonetizationError::NothingToClaim => 5,
            SocialMonetizationError::InvalidAmount => 6,
            SocialMonetizationError::DuplicateTip => 7,
            SocialMonetizationError::DuplicateSubscription => 8,
            SocialMonetizationError::DuplicateUnlock => 9,
            SocialMonetizationError::SubscriptionNotActive => 10,
            SocialMonetizationError::InvalidSubscriptionWindow => 11,
        }
    }
}

/// Lifecycle of a subscription.
#[derive(Clone, Copy, Debug, PartialEq, Eq, Structural)]
pub enum SubscriptionState {
    Active,
    Expired,
    Canceled,
}

#[verifier::opaque]
pub open spec fn enc_subscription_state(v: SubscriptionState) -> Seq<u8> {
    match v {
        SubscriptionState::Active => seq![0u8],
        SubscriptionState::Expired => seq![1u8],
        SubscriptionState::Canceled => seq![2u8],
    }
}

#[verifier::opaque]
pub open spec fn dec_subscription_state(s: Seq<u8>) -> Option<(SubscriptionState, Seq<u8>)> {
    if s.len() == 0 {
        None
    } else if s[0] == 0 {
        Some((SubscriptionState::Active, s.skip(1)))
    } else if s[0] == 1 {
        Some((SubscriptionState::Expired, s.skip(1)))
    } else if s[0] == 2 {
        Some((SubscriptionState::Canceled, s.skip(1)))
    } else { None }
}

pub fn read_subscription_state(d: &[u8], pos: usize) -> (r: Option<(SubscriptionState, usize)>)
    requires
        pos <= d@.len(),
    ensures
        read_ok(dec_subscription_state(d@.skip(pos as int)), r, d@),
{
    proof {
        reveal(dec_subscription_state);
    }
    match read_u8(d, pos) {
        None => None,
        Some((tag, p0)) => {
            proof {
                lemma_skip_skip(d@, pos as int, 1);
            }
            match tag {
            0 => Some((SubscriptionState::Active, p0)),
            1 => Some((SubscriptionState::Expired, p0)),
            2 => Some((SubscriptionState::Canceled, p0)),
            _ => None,
            }
        },
    }
}

pub fn write_subscription_state(out: &mut Vec<u8>, v: &SubscriptionState)
    ensures
        final(out)@ == old(out)@ + enc_subscription_state(*v),
{
    proof {
        reveal(enc_subscription_state);
    }
    match v {
        SubscriptionState::Active => {
            out.push(0u8);
            assert(out@ =~= old(out)@ + seq![0u8]);
        },
        SubscriptionState::Expired => {
            out.push(1u8);
            assert(out@ =~= old(out)@ + seq![1u8]);
        },
        SubscriptionState::Canceled => {
            out.push(2u8);
            assert(out@ =~= old(out)@ + seq![2u8]);
        },
    }
}

pub proof fn lemma_subscription_state(v: SubscriptionState, rest: Seq<u8>)
    ensures
        dec_subscription_state(enc_subscription_state(v) + rest) == Some((v, rest)),
{
    reveal(enc_subscription_state);
    reveal(dec_subscription_state);
    match v {
        SubscriptionState::Active => {
            assert((enc_subscription_state(v) + rest).skip(1) =~= rest);
        },
        SubscriptionState::Expired => {
            assert((enc_subscription_state(v) + rest).skip(1) =~= rest);
        },
        SubscriptionState::Canceled => {
            assert((enc_subscription_state(v) + rest).skip(1) =~= rest);
        },
    }
}

/// Monetization configuration.
#[derive(Clone, Copy, Debug, PartialEq, Eq)]
pub struct MonetizationConfig {
    pub authority: Pubkey,
    pub treasury: Pubkey,
    pub platform_fee_bps: u16,
    pub subscriptions_enabled: bool,
    pub paid_content_enabled: bool,
}

#[verifier::opaque]
pub open spec fn enc_monetization_config(v: MonetizationConfig) -> Seq<u8> {
    enc_pubkey(v.authority) + (enc_pubkey(v.treasury) + (enc_u16(v.platform_fee_bps) + (enc_bool(v.subscriptions_enabled) + (enc_bool(v.paid_content_enabled)))))
}

#[verifier::opaque]
pub open spec fn dec_monetization_config(s: Seq<u8>) -> Option<(MonetizationConfig, Seq<u8>)> {
    match dec_pubkey(s) {
            Some((authority, r1)) => match dec_pubkey(r1) {
            Some((treasury, r2)) => match dec_u16(r2) {
            Some((platform_fee_bps, r3)) => match dec_bool(r3) {
            Some((subscriptions_enabled, r4)) => match dec_bool(r4) {
            Some((paid_content_enabled, r5)) => Some((MonetizationConfig { authority, treasury, platform_fee_bps, subscriptions_enabled, paid_content_enabled }, r5)),
            None => None,
        },
            None => None,
        },
            None => None,
        },
            None => None,
        },
            None => None,
        }
}

pub fn read_monetization_config(d: &[u8], pos: usize) -> (r: Option<(MonetizationConfig, usize)>)
    requires
        pos <= d@.len(),
    ensures
        read_ok(dec_monetization_config(d@.skip(pos as int)), r, d@),
{
    proof {
        reveal(dec_monetization_config);
    }
    match read_pubkey(d, pos) {
        None => None,
        Some((authority, p1)) => match read_pubkey(d, p1) {
        None => None,
        Some((treasury, p2)) => match read_u16(d, p2) {
        None => None,
        Some((platform_fee_bps, p3)) => match read_bool(d, p3) {
        None => None,
        Some((subscriptions_enabled, p4)) => match read_bool(d, p4) {
        None => None,
        Some((paid_content_enabled, p5)) => Some((MonetizationConfig { authority, treasury, platform_fee_bps, subscriptions_enabled, paid_content_enabled }, p5)),
    },
    },
    },
    },
    }
}

pub fn write_monetization_config(out: &mut Vec<u8>, v: &MonetizationConfig)
    ensures
        final(out)@ == old(out)@ + enc_monetization_config(*v),
{
    proof {
        reveal(enc_monetization_config);
    }
    write_pubkey(out, &v.authority);
    let ghost o0 = out@;
    write_pubkey(out, &v.treasury);
    let ghost o1 = out@;
    write_u16(out, *&v.platform_fee_bps);
    let ghost o2 = out@;
    write_bool(out, *&v.subscriptions_enabled);
    let ghost o3 = out@;
    write_bool(out, *&v.paid_content_enabled);
    let ghost o4 = out@;
    proof {
        lemma_assoc(o2, enc_bool((*v).subscriptions_enabled), enc_bool((*v).paid_content_enabled));
        lemma_assoc(o1, enc_u16((*v).platform_fee_bps), enc_bool((*v).subscriptions_enabled) + (enc_bool((*v).paid_content_enabled)));
        lemma_assoc(o0, enc_pubkey((*v).treasury), enc_u16((*v).platform_fee_bps) + (enc_bool((*v).subscriptions_enabled) + (enc_bool((*v).paid_content_enabled))));
        lemma_assoc(old(out)@, enc_pubkey((*v).authority), enc_pubkey((*v).treasury) + (enc_u16((*v).platform_fee_bps) + (enc_bool((*v).subscriptions_enabled) + (enc_bool((*v).paid_content_enabled)))));
    }
}

pub proof fn lemma_monetization_config(v: MonetizationConfig, rest: Seq<u8>)
    ensures
        dec_monetization_config(enc_monetization_config(v) + rest) == Some((v, rest)),
{
    reveal(enc_monetization_config);
    reveal(dec_monetization_config);
    lemma_assoc(enc_pubkey(v.authority), enc_pubkey(v.treasury) + (enc_u16(v.platform_fee_bps) + (enc_bool(v.subscriptions_enabled) + (enc_bool(v.paid_content_enabled)))), rest);
    lemma_pubkey(v.authority, enc_pubkey(v.treasury) + (enc_u16(v.platform_fee_bps) + (enc_bool(v.subscriptions_enabled) + (enc_bool(v.paid_content_enabled)))) + rest);
    lemma_assoc(enc_pubkey(v.treasury), enc_u16(v.platform_fee_bps) + (enc_bool(v.subscriptions_enabled) + (enc_bool(v.paid_content_enabled))), rest);
    lemma_pubkey(v.treasury, enc_u16(v.platform_fee_bps) + (enc_bool(v.subscriptions_enabled) + (enc_bool(v.paid_content_enabled))) + rest);
    lemma_assoc(enc_u16(v.platform_fee_bps), enc_bool(v.subscriptions_enabled) + (enc_bool(v.paid_content_enabled)), rest);
    lemma_u16(v.platform_fee_bps, enc_bool(v.subscriptions_enabled) + (enc_bool(v.paid_content_enabled)) + rest);
    lemma_assoc(enc_bool(v.subscriptions_enabled), enc_bool(v.paid_content_enabled), rest);
    lemma_bool(v.subscriptions_enabled, enc_bool(v.paid_content_enabled) + rest);
    lemma_bool(v.paid_content_enabled, rest);
}

/// A tip sent to a creator.
#[derive(Clone, Copy, Debug, PartialEq, Eq)]
pub struct CreatorTipRecord {
    pub tip_id: [u8; 32],
    pub creator: Pubkey,
    pub sender: Pubkey,
    pub amount: u64,
    pub timestamp: i64,
}

#[verifier::opaque]
pub open spec fn enc_creator_tip_record(v: CreatorTipRecord) -> Seq<u8> {
    enc_arr::<32>(v.tip_id) + (enc_pubkey(v.creator) + (enc_pubkey(v.sender) + (enc_u64(v.amount) + (enc_i64(v.timestamp)))))
}

#[verifier::opaque]
pub open spec fn dec_creator_tip_record(s: Seq<u8>) -> Option<(CreatorTipRecord, Seq<u8>)> {
    match dec_arr::<32>(s) {
            Some((tip_id, r1)) => match dec_pubkey(r1) {
            Some((creator, r2)) => match dec_pubkey(r2) {
            Some((sender, r3)) => match dec_u64(r3) {
            Some((amount, r4)) => match dec_i64(r4) {
            Some((timestamp, r5)) => Some((CreatorTipRecord { tip_id, creator, sender, amount, timestamp }, r5)),
            None => None,
        },
            None => None,
        },
            None => None,
        },
            None => None,
        },
            None => None,
        }
}

pub fn read_creator_tip_record(d: &[u8], pos: usize) -> (r: Option<(CreatorTipRecord, usize)>)
    requires
        pos <= d@.len(),
    ensures
        read_ok(dec_creator_tip_record(d@.skip(pos as int)), r, d@),
{
    proof {
        reveal(dec_creator_tip_record);
    }
    match read_arr::<32>(d, pos) {
        None => None,
        Some((tip_id, p1)) => match read_pubkey(d, p1) {
        None => None,
        Some((creator, p2)) => match read_pubkey(d, p2) {
        None => None,
        Some((sender, p3)) => match read_u64(d, p3) {
        None => None,
        Some((amount, p4)) => match read_i64(d, p4) {
        None => None,
        Some((timestamp, p5)) => Some((CreatorTipRecord { tip_id, creator, sender, amount, timestamp }, p5)),
    },
    },
    },
    },
    }
}

pub fn write_creator_tip_record(out: &mut Vec<u8>, v: &CreatorTipRecord)
    ensures
        final(out)@ == old(out)@ + enc_creator_tip_record(*v),
{
    proof {
        reveal(enc_creator_tip_record);
    }
    write_arr::<32>(out, &v.tip_id);
    let ghost o0 = out@;
    write_pubkey(out, &v.creator);
    let ghost o1 = out@;
    write_pubkey(out, &v.sender);
    let ghost o2 = out@;
    write_u64(out, *&v.amount);
    let ghost o3 = out@;
    write_i64(out, *&v.timestamp);
    let ghost o4 = out@;
    proof {
        lemma_assoc(o2, enc_u64((*v).amount), enc_i64((*v).timestamp));
        lemma_assoc(o1, enc_pubkey((*v).sender), enc_u64((*v).amount) + (enc_i64((*v).timestamp)));
        lemma_assoc(o0, enc_pubkey((*v).creator), enc_pubkey((*v).sender) + (enc_u64((*v).amount) + (enc_i64((*v).timestamp))));
        lemma_assoc(old(out)@, enc_arr::<32>((*v).tip_id), enc_pubkey((*v).creator) + (enc_pubkey((*v).sender) + (enc_u64((*v).amount) + (enc_i64((*v).timestamp)))));
    }
}

pub proof fn lemma_creator_tip_record(v: CreatorTipRecord, rest: Seq<u8>)
    ensures
        dec_creator_tip_record(enc_creator_tip_record(v) + rest) == Some((v, rest)),
{
    reveal(enc_creator_tip_record);
    reveal(dec_creator_tip_record);
    lemma_assoc(enc_arr::<32>(v.tip_id), enc_pubkey(v.creator) + (enc_pubkey(v.sender) + (enc_u64(v.amount) + (enc_i64(v.timestamp)))), rest);
    lemma_arr::<32>(v.tip_id, enc_pubkey(v.creator) + (enc_pubkey(v.sender) + (enc_u64(v.amount) + (enc_i64(v.timestamp)))) + rest);
    lemma_assoc(enc_pubkey(v.creator), enc_pubkey(v.sender) + (enc_u64(v.amount) + (enc_i64(v.timestamp))), rest);
    lemma_pubkey(v.creator, enc_pubkey(v.sender) + (enc_u64(v.amount) + (enc_i64(v.timestamp))) + rest);
    lemma_assoc(enc_pubkey(v.sender), enc_u64(v.amount) + (enc_i64(v.timestamp)), rest);
    lemma_pubkey(v.sender, enc_u64(v.amount) + (enc_i64(v.timestamp)) + rest);
    lemma_assoc(enc_u64(v.amount), enc_i64(v.timestamp), rest);
    lemma_u64(v.amount, enc_i64(v.timestamp) + rest);
    lemma_i64(v.timestamp, rest);
}


pub open spec fn enc_items_creator_tip_record(xs: Seq<CreatorTipRecord>) -> Seq<u8>
    decreases xs.len(),
{
    if xs.len() == 0 {
        Seq::empty()
    } else {
        enc_items_creator_tip_record(xs.drop_last()) + enc_creator_tip_record(xs.last())
    }
}

pub open spec fn dec_items_creator_tip_record(s: Seq<u8>, n: nat) -> Option<(Seq<CreatorTipRecord>, Seq<u8>)>
    decreases n,
{
    if n == 0 {
        Some((Seq::empty(), s))
    } else {
        match dec_items_creator_tip_record(s, (n - 1) as nat) {
            Some((xs, r)) => match dec_creator_tip_record(r) {
                Some((x, r2)) => Some((xs.push(x), r2)),
                None => None,
            },
            None => None,
        }
    }
}

pub open spec fn enc_vec_creator_tip_record(xs: Seq<CreatorTipRecord>) -> Seq<u8> {
    enc_u32(xs.len() as u32) + enc_items_creator_tip_record(xs)
}

pub open spec fn dec_vec_creator_tip_record(s: Seq<u8>) -> Option<(Seq<CreatorTipRecord>, Seq<u8>)> {
    match dec_u32(s) {
        Some((n, r)) => dec_items_creator_tip_record(r, n as nat),
        None => None,
    }
}


pub open spec fn fits_vec_creator_tip_record(xs: Seq<CreatorTipRecord>) -> bool {
    fits_u32(xs.len())
}


pub open spec fn model_vec_creator_tip_record(v: Seq<CreatorTipRecord>) -> Seq<CreatorTipRecord> {
    v
}

pub proof fn lemma_items_none_creator_tip_record(s: Seq<u8>, k: nat, n: nat)
    requires
        k <= n,
        dec_items_creator_tip_record(s, k) is None,
    ensures
        dec_items_creator_tip_record(s, n) is None,
    decreases n - k,
{
    if k < n {
        lemma_items_none_creator_tip_record(s, k, (n - 1) as nat);
    }
}

pub fn read_vec_creator_tip_record(d: &[u8], pos: usize) -> (r: Option<(Vec<CreatorTipRecord>, usize)>)
    requires
        pos <= d@.len(),
    ensures
        match r {
            None => dec_vec_creator_tip_record(d@.skip(pos as int)) is None,
            Some((v, p)) => p <= d@.len() && dec_vec_creator_tip_record(d@.skip(pos as int)) == Some((model_vec_creator_tip_record(v@), d@.skip(p as int))),
        },
{
    match read_u32(d, pos) {
        None => None,
        Some((n, p0)) => {
            let mut v: Vec<CreatorTipRecord> = Vec::new();
            let mut p = p0;
            let mut i: u32 = 0;
            while i < n
                invariant
                    p <= d@.len(),
                    pos <= d@.len(),
                    dec_u32(d@.skip(pos as int)) == Some((n, d@.skip(p0 as int))),
                    i <= n,
                    v@.len() == i,
                    dec_items_creator_tip_record(d@.skip(p0 as int), i as nat) == Some((model_vec_creator_tip_record(v@), d@.skip(p as int))),
                decreases n - i,
            {
                match read_creator_tip_record(d, p) {
                    None => {
                        proof {
                            assert(dec_creator_tip_record(d@.skip(p as int)) is None);
                            assert(dec_items_creator_tip_record(d@.skip(p0 as int), (i + 1) as nat) is None);
                            lemma_items_none_creator_tip_record(d@.skip(p0 as int), (i + 1) as nat, n as nat);
                        }
                        return None;
                    },
                    Some((x, p2)) => {
                        let ghost old_v = v@;
                        v.push(x);
                        proof {
                            assert(model_vec_creator_tip_record(v@) =~= model_vec_creator_tip_record(old_v).push(x));
                        }
                        p = p2;
                        i = i + 1;
                    },
                }
            }
            Some((v, p))
        },
    }
}


pub fn write_vec_creator_tip_record(out: &mut Vec<u8>, v: &Vec<CreatorTipRecord>) -> (ok: bool)
    ensures
        ok == fits_vec_creator_tip_record(model_vec_creator_tip_record(v@)),
        ok ==> final(out)@ == old(out)@ + enc_vec_creator_tip_record(model_vec_creator_tip_record(v@)),
{
    if v.len() > u32::MAX as usize {
        return false;
    }
    write_u32(out, v.len() as u32);
    let ghost base = out@;
    let mut i: usize = 0;
    while i < v.len()
        invariant
            i <= v@.len(),
            v@.len() <= u32::MAX,
            out@ == base + enc_items_creator_tip_record(model_vec_creator_tip_record(v@).take(i as int)),
        decreases v@.len() - i,
    {
        write_creator_tip_record(out, &v[i]);
        proof {
            assert(model_vec_creator_tip_record(v@).take(i + 1).drop_last() =~= model_vec_creator_tip_record(v@).take(i as int));
            assert(model_vec_creator_tip_record(v@).take(i + 1).last() == model_vec_creator_tip_record(v@)[i as int]);
        }
        i = i + 1;
    }
    proof {
        assert(model_vec_creator_tip_record(v@).take(v@.len() as int) =~= model_vec_creator_tip_record(v@));
    }
    true
}


pub proof fn lemma_items_creator_tip_record(xs: Seq<CreatorTipRecord>, rest: Seq<u8>)
    requires
        true,
    ensures
        dec_items_creator_tip_record(enc_items_creator_tip_record(xs) + rest, xs.len()) == Some((xs, rest)),
    decreases xs.len(),
{
    if xs.len() == 0 {
        assert(enc_items_creator_tip_record(xs) + rest =~= rest);
        assert(xs =~= Seq::<CreatorTipRecord>::empty());
    } else {
        let init = xs.drop_last();
        let last = xs.last();
        assert forall|i: int| 0 <= i < init.len() implies init[i] == xs[i] by {}
        lemma_items_creator_tip_record(init, enc_creator_tip_record(last) + rest);
        assert(enc_items_creator_tip_record(xs) + rest =~= enc_items_creator_tip_record(init) + (enc_creator_tip_record(last) + rest));
        lemma_creator_tip_record(last, rest);
        assert(init.push(last) =~= xs);
    }
}

pub proof fn lemma_vec_creator_tip_record(xs: Seq<CreatorTipRecord>, rest: Seq<u8>)
    requires
        fits_vec_creator_tip_record(xs),
    ensures
        dec_vec_creator_tip_record(enc_vec_creator_tip_record(xs) + rest) == Some((xs, rest)),
{
    assert(enc_vec_creator_tip_record(xs) + rest =~= enc_u32(xs.len() as u32) + (enc_items_creator_tip_record(xs) + rest));
    lemma_u32(xs.len() as u32, enc_items_creator_tip_record(xs) + rest);
    lemma_items_creator_tip_record(xs, rest);
}

/// A subscription of one subscriber to one creator.
#[derive(Clone, Copy, Debug, PartialEq, Eq)]
pub struct SubscriptionRecord {
    pub subscription_id: [u8; 32],
    pub creator: Pubkey,
    pub subscriber: Pubkey,
    pub amount_per_period: u64,
    pub period_seconds: u64,
    pub started_at_unix: i64,
    pub valid_until_unix: i64,
    pub state: SubscriptionState,
}

#[verifier::opaque]
pub open spec fn enc_subscription_record(v: SubscriptionRecord) -> Seq<u8> {
    enc_arr::<32>(v.subscription_id) + (enc_pubkey(v.creator) + (enc_pubkey(v.subscriber) + (enc_u64(v.amount_per_period) + (enc_u64(v.period_seconds) + (enc_i64(v.started_at_unix) + (enc_i64(v.valid_until_unix) + (enc_subscription_state(v.state))))))))
}

#[verifier::opaque]
pub open spec fn dec_subscription_record(s: Seq<u8>) -> Option<(SubscriptionRecord, Seq<u8>)> {
    match dec_arr::<32>(s) {
            Some((subscription_id, r1)) => match dec_pubkey(r1) {
            Some((creator, r2)) => match dec_pubkey(r2) {
            Some((subscriber, r3)) => match dec_u64(r3) {
            Some((amount_per_period, r4)) => match dec_u64(r4) {
            Some((period_seconds, r5)) => match dec_i64(r5) {
            Some((started_at_unix, r6)) => match dec_i64(r6) {
            Some((valid_until_unix, r7)) => match dec_subscription_state(r7) {
            Some((state, r8)) => Some((SubscriptionRecord { subscription_id, creator, subscriber, amount_per_period, period_seconds, started_at_unix, valid_until_unix, state }, r8)),
            None => None,
        },
            None => None,
        },
            None => None,
        },
            None => None,
        },
            None => None,
        },
            None => None,
        },
            None => None,
        },
            None => None,
        }
}

pub fn read_subscription_record(d: &[u8], pos: usize) -> (r: Option<(SubscriptionRecord, usize)>)
    requires
        pos <= d@.len(),
    ensures
        read_ok(dec_subscription_record(d@.skip(pos as int)), r, d@),
{
    proof {
        reveal(dec_subscription_record);
    }
    match read_arr::<32>(d, pos) {
        None => None,
        Some((subscription_id, p1)) => match read_pubkey(d, p1) {
        None => None,
        Some((creator, p2)) => match read_pubkey(d, p2) {
        None => None,
        Some((subscriber, p3)) => match read_u64(d, p3) {
        None => None,
        Some((amount_per_period, p4)) => match read_u64(d, p4) {
        None => None,
        Some((period_seconds, p5)) => match read_i64(d, p5) {
        None => None,
        Some((started_at_unix, p6)) => match read_i64(d, p6) {
        None => None,
        Some((valid_until_unix, p7)) => match read_subscription_state(d, p7) {
        None => None,
        Some((state, p8)) => Some((SubscriptionRecord { subscription_id, creator, subscriber, amount_per_period, period_seconds, started_at_unix, valid_until_unix, state }, p8)),
    },
    },
    },
    },
    },
    },
    },
    }
}

pub fn write_subscription_record(out: &mut Vec<u8>, v: &SubscriptionRecord)
    ensures
        final(out)@ == old(out)@ + enc_subscription_record(*v),
{
    proof {
        reveal(enc_subscription_record);
    }
    write_arr::<32>(out, &v.subscription_id);
    let ghost o0 = out@;
    write_pubkey(out, &v.creator);
    let ghost o1 = out@;
    write_pubkey(out, &v.subscriber);
    let ghost o2 = out@;
    write_u64(out, *&v.amount_per_period);
    let ghost o3 = out@;
    write_u64(out, *&v.period_seconds);
    let ghost o4 = out@;
    write_i64(out, *&v.started_at_unix);
    let ghost o5 = out@;
    write_i64(out, *&v.valid_until_unix);
    let ghost o6 = out@;
    write_subscription_state(out, &v.state);
    let ghost o7 = out@;
    proof {
        lemma_assoc(o5, enc_i64((*v).valid_until_unix), enc_subscription_state((*v).state));
        lemma_assoc(o4, enc_i64((*v).started_at_unix), enc_i64((*v).valid_until_unix) + (enc_subscription_state((*v).state)));
        lemma_assoc(o3, enc_u64((*v).period_seconds), enc_i64((*v).started_at_unix) + (enc_i64((*v).valid_until_unix) + (enc_subscription_state((*v).state))));
        lemma_assoc(o2, enc_u64((*v).amount_per_period), enc_u64((*v).period_seconds) + (enc_i64((*v).started_at_unix) + (enc_i64((*v).valid_until_unix) + (enc_subscription_state((*v).state)))));
        lemma_assoc(o1, enc_pubkey((*v).subscriber), enc_u64((*v).amount_per_period) + (enc_u64((*v).period_seconds) + (enc_i64((*v).started_at_unix) + (enc_i64((*v).valid_until_unix) + (enc_subscription_state((*v).state))))));
        lemma_assoc(o0, enc_pubkey((*v).creator), enc_pubkey((*v).subscriber) + (enc_u64((*v).amount_per_period) + (enc_u64((*v).period_seconds) + (enc_i64((*v).started_at_unix) + (enc_i64((*v).valid_until_unix) + (enc_subscription_state((*v).state)))))));
        lemma_assoc(old(out)@, enc_arr::<32>((*v).subscription_id), enc_pubkey((*v).creator) + (enc_pubkey((*v).subscriber) + (enc_u64((*v).amount_per_period) + (enc_u64((*v).period_seconds) + (enc_i64((*v).started_at_unix) + (enc_i64((*v).valid_until_unix) + (enc_subscription_state((*v).state))))))));
    }
}

pub proof fn lemma_subscription_record(v: SubscriptionRecord, rest: Seq<u8>)
    ensures
        dec_subscription_record(enc_subscription_record(v) + rest) == Some((v, rest)),
{
    reveal(enc_subscription_record);
    reveal(dec_subscription_record);
    lemma_assoc(enc_arr::<32>(v.subscription_id), enc_pubkey(v.creator) + (enc_pubkey(v.subscriber) + (enc_u64(v.amount_per_period) + (enc_u64(v.period_seconds) + (enc_i64(v.started_at_unix) + (enc_i64(v.valid_until_unix) + (enc_subscription_state(v.state))))))), rest);
    lemma_arr::<32>(v.subscription_id, enc_pubkey(v.creator) + (enc_pubkey(v.subscriber) + (enc_u64(v.amount_per_period) + (enc_u64(v.period_seconds) + (enc_i64(v.started_at_unix) + (enc_i64(v.valid_until_unix) + (enc_subscription_state(v.state))))))) + rest);
    lemma_assoc(enc_pubkey(v.creator), enc_pubkey(v.subscriber) + (enc_u64(v.amount_per_period) + (enc_u64(v.period_seconds) + (enc_i64(v.started_at_unix) + (enc_i64(v.valid_until_unix) + (enc_subscription_state(v.state)))))), rest);
    lemma_pubkey(v.creator, enc_pubkey(v.subscriber) + (enc_u64(v.amount_per_period) + (enc_u64(v.period_seconds) + (enc_i64(v.started_at_unix) + (enc_i64(v.valid_until_unix) + (enc_subscription_state(v.state)))))) + rest);
    lemma_assoc(enc_pubkey(v.subscriber), enc_u64(v.amount_per_period) + (enc_u64(v.period_seconds) + (enc_i64(v.started_at_unix) + (enc_i64(v.valid_until_unix) + (enc_subscription_state(v.state))))), rest);
    lemma_pubkey(v.subscriber, enc_u64(v.amount_per_period) + (enc_u64(v.period_seconds) + (enc_i64(v.started_at_unix) + (enc_i64(v.valid_until_unix) + (enc_subscription_state(v.state))))) + rest);
    lemma_assoc(enc_u64(v.amount_per_period), enc_u64(v.period_seconds) + (enc_i64(v.started_at_unix) + (enc_i64(v.valid_until_unix) + (enc_subscription_state(v.state)))), rest);
    lemma_u64(v.amount_per_period, enc_u64(v.period_seconds) + (enc_i64(v.started_at_unix) + (enc_i64(v.valid_until_unix) + (enc_subscription_state(v.state)))) + rest);
    lemma_assoc(enc_u64(v.period_seconds), enc_i64(v.started_at_unix) + (enc_i64(v.valid_until_unix) + (enc_subscription_state(v.state))), rest);
    lemma_u64(v.period_seconds, enc_i64(v.started_at_unix) + (enc_i64(v.valid_until_unix) + (enc_subscription_state(v.state))) + rest);
    lemma_assoc(enc_i64(v.started_at_unix), enc_i64(v.valid_until_unix) + (enc_subscription_state(v.state)), rest);
    lemma_i64(v.started_at_unix, enc_i64(v.valid_until_unix) + (enc_subscription_state(v.state)) + rest);
    lemma_assoc(enc_i64(v.valid_until_unix), enc_subscription_state(v.state), rest);
    lemma_i64(v.valid_until_unix, enc_subscription_state(v.state) + rest);
    lemma_subscription_state(v.state, rest);
}


pub open spec fn enc_items_subscription_record(xs: Seq<SubscriptionRecord>) -> Seq<u8>
    decreases xs.len(),
{
    if xs.len() == 0 {
        Seq::empty()
    } else {
        enc_items_subscription_record(xs.drop_last()) + enc_subscription_record(xs.last())
    }
}

pub open spec fn dec_items_subscription_record(s: Seq<u8>, n: nat) -> Option<(Seq<SubscriptionRecord>, Seq<u8>)>
    decreases n,
{
    if n == 0 {
        Some((Seq::empty(), s))
    } else {
        match dec_items_subscription_record(s, (n - 1) as nat) {
            Some((xs, r)) => match dec_subscription_record(r) {
                Some((x, r2)) => Some((xs.push(x), r2)),
                None => None,
            },
            None => None,
        }
    }
}

pub open spec fn enc_vec_subscription_record(xs: Seq<SubscriptionRecord>) -> Seq<u8> {
    enc_u32(xs.len() as u32) + enc_items_subscription_record(xs)
}

pub open spec fn dec_vec_subscription_record(s: Seq<u8>) -> Option<(Seq<SubscriptionRecord>, Seq<u8>)> {
    match dec_u32(s) {
        Some((n, r)) => dec_items_subscription_record(r, n as nat),
        None => None,
    }
}


pub open spec fn fits_vec_subscription_record(xs: Seq<SubscriptionRecord>) -> bool {
    fits_u32(xs.len())
}


pub open spec fn model_vec_subscription_record(v: Seq<SubscriptionRecord>) -> Seq<SubscriptionRecord> {
    v
}

pub proof fn lemma_items_none_subscription_record(s: Seq<u8>, k: nat, n: nat)
    requires
        k <= n,
        dec_items_subscription_record(s, k) is None,
    ensures
        dec_items_subscription_record(s, n) is None,
    decreases n - k,
{
    if k < n {
        lemma_items_none_subscription_record(s, k, (n - 1) as nat);
    }
}

pub fn read_vec_subscription_record(d: &[u8], pos: usize) -> (r: Option<(Vec<SubscriptionRecord>, usize)>)
    requires
        pos <= d@.len(),
    ensures
        match r {
            None => dec_vec_subscription_record(d@.skip(pos as int)) is None,
            Some((v, p)) => p <= d@.len() && dec_vec_subscription_record(d@.skip(pos as int)) == Some((model_vec_subscription_record(v@), d@.skip(p as int))),
        },
{
    match read_u32(d, pos) {
        None => None,
        Some((n, p0)) => {
            let mut v: Vec<SubscriptionRecord> = Vec::new();
            let mut p = p0;
            let mut i: u32 = 0;
            while i < n
                invariant
                    p <= d@.len(),
                    pos <= d@.len(),
                    dec_u32(d@.skip(pos as int)) == Some((n, d@.skip(p0 as int))),
                    i <= n,
                    v@.len() == i,
                    dec_items_subscription_record(d@.skip(p0 as int), i as nat) == Some((model_vec_subscription_record(v@), d@.skip(p as int))),
                decreases n - i,
            {
                match read_subscription_record(d, p) {
                    None => {
                        proof {
                            assert(dec_subscription_record(d@.skip(p as int)) is None);
                            assert(dec_items_subscription_record(d@.skip(p0 as int), (i + 1) as nat) is None);
                            lemma_items_none_subscription_record(d@.skip(p0 as int), (i + 1) as nat, n as nat);
                        }
                        return None;
                    },
                    Some((x, p2)) => {
                        let ghost old_v = v@;
                        v.push(x);
                        proof {
                            assert(model_vec_subscription_record(v@) =~= model_vec_subscription_record(old_v).push(x));
                        }
                        p = p2;
                        i = i + 1;
                    },
                }
            }
            Some((v, p))
        },
    }
}


pub fn write_vec_subscription_record(out: &mut Vec<u8>, v: &Vec<SubscriptionRecord>) -> (ok: bool)
    ensures
        ok == fits_vec_subscription_record(model_vec_subscription_record(v@)),
        ok ==> final(out)@ == old(out)@ + enc_vec_subscription_record(model_vec_subscription_record(v@)),
{
    if v.len() > u32::MAX as usize {
        return false;
    }
    write_u32(out, v.len() as u32);
    let ghost base = out@;
    let mut i: usize = 0;
    while i < v.len()
        invariant
            i <= v@.len(),
            v@.len() <= u32::MAX,
            out@ == base + enc_items_subscription_record(model_vec_subscription_record(v@).take(i as int)),
        decreases v@.len() - i,
    {
        write_subscription_record(out, &v[i]);
        proof {
            assert(model_vec_subscription_record(v@).take(i + 1).drop_last() =~= model_vec_subscription_record(v@).take(i as int));
            assert(model_vec_subscription_record(v@).take(i + 1).last() == model_vec_subscription_record(v@)[i as int]);
        }
        i = i + 1;
    }
    proof {
        assert(model_vec_subscription_record(v@).take(v@.len() as int) =~= model_vec_subscription_record(v@));
    }
    true
}


pub proof fn lemma_items_subscription_record(xs: Seq<SubscriptionRecord>, rest: Seq<u8>)
    requires
        true,
    ensures
        dec_items_subscription_record(enc_items_subscription_record(xs) + rest, xs.len()) == Some((xs, rest)),
    decreases xs.len(),
{
    if xs.len() == 0 {
        assert(enc_items_subscription_record(xs) + rest =~= rest);
        assert(xs =~= Seq::<SubscriptionRecord>::empty());
    } else {
        let init = xs.drop_last();
        let last = xs.last();
        assert forall|i: int| 0 <= i < init.len() implies init[i] == xs[i] by {}
        lemma_items_subscription_record(init, enc_subscription_record(last) + rest);
        assert(enc_items_subscription_record(xs) + rest =~= enc_items_subscription_record(init) + (enc_subscription_record(last) + rest));
        lemma_subscription_record(last, rest);
        assert(init.push(last) =~= xs);
    }
}

pub proof fn lemma_vec_subscription_record(xs: Seq<SubscriptionRecord>, rest: Seq<u8>)
    requires
        fits_vec_subscription_record(xs),
    ensures
        dec_vec_subscription_record(enc_vec_subscription_record(xs) + rest) == Some((xs, rest)),
{
    assert(enc_vec_subscription_record(xs) + rest =~= enc_u32(xs.len() as u32) + (enc_items_subscription_record(xs) + rest));
    lemma_u32(xs.len() as u32, enc_items_subscription_record(xs) + rest);
    lemma_items_subscription_record(xs, rest);
}

/// A purchase of paid content.
#[derive(Clone, Copy, Debug, PartialEq, Eq)]
pub struct PaidContentUnlockRecord {
    pub unlock_id: [u8; 32],
    pub content_id: [u8; 32],
    pub creator: Pubkey,
    pub buyer: Pubkey,
    pub amount: u64,
    pub unlocked_at_unix: i64,
}

#[verifier::opaque]
pub open spec fn enc_paid_content_unlock_record(v: PaidContentUnlockRecord) -> Seq<u8> {
    enc_arr::<32>(v.unlock_id) + (enc_arr::<32>(v.content_id) + (enc_pubkey(v.creator) + (enc_pubkey(v.buyer) + (enc_u64(v.amount) + (enc_i64(v.unlocked_at_unix))))))
}

#[verifier::opaque]
pub open spec fn dec_paid_content_unlock_record(s: Seq<u8>) -> Option<(PaidContentUnlockRecord, Seq<u8>)> {
    match dec_arr::<32>(s) {
            Some((unlock_id, r1)) => match dec_arr::<32>(r1) {
            Some((content_id, r2)) => match dec_pubkey(r2) {
            Some((creator, r3)) => match dec_pubkey(r3) {
            Some((buyer, r4)) => match dec_u64(r4) {
            Some((amount, r5)) => match dec_i64(r5) {
            Some((unlocked_at_unix, r6)) => Some((PaidContentUnlockRecord { unlock_id, content_id, creator, buyer, amount, unlocked_at_unix }, r6)),
            None => None,
        },
            None => None,
        },
            None => None,
        },
            None => None,
        },
            None => None,
        },
            None => None,
        }
}

pub fn read_paid_content_unlock_record(d: &[u8], pos: usize) -> (r: Option<(PaidContentUnlockRecord, usize)>)
    requires
        pos <= d@.len(),
    ensures
        read_ok(dec_paid_content_unlock_record(d@.skip(pos as int)), r, d@),
{
    proof {
        reveal(dec_paid_content_unlock_record);
    }
    match read_arr::<32>(d, pos) {
        None => None,
        Some((unlock_id, p1)) => match read_arr::<32>(d, p1) {
        None => None,
        Some((content_id, p2)) => match read_pubkey(d, p2) {
        None => None,
        Some((creator, p3)) => match read_pubkey(d, p3) {
        None => None,
        Some((buyer, p4)) => match read_u64(d, p4) {
        None => None,
        Some((amount, p5)) => match read_i64(d, p5) {
        None => None,
        Some((unlocked_at_unix, p6)) => Some((PaidContentUnlockRecord { unlock_id, content_id, creator, buyer, amount, unlocked_at_unix }, p6)),
    },
    },
    },
    },
    },
    }
}

pub fn write_paid_content_unlock_record(out: &mut Vec<u8>, v: &PaidContentUnlockRecord)
    ensures
        final(out)@ == old(out)@ + enc_paid_content_unlock_record(*v),
{
    proof {
        reveal(enc_paid_content_unlock_record);
    }
    write_arr::<32>(out, &v.unlock_id);
    let ghost o0 = out@;
    write_arr::<32>(out, &v.content_id);
    let ghost o1 = out@;
    write_pubkey(out, &v.creator);
    let ghost o2 = out@;
    write_pubkey(out, &v.buyer);
    let ghost o3 = out@;
    write_u64(out, *&v.amount);
    let ghost o4 = out@;
    write_i64(out, *&v.unlocked_at_unix);
    let ghost o5 = out@;
    proof {
        lemma_assoc(o3, enc_u64((*v).amount), enc_i64((*v).unlocked_at_unix));
        lemma_assoc(o2, enc_pubkey((*v).buyer), enc_u64((*v).amount) + (enc_i64((*v).unlocked_at_unix)));
        lemma_assoc(o1, enc_pubkey((*v).creator), enc_pubkey((*v).buyer) + (enc_u64((*v).amount) + (enc_i64((*v).unlocked_at_unix))));
        lemma_assoc(o0, enc_arr::<32>((*v).content_id), enc_pubkey((*v).creator) + (enc_pubkey((*v).buyer) + (enc_u64((*v).amount) + (enc_i64((*v).unlocked_at_unix)))));
        lemma_assoc(old(out)@, enc_arr::<32>((*v).unlock_id), enc_arr::<32>((*v).content_id) + (enc_pubkey((*v).creator) + (enc_pubkey((*v).buyer) + (enc_u64((*v).amount) + (enc_i64((*v).unlocked_at_unix))))));
    }
}

pub proof fn lemma_paid_content_unlock_record(v: PaidContentUnlockRecord, rest: Seq<u8>)
    ensures
        dec_paid_content_unlock_record(enc_paid_content_unlock_record(v) + rest) == Some((v, rest)),
{
    reveal(enc_paid_content_unlock_record);
    reveal(dec_paid_content_unlock_record);
    lemma_assoc(enc_arr::<32>(v.unlock_id), enc_arr::<32>(v.content_id) + (enc_pubkey(v.creator) + (enc_pubkey(v.buyer) + (enc_u64(v.amount) + (enc_i64(v.unlocked_at_unix))))), rest);
    lemma_arr::<32>(v.unlock_id, enc_arr::<32>(v.content_id) + (enc_pubkey(v.creator) + (enc_pubkey(v.buyer) + (enc_u64(v.amount) + (enc_i64(v.unlocked_at_unix))))) + rest);
    lemma_assoc(enc_arr::<32>(v.content_id), enc_pubkey(v.creator) + (enc_pubkey(v.buyer) + (enc_u64(v.amount) + (enc_i64(v.unlocked_at_unix)))), rest);
    lemma_arr::<32>(v.content_id, enc_pubkey(v.creator) + (enc_pubkey(v.buyer) + (enc_u64(v.amount) + (enc_i64(v.unlocked_at_unix)))) + rest);
    lemma_assoc(enc_pubkey(v.creator), enc_pubkey(v.buyer) + (enc_u64(v.amount) + (enc_i64(v.unlocked_at_unix))), rest);
    lemma_pubkey(v.creator, enc_pubkey(v.buyer) + (enc_u64(v.amount) + (enc_i64(v.unlocked_at_unix))) + rest);
    lemma_assoc(enc_pubkey(v.buyer), enc_u64(v.amount) + (enc_i64(v.unlocked_at_unix)), rest);
    lemma_pubkey(v.buyer, enc_u64(v.amount) + (enc_i64(v.unlocked_at_unix)) + rest);
    lemma_assoc(enc_u64(v.amount), enc_i64(v.unlocked_at_unix), rest);
    lemma_u64(v.amount, enc_i64(v.unlocked_at_unix) + rest);
    lemma_i64(v.unlocked_at_unix, rest);
}


pub open spec fn enc_items_paid_content_unlock_record(xs: Seq<PaidContentUnlockRecord>) -> Seq<u8>
    decreases xs.len(),
{
    if xs.len() == 0 {
        Seq::empty()
    } else {
        enc_items_paid_content_unlock_record(xs.drop_last()) + enc_paid_content_unlock_record(xs.last())
    }
}

pub open spec fn dec_items_paid_content_unlock_record(s: Seq<u8>, n: nat) -> Option<(Seq<PaidContentUnlockRecord>, Seq<u8>)>
    decreases n,
{
    if n == 0 {
        Some((Seq::empty(), s))
    } else {
        match dec_items_paid_content_unlock_record(s, (n - 1) as nat) {
            Some((xs, r)) => match dec_paid_content_unlock_record(r) {
                Some((x, r2)) => Some((xs.push(x), r2)),
                None => None,
            },
            None => None,
        }
    }
}

pub open spec fn enc_vec_paid_content_unlock_record(xs: Seq<PaidContentUnlockRecord>) -> Seq<u8> {
    enc_u32(xs.len() as u32) + enc_items_paid_content_unlock_record(xs)
}

pub open spec fn dec_vec_paid_content_unlock_record(s: Seq<u8>) -> Option<(Seq<PaidContentUnlockRecord>, Seq<u8>)> {
    match dec_u32(s) {
        Some((n, r)) => dec_items_paid_content_unlock_record(r, n as nat),
        None => None,
    }
}


pub open spec fn fits_vec_paid_content_unlock_record(xs: Seq<PaidContentUnlockRecord>) -> bool {
    fits_u32(xs.len())
}


pub open spec fn model_vec_paid_content_unlock_record(v: Seq<PaidContentUnlockRecord>) -> Seq<PaidContentUnlockRecord> {
    v
}

pub proof fn lemma_items_none_paid_content_unlock_record(s: Seq<u8>, k: nat, n: nat)
    requires
        k <= n,
        dec_items_paid_content_unlock_record(s, k) is None,
    ensures
        dec_items_paid_content_unlock_record(s, n) is None,
    decreases n - k,
{
    if k < n {
        lemma_items_none_paid_content_unlock_record(s, k, (n - 1) as nat);
    }
}

pub fn read_vec_paid_content_unlock_record(d: &[u8], pos: usize) -> (r: Option<(Vec<PaidContentUnlockRecord>, usize)>)
    requires
        pos <= d@.len(),
    ensures
        match r {
            None => dec_vec_paid_content_unlock_record(d@.skip(pos as int)) is None,
            Some((v, p)) => p <= d@.len() && dec_vec_paid_content_unlock_record(d@.skip(pos as int)) == Some((model_vec_paid_content_unlock_record(v@), d@.skip(p as int))),
        },
{
    match read_u32(d, pos) {
        None => None,
        Some((n, p0)) => {
            let mut v: Vec<PaidContentUnlockRecord> = Vec::new();
            let mut p = p0;
            let mut i: u32 = 0;
            while i < n
                invariant
                    p <= d@.len(),
                    pos <= d@.len(),
                    dec_u32(d@.skip(pos as int)) == Some((n, d@.skip(p0 as int))),
                    i <= n,
                    v@.len() == i,
                    dec_items_paid_content_unlock_record(d@.skip(p0 as int), i as nat) == Some((model_vec_paid_content_unlock_record(v@), d@.skip(p as int))),
                decreases n - i,
            {
                match read_paid_content_unlock_record(d, p) {
                    None => {
                        proof {
                            assert(dec_paid_content_unlock_record(d@.skip(p as int)) is None);
                            assert(dec_items_paid_content_unlock_record(d@.skip(p0 as int), (i + 1) as nat) is None);
                            lemma_items_none_paid_content_unlock_record(d@.skip(p0 as int), (i + 1) as nat, n as nat);
                        }
                        return None;
                    },
                    Some((x, p2)) => {
                        let ghost old_v = v@;
                        v.push(x);
                        proof {
                            assert(model_vec_paid_content_unlock_record(v@) =~= model_vec_paid_content_unlock_record(old_v).push(x));
                        }
                        p = p2;
                        i = i + 1;
                    },
                }
            }
            Some((v, p))
        },
    }
}


pub fn write_vec_paid_content_unlock_record(out: &mut Vec<u8>, v: &Vec<PaidContentUnlockRecord>) -> (ok: bool)
    ensures
        ok == fits_vec_paid_content_unlock_record(model_vec_paid_content_unlock_record(v@)),
        ok ==> final(out)@ == old(out)@ + enc_vec_paid_content_unlock_record(model_vec_paid_content_unlock_record(v@)),
{
    if v.len() > u32::MAX as usize {
        return false;
    }
    write_u32(out, v.len() as u32);
    let ghost base = out@;
    let mut i: usize = 0;
    while i < v.len()
        invariant
            i <= v@.len(),
            v@.len() <= u32::MAX,
            out@ == base + enc_items_paid_content_unlock_record(model_vec_paid_content_unlock_record(v@).take(i as int)),
        decreases v@.len() - i,
    {
        write_paid_content_unlock_record(out, &v[i]);
        proof {
            assert(model_vec_paid_content_unlock_record(v@).take(i + 1).drop_last() =~= model_vec_paid_content_unlock_record(v@).take(i as int));
            assert(model_vec_paid_content_unlock_record(v@).take(i + 1).last() == model_vec_paid_content_unlock_record(v@)[i as int]);
        }
        i = i + 1;
    }
    proof {
        assert(model_vec_paid_content_unlock_record(v@).take(v@.len() as int) =~= model_vec_paid_content_unlock_record(v@));
    }
    true
}


pub proof fn lemma_items_paid_content_unlock_record(xs: Seq<PaidContentUnlockRecord>, rest: Seq<u8>)
    requires
        true,
    ensures
        dec_items_paid_content_unlock_record(enc_items_paid_content_unlock_record(xs) + rest, xs.len()) == Some((xs, rest)),
    decreases xs.len(),
{
    if xs.len() == 0 {
        assert(enc_items_paid_content_unlock_record(xs) + rest =~= rest);
        assert(xs =~= Seq::<PaidContentUnlockRecord>::empty());
    } else {
        let init = xs.drop_last();
        let last = xs.last();
        assert forall|i: int| 0 <= i < init.len() implies init[i] == xs[i] by {}
        lemma_items_paid_content_unlock_record(init, enc_paid_content_unlock_record(last) + rest);
        assert(enc_items_paid_content_unlock_record(xs) + rest =~= enc_items_paid_content_unlock_record(init) + (enc_paid_content_unlock_record(last) + rest));
        lemma_paid_content_unlock_record(last, rest);
        assert(init.push(last) =~= xs);
    }
}

pub proof fn lemma_vec_paid_content_unlock_record(xs: Seq<PaidContentUnlockRecord>, rest: Seq<u8>)
    requires
        fits_vec_paid_content_unlock_record(xs),
    ensures
        dec_vec_paid_content_unlock_record(enc_vec_paid_content_unlock_record(xs) + rest) == Some((xs, rest)),
{
    assert(enc_vec_paid_content_unlock_record(xs) + rest =~= enc_u32(xs.len() as u32) + (enc_items_paid_content_unlock_record(xs) + rest));
    lemma_u32(xs.len() as u32, enc_items_paid_content_unlock_record(xs) + rest);
    lemma_items_paid_content_unlock_record(xs, rest);
}

/// Revenue accounting of one creator.
#[derive(Clone, Copy, Debug, PartialEq, Eq)]
pub struct CreatorRevenueAccount {
    pub creator: Pubkey,
    pub total_earned: u128,
    pub total_claimed: u128,
    pub claimable_amount: u64,
}

#[verifier::opaque]
pub open spec fn enc_creator_revenue_account(v: CreatorRevenueAccount) -> Seq<u8> {
    enc_pubkey(v.creator) + (enc_u128(v.total_earned) + (enc_u128(v.total_claimed) + (enc_u64(v.claimable_amount))))
}

#[verifier::opaque]
pub open spec fn dec_creator_revenue_account(s: Seq<u8>) -> Option<(CreatorRevenueAccount, Seq<u8>)> {
    match dec_pubkey(s) {
            Some((creator, r1)) => match dec_u128(r1) {
            Some((total_earned, r2)) => match dec_u128(r2) {
            Some((total_claimed, r3)) => match dec_u64(r3) {
            Some((claimable_amount, r4)) => Some((CreatorRevenueAccount { creator, total_earned, total_claimed, claimable_amount }, r4)),
            None => None,
        },
            None => None,
        },
            None => None,
        },
            None => None,
        }
}

pub fn read_creator_revenue_account(d: &[u8], pos: usize) -> (r: Option<(CreatorRevenueAccount, usize)>)
    requires
        pos <= d@.len(),
    ensures
        read_ok(dec_creator_revenue_account(d@.skip(pos as int)), r, d@),
{
    proof {
        reveal(dec_creator_revenue_account);
    }
    match read_pubkey(d, pos) {
        None => None,
        Some((creator, p1)) => match read_u128(d, p1) {
        None => None,
        Some((total_earned, p2)) => match read_u128(d, p2) {
        None => None,
        Some((total_claimed, p3)) => match read_u64(d, p3) {
        None => None,
        Some((claimable_amount, p4)) => Some((CreatorRevenueAccount { creator, total_earned, total_claimed, claimable_amount }, p4)),
    },
    },
    },
    }
}

pub fn write_creator_revenue_account(out: &mut Vec<u8>, v: &CreatorRevenueAccount)
    ensures
        final(out)@ == old(out)@ + enc_creator_revenue_account(*v),
{
    proof {
        reveal(enc_creator_revenue_account);
    }
    write_pubkey(out, &v.creator);
    let ghost o0 = out@;
    write_u128(out, *&v.total_earned);
    let ghost o1 = out@;
    write_u128(out, *&v.total_claimed);
    let ghost o2 = out@;
    write_u64(out, *&v.claimable_amount);
    let ghost o3 = out@;
    proof {
        lemma_assoc(o1, enc_u128((*v).total_claimed), enc_u64((*v).claimable_amount));
        lemma_assoc(o0, enc_u128((*v).total_earned), enc_u128((*v).total_claimed) + (enc_u64((*v).claimable_amount)));
        lemma_assoc(old(out)@, enc_pubkey((*v).creator), enc_u128((*v).total_earned) + (enc_u128((*v).total_claimed) + (enc_u64((*v).claimable_amount))));
    }
}

pub proof fn lemma_creator_revenue_account(v: CreatorRevenueAccount, rest: Seq<u8>)
    ensures
        dec_creator_revenue_account(enc_creator_revenue_account(v) + rest) == Some((v, rest)),
{
    reveal(enc_creator_revenue_account);
    reveal(dec_creator_revenue_account);
    lemma_assoc(enc_pubkey(v.creator), enc_u128(v.total_earned) + (enc_u128(v.total_claimed) + (enc_u64(v.claimable_amount))), rest);
    lemma_pubkey(v.creator, enc_u128(v.total_earned) + (enc_u128(v.total_claimed) + (enc_u64(v.claimable_amount))) + rest);
    lemma_assoc(enc_u128(v.total_earned), enc_u128(v.total_claimed) + (enc_u64(v.claimable_amount)), rest);
    lemma_u128(v.total_earned, enc_u128(v.total_claimed) + (enc_u64(v.claimable_amount)) + rest);
    lemma_assoc(enc_u128(v.total_claimed), enc_u64(v.claimable_amount), rest);
    lemma_u128(v.total_claimed, enc_u64(v.claimable_amount) + rest);
    lemma_u64(v.claimable_amount, rest);
}

/// Decodes a [`CreatorRevenueAccount`] that must take up all of `d`.
pub fn creator_revenue_account_from_slice(d: &[u8]) -> (r: Option<CreatorRevenueAccount>)
    ensures
        r is Some <==> (dec_creator_revenue_account(d@) matches Some((_, rest)) && rest.len() == 0),
        r matches Some(v) ==> dec_creator_revenue_account(d@) == Some((v, Seq::<u8>::empty())),
{
    assert(d@.skip(0) =~= d@);
    match read_creator_revenue_account(d, 0) {
        None => None,
        Some((v, p)) => {
            if p == d.len() {
                assert(d@.skip(p as int) =~= Seq::<u8>::empty());
                Some(v)
            } else {
                None
            }
        },
    }
}

/// Decodes a [`CreatorRevenueAccount`] from the front of `d`, ignoring what follows it.
pub fn creator_revenue_account_from_prefix(d: &[u8]) -> (r: Option<CreatorRevenueAccount>)
    ensures
        r is Some <==> dec_creator_revenue_account(d@) is Some,
        r matches Some(v) ==> dec_creator_revenue_account(d@) matches Some((m, _)) && m == v,
{
    assert(d@.skip(0) =~= d@);
    match read_creator_revenue_account(d, 0) {
        None => None,
        Some((v, _)) => Some(v),
    }
}

/// Serialises a [`CreatorRevenueAccount`].
pub fn creator_revenue_account_to_vec(v: &CreatorRevenueAccount) -> (r: Vec<u8>)
    ensures
        r@ == enc_creator_revenue_account(*v),
{
    let mut out: Vec<u8> = Vec::new();
    write_creator_revenue_account(&mut out, v);
    assert(out@ =~= enc_creator_revenue_account(*v));
    out
}


pub open spec fn enc_items_creator_revenue_account(xs: Seq<CreatorRevenueAccount>) -> Seq<u8>
    decreases xs.len(),
{
    if xs.len() == 0 {
        Seq::empty()
    } else {
        enc_items_creator_revenue_account(xs.drop_last()) + enc_creator_revenue_account(xs.last())
    }
}

pub open spec fn dec_items_creator_revenue_account(s: Seq<u8>, n: nat) -> Option<(Seq<CreatorRevenueAccount>, Seq<u8>)>
    decreases n,
{
    if n == 0 {
        Some((Seq::empty(), s))
    } else {
        match dec_items_creator_revenue_account(s, (n - 1) as nat) {
            Some((xs, r)) => match dec_creator_revenue_account(r) {
                Some((x, r2)) => Some((xs.push(x), r2)),
                None => None,
            },
            None => None,
        }
    }
}

pub open spec fn enc_vec_creator_revenue_account(xs: Seq<CreatorRevenueAccount>) -> Seq<u8> {
    enc_u32(xs.len() as u32) + enc_items_creator_revenue_account(xs)
}

pub open spec fn dec_vec_creator_revenue_account(s: Seq<u8>) -> Option<(Seq<CreatorRevenueAccount>, Seq<u8>)> {
    match dec_u32(s) {
        Some((n, r)) => dec_items_creator_revenue_account(r, n as nat),
        None => None,
    }
}


pub open spec fn fits_vec_creator_revenue_account(xs: Seq<CreatorRevenueAccount>) -> bool {
    fits_u32(xs.len())
}


pub open spec fn model_vec_creator_revenue_account(v: Seq<CreatorRevenueAccount>) -> Seq<CreatorRevenueAccount> {
    v
}

pub proof fn lemma_items_none_creator_revenue_account(s: Seq<u8>, k: nat, n: nat)
    requires
        k <= n,
        dec_items_creator_revenue_account(s, k) is None,
    ensures
        dec_items_creator_revenue_account(s, n) is None,
    decreases n - k,
{
    if k < n {
        lemma_items_none_creator_revenue_account(s, k, (n - 1) as nat);
    }
}

pub fn read_vec_creator_revenue_account(d: &[u8], pos: usize) -> (r: Option<(Vec<CreatorRevenueAccount>, usize)>)
    requires
        pos <= d@.len(),
    ensures
        match r {
            None => dec_vec_creator_revenue_account(d@.skip(pos as int)) is None,
            Some((v, p)) => p <= d@.len() && dec_vec_creator_revenue_account(d@.skip(pos as int)) == Some((model_vec_creator_revenue_account(v@), d@.skip(p as int))),
        },
{
    match read_u32(d, pos) {
        None => None,
        Some((n, p0)) => {
            let mut v: Vec<CreatorRevenueAccount> = Vec::new();
            let mut p = p0;
            let mut i: u32 = 0;
            while i < n
                invariant
                    p <= d@.len(),
                    pos <= d@.len(),
                    dec_u32(d@.skip(pos as int)) == Some((n, d@.skip(p0 as int))),
                    i <= n,
                    v@.len() == i,
                    dec_items_creator_revenue_account(d@.skip(p0 as int), i as nat) == Some((model_vec_creator_revenue_account(v@), d@.skip(p as int))),
                decreases n - i,
            {
                match read_creator_revenue_account(d, p) {
                    None => {
                        proof {
                            assert(dec_creator_revenue_account(d@.skip(p as int)) is None);
                            assert(dec_items_creator_revenue_account(d@.skip(p0 as int), (i + 1) as nat) is None);
                            lemma_items_none_creator_revenue_account(d@.skip(p0 as int), (i + 1) as nat, n as nat);
                        }
                        return None;
                    },
                    Some((x, p2)) => {
                        let ghost old_v = v@;
                        v.push(x);
                        proof {
                            assert(model_vec_creator_revenue_account(v@) =~= model_vec_creator_revenue_account(old_v).push(x));
                        }
                        p = p2;
                        i = i + 1;
                    },
                }
            }
            Some((v, p))
        },
    }
}


pub fn write_vec_creator_revenue_account(out: &mut Vec<u8>, v: &Vec<CreatorRevenueAccount>) -> (ok: bool)
    ensures
        ok == fits_vec_creator_revenue_account(model_vec_creator_revenue_account(v@)),
        ok ==> final(out)@ == old(out)@ + enc_vec_creator_revenue_account(model_vec_creator_revenue_account(v@)),
{
    if v.len() > u32::MAX as usize {
        return false;
    }
    write_u32(out, v.len() as u32);
    let ghost base = out@;
    let mut i: usize = 0;
    while i < v.len()
        invariant
            i <= v@.len(),
            v@.len() <= u32::MAX,
            out@ == base + enc_items_creator_revenue_account(model_vec_creator_revenue_account(v@).take(i as int)),
        decreases v@.len() - i,
    {
        write_creator_revenue_account(out, &v[i]);
        proof {
            assert(model_vec_creator_revenue_account(v@).take(i + 1).drop_last() =~= model_vec_creator_revenue_account(v@).take(i as int));
            assert(model_vec_creator_revenue_account(v@).take(i + 1).last() == model_vec_creator_revenue_account(v@)[i as int]);
        }
        i = i + 1;
    }
    proof {
        assert(model_vec_creator_revenue_account(v@).take(v@.len() as int) =~= model_vec_creator_revenue_account(v@));
    }
    true
}


pub proof fn lemma_items_creator_revenue_account(xs: Seq<CreatorRevenueAccount>, rest: Seq<u8>)
    requires
        true,
    ensures
        dec_items_creator_revenue_account(enc_items_creator_revenue_account(xs) + rest, xs.len()) == Some((xs, rest)),
    decreases xs.len(),
{
    if xs.len() == 0 {
        assert(enc_items_creator_revenue_account(xs) + rest =~= rest);
        assert(xs =~= Seq::<CreatorRevenueAccount>::empty());
    } else {
        let init = xs.drop_last();
        let last = xs.last();
        assert forall|i: int| 0 <= i < init.len() implies init[i] == xs[i] by {}
        lemma_items_creator_revenue_account(init, enc_creator_revenue_account(last) + rest);
        assert(enc_items_creator_revenue_account(xs) + rest =~= enc_items_creator_revenue_account(init) + (enc_creator_revenue_account(last) + rest));
        lemma_creator_revenue_account(last, rest);
        assert(init.push(last) =~= xs);
    }
}

pub proof fn lemma_vec_creator_revenue_account(xs: Seq<CreatorRevenueAccount>, rest: Seq<u8>)
    requires
        fits_vec_creator_revenue_account(xs),
    ensures
        dec_vec_creator_revenue_account(enc_vec_creator_revenue_account(xs) + rest) == Some((xs, rest)),
{
    assert(enc_vec_creator_revenue_account(xs) + rest =~= enc_u32(xs.len() as u32) + (enc_items_creator_revenue_account(xs) + rest));
    lemma_u32(xs.len() as u32, enc_items_creator_revenue_account(xs) + rest);
    lemma_items_creator_revenue_account(xs, rest);
}

/// The monetization state account.
#[derive(Clone, Debug, PartialEq, Eq)]
pub struct SocialMonetizationStateAccount {
    pub is_initialized: bool,
    pub config: MonetizationConfig,
    pub tips: Vec<CreatorTipRecord>,
    pub subscriptions: Vec<SubscriptionRecord>,
    pub unlocks: Vec<PaidContentUnlockRecord>,
    pub revenues: Vec<CreatorRevenueAccount>,
}

/// Mathematical model of [`SocialMonetizationStateAccount`].
#[verifier::ext_equal]
pub struct SocialMonetizationStateAccountModel {
    pub is_initialized: bool,
    pub config: MonetizationConfig,
    pub tips: Seq<CreatorTipRecord>,
    pub subscriptions: Seq<SubscriptionRecord>,
    pub unlocks: Seq<PaidContentUnlockRecord>,
    pub revenues: Seq<CreatorRevenueAccount>,
}

impl View for SocialMonetizationStateAccount {
    type V = SocialMonetizationStateAccountModel;

    open spec fn view(&self) -> SocialMonetizationStateAccountModel {
        SocialMonetizationStateAccountModel {
            is_initialized: self.is_initialized,
            config: self.config,
            tips: self.tips@,
            subscriptions: self.subscriptions@,
            unlocks: self.unlocks@,
            revenues: self.revenues@,
        }
    }
}

#[verifier::opaque]
pub open spec fn enc_social_monetization_state_account(v: SocialMonetizationStateAccountModel) -> Seq<u8> {
    enc_bool(v.is_initialized) + (enc_monetization_config(v.config) + (enc_vec_creator_tip_record(v.tips) + (enc_vec_subscription_record(v.subscriptions) + (enc_vec_paid_content_unlock_record(v.unlocks) + (enc_vec_creator_revenue_account(v.revenues))))))
}

#[verifier::opaque]
pub open spec fn dec_social_monetization_state_account(s: Seq<u8>) -> Option<(SocialMonetizationStateAccountModel, Seq<u8>)> {
    match dec_bool(s) {
            Some((is_initialized, r1)) => match dec_monetization_config(r1) {
            Some((config, r2)) => match dec_vec_creator_tip_record(r2) {
            Some((tips, r3)) => match dec_vec_subscription_record(r3) {
            Some((subscriptions, r4)) => match dec_vec_paid_content_unlock_record(r4) {
            Some((unlocks, r5)) => match dec_vec_creator_revenue_account(r5) {
            Some((revenues, r6)) => Some((SocialMonetizationStateAccountModel { is_initialized, config, tips, subscriptions, unlocks, revenues }, r6)),
            None => None,
        },
            None => None,
        },
            None => None,
        },
            None => None,
        },
            None => None,
        },
            None => None,
        }
}

pub open spec fn fits_social_monetization_state_account(v: SocialMonetizationStateAccountModel) -> bool {
    fits_vec_creator_tip_record(v.tips) && fits_vec_subscription_record(v.subscriptions) && fits_vec_paid_content_unlock_record(v.unlocks) && fits_vec_creator_revenue_account(v.revenues)
}

pub fn read_social_monetization_state_account(d: &[u8], pos: usize) -> (r: Option<(SocialMonetizationStateAccount, usize)>)
    requires
        pos <= d@.len(),
    ensures
        match r {
            None => dec_social_monetization_state_account(d@.skip(pos as int)) is None,
            Some((v, p)) => p <= d@.len() && dec_social_monetization_state_account(d@.skip(pos as int)) == Some((v@, d@.skip(p as int))),
        },
{
    proof {
        reveal(dec_social_monetization_state_account);
    }
    match read_bool(d, pos) {
        None => None,
        Some((is_initialized, p1)) => match read_monetization_config(d, p1) {
        None => None,
        Some((config, p2)) => match read_vec_creator_tip_record(d, p2) {
        None => None,
        Some((tips, p3)) => match read_vec_subscription_record(d, p3) {
        None => None,
        Some((subscriptions, p4)) => match read_vec_paid_content_unlock_record(d, p4) {
        None => None,
        Some((unlocks, p5)) => match read_vec_creator_revenue_account(d, p5) {
        None => None,
        Some((revenues, p6)) => Some((SocialMonetizationStateAccount { is_initialized, config, tips, subscriptions, unlocks, revenues }, p6)),
    },
    },
    },
    },
    },
    }
}

pub fn write_social_monetization_state_account(out: &mut Vec<u8>, v: &SocialMonetizationStateAccount) -> (ok: bool)
    ensures
        ok == fits_social_monetization_state_account(v@),
        ok ==> final(out)@ == old(out)@ + enc_social_monetization_state_account(v@),
{
    proof {
        reveal(enc_social_monetization_state_account);
    }
    write_bool(out, *&v.is_initialized);
    let ghost o0 = out@;
    write_monetization_config(out, &v.config);
    let ghost o1 = out@;
    if !write_vec_creator_tip_record(out, &v.tips) { return false; }
    let ghost o2 = out@;
    if !write_vec_subscription_record(out, &v.subscriptions) { return false; }
    let ghost o3 = out@;
    if !write_vec_paid_content_unlock_record(out, &v.unlocks) { return false; }
    let ghost o4 = out@;
    if !write_vec_creator_revenue_account(out, &v.revenues) { return false; }
    let ghost o5 = out@;
    proof {
        lemma_assoc(o3, enc_vec_paid_content_unlock_record(v@.unlocks), enc_vec_creator_revenue_account(v@.revenues));
        lemma_assoc(o2, enc_vec_subscription_record(v@.subscriptions), enc_vec_paid_content_unlock_record(v@.unlocks) + (enc_vec_creator_revenue_account(v@.revenues)));
        lemma_assoc(o1, enc_vec_creator_tip_record(v@.tips), enc_vec_subscription_record(v@.subscriptions) + (enc_vec_paid_content_unlock_record(v@.unlocks) + (enc_vec_creator_revenue_account(v@.revenues))));
        lemma_assoc(o0, enc_monetization_config(v@.config), enc_vec_creator_tip_record(v@.tips) + (enc_vec_subscription_record(v@.subscriptions) + (enc_vec_paid_content_unlock_record(v@.unlocks) + (enc_vec_creator_revenue_account(v@.revenues)))));
        lemma_assoc(old(out)@, enc_bool(v@.is_initialized), enc_monetization_config(v@.config) + (enc_vec_creator_tip_record(v@.tips) + (enc_vec_subscription_record(v@.subscriptions) + (enc_vec_paid_content_unlock_record(v@.unlocks) + (enc_vec_creator_revenue_account(v@.revenues))))));
    }
    true
}

pub proof fn lemma_social_monetization_state_account(v: SocialMonetizationStateAccountModel, rest: Seq<u8>)
    requires
        fits_social_monetization_state_account(v),
    ensures
        dec_social_monetization_state_account(enc_social_monetization_state_account(v) + rest) == Some((v, rest)),
{
    reveal(enc_social_monetization_state_account);
    reveal(dec_social_monetization_state_account);
    lemma_assoc(enc_bool(v.is_initialized), enc_monetization_config(v.config) + (enc_vec_creator_tip_record(v.tips) + (enc_vec_subscription_record(v.subscriptions) + (enc_vec_paid_content_unlock_record(v.unlocks) + (enc_vec_creator_revenue_account(v.revenues))))), rest);
    lemma_bool(v.is_initialized, enc_monetization_config(v.config) + (enc_vec_creator_tip_record(v.tips) + (enc_vec_subscription_record(v.subscriptions) + (enc_vec_paid_content_unlock_record(v.unlocks) + (enc_vec_creator_revenue_account(v.revenues))))) + rest);
    lemma_assoc(enc_monetization_config(v.config), enc_vec_creator_tip_record(v.tips) + (enc_vec_subscription_record(v.subscriptions) + (enc_vec_paid_content_unlock_record(v.unlocks) + (enc_vec_creator_revenue_account(v.revenues)))), rest);
    lemma_monetization_config(v.config, enc_vec_creator_tip_record(v.tips) + (enc_vec_subscription_record(v.subscriptions) + (enc_vec_paid_content_unlock_record(v.unlocks) + (enc_vec_creator_revenue_account(v.revenues)))) + rest);
    lemma_assoc(enc_vec_creator_tip_record(v.tips), enc_vec_subscription_record(v.subscriptions) + (enc_vec_paid_content_unlock_record(v.unlocks) + (enc_vec_creator_revenue_account(v.revenues))), rest);
    lemma_vec_creator_tip_record(v.tips, enc_vec_subscription_record(v.subscriptions) + (enc_vec_paid_content_unlock_record(v.unlocks) + (enc_vec_creator_revenue_account(v.revenues))) + rest);
    lemma_assoc(enc_vec_subscription_record(v.subscriptions), enc_vec_paid_content_unlock_record(v.unlocks) + (enc_vec_creator_revenue_account(v.revenues)), rest);
    lemma_vec_subscription_record(v.subscriptions, enc_vec_paid_content_unlock_record(v.unlocks) + (enc_vec_creator_revenue_account(v.revenues)) + rest);
    lemma_assoc(enc_vec_paid_content_unlock_record(v.unlocks), enc_vec_creator_revenue_account(v.revenues), rest);
    lemma_vec_paid_content_unlock_record(v.unlocks, enc_vec_creator_revenue_account(v.revenues) + rest);
    lemma_vec_creator_revenue_account(v.revenues, rest);
}

/// Decodes a [`SocialMonetizationStateAccount`] that must take up all of `d`.
pub fn social_monetization_state_account_from_slice(d: &[u8]) -> (r: Option<SocialMonetizationStateAccount>)
    ensures
        r is Some <==> (dec_social_monetization_state_account(d@) matches Some((_, rest)) && rest.len() == 0),
        r matches Some(v) ==> dec_social_monetization_state_account(d@) == Some((v@, Seq::<u8>::empty())),
{
    assert(d@.skip(0) =~= d@);
    match read_social_monetization_state_account(d, 0) {
        None => None,
        Some((v, p)) => {
            if p == d.len() {
                assert(d@.skip(p as int) =~= Seq::<u8>::empty());
                Some(v)
            } else {
                None
            }
        },
    }
}

/// Decodes a [`SocialMonetizationStateAccount`] from the front of `d`, ignoring what follows it.
pub fn social_monetization_state_account_from_prefix(d: &[u8]) -> (r: Option<SocialMonetizationStateAccount>)
    ensures
        r is Some <==> dec_social_monetization_state_account(d@) is Some,
        r matches Some(v) ==> dec_social_monetization_state_account(d@) matches Some((m, _)) && m == v@,
{
    assert(d@.skip(0) =~= d@);
    match read_social_monetization_state_account(d, 0) {
        None => None,
        Some((v, _)) => Some(v),
    }
}

/// Serialises a [`SocialMonetizationStateAccount`]; `None` when a length does not fit the `u32` prefix.
pub fn social_monetization_state_account_to_vec(v: &SocialMonetizationStateAccount) -> (r: Option<Vec<u8>>)
    ensures
        r is Some <==> fits_social_monetization_state_account(v@),
        r matches Some(b) ==> b@ == enc_social_monetization_state_account(v@),
{
    let mut out: Vec<u8> = Vec::new();
    if write_social_monetization_state_account(&mut out, v) {
        assert(out@ =~= enc_social_monetization_state_account(v@));
        Some(out)
    } else {
        None
    }
}

/// Instructions of the social monetization program.
#[derive(Clone, Debug, PartialEq, Eq)]
pub enum SocialMonetizationInstruction {
    InitializeConfig{ state: SocialMonetizationStateAccount },
    SendCreatorTip{ record: CreatorTipRecord },
    CreateSubscription{ record: SubscriptionRecord },
    RenewSubscription{ subscription_id: [u8; 32], valid_until_unix: i64 },
    CancelSubscription{ subscription_id: [u8; 32] },
    UnlockPaidContent{ record: PaidContentUnlockRecord },
    ClaimMonetizationPayout{ creator: Pubkey, amount: u64 },
    ReadMonetizationState{ creator: Option<Pubkey> },
}

/// Mathematical model of [`SocialMonetizationInstruction`].
pub enum SocialMonetizationInstructionModel {
    InitializeConfig{ state: SocialMonetizationStateAccountModel },
    SendCreatorTip{ record: CreatorTipRecord },
    CreateSubscription{ record: SubscriptionRecord },
    RenewSubscription{ subscription_id: [u8; 32], valid_until_unix: i64 },
    CancelSubscription{ subscription_id: [u8; 32] },
    UnlockPaidContent{ record: PaidContentUnlockRecord },
    ClaimMonetizationPayout{ creator: Pubkey, amount: u64 },
    ReadMonetizationState{ creator: Option<Pubkey> },
}

impl View for SocialMonetizationInstruction {
    type V = SocialMonetizationInstructionModel;

    open spec fn view(&self) -> SocialMonetizationInstructionModel {
        match self {
            SocialMonetizationInstruction::InitializeConfig{ state } => SocialMonetizationInstructionModel::InitializeConfig{ state: (*state)@ },
            SocialMonetizationInstruction::SendCreatorTip{ record } => SocialMonetizationInstructionModel::SendCreatorTip{ record: (*record) },
            SocialMonetizationInstruction::CreateSubscription{ record } => SocialMonetizationInstructionModel::CreateSubscription{ record: (*record) },
            SocialMonetizationInstruction::RenewSubscription{ subscription_id, valid_until_unix } => SocialMonetizationInstructionModel::RenewSubscription{ subscription_id: (*subscription_id), valid_until_unix: (*valid_until_unix) },
            SocialMonetizationInstruction::CancelSubscription{ subscription_id } => SocialMonetizationInstructionModel::CancelSubscription{ subscription_id: (*subscription_id) },
            SocialMonetizationInstruction::UnlockPaidContent{ record } => SocialMonetizationInstructionModel::UnlockPaidContent{ record: (*record) },
            SocialMonetizationInstruction::ClaimMonetizationPayout{ creator, amount } => SocialMonetizationInstructionModel::ClaimMonetizationPayout{ creator: (*creator), amount: (*amount) },
            SocialMonetizationInstruction::ReadMonetizationState{ creator } => SocialMonetizationInstructionModel::ReadMonetizationState{ creator: (*creator) },
        }
    }
}

#[verifier::opaque]
pub open spec fn enc_social_monetization_instruction(v: SocialMonetizationInstructionModel) -> Seq<u8> {
    match v {
        SocialMonetizationInstructionModel::InitializeConfig{ state } => seq![0u8] + (enc_social_monetization_state_account(state)),
        SocialMonetizationInstructionModel::SendCreatorTip{ record } => seq![1u8] + (enc_creator_tip_record(record)),
        SocialMonetizationInstructionModel::CreateSubscription{ record } => seq![2u8] + (enc_subscription_record(record)),
        SocialMonetizationInstructionModel::RenewSubscription{ subscription_id, valid_until_unix } => seq![3u8] + (enc_arr::<32>(subscription_id) + (enc_i64(valid_until_unix))),
        SocialMonetizationInstructionModel::CancelSubscription{ subscription_id } => seq![4u8] + (enc_arr::<32>(subscription_id)),
        SocialMonetizationInstructionModel::UnlockPaidContent{ record } => seq![5u8] + (enc_paid_content_unlock_record(record)),
        SocialMonetizationInstructionModel::ClaimMonetizationPayout{ creator, amount } => seq![6u8] + (enc_pubkey(creator) + (enc_u64(amount))),
        SocialMonetizationInstructionModel::ReadMonetizationState{ creator } => seq![7u8] + (enc_opt_pubkey(creator)),
    }
}

#[verifier::opaque]
pub open spec fn dec_social_monetization_instruction(s: Seq<u8>) -> Option<(SocialMonetizationInstructionModel, Seq<u8>)> {
    if s.len() == 0 {
        None
    } else if s[0] == 0 {
        let r0 = s.skip(1);
        match dec_social_monetization_state_account(r0) {
            Some((state, r1)) => Some((SocialMonetizationInstructionModel::InitializeConfig{ state }, r1)),
            None => None,
        }
    } else if s[0] == 1 {
        let r0 = s.skip(1);
        match dec_creator_tip_record(r0) {
            Some((record, r1)) => Some((SocialMonetizationInstructionModel::SendCreatorTip{ record }, r1)),
            None => None,
        }
    } else if s[0] == 2 {
        let r0 = s.skip(1);
        match dec_subscription_record(r0) {
            Some((record, r1)) => Some((SocialMonetizationInstructionModel::CreateSubscription{ record }, r1)),
            None => None,
        }
    } else if s[0] == 3 {
        let r0 = s.skip(1);
        match dec_arr::<32>(r0) {
            Some((subscription_id, r1)) => match dec_i64(r1) {
            Some((valid_until_unix, r2)) => Some((SocialMonetizationInstructionModel::RenewSubscription{ subscription_id, valid_until_unix }, r2)),
            None => None,
        },
            None => None,
        }
    } else if s[0] == 4 {
        let r0 = s.skip(1);
        match dec_arr::<32>(r0) {
            Some((subscription_id, r1)) => Some((SocialMonetizationInstructionModel::CancelSubscription{ subscription_id }, r1)),
            None => None,
        }
    } else if s[0] == 5 {
        let r0 = s.skip(1);
        match dec_paid_content_unlock_record(r0) {
            Some((record, r1)) => Some((SocialMonetizationInstructionModel::UnlockPaidContent{ record }, r1)),
            None => None,
        }
    } else if s[0] == 6 {
        let r0 = s.skip(1);
        match dec_pubkey(r0) {
            Some((creator, r1)) => match dec_u64(r1) {
            Some((amount, r2)) => Some((SocialMonetizationInstructionModel::ClaimMonetizationPayout{ creator, amount }, r2)),
            None => None,
        },
            None => None,
        }
    } else if s[0] == 7 {
        let r0 = s.skip(1);
        match dec_opt_pubkey(r0) {
            Some((creator, r1)) => Some((SocialMonetizationInstructionModel::ReadMonetizationState{ creator }, r1)),
            None => None,
        }
    } else { None }
}

pub open spec fn fits_social_monetization_instruction(v: SocialMonetizationInstructionModel) -> bool {
    match v {
        SocialMonetizationInstructionModel::InitializeConfig{ state } => fits_social_monetization_state_account(state),
        SocialMonetizationInstructionModel::SendCreatorTip{ record } => true,
        SocialMonetizationInstructionModel::CreateSubscription{ record } => true,
        SocialMonetizationInstructionModel::RenewSubscription{ subscription_id, valid_until_unix } => true,
        SocialMonetizationInstructionModel::CancelSubscription{ subscription_id } => true,
        SocialMonetizationInstructionModel::UnlockPaidContent{ record } => true,
        SocialMonetizationInstructionModel::ClaimMonetizationPayout{ creator, amount } => true,
        SocialMonetizationInstructionModel::ReadMonetizationState{ creator } => true,
    }
}

pub fn read_social_monetization_instruction(d: &[u8], pos: usize) -> (r: Option<(SocialMonetizationInstruction, usize)>)
    requires
        pos <= d@.len(),
    ensures
        match r {
            None => dec_social_monetization_instruction(d@.skip(pos as int)) is None,
            Some((v, p)) => p <= d@.len() && dec_social_monetization_instruction(d@.skip(pos as int)) == Some((v@, d@.skip(p as int))),
        },
{
    proof {
        reveal(dec_social_monetization_instruction);
    }
    match read_u8(d, pos) {
        None => None,
        Some((tag, p0)) => {
            proof {
                lemma_skip_skip(d@, pos as int, 1);
            }
            match tag {
            0 => match read_social_monetization_state_account(d, p0) {
                None => None,
                Some((state, p1)) => Some((SocialMonetizationInstruction::InitializeConfig{ state }, p1)),
            },
            1 => match read_creator_tip_record(d, p0) {
                None => None,
                Some((record, p1)) => Some((SocialMonetizationInstruction::SendCreatorTip{ record }, p1)),
            },
            2 => match read_subscription_record(d, p0) {
                None => None,
                Some((record, p1)) => Some((SocialMonetizationInstruction::CreateSubscription{ record }, p1)),
            },
            3 => match read_arr::<32>(d, p0) {
                None => None,
                Some((subscription_id, p1)) => match read_i64(d, p1) {
                None => None,
                Some((valid_until_unix, p2)) => Some((SocialMonetizationInstruction::RenewSubscription{ subscription_id, valid_until_unix }, p2)),
            },
            },
            4 => match read_arr::<32>(d, p0) {
                None => None,
                Some((subscription_id, p1)) => Some((SocialMonetizationInstruction::CancelSubscription{ subscription_id }, p1)),
            },
            5 => match read_paid_content_unlock_record(d, p0) {
                None => None,
                Some((record, p1)) => Some((SocialMonetizationInstruction::UnlockPaidContent{ record }, p1)),
            },
            6 => match read_pubkey(d, p0) {
                None => None,
                Some((creator, p1)) => match read_u64(d, p1) {
                None => None,
                Some((amount, p2)) => Some((SocialMonetizationInstruction::ClaimMonetizationPayout{ creator, amount }, p2)),
            },
            },
            7 => match read_opt_pubkey(d, p0) {
                None => None,
                Some((creator, p1)) => Some((SocialMonetizationInstruction::ReadMonetizationState{ creator }, p1)),
            },
            _ => None,
            }
        },
    }
}

pub fn write_social_monetization_instruction(out: &mut Vec<u8>, v: &SocialMonetizationInstruction) -> (ok: bool)
    ensures
        ok == fits_social_monetization_instruction(v@),
        ok ==> final(out)@ == old(out)@ + enc_social_monetization_instruction(v@),
{
    proof {
        reveal(enc_social_monetization_instruction);
    }
    match v {
        SocialMonetizationInstruction::InitializeConfig{ state } => {
            out.push(0u8);
            let ghost ot = out@;
            assert(ot =~= old(out)@ + seq![0u8]);
            if !write_social_monetization_state_account(out, state) { return false; }
            let ghost o0 = out@;
            proof {
            }
            proof {
                lemma_assoc(old(out)@, seq![0u8], enc_social_monetization_state_account((*state)@));
            }
        },
        SocialMonetizationInstruction::SendCreatorTip{ record } => {
            out.push(1u8);
            let ghost ot = out@;
            assert(ot =~= old(out)@ + seq![1u8]);
            write_creator_tip_record(out, record);
            let ghost o0 = out@;
            proof {
            }
            proof {
                lemma_assoc(old(out)@, seq![1u8], enc_creator_tip_record((*record)));
            }
        },
        SocialMonetizationInstruction::CreateSubscription{ record } => {
            out.push(2u8);
            let ghost ot = out@;
            assert(ot =~= old(out)@ + seq![2u8]);
            write_subscription_record(out, record);
            let ghost o0 = out@;
            proof {
            }
            proof {
                lemma_assoc(old(out)@, seq![2u8], enc_subscription_record((*record)));
            }
        },
        SocialMonetizationInstruction::RenewSubscription{ subscription_id, valid_until_unix } => {
            out.push(3u8);
            let ghost ot = out@;
            assert(ot =~= old(out)@ + seq![3u8]);
            write_arr::<32>(out, subscription_id);
            let ghost o0 = out@;
            write_i64(out, *valid_until_unix);
            let ghost o1 = out@;
            proof {
                lemma_assoc(ot, enc_arr::<32>((*subscription_id)), enc_i64((*valid_until_unix)));
            }
            proof {
                lemma_assoc(old(out)@, seq![3u8], enc_arr::<32>((*subscription_id)) + (enc_i64((*valid_until_unix))));
            }
        },
        SocialMonetizationInstruction::CancelSubscription{ subscription_id } => {
            out.push(4u8);
            let ghost ot = out@;
            assert(ot =~= old(out)@ + seq![4u8]);
            write_arr::<32>(out, subscription_id);
            let ghost o0 = out@;
            proof {
            }
            proof {
                lemma_assoc(old(out)@, seq![4u8], enc_arr::<32>((*subscription_id)));
            }
        },
        SocialMonetizationInstruction::UnlockPaidContent{ record } => {
            out.push(5u8);
            let ghost ot = out@;
            assert(ot =~= old(out)@ + seq![5u8]);
            write_paid_content_unlock_record(out, record);
            let ghost o0 = out@;
            proof {
            }
            proof {
                lemma_assoc(old(out)@, seq![5u8], enc_paid_content_unlock_record((*record)));
            }
        },
        SocialMonetizationInstruction::ClaimMonetizationPayout{ creator, amount } => {
            out.push(6u8);
            let ghost ot = out@;
            assert(ot =~= old(out)@ + seq![6u8]);
            write_pubkey(out, creator);
            let ghost o0 = out@;
            write_u64(out, *amount);
            let ghost o1 = out@;
            proof {
                lemma_assoc(ot, enc_pubkey((*creator)), enc_u64((*amount)));
            }
            proof {
                lemma_assoc(old(out)@, seq![6u8], enc_pubkey((*creator)) + (enc_u64((*amount))));
            }
        },
        SocialMonetizationInstruction::ReadMonetizationState{ creator } => {
            out.push(7u8);
            let ghost ot = out@;
            assert(ot =~= old(out)@ + seq![7u8]);
            write_opt_pubkey(out, creator);
            let ghost o0 = out@;
            proof {
            }
            proof {
                lemma_assoc(old(out)@, seq![7u8], enc_opt_pubkey((*creator)));
            }
        },
    }
    true
}

proof fn lemma_social_monetization_instruction_initialize_config(state: SocialMonetizationStateAccountModel, rest: Seq<u8>)
    requires
        fits_social_monetization_state_account(state),
    ensures
        dec_social_monetization_instruction(enc_social_monetization_instruction(SocialMonetizationInstructionModel::InitializeConfig{ state }) + rest) == Some((SocialMonetizationInstructionModel::InitializeConfig{ state }, rest)),
{
    reveal(enc_social_monetization_instruction);
    reveal(dec_social_monetization_instruction);
    assert((enc_social_monetization_instruction(SocialMonetizationInstructionModel::InitializeConfig{ state }) + rest).skip(1) =~= (enc_social_monetization_state_account(state)) + rest);
    lemma_social_monetization_state_account(state, rest);
}

proof fn lemma_social_monetization_instruction_send_creator_tip(record: CreatorTipRecord, rest: Seq<u8>)
    ensures
        dec_social_monetization_instruction(enc_social_monetization_instruction(SocialMonetizationInstructionModel::SendCreatorTip{ record }) + rest) == Some((SocialMonetizationInstructionModel::SendCreatorTip{ record }, rest)),
{
    reveal(enc_social_monetization_instruction);
    reveal(dec_social_monetization_instruction);
    assert((enc_social_monetization_instruction(SocialMonetizationInstructionModel::SendCreatorTip{ record }) + rest).skip(1) =~= (enc_creator_tip_record(record)) + rest);
    lemma_creator_tip_record(record, rest);
}

proof fn lemma_social_monetization_instruction_create_subscription(record: SubscriptionRecord, rest: Seq<u8>)
    ensures
        dec_social_monetization_instruction(enc_social_monetization_instruction(SocialMonetizationInstructionModel::CreateSubscription{ record }) + rest) == Some((SocialMonetizationInstructionModel::CreateSubscription{ record }, rest)),
{
    reveal(enc_social_monetization_instruction);
    reveal(dec_social_monetization_instruction);
    assert((enc_social_monetization_instruction(SocialMonetizationInstructionModel::CreateSubscription{ record }) + rest).skip(1) =~= (enc_subscription_record(record)) + rest);
    lemma_subscription_record(record, rest);
}

proof fn lemma_social_monetization_instruction_renew_subscription(subscription_id: [u8; 32], valid_until_unix: i64, rest: Seq<u8>)
    ensures
        dec_social_monetization_instruction(enc_social_monetization_instruction(SocialMonetizationInstructionModel::RenewSubscription{ subscription_id, valid_until_unix }) + rest) == Some((SocialMonetizationInstructionModel::RenewSubscription{ subscription_id, valid_until_unix }, rest)),
{
    reveal(enc_social_monetization_instruction);
    reveal(dec_social_monetization_instruction);
    assert((enc_social_monetization_instruction(SocialMonetizationInstructionModel::RenewSubscription{ subscription_id, valid_until_unix }) + rest).skip(1) =~= (enc_arr::<32>(subscription_id) + (enc_i64(valid_until_unix))) + rest);
    lemma_assoc(enc_arr::<32>(subscription_id), enc_i64(valid_until_unix), rest);
    lemma_arr::<32>(subscription_id, enc_i64(valid_until_unix) + rest);
    lemma_i64(valid_until_unix, rest);
}

proof fn lemma_social_monetization_instruction_cancel_subscription(subscription_id: [u8; 32], rest: Seq<u8>)
    ensures
        dec_social_monetization_instruction(enc_social_monetization_instruction(SocialMonetizationInstructionModel::CancelSubscription{ subscription_id }) + rest) == Some((SocialMonetizationInstructionModel::CancelSubscription{ subscription_id }, rest)),
{
    reveal(enc_social_monetization_instruction);
    reveal(dec_social_monetization_instruction);
    assert((enc_social_monetization_instruction(SocialMonetizationInstructionModel::CancelSubscription{ subscription_id }) + rest).skip(1) =~= (enc_arr::<32>(subscription_id)) + rest);
    lemma_arr::<32>(subscription_id, rest);
}

proof fn lemma_social_monetization_instruction_unlock_paid_content(record: PaidContentUnlockRecord, rest: Seq<u8>)
    ensures
        dec_social_monetization_instruction(enc_social_monetization_instruction(SocialMonetizationInstructionModel::UnlockPaidContent{ record }) + rest) == Some((SocialMonetizationInstructionModel::UnlockPaidContent{ record }, rest)),
{
    reveal(enc_social_monetization_instruction);
    reveal(dec_social_monetization_instruction);
    assert((enc_social_monetization_instruction(SocialMonetizationInstructionModel::UnlockPaidContent{ record }) + rest).skip(1) =~= (enc_paid_content_unlock_record(record)) + rest);
    lemma_paid_content_unlock_record(record, rest);
}

proof fn lemma_social_monetization_instruction_claim_monetization_payout(creator: Pubkey, amount: u64, rest: Seq<u8>)
    ensures
        dec_social_monetization_instruction(enc_social_monetization_instruction(SocialMonetizationInstructionModel::ClaimMonetizationPayout{ creator, amount }) + rest) == Some((SocialMonetizationInstructionModel::ClaimMonetizationPayout{ creator, amount }, rest)),
{
    reveal(enc_social_monetization_instruction);
    reveal(dec_social_monetization_instruction);
    assert((enc_social_monetization_instruction(SocialMonetizationInstructionModel::ClaimMonetizationPayout{ creator, amount }) + rest).skip(1) =~= (enc_pubkey(creator) + (enc_u64(amount))) + rest);
    lemma_assoc(enc_pubkey(creator), enc_u64(amount), rest);
    lemma_pubkey(creator, enc_u64(amount) + rest);
    lemma_u64(amount, rest);
}

proof fn lemma_social_monetization_instruction_read_monetization_state(creator: Option<Pubkey>, rest: Seq<u8>)
    ensures
        dec_social_monetization_instruction(enc_social_monetization_instruction(SocialMonetizationInstructionModel::ReadMonetizationState{ creator }) + rest) == Some((SocialMonetizationInstructionModel::ReadMonetizationState{ creator }, rest)),
{
    reveal(enc_social_monetization_instruction);
    reveal(dec_social_monetization_instruction);
    assert((enc_social_monetization_instruction(SocialMonetizationInstructionModel::ReadMonetizationState{ creator }) + rest).skip(1) =~= (enc_opt_pubkey(creator)) + rest);
    lemma_opt_pubkey(creator, rest);
}

pub proof fn lemma_social_monetization_instruction(v: SocialMonetizationInstructionModel, rest: Seq<u8>)
    requires
        fits_social_monetization_instruction(v),
    ensures
        dec_social_monetization_instruction(enc_social_monetization_instruction(v) + rest) == Some((v, rest)),
{
    reveal(enc_social_monetization_instruction);
    reveal(dec_social_monetization_instruction);
    match v {
        SocialMonetizationInstructionModel::InitializeConfig{ state } => lemma_social_monetization_instruction_initialize_config(state, rest),
        SocialMonetizationInstructionModel::SendCreatorTip{ record } => lemma_social_monetization_instruction_send_creator_tip(record, rest),
        SocialMonetizationInstructionModel::CreateSubscription{ record } => lemma_social_monetization_instruction_create_subscription(record, rest),
        SocialMonetizationInstructionModel::RenewSubscription{ subscription_id, valid_until_unix } => lemma_social_monetization_instruction_renew_subscription(subscription_id, valid_until_unix, rest),
        SocialMonetizationInstructionModel::CancelSubscription{ subscription_id } => lemma_social_monetization_instruction_cancel_subscription(subscription_id, rest),
        SocialMonetizationInstructionModel::UnlockPaidContent{ record } => lemma_social_monetization_instruction_unlock_paid_content(record, rest),
        SocialMonetizationInstructionModel::ClaimMonetizationPayout{ creator, amount } => lemma_social_monetization_instruction_claim_monetization_payout(creator, amount, rest),
        SocialMonetizationInstructionModel::ReadMonetizationState{ creator } => lemma_social_monetization_instruction_read_monetization_state(creator, rest),
    }
}

/// Decodes a [`SocialMonetizationInstruction`] that must take up all of `d`.
pub fn social_monetization_instruction_from_slice(d: &[u8]) -> (r: Option<SocialMonetizationInstruction>)
    ensures
        r is Some <==> (dec_social_monetization_instruction(d@) matches Some((_, rest)) && rest.len() == 0),
        r matches Some(v) ==> dec_social_monetization_instruction(d@) == Some((v@, Seq::<u8>::empty())),
{
    assert(d@.skip(0) =~= d@);
    match read_social_monetization_instruction(d, 0) {
        None => None,
        Some((v, p)) => {
            if p == d.len() {
                assert(d@.skip(p as int) =~= Seq::<u8>::empty());
                Some(v)
            } else {
                None
            }
        },
    }
}

/// Decodes a [`SocialMonetizationInstruction`] from the front of `d`, ignoring what follows it.
pub fn social_monetization_instruction_from_prefix(d: &[u8]) -> (r: Option<SocialMonetizationInstruction>)
    ensures
        r is Some <==> dec_social_monetization_instruction(d@) is Some,
        r matches Some(v) ==> dec_social_monetization_instruction(d@) matches Some((m, _)) && m == v@,
{
    assert(d@.skip(0) =~= d@);
    match read_social_monetization_instruction(d, 0) {
        None => None,
        Some((v, _)) => Some(v),
    }
}

/// Serialises a [`SocialMonetizationInstruction`]; `None` when a length does not fit the `u32` prefix.
pub fn social_monetization_instruction_to_vec(v: &SocialMonetizationInstruction) -> (r: Option<Vec<u8>>)
    ensures
        r is Some <==> fits_social_monetization_instruction(v@),
        r matches Some(b) ==> b@ == enc_social_monetization_instruction(v@),
{
    let mut out: Vec<u8> = Vec::new();
    if write_social_monetization_instruction(&mut out, v) {
        assert(out@ =~= enc_social_monetization_instruction(v@));
        Some(out)
    } else {
        None
    }
}

} // verus!
