//! Data types and their byte layout.
use vstd::prelude::*;
use crate::codec::{dec_bool, dec_i64, dec_pubkey, dec_u16, dec_u32, dec_u64, enc_bool, enc_i64, enc_pubkey, enc_u16, enc_u32, enc_u64, fits_u32, lemma_assoc, lemma_bool, lemma_i64, lemma_pubkey, lemma_skip_skip, lemma_u16, lemma_u32, lemma_u64, read_bool, read_i64, read_ok, read_pubkey, read_u16, read_u32, read_u64, read_u8, write_bool, write_i64, write_pubkey, write_u16, write_u32, write_u64};
use crate::layout::{dec_opt_i64, dec_opt_pubkey, dec_opt_u64, enc_opt_i64, enc_opt_pubkey, enc_opt_u64, lemma_opt_i64, lemma_opt_pubkey, lemma_opt_u64, read_opt_i64, read_opt_pubkey, read_opt_u64, write_opt_i64, write_opt_pubkey, write_opt_u64};
use crate::pubkey::{Pubkey};

verus! {

/// Custom error codes of the social anti-spam program.
#[derive(Clone, Copy, Debug, PartialEq, Eq, Structural)]
pub enum SocialAntiSpamError {
    Uninitialized,
    Unauthorized,
    NotAllowedByMode,
    ReputationTooLow,
    StakeTooLow,
    CooldownActive,
    ProfileNotFound,
}

impl SocialAntiSpamError {
    /// The custom error code carried by this error.
    pub open spec fn spec_code(self) -> u32 {
        match self {
            SocialAntiSpamError::Uninitialized => 0,
            SocialAntiSpamError::Unauthorized => 1,
            SocialAntiSpamError::NotAllowedByMode => 2,
            SocialAntiSpamError::ReputationTooLow => 3,
            SocialAntiSpamError::StakeTooLow => 4,
            SocialAntiSpamError::CooldownActive => 5,
            SocialAntiSpamError::ProfileNotFound => 6,
        }
    }

    pub fn code(self) -> (c: u32)
        ensures
            c == self.spec_code(),
    {
        match self {
            SocialAntiSpamError::Uninitialized => 0,
            SocialAntiSpamError::Unauthorized => 1,
            SocialAntiSpamError::NotAllowedByMode => 2,
            SocialAntiSpamError::ReputationTooLow => 3,
            SocialAntiSpamError::StakeTooLow => 4,
            SocialAntiSpamError::CooldownActive => 5,
            SocialAntiSpamError::ProfileNotFound => 6,
        }
    }
}

/// How strictly the anti-spam gate acts.
#[derive(Clone, Copy, Debug, PartialEq, Eq, Structural)]
pub enum AntiSpamMode {
    ObserveOnly,
    GateByReputation,
    GateByStake,
    PenaltyEnabled,
}

#[verifier::opaque]
pub open spec fn enc_anti_spam_mode(v: AntiSpamMode) -> Seq<u8> {
    match v {
        AntiSpamMode::ObserveOnly => seq![0u8],
        AntiSpamMode::GateByReputation => seq![1u8],
        AntiSpamMode::GateByStake => seq![2u8],
        AntiSpamMode::PenaltyEnabled => seq![3u8],
    }
}

#[verifier::opaque]
pub open spec fn dec_anti_spam_mode(s: Seq<u8>) -> Option<(AntiSpamMode, Seq<u8>)> {
    if s.len() == 0 {
        None
    } else if s[0] == 0 {
        Some((AntiSpamMode::ObserveOnly, s.skip(1)))
    } else if s[0] == 1 {
        Some((AntiSpamMode::GateByReputation, s.skip(1)))
    } else if s[0] == 2 {
        Some((AntiSpamMode::GateByStake, s.skip(1)))
    } else if s[0] == 3 {
        Some((AntiSpamMode::PenaltyEnabled, s.skip(1)))
    } else { None }
}

pub fn read_anti_spam_mode(d: &[u8], pos: usize) -> (r: Option<(AntiSpamMode, usize)>)
    requires
        pos <= d@.len(),
    ensures
        read_ok(dec_anti_spam_mode(d@.skip(pos as int)), r, d@),
{
    proof {
        reveal(dec_anti_spam_mode);
    }
    match read_u8(d, pos) {
        None => None,
        Some((tag, p0)) => {
            proof {
                lemma_skip_skip(d@, pos as int, 1);
            }
            match tag {
            0 => Some((AntiSpamMode::ObserveOnly, p0)),
            1 => Some((AntiSpamMode::GateByReputation, p0)),
            2 => Some((AntiSpamMode::GateByStake, p0)),
            3 => Some((AntiSpamMode::PenaltyEnabled, p0)),
            _ => None,
            }
        },
    }
}

pub fn write_anti_spam_mode(out: &mut Vec<u8>, v: &AntiSpamMode)
    ensures
        final(out)@ == old(out)@ + enc_anti_spam_mode(*v),
{
    proof {
        reveal(enc_anti_spam_mode);
    }
    match v {
        AntiSpamMode::ObserveOnly => {
            out.push(0u8);
            assert(out@ =~= old(out)@ + seq![0u8]);
        },
        AntiSpamMode::GateByReputation => {
            out.push(1u8);
            assert(out@ =~= old(out)@ + seq![1u8]);
        },
        AntiSpamMode::GateByStake => {
            out.push(2u8);
            assert(out@ =~= old(out)@ + seq![2u8]);
        },
        AntiSpamMode::PenaltyEnabled => {
            out.push(3u8);
            assert(out@ =~= old(out)@ + seq![3u8]);
        },
    }
}

pub proof fn lemma_anti_spam_mode(v: AntiSpamMode, rest: Seq<u8>)
    ensures
        dec_anti_spam_mode(enc_anti_spam_mode(v) + rest) == Some((v, rest)),
{
    reveal(enc_anti_spam_mode);
    reveal(dec_anti_spam_mode);
    match v {
        AntiSpamMode::ObserveOnly => {
            assert((enc_anti_spam_mode(v) + rest).skip(1) =~= rest);
        },
        AntiSpamMode::GateByReputation => {
            assert((enc_anti_spam_mode(v) + rest).skip(1) =~= rest);
        },
        AntiSpamMode::GateByStake => {
            assert((enc_anti_spam_mode(v) + rest).skip(1) =~= rest);
        },
        AntiSpamMode::PenaltyEnabled => {
            assert((enc_anti_spam_mode(v) + rest).skip(1) =~= rest);
        },
    }
}

/// Anti-spam configuration.
#[derive(Clone, Copy, Debug, PartialEq, Eq)]
pub struct AntiSpamConfig {
    pub authority: Pubkey,
    pub mode: AntiSpamMode,
    pub min_post_stake: u64,
    pub min_post_reputation: u16,
    pub cooldown_epochs: u64,
    pub slash_bps: u16,
}

#[verifier::opaque]
pub open spec fn enc_anti_spam_config(v: AntiSpamConfig) -> Seq<u8> {
    enc_pubkey(v.authority) + (enc_anti_spam_mode(v.mode) + (enc_u64(v.min_post_stake) + (enc_u16(v.min_post_reputation) + (enc_u64(v.cooldown_epochs) + (enc_u16(v.slash_bps))))))
}

#[verifier::opaque]
pub open spec fn dec_anti_spam_config(s: Seq<u8>) -> Option<(AntiSpamConfig, Seq<u8>)> {
    match dec_pubkey(s) {
            Some((authority, r1)) => match dec_anti_spam_mode(r1) {
            Some((mode, r2)) => match dec_u64(r2) {
            Some((min_post_stake, r3)) => match dec_u16(r3) {
            Some((min_post_reputation, r4)) => match dec_u64(r4) {
            Some((cooldown_epochs, r5)) => match dec_u16(r5) {
            Some((slash_bps, r6)) => Some((AntiSpamConfig { authority, mode, min_post_stake, min_post_reputation, cooldown_epochs, slash_bps }, r6)),
            None => None,
        },
            None => None,
        },
            None => None,
        },
            None => None,
        },
            None => None,
        },
            None => None,
        }
}

pub fn read_anti_spam_config(d: &[u8], pos: usize) -> (r: Option<(AntiSpamConfig, usize)>)
    requires
        pos <= d@.len(),
    ensures
        read_ok(dec_anti_spam_config(d@.skip(pos as int)), r, d@),
{
    proof {
        reveal(dec_anti_spam_config);
    }
    match read_pubkey(d, pos) {
        None => None,
        Some((authority, p1)) => match read_anti_spam_mode(d, p1) {
        None => None,
        Some((mode, p2)) => match read_u64(d, p2) {
        None => None,
        Some((min_post_stake, p3)) => match read_u16(d, p3) {
        None => None,
        Some((min_post_reputation, p4)) => match read_u64(d, p4) {
        None => None,
        Some((cooldown_epochs, p5)) => match read_u16(d, p5) {
        None => None,
        Some((slash_bps, p6)) => Some((AntiSpamConfig { authority, mode, min_post_stake, min_post_reputation, cooldown_epochs, slash_bps }, p6)),
    },
    },
    },
    },
    },
    }
}

pub fn write_anti_spam_config(out: &mut Vec<u8>, v: &AntiSpamConfig)
    ensures
        final(out)@ == old(out)@ + enc_anti_spam_config(*v),
{
    proof {
        reveal(enc_anti_spam_config);
    }
    write_pubkey(out, &v.authority);
    let ghost o0 = out@;
    write_anti_spam_mode(out, &v.mode);
    let ghost o1 = out@;
    write_u64(out, *&v.min_post_stake);
    let ghost o2 = out@;
    write_u16(out, *&v.min_post_reputation);
    let ghost o3 = out@;
    write_u64(out, *&v.cooldown_epochs);
    let ghost o4 = out@;
    write_u16(out, *&v.slash_bps);
    let ghost o5 = out@;
    proof {
        lemma_assoc(o3, enc_u64((*v).cooldown_epochs), enc_u16((*v).slash_bps));
        lemma_assoc(o2, enc_u16((*v).min_post_reputation), enc_u64((*v).cooldown_epochs) + (enc_u16((*v).slash_bps)));
        lemma_assoc(o1, enc_u64((*v).min_post_stake), enc_u16((*v).min_post_reputation) + (enc_u64((*v).cooldown_epochs) + (enc_u16((*v).slash_bps))));
        lemma_assoc(o0, enc_anti_spam_mode((*v).mode), enc_u64((*v).min_post_stake) + (enc_u16((*v).min_post_reputation) + (enc_u64((*v).cooldown_epochs) + (enc_u16((*v).slash_bps)))));
        lemma_assoc(old(out)@, enc_pubkey((*v).authority), enc_anti_spam_mode((*v).mode) + (enc_u64((*v).min_post_stake) + (enc_u16((*v).min_post_reputation) + (enc_u64((*v).cooldown_epochs) + (enc_u16((*v).slash_bps))))));
    }
}

pub proof fn lemma_anti_spam_config(v: AntiSpamConfig, rest: Seq<u8>)
    ensures
        dec_anti_spam_config(enc_anti_spam_config(v) + rest) == Some((v, rest)),
{
    reveal(enc_anti_spam_config);
    reveal(dec_anti_spam_config);
    lemma_assoc(enc_pubkey(v.authority), enc_anti_spam_mode(v.mode) + (enc_u64(v.min_post_stake) + (enc_u16(v.min_post_reputation) + (enc_u64(v.cooldown_epochs) + (enc_u16(v.slash_bps))))), rest);
    lemma_pubkey(v.authority, enc_anti_spam_mode(v.mode) + (enc_u64(v.min_post_stake) + (enc_u16(v.min_post_reputation) + (enc_u64(v.cooldown_epochs) + (enc_u16(v.slash_bps))))) + rest);
    lemma_assoc(enc_anti_spam_mode(v.mode), enc_u64(v.min_post_stake) + (enc_u16(v.min_post_reputation) + (enc_u64(v.cooldown_epochs) + (enc_u16(v.slash_bps)))), rest);
    lemma_anti_spam_mode(v.mode, enc_u64(v.min_post_stake) + (enc_u16(v.min_post_reputation) + (enc_u64(v.cooldown_epochs) + (enc_u16(v.slash_bps)))) + rest);
    lemma_assoc(enc_u64(v.min_post_stake), enc_u16(v.min_post_reputation) + (enc_u64(v.cooldown_epochs) + (enc_u16(v.slash_bps))), rest);
    lemma_u64(v.min_post_stake, enc_u16(v.min_post_reputation) + (enc_u64(v.cooldown_epochs) + (enc_u16(v.slash_bps))) + rest);
    lemma_assoc(enc_u16(v.min_post_reputation), enc_u64(v.cooldown_epochs) + (enc_u16(v.slash_bps)), rest);
    lemma_u16(v.min_post_reputation, enc_u64(v.cooldown_epochs) + (enc_u16(v.slash_bps)) + rest);
    lemma_assoc(enc_u64(v.cooldown_epochs), enc_u16(v.slash_bps), rest);
    lemma_u64(v.cooldown_epochs, enc_u16(v.slash_bps) + rest);
    lemma_u16(v.slash_bps, rest);
}

/// Per-wallet anti-spam profile.
#[derive(Clone, Copy, Debug, PartialEq, Eq)]
pub struct AntiSpamProfile {
    pub wallet: Pubkey,
    pub post_count_window: u32,
    pub engagement_count_window: u32,
    pub spam_flags: u16,
    pub gated_until_epoch: Option<u64>,
    pub slash_count: u16,
    pub last_flagged_at_unix: Option<i64>,
}

#[verifier::opaque]
pub open spec fn enc_anti_spam_profile(v: AntiSpamProfile) -> Seq<u8> {
    enc_pubkey(v.wallet) + (enc_u32(v.post_count_window) + (enc_u32(v.engagement_count_window) + (enc_u16(v.spam_flags) + (enc_opt_u64(v.gated_until_epoch) + (enc_u16(v.slash_count) + (enc_opt_i64(v.last_flagged_at_unix)))))))
}

#[verifier::opaque]
pub open spec fn dec_anti_spam_profile(s: Seq<u8>) -> Option<(AntiSpamProfile, Seq<u8>)> {
    match dec_pubkey(s) {
            Some((wallet, r1)) => match dec_u32(r1) {
            Some((post_count_window, r2)) => match dec_u32(r2) {
            Some((engagement_count_window, r3)) => match dec_u16(r3) {
            Some((spam_flags, r4)) => match dec_opt_u64(r4) {
            Some((gated_until_epoch, r5)) => match dec_u16(r5) {
            Some((slash_count, r6)) => match dec_opt_i64(r6) {
            Some((last_flagged_at_unix, r7)) => Some((AntiSpamProfile { wallet, post_count_window, engagement_count_window, spam_flags, gated_until_epoch, slash_count, last_flagged_at_unix }, r7)),
            None => None,
        },
            None => None,
        },
            None => None,
        },
            None => None,
        },
            None => None,
        },
            None => None,
        },
            None => None,
        }
}

pub fn read_anti_spam_profile(d: &[u8], pos: usize) -> (r: Option<(AntiSpamProfile, usize)>)
    requires
        pos <= d@.len(),
    ensures
        read_ok(dec_anti_spam_profile(d@.skip(pos as int)), r, d@),
{
    proof {
        reveal(dec_anti_spam_profile);
    }
    match read_pubkey(d, pos) {
        None => None,
        Some((wallet, p1)) => match read_u32(d, p1) {
        None => None,
        Some((post_count_window, p2)) => match read_u32(d, p2) {
        None => None,
        Some((engagement_count_window, p3)) => match read_u16(d, p3) {
        None => None,
        Some((spam_flags, p4)) => match read_opt_u64(d, p4) {
        None => None,
        Some((gated_until_epoch, p5)) => match read_u16(d, p5) {
        None => None,
        Some((slash_count, p6)) => match read_opt_i64(d, p6) {
        None => None,
        Some((last_flagged_at_unix, p7)) => Some((AntiSpamProfile { wallet, post_count_window, engagement_count_window, spam_flags, gated_until_epoch, slash_count, last_flagged_at_unix }, p7)),
    },
    },
    },
    },
    },
    },
    }
}

pub fn write_anti_spam_profile(out: &mut Vec<u8>, v: &AntiSpamProfile)
    ensures
        final(out)@ == old(out)@ + enc_anti_spam_profile(*v),
{
    proof {
        reveal(enc_anti_spam_profile);
    }
    write_pubkey(out, &v.wallet);
    let ghost o0 = out@;
    write_u32(out, *&v.post_count_window);
    let ghost o1 = out@;
    write_u32(out, *&v.engagement_count_window);
    let ghost o2 = out@;
    write_u16(out, *&v.spam_flags);
    let ghost o3 = out@;
    write_opt_u64(out, &v.gated_until_epoch);
    let ghost o4 = out@;
    write_u16(out, *&v.slash_count);
    let ghost o5 = out@;
    write_opt_i64(out, &v.last_flagged_at_unix);
    let ghost o6 = out@;
    proof {
        lemma_assoc(o4, enc_u16((*v).slash_count), enc_opt_i64((*v).last_flagged_at_unix));
        lemma_assoc(o3, enc_opt_u64((*v).gated_until_epoch), enc_u16((*v).slash_count) + (enc_opt_i64((*v).last_flagged_at_unix)));
        lemma_assoc(o2, enc_u16((*v).spam_flags), enc_opt_u64((*v).gated_until_epoch) + (enc_u16((*v).slash_count) + (enc_opt_i64((*v).last_flagged_at_unix))));
        lemma_assoc(o1, enc_u32((*v).engagement_count_window), enc_u16((*v).spam_flags) + (enc_opt_u64((*v).gated_until_epoch) + (enc_u16((*v).slash_count) + (enc_opt_i64((*v).last_flagged_at_unix)))));
        lemma_assoc(o0, enc_u32((*v).post_count_window), enc_u32((*v).engagement_count_window) + (enc_u16((*v).spam_flags) + (enc_opt_u64((*v).gated_until_epoch) + (enc_u16((*v).slash_count) + (enc_opt_i64((*v).last_flagged_at_unix))))));
        lemma_assoc(old(out)@, enc_pubkey((*v).wallet), enc_u32((*v).post_count_window) + (enc_u32((*v).engagement_count_window) + (enc_u16((*v).spam_flags) + (enc_opt_u64((*v).gated_until_epoch) + (enc_u16((*v).slash_count) + (enc_opt_i64((*v).last_flagged_at_unix)))))));
    }
}

pub proof fn lemma_anti_spam_profile(v: AntiSpamProfile, rest: Seq<u8>)
    ensures
        dec_anti_spam_profile(enc_anti_spam_profile(v) + rest) == Some((v, rest)),
{
    reveal(enc_anti_spam_profile);
    reveal(dec_anti_spam_profile);
    lemma_assoc(enc_pubkey(v.wallet), enc_u32(v.post_count_window) + (enc_u32(v.engagement_count_window) + (enc_u16(v.spam_flags) + (enc_opt_u64(v.gated_until_epoch) + (enc_u16(v.slash_count) + (enc_opt_i64(v.last_flagged_at_unix)))))), rest);
    lemma_pubkey(v.wallet, enc_u32(v.post_count_window) + (enc_u32(v.engagement_count_window) + (enc_u16(v.spam_flags) + (enc_opt_u64(v.gated_until_epoch) + (enc_u16(v.slash_count) + (enc_opt_i64(v.last_flagged_at_unix)))))) + rest);
    lemma_assoc(enc_u32(v.post_count_window), enc_u32(v.engagement_count_window) + (enc_u16(v.spam_flags) + (enc_opt_u64(v.gated_until_epoch) + (enc_u16(v.slash_count) + (enc_opt_i64(v.last_flagged_at_unix))))), rest);
    lemma_u32(v.post_count_window, enc_u32(v.engagement_count_window) + (enc_u16(v.spam_flags) + (enc_opt_u64(v.gated_until_epoch) + (enc_u16(v.slash_count) + (enc_opt_i64(v.last_flagged_at_unix))))) + rest);
    lemma_assoc(enc_u32(v.engagement_count_window), enc_u16(v.spam_flags) + (enc_opt_u64(v.gated_until_epoch) + (enc_u16(v.slash_count) + (enc_opt_i64(v.last_flagged_at_unix)))), rest);
    lemma_u32(v.engagement_count_window, enc_u16(v.spam_flags) + (enc_opt_u64(v.gated_until_epoch) + (enc_u16(v.slash_count) + (enc_opt_i64(v.last_flagged_at_unix)))) + rest);
    lemma_assoc(enc_u16(v.spam_flags), enc_opt_u64(v.gated_until_epoch) + (enc_u16(v.slash_count) + (enc_opt_i64(v.last_flagged_at_unix))), rest);
    lemma_u16(v.spam_flags, enc_opt_u64(v.gated_until_epoch) + (enc_u16(v.slash_count) + (enc_opt_i64(v.last_flagged_at_unix))) + rest);
    lemma_assoc(enc_opt_u64(v.gated_until_epoch), enc_u16(v.slash_count) + (enc_opt_i64(v.last_flagged_at_unix)), rest);
    lemma_opt_u64(v.gated_until_epoch, enc_u16(v.slash_count) + (enc_opt_i64(v.last_flagged_at_unix)) + rest);
    lemma_assoc(enc_u16(v.slash_count), enc_opt_i64(v.last_flagged_at_unix), rest);
    lemma_u16(v.slash_count, enc_opt_i64(v.last_flagged_at_unix) + rest);
    lemma_opt_i64(v.last_flagged_at_unix, rest);
}

/// Decodes a [`AntiSpamProfile`] that must take up all of `d`.
pub fn anti_spam_profile_from_slice(d: &[u8]) -> (r: Option<AntiSpamProfile>)
    ensures
        r is Some <==> (dec_anti_spam_profile(d@) matches Some((_, rest)) && rest.len() == 0),
        r matches Some(v) ==> dec_anti_spam_profile(d@) == Some((v, Seq::<u8>::empty())),
{
    assert(d@.skip(0) =~= d@);
    match read_anti_spam_profile(d, 0) {
        None => None,
        Some((v, p)) => {
            if p == d.len() {
                assert(d@.skip(p as int) =~= Seq::<u8>::empty());
                Some(v)
            } else {
                None
            }
        },
    }
}

/// Decodes a [`AntiSpamProfile`] from the front of `d`, ignoring what follows it.
pub fn anti_spam_profile_from_prefix(d: &[u8]) -> (r: Option<AntiSpamProfile>)
    ensures
        r is Some <==> dec_anti_spam_profile(d@) is Some,
        r matches Some(v) ==> dec_anti_spam_profile(d@) matches Some((m, _)) && m == v,
{
    assert(d@.skip(0) =~= d@);
    match read_anti_spam_profile(d, 0) {
        None => None,
        Some((v, _)) => Some(v),
    }
}

/// Serialises a [`AntiSpamProfile`].
pub fn anti_spam_profile_to_vec(v: &AntiSpamProfile) -> (r: Vec<u8>)
    ensures
        r@ == enc_anti_spam_profile(*v),
{
    let mut out: Vec<u8> = Vec::new();
    write_anti_spam_profile(&mut out, v);
    assert(out@ =~= enc_anti_spam_profile(*v));
    out
}


pub open spec fn enc_items_anti_spam_profile(xs: Seq<AntiSpamProfile>) -> Seq<u8>
    decreases xs.len(),
{
    if xs.len() == 0 {
        Seq::empty()
    } else {
        enc_items_anti_spam_profile(xs.drop_last()) + enc_anti_spam_profile(xs.last())
    }
}

pub open spec fn dec_items_anti_spam_profile(s: Seq<u8>, n: nat) -> Option<(Seq<AntiSpamProfile>, Seq<u8>)>
    decreases n,
{
    if n == 0 {
        Some((Seq::empty(), s))
    } else {
        match dec_items_anti_spam_profile(s, (n - 1) as nat) {
            Some((xs, r)) => match dec_anti_spam_profile(r) {
                Some((x, r2)) => Some((xs.push(x), r2)),
                None => None,
            },
            None => None,
        }
    }
}

pub open spec fn enc_vec_anti_spam_profile(xs: Seq<AntiSpamProfile>) -> Seq<u8> {
    enc_u32(xs.len() as u32) + enc_items_anti_spam_profile(xs)
}

pub open spec fn dec_vec_anti_spam_profile(s: Seq<u8>) -> Option<(Seq<AntiSpamProfile>, Seq<u8>)> {
    match dec_u32(s) {
        Some((n, r)) => dec_items_anti_spam_profile(r, n as nat),
        None => None,
    }
}


pub open spec fn fits_vec_anti_spam_profile(xs: Seq<AntiSpamProfile>) -> bool {
    fits_u32(xs.len())
}


pub open spec fn model_vec_anti_spam_profile(v: Seq<AntiSpamProfile>) -> Seq<AntiSpamProfile> {
    v
}

pub proof fn lemma_items_none_anti_spam_profile(s: Seq<u8>, k: nat, n: nat)
    requires
        k <= n,
        dec_items_anti_spam_profile(s, k) is None,
    ensures
        dec_items_anti_spam_profile(s, n) is None,
    decreases n - k,
{
    if k < n {
        lemma_items_none_anti_spam_profile(s, k, (n - 1) as nat);
    }
}

pub fn read_vec_anti_spam_profile(d: &[u8], pos: usize) -> (r: Option<(Vec<AntiSpamProfile>, usize)>)
    requires
        pos <= d@.len(),
    ensures
        match r {
            None => dec_vec_anti_spam_profile(d@.skip(pos as int)) is None,
            Some((v, p)) => p <= d@.len() && dec_vec_anti_spam_profile(d@.skip(pos as int)) == Some((model_vec_anti_spam_profile(v@), d@.skip(p as int))),
        },
{
    match read_u32(d, pos) {
        None => None,
        Some((n, p0)) => {
            let mut v: Vec<AntiSpamProfile> = Vec::new();
            let mut p = p0;
            let mut i: u32 = 0;
            while i < n
                invariant
                    p <= d@.len(),
                    pos <= d@.len(),
                    dec_u32(d@.skip(pos as int)) == Some((n, d@.skip(p0 as int))),
                    i <= n,
                    v@.len() == i,
                    dec_items_anti_spam_profile(d@.skip(p0 as int), i as nat) == Some((model_vec_anti_spam_profile(v@), d@.skip(p as int))),
                decreases n - i,
            {
                match read_anti_spam_profile(d, p) {
                    None => {
                        proof {
                            assert(dec_anti_spam_profile(d@.skip(p as int)) is None);
                            assert(dec_items_anti_spam_profile(d@.skip(p0 as int), (i + 1) as nat) is None);
                            lemma_items_none_anti_spam_profile(d@.skip(p0 as int), (i + 1) as nat, n as nat);
                        }
                        return None;
                    },
                    Some((x, p2)) => {
                        let ghost old_v = v@;
                        v.push(x);
                        proof {
                            assert(model_vec_anti_spam_profile(v@) =~= model_vec_anti_spam_profile(old_v).push(x));
                        }
                        p = p2;
                        i = i + 1;
                    },
                }
            }
            Some((v, p))
        },
    }
}


pub fn write_vec_anti_spam_profile(out: &mut Vec<u8>, v: &Vec<AntiSpamProfile>) -> (ok: bool)
    ensures
        ok == fits_vec_anti_spam_profile(model_vec_anti_spam_profile(v@)),
        ok ==> final(out)@ == old(out)@ + enc_vec_anti_spam_profile(model_vec_anti_spam_profile(v@)),
{
    if v.len() > u32::MAX as usize {
        return false;
    }
    write_u32(out, v.len() as u32);
    let ghost base = out@;
    let mut i: usize = 0;
    while i < v.len()
        invariant
            i <= v@.len(),
            v@.len() <= u32::MAX,
            out@ == base + enc_items_anti_spam_profile(model_vec_anti_spam_profile(v@).take(i as int)),
        decreases v@.len() - i,
    {
        write_anti_spam_profile(out, &v[i]);
        proof {
            assert(model_vec_anti_spam_profile(v@).take(i + 1).drop_last() =~= model_vec_anti_spam_profile(v@).take(i as int));
            assert(model_vec_anti_spam_profile(v@).take(i + 1).last() == model_vec_anti_spam_profile(v@)[i as int]);
        }
        i = i + 1;
    }
    proof {
        assert(model_vec_anti_spam_profile(v@).take(v@.len() as int) =~= model_vec_anti_spam_profile(v@));
    }
    true
}


pub proof fn lemma_items_anti_spam_profile(xs: Seq<AntiSpamProfile>, rest: Seq<u8>)
    requires
        true,
    ensures
        dec_items_anti_spam_profile(enc_items_anti_spam_profile(xs) + rest, xs.len()) == Some((xs, rest)),
    decreases xs.len(),
{
    if xs.len() == 0 {
        assert(enc_items_anti_spam_profile(xs) + rest =~= rest);
        assert(xs =~= Seq::<AntiSpamProfile>::empty());
    } else {
        let init = xs.drop_last();
        let last = xs.last();
        assert forall|i: int| 0 <= i < init.len() implies init[i] == xs[i] by {}
        lemma_items_anti_spam_profile(init, enc_anti_spam_profile(last) + rest);
        assert(enc_items_anti_spam_profile(xs) + rest =~= enc_items_anti_spam_profile(init) + (enc_anti_spam_profile(last) + rest));
        lemma_anti_spam_profile(last, rest);
        assert(init.push(last) =~= xs);
    }
}

pub proof fn lemma_vec_anti_spam_profile(xs: Seq<AntiSpamProfile>, rest: Seq<u8>)
    requires
        fits_vec_anti_spam_profile(xs),
    ensures
        dec_vec_anti_spam_profile(enc_vec_anti_spam_profile(xs) + rest) == Some((xs, rest)),
{
    assert(enc_vec_anti_spam_profile(xs) + rest =~= enc_u32(xs.len() as u32) + (enc_items_anti_spam_profile(xs) + rest));
    lemma_u32(xs.len() as u32, enc_items_anti_spam_profile(xs) + rest);
    lemma_items_anti_spam_profile(xs, rest);
}

/// The anti-spam state account.
#[derive(Clone, Debug, PartialEq, Eq)]
pub struct SocialAntiSpamStateAccount {
    pub is_initialized: bool,
    pub config: AntiSpamConfig,
    pub profiles: Vec<AntiSpamProfile>,
}

/// Mathematical model of [`SocialAntiSpamStateAccount`].
#[verifier::ext_equal]
pub struct SocialAntiSpamStateAccountModel {
    pub is_initialized: bool,
    pub config: AntiSpamConfig,
    pub profiles: Seq<AntiSpamProfile>,
}

impl View for SocialAntiSpamStateAccount {
    type V = SocialAntiSpamStateAccountModel;

    open spec fn view(&self) -> SocialAntiSpamStateAccountModel {
        SocialAntiSpamStateAccountModel {
            is_initialized: self.is_initialized,
            config: self.config,
            profiles: self.profiles@,
        }
    }
}

#[verifier::opaque]
pub open spec fn enc_social_anti_spam_state_account(v: SocialAntiSpamStateAccountModel) -> Seq<u8> {
    enc_bool(v.is_initialized) + (enc_anti_spam_config(v.config) + (enc_vec_anti_spam_profile(v.profiles)))
}

#[verifier::opaque]
pub open spec fn dec_social_anti_spam_state_account(s: Seq<u8>) -> Option<(SocialAntiSpamStateAccountModel, Seq<u8>)> {
    match dec_bool(s) {
            Some((is_initialized, r1)) => match dec_anti_spam_config(r1) {
            Some((config, r2)) => match dec_vec_anti_spam_profile(r2) {
            Some((profiles, r3)) => Some((SocialAntiSpamStateAccountModel { is_initialized, config, profiles }, r3)),
            None => None,
        },
            None => None,
        },
            None => None,
        }
}

pub open spec fn fits_social_anti_spam_state_account(v: SocialAntiSpamStateAccountModel) -> bool {
    fits_vec_anti_spam_profile(v.profiles)
}

pub fn read_social_anti_spam_state_account(d: &[u8], pos: usize) -> (r: Option<(SocialAntiSpamStateAccount, usize)>)
    requires
        pos <= d@.len(),
    ensures
        match r {
            None => dec_social_anti_spam_state_account(d@.skip(pos as int)) is None,
            Some((v, p)) => p <= d@.len() && dec_social_anti_spam_state_account(d@.skip(pos as int)) == Some((v@, d@.skip(p as int))),
        },
{
    proof {
        reveal(dec_social_anti_spam_state_account);
    }
    match read_bool(d, pos) {
        None => None,
        Some((is_initialized, p1)) => match read_anti_spam_config(d, p1) {
        None => None,
        Some((config, p2)) => match read_vec_anti_spam_profile(d, p2) {
        None => None,
        Some((profiles, p3)) => Some((SocialAntiSpamStateAccount { is_initialized, config, profiles }, p3)),
    },
    },
    }
}

pub fn write_social_anti_spam_state_account(out: &mut Vec<u8>, v: &SocialAntiSpamStateAccount) -> (ok: bool)
    ensures
        ok == fits_social_anti_spam_state_account(v@),
        ok ==> final(out)@ == old(out)@ + enc_social_anti_spam_state_account(v@),
{
    proof {
        reveal(enc_social_anti_spam_state_account);
    }
    write_bool(out, *&v.is_initialized);
    let ghost o0 = out@;
    write_anti_spam_config(out, &v.config);
    let ghost o1 = out@;
    if !write_vec_anti_spam_profile(out, &v.profiles) { return false; }
    let ghost o2 = out@;
    proof {
        lemma_assoc(o0, enc_anti_spam_config(v@.config), enc_vec_anti_spam_profile(v@.profiles));
        lemma_assoc(old(out)@, enc_bool(v@.is_initialized), enc_anti_spam_config(v@.config) + (enc_vec_anti_spam_profile(v@.profiles)));
    }
    true
}

pub proof fn lemma_social_anti_spam_state_account(v: SocialAntiSpamStateAccountModel, rest: Seq<u8>)
    requires
        fits_social_anti_spam_state_account(v),
    ensures
        dec_social_anti_spam_state_account(enc_social_anti_spam_state_account(v) + rest) == Some((v, rest)),
{
    reveal(enc_social_anti_spam_state_account);
    reveal(dec_social_anti_spam_state_account);
    lemma_assoc(enc_bool(v.is_initialized), enc_anti_spam_config(v.config) + (enc_vec_anti_spam_profile(v.profiles)), rest);
    lemma_bool(v.is_initialized, enc_anti_spam_config(v.config) + (enc_vec_anti_spam_profile(v.profiles)) + rest);
    lemma_assoc(enc_anti_spam_config(v.config), enc_vec_anti_spam_profile(v.profiles), rest);
    lemma_anti_spam_config(v.config, enc_vec_anti_spam_profile(v.profiles) + rest);
    lemma_vec_anti_spam_profile(v.profiles, rest);
}

/// Decodes a [`SocialAntiSpamStateAccount`] that must take up all of `d`.
pub fn social_anti_spam_state_account_from_slice(d: &[u8]) -> (r: Option<SocialAntiSpamStateAccount>)
    ensures
        r is Some <==> (dec_social_anti_spam_state_account(d@) matches Some((_, rest)) && rest.len() == 0),
        r matches Some(v) ==> dec_social_anti_spam_state_account(d@) == Some((v@, Seq::<u8>::empty())),
{
    assert(d@.skip(0) =~= d@);
    match read_social_anti_spam_state_account(d, 0) {
        None => None,
        Some((v, p)) => {
            if p == d.len() {
                assert(d@.skip(p as int) =~= Seq::<u8>::empty());
                Some(v)
            } else {
                None
            }
        },
    }
}

/// Decodes a [`SocialAntiSpamStateAccount`] from the front of `d`, ignoring what follows it.
pub fn social_anti_spam_state_account_from_prefix(d: &[u8]) -> (r: Option<SocialAntiSpamStateAccount>)
    ensures
        r is Some <==> dec_social_anti_spam_state_account(d@) is Some,
        r matches Some(v) ==> dec_social_anti_spam_state_account(d@) matches Some((m, _)) && m == v@,
{
    assert(d@.skip(0) =~= d@);
    match read_social_anti_spam_state_account(d, 0) {
        None => None,
        Some((v, _)) => Some(v),
    }
}

/// Serialises a [`SocialAntiSpamStateAccount`]; `None` when a length does not fit the `u32` prefix.
pub fn social_anti_spam_state_account_to_vec(v: &SocialAntiSpamStateAccount) -> (r: Option<Vec<u8>>)
    ensures
        r is Some <==> fits_social_anti_spam_state_account(v@),
        r matches Some(b) ==> b@ == enc_social_anti_spam_state_account(v@),
{
    let mut out: Vec<u8> = Vec::new();
    if write_social_anti_spam_state_account(&mut out, v) {
        assert(out@ =~= enc_social_anti_spam_state_account(v@));
        Some(out)
    } else {
        None
    }
}

/// Instructions of the social anti-spam program.
#[derive(Clone, Debug, PartialEq, Eq)]
pub enum SocialAntiSpamInstruction {
    InitializeConfig{ state: SocialAntiSpamStateAccount },
    CheckPostEligibility{ wallet: Pubkey, current_epoch: u64, reputation_score: u16, staked_amount: u64 },
    CheckEngagementEligibility{ wallet: Pubkey, current_epoch: u64, reputation_score: u16, staked_amount: u64 },
    FlagSpamBehavior{ wallet: Pubkey, timestamp: i64 },
    ApplyCooldown{ wallet: Pubkey, gated_until_epoch: u64 },
    ClearCooldown{ wallet: Pubkey },
    ApplySpamPenalty{ wallet: Pubkey },
    ReadAntiSpamProfile{ wallet: Option<Pubkey> },
}

/// Mathematical model of [`SocialAntiSpamInstruction`].
pub enum SocialAntiSpamInstructionModel {
    InitializeConfig{ state: SocialAntiSpamStateAccountModel },
    CheckPostEligibility{ wallet: Pubkey, current_epoch: u64, reputation_score: u16, staked_amount: u64 },
    CheckEngagementEligibility{ wallet: Pubkey, current_epoch: u64, reputation_score: u16, staked_amount: u64 },
    FlagSpamBehavior{ wallet: Pubkey, timestamp: i64 },
    ApplyCooldown{ wallet: Pubkey, gated_until_epoch: u64 },
    ClearCooldown{ wallet: Pubkey },
    ApplySpamPenalty{ wallet: Pubkey },
    ReadAntiSpamProfile{ wallet: Option<Pubkey> },
}

impl View for SocialAntiSpamInstruction {
    type V = SocialAntiSpamInstructionModel;

    open spec fn view(&self) -> SocialAntiSpamInstructionModel {
        match self {
            SocialAntiSpamInstruction::InitializeConfig{ state } => SocialAntiSpamInstructionModel::InitializeConfig{ state: (*state)@ },
            SocialAntiSpamInstruction::CheckPostEligibility{ wallet, current_epoch, reputation_score, staked_amount } => SocialAntiSpamInstructionModel::CheckPostEligibility{ wallet: (*wallet), current_epoch: (*current_epoch), reputation_score: (*reputation_score), staked_amount: (*staked_amount) },
            SocialAntiSpamInstruction::CheckEngagementEligibility{ wallet, current_epoch, reputation_score, staked_amount } => SocialAntiSpamInstructionModel::CheckEngagementEligibility{ wallet: (*wallet), current_epoch: (*current_epoch), reputation_score: (*reputation_score), staked_amount: (*staked_amount) },
            SocialAntiSpamInstruction::FlagSpamBehavior{ wallet, timestamp } => SocialAntiSpamInstructionModel::FlagSpamBehavior{ wallet: (*wallet), timestamp: (*timestamp) },
            SocialAntiSpamInstruction::ApplyCooldown{ wallet, gated_until_epoch } => SocialAntiSpamInstructionModel::ApplyCooldown{ wallet: (*wallet), gated_until_epoch: (*gated_until_epoch) },
            SocialAntiSpamInstruction::ClearCooldown{ wallet } => SocialAntiSpamInstructionModel::ClearCooldown{ wallet: (*wallet) },
            SocialAntiSpamInstruction::ApplySpamPenalty{ wallet } => SocialAntiSpamInstructionModel::ApplySpamPenalty{ wallet: (*wallet) },
            SocialAntiSpamInstruction::ReadAntiSpamProfile{ wallet } => SocialAntiSpamInstructionModel::ReadAntiSpamProfile{ wallet: (*wallet) },
        }
    }
}

#[verifier::opaque]
pub open spec fn enc_social_anti_spam_instruction(v: SocialAntiSpamInstructionModel) -> Seq<u8> {
    match v {
        SocialAntiSpamInstructionModel::InitializeConfig{ state } => seq![0u8] + (enc_social_anti_spam_state_account(state)),
        SocialAntiSpamInstructionModel::CheckPostEligibility{ wallet, current_epoch, reputation_score, staked_amount } => seq![1u8] + (enc_pubkey(wallet) + (enc_u64(current_epoch) + (enc_u16(reputation_score) + (enc_u64(staked_amount))))),
        SocialAntiSpamInstructionModel::CheckEngagementEligibility{ wallet, current_epoch, reputation_score, staked_amount } => seq![2u8] + (enc_pubkey(wallet) + (enc_u64(current_epoch) + (enc_u16(reputation_score) + (enc_u64(staked_amount))))),
        SocialAntiSpamInstructionModel::FlagSpamBehavior{ wallet, timestamp } => seq![3u8] + (enc_pubkey(wallet) + (enc_i64(timestamp))),
        SocialAntiSpamInstructionModel::ApplyCooldown{ wallet, gated_until_epoch } => seq![4u8] + (enc_pubkey(wallet) + (enc_u64(gated_until_epoch))),
        SocialAntiSpamInstructionModel::ClearCooldown{ wallet } => seq![5u8] + (enc_pubkey(wallet)),
        SocialAntiSpamInstructionModel::ApplySpamPenalty{ wallet } => seq![6u8] + (enc_pubkey(wallet)),
        SocialAntiSpamInstructionModel::ReadAntiSpamProfile{ wallet } => seq![7u8] + (enc_opt_pubkey(wallet)),
    }
}

#[verifier::opaque]
pub open spec fn dec_social_anti_spam_instruction(s: Seq<u8>) -> Option<(SocialAntiSpamInstructionModel, Seq<u8>)> {
    if s.len() == 0 {
        None
    } else if s[0] == 0 {
        let r0 = s.skip(1);
        match dec_social_anti_spam_state_account(r0) {
            Some((state, r1)) => Some((SocialAntiSpamInstructionModel::InitializeConfig{ state }, r1)),
            None => None,
        }
    } else if s[0] == 1 {
        let r0 = s.skip(1);
        match dec_pubkey(r0) {
            Some((wallet, r1)) => match dec_u64(r1) {
            Some((current_epoch, r2)) => match dec_u16(r2) {
            Some((reputation_score, r3)) => match dec_u64(r3) {
            Some((staked_amount, r4)) => Some((SocialAntiSpamInstructionModel::CheckPostEligibility{ wallet, current_epoch, reputation_score, staked_amount }, r4)),
            None => None,
        },
            None => None,
        },
            None => None,
        },
            None => None,
        }
    } else if s[0] == 2 {
        let r0 = s.skip(1);
        match dec_pubkey(r0) {
            Some((wallet, r1)) => match dec_u64(r1) {
            Some((current_epoch, r2)) => match dec_u16(r2) {
            Some((reputation_score, r3)) => match dec_u64(r3) {
            Some((staked_amount, r4)) => Some((SocialAntiSpamInstructionModel::CheckEngagementEligibility{ wallet, current_epoch, reputation_score, staked_amount }, r4)),
            None => None,
        },
            None => None,
        },
            None => None,
        },
            None => None,
        }
    } else if s[0] == 3 {
        let r0 = s.skip(1);
        match dec_pubkey(r0) {
            Some((wallet, r1)) => match dec_i64(r1) {
            Some((timestamp, r2)) => Some((SocialAntiSpamInstructionModel::FlagSpamBehavior{ wallet, timestamp }, r2)),
            None => None,
        },
            None => None,
        }
    } else if s[0] == 4 {
        let r0 = s.skip(1);
        match dec_pubkey(r0) {
            Some((wallet, r1)) => match dec_u64(r1) {
            Some((gated_until_epoch, r2)) => Some((SocialAntiSpamInstructionModel::ApplyCooldown{ wallet, gated_until_epoch }, r2)),
            None => None,
        },
            None => None,
        }
    } else if s[0] == 5 {
        let r0 = s.skip(1);
        match dec_pubkey(r0) {
            Some((wallet, r1)) => Some((SocialAntiSpamInstructionModel::ClearCooldown{ wallet }, r1)),
            None => None,
        }
    } else if s[0] == 6 {
        let r0 = s.skip(1);
        match dec_pubkey(r0) {
            Some((wallet, r1)) => Some((SocialAntiSpamInstructionModel::ApplySpamPenalty{ wallet }, r1)),
            None => None,
        }
    } else if s[0] == 7 {
        let r0 = s.skip(1);
        match dec_opt_pubkey(r0) {
            Some((wallet, r1)) => Some((SocialAntiSpamInstructionModel::ReadAntiSpamProfile{ wallet }, r1)),
            None => None,
        }
    } else { None }
}

pub open spec fn fits_social_anti_spam_instruction(v: SocialAntiSpamInstructionModel) -> bool {
    match v {
        SocialAntiSpamInstructionModel::InitializeConfig{ state } => fits_social_anti_spam_state_account(state),
        SocialAntiSpamInstructionModel::CheckPostEligibility{ wallet, current_epoch, reputation_score, staked_amount } => true,
        SocialAntiSpamInstructionModel::CheckEngagementEligibility{ wallet, current_epoch, reputation_score, staked_amount } => true,
        SocialAntiSpamInstructionModel::FlagSpamBehavior{ wallet, timestamp } => true,
        SocialAntiSpamInstructionModel::ApplyCooldown{ wallet, gated_until_epoch } => true,
        SocialAntiSpamInstructionModel::ClearCooldown{ wallet } => true,
        SocialAntiSpamInstructionModel::ApplySpamPenalty{ wallet } => true,
        SocialAntiSpamInstructionModel::ReadAntiSpamProfile{ wallet } => true,
    }
}

pub fn read_social_anti_spam_instruction(d: &[u8], pos: usize) -> (r: Option<(SocialAntiSpamInstruction, usize)>)
    requires
        pos <= d@.len(),
    ensures
        match r {
            None => dec_social_anti_spam_instruction(d@.skip(pos as int)) is None,
            Some((v, p)) => p <= d@.len() && dec_social_anti_spam_instruction(d@.skip(pos as int)) == Some((v@, d@.skip(p as int))),
        },
{
    proof {
        reveal(dec_social_anti_spam_instruction);
    }
    match read_u8(d, pos) {
        None => None,
        Some((tag, p0)) => {
            proof {
                lemma_skip_skip(d@, pos as int, 1);
            }
            match tag {
            0 => match read_social_anti_spam_state_account(d, p0) {
                None => None,
                Some((state, p1)) => Some((SocialAntiSpamInstruction::InitializeConfig{ state }, p1)),
            },
            1 => match read_pubkey(d, p0) {
                None => None,
                Some((wallet, p1)) => match read_u64(d, p1) {
                None => None,
                Some((current_epoch, p2)) => match read_u16(d, p2) {
                None => None,
                Some((reputation_score, p3)) => match read_u64(d, p3) {
                None => None,
                Some((staked_amount, p4)) => Some((SocialAntiSpamInstruction::CheckPostEligibility{ wallet, current_epoch, reputation_score, staked_amount }, p4)),
            },
            },
            },
            },
            2 => match read_pubkey(d, p0) {
                None => None,
                Some((wallet, p1)) => match read_u64(d, p1) {
                None => None,
                Some((current_epoch, p2)) => match read_u16(d, p2) {
                None => None,
                Some((reputation_score, p3)) => match read_u64(d, p3) {
                None => None,
                Some((staked_amount, p4)) => Some((SocialAntiSpamInstruction::CheckEngagementEligibility{ wallet, current_epoch, reputation_score, staked_amount }, p4)),
            },
            },
            },
            },
            3 => match read_pubkey(d, p0) {
                None => None,
                Some((wallet, p1)) => match read_i64(d, p1) {
                None => None,
                Some((timestamp, p2)) => Some((SocialAntiSpamInstruction::FlagSpamBehavior{ wallet, timestamp }, p2)),
            },
            },
            4 => match read_pubkey(d, p0) {
                None => None,
                Some((wallet, p1)) => match read_u64(d, p1) {
                None => None,
                Some((gated_until_epoch, p2)) => Some((SocialAntiSpamInstruction::ApplyCooldown{ wallet, gated_until_epoch }, p2)),
            },
            },
            5 => match read_pubkey(d, p0) {
                None => None,
                Some((wallet, p1)) => Some((SocialAntiSpamInstruction::ClearCooldown{ wallet }, p1)),
            },
            6 => match read_pubkey(d, p0) {
                None => None,
                Some((wallet, p1)) => Some((SocialAntiSpamInstruction::ApplySpamPenalty{ wallet }, p1)),
            },
            7 => match read_opt_pubkey(d, p0) {
                None => None,
                Some((wallet, p1)) => Some((SocialAntiSpamInstruction::ReadAntiSpamProfile{ wallet }, p1)),
            },
            _ => None,
            }
        },
    }
}

pub fn write_social_anti_spam_instruction(out: &mut Vec<u8>, v: &SocialAntiSpamInstruction) -> (ok: bool)
    ensures
        ok == fits_social_anti_spam_instruction(v@),
        ok ==> final(out)@ == old(out)@ + enc_social_anti_spam_instruction(v@),
{
    proof {
        reveal(enc_social_anti_spam_instruction);
    }
    match v {
        SocialAntiSpamInstruction::InitializeConfig{ state } => {
            out.push(0u8);
            let ghost ot = out@;
            assert(ot =~= old(out)@ + seq![0u8]);
            if !write_social_anti_spam_state_account(out, state) { return false; }
            let ghost o0 = out@;
            proof {
            }
            proof {
                lemma_assoc(old(out)@, seq![0u8], enc_social_anti_spam_state_account((*state)@));
            }
        },
        SocialAntiSpamInstruction::CheckPostEligibility{ wallet, current_epoch, reputation_score, staked_amount } => {
            out.push(1u8);
            let ghost ot = out@;
            assert(ot =~= old(out)@ + seq![1u8]);
            write_pubkey(out, wallet);
            let ghost o0 = out@;
            write_u64(out, *current_epoch);
            let ghost o1 = out@;
            write_u16(out, *reputation_score);
            let ghost o2 = out@;
            write_u64(out, *staked_amount);
            let ghost o3 = out@;
            proof {
                lemma_assoc(o1, enc_u16((*reputation_score)), enc_u64((*staked_amount)));
                lemma_assoc(o0, enc_u64((*current_epoch)), enc_u16((*reputation_score)) + (enc_u64((*staked_amount))));
                lemma_assoc(ot, enc_pubkey((*wallet)), enc_u64((*current_epoch)) + (enc_u16((*reputation_score)) + (enc_u64((*staked_amount)))));
            }
            proof {
                lemma_assoc(old(out)@, seq![1u8], enc_pubkey((*wallet)) + (enc_u64((*current_epoch)) + (enc_u16((*reputation_score)) + (enc_u64((*staked_amount))))));
            }
        },
        SocialAntiSpamInstruction::CheckEngagementEligibility{ wallet, current_epoch, reputation_score, staked_amount } => {
            out.push(2u8);
            let ghost ot = out@;
            assert(ot =~= old(out)@ + seq![2u8]);
            write_pubkey(out, wallet);
            let ghost o0 = out@;
            write_u64(out, *current_epoch);
            let ghost o1 = out@;
            write_u16(out, *reputation_score);
            let ghost o2 = out@;
            write_u64(out, *staked_amount);
            let ghost o3 = out@;
            proof {
                lemma_assoc(o1, enc_u16((*reputation_score)), enc_u64((*staked_amount)));
                lemma_assoc(o0, enc_u64((*current_epoch)), enc_u16((*reputation_score)) + (enc_u64((*staked_amount))));
                lemma_assoc(ot, enc_pubkey((*wallet)), enc_u64((*current_epoch)) + (enc_u16((*reputation_score)) + (enc_u64((*staked_amount)))));
            }
            proof {
                lemma_assoc(old(out)@, seq![2u8], enc_pubkey((*wallet)) + (enc_u64((*current_epoch)) + (enc_u16((*reputation_score)) + (enc_u64((*staked_amount))))));
            }
        },
        SocialAntiSpamInstruction::FlagSpamBehavior{ wallet, timestamp } => {
            out.push(3u8);
            let ghost ot = out@;
            assert(ot =~= old(out)@ + seq![3u8]);
            write_pubkey(out, wallet);
            let ghost o0 = out@;
            write_i64(out, *timestamp);
            let ghost o1 = out@;
            proof {
                lemma_assoc(ot, enc_pubkey((*wallet)), enc_i64((*timestamp)));
            }
            proof {
                lemma_assoc(old(out)@, seq![3u8], enc_pubkey((*wallet)) + (enc_i64((*timestamp))));
            }
        },
        SocialAntiSpamInstruction::ApplyCooldown{ wallet, gated_until_epoch } => {
            out.push(4u8);
            let ghost ot = out@;
            assert(ot =~= old(out)@ + seq![4u8]);
            write_pubkey(out, wallet);
            let ghost o0 = out@;
            write_u64(out, *gated_until_epoch);
            let ghost o1 = out@;
            proof {
                lemma_assoc(ot, enc_pubkey((*wallet)), enc_u64((*gated_until_epoch)));
            }
            proof {
                lemma_assoc(old(out)@, seq![4u8], enc_pubkey((*wallet)) + (enc_u64((*gated_until_epoch))));
            }
        },
        SocialAntiSpamInstruction::ClearCooldown{ wallet } => {
            out.push(5u8);
            let ghost ot = out@;
            assert(ot =~= old(out)@ + seq![5u8]);
            write_pubkey(out, wallet);
            let ghost o0 = out@;
            proof {
            }
            proof {
                lemma_assoc(old(out)@, seq![5u8], enc_pubkey((*wallet)));
            }
        },
        SocialAntiSpamInstruction::ApplySpamPenalty{ wallet } => {
            out.push(6u8);
            let ghost ot = out@;
            assert(ot =~= old(out)@ + seq![6u8]);
            write_pubkey(out, wallet);
            let ghost o0 = out@;
            proof {
            }
            proof {
                lemma_assoc(old(out)@, seq![6u8], enc_pubkey((*wallet)));
            }
        },
        SocialAntiSpamInstruction::ReadAntiSpamProfile{ wallet } => {
            out.push(7u8);
            let ghost ot = out@;
            assert(ot =~= old(out)@ + seq![7u8]);
            write_opt_pubkey(out, wallet);
            let ghost o0 = out@;
            proof {
            }
            proof {
                lemma_assoc(old(out)@, seq![7u8], enc_opt_pubkey((*wallet)));
            }
        },
    }
    true
}

proof fn lemma_social_anti_spam_instruction_initialize_config(state: SocialAntiSpamStateAccountModel, rest: Seq<u8>)
    requires
        fits_social_anti_spam_state_account(state),
    ensures
        dec_social_anti_spam_instruction(enc_social_anti_spam_instruction(SocialAntiSpamInstructionModel::InitializeConfig{ state }) + rest) == Some((SocialAntiSpamInstructionModel::InitializeConfig{ state }, rest)),
{
    reveal(enc_social_anti_spam_instruction);
    reveal(dec_social_anti_spam_instruction);
    assert((enc_social_anti_spam_instruction(SocialAntiSpamInstructionModel::InitializeConfig{ state }) + rest).skip(1) =~= (enc_social_anti_spam_state_account(state)) + rest);
    lemma_social_anti_spam_state_account(state, rest);
}

proof fn lemma_social_anti_spam_instruction_check_post_eligibility(wallet: Pubkey, current_epoch: u64, reputation_score: u16, staked_amount: u64, rest: Seq<u8>)
    ensures
        dec_social_anti_spam_instruction(enc_social_anti_spam_instruction(SocialAntiSpamInstructionModel::CheckPostEligibility{ wallet, current_epoch, reputation_score, staked_amount }) + rest) == Some((SocialAntiSpamInstructionModel::CheckPostEligibility{ wallet, current_epoch, reputation_score, staked_amount }, rest)),
{
    reveal(enc_social_anti_spam_instruction);
    reveal(dec_social_anti_spam_instruction);
    assert((enc_social_anti_spam_instruction(SocialAntiSpamInstructionModel::CheckPostEligibility{ wallet, current_epoch, reputation_score, staked_amount }) + rest).skip(1) =~= (enc_pubkey(wallet) + (enc_u64(current_epoch) + (enc_u16(reputation_score) + (enc_u64(staked_amount))))) + rest);
    lemma_assoc(enc_pubkey(wallet), enc_u64(current_epoch) + (enc_u16(reputation_score) + (enc_u64(staked_amount))), rest);
    lemma_pubkey(wallet, enc_u64(current_epoch) + (enc_u16(reputation_score) + (enc_u64(staked_amount))) + rest);
    lemma_assoc(enc_u64(current_epoch), enc_u16(reputation_score) + (enc_u64(staked_amount)), rest);
    lemma_u64(current_epoch, enc_u16(reputation_score) + (enc_u64(staked_amount)) + rest);
    lemma_assoc(enc_u16(reputation_score), enc_u64(staked_amount), rest);
    lemma_u16(reputation_score, enc_u64(staked_amount) + rest);
    lemma_u64(staked_amount, rest);
}

proof fn lemma_social_anti_spam_instruction_check_engagement_eligibility(wallet: Pubkey, current_epoch: u64, reputation_score: u16, staked_amount: u64, rest: Seq<u8>)
    ensures
        dec_social_anti_spam_instruction(enc_social_anti_spam_instruction(SocialAntiSpamInstructionModel::CheckEngagementEligibility{ wallet, current_epoch, reputation_score, staked_amount }) + rest) == Some((SocialAntiSpamInstructionModel::CheckEngagementEligibility{ wallet, current_epoch, reputation_score, staked_amount }, rest)),
{
    reveal(enc_social_anti_spam_instruction);
    reveal(dec_social_anti_spam_instruction);
    assert((enc_social_anti_spam_instruction(SocialAntiSpamInstructionModel::CheckEngagementEligibility{ wallet, current_epoch, reputation_score, staked_amount }) + rest).skip(1) =~= (enc_pubkey(wallet) + (enc_u64(current_epoch) + (enc_u16(reputation_score) + (enc_u64(staked_amount))))) + rest);
    lemma_assoc(enc_pubkey(wallet), enc_u64(current_epoch) + (enc_u16(reputation_score) + (enc_u64(staked_amount))), rest);
    lemma_pubkey(wallet, enc_u64(current_epoch) + (enc_u16(reputation_score) + (enc_u64(staked_amount))) + rest);
    lemma_assoc(enc_u64(current_epoch), enc_u16(reputation_score) + (enc_u64(staked_amount)), rest);
    lemma_u64(current_epoch, enc_u16(reputation_score) + (enc_u64(staked_amount)) + rest);
    lemma_assoc(enc_u16(reputation_score), enc_u64(staked_amount), rest);
    lemma_u16(reputation_score, enc_u64(staked_amount) + rest);
    lemma_u64(staked_amount, rest);
}

proof fn lemma_social_anti_spam_instruction_flag_spam_behavior(wallet: Pubkey, timestamp: i64, rest: Seq<u8>)
    ensures
        dec_social_anti_spam_instruction(enc_social_anti_spam_instruction(SocialAntiSpamInstructionModel::FlagSpamBehavior{ wallet, timestamp }) + rest) == Some((SocialAntiSpamInstructionModel::FlagSpamBehavior{ wallet, timestamp }, rest)),
{
    reveal(enc_social_anti_spam_instruction);
    reveal(dec_social_anti_spam_instruction);
    assert((enc_social_anti_spam_instruction(SocialAntiSpamInstructionModel::FlagSpamBehavior{ wallet, timestamp }) + rest).skip(1) =~= (enc_pubkey(wallet) + (enc_i64(timestamp))) + rest);
    lemma_assoc(enc_pubkey(wallet), enc_i64(timestamp), rest);
    lemma_pubkey(wallet, enc_i64(timestamp) + rest);
    lemma_i64(timestamp, rest);
}

proof fn lemma_social_anti_spam_instruction_apply_cooldown(wallet: Pubkey, gated_until_epoch: u64, rest: Seq<u8>)
    ensures
        dec_social_anti_spam_instruction(enc_social_anti_spam_instruction(SocialAntiSpamInstructionModel::ApplyCooldown{ wallet, gated_until_epoch }) + rest) == Some((SocialAntiSpamInstructionModel::ApplyCooldown{ wallet, gated_until_epoch }, rest)),
{
    reveal(enc_social_anti_spam_instruction);
    reveal(dec_social_anti_spam_instruction);
    assert((enc_social_anti_spam_instruction(SocialAntiSpamInstructionModel::ApplyCooldown{ wallet, gated_until_epoch }) + rest).skip(1) =~= (enc_pubkey(wallet) + (enc_u64(gated_until_epoch))) + rest);
    lemma_assoc(enc_pubkey(wallet), enc_u64(gated_until_epoch), rest);
    lemma_pubkey(wallet, enc_u64(gated_until_epoch) + rest);
    lemma_u64(gated_until_epoch, rest);
}

proof fn lemma_social_anti_spam_instruction_clear_cooldown(wallet: Pubkey, rest: Seq<u8>)
    ensures
        dec_social_anti_spam_instruction(enc_social_anti_spam_instruction(SocialAntiSpamInstructionModel::ClearCooldown{ wallet }) + rest) == Some((SocialAntiSpamInstructionModel::ClearCooldown{ wallet }, rest)),
{
    reveal(enc_social_anti_spam_instruction);
    reveal(dec_social_anti_spam_instruction);
    assert((enc_social_anti_spam_instruction(SocialAntiSpamInstructionModel::ClearCooldown{ wallet }) + rest).skip(1) =~= (enc_pubkey(wallet)) + rest);
    lemma_pubkey(wallet, rest);
}

proof fn lemma_social_anti_spam_instruction_apply_spam_penalty(wallet: Pubkey, rest: Seq<u8>)
    ensures
        dec_social_anti_spam_instruction(enc_social_anti_spam_instruction(SocialAntiSpamInstructionModel::ApplySpamPenalty{ wallet }) + rest) == Some((SocialAntiSpamInstructionModel::ApplySpamPenalty{ wallet }, rest)),
{
    reveal(enc_social_anti_spam_instruction);
    reveal(dec_social_anti_spam_instruction);
    assert((enc_social_anti_spam_instruction(SocialAntiSpamInstructionModel::ApplySpamPenalty{ wallet }) + rest).skip(1) =~= (enc_pubkey(wallet)) + rest);
    lemma_pubkey(wallet, rest);
}

proof fn lemma_social_anti_spam_instruction_read_anti_spam_profile(wallet: Option<Pubkey>, rest: Seq<u8>)
    ensures
        dec_social_anti_spam_instruction(enc_social_anti_spam_instruction(SocialAntiSpamInstructionModel::ReadAntiSpamProfile{ wallet }) + rest) == Some((SocialAntiSpamInstructionModel::ReadAntiSpamProfile{ wallet }, rest)),
{
    reveal(enc_social_anti_spam_instruction);
    reveal(dec_social_anti_spam_instruction);
    assert((enc_social_anti_spam_instruction(SocialAntiSpamInstructionModel::ReadAntiSpamProfile{ wallet }) + rest).skip(1) =~= (enc_opt_pubkey(wallet)) + rest);
    lemma_opt_pubkey(wallet, rest);
}

pub proof fn lemma_social_anti_spam_instruction(v: SocialAntiSpamInstructionModel, rest: Seq<u8>)
    requires
        fits_social_anti_spam_instruction(v),
    ensures
        dec_social_anti_spam_instruction(enc_social_anti_spam_instruction(v) + rest) == Some((v, rest)),
{
    reveal(enc_social_anti_spam_instruction);
    reveal(dec_social_anti_spam_instruction);
    match v {
        SocialAntiSpamInstructionModel::InitializeConfig{ state } => lemma_social_anti_spam_instruction_initialize_config(state, rest),
        SocialAntiSpamInstructionModel::CheckPostEligibility{ wallet, current_epoch, reputation_score, staked_amount } => lemma_social_anti_spam_instruction_check_post_eligibility(wallet, current_epoch, reputation_score, staked_amount, rest),
        SocialAntiSpamInstructionModel::CheckEngagementEligibility{ wallet, current_epoch, reputation_score, staked_amount } => lemma_social_anti_spam_instruction_check_engagement_eligibility(wallet, current_epoch, reputation_score, staked_amount, rest),
        SocialAntiSpamInstructionModel::FlagSpamBehavior{ wallet, timestamp } => lemma_social_anti_spam_instruction_flag_spam_behavior(wallet, timestamp, rest),
        SocialAntiSpamInstructionModel::ApplyCooldown{ wallet, gated_until_epoch } => lemma_social_anti_spam_instruction_apply_cooldown(wallet, gated_until_epoch, rest),
        SocialAntiSpamInstructionModel::ClearCooldown{ wallet } => lemma_social_anti_spam_instruction_clear_cooldown(wallet, rest),
        SocialAntiSpamInstructionModel::ApplySpamPenalty{ wallet } => lemma_social_anti_spam_instruction_apply_spam_penalty(wallet, rest),
        SocialAntiSpamInstructionModel::ReadAntiSpamProfile{ wallet } => lemma_social_anti_spam_instruction_read_anti_spam_profile(wallet, rest),
    }
}

/// Decodes a [`SocialAntiSpamInstruction`] that must take up all of `d`.
pub fn social_anti_spam_instruction_from_slice(d: &[u8]) -> (r: Option<SocialAntiSpamInstruction>)
    ensures
        r is Some <==> (dec_social_anti_spam_instruction(d@) matches Some((_, rest)) && rest.len() == 0),
        r matches Some(v) ==> dec_social_anti_spam_instruction(d@) == Some((v@, Seq::<u8>::empty())),
{
    assert(d@.skip(0) =~= d@);
    match read_social_anti_spam_instruction(d, 0) {
        None => None,
        Some((v, p)) => {
            if p == d.len() {
                assert(d@.skip(p as int) =~= Seq::<u8>::empty());
                Some(v)
            } else {
                None
            }
        },
    }
}

/// Decodes a [`SocialAntiSpamInstruction`] from the front of `d`, ignoring what follows it.
pub fn social_anti_spam_instruction_from_prefix(d: &[u8]) -> (r: Option<SocialAntiSpamInstruction>)
    ensures
        r is Some <==> dec_social_anti_spam_instruction(d@) is Some,
        r matches Some(v) ==> dec_social_anti_spam_instruction(d@) matches Some((m, _)) && m == v@,
{
    assert(d@.skip(0) =~= d@);
    match read_social_anti_spam_instruction(d, 0) {
        None => None,
        Some((v, _)) => Some(v),
    }
}

/// Serialises a [`SocialAntiSpamInstruction`]; `None` when a length does not fit the `u32` prefix.
pub fn social_anti_spam_instruction_to_vec(v: &SocialAntiSpamInstruction) -> (r: Option<Vec<u8>>)
    ensures
        r is Some <==> fits_social_anti_spam_instruction(v@),
        r matches Some(b) ==> b@ == enc_social_anti_spam_instruction(v@),
{
    let mut out: Vec<u8> = Vec::new();
    if write_social_anti_spam_instruction(&mut out, v) {
        assert(out@ =~= enc_social_anti_spam_instruction(v@));
        Some(out)
    } else {
        None
    }
}

} // verus!
