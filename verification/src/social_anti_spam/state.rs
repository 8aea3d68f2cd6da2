//! The anti-spam state account and its per-wallet profiles.
use vstd::prelude::*;
use crate::errors::ProgramError;
use crate::pubkey::Pubkey;
use crate::runtime::{slice_prefix, trimmed, trimmed_len};
use crate::social_anti_spam::types::{
    dec_social_anti_spam_state_account, social_anti_spam_state_account_from_slice, AntiSpamConfig,
    AntiSpamProfile, SocialAntiSpamError, SocialAntiSpamStateAccount,
    SocialAntiSpamStateAccountModel,
};

use crate::runtime::{ends_nonzero, law_write_then_read, lemma_trimmed_padded, spec_write, ContextModel};
use crate::social_anti_spam::types::{enc_social_anti_spam_state_account, fits_social_anti_spam_state_account, lemma_social_anti_spam_state_account};

verus! {

pub open spec fn custom(e: SocialAntiSpamError) -> ProgramError {
    ProgramError::Custom(e.spec_code())
}

/// Decoding a state account: its data without trailing zero bytes must be
/// exactly one encoded state.
pub open spec fn spec_decode_state(data: Seq<u8>) -> Option<SocialAntiSpamStateAccountModel> {
    match dec_social_anti_spam_state_account(trimmed(data)) {
        Some((s, rest)) => if rest.len() == 0 { Some(s) } else { None },
        None => None,
    }
}

pub open spec fn is_first_profile(ps: Seq<AntiSpamProfile>, wallet: Pubkey, i: int) -> bool {
    &&& 0 <= i < ps.len()
    &&& ps[i].wallet == wallet
    &&& forall|j: int| 0 <= j < i ==> (#[trigger] ps[j]).wallet != wallet
}

pub open spec fn has_profile(ps: Seq<AntiSpamProfile>, wallet: Pubkey) -> bool {
    exists|i: int| 0 <= i < ps.len() && (#[trigger] ps[i]).wallet == wallet
}

/// The first profile of `wallet` (meaningful when there is one).
pub open spec fn first_profile(ps: Seq<AntiSpamProfile>, wallet: Pubkey) -> int {
    choose|i: int| is_first_profile(ps, wallet, i)
}

proof fn lemma_first_profile_unique(ps: Seq<AntiSpamProfile>, wallet: Pubkey, i: int)
    requires
        is_first_profile(ps, wallet, i),
    ensures
        has_profile(ps, wallet),
        first_profile(ps, wallet) == i,
{
    let k = first_profile(ps, wallet);
    assert(is_first_profile(ps, wallet, k));
    if k < i {
        assert(ps[k].wallet != wallet);
    } else if i < k {
        assert(ps[i].wallet != wallet);
    }
}

/// Position of the first profile of `wallet`.
pub fn find_profile(ps: &Vec<AntiSpamProfile>, wallet: &Pubkey) -> (r: Option<usize>)
    ensures
        r is None <==> !has_profile(ps@, *wallet),
        r matches Some(i) ==> i as int == first_profile(ps@, *wallet) && is_first_profile(ps@, *wallet, i as int),
{
    let mut i: usize = 0;
    while i < ps.len()
        invariant
            i <= ps@.len(),
            forall|j: int| 0 <= j < i ==> (#[trigger] ps@[j]).wallet != *wallet,
        decreases ps@.len() - i,
    {
        if ps[i].wallet == *wallet {
            proof {
                lemma_first_profile_unique(ps@, *wallet, i as int);
            }
            return Some(i);
        }
        i = i + 1;
    }
    None
}

/// A profile with no activity.
pub open spec fn empty_profile(wallet: Pubkey) -> AntiSpamProfile {
    AntiSpamProfile {
        wallet,
        post_count_window: 0,
        engagement_count_window: 0,
        spam_flags: 0,
        gated_until_epoch: None,
        slash_count: 0,
        last_flagged_at_unix: None,
    }
}

/// The state with a profile for `wallet` (a new empty one appended when there
/// was none), and that profile's position.
pub open spec fn spec_get_or_insert(s: SocialAntiSpamStateAccountModel, wallet: Pubkey) -> (SocialAntiSpamStateAccountModel, int) {
    if has_profile(s.profiles, wallet) {
        (s, first_profile(s.profiles, wallet))
    } else {
        (SocialAntiSpamStateAccountModel { profiles: s.profiles.push(empty_profile(wallet)), ..s }, s.profiles.len() as int)
    }
}

impl SocialAntiSpamStateAccount {
    /// An initialized state without profiles.
    pub fn new(config: AntiSpamConfig) -> (r: Self)
        ensures
            r@ == (SocialAntiSpamStateAccountModel { is_initialized: true, config, profiles: Seq::empty() }),
    {
        SocialAntiSpamStateAccount { is_initialized: true, config, profiles: Vec::new() }
    }

    pub fn ensure_initialized(&self) -> (r: Result<(), ProgramError>)
        ensures
            r == (if self.is_initialized { Ok(()) } else { Err(custom(SocialAntiSpamError::Uninitialized)) }),
    {
        if self.is_initialized {
            Ok(())
        } else {
            Err(ProgramError::Custom(SocialAntiSpamError::Uninitialized.code()))
        }
    }

    pub fn ensure_authority(&self, authority: &Pubkey) -> (r: Result<(), ProgramError>)
        ensures
            r == (if *authority == self.config.authority { Ok(()) } else { Err(custom(SocialAntiSpamError::Unauthorized)) }),
    {
        if *authority == self.config.authority {
            Ok(())
        } else {
            Err(ProgramError::Custom(SocialAntiSpamError::Unauthorized.code()))
        }
    }

    /// Decodes a state from account data, ignoring trailing zero bytes.
    pub fn deserialize_padded(data: &[u8]) -> (r: Result<Self, ProgramError>)
        ensures
            r.is_ok() == spec_decode_state(data@).is_some(),
            r matches Ok(v) ==> spec_decode_state(data@) == Some(v@),
            r matches Err(e) ==> e == ProgramError::InvalidAccountData,
    {
        let end = trimmed_len(data);
        match social_anti_spam_state_account_from_slice(slice_prefix(data, end)) {
            Some(v) => Ok(v),
            None => Err(ProgramError::InvalidAccountData),
        }
    }

    /// The first profile of `wallet`, if any.
    pub fn profile_for_wallet(&self, wallet: &Pubkey) -> (r: Option<&AntiSpamProfile>)
        ensures
            r is None <==> !has_profile(self@.profiles, *wallet),
            r matches Some(p) ==> *p == self@.profiles[first_profile(self@.profiles, *wallet)],
    {
        match find_profile(&self.profiles, wallet) {
            Some(i) => Some(&self.profiles[i]),
            None => None,
        }
    }
}

/// What is written as the state reads back as that state, whenever its bytes
/// end in a non-zero byte (trailing zero bytes are taken for padding, so a
/// state whose bytes end in zeros does not read back).
pub proof fn law_state_reads_back(c: ContextModel, s: SocialAntiSpamStateAccountModel)
    requires
        0 < c.accounts.len(),
        fits_social_anti_spam_state_account(s),
        spec_write(c, 0, enc_social_anti_spam_state_account(s)).0 is Ok,
        ends_nonzero(enc_social_anti_spam_state_account(s)),
    ensures
        spec_decode_state(spec_write(c, 0, enc_social_anti_spam_state_account(s)).1.data(0)) == Some(s),
{
    let b = enc_social_anti_spam_state_account(s);
    law_write_then_read(c, 0, b);
    lemma_trimmed_padded(b, (c.data(0).len() - b.len()) as nat);
    lemma_social_anti_spam_state_account(s, Seq::empty());
    assert(b + Seq::<u8>::empty() =~= b);
}

} // verus!
