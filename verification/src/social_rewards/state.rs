//! The rewards state account: per-creator reward accounts, epoch records and
//! settlements.
use vstd::prelude::*;
use crate::errors::ProgramError;
use crate::pubkey::Pubkey;
use crate::runtime::{slice_prefix, trimmed, trimmed_len};
use crate::social_rewards::types::{
    dec_social_rewards_state_account, social_rewards_state_account_from_slice,
    CreatorRewardAccount, CreatorRewardEpochRecord, RewardConfig, RewardEpochSettlement,
    SocialRewardsError, SocialRewardsStateAccount, SocialRewardsStateAccountModel,
};

use crate::runtime::{ends_nonzero, law_write_then_read, lemma_trimmed_padded, spec_write, ContextModel};
use crate::social_rewards::types::{enc_social_rewards_state_account, fits_social_rewards_state_account, lemma_social_rewards_state_account};

verus! {

pub open spec fn custom(e: SocialRewardsError) -> ProgramError {
    ProgramError::Custom(e.spec_code())
}

/// Decoding a state account: its data without trailing zero bytes must be
/// exactly one encoded state.
pub open spec fn spec_decode_state(data: Seq<u8>) -> Option<SocialRewardsStateAccountModel> {
    match dec_social_rewards_state_account(trimmed(data)) {
        Some((s, rest)) => if rest.len() == 0 { Some(s) } else { None },
        None => None,
    }
}

/// The reward account is `creator`'s.
pub open spec fn creator_account_matches(x: CreatorRewardAccount, creator: Pubkey) -> bool {
    x.creator == creator
}

pub open spec fn is_first_creator_account(s: Seq<CreatorRewardAccount>, creator: Pubkey, i: int) -> bool {
    &&& 0 <= i < s.len()
    &&& creator_account_matches(s[i], creator)
    &&& forall|j: int| 0 <= j < i ==> !creator_account_matches(#[trigger] s[j], creator)
}

pub open spec fn has_creator_account(s: Seq<CreatorRewardAccount>, creator: Pubkey) -> bool {
    exists|i: int| 0 <= i < s.len() && creator_account_matches(#[trigger] s[i], creator)
}

/// Position of the first match (meaningful when there is one).
pub open spec fn first_creator_account(s: Seq<CreatorRewardAccount>, creator: Pubkey) -> int {
    choose|i: int| is_first_creator_account(s, creator, i)
}

proof fn lemma_first_creator_account_unique(s: Seq<CreatorRewardAccount>, creator: Pubkey, i: int)
    requires
        is_first_creator_account(s, creator, i),
    ensures
        has_creator_account(s, creator),
        first_creator_account(s, creator) == i,
{
    let k = first_creator_account(s, creator);
    assert(is_first_creator_account(s, creator, k));
    if k < i {
        assert(!creator_account_matches(s[k], creator));
    } else if i < k {
        assert(!creator_account_matches(s[i], creator));
    }
}

/// Position of the first match in `v`, if any.
pub fn find_creator_account(v: &Vec<CreatorRewardAccount>, creator: &Pubkey) -> (r: Option<usize>)
    ensures
        r is None <==> !has_creator_account(v@, *creator),
        r matches Some(i) ==> i as int == first_creator_account(v@, *creator) && is_first_creator_account(v@, *creator, i as int),
{
    let mut i: usize = 0;
    while i < v.len()
        invariant
            i <= v@.len(),
            forall|j: int| 0 <= j < i ==> !creator_account_matches(#[trigger] v@[j], *creator),
        decreases v@.len() - i,
    {
        let x = &v[i];
        if x.creator == *creator {
            proof {
                lemma_first_creator_account_unique(v@, *creator, i as int);
            }
            return Some(i);
        }
        i = i + 1;
    }
    None
}
/// The epoch record is `creator`'s for `epoch`.
pub open spec fn epoch_record_matches(x: CreatorRewardEpochRecord, epoch: u64, creator: Pubkey) -> bool {
    x.epoch == epoch && x.creator == creator
}

pub open spec fn is_first_epoch_record(s: Seq<CreatorRewardEpochRecord>, epoch: u64, creator: Pubkey, i: int) -> bool {
    &&& 0 <= i < s.len()
    &&& epoch_record_matches(s[i], epoch, creator)
    &&& forall|j: int| 0 <= j < i ==> !epoch_record_matches(#[trigger] s[j], epoch, creator)
}

pub open spec fn has_epoch_record(s: Seq<CreatorRewardEpochRecord>, epoch: u64, creator: Pubkey) -> bool {
    exists|i: int| 0 <= i < s.len() && epoch_record_matches(#[trigger] s[i], epoch, creator)
}

/// Position of the first match (meaningful when there is one).
pub open spec fn first_epoch_record(s: Seq<CreatorRewardEpochRecord>, epoch: u64, creator: Pubkey) -> int {
    choose|i: int| is_first_epoch_record(s, epoch, creator, i)
}

proof fn lemma_first_epoch_record_unique(s: Seq<CreatorRewardEpochRecord>, epoch: u64, creator: Pubkey, i: int)
    requires
        is_first_epoch_record(s, epoch, creator, i),
    ensures
        has_epoch_record(s, epoch, creator),
        first_epoch_record(s, epoch, creator) == i,
{
    let k = first_epoch_record(s, epoch, creator);
    assert(is_first_epoch_record(s, epoch, creator, k));
    if k < i {
        assert(!epoch_record_matches(s[k], epoch, creator));
    } else if i < k {
        assert(!epoch_record_matches(s[i], epoch, creator));
    }
}

/// Position of the first match in `v`, if any.
pub fn find_epoch_record(v: &Vec<CreatorRewardEpochRecord>, epoch: &u64, creator: &Pubkey) -> (r: Option<usize>)
    ensures
        r is None <==> !has_epoch_record(v@, *epoch, *creator),
        r matches Some(i) ==> i as int == first_epoch_record(v@, *epoch, *creator) && is_first_epoch_record(v@, *epoch, *creator, i as int),
{
    let mut i: usize = 0;
    while i < v.len()
        invariant
            i <= v@.len(),
            forall|j: int| 0 <= j < i ==> !epoch_record_matches(#[trigger] v@[j], *epoch, *creator),
        decreases v@.len() - i,
    {
        let x = &v[i];
        if x.epoch == *epoch && x.creator == *creator {
            proof {
                lemma_first_epoch_record_unique(v@, *epoch, *creator, i as int);
            }
            return Some(i);
        }
        i = i + 1;
    }
    None
}
/// The settlement is for `epoch`.
pub open spec fn settlement_matches(x: RewardEpochSettlement, epoch: u64) -> bool {
    x.epoch == epoch
}

pub open spec fn is_first_settlement(s: Seq<RewardEpochSettlement>, epoch: u64, i: int) -> bool {
    &&& 0 <= i < s.len()
    &&& settlement_matches(s[i], epoch)
    &&& forall|j: int| 0 <= j < i ==> !settlement_matches(#[trigger] s[j], epoch)
}

pub open spec fn has_settlement(s: Seq<RewardEpochSettlement>, epoch: u64) -> bool {
    exists|i: int| 0 <= i < s.len() && settlement_matches(#[trigger] s[i], epoch)
}

/// Position of the first match (meaningful when there is one).
pub open spec fn first_settlement(s: Seq<RewardEpochSettlement>, epoch: u64) -> int {
    choose|i: int| is_first_settlement(s, epoch, i)
}

proof fn lemma_first_settlement_unique(s: Seq<RewardEpochSettlement>, epoch: u64, i: int)
    requires
        is_first_settlement(s, epoch, i),
    ensures
        has_settlement(s, epoch),
        first_settlement(s, epoch) == i,
{
    let k = first_settlement(s, epoch);
    assert(is_first_settlement(s, epoch, k));
    if k < i {
        assert(!settlement_matches(s[k], epoch));
    } else if i < k {
        assert(!settlement_matches(s[i], epoch));
    }
}

/// Position of the first match in `v`, if any.
pub fn find_settlement(v: &Vec<RewardEpochSettlement>, epoch: &u64) -> (r: Option<usize>)
    ensures
        r is None <==> !has_settlement(v@, *epoch),
        r matches Some(i) ==> i as int == first_settlement(v@, *epoch) && is_first_settlement(v@, *epoch, i as int),
{
    let mut i: usize = 0;
    while i < v.len()
        invariant
            i <= v@.len(),
            forall|j: int| 0 <= j < i ==> !settlement_matches(#[trigger] v@[j], *epoch),
        decreases v@.len() - i,
    {
        let x = &v[i];
        if x.epoch == *epoch {
            proof {
                lemma_first_settlement_unique(v@, *epoch, i as int);
            }
            return Some(i);
        }
        i = i + 1;
    }
    None
}

impl SocialRewardsStateAccount {
    /// An initialized state with no records.
    pub fn new(config: RewardConfig) -> (r: Self)
        ensures
            r@ == (SocialRewardsStateAccountModel {
                is_initialized: true,
                config,
                creators: Seq::empty(),
                epochs: Seq::empty(),
                settlements: Seq::empty(),
            }),
    {
        SocialRewardsStateAccount { is_initialized: true, config, creators: Vec::new(), epochs: Vec::new(), settlements: Vec::new() }
    }

    pub fn ensure_initialized(&self) -> (r: Result<(), ProgramError>)
        ensures
            r == (if self.is_initialized { Ok(()) } else { Err(custom(SocialRewardsError::Uninitialized)) }),
    {
        if self.is_initialized {
            Ok(())
        } else {
            Err(ProgramError::Custom(SocialRewardsError::Uninitialized.code()))
        }
    }

    /// The authority or the settlement authority.
    pub fn ensure_authority(&self, authority: &Pubkey) -> (r: Result<(), ProgramError>)
        ensures
            r == (if *authority == self.config.authority || *authority == self.config.settlement_authority {
                Ok(())
            } else {
                Err(custom(SocialRewardsError::Unauthorized))
            }),
    {
        if *authority == self.config.authority || *authority == self.config.settlement_authority {
            Ok(())
        } else {
            Err(ProgramError::Custom(SocialRewardsError::Unauthorized.code()))
        }
    }

    /// Decodes a state from account data, ignoring trailing zero bytes.
    pub fn deserialize_padded(data: &[u8]) -> (r: Result<Self, ProgramError>)
        ensures
            r.is_ok() == spec_decode_state(data@).is_some(),
            r matches Ok(v) ==> spec_decode_state(data@) == Some(v@),
            r matches Err(e) ==> e == ProgramError::InvalidAccountData,
    {
        let end = trimmed_len(data);
        match social_rewards_state_account_from_slice(slice_prefix(data, end)) {
            Some(v) => Ok(v),
            None => Err(ProgramError::InvalidAccountData),
        }
    }

    pub fn epoch_already_settled(&self, epoch: u64) -> (r: bool)
        ensures
            r == has_settlement(self@.settlements, epoch),
    {
        find_settlement(&self.settlements, &epoch).is_some()
    }
}

/// What is written as the state reads back as that state, whenever its bytes
/// end in a non-zero byte (trailing zero bytes are taken for padding, so a
/// state whose bytes end in zeros does not read back).
pub proof fn law_state_reads_back(c: ContextModel, s: SocialRewardsStateAccountModel)
    requires
        0 < c.accounts.len(),
        fits_social_rewards_state_account(s),
        spec_write(c, 0, enc_social_rewards_state_account(s)).0 is Ok,
        ends_nonzero(enc_social_rewards_state_account(s)),
    ensures
        spec_decode_state(spec_write(c, 0, enc_social_rewards_state_account(s)).1.data(0)) == Some(s),
{
    let b = enc_social_rewards_state_account(s);
    law_write_then_read(c, 0, b);
    lemma_trimmed_padded(b, (c.data(0).len() - b.len()) as nat);
    lemma_social_rewards_state_account(s, Seq::empty());
    assert(b + Seq::<u8>::empty() =~= b);
}

} // verus!
