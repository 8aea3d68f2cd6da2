//! The monetization state account: tips, subscriptions, paid unlocks and
//! per-creator revenue.
use vstd::prelude::*;
use crate::errors::ProgramError;
use crate::pubkey::{bytes32_eq, Pubkey};
use crate::runtime::{slice_prefix, trimmed, trimmed_len};
use crate::social_monetization::types::{
    dec_social_monetization_state_account, social_monetization_state_account_from_slice,
    CreatorRevenueAccount, CreatorTipRecord, MonetizationConfig, PaidContentUnlockRecord,
    SocialMonetizationError, SocialMonetizationStateAccount, SocialMonetizationStateAccountModel,
    SubscriptionRecord,
};

use crate::runtime::{ends_nonzero, law_write_then_read, lemma_trimmed_padded, spec_write, ContextModel};
use crate::social_monetization::types::{enc_social_monetization_state_account, fits_social_monetization_state_account, lemma_social_monetization_state_account};

verus! {

pub open spec fn custom(e: SocialMonetizationError) -> ProgramError {
    ProgramError::Custom(e.spec_code())
}

/// Decoding a state account: its data without trailing zero bytes must be
/// exactly one encoded state.
pub open spec fn spec_decode_state(data: Seq<u8>) -> Option<SocialMonetizationStateAccountModel> {
    match dec_social_monetization_state_account(trimmed(data)) {
        Some((s, rest)) => if rest.len() == 0 { Some(s) } else { None },
        None => None,
    }
}

/// The tip has id `id`.
pub open spec fn tip_matches(x: CreatorTipRecord, id: [u8; 32]) -> bool {
    x.tip_id == id
}

pub open spec fn is_first_tip(s: Seq<CreatorTipRecord>, id: [u8; 32], i: int) -> bool {
    &&& 0 <= i < s.len()
    &&& tip_matches(s[i], id)
    &&& forall|j: int| 0 <= j < i ==> !tip_matches(#[trigger] s[j], id)
}

pub open spec fn has_tip(s: Seq<CreatorTipRecord>, id: [u8; 32]) -> bool {
    exists|i: int| 0 <= i < s.len() && tip_matches(#[trigger] s[i], id)
}

/// Position of the first match (meaningful when there is one).
pub open spec fn first_tip(s: Seq<CreatorTipRecord>, id: [u8; 32]) -> int {
    choose|i: int| is_first_tip(s, id, i)
}

proof fn lemma_first_tip_unique(s: Seq<CreatorTipRecord>, id: [u8; 32], i: int)
    requires
        is_first_tip(s, id, i),
    ensures
        has_tip(s, id),
        first_tip(s, id) == i,
{
    let k = first_tip(s, id);
    assert(is_first_tip(s, id, k));
    if k < i {
        assert(!tip_matches(s[k], id));
    } else if i < k {
        assert(!tip_matches(s[i], id));
    }
}

/// Position of the first match in `v`, if any.
pub fn find_tip(v: &Vec<CreatorTipRecord>, id: &[u8; 32]) -> (r: Option<usize>)
    ensures
        r is None <==> !has_tip(v@, *id),
        r matches Some(i) ==> i as int == first_tip(v@, *id) && is_first_tip(v@, *id, i as int),
{
    let mut i: usize = 0;
    while i < v.len()
        invariant
            i <= v@.len(),
            forall|j: int| 0 <= j < i ==> !tip_matches(#[trigger] v@[j], *id),
        decreases v@.len() - i,
    {
        let x = &v[i];
        if bytes32_eq(&x.tip_id, id) {
            proof {
                lemma_first_tip_unique(v@, *id, i as int);
            }
            return Some(i);
        }
        i = i + 1;
    }
    None
}
/// The subscription has id `id`.
pub open spec fn subscription_matches(x: SubscriptionRecord, id: [u8; 32]) -> bool {
    x.subscription_id == id
}

pub open spec fn is_first_subscription(s: Seq<SubscriptionRecord>, id: [u8; 32], i: int) -> bool {
    &&& 0 <= i < s.len()
    &&& subscription_matches(s[i], id)
    &&& forall|j: int| 0 <= j < i ==> !subscription_matches(#[trigger] s[j], id)
}

pub open spec fn has_subscription(s: Seq<SubscriptionRecord>, id: [u8; 32]) -> bool {
    exists|i: int| 0 <= i < s.len() && subscription_matches(#[trigger] s[i], id)
}

/// Position of the first match (meaningful when there is one).
pub open spec fn first_subscription(s: Seq<SubscriptionRecord>, id: [u8; 32]) -> int {
    choose|i: int| is_first_subscription(s, id, i)
}

proof fn lemma_first_subscription_unique(s: Seq<SubscriptionRecord>, id: [u8; 32], i: int)
    requires
        is_first_subscription(s, id, i),
    ensures
        has_subscription(s, id),
        first_subscription(s, id) == i,
{
    let k = first_subscription(s, id);
    assert(is_first_subscription(s, id, k));
    if k < i {
        assert(!subscription_matches(s[k], id));
    } else if i < k {
        assert(!subscription_matches(s[i], id));
    }
}

/// Position of the first match in `v`, if any.
pub fn find_subscription(v: &Vec<SubscriptionRecord>, id: &[u8; 32]) -> (r: Option<usize>)
    ensures
        r is None <==> !has_subscription(v@, *id),
        r matches Some(i) ==> i as int == first_subscription(v@, *id) && is_first_subscription(v@, *id, i as int),
{
    let mut i: usize = 0;
    while i < v.len()
        invariant
            i <= v@.len(),
            forall|j: int| 0 <= j < i ==> !subscription_matches(#[trigger] v@[j], *id),
        decreases v@.len() - i,
    {
        let x = &v[i];
        if bytes32_eq(&x.subscription_id, id) {
            proof {
                lemma_first_subscription_unique(v@, *id, i as int);
            }
            return Some(i);
        }
        i = i + 1;
    }
    None
}
/// The subscription has id `id` and belongs to `subscriber`.
pub open spec fn own_subscription_matches(x: SubscriptionRecord, id: [u8; 32], subscriber: Pubkey) -> bool {
    x.subscription_id == id && x.subscriber == subscriber
}

pub open spec fn is_first_own_subscription(s: Seq<SubscriptionRecord>, id: [u8; 32], subscriber: Pubkey, i: int) -> bool {
    &&& 0 <= i < s.len()
    &&& own_subscription_matches(s[i], id, subscriber)
    &&& forall|j: int| 0 <= j < i ==> !own_subscription_matches(#[trigger] s[j], id, subscriber)
}

pub open spec fn has_own_subscription(s: Seq<SubscriptionRecord>, id: [u8; 32], subscriber: Pubkey) -> bool {
    exists|i: int| 0 <= i < s.len() && own_subscription_matches(#[trigger] s[i], id, subscriber)
}

/// Position of the first match (meaningful when there is one).
pub open spec fn first_own_subscription(s: Seq<SubscriptionRecord>, id: [u8; 32], subscriber: Pubkey) -> int {
    choose|i: int| is_first_own_subscription(s, id, subscriber, i)
}

proof fn lemma_first_own_subscription_unique(s: Seq<SubscriptionRecord>, id: [u8; 32], subscriber: Pubkey, i: int)
    requires
        is_first_own_subscription(s, id, subscriber, i),
    ensures
        has_own_subscription(s, id, subscriber),
        first_own_subscription(s, id, subscriber) == i,
{
    let k = first_own_subscription(s, id, subscriber);
    assert(is_first_own_subscription(s, id, subscriber, k));
    if k < i {
        assert(!own_subscription_matches(s[k], id, subscriber));
    } else if i < k {
        assert(!own_subscription_matches(s[i], id, subscriber));
    }
}

/// Position of the first match in `v`, if any.
pub fn find_own_subscription(v: &Vec<SubscriptionRecord>, id: &[u8; 32], subscriber: &Pubkey) -> (r: Option<usize>)
    ensures
        r is None <==> !has_own_subscription(v@, *id, *subscriber),
        r matches Some(i) ==> i as int == first_own_subscription(v@, *id, *subscriber) && is_first_own_subscription(v@, *id, *subscriber, i as int),
{
    let mut i: usize = 0;
    while i < v.len()
        invariant
            i <= v@.len(),
            forall|j: int| 0 <= j < i ==> !own_subscription_matches(#[trigger] v@[j], *id, *subscriber),
        decreases v@.len() - i,
    {
        let x = &v[i];
        if bytes32_eq(&x.subscription_id, id) && x.subscriber == *subscriber {
            proof {
                lemma_first_own_subscription_unique(v@, *id, *subscriber, i as int);
            }
            return Some(i);
        }
        i = i + 1;
    }
    None
}
/// The unlock has id `id`.
pub open spec fn unlock_matches(x: PaidContentUnlockRecord, id: [u8; 32]) -> bool {
    x.unlock_id == id
}

pub open spec fn is_first_unlock(s: Seq<PaidContentUnlockRecord>, id: [u8; 32], i: int) -> bool {
    &&& 0 <= i < s.len()
    &&& unlock_matches(s[i], id)
    &&& forall|j: int| 0 <= j < i ==> !unlock_matches(#[trigger] s[j], id)
}

pub open spec fn has_unlock(s: Seq<PaidContentUnlockRecord>, id: [u8; 32]) -> bool {
    exists|i: int| 0 <= i < s.len() && unlock_matches(#[trigger] s[i], id)
}

/// Position of the first match (meaningful when there is one).
pub open spec fn first_unlock(s: Seq<PaidContentUnlockRecord>, id: [u8; 32]) -> int {
    choose|i: int| is_first_unlock(s, id, i)
}

proof fn lemma_first_unlock_unique(s: Seq<PaidContentUnlockRecord>, id: [u8; 32], i: int)
    requires
        is_first_unlock(s, id, i),
    ensures
        has_unlock(s, id),
        first_unlock(s, id) == i,
{
    let k = first_unlock(s, id);
    assert(is_first_unlock(s, id, k));
    if k < i {
        assert(!unlock_matches(s[k], id));
    } else if i < k {
        assert(!unlock_matches(s[i], id));
    }
}

/// Position of the first match in `v`, if any.
pub fn find_unlock(v: &Vec<PaidContentUnlockRecord>, id: &[u8; 32]) -> (r: Option<usize>)
    ensures
        r is None <==> !has_unlock(v@, *id),
        r matches Some(i) ==> i as int == first_unlock(v@, *id) && is_first_unlock(v@, *id, i as int),
{
    let mut i: usize = 0;
    while i < v.len()
        invariant
            i <= v@.len(),
            forall|j: int| 0 <= j < i ==> !unlock_matches(#[trigger] v@[j], *id),
        decreases v@.len() - i,
    {
        let x = &v[i];
        if bytes32_eq(&x.unlock_id, id) {
            proof {
                lemma_first_unlock_unique(v@, *id, i as int);
            }
            return Some(i);
        }
        i = i + 1;
    }
    None
}
/// The revenue account is `creator`'s.
pub open spec fn revenue_matches(x: CreatorRevenueAccount, creator: Pubkey) -> bool {
    x.creator == creator
}

pub open spec fn is_first_revenue(s: Seq<CreatorRevenueAccount>, creator: Pubkey, i: int) -> bool {
    &&& 0 <= i < s.len()
    &&& revenue_matches(s[i], creator)
    &&& forall|j: int| 0 <= j < i ==> !revenue_matches(#[trigger] s[j], creator)
}

pub open spec fn has_revenue(s: Seq<CreatorRevenueAccount>, creator: Pubkey) -> bool {
    exists|i: int| 0 <= i < s.len() && revenue_matches(#[trigger] s[i], creator)
}

/// Position of the first match (meaningful when there is one).
pub open spec fn first_revenue(s: Seq<CreatorRevenueAccount>, creator: Pubkey) -> int {
    choose|i: int| is_first_revenue(s, creator, i)
}

proof fn lemma_some_first_revenue(s: Seq<CreatorRevenueAccount>, creator: Pubkey, i: int)
    requires
        0 <= i < s.len(),
        revenue_matches(s[i], creator),
    ensures
        exists|k: int| is_first_revenue(s, creator, k),
    decreases i,
{
    if exists|j: int| 0 <= j < i && revenue_matches(#[trigger] s[j], creator) {
        let j = choose|j: int| 0 <= j < i && revenue_matches(#[trigger] s[j], creator);
        lemma_some_first_revenue(s, creator, j);
    } else {
        assert(is_first_revenue(s, creator, i));
    }
}

/// When some revenue account is `creator`'s, the first one is.
pub proof fn lemma_first_revenue(s: Seq<CreatorRevenueAccount>, creator: Pubkey)
    requires
        has_revenue(s, creator),
    ensures
        is_first_revenue(s, creator, first_revenue(s, creator)),
{
    let i = choose|i: int| 0 <= i < s.len() && revenue_matches(#[trigger] s[i], creator);
    lemma_some_first_revenue(s, creator, i);
}

pub proof fn lemma_first_revenue_unique(s: Seq<CreatorRevenueAccount>, creator: Pubkey, i: int)
    requires
        is_first_revenue(s, creator, i),
    ensures
        has_revenue(s, creator),
        first_revenue(s, creator) == i,
{
    let k = first_revenue(s, creator);
    assert(is_first_revenue(s, creator, k));
    if k < i {
        assert(!revenue_matches(s[k], creator));
    } else if i < k {
        assert(!revenue_matches(s[i], creator));
    }
}

/// Position of the first match in `v`, if any.
pub fn find_revenue(v: &Vec<CreatorRevenueAccount>, creator: &Pubkey) -> (r: Option<usize>)
    ensures
        r is None <==> !has_revenue(v@, *creator),
        r matches Some(i) ==> i as int == first_revenue(v@, *creator) && is_first_revenue(v@, *creator, i as int),
{
    let mut i: usize = 0;
    while i < v.len()
        invariant
            i <= v@.len(),
            forall|j: int| 0 <= j < i ==> !revenue_matches(#[trigger] v@[j], *creator),
        decreases v@.len() - i,
    {
        let x = &v[i];
        if x.creator == *creator {
            proof {
                lemma_first_revenue_unique(v@, *creator, i as int);
            }
            return Some(i);
        }
        i = i + 1;
    }
    None
}

impl SocialMonetizationStateAccount {
    /// An initialized state with no records.
    pub fn new(config: MonetizationConfig) -> (r: Self)
        ensures
            r@ == (SocialMonetizationStateAccountModel {
                is_initialized: true,
                config,
                tips: Seq::empty(),
                subscriptions: Seq::empty(),
                unlocks: Seq::empty(),
                revenues: Seq::empty(),
            }),
    {
        SocialMonetizationStateAccount {
            is_initialized: true,
            config,
            tips: Vec::new(),
            subscriptions: Vec::new(),
            unlocks: Vec::new(),
            revenues: Vec::new(),
        }
    }

    pub fn ensure_initialized(&self) -> (r: Result<(), ProgramError>)
        ensures
            r == (if self.is_initialized { Ok(()) } else { Err(custom(SocialMonetizationError::Uninitialized)) }),
    {
        if self.is_initialized {
            Ok(())
        } else {
            Err(ProgramError::Custom(SocialMonetizationError::Uninitialized.code()))
        }
    }

    pub fn ensure_authority(&self, authority: &Pubkey) -> (r: Result<(), ProgramError>)
        ensures
            r == (if *authority == self.config.authority { Ok(()) } else { Err(custom(SocialMonetizationError::Unauthorized)) }),
    {
        if *authority == self.config.authority {
            Ok(())
        } else {
            Err(ProgramError::Custom(SocialMonetizationError::Unauthorized.code()))
        }
    }

    /// Decodes a state from account data, ignoring trailing zero bytes.
    pub fn deserialize_padded(data: &[u8]) -> (r: Result<Self, ProgramError>)
        ensures
            r.is_ok() == spec_decode_state(data@).is_some(),
            r matches Ok(v) ==> spec_decode_state(data@) == Some(v@),
            r matches Err(e) ==> e == ProgramError::InvalidAccountData,
    {
        let end = trimmed_len(data);
        match social_monetization_state_account_from_slice(slice_prefix(data, end)) {
            Some(v) => Ok(v),
            None => Err(ProgramError::InvalidAccountData),
        }
    }

    pub fn tip_exists(&self, tip_id: &[u8; 32]) -> (r: bool)
        ensures
            r == has_tip(self@.tips, *tip_id),
    {
        find_tip(&self.tips, tip_id).is_some()
    }

    pub fn subscription_exists(&self, subscription_id: &[u8; 32]) -> (r: bool)
        ensures
            r == has_subscription(self@.subscriptions, *subscription_id),
    {
        find_subscription(&self.subscriptions, subscription_id).is_some()
    }

    pub fn unlock_exists(&self, unlock_id: &[u8; 32]) -> (r: bool)
        ensures
            r == has_unlock(self@.unlocks, *unlock_id),
    {
        find_unlock(&self.unlocks, unlock_id).is_some()
    }
}

/// What is written as the state reads back as that state, whenever its bytes
/// end in a non-zero byte (trailing zero bytes are taken for padding, so a
/// state whose bytes end in zeros does not read back).
pub proof fn law_state_reads_back(c: ContextModel, s: SocialMonetizationStateAccountModel)
    requires
        0 < c.accounts.len(),
        fits_social_monetization_state_account(s),
        spec_write(c, 0, enc_social_monetization_state_account(s)).0 is Ok,
        ends_nonzero(enc_social_monetization_state_account(s)),
    ensures
        spec_decode_state(spec_write(c, 0, enc_social_monetization_state_account(s)).1.data(0)) == Some(s),
{
    let b = enc_social_monetization_state_account(s);
    law_write_then_read(c, 0, b);
    lemma_trimmed_padded(b, (c.data(0).len() - b.len()) as nat);
    lemma_social_monetization_state_account(s, Seq::empty());
    assert(b + Seq::<u8>::empty() =~= b);
}

} // verus!
