//! The posts state account: post anchors and engagement proofs.
use vstd::prelude::*;
use crate::errors::ProgramError;
use crate::pubkey::{bytes32_eq, Pubkey};
use crate::runtime::{slice_prefix, trimmed, trimmed_len};
use crate::social_posts::types::{
    dec_social_posts_state_account, model_vec_post_anchor, social_posts_state_account_from_slice,
    EngagementProof, PostAnchor, PostAnchorModel, SocialPostsConfig, SocialPostsError,
    SocialPostsStateAccount, SocialPostsStateAccountModel,
};

use crate::runtime::{ends_nonzero, law_write_then_read, lemma_trimmed_padded, spec_write, ContextModel};
use crate::social_posts::types::{enc_social_posts_state_account, fits_social_posts_state_account, lemma_social_posts_state_account};

verus! {

pub open spec fn custom(e: SocialPostsError) -> ProgramError {
    ProgramError::Custom(e.spec_code())
}

/// Decoding a state account: its data without trailing zero bytes must be
/// exactly one encoded state.
pub open spec fn spec_decode_state(data: Seq<u8>) -> Option<SocialPostsStateAccountModel> {
    match dec_social_posts_state_account(trimmed(data)) {
        Some((s, rest)) => if rest.len() == 0 { Some(s) } else { None },
        None => None,
    }
}

pub open spec fn is_first_post(s: Seq<PostAnchorModel>, id: [u8; 32], i: int) -> bool {
    &&& 0 <= i < s.len()
    &&& s[i].post_id == id
    &&& forall|j: int| 0 <= j < i ==> (#[trigger] s[j]).post_id != id
}

pub open spec fn has_post(s: Seq<PostAnchorModel>, id: [u8; 32]) -> bool {
    exists|i: int| 0 <= i < s.len() && (#[trigger] s[i]).post_id == id
}

/// Position of the first post with id `id` (meaningful when there is one).
pub open spec fn first_post(s: Seq<PostAnchorModel>, id: [u8; 32]) -> int {
    choose|i: int| is_first_post(s, id, i)
}

proof fn lemma_some_first_post(s: Seq<PostAnchorModel>, id: [u8; 32], i: int)
    requires
        0 <= i < s.len(),
        s[i].post_id == id,
    ensures
        exists|k: int| is_first_post(s, id, k),
    decreases i,
{
    if exists|j: int| 0 <= j < i && (#[trigger] s[j]).post_id == id {
        let j = choose|j: int| 0 <= j < i && (#[trigger] s[j]).post_id == id;
        lemma_some_first_post(s, id, j);
    } else {
        assert(is_first_post(s, id, i));
    }
}

/// When a post has id `id`, the first such post is one.
pub proof fn lemma_first_post(s: Seq<PostAnchorModel>, id: [u8; 32])
    requires
        has_post(s, id),
    ensures
        is_first_post(s, id, first_post(s, id)),
{
    let i = choose|i: int| 0 <= i < s.len() && (#[trigger] s[i]).post_id == id;
    lemma_some_first_post(s, id, i);
}

proof fn lemma_first_post_unique(s: Seq<PostAnchorModel>, id: [u8; 32], i: int)
    requires
        is_first_post(s, id, i),
    ensures
        has_post(s, id),
        first_post(s, id) == i,
{
    let k = first_post(s, id);
    assert(is_first_post(s, id, k));
    if k < i {
        assert(s[k].post_id != id);
    } else if i < k {
        assert(s[i].post_id != id);
    }
}

/// Position of the first post with id `id`, if any.
pub fn find_post(v: &Vec<PostAnchor>, id: &[u8; 32]) -> (r: Option<usize>)
    ensures
        r is None <==> !has_post(model_vec_post_anchor(v@), *id),
        r matches Some(i) ==> i as int == first_post(model_vec_post_anchor(v@), *id)
            && is_first_post(model_vec_post_anchor(v@), *id, i as int),
{
    let ghost m = model_vec_post_anchor(v@);
    let mut i: usize = 0;
    while i < v.len()
        invariant
            i <= v@.len(),
            m == model_vec_post_anchor(v@),
            m.len() == v@.len(),
            forall|j: int| 0 <= j < i ==> (#[trigger] m[j]).post_id != *id,
        decreases v@.len() - i,
    {
        assert(m[i as int] == v@[i as int]@);
        if bytes32_eq(&v[i].post_id, id) {
            proof {
                lemma_first_post_unique(m, *id, i as int);
            }
            return Some(i);
        }
        i = i + 1;
    }
    None
}

/// The engagement proof has id `id`.
pub open spec fn proof_matches(x: EngagementProof, id: [u8; 32]) -> bool {
    x.proof_id == id
}

pub open spec fn is_first_proof(s: Seq<EngagementProof>, id: [u8; 32], i: int) -> bool {
    &&& 0 <= i < s.len()
    &&& proof_matches(s[i], id)
    &&& forall|j: int| 0 <= j < i ==> !proof_matches(#[trigger] s[j], id)
}

pub open spec fn has_proof(s: Seq<EngagementProof>, id: [u8; 32]) -> bool {
    exists|i: int| 0 <= i < s.len() && proof_matches(#[trigger] s[i], id)
}

/// Position of the first match (meaningful when there is one).
pub open spec fn first_proof(s: Seq<EngagementProof>, id: [u8; 32]) -> int {
    choose|i: int| is_first_proof(s, id, i)
}

proof fn lemma_first_proof_unique(s: Seq<EngagementProof>, id: [u8; 32], i: int)
    requires
        is_first_proof(s, id, i),
    ensures
        has_proof(s, id),
        first_proof(s, id) == i,
{
    let k = first_proof(s, id);
    assert(is_first_proof(s, id, k));
    if k < i {
        assert(!proof_matches(s[k], id));
    } else if i < k {
        assert(!proof_matches(s[i], id));
    }
}

/// Position of the first match in `v`, if any.
pub fn find_proof(v: &Vec<EngagementProof>, id: &[u8; 32]) -> (r: Option<usize>)
    ensures
        r is None <==> !has_proof(v@, *id),
        r matches Some(i) ==> i as int == first_proof(v@, *id) && is_first_proof(v@, *id, i as int),
{
    let mut i: usize = 0;
    while i < v.len()
        invariant
            i <= v@.len(),
            forall|j: int| 0 <= j < i ==> !proof_matches(#[trigger] v@[j], *id),
        decreases v@.len() - i,
    {
        let x = &v[i];
        if bytes32_eq(&x.proof_id, id) {
            proof {
                lemma_first_proof_unique(v@, *id, i as int);
            }
            return Some(i);
        }
        i = i + 1;
    }
    None
}
/// The engagement proof carries replay guard `guard`.
pub open spec fn guard_matches(x: EngagementProof, guard: [u8; 32]) -> bool {
    x.replay_guard == guard
}

pub open spec fn is_first_guard(s: Seq<EngagementProof>, guard: [u8; 32], i: int) -> bool {
    &&& 0 <= i < s.len()
    &&& guard_matches(s[i], guard)
    &&& forall|j: int| 0 <= j < i ==> !guard_matches(#[trigger] s[j], guard)
}

pub open spec fn has_guard(s: Seq<EngagementProof>, guard: [u8; 32]) -> bool {
    exists|i: int| 0 <= i < s.len() && guard_matches(#[trigger] s[i], guard)
}

/// Position of the first match (meaningful when there is one).
pub open spec fn first_guard(s: Seq<EngagementProof>, guard: [u8; 32]) -> int {
    choose|i: int| is_first_guard(s, guard, i)
}

proof fn lemma_first_guard_unique(s: Seq<EngagementProof>, guard: [u8; 32], i: int)
    requires
        is_first_guard(s, guard, i),
    ensures
        has_guard(s, guard),
        first_guard(s, guard) == i,
{
    let k = first_guard(s, guard);
    assert(is_first_guard(s, guard, k));
    if k < i {
        assert(!guard_matches(s[k], guard));
    } else if i < k {
        assert(!guard_matches(s[i], guard));
    }
}

/// Position of the first match in `v`, if any.
pub fn find_guard(v: &Vec<EngagementProof>, guard: &[u8; 32]) -> (r: Option<usize>)
    ensures
        r is None <==> !has_guard(v@, *guard),
        r matches Some(i) ==> i as int == first_guard(v@, *guard) && is_first_guard(v@, *guard, i as int),
{
    let mut i: usize = 0;
    while i < v.len()
        invariant
            i <= v@.len(),
            forall|j: int| 0 <= j < i ==> !guard_matches(#[trigger] v@[j], *guard),
        decreases v@.len() - i,
    {
        let x = &v[i];
        if bytes32_eq(&x.replay_guard, guard) {
            proof {
                lemma_first_guard_unique(v@, *guard, i as int);
            }
            return Some(i);
        }
        i = i + 1;
    }
    None
}

impl SocialPostsStateAccount {
    /// An initialized state with no posts and no engagement proofs.
    pub fn new(config: SocialPostsConfig) -> (r: Self)
        ensures
            r@ == (SocialPostsStateAccountModel { is_initialized: true, config, posts: Seq::empty(), engagement_proofs: Seq::empty() }),
    {
        let r = SocialPostsStateAccount { is_initialized: true, config, posts: Vec::new(), engagement_proofs: Vec::new() };
        assert(r@.posts =~= Seq::<PostAnchorModel>::empty());
        r
    }

    pub fn ensure_initialized(&self) -> (r: Result<(), ProgramError>)
        ensures
            r == (if self.is_initialized { Ok(()) } else { Err(custom(SocialPostsError::Uninitialized)) }),
    {
        if self.is_initialized {
            Ok(())
        } else {
            Err(ProgramError::Custom(SocialPostsError::Uninitialized.code()))
        }
    }

    pub fn ensure_authority(&self, authority: &Pubkey) -> (r: Result<(), ProgramError>)
        ensures
            r == (if *authority == self.config.authority { Ok(()) } else { Err(custom(SocialPostsError::Unauthorized)) }),
    {
        if *authority == self.config.authority {
            Ok(())
        } else {
            Err(ProgramError::Custom(SocialPostsError::Unauthorized.code()))
        }
    }

    /// Decodes a state from account data, ignoring trailing zero bytes.
    pub fn deserialize_padded(data: &[u8]) -> (r: Result<Self, ProgramError>)
        ensures
            r.is_ok() == spec_decode_state(data@).is_some(),
            r matches Ok(v) ==> spec_decode_state(data@) == Some(v@),
            r matches Err(e) ==> e == ProgramError::InvalidAccountData,
    {
        let end = trimmed_len(data);
        match social_posts_state_account_from_slice(slice_prefix(data, end)) {
            Some(v) => Ok(v),
            None => Err(ProgramError::InvalidAccountData),
        }
    }

    pub fn post_exists(&self, post_id: &[u8; 32]) -> (r: bool)
        ensures
            r == has_post(self@.posts, *post_id),
    {
        find_post(&self.posts, post_id).is_some()
    }

    pub fn proof_exists(&self, proof_id: &[u8; 32]) -> (r: bool)
        ensures
            r == has_proof(self@.engagement_proofs, *proof_id),
    {
        find_proof(&self.engagement_proofs, proof_id).is_some()
    }

    pub fn replay_guard_exists(&self, replay_guard: &[u8; 32]) -> (r: bool)
        ensures
            r == has_guard(self@.engagement_proofs, *replay_guard),
    {
        find_guard(&self.engagement_proofs, replay_guard).is_some()
    }
}

/// What is written as the state reads back as that state, whenever its bytes
/// end in a non-zero byte (trailing zero bytes are taken for padding, so a
/// state whose bytes end in zeros does not read back).
pub proof fn law_state_reads_back(c: ContextModel, s: SocialPostsStateAccountModel)
    requires
        0 < c.accounts.len(),
        fits_social_posts_state_account(s),
        spec_write(c, 0, enc_social_posts_state_account(s)).0 is Ok,
        ends_nonzero(enc_social_posts_state_account(s)),
    ensures
        spec_decode_state(spec_write(c, 0, enc_social_posts_state_account(s)).1.data(0)) == Some(s),
{
    let b = enc_social_posts_state_account(s);
    law_write_then_read(c, 0, b);
    lemma_trimmed_padded(b, (c.data(0).len() - b.len()) as nat);
    lemma_social_posts_state_account(s, Seq::empty());
    assert(b + Seq::<u8>::empty() =~= b);
}

} // verus!
