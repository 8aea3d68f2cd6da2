//! The staking state account and its positions.
use vstd::prelude::*;
use crate::errors::ProgramError;
use crate::pubkey::{bytes32_eq, Pubkey};
use crate::runtime::{slice_prefix, trimmed, trimmed_len};
use crate::social_staking::types::{
    dec_social_staking_state_account, social_staking_state_account_from_slice, SocialStakeConfig,
    SocialStakePosition, SocialStakingError, SocialStakingStateAccount,
    SocialStakingStateAccountModel,
};

use crate::runtime::{ends_nonzero, law_write_then_read, lemma_trimmed_padded, spec_write, ContextModel};
use crate::social_staking::types::{enc_social_staking_state_account, fits_social_staking_state_account, lemma_social_staking_state_account};

verus! {

pub open spec fn custom(e: SocialStakingError) -> ProgramError {
    ProgramError::Custom(e.spec_code())
}

/// Decoding a state account: its data without trailing zero bytes must be
/// exactly one encoded state.
pub open spec fn spec_decode_state(data: Seq<u8>) -> Option<SocialStakingStateAccountModel> {
    match dec_social_staking_state_account(trimmed(data)) {
        Some((s, rest)) => if rest.len() == 0 { Some(s) } else { None },
        None => None,
    }
}

/// Position `p` has id `id` (and, when one is given, staker `staker`).
pub open spec fn pos_matches(p: SocialStakePosition, id: [u8; 32], staker: Option<Pubkey>) -> bool {
    p.position_id == id && (staker matches Some(k) ==> p.staker == k)
}

pub open spec fn is_first_pos(ps: Seq<SocialStakePosition>, id: [u8; 32], staker: Option<Pubkey>, i: int) -> bool {
    &&& 0 <= i < ps.len()
    &&& pos_matches(ps[i], id, staker)
    &&& forall|j: int| 0 <= j < i ==> !pos_matches(#[trigger] ps[j], id, staker)
}

pub open spec fn has_pos(ps: Seq<SocialStakePosition>, id: [u8; 32], staker: Option<Pubkey>) -> bool {
    exists|i: int| 0 <= i < ps.len() && pos_matches(#[trigger] ps[i], id, staker)
}

/// The first matching position (meaningful when there is one).
pub open spec fn first_pos(ps: Seq<SocialStakePosition>, id: [u8; 32], staker: Option<Pubkey>) -> int {
    choose|i: int| is_first_pos(ps, id, staker, i)
}

proof fn lemma_some_first_pos(ps: Seq<SocialStakePosition>, id: [u8; 32], staker: Option<Pubkey>, i: int)
    requires
        0 <= i < ps.len(),
        pos_matches(ps[i], id, staker),
    ensures
        exists|k: int| is_first_pos(ps, id, staker, k),
    decreases i,
{
    if exists|j: int| 0 <= j < i && pos_matches(#[trigger] ps[j], id, staker) {
        let j = choose|j: int| 0 <= j < i && pos_matches(#[trigger] ps[j], id, staker);
        lemma_some_first_pos(ps, id, staker, j);
    } else {
        assert(is_first_pos(ps, id, staker, i));
    }
}

/// When some position matches, the first one is a matching position.
pub proof fn lemma_first_pos(ps: Seq<SocialStakePosition>, id: [u8; 32], staker: Option<Pubkey>)
    requires
        has_pos(ps, id, staker),
    ensures
        is_first_pos(ps, id, staker, first_pos(ps, id, staker)),
{
    let i = choose|i: int| 0 <= i < ps.len() && pos_matches(#[trigger] ps[i], id, staker);
    lemma_some_first_pos(ps, id, staker, i);
}

proof fn lemma_first_pos_unique(ps: Seq<SocialStakePosition>, id: [u8; 32], staker: Option<Pubkey>, i: int)
    requires
        is_first_pos(ps, id, staker, i),
    ensures
        has_pos(ps, id, staker),
        first_pos(ps, id, staker) == i,
{
    let k = first_pos(ps, id, staker);
    assert(is_first_pos(ps, id, staker, k));
    if k < i {
        assert(!pos_matches(ps[k], id, staker));
    } else if i < k {
        assert(!pos_matches(ps[i], id, staker));
    }
}

/// Position of the first position with id `id` (and staker `staker` when given).
pub fn find_position(ps: &Vec<SocialStakePosition>, id: &[u8; 32], staker: Option<Pubkey>) -> (r: Option<usize>)
    ensures
        r is None <==> !has_pos(ps@, *id, staker),
        r matches Some(i) ==> i as int == first_pos(ps@, *id, staker) && is_first_pos(ps@, *id, staker, i as int),
{
    let mut i: usize = 0;
    while i < ps.len()
        invariant
            i <= ps@.len(),
            forall|j: int| 0 <= j < i ==> !pos_matches(#[trigger] ps@[j], *id, staker),
        decreases ps@.len() - i,
    {
        let p = &ps[i];
        let staker_ok = match staker {
            Some(k) => p.staker == k,
            None => true,
        };
        if bytes32_eq(&p.position_id, id) && staker_ok {
            proof {
                lemma_first_pos_unique(ps@, *id, staker, i as int);
            }
            return Some(i);
        }
        i = i + 1;
    }
    None
}

impl SocialStakingStateAccount {
    /// An initialized state with no positions and no yield records.
    pub fn new(config: SocialStakeConfig) -> (r: Self)
        ensures
            r@ == (SocialStakingStateAccountModel { is_initialized: true, config, positions: Seq::empty(), yield_records: Seq::empty() }),
    {
        SocialStakingStateAccount { is_initialized: true, config, positions: Vec::new(), yield_records: Vec::new() }
    }

    pub fn ensure_initialized(&self) -> (r: Result<(), ProgramError>)
        ensures
            r == (if self.is_initialized { Ok(()) } else { Err(custom(SocialStakingError::Uninitialized)) }),
    {
        if self.is_initialized {
            Ok(())
        } else {
            Err(ProgramError::Custom(SocialStakingError::Uninitialized.code()))
        }
    }

    pub fn ensure_authority(&self, authority: &Pubkey) -> (r: Result<(), ProgramError>)
        ensures
            r == (if *authority == self.config.authority { Ok(()) } else { Err(custom(SocialStakingError::Unauthorized)) }),
    {
        if *authority == self.config.authority {
            Ok(())
        } else {
            Err(ProgramError::Custom(SocialStakingError::Unauthorized.code()))
        }
    }

    /// Decodes a state from account data, ignoring trailing zero bytes.
    pub fn deserialize_padded(data: &[u8]) -> (r: Result<Self, ProgramError>)
        ensures
            r.is_ok() == spec_decode_state(data@).is_some(),
            r matches Ok(v) ==> spec_decode_state(data@) == Some(v@),
            r matches Err(e) ==> e == ProgramError::InvalidAccountData,
    {
        let end = trimmed_len(data);
        let body = slice_prefix(data, end);
        match social_staking_state_account_from_slice(body) {
            Some(v) => Ok(v),
            None => Err(ProgramError::InvalidAccountData),
        }
    }

    pub fn position_exists(&self, position_id: &[u8; 32]) -> (r: bool)
        ensures
            r == has_pos(self@.positions, *position_id, None),
    {
        find_position(&self.positions, position_id, None).is_some()
    }
}

/// What is written as the state reads back as that state, whenever its bytes
/// end in a non-zero byte (trailing zero bytes are taken for padding, so a
/// state whose bytes end in zeros does not read back).
pub proof fn law_state_reads_back(c: ContextModel, s: SocialStakingStateAccountModel)
    requires
        0 < c.accounts.len(),
        fits_social_staking_state_account(s),
        spec_write(c, 0, enc_social_staking_state_account(s)).0 is Ok,
        ends_nonzero(enc_social_staking_state_account(s)),
    ensures
        spec_decode_state(spec_write(c, 0, enc_social_staking_state_account(s)).1.data(0)) == Some(s),
{
    let b = enc_social_staking_state_account(s);
    law_write_then_read(c, 0, b);
    lemma_trimmed_padded(b, (c.data(0).len() - b.len()) as nat);
    lemma_social_staking_state_account(s, Seq::empty());
    assert(b + Seq::<u8>::empty() =~= b);
}

} // verus!
