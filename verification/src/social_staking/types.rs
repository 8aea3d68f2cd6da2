//! Data types and their byte layout.
use vstd::prelude::*;
use crate::codec::{dec_arr, dec_bool, dec_pubkey, dec_u32, dec_u64, enc_arr, enc_bool, enc_pubkey, enc_u32, enc_u64, fits_u32, lemma_arr, lemma_assoc, lemma_bool, lemma_pubkey, lemma_skip_skip, lemma_u32, lemma_u64, read_arr, read_bool, read_ok, read_pubkey, read_u32, read_u64, read_u8, write_arr, write_bool, write_pubkey, write_u32, write_u64};
use crate::layout::{dec_opt_arr32, dec_opt_u64, enc_opt_arr32, enc_opt_u64, lemma_opt_arr32, lemma_opt_u64, read_opt_arr32, read_opt_u64, write_opt_arr32, write_opt_u64};
use crate::pubkey::{Pubkey};

verus! {

/// Custom error codes of the social staking program.
#[derive(Clone, Copy, Debug, PartialEq, Eq, Structural)]
pub enum SocialStakingError {
    Uninitialized,
    Unauthorized,
    StakingDisabled,
    PositionNotFound,
    PositionNotActive,
    CooldownNotReached,
    NothingToClaim,
    PositionAlreadyExists,
    StakeTooLow,
    InvalidUnstakeEpoch,
    InvalidYieldRecord,
}

impl SocialStakingError {
    /// The custom error code carried by this error.
    pub open spec fn spec_code(self) -> u32 {
        match self {
            SocialStakingError::Uninitialized => 0,
            SocialStakingError::Unauthorized => 1,
            SocialStakingError::StakingDisabled => 2,
            SocialStakingError::PositionNotFound => 3,
            SocialStakingError::PositionNotActive => 4,
            SocialStakingError::CooldownNotReached => 5,
            SocialStakingError::NothingToClaim => 6,
            SocialStakingError::PositionAlreadyExists => 7,
            SocialStakingError::StakeTooLow => 8,
            SocialStakingError::InvalidUnstakeEpoch => 9,
            SocialStakingError::InvalidYieldRecord => 10,
        }
    }

    pub fn code(self) -> (c: u32)
        ensures
            c == self.spec_code(),
    {
        match self {
            SocialStakingError::Uninitialized => 0,
            SocialStakingError::Unauthorized => 1,
            SocialStakingError::StakingDisabled => 2,
            SocialStakingError::PositionNotFound => 3,
            SocialStakingError::PositionNotActive => 4,
            SocialStakingError::CooldownNotReached => 5,
            SocialStakingError::NothingToClaim => 6,
            SocialStakingError::PositionAlreadyExists => 7,
            SocialStakingError::StakeTooLow => 8,
            SocialStakingError::InvalidUnstakeEpoch => 9,
            SocialStakingError::InvalidYieldRecord => 10,
        }
    }
}

/// Staking configuration.
#[derive(Clone, Copy, Debug, PartialEq, Eq)]
pub struct SocialStakeConfig {
    pub authority: Pubkey,
    pub stake_vault: Pubkey,
    pub reward_vault: Pubkey,
    pub min_stake_amount: u64,
    pub cooldown_epochs: u64,
    pub staking_enabled: bool,
}

#[verifier::opaque]
pub open spec fn enc_social_stake_config(v: SocialStakeConfig) -> Seq<u8> {
    enc_pubkey(v.authority) + (enc_pubkey(v.stake_vault) + (enc_pubkey(v.reward_vault) + (enc_u64(v.min_stake_amount) + (enc_u64(v.cooldown_epochs) + (enc_bool(v.staking_enabled))))))
}

#[verifier::opaque]
pub open spec fn dec_social_stake_config(s: Seq<u8>) -> Option<(SocialStakeConfig, Seq<u8>)> {
    match dec_pubkey(s) {
            Some((authority, r1)) => match dec_pubkey(r1) {
            Some((stake_vault, r2)) => match dec_pubkey(r2) {
            Some((reward_vault, r3)) => match dec_u64(r3) {
            Some((min_stake_amount, r4)) => match dec_u64(r4) {
            Some((cooldown_epochs, r5)) => match dec_bool(r5) {
            Some((staking_enabled, r6)) => Some((SocialStakeConfig { authority, stake_vault, reward_vault, min_stake_amount, cooldown_epochs, staking_enabled }, r6)),
            None => None,
        },
            None => None,
        },
            None => None,
        },
            None => None,
        },
            None => None,
        },
            None => None,
        }
}

pub fn read_social_stake_config(d: &[u8], pos: usize) -> (r: Option<(SocialStakeConfig, usize)>)
    requires
        pos <= d@.len(),
    ensures
        read_ok(dec_social_stake_config(d@.skip(pos as int)), r, d@),
{
    proof {
        reveal(dec_social_stake_config);
    }
    match read_pubkey(d, pos) {
        None => None,
        Some((authority, p1)) => match read_pubkey(d, p1) {
        None => None,
        Some((stake_vault, p2)) => match read_pubkey(d, p2) {
        None => None,
        Some((reward_vault, p3)) => match read_u64(d, p3) {
        None => None,
        Some((min_stake_amount, p4)) => match read_u64(d, p4) {
        None => None,
        Some((cooldown_epochs, p5)) => match read_bool(d, p5) {
        None => None,
        Some((staking_enabled, p6)) => Some((SocialStakeConfig { authority, stake_vault, reward_vault, min_stake_amount, cooldown_epochs, staking_enabled }, p6)),
    },
    },
    },
    },
    },
    }
}

pub fn write_social_stake_config(out: &mut Vec<u8>, v: &SocialStakeConfig)
    ensures
        final(out)@ == old(out)@ + enc_social_stake_config(*v),
{
    proof {
        reveal(enc_social_stake_config);
    }
    write_pubkey(out, &v.authority);
    let ghost o0 = out@;
    write_pubkey(out, &v.stake_vault);
    let ghost o1 = out@;
    write_pubkey(out, &v.reward_vault);
    let ghost o2 = out@;
    write_u64(out, *&v.min_stake_amount);
    let ghost o3 = out@;
    write_u64(out, *&v.cooldown_epochs);
    let ghost o4 = out@;
    write_bool(out, *&v.staking_enabled);
    let ghost o5 = out@;
    proof {
        lemma_assoc(o3, enc_u64((*v).cooldown_epochs), enc_bool((*v).staking_enabled));
        lemma_assoc(o2, enc_u64((*v).min_stake_amount), enc_u64((*v).cooldown_epochs) + (enc_bool((*v).staking_enabled)));
        lemma_assoc(o1, enc_pubkey((*v).reward_vault), enc_u64((*v).min_stake_amount) + (enc_u64((*v).cooldown_epochs) + (enc_bool((*v).staking_enabled))));
        lemma_assoc(o0, enc_pubkey((*v).stake_vault), enc_pubkey((*v).reward_vault) + (enc_u64((*v).min_stake_amount) + (enc_u64((*v).cooldown_epochs) + (enc_bool((*v).staking_enabled)))));
        lemma_assoc(old(out)@, enc_pubkey((*v).authority), enc_pubkey((*v).stake_vault) + (enc_pubkey((*v).reward_vault) + (enc_u64((*v).min_stake_amount) + (enc_u64((*v).cooldown_epochs) + (enc_bool((*v).staking_enabled))))));
    }
}

pub proof fn lemma_social_stake_config(v: SocialStakeConfig, rest: Seq<u8>)
    ensures
        dec_social_stake_config(enc_social_stake_config(v) + rest) == Some((v, rest)),
{
    reveal(enc_social_stake_config);
    reveal(dec_social_stake_config);
    lemma_assoc(enc_pubkey(v.authority), enc_pubkey(v.stake_vault) + (enc_pubkey(v.reward_vault) + (enc_u64(v.min_stake_amount) + (enc_u64(v.cooldown_epochs) + (enc_bool(v.staking_enabled))))), rest);
    lemma_pubkey(v.authority, enc_pubkey(v.stake_vault) + (enc_pubkey(v.reward_vault) + (enc_u64(v.min_stake_amount) + (enc_u64(v.cooldown_epochs) + (enc_bool(v.staking_enabled))))) + rest);
    lemma_assoc(enc_pubkey(v.stake_vault), enc_pubkey(v.reward_vault) + (enc_u64(v.min_stake_amount) + (enc_u64(v.cooldown_epochs) + (enc_bool(v.staking_enabled)))), rest);
    lemma_pubkey(v.stake_vault, enc_pubkey(v.reward_vault) + (enc_u64(v.min_stake_amount) + (enc_u64(v.cooldown_epochs) + (enc_bool(v.staking_enabled)))) + rest);
    lemma_assoc(enc_pubkey(v.reward_vault), enc_u64(v.min_stake_amount) + (enc_u64(v.cooldown_epochs) + (enc_bool(v.staking_enabled))), rest);
    lemma_pubkey(v.reward_vault, enc_u64(v.min_stake_amount) + (enc_u64(v.cooldown_epochs) + (enc_bool(v.staking_enabled))) + rest);
    lemma_assoc(enc_u64(v.min_stake_amount), enc_u64(v.cooldown_epochs) + (enc_bool(v.staking_enabled)), rest);
    lemma_u64(v.min_stake_amount, enc_u64(v.cooldown_epochs) + (enc_bool(v.staking_enabled)) + rest);
    lemma_assoc(enc_u64(v.cooldown_epochs), enc_bool(v.staking_enabled), rest);
    lemma_u64(v.cooldown_epochs, enc_bool(v.staking_enabled) + rest);
    lemma_bool(v.staking_enabled, rest);
}

/// Lifecycle of a stake position.
#[derive(Clone, Copy, Debug, PartialEq, Eq, Structural)]
pub enum SocialStakeState {
    Active,
    CoolingDown,
    Closed,
    Slashed,
}

#[verifier::opaque]
pub open spec fn enc_social_stake_state(v: SocialStakeState) -> Seq<u8> {
    match v {
        SocialStakeState::Active => seq![0u8],
        SocialStakeState::CoolingDown => seq![1u8],
        SocialStakeState::Closed => seq![2u8],
        SocialStakeState::Slashed => seq![3u8],
    }
}

#[verifier::opaque]
pub open spec fn dec_social_stake_state(s: Seq<u8>) -> Option<(SocialStakeState, Seq<u8>)> {
    if s.len() == 0 {
        None
    } else if s[0] == 0 {
        Some((SocialStakeState::Active, s.skip(1)))
    } else if s[0] == 1 {
        Some((SocialStakeState::CoolingDown, s.skip(1)))
    } else if s[0] == 2 {
        Some((SocialStakeState::Closed, s.skip(1)))
    } else if s[0] == 3 {
        Some((SocialStakeState::Slashed, s.skip(1)))
    } else { None }
}

pub fn read_social_stake_state(d: &[u8], pos: usize) -> (r: Option<(SocialStakeState, usize)>)
    requires
        pos <= d@.len(),
    ensures
        read_ok(dec_social_stake_state(d@.skip(pos as int)), r, d@),
{
    proof {
        reveal(dec_social_stake_state);
    }
    match read_u8(d, pos) {
        None => None,
        Some((tag, p0)) => {
            proof {
                lemma_skip_skip(d@, pos as int, 1);
            }
            match tag {
            0 => Some((SocialStakeState::Active, p0)),
            1 => Some((SocialStakeState::CoolingDown, p0)),
            2 => Some((SocialStakeState::Closed, p0)),
            3 => Some((SocialStakeState::Slashed, p0)),
            _ => None,
            }
        },
    }
}

pub fn write_social_stake_state(out: &mut Vec<u8>, v: &SocialStakeState)
    ensures
        final(out)@ == old(out)@ + enc_social_stake_state(*v),
{
    proof {
        reveal(enc_social_stake_state);
    }
    match v {
        SocialStakeState::Active => {
            out.push(0u8);
            assert(out@ =~= old(out)@ + seq![0u8]);
        },
        SocialStakeState::CoolingDown => {
            out.push(1u8);
            assert(out@ =~= old(out)@ + seq![1u8]);
        },
        SocialStakeState::Closed => {
            out.push(2u8);
            assert(out@ =~= old(out)@ + seq![2u8]);
        },
        SocialStakeState::Slashed => {
            out.push(3u8);
            assert(out@ =~= old(out)@ + seq![3u8]);
        },
    }
}

pub proof fn lemma_social_stake_state(v: SocialStakeState, rest: Seq<u8>)
    ensures
        dec_social_stake_state(enc_social_stake_state(v) + rest) == Some((v, rest)),
{
    reveal(enc_social_stake_state);
    reveal(dec_social_stake_state);
    match v {
        SocialStakeState::Active => {
            assert((enc_social_stake_state(v) + rest).skip(1) =~= rest);
        },
        SocialStakeState::CoolingDown => {
            assert((enc_social_stake_state(v) + rest).skip(1) =~= rest);
        },
        SocialStakeState::Closed => {
            assert((enc_social_stake_state(v) + rest).skip(1) =~= rest);
        },
        SocialStakeState::Slashed => {
            assert((enc_social_stake_state(v) + rest).skip(1) =~= rest);
        },
    }
}

/// A stake position of one staker behind one creator.
#[derive(Clone, Copy, Debug, PartialEq, Eq)]
pub struct SocialStakePosition {
    pub position_id: [u8; 32],
    pub staker: Pubkey,
    pub creator: Pubkey,
    pub staked_amount: u64,
    pub activated_at_epoch: u64,
    pub unlock_epoch: Option<u64>,
    pub accumulated_yield: u64,
    pub claimed_yield: u64,
    pub state: SocialStakeState,
}

#[verifier::opaque]
pub open spec fn enc_social_stake_position(v: SocialStakePosition) -> Seq<u8> {
    enc_arr::<32>(v.position_id) + (enc_pubkey(v.staker) + (enc_pubkey(v.creator) + (enc_u64(v.staked_amount) + (enc_u64(v.activated_at_epoch) + (enc_opt_u64(v.unlock_epoch) + (enc_u64(v.accumulated_yield) + (enc_u64(v.claimed_yield) + (enc_social_stake_state(v.state)))))))))
}

#[verifier::opaque]
pub open spec fn dec_social_stake_position(s: Seq<u8>) -> Option<(SocialStakePosition, Seq<u8>)> {
    match dec_arr::<32>(s) {
            Some((position_id, r1)) => match dec_pubkey(r1) {
            Some((staker, r2)) => match dec_pubkey(r2) {
            Some((creator, r3)) => match dec_u64(r3) {
            Some((staked_amount, r4)) => match dec_u64(r4) {
            Some((activated_at_epoch, r5)) => match dec_opt_u64(r5) {
            Some((unlock_epoch, r6)) => match dec_u64(r6) {
            Some((accumulated_yield, r7)) => match dec_u64(r7) {
            Some((claimed_yield, r8)) => match dec_social_stake_state(r8) {
            Some((state, r9)) => Some((SocialStakePosition { position_id, staker, creator, staked_amount, activated_at_epoch, unlock_epoch, accumulated_yield, claimed_yield, state }, r9)),
            None => None,
        },
            None => None,
        },
            None => None,
        },
            None => None,
        },
            None => None,
        },
            None => None,
        },
            None => None,
        },
            None => None,
        },
            None => None,
        }
}

pub fn read_social_stake_position(d: &[u8], pos: usize) -> (r: Option<(SocialStakePosition, usize)>)
    requires
        pos <= d@.len(),
    ensures
        read_ok(dec_social_stake_position(d@.skip(pos as int)), r, d@),
{
    proof {
        reveal(dec_social_stake_position);
    }
    match read_arr::<32>(d, pos) {
        None => None,
        Some((position_id, p1)) => match read_pubkey(d, p1) {
        None => None,
        Some((staker, p2)) => match read_pubkey(d, p2) {
        None => None,
        Some((creator, p3)) => match read_u64(d, p3) {
        None => None,
        Some((staked_amount, p4)) => match read_u64(d, p4) {
        None => None,
        Some((activated_at_epoch, p5)) => match read_opt_u64(d, p5) {
        None => None,
        Some((unlock_epoch, p6)) => match read_u64(d, p6) {
        None => None,
        Some((accumulated_yield, p7)) => match read_u64(d, p7) {
        None => None,
        Some((claimed_yield, p8)) => match read_social_stake_state(d, p8) {
        None => None,
        Some((state, p9)) => Some((SocialStakePosition { position_id, staker, creator, staked_amount, activated_at_epoch, unlock_epoch, accumulated_yield, claimed_yield, state }, p9)),
    },
    },
    },
    },
    },
    },
    },
    },
    }
}

pub fn write_social_stake_position(out: &mut Vec<u8>, v: &SocialStakePosition)
    ensures
        final(out)@ == old(out)@ + enc_social_stake_position(*v),
{
    proof {
        reveal(enc_social_stake_position);
    }
    write_arr::<32>(out, &v.position_id);
    let ghost o0 = out@;
    write_pubkey(out, &v.staker);
    let ghost o1 = out@;
    write_pubkey(out, &v.creator);
    let ghost o2 = out@;
    write_u64(out, *&v.staked_amount);
    let ghost o3 = out@;
    write_u64(out, *&v.activated_at_epoch);
    let ghost o4 = out@;
    write_opt_u64(out, &v.unlock_epoch);
    let ghost o5 = out@;
    write_u64(out, *&v.accumulated_yield);
    let ghost o6 = out@;
    write_u64(out, *&v.claimed_yield);
    let ghost o7 = out@;
    write_social_stake_state(out, &v.state);
    let ghost o8 = out@;
    proof {
        lemma_assoc(o6, enc_u64((*v).claimed_yield), enc_social_stake_state((*v).state));
        lemma_assoc(o5, enc_u64((*v).accumulated_yield), enc_u64((*v).claimed_yield) + (enc_social_stake_state((*v).state)));
        lemma_assoc(o4, enc_opt_u64((*v).unlock_epoch), enc_u64((*v).accumulated_yield) + (enc_u64((*v).claimed_yield) + (enc_social_stake_state((*v).state))));
        lemma_assoc(o3, enc_u64((*v).activated_at_epoch), enc_opt_u64((*v).unlock_epoch) + (enc_u64((*v).accumulated_yield) + (enc_u64((*v).claimed_yield) + (enc_social_stake_state((*v).state)))));
        lemma_assoc(o2, enc_u64((*v).staked_amount), enc_u64((*v).activated_at_epoch) + (enc_opt_u64((*v).unlock_epoch) + (enc_u64((*v).accumulated_yield) + (enc_u64((*v).claimed_yield) + (enc_social_stake_state((*v).state))))));
        lemma_assoc(o1, enc_pubkey((*v).creator), enc_u64((*v).staked_amount) + (enc_u64((*v).activated_at_epoch) + (enc_opt_u64((*v).unlock_epoch) + (enc_u64((*v).accumulated_yield) + (enc_u64((*v).claimed_yield) + (enc_social_stake_state((*v).state)))))));
        lemma_assoc(o0, enc_pubkey((*v).staker), enc_pubkey((*v).creator) + (enc_u64((*v).staked_amount) + (enc_u64((*v).activated_at_epoch) + (enc_opt_u64((*v).unlock_epoch) + (enc_u64((*v).accumulated_yield) + (enc_u64((*v).claimed_yield) + (enc_social_stake_state((*v).state))))))));
        lemma_assoc(old(out)@, enc_arr::<32>((*v).position_id), enc_pubkey((*v).staker) + (enc_pubkey((*v).creator) + (enc_u64((*v).staked_amount) + (enc_u64((*v).activated_at_epoch) + (enc_opt_u64((*v).unlock_epoch) + (enc_u64((*v).accumulated_yield) + (enc_u64((*v).claimed_yield) + (enc_social_stake_state((*v).state)))))))));
    }
}

pub proof fn lemma_social_stake_position(v: SocialStakePosition, rest: Seq<u8>)
    ensures
        dec_social_stake_position(enc_social_stake_position(v) + rest) == Some((v, rest)),
{
    reveal(enc_social_stake_position);
    reveal(dec_social_stake_position);
    lemma_assoc(enc_arr::<32>(v.position_id), enc_pubkey(v.staker) + (enc_pubkey(v.creator) + (enc_u64(v.staked_amount) + (enc_u64(v.activated_at_epoch) + (enc_opt_u64(v.unlock_epoch) + (enc_u64(v.accumulated_yield) + (enc_u64(v.claimed_yield) + (enc_social_stake_state(v.state)))))))), rest);
    lemma_arr::<32>(v.position_id, enc_pubkey(v.staker) + (enc_pubkey(v.creator) + (enc_u64(v.staked_amount) + (enc_u64(v.activated_at_epoch) + (enc_opt_u64(v.unlock_epoch) + (enc_u64(v.accumulated_yield) + (enc_u64(v.claimed_yield) + (enc_social_stake_state(v.state)))))))) + rest);
    lemma_assoc(enc_pubkey(v.staker), enc_pubkey(v.creator) + (enc_u64(v.staked_amount) + (enc_u64(v.activated_at_epoch) + (enc_opt_u64(v.unlock_epoch) + (enc_u64(v.accumulated_yield) + (enc_u64(v.claimed_yield) + (enc_social_stake_state(v.state))))))), rest);
    lemma_pubkey(v.staker, enc_pubkey(v.creator) + (enc_u64(v.staked_amount) + (enc_u64(v.activated_at_epoch) + (enc_opt_u64(v.unlock_epoch) + (enc_u64(v.accumulated_yield) + (enc_u64(v.claimed_yield) + (enc_social_stake_state(v.state))))))) + rest);
    lemma_assoc(enc_pubkey(v.creator), enc_u64(v.staked_amount) + (enc_u64(v.activated_at_epoch) + (enc_opt_u64(v.unlock_epoch) + (enc_u64(v.accumulated_yield) + (enc_u64(v.claimed_yield) + (enc_social_stake_state(v.state)))))), rest);
    lemma_pubkey(v.creator, enc_u64(v.staked_amount) + (enc_u64(v.activated_at_epoch) + (enc_opt_u64(v.unlock_epoch) + (enc_u64(v.accumulated_yield) + (enc_u64(v.claimed_yield) + (enc_social_stake_state(v.state)))))) + rest);
    lemma_assoc(enc_u64(v.staked_amount), enc_u64(v.activated_at_epoch) + (enc_opt_u64(v.unlock_epoch) + (enc_u64(v.accumulated_yield) + (enc_u64(v.claimed_yield) + (enc_social_stake_state(v.state))))), rest);
    lemma_u64(v.staked_amount, enc_u64(v.activated_at_epoch) + (enc_opt_u64(v.unlock_epoch) + (enc_u64(v.accumulated_yield) + (enc_u64(v.claimed_yield) + (enc_social_stake_state(v.state))))) + rest);
    lemma_assoc(enc_u64(v.activated_at_epoch), enc_opt_u64(v.unlock_epoch) + (enc_u64(v.accumulated_yield) + (enc_u64(v.claimed_yield) + (enc_social_stake_state(v.state)))), rest);
    lemma_u64(v.activated_at_epoch, enc_opt_u64(v.unlock_epoch) + (enc_u64(v.accumulated_yield) + (enc_u64(v.claimed_yield) + (enc_social_stake_state(v.state)))) + rest);
    lemma_assoc(enc_opt_u64(v.unlock_epoch), enc_u64(v.accumulated_yield) + (enc_u64(v.claimed_yield) + (enc_social_stake_state(v.state))), rest);
    lemma_opt_u64(v.unlock_epoch, enc_u64(v.accumulated_yield) + (enc_u64(v.claimed_yield) + (enc_social_stake_state(v.state))) + rest);
    lemma_assoc(enc_u64(v.accumulated_yield), enc_u64(v.claimed_yield) + (enc_social_stake_state(v.state)), rest);
    lemma_u64(v.accumulated_yield, enc_u64(v.claimed_yield) + (enc_social_stake_state(v.state)) + rest);
    lemma_assoc(enc_u64(v.claimed_yield), enc_social_stake_state(v.state), rest);
    lemma_u64(v.claimed_yield, enc_social_stake_state(v.state) + rest);
    lemma_social_stake_state(v.state, rest);
}

/// Decodes a [`SocialStakePosition`] that must take up all of `d`.
pub fn social_stake_position_from_slice(d: &[u8]) -> (r: Option<SocialStakePosition>)
    ensures
        r is Some <==> (dec_social_stake_position(d@) matches Some((_, rest)) && rest.len() == 0),
        r matches Some(v) ==> dec_social_stake_position(d@) == Some((v, Seq::<u8>::empty())),
{
    assert(d@.skip(0) =~= d@);
    match read_social_stake_position(d, 0) {
        None => None,
        Some((v, p)) => {
            if p == d.len() {
                assert(d@.skip(p as int) =~= Seq::<u8>::empty());
                Some(v)
            } else {
                None
            }
        },
    }
}

/// Decodes a [`SocialStakePosition`] from the front of `d`, ignoring what follows it.
pub fn social_stake_position_from_prefix(d: &[u8]) -> (r: Option<SocialStakePosition>)
    ensures
        r is Some <==> dec_social_stake_position(d@) is Some,
        r matches Some(v) ==> dec_social_stake_position(d@) matches Some((m, _)) && m == v,
{
    assert(d@.skip(0) =~= d@);
    match read_social_stake_position(d, 0) {
        None => None,
        Some((v, _)) => Some(v),
    }
}

/// Serialises a [`SocialStakePosition`].
pub fn social_stake_position_to_vec(v: &SocialStakePosition) -> (r: Vec<u8>)
    ensures
        r@ == enc_social_stake_position(*v),
{
    let mut out: Vec<u8> = Vec::new();
    write_social_stake_position(&mut out, v);
    assert(out@ =~= enc_social_stake_position(*v));
    out
}


pub open spec fn enc_items_social_stake_position(xs: Seq<SocialStakePosition>) -> Seq<u8>
    decreases xs.len(),
{
    if xs.len() == 0 {
        Seq::empty()
    } else {
        enc_items_social_stake_position(xs.drop_last()) + enc_social_stake_position(xs.last())
    }
}

pub open spec fn dec_items_social_stake_position(s: Seq<u8>, n: nat) -> Option<(Seq<SocialStakePosition>, Seq<u8>)>
    decreases n,
{
    if n == 0 {
        Some((Seq::empty(), s))
    } else {
        match dec_items_social_stake_position(s, (n - 1) as nat) {
            Some((xs, r)) => match dec_social_stake_position(r) {
                Some((x, r2)) => Some((xs.push(x), r2)),
                None => None,
            },
            None => None,
        }
    }
}

pub open spec fn enc_vec_social_stake_position(xs: Seq<SocialStakePosition>) -> Seq<u8> {
    enc_u32(xs.len() as u32) + enc_items_social_stake_position(xs)
}

pub open spec fn dec_vec_social_stake_position(s: Seq<u8>) -> Option<(Seq<SocialStakePosition>, Seq<u8>)> {
    match dec_u32(s) {
        Some((n, r)) => dec_items_social_stake_position(r, n as nat),
        None => None,
    }
}


pub open spec fn fits_vec_social_stake_position(xs: Seq<SocialStakePosition>) -> bool {
    fits_u32(xs.len())
}


pub open spec fn model_vec_social_stake_position(v: Seq<SocialStakePosition>) -> Seq<SocialStakePosition> {
    v
}

pub proof fn lemma_items_none_social_stake_position(s: Seq<u8>, k: nat, n: nat)
    requires
        k <= n,
        dec_items_social_stake_position(s, k) is None,
    ensures
        dec_items_social_stake_position(s, n) is None,
    decreases n - k,
{
    if k < n {
        lemma_items_none_social_stake_position(s, k, (n - 1) as nat);
    }
}

pub fn read_vec_social_stake_position(d: &[u8], pos: usize) -> (r: Option<(Vec<SocialStakePosition>, usize)>)
    requires
        pos <= d@.len(),
    ensures
        match r {
            None => dec_vec_social_stake_position(d@.skip(pos as int)) is None,
            Some((v, p)) => p <= d@.len() && dec_vec_social_stake_position(d@.skip(pos as int)) == Some((model_vec_social_stake_position(v@), d@.skip(p as int))),
        },
{
    match read_u32(d, pos) {
        None => None,
        Some((n, p0)) => {
            let mut v: Vec<SocialStakePosition> = Vec::new();
            let mut p = p0;
            let mut i: u32 = 0;
            while i < n
                invariant
                    p <= d@.len(),
                    pos <= d@.len(),
                    dec_u32(d@.skip(pos as int)) == Some((n, d@.skip(p0 as int))),
                    i <= n,
                    v@.len() == i,
                    dec_items_social_stake_position(d@.skip(p0 as int), i as nat) == Some((model_vec_social_stake_position(v@), d@.skip(p as int))),
                decreases n - i,
            {
                match read_social_stake_position(d, p) {
                    None => {
                        proof {
                            assert(dec_social_stake_position(d@.skip(p as int)) is None);
                            assert(dec_items_social_stake_position(d@.skip(p0 as int), (i + 1) as nat) is None);
                            lemma_items_none_social_stake_position(d@.skip(p0 as int), (i + 1) as nat, n as nat);
                        }
                        return None;
                    },
                    Some((x, p2)) => {
                        let ghost old_v = v@;
                        v.push(x);
                        proof {
                            assert(model_vec_social_stake_position(v@) =~= model_vec_social_stake_position(old_v).push(x));
                        }
                        p = p2;
                        i = i + 1;
                    },
                }
            }
            Some((v, p))
        },
    }
}


pub fn write_vec_social_stake_position(out: &mut Vec<u8>, v: &Vec<SocialStakePosition>) -> (ok: bool)
    ensures
        ok == fits_vec_social_stake_position(model_vec_social_stake_position(v@)),
        ok ==> final(out)@ == old(out)@ + enc_vec_social_stake_position(model_vec_social_stake_position(v@)),
{
    if v.len() > u32::MAX as usize {
        return false;
    }
    write_u32(out, v.len() as u32);
    let ghost base = out@;
    let mut i: usize = 0;
    while i < v.len()
        invariant
            i <= v@.len(),
            v@.len() <= u32::MAX,
            out@ == base + enc_items_social_stake_position(model_vec_social_stake_position(v@).take(i as int)),
        decreases v@.len() - i,
    {
        write_social_stake_position(out, &v[i]);
        proof {
            assert(model_vec_social_stake_position(v@).take(i + 1).drop_last() =~= model_vec_social_stake_position(v@).take(i as int));
            assert(model_vec_social_stake_position(v@).take(i + 1).last() == model_vec_social_stake_position(v@)[i as int]);
        }
        i = i + 1;
    }
    proof {
        assert(model_vec_social_stake_position(v@).take(v@.len() as int) =~= model_vec_social_stake_position(v@));
    }
    true
}


pub proof fn lemma_items_social_stake_position(xs: Seq<SocialStakePosition>, rest: Seq<u8>)
    requires
        true,
    ensures
        dec_items_social_stake_position(enc_items_social_stake_position(xs) + rest, xs.len()) == Some((xs, rest)),
    decreases xs.len(),
{
    if xs.len() == 0 {
        assert(enc_items_social_stake_position(xs) + rest =~= rest);
        assert(xs =~= Seq::<SocialStakePosition>::empty());
    } else {
        let init = xs.drop_last();
        let last = xs.last();
        assert forall|i: int| 0 <= i < init.len() implies init[i] == xs[i] by {}
        lemma_items_social_stake_position(init, enc_social_stake_position(last) + rest);
        assert(enc_items_social_stake_position(xs) + rest =~= enc_items_social_stake_position(init) + (enc_social_stake_position(last) + rest));
        lemma_social_stake_position(last, rest);
        assert(init.push(last) =~= xs);
    }
}

pub proof fn lemma_vec_social_stake_position(xs: Seq<SocialStakePosition>, rest: Seq<u8>)
    requires
        fits_vec_social_stake_position(xs),
    ensures
        dec_vec_social_stake_position(enc_vec_social_stake_position(xs) + rest) == Some((xs, rest)),
{
    assert(enc_vec_social_stake_position(xs) + rest =~= enc_u32(xs.len() as u32) + (enc_items_social_stake_position(xs) + rest));
    lemma_u32(xs.len() as u32, enc_items_social_stake_position(xs) + rest);
    lemma_items_social_stake_position(xs, rest);
}

/// Yield earned by a position in one epoch.
#[derive(Clone, Copy, Debug, PartialEq, Eq)]
pub struct StakeYieldRecord {
    pub epoch: u64,
    pub position_id: [u8; 32],
    pub creator: Pubkey,
    pub staker: Pubkey,
    pub yield_amount: u64,
}

#[verifier::opaque]
pub open spec fn enc_stake_yield_record(v: StakeYieldRecord) -> Seq<u8> {
    enc_u64(v.epoch) + (enc_arr::<32>(v.position_id) + (enc_pubkey(v.creator) + (enc_pubkey(v.staker) + (enc_u64(v.yield_amount)))))
}

#[verifier::opaque]
pub open spec fn dec_stake_yield_record(s: Seq<u8>) -> Option<(StakeYieldRecord, Seq<u8>)> {
    match dec_u64(s) {
            Some((epoch, r1)) => match dec_arr::<32>(r1) {
            Some((position_id, r2)) => match dec_pubkey(r2) {
            Some((creator, r3)) => match dec_pubkey(r3) {
            Some((staker, r4)) => match dec_u64(r4) {
            Some((yield_amount, r5)) => Some((StakeYieldRecord { epoch, position_id, creator, staker, yield_amount }, r5)),
            None => None,
        },
            None => None,
        },
            None => None,
        },
            None => None,
        },
            None => None,
        }
}

pub fn read_stake_yield_record(d: &[u8], pos: usize) -> (r: Option<(StakeYieldRecord, usize)>)
    requires
        pos <= d@.len(),
    ensures
        read_ok(dec_stake_yield_record(d@.skip(pos as int)), r, d@),
{
    proof {
        reveal(dec_stake_yield_record);
    }
    match read_u64(d, pos) {
        None => None,
        Some((epoch, p1)) => match read_arr::<32>(d, p1) {
        None => None,
        Some((position_id, p2)) => match read_pubkey(d, p2) {
        None => None,
        Some((creator, p3)) => match read_pubkey(d, p3) {
        None => None,
        Some((staker, p4)) => match read_u64(d, p4) {
        None => None,
        Some((yield_amount, p5)) => Some((StakeYieldRecord { epoch, position_id, creator, staker, yield_amount }, p5)),
    },
    },
    },
    },
    }
}

pub fn write_stake_yield_record(out: &mut Vec<u8>, v: &StakeYieldRecord)
    ensures
        final(out)@ == old(out)@ + enc_stake_yield_record(*v),
{
    proof {
        reveal(enc_stake_yield_record);
    }
    write_u64(out, *&v.epoch);
    let ghost o0 = out@;
    write_arr::<32>(out, &v.position_id);
    let ghost o1 = out@;
    write_pubkey(out, &v.creator);
    let ghost o2 = out@;
    write_pubkey(out, &v.staker);
    let ghost o3 = out@;
    write_u64(out, *&v.yield_amount);
    let ghost o4 = out@;
    proof {
        lemma_assoc(o2, enc_pubkey((*v).staker), enc_u64((*v).yield_amount));
        lemma_assoc(o1, enc_pubkey((*v).creator), enc_pubkey((*v).staker) + (enc_u64((*v).yield_amount)));
        lemma_assoc(o0, enc_arr::<32>((*v).position_id), enc_pubkey((*v).creator) + (enc_pubkey((*v).staker) + (enc_u64((*v).yield_amount))));
        lemma_assoc(old(out)@, enc_u64((*v).epoch), enc_arr::<32>((*v).position_id) + (enc_pubkey((*v).creator) + (enc_pubkey((*v).staker) + (enc_u64((*v).yield_amount)))));
    }
}

pub proof fn lemma_stake_yield_record(v: StakeYieldRecord, rest: Seq<u8>)
    ensures
        dec_stake_yield_record(enc_stake_yield_record(v) + rest) == Some((v, rest)),
{
    reveal(enc_stake_yield_record);
    reveal(dec_stake_yield_record);
    lemma_assoc(enc_u64(v.epoch), enc_arr::<32>(v.position_id) + (enc_pubkey(v.creator) + (enc_pubkey(v.staker) + (enc_u64(v.yield_amount)))), rest);
    lemma_u64(v.epoch, enc_arr::<32>(v.position_id) + (enc_pubkey(v.creator) + (enc_pubkey(v.staker) + (enc_u64(v.yield_amount)))) + rest);
    lemma_assoc(enc_arr::<32>(v.position_id), enc_pubkey(v.creator) + (enc_pubkey(v.staker) + (enc_u64(v.yield_amount))), rest);
    lemma_arr::<32>(v.position_id, enc_pubkey(v.creator) + (enc_pubkey(v.staker) + (enc_u64(v.yield_amount))) + rest);
    lemma_assoc(enc_pubkey(v.creator), enc_pubkey(v.staker) + (enc_u64(v.yield_amount)), rest);
    lemma_pubkey(v.creator, enc_pubkey(v.staker) + (enc_u64(v.yield_amount)) + rest);
    lemma_assoc(enc_pubkey(v.staker), enc_u64(v.yield_amount), rest);
    lemma_pubkey(v.staker, enc_u64(v.yield_amount) + rest);
    lemma_u64(v.yield_amount, rest);
}

/// Decodes a [`StakeYieldRecord`] that must take up all of `d`.
pub fn stake_yield_record_from_slice(d: &[u8]) -> (r: Option<StakeYieldRecord>)
    ensures
        r is Some <==> (dec_stake_yield_record(d@) matches Some((_, rest)) && rest.len() == 0),
        r matches Some(v) ==> dec_stake_yield_record(d@) == Some((v, Seq::<u8>::empty())),
{
    assert(d@.skip(0) =~= d@);
    match read_stake_yield_record(d, 0) {
        None => None,
        Some((v, p)) => {
            if p == d.len() {
                assert(d@.skip(p as int) =~= Seq::<u8>::empty());
                Some(v)
            } else {
                None
            }
        },
    }
}

/// Decodes a [`StakeYieldRecord`] from the front of `d`, ignoring what follows it.
pub fn stake_yield_record_from_prefix(d: &[u8]) -> (r: Option<StakeYieldRecord>)
    ensures
        r is Some <==> dec_stake_yield_record(d@) is Some,
        r matches Some(v) ==> dec_stake_yield_record(d@) matches Some((m, _)) && m == v,
{
    assert(d@.skip(0) =~= d@);
    match read_stake_yield_record(d, 0) {
        None => None,
        Some((v, _)) => Some(v),
    }
}

/// Serialises a [`StakeYieldRecord`].
pub fn stake_yield_record_to_vec(v: &StakeYieldRecord) -> (r: Vec<u8>)
    ensures
        r@ == enc_stake_yield_record(*v),
{
    let mut out: Vec<u8> = Vec::new();
    write_stake_yield_record(&mut out, v);
    assert(out@ =~= enc_stake_yield_record(*v));
    out
}


pub open spec fn enc_items_stake_yield_record(xs: Seq<StakeYieldRecord>) -> Seq<u8>
    decreases xs.len(),
{
    if xs.len() == 0 {
        Seq::empty()
    } else {
        enc_items_stake_yield_record(xs.drop_last()) + enc_stake_yield_record(xs.last())
    }
}

pub open spec fn dec_items_stake_yield_record(s: Seq<u8>, n: nat) -> Option<(Seq<StakeYieldRecord>, Seq<u8>)>
    decreases n,
{
    if n == 0 {
        Some((Seq::empty(), s))
    } else {
        match dec_items_stake_yield_record(s, (n - 1) as nat) {
            Some((xs, r)) => match dec_stake_yield_record(r) {
                Some((x, r2)) => Some((xs.push(x), r2)),
                None => None,
            },
            None => None,
        }
    }
}

pub open spec fn enc_vec_stake_yield_record(xs: Seq<StakeYieldRecord>) -> Seq<u8> {
    enc_u32(xs.len() as u32) + enc_items_stake_yield_record(xs)
}

pub open spec fn dec_vec_stake_yield_record(s: Seq<u8>) -> Option<(Seq<StakeYieldRecord>, Seq<u8>)> {
    match dec_u32(s) {
        Some((n, r)) => dec_items_stake_yield_record(r, n as nat),
        None => None,
    }
}


pub open spec fn fits_vec_stake_yield_record(xs: Seq<StakeYieldRecord>) -> bool {
    fits_u32(xs.len())
}


pub open spec fn model_vec_stake_yield_record(v: Seq<StakeYieldRecord>) -> Seq<StakeYieldRecord> {
    v
}

pub proof fn lemma_items_none_stake_yield_record(s: Seq<u8>, k: nat, n: nat)
    requires
        k <= n,
        dec_items_stake_yield_record(s, k) is None,
    ensures
        dec_items_stake_yield_record(s, n) is None,
    decreases n - k,
{
    if k < n {
        lemma_items_none_stake_yield_record(s, k, (n - 1) as nat);
    }
}

pub fn read_vec_stake_yield_record(d: &[u8], pos: usize) -> (r: Option<(Vec<StakeYieldRecord>, usize)>)
    requires
        pos <= d@.len(),
    ensures
        match r {
            None => dec_vec_stake_yield_record(d@.skip(pos as int)) is None,
            Some((v, p)) => p <= d@.len() && dec_vec_stake_yield_record(d@.skip(pos as int)) == Some((model_vec_stake_yield_record(v@), d@.skip(p as int))),
        },
{
    match read_u32(d, pos) {
        None => None,
        Some((n, p0)) => {
            let mut v: Vec<StakeYieldRecord> = Vec::new();
            let mut p = p0;
            let mut i: u32 = 0;
            while i < n
                invariant
                    p <= d@.len(),
                    pos <= d@.len(),
                    dec_u32(d@.skip(pos as int)) == Some((n, d@.skip(p0 as int))),
                    i <= n,
                    v@.len() == i,
                    dec_items_stake_yield_record(d@.skip(p0 as int), i as nat) == Some((model_vec_stake_yield_record(v@), d@.skip(p as int))),
                decreases n - i,
            {
                match read_stake_yield_record(d, p) {
                    None => {
                        proof {
                            assert(dec_stake_yield_record(d@.skip(p as int)) is None);
                            assert(dec_items_stake_yield_record(d@.skip(p0 as int), (i + 1) as nat) is None);
                            lemma_items_none_stake_yield_record(d@.skip(p0 as int), (i + 1) as nat, n as nat);
                        }
                        return None;
                    },
                    Some((x, p2)) => {
                        let ghost old_v = v@;
                        v.push(x);
                        proof {
                            assert(model_vec_stake_yield_record(v@) =~= model_vec_stake_yield_record(old_v).push(x));
                        }
                        p = p2;
                        i = i + 1;
                    },
                }
            }
            Some((v, p))
        },
    }
}


pub fn write_vec_stake_yield_record(out: &mut Vec<u8>, v: &Vec<StakeYieldRecord>) -> (ok: bool)
    ensures
        ok == fits_vec_stake_yield_record(model_vec_stake_yield_record(v@)),
        ok ==> final(out)@ == old(out)@ + enc_vec_stake_yield_record(model_vec_stake_yield_record(v@)),
{
    if v.len() > u32::MAX as usize {
        return false;
    }
    write_u32(out, v.len() as u32);
    let ghost base = out@;
    let mut i: usize = 0;
    while i < v.len()
        invariant
            i <= v@.len(),
            v@.len() <= u32::MAX,
            out@ == base + enc_items_stake_yield_record(model_vec_stake_yield_record(v@).take(i as int)),
        decreases v@.len() - i,
    {
        write_stake_yield_record(out, &v[i]);
        proof {
            assert(model_vec_stake_yield_record(v@).take(i + 1).drop_last() =~= model_vec_stake_yield_record(v@).take(i as int));
            assert(model_vec_stake_yield_record(v@).take(i + 1).last() == model_vec_stake_yield_record(v@)[i as int]);
        }
        i = i + 1;
    }
    proof {
        assert(model_vec_stake_yield_record(v@).take(v@.len() as int) =~= model_vec_stake_yield_record(v@));
    }
    true
}


pub proof fn lemma_items_stake_yield_record(xs: Seq<StakeYieldRecord>, rest: Seq<u8>)
    requires
        true,
    ensures
        dec_items_stake_yield_record(enc_items_stake_yield_record(xs) + rest, xs.len()) == Some((xs, rest)),
    decreases xs.len(),
{
    if xs.len() == 0 {
        assert(enc_items_stake_yield_record(xs) + rest =~= rest);
        assert(xs =~= Seq::<StakeYieldRecord>::empty());
    } else {
        let init = xs.drop_last();
        let last = xs.last();
        assert forall|i: int| 0 <= i < init.len() implies init[i] == xs[i] by {}
        lemma_items_stake_yield_record(init, enc_stake_yield_record(last) + rest);
        assert(enc_items_stake_yield_record(xs) + rest =~= enc_items_stake_yield_record(init) + (enc_stake_yield_record(last) + rest));
        lemma_stake_yield_record(last, rest);
        assert(init.push(last) =~= xs);
    }
}

pub proof fn lemma_vec_stake_yield_record(xs: Seq<StakeYieldRecord>, rest: Seq<u8>)
    requires
        fits_vec_stake_yield_record(xs),
    ensures
        dec_vec_stake_yield_record(enc_vec_stake_yield_record(xs) + rest) == Some((xs, rest)),
{
    assert(enc_vec_stake_yield_record(xs) + rest =~= enc_u32(xs.len() as u32) + (enc_items_stake_yield_record(xs) + rest));
    lemma_u32(xs.len() as u32, enc_items_stake_yield_record(xs) + rest);
    lemma_items_stake_yield_record(xs, rest);
}

/// The staking state account.
#[derive(Clone, Debug, PartialEq, Eq)]
pub struct SocialStakingStateAccount {
    pub is_initialized: bool,
    pub config: SocialStakeConfig,
    pub positions: Vec<SocialStakePosition>,
    pub yield_records: Vec<StakeYieldRecord>,
}

/// Mathematical model of [`SocialStakingStateAccount`].
#[verifier::ext_equal]
pub struct SocialStakingStateAccountModel {
    pub is_initialized: bool,
    pub config: SocialStakeConfig,
    pub positions: Seq<SocialStakePosition>,
    pub yield_records: Seq<StakeYieldRecord>,
}

impl View for SocialStakingStateAccount {
    type V = SocialStakingStateAccountModel;

    open spec fn view(&self) -> SocialStakingStateAccountModel {
        SocialStakingStateAccountModel {
            is_initialized: self.is_initialized,
            config: self.config,
            positions: self.positions@,
            yield_records: self.yield_records@,
        }
    }
}

#[verifier::opaque]
pub open spec fn enc_social_staking_state_account(v: SocialStakingStateAccountModel) -> Seq<u8> {
    enc_bool(v.is_initialized) + (enc_social_stake_config(v.config) + (enc_vec_social_stake_position(v.positions) + (enc_vec_stake_yield_record(v.yield_records))))
}

#[verifier::opaque]
pub open spec fn dec_social_staking_state_account(s: Seq<u8>) -> Option<(SocialStakingStateAccountModel, Seq<u8>)> {
    match dec_bool(s) {
            Some((is_initialized, r1)) => match dec_social_stake_config(r1) {
            Some((config, r2)) => match dec_vec_social_stake_position(r2) {
            Some((positions, r3)) => match dec_vec_stake_yield_record(r3) {
            Some((yield_records, r4)) => Some((SocialStakingStateAccountModel { is_initialized, config, positions, yield_records }, r4)),
            None => None,
        },
            None => None,
        },
            None => None,
        },
            None => None,
        }
}

pub open spec fn fits_social_staking_state_account(v: SocialStakingStateAccountModel) -> bool {
    fits_vec_social_stake_position(v.positions) && fits_vec_stake_yield_record(v.yield_records)
}

pub fn read_social_staking_state_account(d: &[u8], pos: usize) -> (r: Option<(SocialStakingStateAccount, usize)>)
    requires
        pos <= d@.len(),
    ensures
        match r {
            None => dec_social_staking_state_account(d@.skip(pos as int)) is None,
            Some((v, p)) => p <= d@.len() && dec_social_staking_state_account(d@.skip(pos as int)) == Some((v@, d@.skip(p as int))),
        },
{
    proof {
        reveal(dec_social_staking_state_account);
    }
    match read_bool(d, pos) {
        None => None,
        Some((is_initialized, p1)) => match read_social_stake_config(d, p1) {
        None => None,
        Some((config, p2)) => match read_vec_social_stake_position(d, p2) {
        None => None,
        Some((positions, p3)) => match read_vec_stake_yield_record(d, p3) {
        None => None,
        Some((yield_records, p4)) => Some((SocialStakingStateAccount { is_initialized, config, positions, yield_records }, p4)),
    },
    },
    },
    }
}

pub fn write_social_staking_state_account(out: &mut Vec<u8>, v: &SocialStakingStateAccount) -> (ok: bool)
    ensures
        ok == fits_social_staking_state_account(v@),
        ok ==> final(out)@ == old(out)@ + enc_social_staking_state_account(v@),
{
    proof {
        reveal(enc_social_staking_state_account);
    }
    write_bool(out, *&v.is_initialized);
    let ghost o0 = out@;
    write_social_stake_config(out, &v.config);
    let ghost o1 = out@;
    if !write_vec_social_stake_position(out, &v.positions) { return false; }
    let ghost o2 = out@;
    if !write_vec_stake_yield_record(out, &v.yield_records) { return false; }
    let ghost o3 = out@;
    proof {
        lemma_assoc(o1, enc_vec_social_stake_position(v@.positions), enc_vec_stake_yield_record(v@.yield_records));
        lemma_assoc(o0, enc_social_stake_config(v@.config), enc_vec_social_stake_position(v@.positions) + (enc_vec_stake_yield_record(v@.yield_records)));
        lemma_assoc(old(out)@, enc_bool(v@.is_initialized), enc_social_stake_config(v@.config) + (enc_vec_social_stake_position(v@.positions) + (enc_vec_stake_yield_record(v@.yield_records))));
    }
    true
}

pub proof fn lemma_social_staking_state_account(v: SocialStakingStateAccountModel, rest: Seq<u8>)
    requires
        fits_social_staking_state_account(v),
    ensures
        dec_social_staking_state_account(enc_social_staking_state_account(v) + rest) == Some((v, rest)),
{
    reveal(enc_social_staking_state_account);
    reveal(dec_social_staking_state_account);
    lemma_assoc(enc_bool(v.is_initialized), enc_social_stake_config(v.config) + (enc_vec_social_stake_position(v.positions) + (enc_vec_stake_yield_record(v.yield_records))), rest);
    lemma_bool(v.is_initialized, enc_social_stake_config(v.config) + (enc_vec_social_stake_position(v.positions) + (enc_vec_stake_yield_record(v.yield_records))) + rest);
    lemma_assoc(enc_social_stake_config(v.config), enc_vec_social_stake_position(v.positions) + (enc_vec_stake_yield_record(v.yield_records)), rest);
    lemma_social_stake_config(v.config, enc_vec_social_stake_position(v.positions) + (enc_vec_stake_yield_record(v.yield_records)) + rest);
    lemma_assoc(enc_vec_social_stake_position(v.positions), enc_vec_stake_yield_record(v.yield_records), rest);
    lemma_vec_social_stake_position(v.positions, enc_vec_stake_yield_record(v.yield_records) + rest);
    lemma_vec_stake_yield_record(v.yield_records, rest);
}

/// Decodes a [`SocialStakingStateAccount`] that must take up all of `d`.
pub fn social_staking_state_account_from_slice(d: &[u8]) -> (r: Option<SocialStakingStateAccount>)
    ensures
        r is Some <==> (dec_social_staking_state_account(d@) matches Some((_, rest)) && rest.len() == 0),
        r matches Some(v) ==> dec_social_staking_state_account(d@) == Some((v@, Seq::<u8>::empty())),
{
    assert(d@.skip(0) =~= d@);
    match read_social_staking_state_account(d, 0) {
        None => None,
        Some((v, p)) => {
            if p == d.len() {
                assert(d@.skip(p as int) =~= Seq::<u8>::empty());
                Some(v)
            } else {
                None
            }
        },
    }
}

/// Decodes a [`SocialStakingStateAccount`] from the front of `d`, ignoring what follows it.
pub fn social_staking_state_account_from_prefix(d: &[u8]) -> (r: Option<SocialStakingStateAccount>)
    ensures
        r is Some <==> dec_social_staking_state_account(d@) is Some,
        r matches Some(v) ==> dec_social_staking_state_account(d@) matches Some((m, _)) && m == v@,
{
    assert(d@.skip(0) =~= d@);
    match read_social_staking_state_account(d, 0) {
        None => None,
        Some((v, _)) => Some(v),
    }
}

/// Serialises a [`SocialStakingStateAccount`]; `None` when a length does not fit the `u32` prefix.
pub fn social_staking_state_account_to_vec(v: &SocialStakingStateAccount) -> (r: Option<Vec<u8>>)
    ensures
        r is Some <==> fits_social_staking_state_account(v@),
        r matches Some(b) ==> b@ == enc_social_staking_state_account(v@),
{
    let mut out: Vec<u8> = Vec::new();
    if write_social_staking_state_account(&mut out, v) {
        assert(out@ =~= enc_social_staking_state_account(v@));
        Some(out)
    } else {
        None
    }
}

/// Instructions of the social staking program.
#[derive(Clone, Debug, PartialEq, Eq)]
pub enum SocialStakingInstruction {
    InitializeConfig{ state: SocialStakingStateAccount },
    OpenPosition{ position: SocialStakePosition },
    RequestUnstake{ position_id: [u8; 32], unlock_epoch: u64 },
    FinalizeUnstake{ position_id: [u8; 32], current_epoch: u64 },
    RecordStakeYield{ record: StakeYieldRecord },
    ClaimStakeYield{ position_id: [u8; 32], amount: u64 },
    ReadPosition{ position_id: Option<[u8; 32]> },
}

/// Mathematical model of [`SocialStakingInstruction`].
pub enum SocialStakingInstructionModel {
    InitializeConfig{ state: SocialStakingStateAccountModel },
    OpenPosition{ position: SocialStakePosition },
    RequestUnstake{ position_id: [u8; 32], unlock_epoch: u64 },
    FinalizeUnstake{ position_id: [u8; 32], current_epoch: u64 },
    RecordStakeYield{ record: StakeYieldRecord },
    ClaimStakeYield{ position_id: [u8; 32], amount: u64 },
    ReadPosition{ position_id: Option<[u8; 32]> },
}

impl View for SocialStakingInstruction {
    type V = SocialStakingInstructionModel;

    open spec fn view(&self) -> SocialStakingInstructionModel {
        match self {
            SocialStakingInstruction::InitializeConfig{ state } => SocialStakingInstructionModel::InitializeConfig{ state: (*state)@ },
            SocialStakingInstruction::OpenPosition{ position } => SocialStakingInstructionModel::OpenPosition{ position: (*position) },
            SocialStakingInstruction::RequestUnstake{ position_id, unlock_epoch } => SocialStakingInstructionModel::RequestUnstake{ position_id: (*position_id), unlock_epoch: (*unlock_epoch) },
            SocialStakingInstruction::FinalizeUnstake{ position_id, current_epoch } => SocialStakingInstructionModel::FinalizeUnstake{ position_id: (*position_id), current_epoch: (*current_epoch) },
            SocialStakingInstruction::RecordStakeYield{ record } => SocialStakingInstructionModel::RecordStakeYield{ record: (*record) },
            SocialStakingInstruction::ClaimStakeYield{ position_id, amount } => SocialStakingInstructionModel::ClaimStakeYield{ position_id: (*position_id), amount: (*amount) },
            SocialStakingInstruction::ReadPosition{ position_id } => SocialStakingInstructionModel::ReadPosition{ position_id: (*position_id) },
        }
    }
}

#[verifier::opaque]
pub open spec fn enc_social_staking_instruction(v: SocialStakingInstructionModel) -> Seq<u8> {
    match v {
        SocialStakingInstructionModel::InitializeConfig{ state } => seq![0u8] + (enc_social_staking_state_account(state)),
        SocialStakingInstructionModel::OpenPosition{ position } => seq![1u8] + (enc_social_stake_position(position)),
        SocialStakingInstructionModel::RequestUnstake{ position_id, unlock_epoch } => seq![2u8] + (enc_arr::<32>(position_id) + (enc_u64(unlock_epoch))),
        SocialStakingInstructionModel::FinalizeUnstake{ position_id, current_epoch } => seq![3u8] + (enc_arr::<32>(position_id) + (enc_u64(current_epoch))),
        SocialStakingInstructionModel::RecordStakeYield{ record } => seq![4u8] + (enc_stake_yield_record(record)),
        SocialStakingInstructionModel::ClaimStakeYield{ position_id, amount } => seq![5u8] + (enc_arr::<32>(position_id) + (enc_u64(amount))),
        SocialStakingInstructionModel::ReadPosition{ position_id } => seq![6u8] + (enc_opt_arr32(position_id)),
    }
}

#[verifier::opaque]
pub open spec fn dec_social_staking_instruction(s: Seq<u8>) -> Option<(SocialStakingInstructionModel, Seq<u8>)> {
    if s.len() == 0 {
        None
    } else if s[0] == 0 {
        let r0 = s.skip(1);
        match dec_social_staking_state_account(r0) {
            Some((state, r1)) => Some((SocialStakingInstructionModel::InitializeConfig{ state }, r1)),
            None => None,
        }
    } else if s[0] == 1 {
        let r0 = s.skip(1);
        match dec_social_stake_position(r0) {
            Some((position, r1)) => Some((SocialStakingInstructionModel::OpenPosition{ position }, r1)),
            None => None,
        }
    } else if s[0] == 2 {
        let r0 = s.skip(1);
        match dec_arr::<32>(r0) {
            Some((position_id, r1)) => match dec_u64(r1) {
            Some((unlock_epoch, r2)) => Some((SocialStakingInstructionModel::RequestUnstake{ position_id, unlock_epoch }, r2)),
            None => None,
        },
            None => None,
        }
    } else if s[0] == 3 {
        let r0 = s.skip(1);
        match dec_arr::<32>(r0) {
            Some((position_id, r1)) => match dec_u64(r1) {
            Some((current_epoch, r2)) => Some((SocialStakingInstructionModel::FinalizeUnstake{ position_id, current_epoch }, r2)),
            None => None,
        },
            None => None,
        }
    } else if s[0] == 4 {
        let r0 = s.skip(1);
        match dec_stake_yield_record(r0) {
            Some((record, r1)) => Some((SocialStakingInstructionModel::RecordStakeYield{ record }, r1)),
            None => None,
        }
    } else if s[0] == 5 {
        let r0 = s.skip(1);
        match dec_arr::<32>(r0) {
            Some((position_id, r1)) => match dec_u64(r1) {
            Some((amount, r2)) => Some((SocialStakingInstructionModel::ClaimStakeYield{ position_id, amount }, r2)),
            None => None,
        },
            None => None,
        }
    } else if s[0] == 6 {
        let r0 = s.skip(1);
        match dec_opt_arr32(r0) {
            Some((position_id, r1)) => Some((SocialStakingInstructionModel::ReadPosition{ position_id }, r1)),
            None => None,
        }
    } else { None }
}

pub open spec fn fits_social_staking_instruction(v: SocialStakingInstructionModel) -> bool {
    match v {
        SocialStakingInstructionModel::InitializeConfig{ state } => fits_social_staking_state_account(state),
        SocialStakingInstructionModel::OpenPosition{ position } => true,
        SocialStakingInstructionModel::RequestUnstake{ position_id, unlock_epoch } => true,
        SocialStakingInstructionModel::FinalizeUnstake{ position_id, current_epoch } => true,
        SocialStakingInstructionModel::RecordStakeYield{ record } => true,
        SocialStakingInstructionModel::ClaimStakeYield{ position_id, amount } => true,
        SocialStakingInstructionModel::ReadPosition{ position_id } => true,
    }
}

pub fn read_social_staking_instruction(d: &[u8], pos: usize) -> (r: Option<(SocialStakingInstruction, usize)>)
    requires
        pos <= d@.len(),
    ensures
        match r {
            None => dec_social_staking_instruction(d@.skip(pos as int)) is None,
            Some((v, p)) => p <= d@.len() && dec_social_staking_instruction(d@.skip(pos as int)) == Some((v@, d@.skip(p as int))),
        },
{
    proof {
        reveal(dec_social_staking_instruction);
    }
    match read_u8(d, pos) {
        None => None,
        Some((tag, p0)) => {
            proof {
                lemma_skip_skip(d@, pos as int, 1);
            }
            match tag {
            0 => match read_social_staking_state_account(d, p0) {
                None => None,
                Some((state, p1)) => Some((SocialStakingInstruction::InitializeConfig{ state }, p1)),
            },
            1 => match read_social_stake_position(d, p0) {
                None => None,
                Some((position, p1)) => Some((SocialStakingInstruction::OpenPosition{ position }, p1)),
            },
            2 => match read_arr::<32>(d, p0) {
                None => None,
                Some((position_id, p1)) => match read_u64(d, p1) {
                None => None,
                Some((unlock_epoch, p2)) => Some((SocialStakingInstruction::RequestUnstake{ position_id, unlock_epoch }, p2)),
            },
            },
            3 => match read_arr::<32>(d, p0) {
                None => None,
                Some((position_id, p1)) => match read_u64(d, p1) {
                None => None,
                Some((current_epoch, p2)) => Some((SocialStakingInstruction::FinalizeUnstake{ position_id, current_epoch }, p2)),
            },
            },
            4 => match read_stake_yield_record(d, p0) {
                None => None,
                Some((record, p1)) => Some((SocialStakingInstruction::RecordStakeYield{ record }, p1)),
            },
            5 => match read_arr::<32>(d, p0) {
                None => None,
                Some((position_id, p1)) => match read_u64(d, p1) {
                None => None,
                Some((amount, p2)) => Some((SocialStakingInstruction::ClaimStakeYield{ position_id, amount }, p2)),
            },
            },
            6 => match read_opt_arr32(d, p0) {
                None => None,
                Some((position_id, p1)) => Some((SocialStakingInstruction::ReadPosition{ position_id }, p1)),
            },
            _ => None,
            }
        },
    }
}

pub fn write_social_staking_instruction(out: &mut Vec<u8>, v: &SocialStakingInstruction) -> (ok: bool)
    ensures
        ok == fits_social_staking_instruction(v@),
        ok ==> final(out)@ == old(out)@ + enc_social_staking_instruction(v@),
{
    proof {
        reveal(enc_social_staking_instruction);
    }
    match v {
        SocialStakingInstruction::InitializeConfig{ state } => {
            out.push(0u8);
            let ghost ot = out@;
            assert(ot =~= old(out)@ + seq![0u8]);
            if !write_social_staking_state_account(out, state) { return false; }
            let ghost o0 = out@;
            proof {
            }
            proof {
                lemma_assoc(old(out)@, seq![0u8], enc_social_staking_state_account((*state)@));
            }
        },
        SocialStakingInstruction::OpenPosition{ position } => {
            out.push(1u8);
            let ghost ot = out@;
            assert(ot =~= old(out)@ + seq![1u8]);
            write_social_stake_position(out, position);
            let ghost o0 = out@;
            proof {
            }
            proof {
                lemma_assoc(old(out)@, seq![1u8], enc_social_stake_position((*position)));
            }
        },
        SocialStakingInstruction::RequestUnstake{ position_id, unlock_epoch } => {
            out.push(2u8);
            let ghost ot = out@;
            assert(ot =~= old(out)@ + seq![2u8]);
            write_arr::<32>(out, position_id);
            let ghost o0 = out@;
            write_u64(out, *unlock_epoch);
            let ghost o1 = out@;
            proof {
                lemma_assoc(ot, enc_arr::<32>((*position_id)), enc_u64((*unlock_epoch)));
            }
            proof {
                lemma_assoc(old(out)@, seq![2u8], enc_arr::<32>((*position_id)) + (enc_u64((*unlock_epoch))));
            }
        },
        SocialStakingInstruction::FinalizeUnstake{ position_id, current_epoch } => {
            out.push(3u8);
            let ghost ot = out@;
            assert(ot =~= old(out)@ + seq![3u8]);
            write_arr::<32>(out, position_id);
            let ghost o0 = out@;
            write_u64(out, *current_epoch);
            let ghost o1 = out@;
            proof {
                lemma_assoc(ot, enc_arr::<32>((*position_id)), enc_u64((*current_epoch)));
            }
            proof {
                lemma_assoc(old(out)@, seq![3u8], enc_arr::<32>((*position_id)) + (enc_u64((*current_epoch))));
            }
        },
        SocialStakingInstruction::RecordStakeYield{ record } => {
            out.push(4u8);
            let ghost ot = out@;
            assert(ot =~= old(out)@ + seq![4u8]);
            write_stake_yield_record(out, record);
            let ghost o0 = out@;
            proof {
            }
            proof {
                lemma_assoc(old(out)@, seq![4u8], enc_stake_yield_record((*record)));
            }
        },
        SocialStakingInstruction::ClaimStakeYield{ position_id, amount } => {
            out.push(5u8);
            let ghost ot = out@;
            assert(ot =~= old(out)@ + seq![5u8]);
            write_arr::<32>(out, position_id);
            let ghost o0 = out@;
            write_u64(out, *amount);
            let ghost o1 = out@;
            proof {
                lemma_assoc(ot, enc_arr::<32>((*position_id)), enc_u64((*amount)));
            }
            proof {
                lemma_assoc(old(out)@, seq![5u8], enc_arr::<32>((*position_id)) + (enc_u64((*amount))));
            }
        },
        SocialStakingInstruction::ReadPosition{ position_id } => {
            out.push(6u8);
            let ghost ot = out@;
            assert(ot =~= old(out)@ + seq![6u8]);
            write_opt_arr32(out, position_id);
            let ghost o0 = out@;
            proof {
            }
            proof {
                lemma_assoc(old(out)@, seq![6u8], enc_opt_arr32((*position_id)));
            }
        },
    }
    true
}

proof fn lemma_social_staking_instruction_initialize_config(state: SocialStakingStateAccountModel, rest: Seq<u8>)
    requires
        fits_social_staking_state_account(state),
    ensures
        dec_social_staking_instruction(enc_social_staking_instruction(SocialStakingInstructionModel::InitializeConfig{ state }) + rest) == Some((SocialStakingInstructionModel::InitializeConfig{ state }, rest)),
{
    reveal(enc_social_staking_instruction);
    reveal(dec_social_staking_instruction);
    assert((enc_social_staking_instruction(SocialStakingInstructionModel::InitializeConfig{ state }) + rest).skip(1) =~= (enc_social_staking_state_account(state)) + rest);
    lemma_social_staking_state_account(state, rest);
}

proof fn lemma_social_staking_instruction_open_position(position: SocialStakePosition, rest: Seq<u8>)
    ensures
        dec_social_staking_instruction(enc_social_staking_instruction(SocialStakingInstructionModel::OpenPosition{ position }) + rest) == Some((SocialStakingInstructionModel::OpenPosition{ position }, rest)),
{
    reveal(enc_social_staking_instruction);
    reveal(dec_social_staking_instruction);
    assert((enc_social_staking_instruction(SocialStakingInstructionModel::OpenPosition{ position }) + rest).skip(1) =~= (enc_social_stake_position(position)) + rest);
    lemma_social_stake_position(position, rest);
}

proof fn lemma_social_staking_instruction_request_unstake(position_id: [u8; 32], unlock_epoch: u64, rest: Seq<u8>)
    ensures
        dec_social_staking_instruction(enc_social_staking_instruction(SocialStakingInstructionModel::RequestUnstake{ position_id, unlock_epoch }) + rest) == Some((SocialStakingInstructionModel::RequestUnstake{ position_id, unlock_epoch }, rest)),
{
    reveal(enc_social_staking_instruction);
    reveal(dec_social_staking_instruction);
    assert((enc_social_staking_instruction(SocialStakingInstructionModel::RequestUnstake{ position_id, unlock_epoch }) + rest).skip(1) =~= (enc_arr::<32>(position_id) + (enc_u64(unlock_epoch))) + rest);
    lemma_assoc(enc_arr::<32>(position_id), enc_u64(unlock_epoch), rest);
    lemma_arr::<32>(position_id, enc_u64(unlock_epoch) + rest);
    lemma_u64(unlock_epoch, rest);
}

proof fn lemma_social_staking_instruction_finalize_unstake(position_id: [u8; 32], current_epoch: u64, rest: Seq<u8>)
    ensures
        dec_social_staking_instruction(enc_social_staking_instruction(SocialStakingInstructionModel::FinalizeUnstake{ position_id, current_epoch }) + rest) == Some((SocialStakingInstructionModel::FinalizeUnstake{ position_id, current_epoch }, rest)),
{
    reveal(enc_social_staking_instruction);
    reveal(dec_social_staking_instruction);
    assert((enc_social_staking_instruction(SocialStakingInstructionModel::FinalizeUnstake{ position_id, current_epoch }) + rest).skip(1) =~= (enc_arr::<32>(position_id) + (enc_u64(current_epoch))) + rest);
    lemma_assoc(enc_arr::<32>(position_id), enc_u64(current_epoch), rest);
    lemma_arr::<32>(position_id, enc_u64(current_epoch) + rest);
    lemma_u64(current_epoch, rest);
}

proof fn lemma_social_staking_instruction_record_stake_yield(record: StakeYieldRecord, rest: Seq<u8>)
    ensures
        dec_social_staking_instruction(enc_social_staking_instruction(SocialStakingInstructionModel::RecordStakeYield{ record }) + rest) == Some((SocialStakingInstructionModel::RecordStakeYield{ record }, rest)),
{
    reveal(enc_social_staking_instruction);
    reveal(dec_social_staking_instruction);
    assert((enc_social_staking_instruction(SocialStakingInstructionModel::RecordStakeYield{ record }) + rest).skip(1) =~= (enc_stake_yield_record(record)) + rest);
    lemma_stake_yield_record(record, rest);
}

proof fn lemma_social_staking_instruction_claim_stake_yield(position_id: [u8; 32], amount: u64, rest: Seq<u8>)
    ensures
        dec_social_staking_instruction(enc_social_staking_instruction(SocialStakingInstructionModel::ClaimStakeYield{ position_id, amount }) + rest) == Some((SocialStakingInstructionModel::ClaimStakeYield{ position_id, amount }, rest)),
{
    reveal(enc_social_staking_instruction);
    reveal(dec_social_staking_instruction);
    assert((enc_social_staking_instruction(SocialStakingInstructionModel::ClaimStakeYield{ position_id, amount }) + rest).skip(1) =~= (enc_arr::<32>(position_id) + (enc_u64(amount))) + rest);
    lemma_assoc(enc_arr::<32>(position_id), enc_u64(amount), rest);
    lemma_arr::<32>(position_id, enc_u64(amount) + rest);
    lemma_u64(amount, rest);
}

proof fn lemma_social_staking_instruction_read_position(position_id: Option<[u8; 32]>, rest: Seq<u8>)
    ensures
        dec_social_staking_instruction(enc_social_staking_instruction(SocialStakingInstructionModel::ReadPosition{ position_id }) + rest) == Some((SocialStakingInstructionModel::ReadPosition{ position_id }, rest)),
{
    reveal(enc_social_staking_instruction);
    reveal(dec_social_staking_instruction);
    assert((enc_social_staking_instruction(SocialStakingInstructionModel::ReadPosition{ position_id }) + rest).skip(1) =~= (enc_opt_arr32(position_id)) + rest);
    lemma_opt_arr32(position_id, rest);
}

pub proof fn lemma_social_staking_instruction(v: SocialStakingInstructionModel, rest: Seq<u8>)
    requires
        fits_social_staking_instruction(v),
    ensures
        dec_social_staking_instruction(enc_social_staking_instruction(v) + rest) == Some((v, rest)),
{
    reveal(enc_social_staking_instruction);
    reveal(dec_social_staking_instruction);
    match v {
        SocialStakingInstructionModel::InitializeConfig{ state } => lemma_social_staking_instruction_initialize_config(state, rest),
        SocialStakingInstructionModel::OpenPosition{ position } => lemma_social_staking_instruction_open_position(position, rest),
        SocialStakingInstructionModel::RequestUnstake{ position_id, unlock_epoch } => lemma_social_staking_instruction_request_unstake(position_id, unlock_epoch, rest),
        SocialStakingInstructionModel::FinalizeUnstake{ position_id, current_epoch } => lemma_social_staking_instruction_finalize_unstake(position_id, current_epoch, rest),
        SocialStakingInstructionModel::RecordStakeYield{ record } => lemma_social_staking_instruction_record_stake_yield(record, rest),
        SocialStakingInstructionModel::ClaimStakeYield{ position_id, amount } => lemma_social_staking_instruction_claim_stake_yield(position_id, amount, rest),
        SocialStakingInstructionModel::ReadPosition{ position_id } => lemma_social_staking_instruction_read_position(position_id, rest),
    }
}

/// Decodes a [`SocialStakingInstruction`] that must take up all of `d`.
pub fn social_staking_instruction_from_slice(d: &[u8]) -> (r: Option<SocialStakingInstruction>)
    ensures
        r is Some <==> (dec_social_staking_instruction(d@) matches Some((_, rest)) && rest.len() == 0),
        r matches Some(v) ==> dec_social_staking_instruction(d@) == Some((v@, Seq::<u8>::empty())),
{
    assert(d@.skip(0) =~= d@);
    match read_social_staking_instruction(d, 0) {
        None => None,
        Some((v, p)) => {
            if p == d.len() {
                assert(d@.skip(p as int) =~= Seq::<u8>::empty());
                Some(v)
            } else {
                None
            }
        },
    }
}

/// Decodes a [`SocialStakingInstruction`] from the front of `d`, ignoring what follows it.
pub fn social_staking_instruction_from_prefix(d: &[u8]) -> (r: Option<SocialStakingInstruction>)
    ensures
        r is Some <==> dec_social_staking_instruction(d@) is Some,
        r matches Some(v) ==> dec_social_staking_instruction(d@) matches Some((m, _)) && m == v@,
{
    assert(d@.skip(0) =~= d@);
    match read_social_staking_instruction(d, 0) {
        None => None,
        Some((v, _)) => Some(v),
    }
}

/// Serialises a [`SocialStakingInstruction`]; `None` when a length does not fit the `u32` prefix.
pub fn social_staking_instruction_to_vec(v: &SocialStakingInstruction) -> (r: Option<Vec<u8>>)
    ensures
        r is Some <==> fits_social_staking_instruction(v@),
        r matches Some(b) ==> b@ == enc_social_staking_instruction(v@),
{
    let mut out: Vec<u8> = Vec::new();
    if write_social_staking_instruction(&mut out, v) {
        assert(out@ =~= enc_social_staking_instruction(v@));
        Some(out)
    } else {
        None
    }
}

} // verus!
