//! Data types and their byte layout.
use vstd::prelude::*;
use crate::codec::{dec_bool, dec_pubkey, dec_string, dec_u128, dec_u8, enc_bool, enc_pubkey, enc_string, enc_u128, enc_u8, fits_string, lemma_assoc, lemma_bool, lemma_pubkey, lemma_skip_skip, lemma_string, lemma_u128, lemma_u8, read_bool, read_ok, read_pubkey, read_string, read_u128, read_u8, write_bool, write_pubkey, write_string, write_u128, write_u8};
use crate::layout::{dec_opt_pubkey, dec_opt_string, dec_opt_u128, dec_opt_u64, dec_opt_u8, enc_opt_pubkey, enc_opt_string, enc_opt_u128, enc_opt_u64, enc_opt_u8, fits_opt_string, lemma_opt_pubkey, lemma_opt_string, lemma_opt_u128, lemma_opt_u64, lemma_opt_u8, model_opt_string, read_opt_pubkey, read_opt_string, read_opt_u128, read_opt_u64, read_opt_u8, write_opt_pubkey, write_opt_string, write_opt_u128, write_opt_u64, write_opt_u8};
use crate::pubkey::{Pubkey};

verus! {

/// Custom error codes of the token-20 program.
#[derive(Clone, Copy, Debug, PartialEq, Eq, Structural)]
pub enum Token20Error {
    AlreadyInitialized,
    UninitializedState,
    InvalidMintAuthority,
    InvalidTokenOwner,
    InsufficientBalance,
    AllowanceExceeded,
    AccountFrozen,
}

impl Token20Error {
    /// The custom error code carried by this error.
    pub open spec fn spec_code(self) -> u32 {
        match self {
            Token20Error::AlreadyInitialized => 45057,
            Token20Error::UninitializedState => 45058,
            Token20Error::InvalidMintAuthority => 45059,
            Token20Error::InvalidTokenOwner => 45060,
            Token20Error::InsufficientBalance => 45061,
            Token20Error::AllowanceExceeded => 45062,
            Token20Error::AccountFrozen => 45063,
        }
    }

    pub fn code(self) -> (c: u32)
        ensures
            c == self.spec_code(),
    {
        match self {
            Token20Error::AlreadyInitialized => 45057,
            Token20Error::UninitializedState => 45058,
            Token20Error::InvalidMintAuthority => 45059,
            Token20Error::InvalidTokenOwner => 45060,
            Token20Error::InsufficientBalance => 45061,
            Token20Error::AllowanceExceeded => 45062,
            Token20Error::AccountFrozen => 45063,
        }
    }
}

/// Who may mint new supply.
#[derive(Clone, Copy, Debug, PartialEq, Eq, Structural)]
pub enum MintPolicy {
    FixedSupply,
    AuthorityGated,
    EmissionsControlled,
    PublicMintControlled,
}

#[verifier::opaque]
pub open spec fn enc_mint_policy(v: MintPolicy) -> Seq<u8> {
    match v {
        MintPolicy::FixedSupply => seq![0u8],
        MintPolicy::AuthorityGated => seq![1u8],
        MintPolicy::EmissionsControlled => seq![2u8],
        MintPolicy::PublicMintControlled => seq![3u8],
    }
}

#[verifier::opaque]
pub open spec fn dec_mint_policy(s: Seq<u8>) -> Option<(MintPolicy, Seq<u8>)> {
    if s.len() == 0 {
        None
    } else if s[0] == 0 {
        Some((MintPolicy::FixedSupply, s.skip(1)))
    } else if s[0] == 1 {
        Some((MintPolicy::AuthorityGated, s.skip(1)))
    } else if s[0] == 2 {
        Some((MintPolicy::EmissionsControlled, s.skip(1)))
    } else if s[0] == 3 {
        Some((MintPolicy::PublicMintControlled, s.skip(1)))
    } else { None }
}

pub fn read_mint_policy(d: &[u8], pos: usize) -> (r: Option<(MintPolicy, usize)>)
    requires
        pos <= d@.len(),
    ensures
        read_ok(dec_mint_policy(d@.skip(pos as int)), r, d@),
{
    proof {
        reveal(dec_mint_policy);
    }
    match read_u8(d, pos) {
        None => None,
        Some((tag, p0)) => {
            proof {
                lemma_skip_skip(d@, pos as int, 1);
            }
            match tag {
            0 => Some((MintPolicy::FixedSupply, p0)),
            1 => Some((MintPolicy::AuthorityGated, p0)),
            2 => Some((MintPolicy::EmissionsControlled, p0)),
            3 => Some((MintPolicy::PublicMintControlled, p0)),
            _ => None,
            }
        },
    }
}

pub fn write_mint_policy(out: &mut Vec<u8>, v: &MintPolicy)
    ensures
        final(out)@ == old(out)@ + enc_mint_policy(*v),
{
    proof {
        reveal(enc_mint_policy);
    }
    match v {
        MintPolicy::FixedSupply => {
            out.push(0u8);
            assert(out@ =~= old(out)@ + seq![0u8]);
        },
        MintPolicy::AuthorityGated => {
            out.push(1u8);
            assert(out@ =~= old(out)@ + seq![1u8]);
        },
        MintPolicy::EmissionsControlled => {
            out.push(2u8);
            assert(out@ =~= old(out)@ + seq![2u8]);
        },
        MintPolicy::PublicMintControlled => {
            out.push(3u8);
            assert(out@ =~= old(out)@ + seq![3u8]);
        },
    }
}

pub proof fn lemma_mint_policy(v: MintPolicy, rest: Seq<u8>)
    ensures
        dec_mint_policy(enc_mint_policy(v) + rest) == Some((v, rest)),
{
    reveal(enc_mint_policy);
    reveal(dec_mint_policy);
    match v {
        MintPolicy::FixedSupply => {
            assert((enc_mint_policy(v) + rest).skip(1) =~= rest);
        },
        MintPolicy::AuthorityGated => {
            assert((enc_mint_policy(v) + rest).skip(1) =~= rest);
        },
        MintPolicy::EmissionsControlled => {
            assert((enc_mint_policy(v) + rest).skip(1) =~= rest);
        },
        MintPolicy::PublicMintControlled => {
            assert((enc_mint_policy(v) + rest).skip(1) =~= rest);
        },
    }
}

/// A fungible token mint.
#[derive(Clone, Debug, PartialEq, Eq)]
pub struct Aeko20Mint {
    pub mint_authority: Option<Pubkey>,
    pub freeze_authority: Option<Pubkey>,
    pub name: String,
    pub symbol: String,
    pub decimals: u8,
    pub total_supply: u128,
    pub supply_cap: Option<u128>,
    pub metadata_uri: Option<String>,
    pub transfer_hook_program_id: Option<Pubkey>,
    pub required_clearance: Option<u8>,
    pub mint_policy: MintPolicy,
    pub is_initialized: bool,
}

/// Mathematical model of [`Aeko20Mint`].
#[verifier::ext_equal]
pub struct Aeko20MintModel {
    pub mint_authority: Option<Pubkey>,
    pub freeze_authority: Option<Pubkey>,
    pub name: Seq<char>,
    pub symbol: Seq<char>,
    pub decimals: u8,
    pub total_supply: u128,
    pub supply_cap: Option<u128>,
    pub metadata_uri: Option<Seq<char>>,
    pub transfer_hook_program_id: Option<Pubkey>,
    pub required_clearance: Option<u8>,
    pub mint_policy: MintPolicy,
    pub is_initialized: bool,
}

impl View for Aeko20Mint {
    type V = Aeko20MintModel;

    open spec fn view(&self) -> Aeko20MintModel {
        Aeko20MintModel {
            mint_authority: self.mint_authority,
            freeze_authority: self.freeze_authority,
            name: self.name@,
            symbol: self.symbol@,
            decimals: self.decimals,
            total_supply: self.total_supply,
            supply_cap: self.supply_cap,
            metadata_uri: model_opt_string(self.metadata_uri),
            transfer_hook_program_id: self.transfer_hook_program_id,
            required_clearance: self.required_clearance,
            mint_policy: self.mint_policy,
            is_initialized: self.is_initialized,
        }
    }
}

#[verifier::opaque]
pub open spec fn enc_aeko20_mint(v: Aeko20MintModel) -> Seq<u8> {
    enc_opt_pubkey(v.mint_authority) + (enc_opt_pubkey(v.freeze_authority) + (enc_string(v.name) + (enc_string(v.symbol) + (enc_u8(v.decimals) + (enc_u128(v.total_supply) + (enc_opt_u128(v.supply_cap) + (enc_opt_string(v.metadata_uri) + (enc_opt_pubkey(v.transfer_hook_program_id) + (enc_opt_u8(v.required_clearance) + (enc_mint_policy(v.mint_policy) + (enc_bool(v.is_initialized))))))))))))
}

#[verifier::opaque]
pub open spec fn dec_aeko20_mint(s: Seq<u8>) -> Option<(Aeko20MintModel, Seq<u8>)> {
    match dec_opt_pubkey(s) {
            Some((mint_authority, r1)) => match dec_opt_pubkey(r1) {
            Some((freeze_authority, r2)) => match dec_string(r2) {
            Some((name, r3)) => match dec_string(r3) {
            Some((symbol, r4)) => match dec_u8(r4) {
            Some((decimals, r5)) => match dec_u128(r5) {
            Some((total_supply, r6)) => match dec_opt_u128(r6) {
            Some((supply_cap, r7)) => match dec_opt_string(r7) {
            Some((metadata_uri, r8)) => match dec_opt_pubkey(r8) {
            Some((transfer_hook_program_id, r9)) => match dec_opt_u8(r9) {
            Some((required_clearance, r10)) => match dec_mint_policy(r10) {
            Some((mint_policy, r11)) => match dec_bool(r11) {
            Some((is_initialized, r12)) => Some((Aeko20MintModel { mint_authority, freeze_authority, name, symbol, decimals, total_supply, supply_cap, metadata_uri, transfer_hook_program_id, required_clearance, mint_policy, is_initialized }, r12)),
            None => None,
        },
            None => None,
        },
            None => None,
        },
            None => None,
        },
            None => None,
        },
            None => None,
        },
            None => None,
        },
            None => None,
        },
            None => None,
        },
            None => None,
        },
            None => None,
        },
            None => None,
        }
}

pub open spec fn fits_aeko20_mint(v: Aeko20MintModel) -> bool {
    fits_string(v.name) && fits_string(v.symbol) && fits_opt_string(v.metadata_uri)
}

pub fn read_aeko20_mint(d: &[u8], pos: usize) -> (r: Option<(Aeko20Mint, usize)>)
    requires
        pos <= d@.len(),
    ensures
        match r {
            None => dec_aeko20_mint(d@.skip(pos as int)) is None,
            Some((v, p)) => p <= d@.len() && dec_aeko20_mint(d@.skip(pos as int)) == Some((v@, d@.skip(p as int))),
        },
{
    proof {
        reveal(dec_aeko20_mint);
    }
    match read_opt_pubkey(d, pos) {
        None => None,
        Some((mint_authority, p1)) => match read_opt_pubkey(d, p1) {
        None => None,
        Some((freeze_authority, p2)) => match read_string(d, p2) {
        None => None,
        Some((name, p3)) => match read_string(d, p3) {
        None => None,
        Some((symbol, p4)) => match read_u8(d, p4) {
        None => None,
        Some((decimals, p5)) => match read_u128(d, p5) {
        None => None,
        Some((total_supply, p6)) => match read_opt_u128(d, p6) {
        None => None,
        Some((supply_cap, p7)) => match read_opt_string(d, p7) {
        None => None,
        Some((metadata_uri, p8)) => match read_opt_pubkey(d, p8) {
        None => None,
        Some((transfer_hook_program_id, p9)) => match read_opt_u8(d, p9) {
        None => None,
        Some((required_clearance, p10)) => match read_mint_policy(d, p10) {
        None => None,
        Some((mint_policy, p11)) => match read_bool(d, p11) {
        None => None,
        Some((is_initialized, p12)) => Some((Aeko20Mint { mint_authority, freeze_authority, name, symbol, decimals, total_supply, supply_cap, metadata_uri, transfer_hook_program_id, required_clearance, mint_policy, is_initialized }, p12)),
    },
    },
    },
    },
    },
    },
    },
    },
    },
    },
    },
    }
}

pub fn write_aeko20_mint(out: &mut Vec<u8>, v: &Aeko20Mint) -> (ok: bool)
    ensures
        ok == fits_aeko20_mint(v@),
        ok ==> final(out)@ == old(out)@ + enc_aeko20_mint(v@),
{
    proof {
        reveal(enc_aeko20_mint);
    }
    write_opt_pubkey(out, &v.mint_authority);
    let ghost o0 = out@;
    write_opt_pubkey(out, &v.freeze_authority);
    let ghost o1 = out@;
    if !write_string(out, &v.name) { return false; }
    let ghost o2 = out@;
    if !write_string(out, &v.symbol) { return false; }
    let ghost o3 = out@;
    write_u8(out, *&v.decimals);
    let ghost o4 = out@;
    write_u128(out, *&v.total_supply);
    let ghost o5 = out@;
    write_opt_u128(out, &v.supply_cap);
    let ghost o6 = out@;
    if !write_opt_string(out, &v.metadata_uri) { return false; }
    let ghost o7 = out@;
    write_opt_pubkey(out, &v.transfer_hook_program_id);
    let ghost o8 = out@;
    write_opt_u8(out, &v.required_clearance);
    let ghost o9 = out@;
    write_mint_policy(out, &v.mint_policy);
    let ghost o10 = out@;
    write_bool(out, *&v.is_initialized);
    let ghost o11 = out@;
    proof {
        lemma_assoc(o9, enc_mint_policy(v@.mint_policy), enc_bool(v@.is_initialized));
        lemma_assoc(o8, enc_opt_u8(v@.required_clearance), enc_mint_policy(v@.mint_policy) + (enc_bool(v@.is_initialized)));
        lemma_assoc(o7, enc_opt_pubkey(v@.transfer_hook_program_id), enc_opt_u8(v@.required_clearance) + (enc_mint_policy(v@.mint_policy) + (enc_bool(v@.is_initialized))));
        lemma_assoc(o6, enc_opt_string(v@.metadata_uri), enc_opt_pubkey(v@.transfer_hook_program_id) + (enc_opt_u8(v@.required_clearance) + (enc_mint_policy(v@.mint_policy) + (enc_bool(v@.is_initialized)))));
        lemma_assoc(o5, enc_opt_u128(v@.supply_cap), enc_opt_string(v@.metadata_uri) + (enc_opt_pubkey(v@.transfer_hook_program_id) + (enc_opt_u8(v@.required_clearance) + (enc_mint_policy(v@.mint_policy) + (enc_bool(v@.is_initialized))))));
        lemma_assoc(o4, enc_u128(v@.total_supply), enc_opt_u128(v@.supply_cap) + (enc_opt_string(v@.metadata_uri) + (enc_opt_pubkey(v@.transfer_hook_program_id) + (enc_opt_u8(v@.required_clearance) + (enc_mint_policy(v@.mint_policy) + (enc_bool(v@.is_initialized)))))));
        lemma_assoc(o3, enc_u8(v@.decimals), enc_u128(v@.total_supply) + (enc_opt_u128(v@.supply_cap) + (enc_opt_string(v@.metadata_uri) + (enc_opt_pubkey(v@.transfer_hook_program_id) + (enc_opt_u8(v@.required_clearance) + (enc_mint_policy(v@.mint_policy) + (enc_bool(v@.is_initialized))))))));
        lemma_assoc(o2, enc_string(v@.symbol), enc_u8(v@.decimals) + (enc_u128(v@.total_supply) + (enc_opt_u128(v@.supply_cap) + (enc_opt_string(v@.metadata_uri) + (enc_opt_pubkey(v@.transfer_hook_program_id) + (enc_opt_u8(v@.required_clearance) + (enc_mint_policy(v@.mint_policy) + (enc_bool(v@.is_initialized)))))))));
        lemma_assoc(o1, enc_string(v@.name), enc_string(v@.symbol) + (enc_u8(v@.decimals) + (enc_u128(v@.total_supply) + (enc_opt_u128(v@.supply_cap) + (enc_opt_string(v@.metadata_uri) + (enc_opt_pubkey(v@.transfer_hook_program_id) + (enc_opt_u8(v@.required_clearance) + (enc_mint_policy(v@.mint_policy) + (enc_bool(v@.is_initialized))))))))));
        lemma_assoc(o0, enc_opt_pubkey(v@.freeze_authority), enc_string(v@.name) + (enc_string(v@.symbol) + (enc_u8(v@.decimals) + (enc_u128(v@.total_supply) + (enc_opt_u128(v@.supply_cap) + (enc_opt_string(v@.metadata_uri) + (enc_opt_pubkey(v@.transfer_hook_program_id) + (enc_opt_u8(v@.required_clearance) + (enc_mint_policy(v@.mint_policy) + (enc_bool(v@.is_initialized)))))))))));
        lemma_assoc(old(out)@, enc_opt_pubkey(v@.mint_authority), enc_opt_pubkey(v@.freeze_authority) + (enc_string(v@.name) + (enc_string(v@.symbol) + (enc_u8(v@.decimals) + (enc_u128(v@.total_supply) + (enc_opt_u128(v@.supply_cap) + (enc_opt_string(v@.metadata_uri) + (enc_opt_pubkey(v@.transfer_hook_program_id) + (enc_opt_u8(v@.required_clearance) + (enc_mint_policy(v@.mint_policy) + (enc_bool(v@.is_initialized))))))))))));
    }
    true
}

pub proof fn lemma_aeko20_mint(v: Aeko20MintModel, rest: Seq<u8>)
    requires
        fits_aeko20_mint(v),
    ensures
        dec_aeko20_mint(enc_aeko20_mint(v) + rest) == Some((v, rest)),
{
    reveal(enc_aeko20_mint);
    reveal(dec_aeko20_mint);
    lemma_assoc(enc_opt_pubkey(v.mint_authority), enc_opt_pubkey(v.freeze_authority) + (enc_string(v.name) + (enc_string(v.symbol) + (enc_u8(v.decimals) + (enc_u128(v.total_supply) + (enc_opt_u128(v.supply_cap) + (enc_opt_string(v.metadata_uri) + (enc_opt_pubkey(v.transfer_hook_program_id) + (enc_opt_u8(v.required_clearance) + (enc_mint_policy(v.mint_policy) + (enc_bool(v.is_initialized))))))))))), rest);
    lemma_opt_pubkey(v.mint_authority, enc_opt_pubkey(v.freeze_authority) + (enc_string(v.name) + (enc_string(v.symbol) + (enc_u8(v.decimals) + (enc_u128(v.total_supply) + (enc_opt_u128(v.supply_cap) + (enc_opt_string(v.metadata_uri) + (enc_opt_pubkey(v.transfer_hook_program_id) + (enc_opt_u8(v.required_clearance) + (enc_mint_policy(v.mint_policy) + (enc_bool(v.is_initialized))))))))))) + rest);
    lemma_assoc(enc_opt_pubkey(v.freeze_authority), enc_string(v.name) + (enc_string(v.symbol) + (enc_u8(v.decimals) + (enc_u128(v.total_supply) + (enc_opt_u128(v.supply_cap) + (enc_opt_string(v.metadata_uri) + (enc_opt_pubkey(v.transfer_hook_program_id) + (enc_opt_u8(v.required_clearance) + (enc_mint_policy(v.mint_policy) + (enc_bool(v.is_initialized)))))))))), rest);
    lemma_opt_pubkey(v.freeze_authority, enc_string(v.name) + (enc_string(v.symbol) + (enc_u8(v.decimals) + (enc_u128(v.total_supply) + (enc_opt_u128(v.supply_cap) + (enc_opt_string(v.metadata_uri) + (enc_opt_pubkey(v.transfer_hook_program_id) + (enc_opt_u8(v.required_clearance) + (enc_mint_policy(v.mint_policy) + (enc_bool(v.is_initialized)))))))))) + rest);
    lemma_assoc(enc_string(v.name), enc_string(v.symbol) + (enc_u8(v.decimals) + (enc_u128(v.total_supply) + (enc_opt_u128(v.supply_cap) + (enc_opt_string(v.metadata_uri) + (enc_opt_pubkey(v.transfer_hook_program_id) + (enc_opt_u8(v.required_clearance) + (enc_mint_policy(v.mint_policy) + (enc_bool(v.is_initialized))))))))), rest);
    lemma_string(v.name, enc_string(v.symbol) + (enc_u8(v.decimals) + (enc_u128(v.total_supply) + (enc_opt_u128(v.supply_cap) + (enc_opt_string(v.metadata_uri) + (enc_opt_pubkey(v.transfer_hook_program_id) + (enc_opt_u8(v.required_clearance) + (enc_mint_policy(v.mint_policy) + (enc_bool(v.is_initialized))))))))) + rest);
    lemma_assoc(enc_string(v.symbol), enc_u8(v.decimals) + (enc_u128(v.total_supply) + (enc_opt_u128(v.supply_cap) + (enc_opt_string(v.metadata_uri) + (enc_opt_pubkey(v.transfer_hook_program_id) + (enc_opt_u8(v.required_clearance) + (enc_mint_policy(v.mint_policy) + (enc_bool(v.is_initialized)))))))), rest);
    lemma_string(v.symbol, enc_u8(v.decimals) + (enc_u128(v.total_supply) + (enc_opt_u128(v.supply_cap) + (enc_opt_string(v.metadata_uri) + (enc_opt_pubkey(v.transfer_hook_program_id) + (enc_opt_u8(v.required_clearance) + (enc_mint_policy(v.mint_policy) + (enc_bool(v.is_initialized)))))))) + rest);
    lemma_assoc(enc_u8(v.decimals), enc_u128(v.total_supply) + (enc_opt_u128(v.supply_cap) + (enc_opt_string(v.metadata_uri) + (enc_opt_pubkey(v.transfer_hook_program_id) + (enc_opt_u8(v.required_clearance) + (enc_mint_policy(v.mint_policy) + (enc_bool(v.is_initialized))))))), rest);
    lemma_u8(v.decimals, enc_u128(v.total_supply) + (enc_opt_u128(v.supply_cap) + (enc_opt_string(v.metadata_uri) + (enc_opt_pubkey(v.transfer_hook_program_id) + (enc_opt_u8(v.required_clearance) + (enc_mint_policy(v.mint_policy) + (enc_bool(v.is_initialized))))))) + rest);
    lemma_assoc(enc_u128(v.total_supply), enc_opt_u128(v.supply_cap) + (enc_opt_string(v.metadata_uri) + (enc_opt_pubkey(v.transfer_hook_program_id) + (enc_opt_u8(v.required_clearance) + (enc_mint_policy(v.mint_policy) + (enc_bool(v.is_initialized)))))), rest);
    lemma_u128(v.total_supply, enc_opt_u128(v.supply_cap) + (enc_opt_string(v.metadata_uri) + (enc_opt_pubkey(v.transfer_hook_program_id) + (enc_opt_u8(v.required_clearance) + (enc_mint_policy(v.mint_policy) + (enc_bool(v.is_initialized)))))) + rest);
    lemma_assoc(enc_opt_u128(v.supply_cap), enc_opt_string(v.metadata_uri) + (enc_opt_pubkey(v.transfer_hook_program_id) + (enc_opt_u8(v.required_clearance) + (enc_mint_policy(v.mint_policy) + (enc_bool(v.is_initialized))))), rest);
    lemma_opt_u128(v.supply_cap, enc_opt_string(v.metadata_uri) + (enc_opt_pubkey(v.transfer_hook_program_id) + (enc_opt_u8(v.required_clearance) + (enc_mint_policy(v.mint_policy) + (enc_bool(v.is_initialized))))) + rest);
    lemma_assoc(enc_opt_string(v.metadata_uri), enc_opt_pubkey(v.transfer_hook_program_id) + (enc_opt_u8(v.required_clearance) + (enc_mint_policy(v.mint_policy) + (enc_bool(v.is_initialized)))), rest);
    lemma_opt_string(v.metadata_uri, enc_opt_pubkey(v.transfer_hook_program_id) + (enc_opt_u8(v.required_clearance) + (enc_mint_policy(v.mint_policy) + (enc_bool(v.is_initialized)))) + rest);
    lemma_assoc(enc_opt_pubkey(v.transfer_hook_program_id), enc_opt_u8(v.required_clearance) + (enc_mint_policy(v.mint_policy) + (enc_bool(v.is_initialized))), rest);
    lemma_opt_pubkey(v.transfer_hook_program_id, enc_opt_u8(v.required_clearance) + (enc_mint_policy(v.mint_policy) + (enc_bool(v.is_initialized))) + rest);
    lemma_assoc(enc_opt_u8(v.required_clearance), enc_mint_policy(v.mint_policy) + (enc_bool(v.is_initialized)), rest);
    lemma_opt_u8(v.required_clearance, enc_mint_policy(v.mint_policy) + (enc_bool(v.is_initialized)) + rest);
    lemma_assoc(enc_mint_policy(v.mint_policy), enc_bool(v.is_initialized), rest);
    lemma_mint_policy(v.mint_policy, enc_bool(v.is_initialized) + rest);
    lemma_bool(v.is_initialized, rest);
}

/// Decodes a [`Aeko20Mint`] that must take up all of `d`.
pub fn aeko20_mint_from_slice(d: &[u8]) -> (r: Option<Aeko20Mint>)
    ensures
        r is Some <==> (dec_aeko20_mint(d@) matches Some((_, rest)) && rest.len() == 0),
        r matches Some(v) ==> dec_aeko20_mint(d@) == Some((v@, Seq::<u8>::empty())),
{
    assert(d@.skip(0) =~= d@);
    match read_aeko20_mint(d, 0) {
        None => None,
        Some((v, p)) => {
            if p == d.len() {
                assert(d@.skip(p as int) =~= Seq::<u8>::empty());
                Some(v)
            } else {
                None
            }
        },
    }
}

/// Decodes a [`Aeko20Mint`] from the front of `d`, ignoring what follows it.
pub fn aeko20_mint_from_prefix(d: &[u8]) -> (r: Option<Aeko20Mint>)
    ensures
        r is Some <==> dec_aeko20_mint(d@) is Some,
        r matches Some(v) ==> dec_aeko20_mint(d@) matches Some((m, _)) && m == v@,
{
    assert(d@.skip(0) =~= d@);
    match read_aeko20_mint(d, 0) {
        None => None,
        Some((v, _)) => Some(v),
    }
}

/// Serialises a [`Aeko20Mint`]; `None` when a length does not fit the `u32` prefix.
pub fn aeko20_mint_to_vec(v: &Aeko20Mint) -> (r: Option<Vec<u8>>)
    ensures
        r is Some <==> fits_aeko20_mint(v@),
        r matches Some(b) ==> b@ == enc_aeko20_mint(v@),
{
    let mut out: Vec<u8> = Vec::new();
    if write_aeko20_mint(&mut out, v) {
        assert(out@ =~= enc_aeko20_mint(v@));
        Some(out)
    } else {
        None
    }
}

/// A token balance held by one owner.
#[derive(Clone, Copy, Debug, PartialEq, Eq)]
pub struct Aeko20Account {
    pub owner: Pubkey,
    pub mint: Pubkey,
    pub balance: u128,
    pub frozen: bool,
}

#[verifier::opaque]
pub open spec fn enc_aeko20_account(v: Aeko20Account) -> Seq<u8> {
    enc_pubkey(v.owner) + (enc_pubkey(v.mint) + (enc_u128(v.balance) + (enc_bool(v.frozen))))
}

#[verifier::opaque]
pub open spec fn dec_aeko20_account(s: Seq<u8>) -> Option<(Aeko20Account, Seq<u8>)> {
    match dec_pubkey(s) {
            Some((owner, r1)) => match dec_pubkey(r1) {
            Some((mint, r2)) => match dec_u128(r2) {
            Some((balance, r3)) => match dec_bool(r3) {
            Some((frozen, r4)) => Some((Aeko20Account { owner, mint, balance, frozen }, r4)),
            None => None,
        },
            None => None,
        },
            None => None,
        },
            None => None,
        }
}

pub fn read_aeko20_account(d: &[u8], pos: usize) -> (r: Option<(Aeko20Account, usize)>)
    requires
        pos <= d@.len(),
    ensures
        read_ok(dec_aeko20_account(d@.skip(pos as int)), r, d@),
{
    proof {
        reveal(dec_aeko20_account);
    }
    match read_pubkey(d, pos) {
        None => None,
        Some((owner, p1)) => match read_pubkey(d, p1) {
        None => None,
        Some((mint, p2)) => match read_u128(d, p2) {
        None => None,
        Some((balance, p3)) => match read_bool(d, p3) {
        None => None,
        Some((frozen, p4)) => Some((Aeko20Account { owner, mint, balance, frozen }, p4)),
    },
    },
    },
    }
}

pub fn write_aeko20_account(out: &mut Vec<u8>, v: &Aeko20Account)
    ensures
        final(out)@ == old(out)@ + enc_aeko20_account(*v),
{
    proof {
        reveal(enc_aeko20_account);
    }
    write_pubkey(out, &v.owner);
    let ghost o0 = out@;
    write_pubkey(out, &v.mint);
    let ghost o1 = out@;
    write_u128(out, *&v.balance);
    let ghost o2 = out@;
    write_bool(out, *&v.frozen);
    let ghost o3 = out@;
    proof {
        lemma_assoc(o1, enc_u128((*v).balance), enc_bool((*v).frozen));
        lemma_assoc(o0, enc_pubkey((*v).mint), enc_u128((*v).balance) + (enc_bool((*v).frozen)));
        lemma_assoc(old(out)@, enc_pubkey((*v).owner), enc_pubkey((*v).mint) + (enc_u128((*v).balance) + (enc_bool((*v).frozen))));
    }
}

pub proof fn lemma_aeko20_account(v: Aeko20Account, rest: Seq<u8>)
    ensures
        dec_aeko20_account(enc_aeko20_account(v) + rest) == Some((v, rest)),
{
    reveal(enc_aeko20_account);
    reveal(dec_aeko20_account);
    lemma_assoc(enc_pubkey(v.owner), enc_pubkey(v.mint) + (enc_u128(v.balance) + (enc_bool(v.frozen))), rest);
    lemma_pubkey(v.owner, enc_pubkey(v.mint) + (enc_u128(v.balance) + (enc_bool(v.frozen))) + rest);
    lemma_assoc(enc_pubkey(v.mint), enc_u128(v.balance) + (enc_bool(v.frozen)), rest);
    lemma_pubkey(v.mint, enc_u128(v.balance) + (enc_bool(v.frozen)) + rest);
    lemma_assoc(enc_u128(v.balance), enc_bool(v.frozen), rest);
    lemma_u128(v.balance, enc_bool(v.frozen) + rest);
    lemma_bool(v.frozen, rest);
}

/// Decodes a [`Aeko20Account`] that must take up all of `d`.
pub fn aeko20_account_from_slice(d: &[u8]) -> (r: Option<Aeko20Account>)
    ensures
        r is Some <==> (dec_aeko20_account(d@) matches Some((_, rest)) && rest.len() == 0),
        r matches Some(v) ==> dec_aeko20_account(d@) == Some((v, Seq::<u8>::empty())),
{
    assert(d@.skip(0) =~= d@);
    match read_aeko20_account(d, 0) {
        None => None,
        Some((v, p)) => {
            if p == d.len() {
                assert(d@.skip(p as int) =~= Seq::<u8>::empty());
                Some(v)
            } else {
                None
            }
        },
    }
}

/// Decodes a [`Aeko20Account`] from the front of `d`, ignoring what follows it.
pub fn aeko20_account_from_prefix(d: &[u8]) -> (r: Option<Aeko20Account>)
    ensures
        r is Some <==> dec_aeko20_account(d@) is Some,
        r matches Some(v) ==> dec_aeko20_account(d@) matches Some((m, _)) && m == v,
{
    assert(d@.skip(0) =~= d@);
    match read_aeko20_account(d, 0) {
        None => None,
        Some((v, _)) => Some(v),
    }
}

/// Serialises a [`Aeko20Account`].
pub fn aeko20_account_to_vec(v: &Aeko20Account) -> (r: Vec<u8>)
    ensures
        r@ == enc_aeko20_account(*v),
{
    let mut out: Vec<u8> = Vec::new();
    write_aeko20_account(&mut out, v);
    assert(out@ =~= enc_aeko20_account(*v));
    out
}

/// An allowance granted by an owner to a spender.
#[derive(Clone, Copy, Debug, PartialEq, Eq)]
pub struct AllowanceRecord {
    pub owner: Pubkey,
    pub spender: Pubkey,
    pub mint: Pubkey,
    pub amount: u128,
    pub expires_at_epoch: Option<u64>,
}

#[verifier::opaque]
pub open spec fn enc_allowance_record(v: AllowanceRecord) -> Seq<u8> {
    enc_pubkey(v.owner) + (enc_pubkey(v.spender) + (enc_pubkey(v.mint) + (enc_u128(v.amount) + (enc_opt_u64(v.expires_at_epoch)))))
}

#[verifier::opaque]
pub open spec fn dec_allowance_record(s: Seq<u8>) -> Option<(AllowanceRecord, Seq<u8>)> {
    match dec_pubkey(s) {
            Some((owner, r1)) => match dec_pubkey(r1) {
            Some((spender, r2)) => match dec_pubkey(r2) {
            Some((mint, r3)) => match dec_u128(r3) {
            Some((amount, r4)) => match dec_opt_u64(r4) {
            Some((expires_at_epoch, r5)) => Some((AllowanceRecord { owner, spender, mint, amount, expires_at_epoch }, r5)),
            None => None,
        },
            None => None,
        },
            None => None,
        },
            None => None,
        },
            None => None,
        }
}

pub fn read_allowance_record(d: &[u8], pos: usize) -> (r: Option<(AllowanceRecord, usize)>)
    requires
        pos <= d@.len(),
    ensures
        read_ok(dec_allowance_record(d@.skip(pos as int)), r, d@),
{
    proof {
        reveal(dec_allowance_record);
    }
    match read_pubkey(d, pos) {
        None => None,
        Some((owner, p1)) => match read_pubkey(d, p1) {
        None => None,
        Some((spender, p2)) => match read_pubkey(d, p2) {
        None => None,
        Some((mint, p3)) => match read_u128(d, p3) {
        None => None,
        Some((amount, p4)) => match read_opt_u64(d, p4) {
        None => None,
        Some((expires_at_epoch, p5)) => Some((AllowanceRecord { owner, spender, mint, amount, expires_at_epoch }, p5)),
    },
    },
    },
    },
    }
}

pub fn write_allowance_record(out: &mut Vec<u8>, v: &AllowanceRecord)
    ensures
        final(out)@ == old(out)@ + enc_allowance_record(*v),
{
    proof {
        reveal(enc_allowance_record);
    }
    write_pubkey(out, &v.owner);
    let ghost o0 = out@;
    write_pubkey(out, &v.spender);
    let ghost o1 = out@;
    write_pubkey(out, &v.mint);
    let ghost o2 = out@;
    write_u128(out, *&v.amount);
    let ghost o3 = out@;
    write_opt_u64(out, &v.expires_at_epoch);
    let ghost o4 = out@;
    proof {
        lemma_assoc(o2, enc_u128((*v).amount), enc_opt_u64((*v).expires_at_epoch));
        lemma_assoc(o1, enc_pubkey((*v).mint), enc_u128((*v).amount) + (enc_opt_u64((*v).expires_at_epoch)));
        lemma_assoc(o0, enc_pubkey((*v).spender), enc_pubkey((*v).mint) + (enc_u128((*v).amount) + (enc_opt_u64((*v).expires_at_epoch))));
        lemma_assoc(old(out)@, enc_pubkey((*v).owner), enc_pubkey((*v).spender) + (enc_pubkey((*v).mint) + (enc_u128((*v).amount) + (enc_opt_u64((*v).expires_at_epoch)))));
    }
}

pub proof fn lemma_allowance_record(v: AllowanceRecord, rest: Seq<u8>)
    ensures
        dec_allowance_record(enc_allowance_record(v) + rest) == Some((v, rest)),
{
    reveal(enc_allowance_record);
    reveal(dec_allowance_record);
    lemma_assoc(enc_pubkey(v.owner), enc_pubkey(v.spender) + (enc_pubkey(v.mint) + (enc_u128(v.amount) + (enc_opt_u64(v.expires_at_epoch)))), rest);
    lemma_pubkey(v.owner, enc_pubkey(v.spender) + (enc_pubkey(v.mint) + (enc_u128(v.amount) + (enc_opt_u64(v.expires_at_epoch)))) + rest);
    lemma_assoc(enc_pubkey(v.spender), enc_pubkey(v.mint) + (enc_u128(v.amount) + (enc_opt_u64(v.expires_at_epoch))), rest);
    lemma_pubkey(v.spender, enc_pubkey(v.mint) + (enc_u128(v.amount) + (enc_opt_u64(v.expires_at_epoch))) + rest);
    lemma_assoc(enc_pubkey(v.mint), enc_u128(v.amount) + (enc_opt_u64(v.expires_at_epoch)), rest);
    lemma_pubkey(v.mint, enc_u128(v.amount) + (enc_opt_u64(v.expires_at_epoch)) + rest);
    lemma_assoc(enc_u128(v.amount), enc_opt_u64(v.expires_at_epoch), rest);
    lemma_u128(v.amount, enc_opt_u64(v.expires_at_epoch) + rest);
    lemma_opt_u64(v.expires_at_epoch, rest);
}

/// Decodes a [`AllowanceRecord`] that must take up all of `d`.
pub fn allowance_record_from_slice(d: &[u8]) -> (r: Option<AllowanceRecord>)
    ensures
        r is Some <==> (dec_allowance_record(d@) matches Some((_, rest)) && rest.len() == 0),
        r matches Some(v) ==> dec_allowance_record(d@) == Some((v, Seq::<u8>::empty())),
{
    assert(d@.skip(0) =~= d@);
    match read_allowance_record(d, 0) {
        None => None,
        Some((v, p)) => {
            if p == d.len() {
                assert(d@.skip(p as int) =~= Seq::<u8>::empty());
                Some(v)
            } else {
                None
            }
        },
    }
}

/// Decodes a [`AllowanceRecord`] from the front of `d`, ignoring what follows it.
pub fn allowance_record_from_prefix(d: &[u8]) -> (r: Option<AllowanceRecord>)
    ensures
        r is Some <==> dec_allowance_record(d@) is Some,
        r matches Some(v) ==> dec_allowance_record(d@) matches Some((m, _)) && m == v,
{
    assert(d@.skip(0) =~= d@);
    match read_allowance_record(d, 0) {
        None => None,
        Some((v, _)) => Some(v),
    }
}

/// Serialises a [`AllowanceRecord`].
pub fn allowance_record_to_vec(v: &AllowanceRecord) -> (r: Vec<u8>)
    ensures
        r@ == enc_allowance_record(*v),
{
    let mut out: Vec<u8> = Vec::new();
    write_allowance_record(&mut out, v);
    assert(out@ =~= enc_allowance_record(*v));
    out
}

/// Instructions of the token-20 program.
#[derive(Clone, Debug, PartialEq, Eq)]
pub enum Token20Instruction {
    InitializeMint{ name: String, symbol: String, decimals: u8, supply_cap: Option<u128>, metadata_uri: Option<String>, mint_policy: MintPolicy },
    InitializeAccount,
    MintTo{ amount: u128 },
    MintPublicTo{ amount: u128 },
    MintEmissionsTo{ amount: u128 },
    Transfer{ amount: u128 },
    Burn{ amount: u128 },
    Approve{ amount: u128, expires_at_epoch: Option<u64> },
    Revoke,
    TransferFrom{ amount: u128 },
    FreezeAccount,
    ThawAccount,
    SetMintAuthority{ new_authority: Option<Pubkey> },
}

/// Mathematical model of [`Token20Instruction`].
pub enum Token20InstructionModel {
    InitializeMint{ name: Seq<char>, symbol: Seq<char>, decimals: u8, supply_cap: Option<u128>, metadata_uri: Option<Seq<char>>, mint_policy: MintPolicy },
    InitializeAccount,
    MintTo{ amount: u128 },
    MintPublicTo{ amount: u128 },
    MintEmissionsTo{ amount: u128 },
    Transfer{ amount: u128 },
    Burn{ amount: u128 },
    Approve{ amount: u128, expires_at_epoch: Option<u64> },
    Revoke,
    TransferFrom{ amount: u128 },
    FreezeAccount,
    ThawAccount,
    SetMintAuthority{ new_authority: Option<Pubkey> },
}

impl View for Token20Instruction {
    type V = Token20InstructionModel;

    open spec fn view(&self) -> Token20InstructionModel {
        match self {
            Token20Instruction::InitializeMint{ name, symbol, decimals, supply_cap, metadata_uri, mint_policy } => Token20InstructionModel::InitializeMint{ name: (*name)@, symbol: (*symbol)@, decimals: (*decimals), supply_cap: (*supply_cap), metadata_uri: model_opt_string((*metadata_uri)), mint_policy: (*mint_policy) },
            Token20Instruction::InitializeAccount => Token20InstructionModel::InitializeAccount,
            Token20Instruction::MintTo{ amount } => Token20InstructionModel::MintTo{ amount: (*amount) },
            Token20Instruction::MintPublicTo{ amount } => Token20InstructionModel::MintPublicTo{ amount: (*amount) },
            Token20Instruction::MintEmissionsTo{ amount } => Token20InstructionModel::MintEmissionsTo{ amount: (*amount) },
            Token20Instruction::Transfer{ amount } => Token20InstructionModel::Transfer{ amount: (*amount) },
            Token20Instruction::Burn{ amount } => Token20InstructionModel::Burn{ amount: (*amount) },
            Token20Instruction::Approve{ amount, expires_at_epoch } => Token20InstructionModel::Approve{ amount: (*amount), expires_at_epoch: (*expires_at_epoch) },
            Token20Instruction::Revoke => Token20InstructionModel::Revoke,
            Token20Instruction::TransferFrom{ amount } => Token20InstructionModel::TransferFrom{ amount: (*amount) },
            Token20Instruction::FreezeAccount => Token20InstructionModel::FreezeAccount,
            Token20Instruction::ThawAccount => Token20InstructionModel::ThawAccount,
            Token20Instruction::SetMintAuthority{ new_authority } => Token20InstructionModel::SetMintAuthority{ new_authority: (*new_authority) },
        }
    }
}

#[verifier::opaque]
pub open spec fn enc_token20_instruction(v: Token20InstructionModel) -> Seq<u8> {
    match v {
        Token20InstructionModel::InitializeMint{ name, symbol, decimals, supply_cap, metadata_uri, mint_policy } => seq![0u8] + (enc_string(name) + (enc_string(symbol) + (enc_u8(decimals) + (enc_opt_u128(supply_cap) + (enc_opt_string(metadata_uri) + (enc_mint_policy(mint_policy))))))),
        Token20InstructionModel::InitializeAccount => seq![1u8],
        Token20InstructionModel::MintTo{ amount } => seq![2u8] + (enc_u128(amount)),
        Token20InstructionModel::MintPublicTo{ amount } => seq![3u8] + (enc_u128(amount)),
        Token20InstructionModel::MintEmissionsTo{ amount } => seq![4u8] + (enc_u128(amount)),
        Token20InstructionModel::Transfer{ amount } => seq![5u8] + (enc_u128(amount)),
        Token20InstructionModel::Burn{ amount } => seq![6u8] + (enc_u128(amount)),
        Token20InstructionModel::Approve{ amount, expires_at_epoch } => seq![7u8] + (enc_u128(amount) + (enc_opt_u64(expires_at_epoch))),
        Token20InstructionModel::Revoke => seq![8u8],
        Token20InstructionModel::TransferFrom{ amount } => seq![9u8] + (enc_u128(amount)),
        Token20InstructionModel::FreezeAccount => seq![10u8],
        Token20InstructionModel::ThawAccount => seq![11u8],
        Token20InstructionModel::SetMintAuthority{ new_authority } => seq![12u8] + (enc_opt_pubkey(new_authority)),
    }
}

#[verifier::opaque]
pub open spec fn dec_token20_instruction(s: Seq<u8>) -> Option<(Token20InstructionModel, Seq<u8>)> {
    if s.len() == 0 {
        None
    } else if s[0] == 0 {
        let r0 = s.skip(1);
        match dec_string(r0) {
            Some((name, r1)) => match dec_string(r1) {
            Some((symbol, r2)) => match dec_u8(r2) {
            Some((decimals, r3)) => match dec_opt_u128(r3) {
            Some((supply_cap, r4)) => match dec_opt_string(r4) {
            Some((metadata_uri, r5)) => match dec_mint_policy(r5) {
            Some((mint_policy, r6)) => Some((Token20InstructionModel::InitializeMint{ name, symbol, decimals, supply_cap, metadata_uri, mint_policy }, r6)),
            None => None,
        },
            None => None,
        },
            None => None,
        },
            None => None,
        },
            None => None,
        },
            None => None,
        }
    } else if s[0] == 1 {
        Some((Token20InstructionModel::InitializeAccount, s.skip(1)))
    } else if s[0] == 2 {
        let r0 = s.skip(1);
        match dec_u128(r0) {
            Some((amount, r1)) => Some((Token20InstructionModel::MintTo{ amount }, r1)),
            None => None,
        }
    } else if s[0] == 3 {
        let r0 = s.skip(1);
        match dec_u128(r0) {
            Some((amount, r1)) => Some((Token20InstructionModel::MintPublicTo{ amount }, r1)),
            None => None,
        }
    } else if s[0] == 4 {
        let r0 = s.skip(1);
        match dec_u128(r0) {
            Some((amount, r1)) => Some((Token20InstructionModel::MintEmissionsTo{ amount }, r1)),
            None => None,
        }
    } else if s[0] == 5 {
        let r0 = s.skip(1);
        match dec_u128(r0) {
            Some((amount, r1)) => Some((Token20InstructionModel::Transfer{ amount }, r1)),
            None => None,
        }
    } else if s[0] == 6 {
        let r0 = s.skip(1);
        match dec_u128(r0) {
            Some((amount, r1)) => Some((Token20InstructionModel::Burn{ amount }, r1)),
            None => None,
        }
    } else if s[0] == 7 {
        let r0 = s.skip(1);
        match dec_u128(r0) {
            Some((amount, r1)) => match dec_opt_u64(r1) {
            Some((expires_at_epoch, r2)) => Some((Token20InstructionModel::Approve{ amount, expires_at_epoch }, r2)),
            None => None,
        },
            None => None,
        }
    } else if s[0] == 8 {
        Some((Token20InstructionModel::Revoke, s.skip(1)))
    } else if s[0] == 9 {
        let r0 = s.skip(1);
        match dec_u128(r0) {
            Some((amount, r1)) => Some((Token20InstructionModel::TransferFrom{ amount }, r1)),
            None => None,
        }
    } else if s[0] == 10 {
        Some((Token20InstructionModel::FreezeAccount, s.skip(1)))
    } else if s[0] == 11 {
        Some((Token20InstructionModel::ThawAccount, s.skip(1)))
    } else if s[0] == 12 {
        let r0 = s.skip(1);
        match dec_opt_pubkey(r0) {
            Some((new_authority, r1)) => Some((Token20InstructionModel::SetMintAuthority{ new_authority }, r1)),
            None => None,
        }
    } else { None }
}

pub open spec fn fits_token20_instruction(v: Token20InstructionModel) -> bool {
    match v {
        Token20InstructionModel::InitializeMint{ name, symbol, decimals, supply_cap, metadata_uri, mint_policy } => fits_string(name) && fits_string(symbol) && fits_opt_string(metadata_uri),
        Token20InstructionModel::InitializeAccount => true,
        Token20InstructionModel::MintTo{ amount } => true,
        Token20InstructionModel::MintPublicTo{ amount } => true,
        Token20InstructionModel::MintEmissionsTo{ amount } => true,
        Token20InstructionModel::Transfer{ amount } => true,
        Token20InstructionModel::Burn{ amount } => true,
        Token20InstructionModel::Approve{ amount, expires_at_epoch } => true,
        Token20InstructionModel::Revoke => true,
        Token20InstructionModel::TransferFrom{ amount } => true,
        Token20InstructionModel::FreezeAccount => true,
        Token20InstructionModel::ThawAccount => true,
        Token20InstructionModel::SetMintAuthority{ new_authority } => true,
    }
}

pub fn read_token20_instruction(d: &[u8], pos: usize) -> (r: Option<(Token20Instruction, usize)>)
    requires
        pos <= d@.len(),
    ensures
        match r {
            None => dec_token20_instruction(d@.skip(pos as int)) is None,
            Some((v, p)) => p <= d@.len() && dec_token20_instruction(d@.skip(pos as int)) == Some((v@, d@.skip(p as int))),
        },
{
    proof {
        reveal(dec_token20_instruction);
    }
    match read_u8(d, pos) {
        None => None,
        Some((tag, p0)) => {
            proof {
                lemma_skip_skip(d@, pos as int, 1);
            }
            match tag {
            0 => match read_string(d, p0) {
                None => None,
                Some((name, p1)) => match read_string(d, p1) {
                None => None,
                Some((symbol, p2)) => match read_u8(d, p2) {
                None => None,
                Some((decimals, p3)) => match read_opt_u128(d, p3) {
                None => None,
                Some((supply_cap, p4)) => match read_opt_string(d, p4) {
                None => None,
                Some((metadata_uri, p5)) => match read_mint_policy(d, p5) {
                None => None,
                Some((mint_policy, p6)) => Some((Token20Instruction::InitializeMint{ name, symbol, decimals, supply_cap, metadata_uri, mint_policy }, p6)),
            },
            },
            },
            },
            },
            },
            1 => Some((Token20Instruction::InitializeAccount, p0)),
            2 => match read_u128(d, p0) {
                None => None,
                Some((amount, p1)) => Some((Token20Instruction::MintTo{ amount }, p1)),
            },
            3 => match read_u128(d, p0) {
                None => None,
                Some((amount, p1)) => Some((Token20Instruction::MintPublicTo{ amount }, p1)),
            },
            4 => match read_u128(d, p0) {
                None => None,
                Some((amount, p1)) => Some((Token20Instruction::MintEmissionsTo{ amount }, p1)),
            },
            5 => match read_u128(d, p0) {
                None => None,
                Some((amount, p1)) => Some((Token20Instruction::Transfer{ amount }, p1)),
            },
            6 => match read_u128(d, p0) {
                None => None,
                Some((amount, p1)) => Some((Token20Instruction::Burn{ amount }, p1)),
            },
            7 => match read_u128(d, p0) {
                None => None,
                Some((amount, p1)) => match read_opt_u64(d, p1) {
                None => None,
                Some((expires_at_epoch, p2)) => Some((Token20Instruction::Approve{ amount, expires_at_epoch }, p2)),
            },
            },
            8 => Some((Token20Instruction::Revoke, p0)),
            9 => match read_u128(d, p0) {
                None => None,
                Some((amount, p1)) => Some((Token20Instruction::TransferFrom{ amount }, p1)),
            },
            10 => Some((Token20Instruction::FreezeAccount, p0)),
            11 => Some((Token20Instruction::ThawAccount, p0)),
            12 => match read_opt_pubkey(d, p0) {
                None => None,
                Some((new_authority, p1)) => Some((Token20Instruction::SetMintAuthority{ new_authority }, p1)),
            },
            _ => None,
            }
        },
    }
}

pub fn write_token20_instruction(out: &mut Vec<u8>, v: &Token20Instruction) -> (ok: bool)
    ensures
        ok == fits_token20_instruction(v@),
        ok ==> final(out)@ == old(out)@ + enc_token20_instruction(v@),
{
    proof {
        reveal(enc_token20_instruction);
    }
    match v {
        Token20Instruction::InitializeMint{ name, symbol, decimals, supply_cap, metadata_uri, mint_policy } => {
            out.push(0u8);
            let ghost ot = out@;
            assert(ot =~= old(out)@ + seq![0u8]);
            if !write_string(out, name) { return false; }
            let ghost o0 = out@;
            if !write_string(out, symbol) { return false; }
            let ghost o1 = out@;
            write_u8(out, *decimals);
            let ghost o2 = out@;
            write_opt_u128(out, supply_cap);
            let ghost o3 = out@;
            if !write_opt_string(out, metadata_uri) { return false; }
            let ghost o4 = out@;
            write_mint_policy(out, mint_policy);
            let ghost o5 = out@;
            proof {
                lemma_assoc(o3, enc_opt_string(model_opt_string((*metadata_uri))), enc_mint_policy((*mint_policy)));
                lemma_assoc(o2, enc_opt_u128((*supply_cap)), enc_opt_string(model_opt_string((*metadata_uri))) + (enc_mint_policy((*mint_policy))));
                lemma_assoc(o1, enc_u8((*decimals)), enc_opt_u128((*supply_cap)) + (enc_opt_string(model_opt_string((*metadata_uri))) + (enc_mint_policy((*mint_policy)))));
                lemma_assoc(o0, enc_string((*symbol)@), enc_u8((*decimals)) + (enc_opt_u128((*supply_cap)) + (enc_opt_string(model_opt_string((*metadata_uri))) + (enc_mint_policy((*mint_policy))))));
                lemma_assoc(ot, enc_string((*name)@), enc_string((*symbol)@) + (enc_u8((*decimals)) + (enc_opt_u128((*supply_cap)) + (enc_opt_string(model_opt_string((*metadata_uri))) + (enc_mint_policy((*mint_policy)))))));
            }
            proof {
                lemma_assoc(old(out)@, seq![0u8], enc_string((*name)@) + (enc_string((*symbol)@) + (enc_u8((*decimals)) + (enc_opt_u128((*supply_cap)) + (enc_opt_string(model_opt_string((*metadata_uri))) + (enc_mint_policy((*mint_policy))))))));
            }
        },
        Token20Instruction::InitializeAccount => {
            out.push(1u8);
            assert(out@ =~= old(out)@ + seq![1u8]);
        },
        Token20Instruction::MintTo{ amount } => {
            out.push(2u8);
            let ghost ot = out@;
            assert(ot =~= old(out)@ + seq![2u8]);
            write_u128(out, *amount);
            let ghost o0 = out@;
            proof {
            }
            proof {
                lemma_assoc(old(out)@, seq![2u8], enc_u128((*amount)));
            }
        },
        Token20Instruction::MintPublicTo{ amount } => {
            out.push(3u8);
            let ghost ot = out@;
            assert(ot =~= old(out)@ + seq![3u8]);
            write_u128(out, *amount);
            let ghost o0 = out@;
            proof {
            }
            proof {
                lemma_assoc(old(out)@, seq![3u8], enc_u128((*amount)));
            }
        },
        Token20Instruction::MintEmissionsTo{ amount } => {
            out.push(4u8);
            let ghost ot = out@;
            assert(ot =~= old(out)@ + seq![4u8]);
            write_u128(out, *amount);
            let ghost o0 = out@;
            proof {
            }
            proof {
                lemma_assoc(old(out)@, seq![4u8], enc_u128((*amount)));
            }
        },
        Token20Instruction::Transfer{ amount } => {
            out.push(5u8);
            let ghost ot = out@;
            assert(ot =~= old(out)@ + seq![5u8]);
            write_u128(out, *amount);
            let ghost o0 = out@;
            proof {
            }
            proof {
                lemma_assoc(old(out)@, seq![5u8], enc_u128((*amount)));
            }
        },
        Token20Instruction::Burn{ amount } => {
            out.push(6u8);
            let ghost ot = out@;
            assert(ot =~= old(out)@ + seq![6u8]);
            write_u128(out, *amount);
            let ghost o0 = out@;
            proof {
            }
            proof {
                lemma_assoc(old(out)@, seq![6u8], enc_u128((*amount)));
            }
        },
        Token20Instruction::Approve{ amount, expires_at_epoch } => {
            out.push(7u8);
            let ghost ot = out@;
            assert(ot =~= old(out)@ + seq![7u8]);
            write_u128(out, *amount);
            let ghost o0 = out@;
            write_opt_u64(out, expires_at_epoch);
            let ghost o1 = out@;
            proof {
                lemma_assoc(ot, enc_u128((*amount)), enc_opt_u64((*expires_at_epoch)));
            }
            proof {
                lemma_assoc(old(out)@, seq![7u8], enc_u128((*amount)) + (enc_opt_u64((*expires_at_epoch))));
            }
        },
        Token20Instruction::Revoke => {
            out.push(8u8);
            assert(out@ =~= old(out)@ + seq![8u8]);
        },
        Token20Instruction::TransferFrom{ amount } => {
            out.push(9u8);
            let ghost ot = out@;
            assert(ot =~= old(out)@ + seq![9u8]);
            write_u128(out, *amount);
            let ghost o0 = out@;
            proof {
            }
            proof {
                lemma_assoc(old(out)@, seq![9u8], enc_u128((*amount)));
            }
        },
        Token20Instruction::FreezeAccount => {
            out.push(10u8);
            assert(out@ =~= old(out)@ + seq![10u8]);
        },
        Token20Instruction::ThawAccount => {
            out.push(11u8);
            assert(out@ =~= old(out)@ + seq![11u8]);
        },
        Token20Instruction::SetMintAuthority{ new_authority } => {
            out.push(12u8);
            let ghost ot = out@;
            assert(ot =~= old(out)@ + seq![12u8]);
            write_opt_pubkey(out, new_authority);
            let ghost o0 = out@;
            proof {
            }
            proof {
                lemma_assoc(old(out)@, seq![12u8], enc_opt_pubkey((*new_authority)));
            }
        },
    }
    true
}

proof fn lemma_token20_instruction_initialize_mint(name: Seq<char>, symbol: Seq<char>, decimals: u8, supply_cap: Option<u128>, metadata_uri: Option<Seq<char>>, mint_policy: MintPolicy, rest: Seq<u8>)
    requires
        fits_string(name),
        fits_string(symbol),
        fits_opt_string(metadata_uri),
    ensures
        dec_token20_instruction(enc_token20_instruction(Token20InstructionModel::InitializeMint{ name, symbol, decimals, supply_cap, metadata_uri, mint_policy }) + rest) == Some((Token20InstructionModel::InitializeMint{ name, symbol, decimals, supply_cap, metadata_uri, mint_policy }, rest)),
{
    reveal(enc_token20_instruction);
    reveal(dec_token20_instruction);
    assert((enc_token20_instruction(Token20InstructionModel::InitializeMint{ name, symbol, decimals, supply_cap, metadata_uri, mint_policy }) + rest).skip(1) =~= (enc_string(name) + (enc_string(symbol) + (enc_u8(decimals) + (enc_opt_u128(supply_cap) + (enc_opt_string(metadata_uri) + (enc_mint_policy(mint_policy))))))) + rest);
    lemma_assoc(enc_string(name), enc_string(symbol) + (enc_u8(decimals) + (enc_opt_u128(supply_cap) + (enc_opt_string(metadata_uri) + (enc_mint_policy(mint_policy))))), rest);
    lemma_string(name, enc_string(symbol) + (enc_u8(decimals) + (enc_opt_u128(supply_cap) + (enc_opt_string(metadata_uri) + (enc_mint_policy(mint_policy))))) + rest);
    lemma_assoc(enc_string(symbol), enc_u8(decimals) + (enc_opt_u128(supply_cap) + (enc_opt_string(metadata_uri) + (enc_mint_policy(mint_policy)))), rest);
    lemma_string(symbol, enc_u8(decimals) + (enc_opt_u128(supply_cap) + (enc_opt_string(metadata_uri) + (enc_mint_policy(mint_policy)))) + rest);
    lemma_assoc(enc_u8(decimals), enc_opt_u128(supply_cap) + (enc_opt_string(metadata_uri) + (enc_mint_policy(mint_policy))), rest);
    lemma_u8(decimals, enc_opt_u128(supply_cap) + (enc_opt_string(metadata_uri) + (enc_mint_policy(mint_policy))) + rest);
    lemma_assoc(enc_opt_u128(supply_cap), enc_opt_string(metadata_uri) + (enc_mint_policy(mint_policy)), rest);
    lemma_opt_u128(supply_cap, enc_opt_string(metadata_uri) + (enc_mint_policy(mint_policy)) + rest);
    lemma_assoc(enc_opt_string(metadata_uri), enc_mint_policy(mint_policy), rest);
    lemma_opt_string(metadata_uri, enc_mint_policy(mint_policy) + rest);
    lemma_mint_policy(mint_policy, rest);
}

proof fn lemma_token20_instruction_mint_to(amount: u128, rest: Seq<u8>)
    ensures
        dec_token20_instruction(enc_token20_instruction(Token20InstructionModel::MintTo{ amount }) + rest) == Some((Token20InstructionModel::MintTo{ amount }, rest)),
{
    reveal(enc_token20_instruction);
    reveal(dec_token20_instruction);
    assert((enc_token20_instruction(Token20InstructionModel::MintTo{ amount }) + rest).skip(1) =~= (enc_u128(amount)) + rest);
    lemma_u128(amount, rest);
}

proof fn lemma_token20_instruction_mint_public_to(amount: u128, rest: Seq<u8>)
    ensures
        dec_token20_instruction(enc_token20_instruction(Token20InstructionModel::MintPublicTo{ amount }) + rest) == Some((Token20InstructionModel::MintPublicTo{ amount }, rest)),
{
    reveal(enc_token20_instruction);
    reveal(dec_token20_instruction);
    assert((enc_token20_instruction(Token20InstructionModel::MintPublicTo{ amount }) + rest).skip(1) =~= (enc_u128(amount)) + rest);
    lemma_u128(amount, rest);
}

proof fn lemma_token20_instruction_mint_emissions_to(amount: u128, rest: Seq<u8>)
    ensures
        dec_token20_instruction(enc_token20_instruction(Token20InstructionModel::MintEmissionsTo{ amount }) + rest) == Some((Token20InstructionModel::MintEmissionsTo{ amount }, rest)),
{
    reveal(enc_token20_instruction);
    reveal(dec_token20_instruction);
    assert((enc_token20_instruction(Token20InstructionModel::MintEmissionsTo{ amount }) + rest).skip(1) =~= (enc_u128(amount)) + rest);
    lemma_u128(amount, rest);
}

proof fn lemma_token20_instruction_transfer(amount: u128, rest: Seq<u8>)
    ensures
        dec_token20_instruction(enc_token20_instruction(Token20InstructionModel::Transfer{ amount }) + rest) == Some((Token20InstructionModel::Transfer{ amount }, rest)),
{
    reveal(enc_token20_instruction);
    reveal(dec_token20_instruction);
    assert((enc_token20_instruction(Token20InstructionModel::Transfer{ amount }) + rest).skip(1) =~= (enc_u128(amount)) + rest);
    lemma_u128(amount, rest);
}

proof fn lemma_token20_instruction_burn(amount: u128, rest: Seq<u8>)
    ensures
        dec_token20_instruction(enc_token20_instruction(Token20InstructionModel::Burn{ amount }) + rest) == Some((Token20InstructionModel::Burn{ amount }, rest)),
{
    reveal(enc_token20_instruction);
    reveal(dec_token20_instruction);
    assert((enc_token20_instruction(Token20InstructionModel::Burn{ amount }) + rest).skip(1) =~= (enc_u128(amount)) + rest);
    lemma_u128(amount, rest);
}

proof fn lemma_token20_instruction_approve(amount: u128, expires_at_epoch: Option<u64>, rest: Seq<u8>)
    ensures
        dec_token20_instruction(enc_token20_instruction(Token20InstructionModel::Approve{ amount, expires_at_epoch }) + rest) == Some((Token20InstructionModel::Approve{ amount, expires_at_epoch }, rest)),
{
    reveal(enc_token20_instruction);
    reveal(dec_token20_instruction);
    assert((enc_token20_instruction(Token20InstructionModel::Approve{ amount, expires_at_epoch }) + rest).skip(1) =~= (enc_u128(amount) + (enc_opt_u64(expires_at_epoch))) + rest);
    lemma_assoc(enc_u128(amount), enc_opt_u64(expires_at_epoch), rest);
    lemma_u128(amount, enc_opt_u64(expires_at_epoch) + rest);
    lemma_opt_u64(expires_at_epoch, rest);
}

proof fn lemma_token20_instruction_transfer_from(amount: u128, rest: Seq<u8>)
    ensures
        dec_token20_instruction(enc_token20_instruction(Token20InstructionModel::TransferFrom{ amount }) + rest) == Some((Token20InstructionModel::TransferFrom{ amount }, rest)),
{
    reveal(enc_token20_instruction);
    reveal(dec_token20_instruction);
    assert((enc_token20_instruction(Token20InstructionModel::TransferFrom{ amount }) + rest).skip(1) =~= (enc_u128(amount)) + rest);
    lemma_u128(amount, rest);
}

proof fn lemma_token20_instruction_set_mint_authority(new_authority: Option<Pubkey>, rest: Seq<u8>)
    ensures
        dec_token20_instruction(enc_token20_instruction(Token20InstructionModel::SetMintAuthority{ new_authority }) + rest) == Some((Token20InstructionModel::SetMintAuthority{ new_authority }, rest)),
{
    reveal(enc_token20_instruction);
    reveal(dec_token20_instruction);
    assert((enc_token20_instruction(Token20InstructionModel::SetMintAuthority{ new_authority }) + rest).skip(1) =~= (enc_opt_pubkey(new_authority)) + rest);
    lemma_opt_pubkey(new_authority, rest);
}

pub proof fn lemma_token20_instruction(v: Token20InstructionModel, rest: Seq<u8>)
    requires
        fits_token20_instruction(v),
    ensures
        dec_token20_instruction(enc_token20_instruction(v) + rest) == Some((v, rest)),
{
    reveal(enc_token20_instruction);
    reveal(dec_token20_instruction);
    match v {
        Token20InstructionModel::InitializeMint{ name, symbol, decimals, supply_cap, metadata_uri, mint_policy } => lemma_token20_instruction_initialize_mint(name, symbol, decimals, supply_cap, metadata_uri, mint_policy, rest),
        Token20InstructionModel::InitializeAccount => {
            assert((enc_token20_instruction(v) + rest).skip(1) =~= rest);
        },
        Token20InstructionModel::MintTo{ amount } => lemma_token20_instruction_mint_to(amount, rest),
        Token20InstructionModel::MintPublicTo{ amount } => lemma_token20_instruction_mint_public_to(amount, rest),
        Token20InstructionModel::MintEmissionsTo{ amount } => lemma_token20_instruction_mint_emissions_to(amount, rest),
        Token20InstructionModel::Transfer{ amount } => lemma_token20_instruction_transfer(amount, rest),
        Token20InstructionModel::Burn{ amount } => lemma_token20_instruction_burn(amount, rest),
        Token20InstructionModel::Approve{ amount, expires_at_epoch } => lemma_token20_instruction_approve(amount, expires_at_epoch, rest),
        Token20InstructionModel::Revoke => {
            assert((enc_token20_instruction(v) + rest).skip(1) =~= rest);
        },
        Token20InstructionModel::TransferFrom{ amount } => lemma_token20_instruction_transfer_from(amount, rest),
        Token20InstructionModel::FreezeAccount => {
            assert((enc_token20_instruction(v) + rest).skip(1) =~= rest);
        },
        Token20InstructionModel::ThawAccount => {
            assert((enc_token20_instruction(v) + rest).skip(1) =~= rest);
        },
        Token20InstructionModel::SetMintAuthority{ new_authority } => lemma_token20_instruction_set_mint_authority(new_authority, rest),
    }
}

/// Decodes a [`Token20Instruction`] that must take up all of `d`.
pub fn token20_instruction_from_slice(d: &[u8]) -> (r: Option<Token20Instruction>)
    ensures
        r is Some <==> (dec_token20_instruction(d@) matches Some((_, rest)) && rest.len() == 0),
        r matches Some(v) ==> dec_token20_instruction(d@) == Some((v@, Seq::<u8>::empty())),
{
    assert(d@.skip(0) =~= d@);
    match read_token20_instruction(d, 0) {
        None => None,
        Some((v, p)) => {
            if p == d.len() {
                assert(d@.skip(p as int) =~= Seq::<u8>::empty());
                Some(v)
            } else {
                None
            }
        },
    }
}

/// Decodes a [`Token20Instruction`] from the front of `d`, ignoring what follows it.
pub fn token20_instruction_from_prefix(d: &[u8]) -> (r: Option<Token20Instruction>)
    ensures
        r is Some <==> dec_token20_instruction(d@) is Some,
        r matches Some(v) ==> dec_token20_instruction(d@) matches Some((m, _)) && m == v@,
{
    assert(d@.skip(0) =~= d@);
    match read_token20_instruction(d, 0) {
        None => None,
        Some((v, _)) => Some(v),
    }
}

/// Serialises a [`Token20Instruction`]; `None` when a length does not fit the `u32` prefix.
pub fn token20_instruction_to_vec(v: &Token20Instruction) -> (r: Option<Vec<u8>>)
    ensures
        r is Some <==> fits_token20_instruction(v@),
        r matches Some(b) ==> b@ == enc_token20_instruction(v@),
{
    let mut out: Vec<u8> = Vec::new();
    if write_token20_instruction(&mut out, v) {
        assert(out@ =~= enc_token20_instruction(v@));
        Some(out)
    } else {
        None
    }
}

} // verus!
