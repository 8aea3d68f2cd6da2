//! Data types and their byte layout.
use vstd::prelude::*;
use crate::codec::{dec_bool, dec_pubkey, dec_u128, dec_u32, dec_u64, enc_bool, enc_pubkey, enc_u128, enc_u32, enc_u64, fits_u32, lemma_assoc, lemma_bool, lemma_pubkey, lemma_skip_skip, lemma_u128, lemma_u32, lemma_u64, read_bool, read_ok, read_pubkey, read_u128, read_u32, read_u64, read_u8, write_bool, write_pubkey, write_u128, write_u32, write_u64};
use crate::layout::{dec_opt_pubkey, dec_vec_pubkey, enc_opt_pubkey, enc_vec_pubkey, fits_vec_pubkey, lemma_opt_pubkey, lemma_vec_pubkey, read_opt_pubkey, read_vec_pubkey, write_opt_pubkey, write_vec_pubkey};
use crate::pubkey::{Pubkey};

verus! {

/// Custom error codes of the public-mint program.
#[derive(Clone, Copy, Debug, PartialEq, Eq, Structural)]
pub enum PublicMintError {
    AlreadyInitialized,
    UninitializedState,
    InvalidMintAuthority,
    PolicyDisabled,
    WalletBlocked,
    CooldownActive,
    MintWindowExceeded,
    InvalidSubsidyPolicy,
    AllowlistRequired,
    InvalidTokenomicsState,
}

impl PublicMintError {
    /// The custom error code carried by this error.
    pub open spec fn spec_code(self) -> u32 {
        match self {
            PublicMintError::AlreadyInitialized => 49153,
            PublicMintError::UninitializedState => 49154,
            PublicMintError::InvalidMintAuthority => 49155,
            PublicMintError::PolicyDisabled => 49156,
            PublicMintError::WalletBlocked => 49157,
            PublicMintError::CooldownActive => 49158,
            PublicMintError::MintWindowExceeded => 49159,
            PublicMintError::InvalidSubsidyPolicy => 49160,
            PublicMintError::AllowlistRequired => 49161,
            PublicMintError::InvalidTokenomicsState => 49162,
        }
    }

    pub fn code(self) -> (c: u32)
        ensures
            c == self.spec_code(),
    {
        match self {
            PublicMintError::AlreadyInitialized => 49153,
            PublicMintError::UninitializedState => 49154,
            PublicMintError::InvalidMintAuthority => 49155,
            PublicMintError::PolicyDisabled => 49156,
            PublicMintError::WalletBlocked => 49157,
            PublicMintError::CooldownActive => 49158,
            PublicMintError::MintWindowExceeded => 49159,
            PublicMintError::InvalidSubsidyPolicy => 49160,
            PublicMintError::AllowlistRequired => 49161,
            PublicMintError::InvalidTokenomicsState => 49162,
        }
    }
}

/// Policy governing public minting of one token.
#[derive(Clone, Copy, Debug, PartialEq, Eq)]
pub struct PublicMintPolicy {
    pub mint: Pubkey,
    pub authority: Pubkey,
    pub enabled: bool,
    pub per_wallet_limit: u128,
    pub window_epochs: u64,
    pub cooldown_epochs: u64,
    pub requires_allowlist: bool,
    pub anomaly_threshold: u32,
    pub fee_subsidy_enabled: bool,
    pub subsidy_app: Option<Pubkey>,
    pub is_initialized: bool,
}

#[verifier::opaque]
pub open spec fn enc_public_mint_policy(v: PublicMintPolicy) -> Seq<u8> {
    enc_pubkey(v.mint) + (enc_pubkey(v.authority) + (enc_bool(v.enabled) + (enc_u128(v.per_wallet_limit) + (enc_u64(v.window_epochs) + (enc_u64(v.cooldown_epochs) + (enc_bool(v.requires_allowlist) + (enc_u32(v.anomaly_threshold) + (enc_bool(v.fee_subsidy_enabled) + (enc_opt_pubkey(v.subsidy_app) + (enc_bool(v.is_initialized)))))))))))
}

#[verifier::opaque]
pub open spec fn dec_public_mint_policy(s: Seq<u8>) -> Option<(PublicMintPolicy, Seq<u8>)> {
    match dec_pubkey(s) {
            Some((mint, r1)) => match dec_pubkey(r1) {
            Some((authority, r2)) => match dec_bool(r2) {
            Some((enabled, r3)) => match dec_u128(r3) {
            Some((per_wallet_limit, r4)) => match dec_u64(r4) {
            Some((window_epochs, r5)) => match dec_u64(r5) {
            Some((cooldown_epochs, r6)) => match dec_bool(r6) {
            Some((requires_allowlist, r7)) => match dec_u32(r7) {
            Some((anomaly_threshold, r8)) => match dec_bool(r8) {
            Some((fee_subsidy_enabled, r9)) => match dec_opt_pubkey(r9) {
            Some((subsidy_app, r10)) => match dec_bool(r10) {
            Some((is_initialized, r11)) => Some((PublicMintPolicy { mint, authority, enabled, per_wallet_limit, window_epochs, cooldown_epochs, requires_allowlist, anomaly_threshold, fee_subsidy_enabled, subsidy_app, is_initialized }, r11)),
            None => None,
        },
            None => None,
        },
            None => None,
        },
            None => None,
        },
            None => None,
        },
            None => None,
        },
            None => None,
        },
            None => None,
        },
            None => None,
        },
            None => None,
        },
            None => None,
        }
}

pub fn read_public_mint_policy(d: &[u8], pos: usize) -> (r: Option<(PublicMintPolicy, usize)>)
    requires
        pos <= d@.len(),
    ensures
        read_ok(dec_public_mint_policy(d@.skip(pos as int)), r, d@),
{
    proof {
        reveal(dec_public_mint_policy);
    }
    match read_pubkey(d, pos) {
        None => None,
        Some((mint, p1)) => match read_pubkey(d, p1) {
        None => None,
        Some((authority, p2)) => match read_bool(d, p2) {
        None => None,
        Some((enabled, p3)) => match read_u128(d, p3) {
        None => None,
        Some((per_wallet_limit, p4)) => match read_u64(d, p4) {
        None => None,
        Some((window_epochs, p5)) => match read_u64(d, p5) {
        None => None,
        Some((cooldown_epochs, p6)) => match read_bool(d, p6) {
        None => None,
        Some((requires_allowlist, p7)) => match read_u32(d, p7) {
        None => None,
        Some((anomaly_threshold, p8)) => match read_bool(d, p8) {
        None => None,
        Some((fee_subsidy_enabled, p9)) => match read_opt_pubkey(d, p9) {
        None => None,
        Some((subsidy_app, p10)) => match read_bool(d, p10) {
        None => None,
        Some((is_initialized, p11)) => Some((PublicMintPolicy { mint, authority, enabled, per_wallet_limit, window_epochs, cooldown_epochs, requires_allowlist, anomaly_threshold, fee_subsidy_enabled, subsidy_app, is_initialized }, p11)),
    },
    },
    },
    },
    },
    },
    },
    },
    },
    },
    }
}

pub fn write_public_mint_policy(out: &mut Vec<u8>, v: &PublicMintPolicy)
    ensures
        final(out)@ == old(out)@ + enc_public_mint_policy(*v),
{
    proof {
        reveal(enc_public_mint_policy);
    }
    write_pubkey(out, &v.mint);
    let ghost o0 = out@;
    write_pubkey(out, &v.authority);
    let ghost o1 = out@;
    write_bool(out, *&v.enabled);
    let ghost o2 = out@;
    write_u128(out, *&v.per_wallet_limit);
    let ghost o3 = out@;
    write_u64(out, *&v.window_epochs);
    let ghost o4 = out@;
    write_u64(out, *&v.cooldown_epochs);
    let ghost o5 = out@;
    write_bool(out, *&v.requires_allowlist);
    let ghost o6 = out@;
    write_u32(out, *&v.anomaly_threshold);
    let ghost o7 = out@;
    write_bool(out, *&v.fee_subsidy_enabled);
    let ghost o8 = out@;
    write_opt_pubkey(out, &v.subsidy_app);
    let ghost o9 = out@;
    write_bool(out, *&v.is_initialized);
    let ghost o10 = out@;
    proof {
        lemma_assoc(o8, enc_opt_pubkey((*v).subsidy_app), enc_bool((*v).is_initialized));
        lemma_assoc(o7, enc_bool((*v).fee_subsidy_enabled), enc_opt_pubkey((*v).subsidy_app) + (enc_bool((*v).is_initialized)));
        lemma_assoc(o6, enc_u32((*v).anomaly_threshold), enc_bool((*v).fee_subsidy_enabled) + (enc_opt_pubkey((*v).subsidy_app) + (enc_bool((*v).is_initialized))));
        lemma_assoc(o5, enc_bool((*v).requires_allowlist), enc_u32((*v).anomaly_threshold) + (enc_bool((*v).fee_subsidy_enabled) + (enc_opt_pubkey((*v).subsidy_app) + (enc_bool((*v).is_initialized)))));
        lemma_assoc(o4, enc_u64((*v).cooldown_epochs), enc_bool((*v).requires_allowlist) + (enc_u32((*v).anomaly_threshold) + (enc_bool((*v).fee_subsidy_enabled) + (enc_opt_pubkey((*v).subsidy_app) + (enc_bool((*v).is_initialized))))));
        lemma_assoc(o3, enc_u64((*v).window_epochs), enc_u64((*v).cooldown_epochs) + (enc_bool((*v).requires_allowlist) + (enc_u32((*v).anomaly_threshold) + (enc_bool((*v).fee_subsidy_enabled) + (enc_opt_pubkey((*v).subsidy_app) + (enc_bool((*v).is_initialized)))))));
        lemma_assoc(o2, enc_u128((*v).per_wallet_limit), enc_u64((*v).window_epochs) + (enc_u64((*v).cooldown_epochs) + (enc_bool((*v).requires_allowlist) + (enc_u32((*v).anomaly_threshold) + (enc_bool((*v).fee_subsidy_enabled) + (enc_opt_pubkey((*v).subsidy_app) + (enc_bool((*v).is_initialized))))))));
        lemma_assoc(o1, enc_bool((*v).enabled), enc_u128((*v).per_wallet_limit) + (enc_u64((*v).window_epochs) + (enc_u64((*v).cooldown_epochs) + (enc_bool((*v).requires_allowlist) + (enc_u32((*v).anomaly_threshold) + (enc_bool((*v).fee_subsidy_enabled) + (enc_opt_pubkey((*v).subsidy_app) + (enc_bool((*v).is_initialized)))))))));
        lemma_assoc(o0, enc_pubkey((*v).authority), enc_bool((*v).enabled) + (enc_u128((*v).per_wallet_limit) + (enc_u64((*v).window_epochs) + (enc_u64((*v).cooldown_epochs) + (enc_bool((*v).requires_allowlist) + (enc_u32((*v).anomaly_threshold) + (enc_bool((*v).fee_subsidy_enabled) + (enc_opt_pubkey((*v).subsidy_app) + (enc_bool((*v).is_initialized))))))))));
        lemma_assoc(old(out)@, enc_pubkey((*v).mint), enc_pubkey((*v).authority) + (enc_bool((*v).enabled) + (enc_u128((*v).per_wallet_limit) + (enc_u64((*v).window_epochs) + (enc_u64((*v).cooldown_epochs) + (enc_bool((*v).requires_allowlist) + (enc_u32((*v).anomaly_threshold) + (enc_bool((*v).fee_subsidy_enabled) + (enc_opt_pubkey((*v).subsidy_app) + (enc_bool((*v).is_initialized)))))))))));
    }
}

pub proof fn lemma_public_mint_policy(v: PublicMintPolicy, rest: Seq<u8>)
    ensures
        dec_public_mint_policy(enc_public_mint_policy(v) + rest) == Some((v, rest)),
{
    reveal(enc_public_mint_policy);
    reveal(dec_public_mint_policy);
    lemma_assoc(enc_pubkey(v.mint), enc_pubkey(v.authority) + (enc_bool(v.enabled) + (enc_u128(v.per_wallet_limit) + (enc_u64(v.window_epochs) + (enc_u64(v.cooldown_epochs) + (enc_bool(v.requires_allowlist) + (enc_u32(v.anomaly_threshold) + (enc_bool(v.fee_subsidy_enabled) + (enc_opt_pubkey(v.subsidy_app) + (enc_bool(v.is_initialized)))))))))), rest);
    lemma_pubkey(v.mint, enc_pubkey(v.authority) + (enc_bool(v.enabled) + (enc_u128(v.per_wallet_limit) + (enc_u64(v.window_epochs) + (enc_u64(v.cooldown_epochs) + (enc_bool(v.requires_allowlist) + (enc_u32(v.anomaly_threshold) + (enc_bool(v.fee_subsidy_enabled) + (enc_opt_pubkey(v.subsidy_app) + (enc_bool(v.is_initialized)))))))))) + rest);
    lemma_assoc(enc_pubkey(v.authority), enc_bool(v.enabled) + (enc_u128(v.per_wallet_limit) + (enc_u64(v.window_epochs) + (enc_u64(v.cooldown_epochs) + (enc_bool(v.requires_allowlist) + (enc_u32(v.anomaly_threshold) + (enc_bool(v.fee_subsidy_enabled) + (enc_opt_pubkey(v.subsidy_app) + (enc_bool(v.is_initialized))))))))), rest);
    lemma_pubkey(v.authority, enc_bool(v.enabled) + (enc_u128(v.per_wallet_limit) + (enc_u64(v.window_epochs) + (enc_u64(v.cooldown_epochs) + (enc_bool(v.requires_allowlist) + (enc_u32(v.anomaly_threshold) + (enc_bool(v.fee_subsidy_enabled) + (enc_opt_pubkey(v.subsidy_app) + (enc_bool(v.is_initialized))))))))) + rest);
    lemma_assoc(enc_bool(v.enabled), enc_u128(v.per_wallet_limit) + (enc_u64(v.window_epochs) + (enc_u64(v.cooldown_epochs) + (enc_bool(v.requires_allowlist) + (enc_u32(v.anomaly_threshold) + (enc_bool(v.fee_subsidy_enabled) + (enc_opt_pubkey(v.subsidy_app) + (enc_bool(v.is_initialized)))))))), rest);
    lemma_bool(v.enabled, enc_u128(v.per_wallet_limit) + (enc_u64(v.window_epochs) + (enc_u64(v.cooldown_epochs) + (enc_bool(v.requires_allowlist) + (enc_u32(v.anomaly_threshold) + (enc_bool(v.fee_subsidy_enabled) + (enc_opt_pubkey(v.subsidy_app) + (enc_bool(v.is_initialized)))))))) + rest);
    lemma_assoc(enc_u128(v.per_wallet_limit), enc_u64(v.window_epochs) + (enc_u64(v.cooldown_epochs) + (enc_bool(v.requires_allowlist) + (enc_u32(v.anomaly_threshold) + (enc_bool(v.fee_subsidy_enabled) + (enc_opt_pubkey(v.subsidy_app) + (enc_bool(v.is_initialized))))))), rest);
    lemma_u128(v.per_wallet_limit, enc_u64(v.window_epochs) + (enc_u64(v.cooldown_epochs) + (enc_bool(v.requires_allowlist) + (enc_u32(v.anomaly_threshold) + (enc_bool(v.fee_subsidy_enabled) + (enc_opt_pubkey(v.subsidy_app) + (enc_bool(v.is_initialized))))))) + rest);
    lemma_assoc(enc_u64(v.window_epochs), enc_u64(v.cooldown_epochs) + (enc_bool(v.requires_allowlist) + (enc_u32(v.anomaly_threshold) + (enc_bool(v.fee_subsidy_enabled) + (enc_opt_pubkey(v.subsidy_app) + (enc_bool(v.is_initialized)))))), rest);
    lemma_u64(v.window_epochs, enc_u64(v.cooldown_epochs) + (enc_bool(v.requires_allowlist) + (enc_u32(v.anomaly_threshold) + (enc_bool(v.fee_subsidy_enabled) + (enc_opt_pubkey(v.subsidy_app) + (enc_bool(v.is_initialized)))))) + rest);
    lemma_assoc(enc_u64(v.cooldown_epochs), enc_bool(v.requires_allowlist) + (enc_u32(v.anomaly_threshold) + (enc_bool(v.fee_subsidy_enabled) + (enc_opt_pubkey(v.subsidy_app) + (enc_bool(v.is_initialized))))), rest);
    lemma_u64(v.cooldown_epochs, enc_bool(v.requires_allowlist) + (enc_u32(v.anomaly_threshold) + (enc_bool(v.fee_subsidy_enabled) + (enc_opt_pubkey(v.subsidy_app) + (enc_bool(v.is_initialized))))) + rest);
    lemma_assoc(enc_bool(v.requires_allowlist), enc_u32(v.anomaly_threshold) + (enc_bool(v.fee_subsidy_enabled) + (enc_opt_pubkey(v.subsidy_app) + (enc_bool(v.is_initialized)))), rest);
    lemma_bool(v.requires_allowlist, enc_u32(v.anomaly_threshold) + (enc_bool(v.fee_subsidy_enabled) + (enc_opt_pubkey(v.subsidy_app) + (enc_bool(v.is_initialized)))) + rest);
    lemma_assoc(enc_u32(v.anomaly_threshold), enc_bool(v.fee_subsidy_enabled) + (enc_opt_pubkey(v.subsidy_app) + (enc_bool(v.is_initialized))), rest);
    lemma_u32(v.anomaly_threshold, enc_bool(v.fee_subsidy_enabled) + (enc_opt_pubkey(v.subsidy_app) + (enc_bool(v.is_initialized))) + rest);
    lemma_assoc(enc_bool(v.fee_subsidy_enabled), enc_opt_pubkey(v.subsidy_app) + (enc_bool(v.is_initialized)), rest);
    lemma_bool(v.fee_subsidy_enabled, enc_opt_pubkey(v.subsidy_app) + (enc_bool(v.is_initialized)) + rest);
    lemma_assoc(enc_opt_pubkey(v.subsidy_app), enc_bool(v.is_initialized), rest);
    lemma_opt_pubkey(v.subsidy_app, enc_bool(v.is_initialized) + rest);
    lemma_bool(v.is_initialized, rest);
}

/// Decodes a [`PublicMintPolicy`] that must take up all of `d`.
pub fn public_mint_policy_from_slice(d: &[u8]) -> (r: Option<PublicMintPolicy>)
    ensures
        r is Some <==> (dec_public_mint_policy(d@) matches Some((_, rest)) && rest.len() == 0),
        r matches Some(v) ==> dec_public_mint_policy(d@) == Some((v, Seq::<u8>::empty())),
{
    assert(d@.skip(0) =~= d@);
    match read_public_mint_policy(d, 0) {
        None => None,
        Some((v, p)) => {
            if p == d.len() {
                assert(d@.skip(p as int) =~= Seq::<u8>::empty());
                Some(v)
            } else {
                None
            }
        },
    }
}

/// Decodes a [`PublicMintPolicy`] from the front of `d`, ignoring what follows it.
pub fn public_mint_policy_from_prefix(d: &[u8]) -> (r: Option<PublicMintPolicy>)
    ensures
        r is Some <==> dec_public_mint_policy(d@) is Some,
        r matches Some(v) ==> dec_public_mint_policy(d@) matches Some((m, _)) && m == v,
{
    assert(d@.skip(0) =~= d@);
    match read_public_mint_policy(d, 0) {
        None => None,
        Some((v, _)) => Some(v),
    }
}

/// Serialises a [`PublicMintPolicy`].
pub fn public_mint_policy_to_vec(v: &PublicMintPolicy) -> (r: Vec<u8>)
    ensures
        r@ == enc_public_mint_policy(*v),
{
    let mut out: Vec<u8> = Vec::new();
    write_public_mint_policy(&mut out, v);
    assert(out@ =~= enc_public_mint_policy(*v));
    out
}

/// Per-wallet mint accounting within the current window.
#[derive(Clone, Copy, Debug, PartialEq, Eq)]
pub struct WalletMintWindow {
    pub wallet: Pubkey,
    pub mint: Pubkey,
    pub window_start_epoch: u64,
    pub minted_in_window: u128,
    pub last_mint_epoch: u64,
    pub anomaly_score: u32,
    pub blocked: bool,
    pub subsidy_used_in_window: u128,
}

#[verifier::opaque]
pub open spec fn enc_wallet_mint_window(v: WalletMintWindow) -> Seq<u8> {
    enc_pubkey(v.wallet) + (enc_pubkey(v.mint) + (enc_u64(v.window_start_epoch) + (enc_u128(v.minted_in_window) + (enc_u64(v.last_mint_epoch) + (enc_u32(v.anomaly_score) + (enc_bool(v.blocked) + (enc_u128(v.subsidy_used_in_window))))))))
}

#[verifier::opaque]
pub open spec fn dec_wallet_mint_window(s: Seq<u8>) -> Option<(WalletMintWindow, Seq<u8>)> {
    match dec_pubkey(s) {
            Some((wallet, r1)) => match dec_pubkey(r1) {
            Some((mint, r2)) => match dec_u64(r2) {
            Some((window_start_epoch, r3)) => match dec_u128(r3) {
            Some((minted_in_window, r4)) => match dec_u64(r4) {
            Some((last_mint_epoch, r5)) => match dec_u32(r5) {
            Some((anomaly_score, r6)) => match dec_bool(r6) {
            Some((blocked, r7)) => match dec_u128(r7) {
            Some((subsidy_used_in_window, r8)) => Some((WalletMintWindow { wallet, mint, window_start_epoch, minted_in_window, last_mint_epoch, anomaly_score, blocked, subsidy_used_in_window }, r8)),
            None => None,
        },
            None => None,
        },
            None => None,
        },
            None => None,
        },
            None => None,
        },
            None => None,
        },
            None => None,
        },
            None => None,
        }
}

pub fn read_wallet_mint_window(d: &[u8], pos: usize) -> (r: Option<(WalletMintWindow, usize)>)
    requires
        pos <= d@.len(),
    ensures
        read_ok(dec_wallet_mint_window(d@.skip(pos as int)), r, d@),
{
    proof {
        reveal(dec_wallet_mint_window);
    }
    match read_pubkey(d, pos) {
        None => None,
        Some((wallet, p1)) => match read_pubkey(d, p1) {
        None => None,
        Some((mint, p2)) => match read_u64(d, p2) {
        None => None,
        Some((window_start_epoch, p3)) => match read_u128(d, p3) {
        None => None,
        Some((minted_in_window, p4)) => match read_u64(d, p4) {
        None => None,
        Some((last_mint_epoch, p5)) => match read_u32(d, p5) {
        None => None,
        Some((anomaly_score, p6)) => match read_bool(d, p6) {
        None => None,
        Some((blocked, p7)) => match read_u128(d, p7) {
        None => None,
        Some((subsidy_used_in_window, p8)) => Some((WalletMintWindow { wallet, mint, window_start_epoch, minted_in_window, last_mint_epoch, anomaly_score, blocked, subsidy_used_in_window }, p8)),
    },
    },
    },
    },
    },
    },
    },
    }
}

pub fn write_wallet_mint_window(out: &mut Vec<u8>, v: &WalletMintWindow)
    ensures
        final(out)@ == old(out)@ + enc_wallet_mint_window(*v),
{
    proof {
        reveal(enc_wallet_mint_window);
    }
    write_pubkey(out, &v.wallet);
    let ghost o0 = out@;
    write_pubkey(out, &v.mint);
    let ghost o1 = out@;
    write_u64(out, *&v.window_start_epoch);
    let ghost o2 = out@;
    write_u128(out, *&v.minted_in_window);
    let ghost o3 = out@;
    write_u64(out, *&v.last_mint_epoch);
    let ghost o4 = out@;
    write_u32(out, *&v.anomaly_score);
    let ghost o5 = out@;
    write_bool(out, *&v.blocked);
    let ghost o6 = out@;
    write_u128(out, *&v.subsidy_used_in_window);
    let ghost o7 = out@;
    proof {
        lemma_assoc(o5, enc_bool((*v).blocked), enc_u128((*v).subsidy_used_in_window));
        lemma_assoc(o4, enc_u32((*v).anomaly_score), enc_bool((*v).blocked) + (enc_u128((*v).subsidy_used_in_window)));
        lemma_assoc(o3, enc_u64((*v).last_mint_epoch), enc_u32((*v).anomaly_score) + (enc_bool((*v).blocked) + (enc_u128((*v).subsidy_used_in_window))));
        lemma_assoc(o2, enc_u128((*v).minted_in_window), enc_u64((*v).last_mint_epoch) + (enc_u32((*v).anomaly_score) + (enc_bool((*v).blocked) + (enc_u128((*v).subsidy_used_in_window)))));
        lemma_assoc(o1, enc_u64((*v).window_start_epoch), enc_u128((*v).minted_in_window) + (enc_u64((*v).last_mint_epoch) + (enc_u32((*v).anomaly_score) + (enc_bool((*v).blocked) + (enc_u128((*v).subsidy_used_in_window))))));
        lemma_assoc(o0, enc_pubkey((*v).mint), enc_u64((*v).window_start_epoch) + (enc_u128((*v).minted_in_window) + (enc_u64((*v).last_mint_epoch) + (enc_u32((*v).anomaly_score) + (enc_bool((*v).blocked) + (enc_u128((*v).subsidy_used_in_window)))))));
        lemma_assoc(old(out)@, enc_pubkey((*v).wallet), enc_pubkey((*v).mint) + (enc_u64((*v).window_start_epoch) + (enc_u128((*v).minted_in_window) + (enc_u64((*v).last_mint_epoch) + (enc_u32((*v).anomaly_score) + (enc_bool((*v).blocked) + (enc_u128((*v).subsidy_used_in_window))))))));
    }
}

pub proof fn lemma_wallet_mint_window(v: WalletMintWindow, rest: Seq<u8>)
    ensures
        dec_wallet_mint_window(enc_wallet_mint_window(v) + rest) == Some((v, rest)),
{
    reveal(enc_wallet_mint_window);
    reveal(dec_wallet_mint_window);
    lemma_assoc(enc_pubkey(v.wallet), enc_pubkey(v.mint) + (enc_u64(v.window_start_epoch) + (enc_u128(v.minted_in_window) + (enc_u64(v.last_mint_epoch) + (enc_u32(v.anomaly_score) + (enc_bool(v.blocked) + (enc_u128(v.subsidy_used_in_window))))))), rest);
    lemma_pubkey(v.wallet, enc_pubkey(v.mint) + (enc_u64(v.window_start_epoch) + (enc_u128(v.minted_in_window) + (enc_u64(v.last_mint_epoch) + (enc_u32(v.anomaly_score) + (enc_bool(v.blocked) + (enc_u128(v.subsidy_used_in_window))))))) + rest);
    lemma_assoc(enc_pubkey(v.mint), enc_u64(v.window_start_epoch) + (enc_u128(v.minted_in_window) + (enc_u64(v.last_mint_epoch) + (enc_u32(v.anomaly_score) + (enc_bool(v.blocked) + (enc_u128(v.subsidy_used_in_window)))))), rest);
    lemma_pubkey(v.mint, enc_u64(v.window_start_epoch) + (enc_u128(v.minted_in_window) + (enc_u64(v.last_mint_epoch) + (enc_u32(v.anomaly_score) + (enc_bool(v.blocked) + (enc_u128(v.subsidy_used_in_window)))))) + rest);
    lemma_assoc(enc_u64(v.window_start_epoch), enc_u128(v.minted_in_window) + (enc_u64(v.last_mint_epoch) + (enc_u32(v.anomaly_score) + (enc_bool(v.blocked) + (enc_u128(v.subsidy_used_in_window))))), rest);
    lemma_u64(v.window_start_epoch, enc_u128(v.minted_in_window) + (enc_u64(v.last_mint_epoch) + (enc_u32(v.anomaly_score) + (enc_bool(v.blocked) + (enc_u128(v.subsidy_used_in_window))))) + rest);
    lemma_assoc(enc_u128(v.minted_in_window), enc_u64(v.last_mint_epoch) + (enc_u32(v.anomaly_score) + (enc_bool(v.blocked) + (enc_u128(v.subsidy_used_in_window)))), rest);
    lemma_u128(v.minted_in_window, enc_u64(v.last_mint_epoch) + (enc_u32(v.anomaly_score) + (enc_bool(v.blocked) + (enc_u128(v.subsidy_used_in_window)))) + rest);
    lemma_assoc(enc_u64(v.last_mint_epoch), enc_u32(v.anomaly_score) + (enc_bool(v.blocked) + (enc_u128(v.subsidy_used_in_window))), rest);
    lemma_u64(v.last_mint_epoch, enc_u32(v.anomaly_score) + (enc_bool(v.blocked) + (enc_u128(v.subsidy_used_in_window))) + rest);
    lemma_assoc(enc_u32(v.anomaly_score), enc_bool(v.blocked) + (enc_u128(v.subsidy_used_in_window)), rest);
    lemma_u32(v.anomaly_score, enc_bool(v.blocked) + (enc_u128(v.subsidy_used_in_window)) + rest);
    lemma_assoc(enc_bool(v.blocked), enc_u128(v.subsidy_used_in_window), rest);
    lemma_bool(v.blocked, enc_u128(v.subsidy_used_in_window) + rest);
    lemma_u128(v.subsidy_used_in_window, rest);
}

/// Decodes a [`WalletMintWindow`] that must take up all of `d`.
pub fn wallet_mint_window_from_slice(d: &[u8]) -> (r: Option<WalletMintWindow>)
    ensures
        r is Some <==> (dec_wallet_mint_window(d@) matches Some((_, rest)) && rest.len() == 0),
        r matches Some(v) ==> dec_wallet_mint_window(d@) == Some((v, Seq::<u8>::empty())),
{
    assert(d@.skip(0) =~= d@);
    match read_wallet_mint_window(d, 0) {
        None => None,
        Some((v, p)) => {
            if p == d.len() {
                assert(d@.skip(p as int) =~= Seq::<u8>::empty());
                Some(v)
            } else {
                None
            }
        },
    }
}

/// Decodes a [`WalletMintWindow`] from the front of `d`, ignoring what follows it.
pub fn wallet_mint_window_from_prefix(d: &[u8]) -> (r: Option<WalletMintWindow>)
    ensures
        r is Some <==> dec_wallet_mint_window(d@) is Some,
        r matches Some(v) ==> dec_wallet_mint_window(d@) matches Some((m, _)) && m == v,
{
    assert(d@.skip(0) =~= d@);
    match read_wallet_mint_window(d, 0) {
        None => None,
        Some((v, _)) => Some(v),
    }
}

/// Serialises a [`WalletMintWindow`].
pub fn wallet_mint_window_to_vec(v: &WalletMintWindow) -> (r: Vec<u8>)
    ensures
        r@ == enc_wallet_mint_window(*v),
{
    let mut out: Vec<u8> = Vec::new();
    write_wallet_mint_window(&mut out, v);
    assert(out@ =~= enc_wallet_mint_window(*v));
    out
}


pub open spec fn enc_items_wallet_mint_window(xs: Seq<WalletMintWindow>) -> Seq<u8>
    decreases xs.len(),
{
    if xs.len() == 0 {
        Seq::empty()
    } else {
        enc_items_wallet_mint_window(xs.drop_last()) + enc_wallet_mint_window(xs.last())
    }
}

pub open spec fn dec_items_wallet_mint_window(s: Seq<u8>, n: nat) -> Option<(Seq<WalletMintWindow>, Seq<u8>)>
    decreases n,
{
    if n == 0 {
        Some((Seq::empty(), s))
    } else {
        match dec_items_wallet_mint_window(s, (n - 1) as nat) {
            Some((xs, r)) => match dec_wallet_mint_window(r) {
                Some((x, r2)) => Some((xs.push(x), r2)),
                None => None,
            },
            None => None,
        }
    }
}

pub open spec fn enc_vec_wallet_mint_window(xs: Seq<WalletMintWindow>) -> Seq<u8> {
    enc_u32(xs.len() as u32) + enc_items_wallet_mint_window(xs)
}

pub open spec fn dec_vec_wallet_mint_window(s: Seq<u8>) -> Option<(Seq<WalletMintWindow>, Seq<u8>)> {
    match dec_u32(s) {
        Some((n, r)) => dec_items_wallet_mint_window(r, n as nat),
        None => None,
    }
}


pub open spec fn fits_vec_wallet_mint_window(xs: Seq<WalletMintWindow>) -> bool {
    fits_u32(xs.len())
}


pub open spec fn model_vec_wallet_mint_window(v: Seq<WalletMintWindow>) -> Seq<WalletMintWindow> {
    v
}

pub proof fn lemma_items_none_wallet_mint_window(s: Seq<u8>, k: nat, n: nat)
    requires
        k <= n,
        dec_items_wallet_mint_window(s, k) is None,
    ensures
        dec_items_wallet_mint_window(s, n) is None,
    decreases n - k,
{
    if k < n {
        lemma_items_none_wallet_mint_window(s, k, (n - 1) as nat);
    }
}

pub fn read_vec_wallet_mint_window(d: &[u8], pos: usize) -> (r: Option<(Vec<WalletMintWindow>, usize)>)
    requires
        pos <= d@.len(),
    ensures
        match r {
            None => dec_vec_wallet_mint_window(d@.skip(pos as int)) is None,
            Some((v, p)) => p <= d@.len() && dec_vec_wallet_mint_window(d@.skip(pos as int)) == Some((model_vec_wallet_mint_window(v@), d@.skip(p as int))),
        },
{
    match read_u32(d, pos) {
        None => None,
        Some((n, p0)) => {
            let mut v: Vec<WalletMintWindow> = Vec::new();
            let mut p = p0;
            let mut i: u32 = 0;
            while i < n
                invariant
                    p <= d@.len(),
                    pos <= d@.len(),
                    dec_u32(d@.skip(pos as int)) == Some((n, d@.skip(p0 as int))),
                    i <= n,
                    v@.len() == i,
                    dec_items_wallet_mint_window(d@.skip(p0 as int), i as nat) == Some((model_vec_wallet_mint_window(v@), d@.skip(p as int))),
                decreases n - i,
            {
                match read_wallet_mint_window(d, p) {
                    None => {
                        proof {
                            assert(dec_wallet_mint_window(d@.skip(p as int)) is None);
                            assert(dec_items_wallet_mint_window(d@.skip(p0 as int), (i + 1) as nat) is None);
                            lemma_items_none_wallet_mint_window(d@.skip(p0 as int), (i + 1) as nat, n as nat);
                        }
                        return None;
                    },
                    Some((x, p2)) => {
                        let ghost old_v = v@;
                        v.push(x);
                        proof {
                            assert(model_vec_wallet_mint_window(v@) =~= model_vec_wallet_mint_window(old_v).push(x));
                        }
                        p = p2;
                        i = i + 1;
                    },
                }
            }
            Some((v, p))
        },
    }
}


pub fn write_vec_wallet_mint_window(out: &mut Vec<u8>, v: &Vec<WalletMintWindow>) -> (ok: bool)
    ensures
        ok == fits_vec_wallet_mint_window(model_vec_wallet_mint_window(v@)),
        ok ==> final(out)@ == old(out)@ + enc_vec_wallet_mint_window(model_vec_wallet_mint_window(v@)),
{
    if v.len() > u32::MAX as usize {
        return false;
    }
    write_u32(out, v.len() as u32);
    let ghost base = out@;
    let mut i: usize = 0;
    while i < v.len()
        invariant
            i <= v@.len(),
            v@.len() <= u32::MAX,
            out@ == base + enc_items_wallet_mint_window(model_vec_wallet_mint_window(v@).take(i as int)),
        decreases v@.len() - i,
    {
        write_wallet_mint_window(out, &v[i]);
        proof {
            assert(model_vec_wallet_mint_window(v@).take(i + 1).drop_last() =~= model_vec_wallet_mint_window(v@).take(i as int));
            assert(model_vec_wallet_mint_window(v@).take(i + 1).last() == model_vec_wallet_mint_window(v@)[i as int]);
        }
        i = i + 1;
    }
    proof {
        assert(model_vec_wallet_mint_window(v@).take(v@.len() as int) =~= model_vec_wallet_mint_window(v@));
    }
    true
}


pub proof fn lemma_items_wallet_mint_window(xs: Seq<WalletMintWindow>, rest: Seq<u8>)
    requires
        true,
    ensures
        dec_items_wallet_mint_window(enc_items_wallet_mint_window(xs) + rest, xs.len()) == Some((xs, rest)),
    decreases xs.len(),
{
    if xs.len() == 0 {
        assert(enc_items_wallet_mint_window(xs) + rest =~= rest);
        assert(xs =~= Seq::<WalletMintWindow>::empty());
    } else {
        let init = xs.drop_last();
        let last = xs.last();
        assert forall|i: int| 0 <= i < init.len() implies init[i] == xs[i] by {}
        lemma_items_wallet_mint_window(init, enc_wallet_mint_window(last) + rest);
        assert(enc_items_wallet_mint_window(xs) + rest =~= enc_items_wallet_mint_window(init) + (enc_wallet_mint_window(last) + rest));
        lemma_wallet_mint_window(last, rest);
        assert(init.push(last) =~= xs);
    }
}

pub proof fn lemma_vec_wallet_mint_window(xs: Seq<WalletMintWindow>, rest: Seq<u8>)
    requires
        fits_vec_wallet_mint_window(xs),
    ensures
        dec_vec_wallet_mint_window(enc_vec_wallet_mint_window(xs) + rest) == Some((xs, rest)),
{
    assert(enc_vec_wallet_mint_window(xs) + rest =~= enc_u32(xs.len() as u32) + (enc_items_wallet_mint_window(xs) + rest));
    lemma_u32(xs.len() as u32, enc_items_wallet_mint_window(xs) + rest);
    lemma_items_wallet_mint_window(xs, rest);
}

/// The public-mint state account.
#[derive(Clone, Debug, PartialEq, Eq)]
pub struct PublicMintState {
    pub policy: PublicMintPolicy,
    pub wallet_windows: Vec<WalletMintWindow>,
    pub blocklist: Vec<Pubkey>,
    pub allowlist: Vec<Pubkey>,
}

/// Mathematical model of [`PublicMintState`].
#[verifier::ext_equal]
pub struct PublicMintStateModel {
    pub policy: PublicMintPolicy,
    pub wallet_windows: Seq<WalletMintWindow>,
    pub blocklist: Seq<Pubkey>,
    pub allowlist: Seq<Pubkey>,
}

impl View for PublicMintState {
    type V = PublicMintStateModel;

    open spec fn view(&self) -> PublicMintStateModel {
        PublicMintStateModel {
            policy: self.policy,
            wallet_windows: self.wallet_windows@,
            blocklist: self.blocklist@,
            allowlist: self.allowlist@,
        }
    }
}

#[verifier::opaque]
pub open spec fn enc_public_mint_state(v: PublicMintStateModel) -> Seq<u8> {
    enc_public_mint_policy(v.policy) + (enc_vec_wallet_mint_window(v.wallet_windows) + (enc_vec_pubkey(v.blocklist) + (enc_vec_pubkey(v.allowlist))))
}

#[verifier::opaque]
pub open spec fn dec_public_mint_state(s: Seq<u8>) -> Option<(PublicMintStateModel, Seq<u8>)> {
    match dec_public_mint_policy(s) {
            Some((policy, r1)) => match dec_vec_wallet_mint_window(r1) {
            Some((wallet_windows, r2)) => match dec_vec_pubkey(r2) {
            Some((blocklist, r3)) => match dec_vec_pubkey(r3) {
            Some((allowlist, r4)) => Some((PublicMintStateModel { policy, wallet_windows, blocklist, allowlist }, r4)),
            None => None,
        },
            None => None,
        },
            None => None,
        },
            None => None,
        }
}

pub open spec fn fits_public_mint_state(v: PublicMintStateModel) -> bool {
    fits_vec_wallet_mint_window(v.wallet_windows) && fits_vec_pubkey(v.blocklist) && fits_vec_pubkey(v.allowlist)
}

pub fn read_public_mint_state(d: &[u8], pos: usize) -> (r: Option<(PublicMintState, usize)>)
    requires
        pos <= d@.len(),
    ensures
        match r {
            None => dec_public_mint_state(d@.skip(pos as int)) is None,
            Some((v, p)) => p <= d@.len() && dec_public_mint_state(d@.skip(pos as int)) == Some((v@, d@.skip(p as int))),
        },
{
    proof {
        reveal(dec_public_mint_state);
    }
    match read_public_mint_policy(d, pos) {
        None => None,
        Some((policy, p1)) => match read_vec_wallet_mint_window(d, p1) {
        None => None,
        Some((wallet_windows, p2)) => match read_vec_pubkey(d, p2) {
        None => None,
        Some((blocklist, p3)) => match read_vec_pubkey(d, p3) {
        None => None,
        Some((allowlist, p4)) => Some((PublicMintState { policy, wallet_windows, blocklist, allowlist }, p4)),
    },
    },
    },
    }
}

pub fn write_public_mint_state(out: &mut Vec<u8>, v: &PublicMintState) -> (ok: bool)
    ensures
        ok == fits_public_mint_state(v@),
        ok ==> final(out)@ == old(out)@ + enc_public_mint_state(v@),
{
    proof {
        reveal(enc_public_mint_state);
    }
    write_public_mint_policy(out, &v.policy);
    let ghost o0 = out@;
    if !write_vec_wallet_mint_window(out, &v.wallet_windows) { return false; }
    let ghost o1 = out@;
    if !write_vec_pubkey(out, &v.blocklist) { return false; }
    let ghost o2 = out@;
    if !write_vec_pubkey(out, &v.allowlist) { return false; }
    let ghost o3 = out@;
    proof {
        lemma_assoc(o1, enc_vec_pubkey(v@.blocklist), enc_vec_pubkey(v@.allowlist));
        lemma_assoc(o0, enc_vec_wallet_mint_window(v@.wallet_windows), enc_vec_pubkey(v@.blocklist) + (enc_vec_pubkey(v@.allowlist)));
        lemma_assoc(old(out)@, enc_public_mint_policy(v@.policy), enc_vec_wallet_mint_window(v@.wallet_windows) + (enc_vec_pubkey(v@.blocklist) + (enc_vec_pubkey(v@.allowlist))));
    }
    true
}

pub proof fn lemma_public_mint_state(v: PublicMintStateModel, rest: Seq<u8>)
    requires
        fits_public_mint_state(v),
    ensures
        dec_public_mint_state(enc_public_mint_state(v) + rest) == Some((v, rest)),
{
    reveal(enc_public_mint_state);
    reveal(dec_public_mint_state);
    lemma_assoc(enc_public_mint_policy(v.policy), enc_vec_wallet_mint_window(v.wallet_windows) + (enc_vec_pubkey(v.blocklist) + (enc_vec_pubkey(v.allowlist))), rest);
    lemma_public_mint_policy(v.policy, enc_vec_wallet_mint_window(v.wallet_windows) + (enc_vec_pubkey(v.blocklist) + (enc_vec_pubkey(v.allowlist))) + rest);
    lemma_assoc(enc_vec_wallet_mint_window(v.wallet_windows), enc_vec_pubkey(v.blocklist) + (enc_vec_pubkey(v.allowlist)), rest);
    lemma_vec_wallet_mint_window(v.wallet_windows, enc_vec_pubkey(v.blocklist) + (enc_vec_pubkey(v.allowlist)) + rest);
    lemma_assoc(enc_vec_pubkey(v.blocklist), enc_vec_pubkey(v.allowlist), rest);
    lemma_vec_pubkey(v.blocklist, enc_vec_pubkey(v.allowlist) + rest);
    lemma_vec_pubkey(v.allowlist, rest);
}

/// Decodes a [`PublicMintState`] that must take up all of `d`.
pub fn public_mint_state_from_slice(d: &[u8]) -> (r: Option<PublicMintState>)
    ensures
        r is Some <==> (dec_public_mint_state(d@) matches Some((_, rest)) && rest.len() == 0),
        r matches Some(v) ==> dec_public_mint_state(d@) == Some((v@, Seq::<u8>::empty())),
{
    assert(d@.skip(0) =~= d@);
    match read_public_mint_state(d, 0) {
        None => None,
        Some((v, p)) => {
            if p == d.len() {
                assert(d@.skip(p as int) =~= Seq::<u8>::empty());
                Some(v)
            } else {
                None
            }
        },
    }
}

/// Decodes a [`PublicMintState`] from the front of `d`, ignoring what follows it.
pub fn public_mint_state_from_prefix(d: &[u8]) -> (r: Option<PublicMintState>)
    ensures
        r is Some <==> dec_public_mint_state(d@) is Some,
        r matches Some(v) ==> dec_public_mint_state(d@) matches Some((m, _)) && m == v@,
{
    assert(d@.skip(0) =~= d@);
    match read_public_mint_state(d, 0) {
        None => None,
        Some((v, _)) => Some(v),
    }
}

/// Serialises a [`PublicMintState`]; `None` when a length does not fit the `u32` prefix.
pub fn public_mint_state_to_vec(v: &PublicMintState) -> (r: Option<Vec<u8>>)
    ensures
        r is Some <==> fits_public_mint_state(v@),
        r matches Some(b) ==> b@ == enc_public_mint_state(v@),
{
    let mut out: Vec<u8> = Vec::new();
    if write_public_mint_state(&mut out, v) {
        assert(out@ =~= enc_public_mint_state(v@));
        Some(out)
    } else {
        None
    }
}

/// Instructions of the public-mint program.
#[derive(Clone, Debug, PartialEq, Eq)]
pub enum PublicMintInstruction {
    InitializePolicy{ state: PublicMintState },
    UpdatePolicy{ policy: PublicMintPolicy },
    AddToBlocklist{ wallet: Pubkey },
    RemoveFromBlocklist{ wallet: Pubkey },
    AddToAllowlist{ wallet: Pubkey },
    RemoveFromAllowlist{ wallet: Pubkey },
    PublicMint{ current_epoch: u64, amount: u128, app_id: Option<Pubkey>, requested_subsidy: u128 },
}

/// Mathematical model of [`PublicMintInstruction`].
pub enum PublicMintInstructionModel {
    InitializePolicy{ state: PublicMintStateModel },
    UpdatePolicy{ policy: PublicMintPolicy },
    AddToBlocklist{ wallet: Pubkey },
    RemoveFromBlocklist{ wallet: Pubkey },
    AddToAllowlist{ wallet: Pubkey },
    RemoveFromAllowlist{ wallet: Pubkey },
    PublicMint{ current_epoch: u64, amount: u128, app_id: Option<Pubkey>, requested_subsidy: u128 },
}

impl View for PublicMintInstruction {
    type V = PublicMintInstructionModel;

    open spec fn view(&self) -> PublicMintInstructionModel {
        match self {
            PublicMintInstruction::InitializePolicy{ state } => PublicMintInstructionModel::InitializePolicy{ state: (*state)@ },
            PublicMintInstruction::UpdatePolicy{ policy } => PublicMintInstructionModel::UpdatePolicy{ policy: (*policy) },
            PublicMintInstruction::AddToBlocklist{ wallet } => PublicMintInstructionModel::AddToBlocklist{ wallet: (*wallet) },
            PublicMintInstruction::RemoveFromBlocklist{ wallet } => PublicMintInstructionModel::RemoveFromBlocklist{ wallet: (*wallet) },
            PublicMintInstruction::AddToAllowlist{ wallet } => PublicMintInstructionModel::AddToAllowlist{ wallet: (*wallet) },
            PublicMintInstruction::RemoveFromAllowlist{ wallet } => PublicMintInstructionModel::RemoveFromAllowlist{ wallet: (*wallet) },
            PublicMintInstruction::PublicMint{ current_epoch, amount, app_id, requested_subsidy } => PublicMintInstructionModel::PublicMint{ current_epoch: (*current_epoch), amount: (*amount), app_id: (*app_id), requested_subsidy: (*requested_subsidy) },
        }
    }
}

#[verifier::opaque]
pub open spec fn enc_public_mint_instruction(v: PublicMintInstructionModel) -> Seq<u8> {
    match v {
        PublicMintInstructionModel::InitializePolicy{ state } => seq![0u8] + (enc_public_mint_state(state)),
        PublicMintInstructionModel::UpdatePolicy{ policy } => seq![1u8] + (enc_public_mint_policy(policy)),
        PublicMintInstructionModel::AddToBlocklist{ wallet } => seq![2u8] + (enc_pubkey(wallet)),
        PublicMintInstructionModel::RemoveFromBlocklist{ wallet } => seq![3u8] + (enc_pubkey(wallet)),
        PublicMintInstructionModel::AddToAllowlist{ wallet } => seq![4u8] + (enc_pubkey(wallet)),
        PublicMintInstructionModel::RemoveFromAllowlist{ wallet } => seq![5u8] + (enc_pubkey(wallet)),
        PublicMintInstructionModel::PublicMint{ current_epoch, amount, app_id, requested_subsidy } => seq![6u8] + (enc_u64(current_epoch) + (enc_u128(amount) + (enc_opt_pubkey(app_id) + (enc_u128(requested_subsidy))))),
    }
}

#[verifier::opaque]
pub open spec fn dec_public_mint_instruction(s: Seq<u8>) -> Option<(PublicMintInstructionModel, Seq<u8>)> {
    if s.len() == 0 {
        None
    } else if s[0] == 0 {
        let r0 = s.skip(1);
        match dec_public_mint_state(r0) {
            Some((state, r1)) => Some((PublicMintInstructionModel::InitializePolicy{ state }, r1)),
            None => None,
        }
    } else if s[0] == 1 {
        let r0 = s.skip(1);
        match dec_public_mint_policy(r0) {
            Some((policy, r1)) => Some((PublicMintInstructionModel::UpdatePolicy{ policy }, r1)),
            None => None,
        }
    } else if s[0] == 2 {
        let r0 = s.skip(1);
        match dec_pubkey(r0) {
            Some((wallet, r1)) => Some((PublicMintInstructionModel::AddToBlocklist{ wallet }, r1)),
            None => None,
        }
    } else if s[0] == 3 {
        let r0 = s.skip(1);
        match dec_pubkey(r0) {
            Some((wallet, r1)) => Some((PublicMintInstructionModel::RemoveFromBlocklist{ wallet }, r1)),
            None => None,
        }
    } else if s[0] == 4 {
        let r0 = s.skip(1);
        match dec_pubkey(r0) {
            Some((wallet, r1)) => Some((PublicMintInstructionModel::AddToAllowlist{ wallet }, r1)),
            None => None,
        }
    } else if s[0] == 5 {
        let r0 = s.skip(1);
        match dec_pubkey(r0) {
            Some((wallet, r1)) => Some((PublicMintInstructionModel::RemoveFromAllowlist{ wallet }, r1)),
            None => None,
        }
    } else if s[0] == 6 {
        let r0 = s.skip(1);
        match dec_u64(r0) {
            Some((current_epoch, r1)) => match dec_u128(r1) {
            Some((amount, r2)) => match dec_opt_pubkey(r2) {
            Some((app_id, r3)) => match dec_u128(r3) {
            Some((requested_subsidy, r4)) => Some((PublicMintInstructionModel::PublicMint{ current_epoch, amount, app_id, requested_subsidy }, r4)),
            None => None,
        },
            None => None,
        },
            None => None,
        },
            None => None,
        }
    } else { None }
}

pub open spec fn fits_public_mint_instruction(v: PublicMintInstructionModel) -> bool {
    match v {
        PublicMintInstructionModel::InitializePolicy{ state } => fits_public_mint_state(state),
        PublicMintInstructionModel::UpdatePolicy{ policy } => true,
        PublicMintInstructionModel::AddToBlocklist{ wallet } => true,
        PublicMintInstructionModel::RemoveFromBlocklist{ wallet } => true,
        PublicMintInstructionModel::AddToAllowlist{ wallet } => true,
        PublicMintInstructionModel::RemoveFromAllowlist{ wallet } => true,
        PublicMintInstructionModel::PublicMint{ current_epoch, amount, app_id, requested_subsidy } => true,
    }
}

pub fn read_public_mint_instruction(d: &[u8], pos: usize) -> (r: Option<(PublicMintInstruction, usize)>)
    requires
        pos <= d@.len(),
    ensures
        match r {
            None => dec_public_mint_instruction(d@.skip(pos as int)) is None,
            Some((v, p)) => p <= d@.len() && dec_public_mint_instruction(d@.skip(pos as int)) == Some((v@, d@.skip(p as int))),
        },
{
    proof {
        reveal(dec_public_mint_instruction);
    }
    match read_u8(d, pos) {
        None => None,
        Some((tag, p0)) => {
            proof {
                lemma_skip_skip(d@, pos as int, 1);
            }
            match tag {
            0 => match read_public_mint_state(d, p0) {
                None => None,
                Some((state, p1)) => Some((PublicMintInstruction::InitializePolicy{ state }, p1)),
            },
            1 => match read_public_mint_policy(d, p0) {
                None => None,
                Some((policy, p1)) => Some((PublicMintInstruction::UpdatePolicy{ policy }, p1)),
            },
            2 => match read_pubkey(d, p0) {
                None => None,
                Some((wallet, p1)) => Some((PublicMintInstruction::AddToBlocklist{ wallet }, p1)),
            },
            3 => match read_pubkey(d, p0) {
                None => None,
                Some((wallet, p1)) => Some((PublicMintInstruction::RemoveFromBlocklist{ wallet }, p1)),
            },
            4 => match read_pubkey(d, p0) {
                None => None,
                Some((wallet, p1)) => Some((PublicMintInstruction::AddToAllowlist{ wallet }, p1)),
            },
            5 => match read_pubkey(d, p0) {
                None => None,
                Some((wallet, p1)) => Some((PublicMintInstruction::RemoveFromAllowlist{ wallet }, p1)),
            },
            6 => match read_u64(d, p0) {
                None => None,
                Some((current_epoch, p1)) => match read_u128(d, p1) {
                None => None,
                Some((amount, p2)) => match read_opt_pubkey(d, p2) {
                None => None,
                Some((app_id, p3)) => match read_u128(d, p3) {
                None => None,
                Some((requested_subsidy, p4)) => Some((PublicMintInstruction::PublicMint{ current_epoch, amount, app_id, requested_subsidy }, p4)),
            },
            },
            },
            },
            _ => None,
            }
        },
    }
}

pub fn write_public_mint_instruction(out: &mut Vec<u8>, v: &PublicMintInstruction) -> (ok: bool)
    ensures
        ok == fits_public_mint_instruction(v@),
        ok ==> final(out)@ == old(out)@ + enc_public_mint_instruction(v@),
{
    proof {
        reveal(enc_public_mint_instruction);
    }
    match v {
        PublicMintInstruction::InitializePolicy{ state } => {
            out.push(0u8);
            let ghost ot = out@;
            assert(ot =~= old(out)@ + seq![0u8]);
            if !write_public_mint_state(out, state) { return false; }
            let ghost o0 = out@;
            proof {
            }
            proof {
                lemma_assoc(old(out)@, seq![0u8], enc_public_mint_state((*state)@));
            }
        },
        PublicMintInstruction::UpdatePolicy{ policy } => {
            out.push(1u8);
            let ghost ot = out@;
            assert(ot =~= old(out)@ + seq![1u8]);
            write_public_mint_policy(out, policy);
            let ghost o0 = out@;
            proof {
            }
            proof {
                lemma_assoc(old(out)@, seq![1u8], enc_public_mint_policy((*policy)));
            }
        },
        PublicMintInstruction::AddToBlocklist{ wallet } => {
            out.push(2u8);
            let ghost ot = out@;
            assert(ot =~= old(out)@ + seq![2u8]);
            write_pubkey(out, wallet);
            let ghost o0 = out@;
            proof {
            }
            proof {
                lemma_assoc(old(out)@, seq![2u8], enc_pubkey((*wallet)));
            }
        },
        PublicMintInstruction::RemoveFromBlocklist{ wallet } => {
            out.push(3u8);
            let ghost ot = out@;
            assert(ot =~= old(out)@ + seq![3u8]);
            write_pubkey(out, wallet);
            let ghost o0 = out@;
            proof {
            }
            proof {
                lemma_assoc(old(out)@, seq![3u8], enc_pubkey((*wallet)));
            }
        },
        PublicMintInstruction::AddToAllowlist{ wallet } => {
            out.push(4u8);
            let ghost ot = out@;
            assert(ot =~= old(out)@ + seq![4u8]);
            write_pubkey(out, wallet);
            let ghost o0 = out@;
            proof {
            }
            proof {
                lemma_assoc(old(out)@, seq![4u8], enc_pubkey((*wallet)));
            }
        },
        PublicMintInstruction::RemoveFromAllowlist{ wallet } => {
            out.push(5u8);
            let ghost ot = out@;
            assert(ot =~= old(out)@ + seq![5u8]);
            write_pubkey(out, wallet);
            let ghost o0 = out@;
            proof {
            }
            proof {
                lemma_assoc(old(out)@, seq![5u8], enc_pubkey((*wallet)));
            }
        },
        PublicMintInstruction::PublicMint{ current_epoch, amount, app_id, requested_subsidy } => {
            out.push(6u8);
            let ghost ot = out@;
            assert(ot =~= old(out)@ + seq![6u8]);
            write_u64(out, *current_epoch);
            let ghost o0 = out@;
            write_u128(out, *amount);
            let ghost o1 = out@;
            write_opt_pubkey(out, app_id);
            let ghost o2 = out@;
            write_u128(out, *requested_subsidy);
            let ghost o3 = out@;
            proof {
                lemma_assoc(o1, enc_opt_pubkey((*app_id)), enc_u128((*requested_subsidy)));
                lemma_assoc(o0, enc_u128((*amount)), enc_opt_pubkey((*app_id)) + (enc_u128((*requested_subsidy))));
                lemma_assoc(ot, enc_u64((*current_epoch)), enc_u128((*amount)) + (enc_opt_pubkey((*app_id)) + (enc_u128((*requested_subsidy)))));
            }
            proof {
                lemma_assoc(old(out)@, seq![6u8], enc_u64((*current_epoch)) + (enc_u128((*amount)) + (enc_opt_pubkey((*app_id)) + (enc_u128((*requested_subsidy))))));
            }
        },
    }
    true
}

proof fn lemma_public_mint_instruction_initialize_policy(state: PublicMintStateModel, rest: Seq<u8>)
    requires
        fits_public_mint_state(state),
    ensures
        dec_public_mint_instruction(enc_public_mint_instruction(PublicMintInstructionModel::InitializePolicy{ state }) + rest) == Some((PublicMintInstructionModel::InitializePolicy{ state }, rest)),
{
    reveal(enc_public_mint_instruction);
    reveal(dec_public_mint_instruction);
    assert((enc_public_mint_instruction(PublicMintInstructionModel::InitializePolicy{ state }) + rest).skip(1) =~= (enc_public_mint_state(state)) + rest);
    lemma_public_mint_state(state, rest);
}

proof fn lemma_public_mint_instruction_update_policy(policy: PublicMintPolicy, rest: Seq<u8>)
    ensures
        dec_public_mint_instruction(enc_public_mint_instruction(PublicMintInstructionModel::UpdatePolicy{ policy }) + rest) == Some((PublicMintInstructionModel::UpdatePolicy{ policy }, rest)),
{
    reveal(enc_public_mint_instruction);
    reveal(dec_public_mint_instruction);
    assert((enc_public_mint_instruction(PublicMintInstructionModel::UpdatePolicy{ policy }) + rest).skip(1) =~= (enc_public_mint_policy(policy)) + rest);
    lemma_public_mint_policy(policy, rest);
}

proof fn lemma_public_mint_instruction_add_to_blocklist(wallet: Pubkey, rest: Seq<u8>)
    ensures
        dec_public_mint_instruction(enc_public_mint_instruction(PublicMintInstructionModel::AddToBlocklist{ wallet }) + rest) == Some((PublicMintInstructionModel::AddToBlocklist{ wallet }, rest)),
{
    reveal(enc_public_mint_instruction);
    reveal(dec_public_mint_instruction);
    assert((enc_public_mint_instruction(PublicMintInstructionModel::AddToBlocklist{ wallet }) + rest).skip(1) =~= (enc_pubkey(wallet)) + rest);
    lemma_pubkey(wallet, rest);
}

proof fn lemma_public_mint_instruction_remove_from_blocklist(wallet: Pubkey, rest: Seq<u8>)
    ensures
        dec_public_mint_instruction(enc_public_mint_instruction(PublicMintInstructionModel::RemoveFromBlocklist{ wallet }) + rest) == Some((PublicMintInstructionModel::RemoveFromBlocklist{ wallet }, rest)),
{
    reveal(enc_public_mint_instruction);
    reveal(dec_public_mint_instruction);
    assert((enc_public_mint_instruction(PublicMintInstructionModel::RemoveFromBlocklist{ wallet }) + rest).skip(1) =~= (enc_pubkey(wallet)) + rest);
    lemma_pubkey(wallet, rest);
}

proof fn lemma_public_mint_instruction_add_to_allowlist(wallet: Pubkey, rest: Seq<u8>)
    ensures
        dec_public_mint_instruction(enc_public_mint_instruction(PublicMintInstructionModel::AddToAllowlist{ wallet }) + rest) == Some((PublicMintInstructionModel::AddToAllowlist{ wallet }, rest)),
{
    reveal(enc_public_mint_instruction);
    reveal(dec_public_mint_instruction);
    assert((enc_public_mint_instruction(PublicMintInstructionModel::AddToAllowlist{ wallet }) + rest).skip(1) =~= (enc_pubkey(wallet)) + rest);
    lemma_pubkey(wallet, rest);
}

proof fn lemma_public_mint_instruction_remove_from_allowlist(wallet: Pubkey, rest: Seq<u8>)
    ensures
        dec_public_mint_instruction(enc_public_mint_instruction(PublicMintInstructionModel::RemoveFromAllowlist{ wallet }) + rest) == Some((PublicMintInstructionModel::RemoveFromAllowlist{ wallet }, rest)),
{
    reveal(enc_public_mint_instruction);
    reveal(dec_public_mint_instruction);
    assert((enc_public_mint_instruction(PublicMintInstructionModel::RemoveFromAllowlist{ wallet }) + rest).skip(1) =~= (enc_pubkey(wallet)) + rest);
    lemma_pubkey(wallet, rest);
}

proof fn lemma_public_mint_instruction_public_mint(current_epoch: u64, amount: u128, app_id: Option<Pubkey>, requested_subsidy: u128, rest: Seq<u8>)
    ensures
        dec_public_mint_instruction(enc_public_mint_instruction(PublicMintInstructionModel::PublicMint{ current_epoch, amount, app_id, requested_subsidy }) + rest) == Some((PublicMintInstructionModel::PublicMint{ current_epoch, amount, app_id, requested_subsidy }, rest)),
{
    reveal(enc_public_mint_instruction);
    reveal(dec_public_mint_instruction);
    assert((enc_public_mint_instruction(PublicMintInstructionModel::PublicMint{ current_epoch, amount, app_id, requested_subsidy }) + rest).skip(1) =~= (enc_u64(current_epoch) + (enc_u128(amount) + (enc_opt_pubkey(app_id) + (enc_u128(requested_subsidy))))) + rest);
    lemma_assoc(enc_u64(current_epoch), enc_u128(amount) + (enc_opt_pubkey(app_id) + (enc_u128(requested_subsidy))), rest);
    lemma_u64(current_epoch, enc_u128(amount) + (enc_opt_pubkey(app_id) + (enc_u128(requested_subsidy))) + rest);
    lemma_assoc(enc_u128(amount), enc_opt_pubkey(app_id) + (enc_u128(requested_subsidy)), rest);
    lemma_u128(amount, enc_opt_pubkey(app_id) + (enc_u128(requested_subsidy)) + rest);
    lemma_assoc(enc_opt_pubkey(app_id), enc_u128(requested_subsidy), rest);
    lemma_opt_pubkey(app_id, enc_u128(requested_subsidy) + rest);
    lemma_u128(requested_subsidy, rest);
}

pub proof fn lemma_public_mint_instruction(v: PublicMintInstructionModel, rest: Seq<u8>)
    requires
        fits_public_mint_instruction(v),
    ensures
        dec_public_mint_instruction(enc_public_mint_instruction(v) + rest) == Some((v, rest)),
{
    reveal(enc_public_mint_instruction);
    reveal(dec_public_mint_instruction);
    match v {
        PublicMintInstructionModel::InitializePolicy{ state } => lemma_public_mint_instruction_initialize_policy(state, rest),
        PublicMintInstructionModel::UpdatePolicy{ policy } => lemma_public_mint_instruction_update_policy(policy, rest),
        PublicMintInstructionModel::AddToBlocklist{ wallet } => lemma_public_mint_instruction_add_to_blocklist(wallet, rest),
        PublicMintInstructionModel::RemoveFromBlocklist{ wallet } => lemma_public_mint_instruction_remove_from_blocklist(wallet, rest),
        PublicMintInstructionModel::AddToAllowlist{ wallet } => lemma_public_mint_instruction_add_to_allowlist(wallet, rest),
        PublicMintInstructionModel::RemoveFromAllowlist{ wallet } => lemma_public_mint_instruction_remove_from_allowlist(wallet, rest),
        PublicMintInstructionModel::PublicMint{ current_epoch, amount, app_id, requested_subsidy } => lemma_public_mint_instruction_public_mint(current_epoch, amount, app_id, requested_subsidy, rest),
    }
}

/// Decodes a [`PublicMintInstruction`] that must take up all of `d`.
pub fn public_mint_instruction_from_slice(d: &[u8]) -> (r: Option<PublicMintInstruction>)
    ensures
        r is Some <==> (dec_public_mint_instruction(d@) matches Some((_, rest)) && rest.len() == 0),
        r matches Some(v) ==> dec_public_mint_instruction(d@) == Some((v@, Seq::<u8>::empty())),
{
    assert(d@.skip(0) =~= d@);
    match read_public_mint_instruction(d, 0) {
        None => None,
        Some((v, p)) => {
            if p == d.len() {
                assert(d@.skip(p as int) =~= Seq::<u8>::empty());
                Some(v)
            } else {
                None
            }
        },
    }
}

/// Decodes a [`PublicMintInstruction`] from the front of `d`, ignoring what follows it.
pub fn public_mint_instruction_from_prefix(d: &[u8]) -> (r: Option<PublicMintInstruction>)
    ensures
        r is Some <==> dec_public_mint_instruction(d@) is Some,
        r matches Some(v) ==> dec_public_mint_instruction(d@) matches Some((m, _)) && m == v@,
{
    assert(d@.skip(0) =~= d@);
    match read_public_mint_instruction(d, 0) {
        None => None,
        Some((v, _)) => Some(v),
    }
}

/// Serialises a [`PublicMintInstruction`]; `None` when a length does not fit the `u32` prefix.
pub fn public_mint_instruction_to_vec(v: &PublicMintInstruction) -> (r: Option<Vec<u8>>)
    ensures
        r is Some <==> fits_public_mint_instruction(v@),
        r matches Some(b) ==> b@ == enc_public_mint_instruction(v@),
{
    let mut out: Vec<u8> = Vec::new();
    if write_public_mint_instruction(&mut out, v) {
        assert(out@ =~= enc_public_mint_instruction(v@));
        Some(out)
    } else {
        None
    }
}

} // verus!
