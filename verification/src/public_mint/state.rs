//! The public-mint state account and its per-wallet windows.
use vstd::prelude::*;
use crate::errors::{decoded, ProgramError};
use crate::public_mint::types::{
    dec_public_mint_state, public_mint_state_from_prefix, PublicMintError, PublicMintState,
    PublicMintStateModel, WalletMintWindow,
};
use crate::pubkey::{contains_key, opt_key_eq, Pubkey};

verus! {

/// The window `w` belongs to `wallet` and `mint`.
pub open spec fn window_matches(w: WalletMintWindow, wallet: Pubkey, mint: Pubkey) -> bool {
    w.wallet == wallet && w.mint == mint
}

/// `i` is the first window of `wallet` and `mint`.
pub open spec fn is_first_window(ws: Seq<WalletMintWindow>, wallet: Pubkey, mint: Pubkey, i: int) -> bool {
    &&& 0 <= i < ws.len()
    &&& window_matches(ws[i], wallet, mint)
    &&& forall|j: int| 0 <= j < i ==> !window_matches(#[trigger] ws[j], wallet, mint)
}

pub open spec fn has_window(ws: Seq<WalletMintWindow>, wallet: Pubkey, mint: Pubkey) -> bool {
    exists|i: int| 0 <= i < ws.len() && window_matches(#[trigger] ws[i], wallet, mint)
}

/// Position of the first window of `wallet` and `mint` (meaningful when there is one).
pub open spec fn first_window(ws: Seq<WalletMintWindow>, wallet: Pubkey, mint: Pubkey) -> int {
    choose|i: int| is_first_window(ws, wallet, mint, i)
}

/// A fresh window opened at `epoch`.
pub open spec fn new_window(wallet: Pubkey, mint: Pubkey, epoch: u64) -> WalletMintWindow {
    WalletMintWindow {
        wallet,
        mint,
        window_start_epoch: epoch,
        minted_in_window: 0,
        last_mint_epoch: 0,
        anomaly_score: 0,
        blocked: false,
        subsidy_used_in_window: 0,
    }
}

/// A window rolled over to `epoch` once `window_epochs` have passed since it started.
pub open spec fn rolled_window(w: WalletMintWindow, epoch: u64, window_epochs: u64) -> WalletMintWindow {
    if epoch.saturating_sub(w.window_start_epoch) >= window_epochs {
        WalletMintWindow { window_start_epoch: epoch, minted_in_window: 0, subsidy_used_in_window: 0, ..w }
    } else {
        w
    }
}

/// The state after finding (rolling over if due) or opening the window of
/// `wallet` and `mint`, and the position of that window.
pub open spec fn spec_upsert(s: PublicMintStateModel, wallet: Pubkey, mint: Pubkey, epoch: u64) -> (PublicMintStateModel, int) {
    if has_window(s.wallet_windows, wallet, mint) {
        let i = first_window(s.wallet_windows, wallet, mint);
        (
            PublicMintStateModel {
                wallet_windows: s.wallet_windows.update(i, rolled_window(s.wallet_windows[i], epoch, s.policy.window_epochs)),
                ..s
            },
            i,
        )
    } else {
        (PublicMintStateModel { wallet_windows: s.wallet_windows.push(new_window(wallet, mint, epoch)), ..s }, s.wallet_windows.len() as int)
    }
}

/// The anomaly count after one more failed attempt, and the block once it
/// reaches a non-zero threshold.
pub open spec fn flagged_window(w: WalletMintWindow, threshold: u32) -> WalletMintWindow {
    let score = w.anomaly_score.saturating_add(1);
    WalletMintWindow { anomaly_score: score, blocked: if threshold > 0 && score >= threshold { true } else { w.blocked }, ..w }
}

pub open spec fn spec_note_failed(s: PublicMintStateModel, wallet: Pubkey, mint: Pubkey, epoch: u64) -> (PublicMintStateModel, int) {
    let (s1, i) = spec_upsert(s, wallet, mint, epoch);
    (
        PublicMintStateModel {
            wallet_windows: s1.wallet_windows.update(i, flagged_window(s1.wallet_windows[i], s.policy.anomaly_threshold)),
            ..s1
        },
        i,
    )
}

/// There is only one first window.
pub proof fn lemma_first_window_unique(ws: Seq<WalletMintWindow>, wallet: Pubkey, mint: Pubkey, i: int)
    requires
        is_first_window(ws, wallet, mint, i),
    ensures
        has_window(ws, wallet, mint),
        first_window(ws, wallet, mint) == i,
{
    let k = first_window(ws, wallet, mint);
    assert(is_first_window(ws, wallet, mint, k));
    if k < i {
        assert(!window_matches(ws[k], wallet, mint));
    } else if i < k {
        assert(!window_matches(ws[i], wallet, mint));
    }
}

proof fn lemma_some_first_window(ws: Seq<WalletMintWindow>, wallet: Pubkey, mint: Pubkey, i: int)
    requires
        0 <= i < ws.len(),
        window_matches(ws[i], wallet, mint),
    ensures
        exists|k: int| is_first_window(ws, wallet, mint, k),
    decreases i,
{
    if exists|j: int| 0 <= j < i && window_matches(#[trigger] ws[j], wallet, mint) {
        let j = choose|j: int| 0 <= j < i && window_matches(#[trigger] ws[j], wallet, mint);
        lemma_some_first_window(ws, wallet, mint, j);
    } else {
        assert(is_first_window(ws, wallet, mint, i));
    }
}

/// When the wallet has a window for the mint, the first one is its window.
pub proof fn lemma_first_window(ws: Seq<WalletMintWindow>, wallet: Pubkey, mint: Pubkey)
    requires
        has_window(ws, wallet, mint),
    ensures
        is_first_window(ws, wallet, mint, first_window(ws, wallet, mint)),
{
    let i = choose|i: int| 0 <= i < ws.len() && window_matches(#[trigger] ws[i], wallet, mint);
    lemma_some_first_window(ws, wallet, mint, i);
}

/// The window a request works on: the wallet's own window for the mint (its
/// first, or a fresh one at the end when it has none). Once `window_epochs`
/// have passed since that window started, it starts over at the current
/// epoch with nothing minted and no subsidy used; before that it is kept as
/// it was. Its other counters (last mint, anomaly score, block) are kept, a
/// fresh window starts clean at the current epoch, and every other window,
/// the policy and both lists are untouched.
pub proof fn law_window_rolls_over(s: PublicMintStateModel, wallet: Pubkey, mint: Pubkey, epoch: u64)
    ensures
        ({
            let (s2, i) = spec_upsert(s, wallet, mint, epoch);
            let n = s.wallet_windows.len();
            let w2 = s2.wallet_windows[i];
            &&& 0 <= i <= n
            &&& s2.wallet_windows.len() == (if i == n { n + 1int } else { n as int })
            &&& w2.wallet == wallet && w2.mint == mint
            &&& forall|j: int| 0 <= j < n && j != i ==> s2.wallet_windows[j] == s.wallet_windows[j]
            &&& s2.policy == s.policy && s2.blocklist == s.blocklist && s2.allowlist == s.allowlist
            &&& (i == n ==> {
                &&& forall|j: int| 0 <= j < n ==> !(s.wallet_windows[j].wallet == wallet && s.wallet_windows[j].mint == mint)
                &&& w2.window_start_epoch == epoch && w2.minted_in_window == 0 && w2.subsidy_used_in_window == 0
                &&& !w2.blocked && w2.anomaly_score == 0
            })
            &&& (i < n ==> {
                let w = s.wallet_windows[i];
                &&& w.wallet == wallet && w.mint == mint
                &&& forall|j: int| 0 <= j < i ==> !(s.wallet_windows[j].wallet == wallet && s.wallet_windows[j].mint == mint)
                &&& w2.last_mint_epoch == w.last_mint_epoch && w2.anomaly_score == w.anomaly_score && w2.blocked == w.blocked
                &&& (epoch >= w.window_start_epoch + s.policy.window_epochs ==>
                        w2.window_start_epoch == epoch && w2.minted_in_window == 0 && w2.subsidy_used_in_window == 0)
                &&& (w.window_start_epoch <= epoch < w.window_start_epoch + s.policy.window_epochs ==> w2 == w)
            })
        }),
{
    if has_window(s.wallet_windows, wallet, mint) {
        lemma_first_window(s.wallet_windows, wallet, mint);
        let i = first_window(s.wallet_windows, wallet, mint);
        assert forall|j: int| 0 <= j < i implies !(s.wallet_windows[j].wallet == wallet && s.wallet_windows[j].mint == mint) by {
            assert(!window_matches(s.wallet_windows[j], wallet, mint));
        }
    } else {
        assert forall|j: int| 0 <= j < s.wallet_windows.len() implies !(s.wallet_windows[j].wallet == wallet && s.wallet_windows[j].mint == mint) by {
            if s.wallet_windows[j].wallet == wallet && s.wallet_windows[j].mint == mint {
                assert(window_matches(s.wallet_windows[j], wallet, mint));
            }
        }
    }
}

impl PublicMintState {
    /// Decodes the state from the front of account data.
    pub fn deserialize_padded(input: &[u8]) -> (r: Result<Self, ProgramError>)
        ensures
            r.is_ok() == decoded(dec_public_mint_state(input@)).is_ok(),
            r matches Ok(v) ==> decoded(dec_public_mint_state(input@)) == Ok::<_, ProgramError>(v@),
            r matches Err(e) ==> e == ProgramError::InvalidAccountData,
    {
        match public_mint_state_from_prefix(input) {
            Some(v) => Ok(v),
            None => Err(ProgramError::InvalidAccountData),
        }
    }

    pub fn is_blocklisted(&self, wallet: &Pubkey) -> (r: bool)
        ensures
            r == self@.blocklist.contains(*wallet),
    {
        contains_key(&self.blocklist, wallet)
    }

    pub fn is_allowlisted(&self, wallet: &Pubkey) -> (r: bool)
        ensures
            r == self@.allowlist.contains(*wallet),
    {
        contains_key(&self.allowlist, wallet)
    }

    /// Finds the window of `wallet` and `mint`, rolling it over when its period
    /// has passed, or opens a new one; returns its position.
    pub fn upsert_wallet_window(&mut self, wallet: Pubkey, mint: Pubkey, current_epoch: u64) -> (r: usize)
        ensures
            (final(self)@, r as int) == spec_upsert(old(self)@, wallet, mint, current_epoch),
            r < final(self)@.wallet_windows.len(),
            final(self)@.wallet_windows.len() <= old(self)@.wallet_windows.len() + 1,
    {
        let ghost s = self@;
        let mut i: usize = 0;
        while i < self.wallet_windows.len()
            invariant
                self@ == s,
                s == old(self)@,
                i <= s.wallet_windows.len(),
                forall|j: int| 0 <= j < i ==> !window_matches(#[trigger] s.wallet_windows[j], wallet, mint),
            decreases s.wallet_windows.len() - i,
        {
            let w = self.wallet_windows[i];
            if w.wallet == wallet && w.mint == mint {
                proof {
                    lemma_first_window_unique(s.wallet_windows, wallet, mint, i as int);
                }
                if current_epoch.saturating_sub(w.window_start_epoch) >= self.policy.window_epochs {
                    let rolled = WalletMintWindow {
                        window_start_epoch: current_epoch,
                        minted_in_window: 0,
                        subsidy_used_in_window: 0,
                        ..w
                    };
                    self.wallet_windows.set(i, rolled);
                } else {
                    self.wallet_windows.set(i, w);
                }
                assert(self@.wallet_windows =~= spec_upsert(s, wallet, mint, current_epoch).0.wallet_windows);
                return i;
            }
            i = i + 1;
        }
        assert(!has_window(s.wallet_windows, wallet, mint));
        self.wallet_windows.push(WalletMintWindow {
            wallet,
            mint,
            window_start_epoch: current_epoch,
            minted_in_window: 0,
            last_mint_epoch: 0,
            anomaly_score: 0,
            blocked: false,
            subsidy_used_in_window: 0,
        });
        assert(self@.wallet_windows =~= spec_upsert(s, wallet, mint, current_epoch).0.wallet_windows);
        self.wallet_windows.len() - 1
    }

    /// Counts a failed attempt against the window of `wallet` and `mint`, blocking
    /// the wallet once the anomaly threshold is reached; returns the window's position.
    pub fn note_failed_attempt(&mut self, wallet: Pubkey, mint: Pubkey, current_epoch: u64) -> (r: usize)
        ensures
            (final(self)@, r as int) == spec_note_failed(old(self)@, wallet, mint, current_epoch),
            r < final(self)@.wallet_windows.len(),
            final(self)@.wallet_windows.len() <= old(self)@.wallet_windows.len() + 1,
    {
        let ghost s = self@;
        let anomaly_threshold = self.policy.anomaly_threshold;
        let i = self.upsert_wallet_window(wallet, mint, current_epoch);
        let mut w = self.wallet_windows[i];
        w.anomaly_score = w.anomaly_score.saturating_add(1);
        if anomaly_threshold > 0 && w.anomaly_score >= anomaly_threshold {
            w.blocked = true;
        }
        self.wallet_windows.set(i, w);
        assert(self@.wallet_windows =~= spec_note_failed(s, wallet, mint, current_epoch).0.wallet_windows);
        i
    }
}

/// The outcome of a public mint against the state: the window after a
/// successful mint, or the refusal and whether the state (with the failed
/// attempt counted) is to be written back.
pub open spec fn spec_decide_mint(
    s: PublicMintStateModel,
    wallet: Pubkey,
    epoch: u64,
    amount: u128,
    app_id: Option<Pubkey>,
    requested_subsidy: u128,
    subsidy_cap: u128,
) -> (Result<WalletMintWindow, (PublicMintError, bool)>, PublicMintStateModel) {
    let policy = s.policy;
    let mint = policy.mint;
    if s.blocklist.contains(wallet) {
        (Err((PublicMintError::WalletBlocked, false)), s)
    } else if policy.requires_allowlist && !s.allowlist.contains(wallet) {
        (Err((PublicMintError::AllowlistRequired, true)), spec_note_failed(s, wallet, mint, epoch).0)
    } else {
        let (s1, i) = spec_upsert(s, wallet, mint, epoch);
        let w = s1.wallet_windows[i];
        if w.blocked {
            (Err((PublicMintError::WalletBlocked, false)), s1)
        } else if policy.cooldown_epochs > 0 && w.last_mint_epoch > 0 && epoch.saturating_sub(w.last_mint_epoch) < policy.cooldown_epochs {
            (Err((PublicMintError::CooldownActive, true)), spec_note_failed(s1, wallet, mint, epoch).0)
        } else if w.minted_in_window.saturating_add(amount) > policy.per_wallet_limit {
            (Err((PublicMintError::MintWindowExceeded, true)), spec_note_failed(s1, wallet, mint, epoch).0)
        } else if requested_subsidy > 0 && (!policy.fee_subsidy_enabled || app_id != policy.subsidy_app) {
            (Err((PublicMintError::InvalidSubsidyPolicy, true)), spec_note_failed(s1, wallet, mint, epoch).0)
        } else if requested_subsidy > 0 && w.subsidy_used_in_window.saturating_add(requested_subsidy) > subsidy_cap {
            (Err((PublicMintError::InvalidSubsidyPolicy, true)), spec_note_failed(s1, wallet, mint, epoch).0)
        } else {
            let (s2, j) = spec_upsert(s1, wallet, mint, epoch);
            let w2 = s2.wallet_windows[j];
            let minted = WalletMintWindow {
                subsidy_used_in_window: if requested_subsidy > 0 {
                    w2.subsidy_used_in_window.saturating_add(requested_subsidy)
                } else {
                    w2.subsidy_used_in_window
                },
                minted_in_window: w2.minted_in_window.saturating_add(amount),
                last_mint_epoch: epoch,
                ..w2
            };
            (Ok(minted), PublicMintStateModel { wallet_windows: s2.wallet_windows.update(j, minted), ..s2 })
        }
    }
}

/// Applies the public-mint policy to a mint request by `wallet`.
pub fn decide_public_mint(
    state: &mut PublicMintState,
    wallet: Pubkey,
    current_epoch: u64,
    amount: u128,
    app_id: Option<Pubkey>,
    requested_subsidy: u128,
    subsidy_cap: u128,
) -> (r: Result<WalletMintWindow, (PublicMintError, bool)>)
    ensures
        (r, final(state)@) == spec_decide_mint(old(state)@, wallet, current_epoch, amount, app_id, requested_subsidy, subsidy_cap),
{
    let policy = state.policy;
    if state.is_blocklisted(&wallet) {
        return Err((PublicMintError::WalletBlocked, false));
    }
    if policy.requires_allowlist && !state.is_allowlisted(&wallet) {
        let _ = state.note_failed_attempt(wallet, policy.mint, current_epoch);
        return Err((PublicMintError::AllowlistRequired, true));
    }
    let i = state.upsert_wallet_window(wallet, policy.mint, current_epoch);
    let w = state.wallet_windows[i];
    if w.blocked {
        return Err((PublicMintError::WalletBlocked, false));
    }
    if policy.cooldown_epochs > 0 && w.last_mint_epoch > 0
        && current_epoch.saturating_sub(w.last_mint_epoch) < policy.cooldown_epochs {
        let _ = state.note_failed_attempt(wallet, policy.mint, current_epoch);
        return Err((PublicMintError::CooldownActive, true));
    }
    if w.minted_in_window.saturating_add(amount) > policy.per_wallet_limit {
        let _ = state.note_failed_attempt(wallet, policy.mint, current_epoch);
        return Err((PublicMintError::MintWindowExceeded, true));
    }
    if requested_subsidy > 0 {
        if !policy.fee_subsidy_enabled || !opt_key_eq(&app_id, &policy.subsidy_app) {
            let _ = state.note_failed_attempt(wallet, policy.mint, current_epoch);
            return Err((PublicMintError::InvalidSubsidyPolicy, true));
        }
        if w.subsidy_used_in_window.saturating_add(requested_subsidy) > subsidy_cap {
            let _ = state.note_failed_attempt(wallet, policy.mint, current_epoch);
            return Err((PublicMintError::InvalidSubsidyPolicy, true));
        }
    }
    let j = state.upsert_wallet_window(wallet, policy.mint, current_epoch);
    let mut window = state.wallet_windows[j];
    if requested_subsidy > 0 {
        window.subsidy_used_in_window = window.subsidy_used_in_window.saturating_add(requested_subsidy);
    }
    window.minted_in_window = window.minted_in_window.saturating_add(amount);
    window.last_mint_epoch = current_epoch;
    state.wallet_windows.set(j, window);
    Ok(window)
}

/// The state after `n` failed attempts of `wallet` on `mint` at `epoch`.
pub open spec fn failed_attempts(s: PublicMintStateModel, wallet: Pubkey, mint: Pubkey, epoch: u64, n: nat) -> PublicMintStateModel
    decreases n,
{
    if n == 0 {
        s
    } else {
        spec_note_failed(failed_attempts(s, wallet, mint, epoch, (n - 1) as nat), wallet, mint, epoch).0
    }
}

/// The window of `wallet` and `mint` (meaningful when there is one).
pub open spec fn window_of(s: PublicMintStateModel, wallet: Pubkey, mint: Pubkey) -> WalletMintWindow {
    s.wallet_windows[first_window(s.wallet_windows, wallet, mint)]
}

/// Noting a failed attempt keeps (or opens) the window of the wallet at the
/// position it reports, counts one more anomaly, and blocks the window once
/// the count reaches a non-zero threshold; the policy is unchanged.
proof fn lemma_note_failed(s: PublicMintStateModel, wallet: Pubkey, mint: Pubkey, epoch: u64)
    ensures
        ({
            let (s2, i) = spec_note_failed(s, wallet, mint, epoch);
            let old_score: int = if has_window(s.wallet_windows, wallet, mint) { window_of(s, wallet, mint).anomaly_score as int } else { 0 };
            &&& s2.policy == s.policy
            &&& has_window(s2.wallet_windows, wallet, mint)
            &&& first_window(s2.wallet_windows, wallet, mint) == i
            &&& window_of(s2, wallet, mint).anomaly_score == (if old_score + 1 > u32::MAX { u32::MAX as int } else { old_score + 1 })
            &&& (has_window(s.wallet_windows, wallet, mint) && window_of(s, wallet, mint).blocked ==> window_of(s2, wallet, mint).blocked)
            &&& (s.policy.anomaly_threshold > 0 && window_of(s2, wallet, mint).anomaly_score >= s.policy.anomaly_threshold
                ==> window_of(s2, wallet, mint).blocked)
        }),
{
    let ws = s.wallet_windows;
    let (s1, i) = spec_upsert(s, wallet, mint, epoch);
    let (s2, _) = spec_note_failed(s, wallet, mint, epoch);
    if has_window(ws, wallet, mint) {
        let k = first_window(ws, wallet, mint);
        let w = choose|w: int| 0 <= w < ws.len() && window_matches(ws[w], wallet, mint);
        assert(exists|f: int| is_first_window(ws, wallet, mint, f)) by {
            lemma_first_window_exists(ws, wallet, mint, w);
        }
        assert(is_first_window(ws, wallet, mint, k));
        assert(is_first_window(s2.wallet_windows, wallet, mint, k));
        lemma_first_window_unique(s2.wallet_windows, wallet, mint, k);
    } else {
        let n = ws.len() as int;
        assert forall|j: int| 0 <= j < n implies !window_matches(#[trigger] s2.wallet_windows[j], wallet, mint) by {
            assert(s2.wallet_windows[j] == ws[j]);
            if window_matches(ws[j], wallet, mint) {
                assert(has_window(ws, wallet, mint));
            }
        }
        assert(is_first_window(s2.wallet_windows, wallet, mint, n));
        lemma_first_window_unique(s2.wallet_windows, wallet, mint, n);
    }
}

/// When some window matches, there is a first one.
proof fn lemma_first_window_exists(ws: Seq<WalletMintWindow>, wallet: Pubkey, mint: Pubkey, w: int)
    requires
        0 <= w < ws.len(),
        window_matches(ws[w], wallet, mint),
    ensures
        exists|f: int| is_first_window(ws, wallet, mint, f),
    decreases w,
{
    if forall|j: int| 0 <= j < w ==> !window_matches(#[trigger] ws[j], wallet, mint) {
        assert(is_first_window(ws, wallet, mint, w));
    } else {
        let j = choose|j: int| 0 <= j < w && window_matches(#[trigger] ws[j], wallet, mint);
        lemma_first_window_exists(ws, wallet, mint, j);
    }
}

/// Repeated failed attempts block a wallet: with a non-zero anomaly threshold,
/// after at least that many failed attempts the wallet's window is blocked (so
/// that, by [`law_blocked_wallet_is_refused`], its mints are refused).
pub proof fn law_failed_attempts_block_wallet(s: PublicMintStateModel, wallet: Pubkey, epoch: u64, n: nat)
    requires
        s.policy.anomaly_threshold > 0,
        n >= s.policy.anomaly_threshold,
    ensures
        ({
            let s2 = failed_attempts(s, wallet, s.policy.mint, epoch, n);
            &&& has_window(s2.wallet_windows, wallet, s.policy.mint)
            &&& window_of(s2, wallet, s.policy.mint).blocked
        }),
{
    lemma_failed_attempts_count(s, wallet, s.policy.mint, epoch, n);
}

proof fn lemma_failed_attempts_count(s: PublicMintStateModel, wallet: Pubkey, mint: Pubkey, epoch: u64, n: nat)
    requires
        s.policy.anomaly_threshold > 0,
        n >= 1,
    ensures
        ({
            let s2 = failed_attempts(s, wallet, mint, epoch, n);
            &&& s2.policy == s.policy
            &&& has_window(s2.wallet_windows, wallet, mint)
            &&& window_of(s2, wallet, mint).anomaly_score >= (if n > u32::MAX { u32::MAX as int } else { n as int })
            &&& (window_of(s2, wallet, mint).anomaly_score >= s.policy.anomaly_threshold ==> window_of(s2, wallet, mint).blocked)
        }),
    decreases n,
{
    let prev = failed_attempts(s, wallet, mint, epoch, (n - 1) as nat);
    if n > 1 {
        lemma_failed_attempts_count(s, wallet, mint, epoch, (n - 1) as nat);
    }
    lemma_note_failed(prev, wallet, mint, epoch);
}

/// A wallet whose window is blocked is refused every mint: as blocked, or
/// first for not being on a required allowlist.
pub proof fn law_blocked_wallet_is_refused(
    s: PublicMintStateModel,
    wallet: Pubkey,
    epoch: u64,
    amount: u128,
    app_id: Option<Pubkey>,
    requested_subsidy: u128,
    subsidy_cap: u128,
)
    requires
        has_window(s.wallet_windows, wallet, s.policy.mint),
        window_of(s, wallet, s.policy.mint).blocked,
    ensures
        spec_decide_mint(s, wallet, epoch, amount, app_id, requested_subsidy, subsidy_cap).0 matches Err((e, _))
            && (e == PublicMintError::WalletBlocked || e == PublicMintError::AllowlistRequired),
{
    let ws = s.wallet_windows;
    let w = choose|w: int| 0 <= w < ws.len() && window_matches(ws[w], wallet, s.policy.mint);
    lemma_first_window_exists(ws, wallet, s.policy.mint, w);
    let k = first_window(ws, wallet, s.policy.mint);
    assert(is_first_window(ws, wallet, s.policy.mint, k));
}

} // verus!
