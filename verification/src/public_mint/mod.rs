//! Public mint: a policy-gated path for anyone to mint a token, with per-wallet
//! windows, cooldowns, block and allow lists and fee subsidies.
pub mod types;
pub mod instruction;
pub mod state;
pub mod processor;

use vstd::prelude::*;
use crate::pubkey::Pubkey;

verus! {

pub const DEFAULT_COMPUTE_UNITS: u64 = 150;

/// Bytes of the program id.
pub const PUBLIC_MINT_PROGRAM_ID_BYTES: [u8; 32] = [9, 9, 9, 9, 9, 9, 9, 9, 9, 9, 9, 9, 9, 9, 9, 9, 9, 9, 9, 9, 9, 9, 9, 9, 9, 9, 9, 9, 9, 9, 9, 9];

/// Most wallets the block list keeps; the oldest entry leaves first.
pub const MAX_BLOCKLISTED_WALLETS: usize = 1024;

/// Most wallets the allow list keeps; the oldest entry leaves first.
pub const MAX_ALLOWLISTED_WALLETS: usize = 4096;

pub open spec fn spec_id() -> Pubkey {
    Pubkey(PUBLIC_MINT_PROGRAM_ID_BYTES)
}

/// The program id.
pub fn id() -> (r: Pubkey)
    ensures
        r == spec_id(),
{
    Pubkey::new_from_array(PUBLIC_MINT_PROGRAM_ID_BYTES)
}

/// True exactly for the program id.
pub fn check_id(program_id: &Pubkey) -> (r: bool)
    ensures
        r == (*program_id == spec_id()),
{
    *program_id == id()
}

} // verus!
