//! Emergency multisig: kill-switch quorum for subnet freezes, key revocations and
//! clearance-policy upgrades.
pub mod types;
pub mod state;
pub mod instruction;
pub mod processor;

use vstd::prelude::*;
use crate::pubkey::Pubkey;

verus! {

pub const DEFAULT_COMPUTE_UNITS: u64 = 600;

/// Bytes of the program id.
pub const EMERGENCY_MULTISIG_PROGRAM_ID_BYTES: [u8; 32] = [20, 20, 20, 20, 20, 20, 20, 20, 20, 20, 20, 20, 20, 20, 20, 20, 20, 20, 20, 20, 20, 20, 20, 20, 20, 20, 20, 20, 20, 20, 20, 20];

pub open spec fn spec_id() -> Pubkey {
    Pubkey(EMERGENCY_MULTISIG_PROGRAM_ID_BYTES)
}

/// The program id.
pub fn id() -> (r: Pubkey)
    ensures
        r == spec_id(),
{
    Pubkey::new_from_array(EMERGENCY_MULTISIG_PROGRAM_ID_BYTES)
}

/// True exactly for the program id.
pub fn check_id(program_id: &Pubkey) -> (r: bool)
    ensures
        r == (*program_id == spec_id()),
{
    *program_id == id()
}

} // verus!
