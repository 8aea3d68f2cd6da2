//! The listing account.
use vstd::prelude::*;
use crate::errors::{decoded, ProgramError};
use crate::nft_marketplace::types::{dec_nft_listing, nft_listing_from_prefix, NftListing};

verus! {

impl NftListing {
    /// Decodes a listing from the front of account data; what follows is ignored.
    pub fn deserialize_padded(input: &[u8]) -> (r: Result<Self, ProgramError>)
        ensures
            r == decoded(dec_nft_listing(input@)),
    {
        match nft_listing_from_prefix(input) {
            Some(v) => Ok(v),
            None => Err(ProgramError::InvalidAccountData),
        }
    }
}

} // verus!
