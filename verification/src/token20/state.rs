//! Decoding of the token accounts from account data.
use vstd::prelude::*;
use crate::errors::{decoded, ProgramError};
use crate::token20::types::{
    aeko20_account_from_prefix, aeko20_mint_from_prefix, allowance_record_from_prefix,
    dec_aeko20_account, dec_aeko20_mint, dec_allowance_record, Aeko20Account, Aeko20Mint,
    Aeko20MintModel, AllowanceRecord,
};

verus! {

impl Aeko20Mint {
    /// Decodes a mint from the front of account data; what follows is ignored.
    pub fn deserialize_padded(input: &[u8]) -> (r: Result<Self, ProgramError>)
        ensures
            r.is_ok() == decoded(dec_aeko20_mint(input@)).is_ok(),
            r matches Ok(v) ==> decoded(dec_aeko20_mint(input@)) == Ok::<_, ProgramError>(v@),
            r matches Err(e) ==> e == ProgramError::InvalidAccountData,
    {
        match aeko20_mint_from_prefix(input) {
            Some(v) => Ok(v),
            None => Err(ProgramError::InvalidAccountData),
        }
    }
}

impl Aeko20Account {
    /// Decodes a token account from the front of account data.
    pub fn deserialize_padded(input: &[u8]) -> (r: Result<Self, ProgramError>)
        ensures
            r == decoded(dec_aeko20_account(input@)),
    {
        match aeko20_account_from_prefix(input) {
            Some(v) => Ok(v),
            None => Err(ProgramError::InvalidAccountData),
        }
    }
}

impl AllowanceRecord {
    /// Decodes an allowance from the front of account data.
    pub fn deserialize_padded(input: &[u8]) -> (r: Result<Self, ProgramError>)
        ensures
            r == decoded(dec_allowance_record(input@)),
    {
        match allowance_record_from_prefix(input) {
            Some(v) => Ok(v),
            None => Err(ProgramError::InvalidAccountData),
        }
    }
}

} // verus!
