//! Instruction builders: each returns the instruction with its encoded data and
//! the accounts it expects, in order.
use vstd::prelude::*;
use crate::nft_marketplace::types::{NftMarketplaceInstruction, enc_nft_marketplace_instruction, nft_marketplace_instruction_to_vec};
use crate::pubkey::{Pubkey};
use crate::runtime::{AccountMeta, Instruction};

verus! {

pub fn list_nft(
    program_id: &Pubkey,
    listing_pubkey: &Pubkey,
    token_account_pubkey: &Pubkey,
    seller_pubkey: &Pubkey,
    collection: Pubkey,
    creator: Pubkey,
    price_lamports: u64,
    royalty_bps: u16,
    expires_at_slot: Option<u64>,
) -> (r: Instruction)
    ensures
        r.program_id == *program_id,
        r.accounts@ == seq![AccountMeta { pubkey: *listing_pubkey, is_signer: false, is_writable: true }, AccountMeta { pubkey: *token_account_pubkey, is_signer: false, is_writable: false }, AccountMeta { pubkey: *seller_pubkey, is_signer: true, is_writable: false }],
        r.data@ == enc_nft_marketplace_instruction(NftMarketplaceInstruction::ListNft { collection, creator, price_lamports, royalty_bps, expires_at_slot }),
{
    let data = nft_marketplace_instruction_to_vec(&NftMarketplaceInstruction::ListNft { collection, creator, price_lamports, royalty_bps, expires_at_slot });
    Instruction {
        program_id: *program_id,
        accounts: vec![
            AccountMeta::new(*listing_pubkey, false),
            AccountMeta::new_readonly(*token_account_pubkey, false),
            AccountMeta::new_readonly(*seller_pubkey, true),
        ],
        data,
    }
}

pub fn buy_nft(
    program_id: &Pubkey,
    listing_pubkey: &Pubkey,
    buyer_pubkey: &Pubkey,
) -> (r: Instruction)
    ensures
        r.program_id == *program_id,
        r.accounts@ == seq![AccountMeta { pubkey: *listing_pubkey, is_signer: false, is_writable: true }, AccountMeta { pubkey: *buyer_pubkey, is_signer: true, is_writable: false }],
        r.data@ == enc_nft_marketplace_instruction(NftMarketplaceInstruction::BuyNft),
{
    let data = nft_marketplace_instruction_to_vec(&NftMarketplaceInstruction::BuyNft);
    Instruction {
        program_id: *program_id,
        accounts: vec![
            AccountMeta::new(*listing_pubkey, false),
            AccountMeta::new_readonly(*buyer_pubkey, true),
        ],
        data,
    }
}

pub fn cancel_listing(
    program_id: &Pubkey,
    listing_pubkey: &Pubkey,
    seller_pubkey: &Pubkey,
) -> (r: Instruction)
    ensures
        r.program_id == *program_id,
        r.accounts@ == seq![AccountMeta { pubkey: *listing_pubkey, is_signer: false, is_writable: true }, AccountMeta { pubkey: *seller_pubkey, is_signer: true, is_writable: false }],
        r.data@ == enc_nft_marketplace_instruction(NftMarketplaceInstruction::CancelListing),
{
    let data = nft_marketplace_instruction_to_vec(&NftMarketplaceInstruction::CancelListing);
    Instruction {
        program_id: *program_id,
        accounts: vec![
            AccountMeta::new(*listing_pubkey, false),
            AccountMeta::new_readonly(*seller_pubkey, true),
        ],
        data,
    }
}

} // verus!
