use aeko_programs::errors::InstructionError;
use aeko_programs::nft_marketplace::instruction;
use aeko_programs::nft_marketplace::processor::{Processor, TokenHolding};
use aeko_programs::nft_marketplace::types::{nft_listing_to_vec, ListingState, NftListing};
use aeko_programs::pubkey::Pubkey;
use aeko_programs::runtime::{AccountInfo, Instruction, InstructionContext};

const ACCOUNT_SPACE: usize = 16_384;

fn key(n: u8) -> Pubkey {
    Pubkey::new_from_array([n; 32])
}

fn id() -> Pubkey {
    key(252)
}

fn token_721_program() -> Pubkey {
    key(253)
}

/// Runs `ix` with the listing account (owned by the marketplace) holding
/// `listing_bytes` and every other account empty and owned elsewhere.
fn run(ix: &Instruction, listing_bytes: &[u8], token: Option<TokenHolding>, slot: u64) -> (Result<(), InstructionError>, Vec<u8>) {
    let infos = ix
        .accounts
        .iter()
        .enumerate()
        .map(|(i, meta)| {
            let (owner, data) = if i == 0 {
                let mut d = vec![0u8; ACCOUNT_SPACE];
                d[..listing_bytes.len()].copy_from_slice(listing_bytes);
                (id(), d)
            } else if i == 1 && token.is_some() {
                (token_721_program(), vec![1u8; 256])
            } else {
                (key(240), Vec::new())
            };
            AccountInfo { key: meta.pubkey, owner, is_signer: meta.is_signer, is_writable: meta.is_writable, lamports: 1, data }
        })
        .collect();
    let mut ctx = InstructionContext { program_id: ix.program_id, accounts: infos, return_data: None };
    let r = Processor::process(&mut ctx, &ix.data, token, slot);
    let data = ctx.accounts[0].data.clone();
    (r, data)
}

fn sample_listing(seller: Pubkey, price_lamports: u64, royalty_bps: u16, state: ListingState) -> NftListing {
    NftListing {
        seller,
        collection: key(20),
        token_account: key(21),
        creator: key(22),
        price_lamports,
        royalty_bps,
        expires_at_slot: None,
        state,
        buyer: None,
        is_initialized: true,
    }
}

#[test]
fn list_nft_creates_active_listing() {
    let seller = key(1);
    let listing_pubkey = key(2);
    let token_pubkey = key(3);
    let ix = instruction::list_nft(&id(), &listing_pubkey, &token_pubkey, &seller, key(4), key(5), 1_000_000_000, 500, None);
    let token = TokenHolding { owner: seller, is_initialized: true };
    let (r, data) = run(&ix, &[], Some(token), 0);
    assert_eq!(r, Ok(()));
    let listing = NftListing::deserialize_padded(&data).unwrap();
    assert_eq!(listing.state, ListingState::Active);
    assert_eq!(listing.seller, seller);
    assert_eq!(listing.price_lamports, 1_000_000_000);
    assert_eq!(listing.royalty_bps, 500);
    assert!(listing.buyer.is_none());
    assert_eq!(listing.token_account, token_pubkey);
}

#[test]
fn buy_nft_marks_listing_sold_with_buyer() {
    let buyer = key(6);
    let listing = sample_listing(key(1), 500_000_000, 250, ListingState::Active);
    let ix = instruction::buy_nft(&id(), &key(2), &buyer);
    let (r, data) = run(&ix, &nft_listing_to_vec(&listing), None, 0);
    assert_eq!(r, Ok(()));
    let updated = NftListing::deserialize_padded(&data).unwrap();
    assert_eq!(updated.state, ListingState::Sold);
    assert_eq!(updated.buyer, Some(buyer));
}

#[test]
fn buy_nft_rejects_inactive_listing() {
    let listing = sample_listing(key(7), 1_000_000_000, 500, ListingState::Cancelled);
    let ix = instruction::buy_nft(&id(), &key(2), &key(6));
    let (r, _) = run(&ix, &nft_listing_to_vec(&listing), None, 0);
    assert_eq!(r, Err(InstructionError::InvalidArgument));
}

#[test]
fn cancel_listing_by_seller_succeeds() {
    let seller = key(1);
    let listing = sample_listing(seller, 1_000_000_000, 500, ListingState::Active);
    let ix = instruction::cancel_listing(&id(), &key(2), &seller);
    let (r, data) = run(&ix, &nft_listing_to_vec(&listing), None, 0);
    assert_eq!(r, Ok(()));
    let updated = NftListing::deserialize_padded(&data).unwrap();
    assert_eq!(updated.state, ListingState::Cancelled);
}

#[test]
fn cancel_listing_by_non_seller_fails() {
    let listing = sample_listing(key(1), 1_000_000_000, 500, ListingState::Active);
    let ix = instruction::cancel_listing(&id(), &key(2), &key(8));
    let (r, _) = run(&ix, &nft_listing_to_vec(&listing), None, 0);
    assert_eq!(r, Err(InstructionError::IncorrectAuthority));
}

#[test]
fn list_nft_rejects_non_owner_seller() {
    let seller = key(1);
    let ix = instruction::list_nft(&id(), &key(2), &key(3), &seller, key(4), key(5), 1_000_000_000, 500, None);
    let token = TokenHolding { owner: key(9), is_initialized: true };
    let (r, _) = run(&ix, &[], Some(token), 0);
    assert_eq!(r, Err(InstructionError::IncorrectAuthority));
}

#[test]
fn listing_checks_price_royalty_and_token() {
    let seller = key(1);
    let token = Some(TokenHolding { owner: seller, is_initialized: true });
    let zero_price = instruction::list_nft(&id(), &key(2), &key(3), &seller, key(4), key(5), 0, 500, None);
    assert_eq!(run(&zero_price, &[], token, 0).0, Err(InstructionError::InvalidInstructionData));
    let high_royalty = instruction::list_nft(&id(), &key(2), &key(3), &seller, key(4), key(5), 10, 10_001, None);
    assert_eq!(run(&high_royalty, &[], token, 0).0, Err(InstructionError::InvalidInstructionData));
    let ok = instruction::list_nft(&id(), &key(2), &key(3), &seller, key(4), key(5), 10, 10_000, Some(9));
    assert_eq!(run(&ok, &[], None, 0).0, Err(InstructionError::InvalidAccountData));
    let uninitialized = Some(TokenHolding { owner: seller, is_initialized: false });
    assert_eq!(run(&ok, &[], uninitialized, 0).0, Err(InstructionError::UninitializedAccount));
    assert_eq!(run(&ok, &[], token, 0).0, Ok(()));
}

#[test]
fn expired_listing_cannot_be_bought_but_the_expiry_slot_can() {
    let mut listing = sample_listing(key(1), 5, 0, ListingState::Active);
    listing.expires_at_slot = Some(100);
    let ix = instruction::buy_nft(&id(), &key(2), &key(6));
    let (r, data) = run(&ix, &nft_listing_to_vec(&listing), None, 101);
    assert_eq!(r, Err(InstructionError::InvalidArgument));
    assert_eq!(NftListing::deserialize_padded(&data).unwrap(), listing);
    let (r, data) = run(&ix, &nft_listing_to_vec(&listing), None, 100);
    assert_eq!(r, Ok(()));
    assert_eq!(NftListing::deserialize_padded(&data).unwrap().state, ListingState::Sold);
}

#[test]
fn sold_listing_is_final() {
    let listing = sample_listing(key(1), 5, 0, ListingState::Sold);
    let buy = instruction::buy_nft(&id(), &key(2), &key(6));
    let cancel = instruction::cancel_listing(&id(), &key(2), &key(1));
    assert_eq!(run(&buy, &nft_listing_to_vec(&listing), None, 0).0, Err(InstructionError::InvalidArgument));
    assert_eq!(run(&cancel, &nft_listing_to_vec(&listing), None, 0).0, Err(InstructionError::InvalidArgument));
}
