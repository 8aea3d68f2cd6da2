//! Instruction processing of the NFT marketplace.
use vstd::prelude::*;
use crate::errors::{InstructionError, ProgramError};
use crate::nft_marketplace::types::{
    dec_nft_listing, dec_nft_marketplace_instruction, enc_nft_listing, lemma_nft_listing, nft_listing_to_vec,
    nft_marketplace_instruction_from_slice, ListingState, MarketplaceError, NftListing,
    NftMarketplaceInstruction,
};
use crate::pubkey::Pubkey;
use crate::runtime::{law_write_then_read, spec_write, ContextModel, InstructionContext};

verus! {

/// What the token program's account in a listing request holds, as far as
/// listing needs it: the token's owner and whether it is initialized.
#[derive(Clone, Copy, Debug)]
pub struct TokenHolding {
    pub owner: Pubkey,
    pub is_initialized: bool,
}

pub open spec fn custom(e: MarketplaceError) -> ProgramError {
    ProgramError::Custom(e.spec_code())
}

/// How the marketplace reports its errors: an inactive or expired listing is an
/// invalid argument, a wrong seller or token owner an incorrect authority, and
/// anything else invalid instruction data.
pub open spec fn spec_map_error(e: ProgramError) -> InstructionError {
    match e {
        ProgramError::Custom(code) => if code == MarketplaceError::ListingNotActive.spec_code()
            || code == MarketplaceError::ListingExpired.spec_code() {
            InstructionError::InvalidArgument
        } else if code == MarketplaceError::InvalidSeller.spec_code()
            || code == MarketplaceError::TokenNotOwnedBySeller.spec_code() {
            InstructionError::IncorrectAuthority
        } else {
            InstructionError::InvalidInstructionData
        },
        _ => InstructionError::InvalidInstructionData,
    }
}

pub open spec fn refusal(e: MarketplaceError) -> InstructionError {
    spec_map_error(custom(e))
}

/// ListNft: accounts `[listing (w), token account, seller (s)]`; `token` is what
/// the token account's data decodes to (`None` when it does not decode).
pub open spec fn spec_list_nft(
    c: ContextModel,
    token: Option<TokenHolding>,
    collection: Pubkey,
    creator: Pubkey,
    price_lamports: u64,
    royalty_bps: u16,
    expires_at_slot: Option<u64>,
) -> (Result<(), InstructionError>, ContextModel) {
    if price_lamports == 0 {
        (Err(refusal(MarketplaceError::InvalidPrice)), c)
    } else if royalty_bps > 10_000 {
        (Err(refusal(MarketplaceError::InvalidRoyalty)), c)
    } else if c.accounts.len() < 3 {
        (Err(InstructionError::NotEnoughAccountKeys), c)
    } else if !c.is_signer(2) {
        (Err(InstructionError::MissingRequiredSignature), c)
    } else {
        match token {
            None => (Err(InstructionError::InvalidAccountData), c),
            Some(t) => if !t.is_initialized {
                (Err(InstructionError::UninitializedAccount), c)
            } else if t.owner != c.key(2) {
                (Err(refusal(MarketplaceError::TokenNotOwnedBySeller)), c)
            } else if c.owner(0) != c.program_id {
                (Err(InstructionError::InvalidAccountOwner), c)
            } else {
                spec_write(c, 0, enc_nft_listing(NftListing {
                    seller: c.key(2),
                    collection,
                    token_account: c.key(1),
                    creator,
                    price_lamports,
                    royalty_bps,
                    expires_at_slot,
                    state: ListingState::Active,
                    buyer: None,
                    is_initialized: true,
                }))
            },
        }
    }
}

/// The listing in account 0 with the signer in account 1: checks shared by
/// buying and cancelling.
pub open spec fn spec_active_listing(c: ContextModel) -> Result<NftListing, InstructionError> {
    if c.accounts.len() < 2 {
        Err(InstructionError::NotEnoughAccountKeys)
    } else if !c.is_signer(1) {
        Err(InstructionError::MissingRequiredSignature)
    } else if c.owner(0) != c.program_id {
        Err(InstructionError::InvalidAccountOwner)
    } else {
        match dec_nft_listing(c.data(0)) {
            None => Err(InstructionError::InvalidAccountData),
            Some((l, _)) => if !l.is_initialized {
                Err(InstructionError::UninitializedAccount)
            } else if l.state != ListingState::Active {
                Err(refusal(MarketplaceError::ListingNotActive))
            } else {
                Ok(l)
            },
        }
    }
}

/// A listing has expired when the current slot is past its expiry slot.
pub open spec fn spec_is_expired(l: NftListing, current_slot: u64) -> bool {
    l.expires_at_slot matches Some(e) && current_slot > e
}

/// BuyNft: accounts `[listing (w), buyer (s)]`; the listing becomes sold to the
/// buyer.
pub open spec fn spec_buy_nft(c: ContextModel, current_slot: u64) -> (Result<(), InstructionError>, ContextModel) {
    match spec_active_listing(c) {
        Err(e) => (Err(e), c),
        Ok(l) => if spec_is_expired(l, current_slot) {
            (Err(refusal(MarketplaceError::ListingExpired)), c)
        } else {
            spec_write(c, 0, enc_nft_listing(NftListing { state: ListingState::Sold, buyer: Some(c.key(1)), ..l }))
        },
    }
}

/// CancelListing: accounts `[listing (w), seller (s)]`; only the seller cancels.
pub open spec fn spec_cancel_listing(c: ContextModel) -> (Result<(), InstructionError>, ContextModel) {
    match spec_active_listing(c) {
        Err(e) => (Err(e), c),
        Ok(l) => if l.seller != c.key(1) {
            (Err(refusal(MarketplaceError::InvalidSeller)), c)
        } else {
            spec_write(c, 0, enc_nft_listing(NftListing { state: ListingState::Cancelled, ..l }))
        },
    }
}

pub open spec fn spec_process(
    c: ContextModel,
    data: Seq<u8>,
    token: Option<TokenHolding>,
    current_slot: u64,
) -> (Result<(), InstructionError>, ContextModel) {
    match dec_nft_marketplace_instruction(data) {
        Some((ix, rest)) => if rest.len() != 0 {
            (Err(InstructionError::InvalidInstructionData), c)
        } else {
            match ix {
                NftMarketplaceInstruction::ListNft { collection, creator, price_lamports, royalty_bps, expires_at_slot } =>
                    spec_list_nft(c, token, collection, creator, price_lamports, royalty_bps, expires_at_slot),
                NftMarketplaceInstruction::BuyNft => spec_buy_nft(c, current_slot),
                NftMarketplaceInstruction::CancelListing => spec_cancel_listing(c),
            }
        },
        None => (Err(InstructionError::InvalidInstructionData), c),
    }
}

pub struct Processor;

impl Processor {
    /// Runs one marketplace instruction. `token` is what the token account of a
    /// listing request decodes to, and `current_slot` the clock's slot (0 when
    /// the clock is not available).
    pub fn process(
        ctx: &mut InstructionContext,
        instruction_data: &[u8],
        token: Option<TokenHolding>,
        current_slot: u64,
    ) -> (r: Result<(), InstructionError>)
        ensures
            (r, final(ctx)@) == spec_process(old(ctx)@, instruction_data@, token, current_slot),
    {
        let instruction = match nft_marketplace_instruction_from_slice(instruction_data) {
            Some(ix) => ix,
            None => return Err(InstructionError::InvalidInstructionData),
        };
        match instruction {
            NftMarketplaceInstruction::ListNft { collection, creator, price_lamports, royalty_bps, expires_at_slot } =>
                Self::process_list_nft(ctx, token, collection, creator, price_lamports, royalty_bps, expires_at_slot),
            NftMarketplaceInstruction::BuyNft => Self::process_buy_nft(ctx, current_slot),
            NftMarketplaceInstruction::CancelListing => Self::process_cancel_listing(ctx),
        }
    }

    pub fn process_list_nft(
        ctx: &mut InstructionContext,
        token: Option<TokenHolding>,
        collection: Pubkey,
        creator: Pubkey,
        price_lamports: u64,
        royalty_bps: u16,
        expires_at_slot: Option<u64>,
    ) -> (r: Result<(), InstructionError>)
        ensures
            (r, final(ctx)@) == spec_list_nft(old(ctx)@, token, collection, creator, price_lamports, royalty_bps, expires_at_slot),
    {
        if price_lamports == 0 {
            return Err(Self::map_error(ProgramError::Custom(MarketplaceError::InvalidPrice.code())));
        }
        if royalty_bps > 10_000 {
            return Err(Self::map_error(ProgramError::Custom(MarketplaceError::InvalidRoyalty.code())));
        }
        if let Err(e) = ctx.check_number_of_instruction_accounts(3) {
            return Err(e);
        }
        let seller_key = ctx.key(2);
        if !ctx.is_signer(2) {
            return Err(InstructionError::MissingRequiredSignature);
        }
        let token = match token {
            Some(t) => t,
            None => return Err(InstructionError::InvalidAccountData),
        };
        let token_pubkey = ctx.key(1);
        if !token.is_initialized {
            return Err(InstructionError::UninitializedAccount);
        }
        if token.owner != seller_key {
            return Err(Self::map_error(ProgramError::Custom(MarketplaceError::TokenNotOwnedBySeller.code())));
        }
        if ctx.owner(0) != ctx.program_id {
            return Err(InstructionError::InvalidAccountOwner);
        }
        let listing = NftListing {
            seller: seller_key,
            collection,
            token_account: token_pubkey,
            creator,
            price_lamports,
            royalty_bps,
            expires_at_slot,
            state: ListingState::Active,
            buyer: None,
            is_initialized: true,
        };
        ctx.write_account(0, &nft_listing_to_vec(&listing))
    }

    fn load_active_listing(ctx: &InstructionContext) -> (r: Result<NftListing, InstructionError>)
        ensures
            r == spec_active_listing(ctx@),
    {
        if let Err(e) = ctx.check_number_of_instruction_accounts(2) {
            return Err(e);
        }
        if !ctx.is_signer(1) {
            return Err(InstructionError::MissingRequiredSignature);
        }
        if ctx.owner(0) != ctx.program_id {
            return Err(InstructionError::InvalidAccountOwner);
        }
        let listing = match NftListing::deserialize_padded(ctx.data(0)) {
            Ok(l) => l,
            Err(_) => return Err(InstructionError::InvalidAccountData),
        };
        if !listing.is_initialized {
            return Err(InstructionError::UninitializedAccount);
        }
        if listing.state != ListingState::Active {
            return Err(Self::map_error(ProgramError::Custom(MarketplaceError::ListingNotActive.code())));
        }
        Ok(listing)
    }

    pub fn process_buy_nft(ctx: &mut InstructionContext, current_slot: u64) -> (r: Result<(), InstructionError>)
        ensures
            (r, final(ctx)@) == spec_buy_nft(old(ctx)@, current_slot),
    {
        let mut listing = match Self::load_active_listing(ctx) {
            Ok(l) => l,
            Err(e) => return Err(e),
        };
        let buyer_key = ctx.key(1);
        if let Some(expires_at_slot) = listing.expires_at_slot {
            if current_slot > expires_at_slot {
                return Err(Self::map_error(ProgramError::Custom(MarketplaceError::ListingExpired.code())));
            }
        }
        listing.state = ListingState::Sold;
        listing.buyer = Some(buyer_key);
        ctx.write_account(0, &nft_listing_to_vec(&listing))
    }

    pub fn process_cancel_listing(ctx: &mut InstructionContext) -> (r: Result<(), InstructionError>)
        ensures
            (r, final(ctx)@) == spec_cancel_listing(old(ctx)@),
    {
        let mut listing = match Self::load_active_listing(ctx) {
            Ok(l) => l,
            Err(e) => return Err(e),
        };
        if listing.seller != ctx.key(1) {
            return Err(Self::map_error(ProgramError::Custom(MarketplaceError::InvalidSeller.code())));
        }
        listing.state = ListingState::Cancelled;
        ctx.write_account(0, &nft_listing_to_vec(&listing))
    }

    /// See [`spec_map_error`].
    pub fn map_error(error: ProgramError) -> (r: InstructionError)
        ensures
            r == spec_map_error(error),
    {
        match error {
            ProgramError::Custom(code) => {
                if code == MarketplaceError::ListingNotActive.code() || code == MarketplaceError::ListingExpired.code() {
                    InstructionError::InvalidArgument
                } else if code == MarketplaceError::InvalidSeller.code()
                    || code == MarketplaceError::TokenNotOwnedBySeller.code() {
                    InstructionError::IncorrectAuthority
                } else {
                    InstructionError::InvalidInstructionData
                }
            },
            _ => InstructionError::InvalidInstructionData,
        }
    }
}

proof fn lemma_listing_written(c: ContextModel, l: NftListing)
    requires
        0 < c.accounts.len(),
        spec_write(c, 0, enc_nft_listing(l)).0 is Ok,
    ensures
        dec_nft_listing(spec_write(c, 0, enc_nft_listing(l)).1.data(0)) matches Some((m, _)) && m == l,
{
    law_write_then_read(c, 0, enc_nft_listing(l));
    lemma_nft_listing(l, Seq::new((c.data(0).len() - enc_nft_listing(l).len()) as nat, |k: int| 0u8));
}

/// A successful purchase leaves the listing reading back as sold to the buyer
/// (the signer), with everything else of it unchanged.
pub proof fn law_buy_marks_sold(c: ContextModel, current_slot: u64)
    requires
        spec_buy_nft(c, current_slot).0 is Ok,
    ensures
        dec_nft_listing(c.data(0)) matches Some((l, _))
            && dec_nft_listing(spec_buy_nft(c, current_slot).1.data(0)) matches Some((l2, _))
            && l2 == (NftListing { state: ListingState::Sold, buyer: Some(c.key(1)), ..l }),
{
    let l = spec_active_listing(c)->Ok_0;
    lemma_listing_written(c, NftListing { state: ListingState::Sold, buyer: Some(c.key(1)), ..l });
}

/// A successful cancellation leaves the listing reading back as cancelled, with
/// everything else of it unchanged.
pub proof fn law_cancel_marks_cancelled(c: ContextModel)
    requires
        spec_cancel_listing(c).0 is Ok,
    ensures
        dec_nft_listing(c.data(0)) matches Some((l, _))
            && dec_nft_listing(spec_cancel_listing(c).1.data(0)) matches Some((l2, _))
            && l2 == (NftListing { state: ListingState::Cancelled, ..l }),
{
    let l = spec_active_listing(c)->Ok_0;
    lemma_listing_written(c, NftListing { state: ListingState::Cancelled, ..l });
}

/// A listing that is no longer active (sold or cancelled) can be neither bought
/// nor cancelled: both are refused with `InvalidArgument`, and nothing changes.
pub proof fn law_inactive_listing_is_final(c: ContextModel, current_slot: u64)
    requires
        c.accounts.len() >= 2,
        c.is_signer(1),
        c.owner(0) == c.program_id,
        dec_nft_listing(c.data(0)) matches Some((l, _)) && l.is_initialized && l.state != ListingState::Active,
    ensures
        spec_buy_nft(c, current_slot) == (Err::<(), _>(InstructionError::InvalidArgument), c),
        spec_cancel_listing(c) == (Err::<(), _>(InstructionError::InvalidArgument), c),
{
}

} // verus!
