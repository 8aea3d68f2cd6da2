//! Data types and their byte layout.
use vstd::prelude::*;
use crate::codec::{dec_bool, dec_pubkey, dec_u16, dec_u64, enc_bool, enc_pubkey, enc_u16, enc_u64, lemma_assoc, lemma_bool, lemma_pubkey, lemma_skip_skip, lemma_u16, lemma_u64, read_bool, read_ok, read_pubkey, read_u16, read_u64, read_u8, write_bool, write_pubkey, write_u16, write_u64};
use crate::layout::{dec_opt_pubkey, dec_opt_u64, enc_opt_pubkey, enc_opt_u64, lemma_opt_pubkey, lemma_opt_u64, read_opt_pubkey, read_opt_u64, write_opt_pubkey, write_opt_u64};
use crate::pubkey::{Pubkey};

verus! {

/// Custom error codes of the NFT marketplace.
#[derive(Clone, Copy, Debug, PartialEq, Eq, Structural)]
pub enum MarketplaceError {
    ListingNotActive,
    InvalidSeller,
    ListingExpired,
    InvalidPrice,
    InvalidRoyalty,
    TokenNotOwnedBySeller,
}

impl MarketplaceError {
    /// The custom error code carried by this error.
    pub open spec fn spec_code(self) -> u32 {
        match self {
            MarketplaceError::ListingNotActive => 57345,
            MarketplaceError::InvalidSeller => 57346,
            MarketplaceError::ListingExpired => 57347,
            MarketplaceError::InvalidPrice => 57348,
            MarketplaceError::InvalidRoyalty => 57349,
            MarketplaceError::TokenNotOwnedBySeller => 57350,
        }
    }

    pub fn code(self) -> (c: u32)
        ensures
            c == self.spec_code(),
    {
        match self {
            MarketplaceError::ListingNotActive => 57345,
            MarketplaceError::InvalidSeller => 57346,
            MarketplaceError::ListingExpired => 57347,
            MarketplaceError::InvalidPrice => 57348,
            MarketplaceError::InvalidRoyalty => 57349,
            MarketplaceError::TokenNotOwnedBySeller => 57350,
        }
    }
}

/// Lifecycle of a listing.
#[derive(Clone, Copy, Debug, PartialEq, Eq, Structural)]
pub enum ListingState {
    Active,
    Sold,
    Cancelled,
}

#[verifier::opaque]
pub open spec fn enc_listing_state(v: ListingState) -> Seq<u8> {
    match v {
        ListingState::Active => seq![0u8],
        ListingState::Sold => seq![1u8],
        ListingState::Cancelled => seq![2u8],
    }
}

#[verifier::opaque]
pub open spec fn dec_listing_state(s: Seq<u8>) -> Option<(ListingState, Seq<u8>)> {
    if s.len() == 0 {
        None
    } else if s[0] == 0 {
        Some((ListingState::Active, s.skip(1)))
    } else if s[0] == 1 {
        Some((ListingState::Sold, s.skip(1)))
    } else if s[0] == 2 {
        Some((ListingState::Cancelled, s.skip(1)))
    } else { None }
}

pub fn read_listing_state(d: &[u8], pos: usize) -> (r: Option<(ListingState, usize)>)
    requires
        pos <= d@.len(),
    ensures
        read_ok(dec_listing_state(d@.skip(pos as int)), r, d@),
{
    proof {
        reveal(dec_listing_state);
    }
    match read_u8(d, pos) {
        None => None,
        Some((tag, p0)) => {
            proof {
                lemma_skip_skip(d@, pos as int, 1);
            }
            match tag {
            0 => Some((ListingState::Active, p0)),
            1 => Some((ListingState::Sold, p0)),
            2 => Some((ListingState::Cancelled, p0)),
            _ => None,
            }
        },
    }
}

pub fn write_listing_state(out: &mut Vec<u8>, v: &ListingState)
    ensures
        final(out)@ == old(out)@ + enc_listing_state(*v),
{
    proof {
        reveal(enc_listing_state);
    }
    match v {
        ListingState::Active => {
            out.push(0u8);
            assert(out@ =~= old(out)@ + seq![0u8]);
        },
        ListingState::Sold => {
            out.push(1u8);
            assert(out@ =~= old(out)@ + seq![1u8]);
        },
        ListingState::Cancelled => {
            out.push(2u8);
            assert(out@ =~= old(out)@ + seq![2u8]);
        },
    }
}

pub proof fn lemma_listing_state(v: ListingState, rest: Seq<u8>)
    ensures
        dec_listing_state(enc_listing_state(v) + rest) == Some((v, rest)),
{
    reveal(enc_listing_state);
    reveal(dec_listing_state);
    match v {
        ListingState::Active => {
            assert((enc_listing_state(v) + rest).skip(1) =~= rest);
        },
        ListingState::Sold => {
            assert((enc_listing_state(v) + rest).skip(1) =~= rest);
        },
        ListingState::Cancelled => {
            assert((enc_listing_state(v) + rest).skip(1) =~= rest);
        },
    }
}

/// A fixed-price listing of one NFT.
#[derive(Clone, Copy, Debug, PartialEq, Eq)]
pub struct NftListing {
    pub seller: Pubkey,
    pub collection: Pubkey,
    pub token_account: Pubkey,
    pub creator: Pubkey,
    pub price_lamports: u64,
    pub royalty_bps: u16,
    pub expires_at_slot: Option<u64>,
    pub state: ListingState,
    pub buyer: Option<Pubkey>,
    pub is_initialized: bool,
}

#[verifier::opaque]
pub open spec fn enc_nft_listing(v: NftListing) -> Seq<u8> {
    enc_pubkey(v.seller) + (enc_pubkey(v.collection) + (enc_pubkey(v.token_account) + (enc_pubkey(v.creator) + (enc_u64(v.price_lamports) + (enc_u16(v.royalty_bps) + (enc_opt_u64(v.expires_at_slot) + (enc_listing_state(v.state) + (enc_opt_pubkey(v.buyer) + (enc_bool(v.is_initialized))))))))))
}

#[verifier::opaque]
pub open spec fn dec_nft_listing(s: Seq<u8>) -> Option<(NftListing, Seq<u8>)> {
    match dec_pubkey(s) {
            Some((seller, r1)) => match dec_pubkey(r1) {
            Some((collection, r2)) => match dec_pubkey(r2) {
            Some((token_account, r3)) => match dec_pubkey(r3) {
            Some((creator, r4)) => match dec_u64(r4) {
            Some((price_lamports, r5)) => match dec_u16(r5) {
            Some((royalty_bps, r6)) => match dec_opt_u64(r6) {
            Some((expires_at_slot, r7)) => match dec_listing_state(r7) {
            Some((state, r8)) => match dec_opt_pubkey(r8) {
            Some((buyer, r9)) => match dec_bool(r9) {
            Some((is_initialized, r10)) => Some((NftListing { seller, collection, token_account, creator, price_lamports, royalty_bps, expires_at_slot, state, buyer, is_initialized }, r10)),
            None => None,
        },
            None => None,
        },
            None => None,
        },
            None => None,
        },
            None => None,
        },
            None => None,
        },
            None => None,
        },
            None => None,
        },
            None => None,
        },
            None => None,
        }
}

pub fn read_nft_listing(d: &[u8], pos: usize) -> (r: Option<(NftListing, usize)>)
    requires
        pos <= d@.len(),
    ensures
        read_ok(dec_nft_listing(d@.skip(pos as int)), r, d@),
{
    proof {
        reveal(dec_nft_listing);
    }
    match read_pubkey(d, pos) {
        None => None,
        Some((seller, p1)) => match read_pubkey(d, p1) {
        None => None,
        Some((collection, p2)) => match read_pubkey(d, p2) {
        None => None,
        Some((token_account, p3)) => match read_pubkey(d, p3) {
        None => None,
        Some((creator, p4)) => match read_u64(d, p4) {
        None => None,
        Some((price_lamports, p5)) => match read_u16(d, p5) {
        None => None,
        Some((royalty_bps, p6)) => match read_opt_u64(d, p6) {
        None => None,
        Some((expires_at_slot, p7)) => match read_listing_state(d, p7) {
        None => None,
        Some((state, p8)) => match read_opt_pubkey(d, p8) {
        None => None,
        Some((buyer, p9)) => match read_bool(d, p9) {
        None => None,
        Some((is_initialized, p10)) => Some((NftListing { seller, collection, token_account, creator, price_lamports, royalty_bps, expires_at_slot, state, buyer, is_initialized }, p10)),
    },
    },
    },
    },
    },
    },
    },
    },
    },
    }
}

pub fn write_nft_listing(out: &mut Vec<u8>, v: &NftListing)
    ensures
        final(out)@ == old(out)@ + enc_nft_listing(*v),
{
    proof {
        reveal(enc_nft_listing);
    }
    write_pubkey(out, &v.seller);
    let ghost o0 = out@;
    write_pubkey(out, &v.collection);
    let ghost o1 = out@;
    write_pubkey(out, &v.token_account);
    let ghost o2 = out@;
    write_pubkey(out, &v.creator);
    let ghost o3 = out@;
    write_u64(out, *&v.price_lamports);
    let ghost o4 = out@;
    write_u16(out, *&v.royalty_bps);
    let ghost o5 = out@;
    write_opt_u64(out, &v.expires_at_slot);
    let ghost o6 = out@;
    write_listing_state(out, &v.state);
    let ghost o7 = out@;
    write_opt_pubkey(out, &v.buyer);
    let ghost o8 = out@;
    write_bool(out, *&v.is_initialized);
    let ghost o9 = out@;
    proof {
        lemma_assoc(o7, enc_opt_pubkey((*v).buyer), enc_bool((*v).is_initialized));
        lemma_assoc(o6, enc_listing_state((*v).state), enc_opt_pubkey((*v).buyer) + (enc_bool((*v).is_initialized)));
        lemma_assoc(o5, enc_opt_u64((*v).expires_at_slot), enc_listing_state((*v).state) + (enc_opt_pubkey((*v).buyer) + (enc_bool((*v).is_initialized))));
        lemma_assoc(o4, enc_u16((*v).royalty_bps), enc_opt_u64((*v).expires_at_slot) + (enc_listing_state((*v).state) + (enc_opt_pubkey((*v).buyer) + (enc_bool((*v).is_initialized)))));
        lemma_assoc(o3, enc_u64((*v).price_lamports), enc_u16((*v).royalty_bps) + (enc_opt_u64((*v).expires_at_slot) + (enc_listing_state((*v).state) + (enc_opt_pubkey((*v).buyer) + (enc_bool((*v).is_initialized))))));
        lemma_assoc(o2, enc_pubkey((*v).creator), enc_u64((*v).price_lamports) + (enc_u16((*v).royalty_bps) + (enc_opt_u64((*v).expires_at_slot) + (enc_listing_state((*v).state) + (enc_opt_pubkey((*v).buyer) + (enc_bool((*v).is_initialized)))))));
        lemma_assoc(o1, enc_pubkey((*v).token_account), enc_pubkey((*v).creator) + (enc_u64((*v).price_lamports) + (enc_u16((*v).royalty_bps) + (enc_opt_u64((*v).expires_at_slot) + (enc_listing_state((*v).state) + (enc_opt_pubkey((*v).buyer) + (enc_bool((*v).is_initialized))))))));
        lemma_assoc(o0, enc_pubkey((*v).collection), enc_pubkey((*v).token_account) + (enc_pubkey((*v).creator) + (enc_u64((*v).price_lamports) + (enc_u16((*v).royalty_bps) + (enc_opt_u64((*v).expires_at_slot) + (enc_listing_state((*v).state) + (enc_opt_pubkey((*v).buyer) + (enc_bool((*v).is_initialized)))))))));
        lemma_assoc(old(out)@, enc_pubkey((*v).seller), enc_pubkey((*v).collection) + (enc_pubkey((*v).token_account) + (enc_pubkey((*v).creator) + (enc_u64((*v).price_lamports) + (enc_u16((*v).royalty_bps) + (enc_opt_u64((*v).expires_at_slot) + (enc_listing_state((*v).state) + (enc_opt_pubkey((*v).buyer) + (enc_bool((*v).is_initialized))))))))));
    }
}

pub proof fn lemma_nft_listing(v: NftListing, rest: Seq<u8>)
    ensures
        dec_nft_listing(enc_nft_listing(v) + rest) == Some((v, rest)),
{
    reveal(enc_nft_listing);
    reveal(dec_nft_listing);
    lemma_assoc(enc_pubkey(v.seller), enc_pubkey(v.collection) + (enc_pubkey(v.token_account) + (enc_pubkey(v.creator) + (enc_u64(v.price_lamports) + (enc_u16(v.royalty_bps) + (enc_opt_u64(v.expires_at_slot) + (enc_listing_state(v.state) + (enc_opt_pubkey(v.buyer) + (enc_bool(v.is_initialized))))))))), rest);
    lemma_pubkey(v.seller, enc_pubkey(v.collection) + (enc_pubkey(v.token_account) + (enc_pubkey(v.creator) + (enc_u64(v.price_lamports) + (enc_u16(v.royalty_bps) + (enc_opt_u64(v.expires_at_slot) + (enc_listing_state(v.state) + (enc_opt_pubkey(v.buyer) + (enc_bool(v.is_initialized))))))))) + rest);
    lemma_assoc(enc_pubkey(v.collection), enc_pubkey(v.token_account) + (enc_pubkey(v.creator) + (enc_u64(v.price_lamports) + (enc_u16(v.royalty_bps) + (enc_opt_u64(v.expires_at_slot) + (enc_listing_state(v.state) + (enc_opt_pubkey(v.buyer) + (enc_bool(v.is_initialized)))))))), rest);
    lemma_pubkey(v.collection, enc_pubkey(v.token_account) + (enc_pubkey(v.creator) + (enc_u64(v.price_lamports) + (enc_u16(v.royalty_bps) + (enc_opt_u64(v.expires_at_slot) + (enc_listing_state(v.state) + (enc_opt_pubkey(v.buyer) + (enc_bool(v.is_initialized)))))))) + rest);
    lemma_assoc(enc_pubkey(v.token_account), enc_pubkey(v.creator) + (enc_u64(v.price_lamports) + (enc_u16(v.royalty_bps) + (enc_opt_u64(v.expires_at_slot) + (enc_listing_state(v.state) + (enc_opt_pubkey(v.buyer) + (enc_bool(v.is_initialized))))))), rest);
    lemma_pubkey(v.token_account, enc_pubkey(v.creator) + (enc_u64(v.price_lamports) + (enc_u16(v.royalty_bps) + (enc_opt_u64(v.expires_at_slot) + (enc_listing_state(v.state) + (enc_opt_pubkey(v.buyer) + (enc_bool(v.is_initialized))))))) + rest);
    lemma_assoc(enc_pubkey(v.creator), enc_u64(v.price_lamports) + (enc_u16(v.royalty_bps) + (enc_opt_u64(v.expires_at_slot) + (enc_listing_state(v.state) + (enc_opt_pubkey(v.buyer) + (enc_bool(v.is_initialized)))))), rest);
    lemma_pubkey(v.creator, enc_u64(v.price_lamports) + (enc_u16(v.royalty_bps) + (enc_opt_u64(v.expires_at_slot) + (enc_listing_state(v.state) + (enc_opt_pubkey(v.buyer) + (enc_bool(v.is_initialized)))))) + rest);
    lemma_assoc(enc_u64(v.price_lamports), enc_u16(v.royalty_bps) + (enc_opt_u64(v.expires_at_slot) + (enc_listing_state(v.state) + (enc_opt_pubkey(v.buyer) + (enc_bool(v.is_initialized))))), rest);
    lemma_u64(v.price_lamports, enc_u16(v.royalty_bps) + (enc_opt_u64(v.expires_at_slot) + (enc_listing_state(v.state) + (enc_opt_pubkey(v.buyer) + (enc_bool(v.is_initialized))))) + rest);
    lemma_assoc(enc_u16(v.royalty_bps), enc_opt_u64(v.expires_at_slot) + (enc_listing_state(v.state) + (enc_opt_pubkey(v.buyer) + (enc_bool(v.is_initialized)))), rest);
    lemma_u16(v.royalty_bps, enc_opt_u64(v.expires_at_slot) + (enc_listing_state(v.state) + (enc_opt_pubkey(v.buyer) + (enc_bool(v.is_initialized)))) + rest);
    lemma_assoc(enc_opt_u64(v.expires_at_slot), enc_listing_state(v.state) + (enc_opt_pubkey(v.buyer) + (enc_bool(v.is_initialized))), rest);
    lemma_opt_u64(v.expires_at_slot, enc_listing_state(v.state) + (enc_opt_pubkey(v.buyer) + (enc_bool(v.is_initialized))) + rest);
    lemma_assoc(enc_listing_state(v.state), enc_opt_pubkey(v.buyer) + (enc_bool(v.is_initialized)), rest);
    lemma_listing_state(v.state, enc_opt_pubkey(v.buyer) + (enc_bool(v.is_initialized)) + rest);
    lemma_assoc(enc_opt_pubkey(v.buyer), enc_bool(v.is_initialized), rest);
    lemma_opt_pubkey(v.buyer, enc_bool(v.is_initialized) + rest);
    lemma_bool(v.is_initialized, rest);
}

/// Decodes a [`NftListing`] that must take up all of `d`.
pub fn nft_listing_from_slice(d: &[u8]) -> (r: Option<NftListing>)
    ensures
        r is Some <==> (dec_nft_listing(d@) matches Some((_, rest)) && rest.len() == 0),
        r matches Some(v) ==> dec_nft_listing(d@) == Some((v, Seq::<u8>::empty())),
{
    assert(d@.skip(0) =~= d@);
    match read_nft_listing(d, 0) {
        None => None,
        Some((v, p)) => {
            if p == d.len() {
                assert(d@.skip(p as int) =~= Seq::<u8>::empty());
                Some(v)
            } else {
                None
            }
        },
    }
}

/// Decodes a [`NftListing`] from the front of `d`, ignoring what follows it.
pub fn nft_listing_from_prefix(d: &[u8]) -> (r: Option<NftListing>)
    ensures
        r is Some <==> dec_nft_listing(d@) is Some,
        r matches Some(v) ==> dec_nft_listing(d@) matches Some((m, _)) && m == v,
{
    assert(d@.skip(0) =~= d@);
    match read_nft_listing(d, 0) {
        None => None,
        Some((v, _)) => Some(v),
    }
}

/// Serialises a [`NftListing`].
pub fn nft_listing_to_vec(v: &NftListing) -> (r: Vec<u8>)
    ensures
        r@ == enc_nft_listing(*v),
{
    let mut out: Vec<u8> = Vec::new();
    write_nft_listing(&mut out, v);
    assert(out@ =~= enc_nft_listing(*v));
    out
}

/// Instructions of the NFT marketplace.
#[derive(Clone, Copy, Debug, PartialEq, Eq)]
pub enum NftMarketplaceInstruction {
    ListNft{ collection: Pubkey, creator: Pubkey, price_lamports: u64, royalty_bps: u16, expires_at_slot: Option<u64> },
    BuyNft,
    CancelListing,
}

#[verifier::opaque]
pub open spec fn enc_nft_marketplace_instruction(v: NftMarketplaceInstruction) -> Seq<u8> {
    match v {
        NftMarketplaceInstruction::ListNft{ collection, creator, price_lamports, royalty_bps, expires_at_slot } => seq![0u8] + (enc_pubkey(collection) + (enc_pubkey(creator) + (enc_u64(price_lamports) + (enc_u16(royalty_bps) + (enc_opt_u64(expires_at_slot)))))),
        NftMarketplaceInstruction::BuyNft => seq![1u8],
        NftMarketplaceInstruction::CancelListing => seq![2u8],
    }
}

#[verifier::opaque]
pub open spec fn dec_nft_marketplace_instruction(s: Seq<u8>) -> Option<(NftMarketplaceInstruction, Seq<u8>)> {
    if s.len() == 0 {
        None
    } else if s[0] == 0 {
        let r0 = s.skip(1);
        match dec_pubkey(r0) {
            Some((collection, r1)) => match dec_pubkey(r1) {
            Some((creator, r2)) => match dec_u64(r2) {
            Some((price_lamports, r3)) => match dec_u16(r3) {
            Some((royalty_bps, r4)) => match dec_opt_u64(r4) {
            Some((expires_at_slot, r5)) => Some((NftMarketplaceInstruction::ListNft{ collection, creator, price_lamports, royalty_bps, expires_at_slot }, r5)),
            None => None,
        },
            None => None,
        },
            None => None,
        },
            None => None,
        },
            None => None,
        }
    } else if s[0] == 1 {
        Some((NftMarketplaceInstruction::BuyNft, s.skip(1)))
    } else if s[0] == 2 {
        Some((NftMarketplaceInstruction::CancelListing, s.skip(1)))
    } else { None }
}

pub fn read_nft_marketplace_instruction(d: &[u8], pos: usize) -> (r: Option<(NftMarketplaceInstruction, usize)>)
    requires
        pos <= d@.len(),
    ensures
        read_ok(dec_nft_marketplace_instruction(d@.skip(pos as int)), r, d@),
{
    proof {
        reveal(dec_nft_marketplace_instruction);
    }
    match read_u8(d, pos) {
        None => None,
        Some((tag, p0)) => {
            proof {
                lemma_skip_skip(d@, pos as int, 1);
            }
            match tag {
            0 => match read_pubkey(d, p0) {
                None => None,
                Some((collection, p1)) => match read_pubkey(d, p1) {
                None => None,
                Some((creator, p2)) => match read_u64(d, p2) {
                None => None,
                Some((price_lamports, p3)) => match read_u16(d, p3) {
                None => None,
                Some((royalty_bps, p4)) => match read_opt_u64(d, p4) {
                None => None,
                Some((expires_at_slot, p5)) => Some((NftMarketplaceInstruction::ListNft{ collection, creator, price_lamports, royalty_bps, expires_at_slot }, p5)),
            },
            },
            },
            },
            },
            1 => Some((NftMarketplaceInstruction::BuyNft, p0)),
            2 => Some((NftMarketplaceInstruction::CancelListing, p0)),
            _ => None,
            }
        },
    }
}

pub fn write_nft_marketplace_instruction(out: &mut Vec<u8>, v: &NftMarketplaceInstruction)
    ensures
        final(out)@ == old(out)@ + enc_nft_marketplace_instruction(*v),
{
    proof {
        reveal(enc_nft_marketplace_instruction);
    }
    match v {
        NftMarketplaceInstruction::ListNft{ collection, creator, price_lamports, royalty_bps, expires_at_slot } => {
            out.push(0u8);
            let ghost ot = out@;
            assert(ot =~= old(out)@ + seq![0u8]);
            write_pubkey(out, collection);
            let ghost o0 = out@;
            write_pubkey(out, creator);
            let ghost o1 = out@;
            write_u64(out, *price_lamports);
            let ghost o2 = out@;
            write_u16(out, *royalty_bps);
            let ghost o3 = out@;
            write_opt_u64(out, expires_at_slot);
            let ghost o4 = out@;
            proof {
                lemma_assoc(o2, enc_u16((*royalty_bps)), enc_opt_u64((*expires_at_slot)));
                lemma_assoc(o1, enc_u64((*price_lamports)), enc_u16((*royalty_bps)) + (enc_opt_u64((*expires_at_slot))));
                lemma_assoc(o0, enc_pubkey((*creator)), enc_u64((*price_lamports)) + (enc_u16((*royalty_bps)) + (enc_opt_u64((*expires_at_slot)))));
                lemma_assoc(ot, enc_pubkey((*collection)), enc_pubkey((*creator)) + (enc_u64((*price_lamports)) + (enc_u16((*royalty_bps)) + (enc_opt_u64((*expires_at_slot))))));
            }
            proof {
                lemma_assoc(old(out)@, seq![0u8], enc_pubkey((*collection)) + (enc_pubkey((*creator)) + (enc_u64((*price_lamports)) + (enc_u16((*royalty_bps)) + (enc_opt_u64((*expires_at_slot)))))));
            }
        },
        NftMarketplaceInstruction::BuyNft => {
            out.push(1u8);
            assert(out@ =~= old(out)@ + seq![1u8]);
        },
        NftMarketplaceInstruction::CancelListing => {
            out.push(2u8);
            assert(out@ =~= old(out)@ + seq![2u8]);
        },
    }
}

proof fn lemma_nft_marketplace_instruction_list_nft(collection: Pubkey, creator: Pubkey, price_lamports: u64, royalty_bps: u16, expires_at_slot: Option<u64>, rest: Seq<u8>)
    ensures
        dec_nft_marketplace_instruction(enc_nft_marketplace_instruction(NftMarketplaceInstruction::ListNft{ collection, creator, price_lamports, royalty_bps, expires_at_slot }) + rest) == Some((NftMarketplaceInstruction::ListNft{ collection, creator, price_lamports, royalty_bps, expires_at_slot }, rest)),
{
    reveal(enc_nft_marketplace_instruction);
    reveal(dec_nft_marketplace_instruction);
    assert((enc_nft_marketplace_instruction(NftMarketplaceInstruction::ListNft{ collection, creator, price_lamports, royalty_bps, expires_at_slot }) + rest).skip(1) =~= (enc_pubkey(collection) + (enc_pubkey(creator) + (enc_u64(price_lamports) + (enc_u16(royalty_bps) + (enc_opt_u64(expires_at_slot)))))) + rest);
    lemma_assoc(enc_pubkey(collection), enc_pubkey(creator) + (enc_u64(price_lamports) + (enc_u16(royalty_bps) + (enc_opt_u64(expires_at_slot)))), rest);
    lemma_pubkey(collection, enc_pubkey(creator) + (enc_u64(price_lamports) + (enc_u16(royalty_bps) + (enc_opt_u64(expires_at_slot)))) + rest);
    lemma_assoc(enc_pubkey(creator), enc_u64(price_lamports) + (enc_u16(royalty_bps) + (enc_opt_u64(expires_at_slot))), rest);
    lemma_pubkey(creator, enc_u64(price_lamports) + (enc_u16(royalty_bps) + (enc_opt_u64(expires_at_slot))) + rest);
    lemma_assoc(enc_u64(price_lamports), enc_u16(royalty_bps) + (enc_opt_u64(expires_at_slot)), rest);
    lemma_u64(price_lamports, enc_u16(royalty_bps) + (enc_opt_u64(expires_at_slot)) + rest);
    lemma_assoc(enc_u16(royalty_bps), enc_opt_u64(expires_at_slot), rest);
    lemma_u16(royalty_bps, enc_opt_u64(expires_at_slot) + rest);
    lemma_opt_u64(expires_at_slot, rest);
}

pub proof fn lemma_nft_marketplace_instruction(v: NftMarketplaceInstruction, rest: Seq<u8>)
    ensures
        dec_nft_marketplace_instruction(enc_nft_marketplace_instruction(v) + rest) == Some((v, rest)),
{
    reveal(enc_nft_marketplace_instruction);
    reveal(dec_nft_marketplace_instruction);
    match v {
        NftMarketplaceInstruction::ListNft{ collection, creator, price_lamports, royalty_bps, expires_at_slot } => lemma_nft_marketplace_instruction_list_nft(collection, creator, price_lamports, royalty_bps, expires_at_slot, rest),
        NftMarketplaceInstruction::BuyNft => {
            assert((enc_nft_marketplace_instruction(v) + rest).skip(1) =~= rest);
        },
        NftMarketplaceInstruction::CancelListing => {
            assert((enc_nft_marketplace_instruction(v) + rest).skip(1) =~= rest);
        },
    }
}

/// Decodes a [`NftMarketplaceInstruction`] that must take up all of `d`.
pub fn nft_marketplace_instruction_from_slice(d: &[u8]) -> (r: Option<NftMarketplaceInstruction>)
    ensures
        r is Some <==> (dec_nft_marketplace_instruction(d@) matches Some((_, rest)) && rest.len() == 0),
        r matches Some(v) ==> dec_nft_marketplace_instruction(d@) == Some((v, Seq::<u8>::empty())),
{
    assert(d@.skip(0) =~= d@);
    match read_nft_marketplace_instruction(d, 0) {
        None => None,
        Some((v, p)) => {
            if p == d.len() {
                assert(d@.skip(p as int) =~= Seq::<u8>::empty());
                Some(v)
            } else {
                None
            }
        },
    }
}

/// Decodes a [`NftMarketplaceInstruction`] from the front of `d`, ignoring what follows it.
pub fn nft_marketplace_instruction_from_prefix(d: &[u8]) -> (r: Option<NftMarketplaceInstruction>)
    ensures
        r is Some <==> dec_nft_marketplace_instruction(d@) is Some,
        r matches Some(v) ==> dec_nft_marketplace_instruction(d@) matches Some((m, _)) && m == v,
{
    assert(d@.skip(0) =~= d@);
    match read_nft_marketplace_instruction(d, 0) {
        None => None,
        Some((v, _)) => Some(v),
    }
}

/// Serialises a [`NftMarketplaceInstruction`].
pub fn nft_marketplace_instruction_to_vec(v: &NftMarketplaceInstruction) -> (r: Vec<u8>)
    ensures
        r@ == enc_nft_marketplace_instruction(*v),
{
    let mut out: Vec<u8> = Vec::new();
    write_nft_marketplace_instruction(&mut out, v);
    assert(out@ =~= enc_nft_marketplace_instruction(*v));
    out
}

} // verus!
