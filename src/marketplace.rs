use vstd::prelude::*;
use vstd::utf8::encode_utf8;

use crate::authority::{certified_address, derive_authority, derived, verify_authority, Key};
use crate::error::CustomError;

verus! {

/// Most bytes of an asset's name.
pub const MAX_NAME_LEN: usize = 100;

/// Most bytes of an asset's symbol.
pub const MAX_SYMBOL_LEN: usize = 10;

/// Most bytes of an asset's metadata location.
pub const MAX_URI_LEN: usize = 200;

/// The size in bytes of a text in UTF-8.
pub open spec fn byte_len(s: Seq<char>) -> nat {
    encode_utf8(s).len()
}

/// The descriptive record of a minted asset.
#[derive(Debug, Clone)]
pub struct NftMetadata {
    pub mint: Key,
    pub creator: Key,
    pub name: String,
    pub symbol: String,
    pub uri: String,
}

/// The records that minting reads and writes.
#[derive(Debug, Clone)]
pub struct MintNft {
    pub mint: Key,
    pub mint_authority: Key,
    pub nft_metadata: NftMetadata,
}

/// A sale offer for one asset held in escrow. `is_sold` goes from false to true once.
#[derive(Debug, Clone, Copy)]
pub struct Listing {
    pub seller: Key,
    pub nft_mint: Key,
    pub price: u64,
    pub escrow_nft_token_account: Key,
    pub escrow_authority: Key,
    pub is_sold: bool,
}

/// The certifying bump of the derived authority that holds a listed asset.
#[derive(Debug, Clone, Copy, PartialEq, Eq, Structural)]
pub struct EscrowAuthority {
    pub bump: u8,
}

/// The records that listing reads and writes: the seller's and the escrow's asset
/// balances, the new listing and the new escrow authority.
#[derive(Debug, Clone, Copy)]
pub struct ListNft {
    pub program_id: Key,
    pub seller: Key,
    pub nft_mint: Key,
    pub seller_nft_amount: u64,
    pub escrow_nft_token_account: Key,
    pub escrow_nft_amount: u64,
    pub listing: Listing,
    pub escrow_authority: EscrowAuthority,
}

/// The records that a purchase reads and writes: both sides' currency balances, the
/// listing, its escrow authority, and the escrow's and the buyer's asset balances.
#[derive(Debug, Clone, Copy)]
pub struct BuyNft {
    pub program_id: Key,
    pub buyer: Key,
    pub buyer_lamports: u64,
    pub seller_lamports: u64,
    pub listing: Listing,
    pub escrow_authority: EscrowAuthority,
    pub escrow_nft_amount: u64,
    pub buyer_nft_amount: u64,
}

/// Why minting with these texts is refused, if it is.
pub open spec fn mint_error(name: Seq<char>, symbol: Seq<char>, uri: Seq<char>) -> Option<CustomError> {
    if byte_len(name) > MAX_NAME_LEN || byte_len(symbol) > MAX_SYMBOL_LEN || byte_len(uri) > MAX_URI_LEN {
        Some(CustomError::FieldTooLong)
    } else {
        None
    }
}

/// Records the metadata of a freshly minted asset, with the mint authority as creator.
pub fn mint_nft(ctx: &mut MintNft, name: String, symbol: String, uri: String) -> (r: Result<(), CustomError>)
    ensures
        match r {
            Ok(()) => {
                &&& mint_error(name@, symbol@, uri@) is None
                &&& final(ctx).mint == old(ctx).mint
                &&& final(ctx).mint_authority == old(ctx).mint_authority
                &&& final(ctx).nft_metadata.mint == old(ctx).mint
                &&& final(ctx).nft_metadata.creator == old(ctx).mint_authority
                &&& final(ctx).nft_metadata.name@ == name@
                &&& final(ctx).nft_metadata.symbol@ == symbol@
                &&& final(ctx).nft_metadata.uri@ == uri@
            },
            Err(e) => mint_error(name@, symbol@, uri@) == Some(e) && *final(ctx) == *old(ctx),
        },
{
    let name_len = name.as_str().as_bytes().len();
    let symbol_len = symbol.as_str().as_bytes().len();
    let uri_len = uri.as_str().as_bytes().len();
    if name_len > MAX_NAME_LEN || symbol_len > MAX_SYMBOL_LEN || uri_len > MAX_URI_LEN {
        return Err(CustomError::FieldTooLong);
    }
    ctx.nft_metadata = NftMetadata { mint: ctx.mint, creator: ctx.mint_authority, name, symbol, uri };
    Ok(())
}

/// The namespace of escrow authorities: the ASCII bytes of `escrow_authority`.
pub open spec fn escrow_namespace() -> Seq<u8> {
    seq![101u8, 115, 99, 114, 111, 119, 95, 97, 117, 116, 104, 111, 114, 105, 116, 121]
}

fn escrow_namespace_bytes() -> (r: Vec<u8>)
    ensures
        r@ == escrow_namespace(),
{
    let r: Vec<u8> = vec![101u8, 115, 99, 114, 111, 119, 95, 97, 117, 116, 104, 111, 114, 105, 116, 121];
    assert(r@ =~= escrow_namespace());
    r
}

/// Why listing is refused, if it is.
pub open spec fn list_error(c: ListNft) -> Option<CustomError> {
    if c.seller_nft_amount != 1 {
        Some(CustomError::NotSingleUnit)
    } else if c.escrow_nft_amount + 1 > u64::MAX {
        Some(CustomError::Overflow)
    } else if derived(escrow_namespace(), seq![c.nft_mint], c.program_id@) is None {
        Some(CustomError::DerivationFailed)
    } else {
        None
    }
}

/// The records after a successful listing at `price`: the unit sits in escrow under
/// the derived authority, whose address and bump are recorded.
pub open spec fn list_effect(c: ListNft, price: u64, authority: Key, bump: u8) -> ListNft {
    ListNft {
        seller_nft_amount: (c.seller_nft_amount - 1) as u64,
        escrow_nft_amount: (c.escrow_nft_amount + 1) as u64,
        listing: Listing {
            seller: c.seller,
            nft_mint: c.nft_mint,
            price,
            escrow_nft_token_account: c.escrow_nft_token_account,
            escrow_authority: authority,
            is_sold: false,
        },
        escrow_authority: EscrowAuthority { bump },
        ..c
    }
}

/// Puts the seller's one unit of the asset in escrow and opens an unsold listing at
/// `price`.
pub fn list_nft(ctx: &mut ListNft, price: u64) -> (r: Result<(), CustomError>)
    ensures
        match r {
            Ok(()) => {
                &&& list_error(*old(ctx)) is None
                &&& derived(escrow_namespace(), seq![old(ctx).nft_mint], old(ctx).program_id@) == Some(
                    (final(ctx).listing.escrow_authority@, final(ctx).escrow_authority.bump),
                )
                &&& *final(ctx) == list_effect(
                    *old(ctx),
                    price,
                    final(ctx).listing.escrow_authority,
                    final(ctx).escrow_authority.bump,
                )
            },
            Err(e) => list_error(*old(ctx)) == Some(e) && *final(ctx) == *old(ctx),
        },
{
    if ctx.seller_nft_amount != 1 {
        return Err(CustomError::NotSingleUnit);
    }
    if ctx.escrow_nft_amount == u64::MAX {
        return Err(CustomError::Overflow);
    }
    let namespace = escrow_namespace_bytes();
    let mut owners: Vec<Key> = Vec::new();
    owners.push(ctx.nft_mint);
    proof {
        assert(owners@ =~= seq![ctx.nft_mint]);
    }
    let (authority, bump) = match derive_authority(&namespace, &owners, &ctx.program_id) {
        Some(found) => found,
        None => {
            return Err(CustomError::DerivationFailed);
        },
    };
    ctx.seller_nft_amount = ctx.seller_nft_amount - 1;
    ctx.escrow_nft_amount = ctx.escrow_nft_amount + 1;
    ctx.listing = Listing {
        seller: ctx.seller,
        nft_mint: ctx.nft_mint,
        price,
        escrow_nft_token_account: ctx.escrow_nft_token_account,
        escrow_authority: authority,
        is_sold: false,
    };
    ctx.escrow_authority = EscrowAuthority { bump };
    Ok(())
}

/// Why a purchase is refused, if it is. A sold listing is refused before anything else.
pub open spec fn buy_error(c: BuyNft) -> Option<CustomError> {
    if c.listing.is_sold {
        Some(CustomError::AlreadySold)
    } else if c.buyer_lamports < c.listing.price {
        Some(CustomError::InsufficientFunds)
    } else if c.seller_lamports + c.listing.price > u64::MAX {
        Some(CustomError::Overflow)
    } else if certified_address(
        escrow_namespace(),
        seq![c.listing.nft_mint],
        c.escrow_authority.bump,
        c.program_id@,
    ) != Some(c.listing.escrow_authority@) {
        Some(CustomError::AuthorityMismatch)
    } else if c.escrow_nft_amount < 1 {
        Some(CustomError::InsufficientFunds)
    } else if c.buyer_nft_amount + 1 > u64::MAX {
        Some(CustomError::Overflow)
    } else {
        None
    }
}

/// The records after a successful purchase: the price goes from buyer to seller, the
/// unit from escrow to buyer, and the listing is sold.
pub open spec fn buy_effect(c: BuyNft) -> BuyNft {
    BuyNft {
        buyer_lamports: (c.buyer_lamports - c.listing.price) as u64,
        seller_lamports: (c.seller_lamports + c.listing.price) as u64,
        escrow_nft_amount: (c.escrow_nft_amount - 1) as u64,
        buyer_nft_amount: (c.buyer_nft_amount + 1) as u64,
        listing: Listing { is_sold: true, ..c.listing },
        ..c
    }
}

/// What a purchase does: the effect when nothing refuses it, else no change.
pub open spec fn buy_step(c: BuyNft) -> BuyNft {
    if buy_error(c) is None {
        buy_effect(c)
    } else {
        c
    }
}

/// Pays the listing's price to the seller and hands the escrowed unit to the buyer,
/// signed for by the escrow's derived authority; all of it or nothing.
pub fn buy_nft(ctx: &mut BuyNft) -> (r: Result<(), CustomError>)
    ensures
        match r {
            Ok(()) => buy_error(*old(ctx)) is None && *final(ctx) == buy_effect(*old(ctx)),
            Err(e) => buy_error(*old(ctx)) == Some(e) && *final(ctx) == *old(ctx),
        },
{
    if ctx.listing.is_sold {
        return Err(CustomError::AlreadySold);
    }
    let price = ctx.listing.price;
    if ctx.buyer_lamports < price {
        return Err(CustomError::InsufficientFunds);
    }
    if ctx.seller_lamports > u64::MAX - price {
        return Err(CustomError::Overflow);
    }
    let namespace = escrow_namespace_bytes();
    let mut owners: Vec<Key> = Vec::new();
    owners.push(ctx.listing.nft_mint);
    proof {
        assert(owners@ =~= seq![ctx.listing.nft_mint]);
    }
    if !verify_authority(
        &namespace,
        &owners,
        ctx.escrow_authority.bump,
        &ctx.program_id,
        &ctx.listing.escrow_authority,
    ) {
        return Err(CustomError::AuthorityMismatch);
    }
    if ctx.escrow_nft_amount < 1 {
        return Err(CustomError::InsufficientFunds);
    }
    if ctx.buyer_nft_amount == u64::MAX {
        return Err(CustomError::Overflow);
    }
    ctx.buyer_lamports = ctx.buyer_lamports - price;
    ctx.seller_lamports = ctx.seller_lamports + price;
    ctx.escrow_nft_amount = ctx.escrow_nft_amount - 1;
    ctx.buyer_nft_amount = ctx.buyer_nft_amount + 1;
    ctx.listing.is_sold = true;
    Ok(())
}

/// A purchase attempt on a sold listing is refused with `AlreadySold` and changes
/// nothing, balances included.
pub proof fn lemma_sold_listing_refused(c: BuyNft)
    requires
        c.listing.is_sold,
    ensures
        buy_error(c) == Some(CustomError::AlreadySold),
        buy_step(c) == c,
{
}

/// The listing after successive purchase attempts, each made with the records of
/// `attempts[i]` around the listing as it then stands, with the number that succeeded.
pub open spec fn buy_run(l: Listing, attempts: Seq<BuyNft>) -> (Listing, nat)
    decreases attempts.len(),
{
    if attempts.len() == 0 {
        (l, 0)
    } else {
        let (cur, n) = buy_run(l, attempts.drop_last());
        let c = BuyNft { listing: cur, ..attempts.last() };
        (buy_step(c).listing, if buy_error(c) is None { n + 1 } else { n })
    }
}

/// A listing is sold at most once, and for good: over any attempts, at most one
/// purchase succeeds; the listing ends sold exactly when it started sold or one
/// succeeded; and a listing that started sold sees none succeed and stays as it was.
pub proof fn lemma_sold_once(l: Listing, attempts: Seq<BuyNft>)
    ensures
        buy_run(l, attempts).1 <= 1,
        buy_run(l, attempts).0.is_sold == (l.is_sold || buy_run(l, attempts).1 == 1),
        l.is_sold ==> buy_run(l, attempts).1 == 0 && buy_run(l, attempts).0 == l,
        buy_run(l, attempts).0.price == l.price,
        buy_run(l, attempts).0.seller == l.seller,
    decreases attempts.len(),
{
    if attempts.len() > 0 {
        lemma_sold_once(l, attempts.drop_last());
    }
}

/// A fresh listing is unsold and carries the price it was listed at.
pub proof fn lemma_listed_unsold(c: ListNft, price: u64, authority: Key, bump: u8)
    ensures
        !list_effect(c, price, authority, bump).listing.is_sold,
        list_effect(c, price, authority, bump).listing.price == price,
{
}

} // verus!
