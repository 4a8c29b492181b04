use anchor_lang::prelude::Pubkey;
use cfish_contract::authority::derive_authority;
use cfish_contract::error::CustomError;
use cfish_contract::marketplace::{
    buy_nft, list_nft, mint_nft, BuyNft, EscrowAuthority, ListNft, Listing, MintNft, NftMetadata,
};

const PROGRAM: [u8; 32] = [9u8; 32];
const SELLER: [u8; 32] = [1u8; 32];
const MINT: [u8; 32] = [2u8; 32];
const BUYER: [u8; 32] = [3u8; 32];
const ESCROW_ACCOUNT: [u8; 32] = [4u8; 32];

fn blank_listing() -> Listing {
    Listing {
        seller: [0u8; 32],
        nft_mint: [0u8; 32],
        price: 0,
        escrow_nft_token_account: [0u8; 32],
        escrow_authority: [0u8; 32],
        is_sold: false,
    }
}

fn fresh_list_ctx(seller_nft_amount: u64) -> ListNft {
    ListNft {
        program_id: PROGRAM,
        seller: SELLER,
        nft_mint: MINT,
        seller_nft_amount,
        escrow_nft_token_account: ESCROW_ACCOUNT,
        escrow_nft_amount: 0,
        listing: blank_listing(),
        escrow_authority: EscrowAuthority { bump: 0 },
    }
}

fn listed(price: u64) -> ListNft {
    let mut l = fresh_list_ctx(1);
    assert_eq!(list_nft(&mut l, price), Ok(()));
    l
}

fn buy_ctx(l: &ListNft, buyer_lamports: u64) -> BuyNft {
    BuyNft {
        program_id: PROGRAM,
        buyer: BUYER,
        buyer_lamports,
        seller_lamports: 0,
        listing: l.listing,
        escrow_authority: l.escrow_authority,
        escrow_nft_amount: l.escrow_nft_amount,
        buyer_nft_amount: 0,
    }
}

#[test]
fn list_locks_one_unit_and_opens_unsold_listing() {
    let l = listed(500);
    assert_eq!(l.seller_nft_amount, 0);
    assert_eq!(l.escrow_nft_amount, 1);
    assert_eq!(l.listing.seller, SELLER);
    assert_eq!(l.listing.nft_mint, MINT);
    assert_eq!(l.listing.price, 500);
    assert_eq!(l.listing.escrow_nft_token_account, ESCROW_ACCOUNT);
    assert!(!l.listing.is_sold);
}

#[test]
fn list_records_the_derived_escrow_authority() {
    let l = listed(500);
    let (expected, bump) = Pubkey::find_program_address(
        &[b"escrow_authority", &MINT],
        &Pubkey::new_from_array(PROGRAM),
    );
    assert_eq!(l.listing.escrow_authority, expected.to_bytes());
    assert_eq!(l.escrow_authority.bump, bump);
    assert_ne!(l.listing.escrow_authority, MINT);
    let again = derive_authority(&b"escrow_authority".to_vec(), &vec![MINT], &PROGRAM);
    assert_eq!(again, Some((expected.to_bytes(), bump)));
}

#[test]
fn list_refuses_without_exactly_one_unit() {
    let mut none = fresh_list_ctx(0);
    assert_eq!(list_nft(&mut none, 500), Err(CustomError::NotSingleUnit));
    assert_eq!(none.seller_nft_amount, 0);
    assert_eq!(none.escrow_nft_amount, 0);
    let mut two = fresh_list_ctx(2);
    assert_eq!(list_nft(&mut two, 500), Err(CustomError::NotSingleUnit));
    assert_eq!(two.seller_nft_amount, 2);
}

#[test]
fn list_then_buy_scenario() {
    let l = listed(500);
    let mut b = buy_ctx(&l, 500);
    assert_eq!(buy_nft(&mut b), Ok(()));
    assert_eq!(b.seller_lamports, 500);
    assert_eq!(b.buyer_lamports, 0);
    assert_eq!(b.buyer_nft_amount, 1);
    assert_eq!(b.escrow_nft_amount, 0);
    assert!(b.listing.is_sold);
    assert_eq!(buy_nft(&mut b), Err(CustomError::AlreadySold));
    assert_eq!(b.seller_lamports, 500);
    assert_eq!(b.buyer_lamports, 0);
    assert_eq!(b.buyer_nft_amount, 1);
    assert!(b.listing.is_sold);
}

#[test]
fn buy_on_sold_listing_moves_nothing() {
    let l = listed(500);
    let mut b = buy_ctx(&l, 10_000);
    b.listing.is_sold = true;
    b.seller_lamports = 7;
    assert_eq!(buy_nft(&mut b), Err(CustomError::AlreadySold));
    assert_eq!(b.buyer_lamports, 10_000);
    assert_eq!(b.seller_lamports, 7);
    assert_eq!(b.escrow_nft_amount, 1);
    assert_eq!(b.buyer_nft_amount, 0);
}

#[test]
fn buy_with_too_little_currency_fails_whole() {
    let l = listed(500);
    let mut b = buy_ctx(&l, 499);
    assert_eq!(buy_nft(&mut b), Err(CustomError::InsufficientFunds));
    assert_eq!(b.buyer_lamports, 499);
    assert_eq!(b.seller_lamports, 0);
    assert_eq!(b.escrow_nft_amount, 1);
    assert_eq!(b.buyer_nft_amount, 0);
    assert!(!b.listing.is_sold);
}

#[test]
fn buy_with_wrong_bump_fails_closed() {
    let l = listed(500);
    let mut b = buy_ctx(&l, 500);
    b.escrow_authority.bump = b.escrow_authority.bump.wrapping_sub(1);
    assert_eq!(buy_nft(&mut b), Err(CustomError::AuthorityMismatch));
    assert_eq!(b.buyer_lamports, 500);
    assert!(!b.listing.is_sold);
}

#[test]
fn buy_with_seller_balance_at_limit_overflows() {
    let l = listed(500);
    let mut b = buy_ctx(&l, 500);
    b.seller_lamports = u64::MAX - 499;
    assert_eq!(buy_nft(&mut b), Err(CustomError::Overflow));
    assert_eq!(b.buyer_lamports, 500);
}

#[test]
fn buy_from_empty_escrow_fails() {
    let l = listed(500);
    let mut b = buy_ctx(&l, 500);
    b.escrow_nft_amount = 0;
    assert_eq!(buy_nft(&mut b), Err(CustomError::InsufficientFunds));
    assert_eq!(b.buyer_lamports, 500);
}

fn blank_metadata() -> NftMetadata {
    NftMetadata {
        mint: [0u8; 32],
        creator: [0u8; 32],
        name: String::new(),
        symbol: String::new(),
        uri: String::new(),
    }
}

#[test]
fn mint_records_metadata() {
    let mut m = MintNft { mint: MINT, mint_authority: SELLER, nft_metadata: blank_metadata() };
    let r = mint_nft(&mut m, "Fish".to_string(), "CF".to_string(), "https://example.com/1".to_string());
    assert_eq!(r, Ok(()));
    assert_eq!(m.nft_metadata.mint, MINT);
    assert_eq!(m.nft_metadata.creator, SELLER);
    assert_eq!(m.nft_metadata.name, "Fish");
    assert_eq!(m.nft_metadata.symbol, "CF");
    assert_eq!(m.nft_metadata.uri, "https://example.com/1");
}

#[test]
fn mint_refuses_overlong_symbol() {
    let mut m = MintNft { mint: MINT, mint_authority: SELLER, nft_metadata: blank_metadata() };
    let r = mint_nft(&mut m, "Fish".to_string(), "ABCDEFGHIJK".to_string(), String::new());
    assert_eq!(r, Err(CustomError::FieldTooLong));
    assert_eq!(m.nft_metadata.name, "");
    let ok = mint_nft(&mut m, "Fish".to_string(), "ABCDEFGHIJ".to_string(), String::new());
    assert_eq!(ok, Ok(()));
}
