use anft_marketplace::errors::MarketplaceError;
use anft_marketplace::market::MarketState;
use anft_marketplace::records::AssetHolder;

const ADMIN: u64 = 1;
const FEE_RECIPIENT: u64 = 2;
const SELLER: u64 = 10;
const BUYER: u64 = 11;
const OFFERER: u64 = 12;
const ASSET: u64 = 77;
const DAY: i64 = 86400;

/// A market with one funded seller and buyer and one asset held by the seller.
fn setup(fee_bps: u16) -> MarketState {
    let (mut s, _) = MarketState::initialize_marketplace(ADMIN, FEE_RECIPIENT, fee_bps, 0)
        .unwrap();
    s.credit_wallet(SELLER, 2_000_000).unwrap();
    s.credit_wallet(BUYER, 2_000_000).unwrap();
    s.credit_wallet(OFFERER, 2_000_000).unwrap();
    s.mint_asset(ASSET, SELLER).unwrap();
    s
}

#[test]
fn buy_with_five_percent_fee() {
    let mut s = setup(500);
    s.list_nft(SELLER, ASSET, 1_000_000, DAY, false, 100).unwrap();
    let ev = s.buy_nft(BUYER, ASSET, 200).unwrap();
    assert_eq!(ev.fee, 50_000);
    assert_eq!(ev.price, 1_000_000);
    // Both transfers observed: payout to the seller, fee to the recipient.
    assert_eq!(s.balance_of(SELLER), 2_000_000 + 950_000);
    assert_eq!(s.balance_of(BUYER), 2_000_000 - 1_000_000);
    assert_eq!(s.balance_of(FEE_RECIPIENT), 50_000);
    // The listing becomes inactive but the record persists.
    let listing = s.get_listing(ASSET).unwrap();
    assert!(!listing.is_active);
    assert_eq!(listing.price, 1_000_000);
    // The asset's unit now sits with the buyer.
    assert_eq!(s.holder_of(ASSET), Some(AssetHolder::Wallet(BUYER)));
}

#[test]
fn accept_offer_with_fee_250() {
    let mut s = setup(250);
    s.list_nft(SELLER, ASSET, 1_000_000, DAY, false, 0).unwrap();
    s.make_offer(OFFERER, ASSET, 200, DAY, 0).unwrap();
    // The offered amount sits in the offer's escrow record.
    assert_eq!(s.get_offer_escrow(ASSET, OFFERER).unwrap().balance, 200);
    assert_eq!(s.balance_of(OFFERER), 2_000_000 - 200);
    let ev = s.accept_offer(SELLER, ASSET, OFFERER, 100).unwrap();
    assert_eq!(ev.fee, 5);
    assert_eq!(ev.price, 200);
    assert_eq!(s.balance_of(SELLER), 2_000_000 + 195);
    assert_eq!(s.balance_of(FEE_RECIPIENT), 5);
    // Offer and its escrow are fully destroyed: re-querying finds nothing.
    assert!(s.get_offer(ASSET, OFFERER).is_none());
    assert!(s.get_offer_escrow(ASSET, OFFERER).is_none());
    // The asset's unit went to the offerer; the listing is retained inactive.
    assert_eq!(s.holder_of(ASSET), Some(AssetHolder::Wallet(OFFERER)));
    assert!(!s.get_listing(ASSET).unwrap().is_active);
}

#[test]
fn listing_below_minimum_duration_fails() {
    let mut s = setup(500);
    let r = s.list_nft(SELLER, ASSET, 1_000_000, 3600, false, 0);
    assert_eq!(r.unwrap_err(), MarketplaceError::DurationTooShort);
    assert!(s.get_listing(ASSET).is_none());
}

#[test]
fn buying_own_listing_fails() {
    let mut s = setup(500);
    s.list_nft(SELLER, ASSET, 1_000_000, DAY, false, 0).unwrap();
    // Active listing: the self-trade error, nothing moved.
    let r = s.buy_nft(SELLER, ASSET, 100);
    assert_eq!(r.unwrap_err(), MarketplaceError::CannotBuyOwnListing);
    assert!(s.get_listing(ASSET).unwrap().is_active);
    assert_eq!(s.balance_of(SELLER), 2_000_000);
    // Expired listing: still the self-trade error, not the expiry error.
    let r = s.buy_nft(SELLER, ASSET, 2 * DAY);
    assert_eq!(r.unwrap_err(), MarketplaceError::CannotBuyOwnListing);
    // Retained-inactive record after a sale: still the self-trade error for
    // its stored seller, while anyone else gets the not-active error.
    s.buy_nft(BUYER, ASSET, 100).unwrap();
    let r = s.buy_nft(SELLER, ASSET, 200);
    assert_eq!(r.unwrap_err(), MarketplaceError::CannotBuyOwnListing);
    assert_eq!(
        s.buy_nft(OFFERER, ASSET, 200).unwrap_err(),
        MarketplaceError::ListingNotActive
    );
}

#[test]
fn buying_own_auction_listing_fails_as_self_trade() {
    let mut s = setup(500);
    s.list_nft(SELLER, ASSET, 1_000_000, DAY, true, 0).unwrap();
    let r = s.buy_nft(SELLER, ASSET, 100);
    assert_eq!(r.unwrap_err(), MarketplaceError::CannotBuyOwnListing);
}

#[test]
fn relist_after_purchase_reuses_the_record() {
    let mut s = setup(500);
    s.list_nft(SELLER, ASSET, 1_000_000, DAY, false, 0).unwrap();
    s.buy_nft(BUYER, ASSET, 100).unwrap();
    assert_eq!(s.config().listing_count, 1);
    // The same derived address accepts a fresh listing by the new holder.
    let ev = s.list_nft(BUYER, ASSET, 500_000, DAY, false, 200).unwrap();
    assert_eq!(ev.seller, BUYER);
    let listing = s.get_listing(ASSET).unwrap();
    assert!(listing.is_active);
    assert_eq!(listing.seller, BUYER);
    assert_eq!(listing.price, 500_000);
    assert_eq!(s.config().listing_count, 2);
    assert_eq!(s.holder_of(ASSET), Some(AssetHolder::EscrowVault));
}

#[test]
fn cancel_destroys_the_record_and_frees_the_address() {
    let mut s = setup(500);
    s.list_nft(SELLER, ASSET, 1_000_000, DAY, false, 0).unwrap();
    let ev = s.cancel_listing(SELLER, ASSET).unwrap();
    assert_eq!(ev.seller, SELLER);
    // Cancellation reclaims the record outright; a sale would have kept it.
    assert!(s.get_listing(ASSET).is_none());
    assert_eq!(s.holder_of(ASSET), Some(AssetHolder::Wallet(SELLER)));
    // The address is available again for fresh creation.
    s.list_nft(SELLER, ASSET, 700_000, DAY, false, 50).unwrap();
    let listing = s.get_listing(ASSET).unwrap();
    assert!(listing.is_active);
    assert_eq!(listing.price, 700_000);
}

#[test]
fn admin_may_cancel_a_listing() {
    let mut s = setup(500);
    s.list_nft(SELLER, ASSET, 1_000_000, DAY, false, 0).unwrap();
    s.cancel_listing(ADMIN, ASSET).unwrap();
    assert_eq!(s.holder_of(ASSET), Some(AssetHolder::Wallet(SELLER)));
    let r = s.cancel_listing(BUYER, ASSET);
    assert_eq!(r.unwrap_err(), MarketplaceError::ListingNotActive);
}

#[test]
fn stranger_cannot_cancel_a_listing() {
    let mut s = setup(500);
    s.list_nft(SELLER, ASSET, 1_000_000, DAY, false, 0).unwrap();
    let r = s.cancel_listing(BUYER, ASSET);
    assert_eq!(r.unwrap_err(), MarketplaceError::Unauthorized);
    assert!(s.get_listing(ASSET).unwrap().is_active);
}

#[test]
fn second_purchase_fails_and_never_double_pays() {
    let mut s = setup(500);
    s.list_nft(SELLER, ASSET, 1_000_000, DAY, false, 0).unwrap();
    s.buy_nft(BUYER, ASSET, 100).unwrap();
    let seller_after = s.balance_of(SELLER);
    let r = s.buy_nft(OFFERER, ASSET, 101);
    assert_eq!(r.unwrap_err(), MarketplaceError::ListingNotActive);
    assert_eq!(s.balance_of(SELLER), seller_after);
    assert_eq!(s.balance_of(OFFERER), 2_000_000);
    assert_eq!(s.holder_of(ASSET), Some(AssetHolder::Wallet(BUYER)));
}

#[test]
fn cancel_offer_twice_fails_the_second_time() {
    let mut s = setup(500);
    s.list_nft(SELLER, ASSET, 1_000_000, DAY, false, 0).unwrap();
    s.make_offer(OFFERER, ASSET, 300, DAY, 0).unwrap();
    assert_eq!(s.balance_of(OFFERER), 2_000_000 - 300);
    let ev = s.cancel_offer(OFFERER, ASSET).unwrap();
    assert_eq!(ev.amount, 300);
    assert_eq!(s.balance_of(OFFERER), 2_000_000);
    // The record is already destroyed: the second cancellation refunds nothing.
    let r = s.cancel_offer(OFFERER, ASSET);
    assert_eq!(r.unwrap_err(), MarketplaceError::OfferNotFound);
    assert_eq!(s.balance_of(OFFERER), 2_000_000);
}

#[test]
fn expired_listing_cannot_be_bought() {
    let mut s = setup(500);
    s.list_nft(SELLER, ASSET, 1_000_000, DAY, false, 0).unwrap();
    let r = s.buy_nft(BUYER, ASSET, DAY);
    assert_eq!(r.unwrap_err(), MarketplaceError::ListingExpired);
}

#[test]
fn auction_listing_refuses_fixed_price_purchase() {
    let mut s = setup(500);
    s.list_nft(SELLER, ASSET, 1_000_000, DAY, true, 0).unwrap();
    let r = s.buy_nft(BUYER, ASSET, 100);
    assert_eq!(r.unwrap_err(), MarketplaceError::UseAuctionBidding);
    // The offer path still settles an auction-flagged listing.
    s.make_offer(OFFERER, ASSET, 400, DAY, 0).unwrap();
    s.accept_offer(SELLER, ASSET, OFFERER, 100).unwrap();
    assert_eq!(s.holder_of(ASSET), Some(AssetHolder::Wallet(OFFERER)));
}

#[test]
fn poor_buyer_cannot_settle() {
    let mut s = setup(500);
    s.list_nft(SELLER, ASSET, 1_900_000, DAY, false, 0).unwrap();
    s.credit_wallet(13, 1_000).unwrap();
    let r = s.buy_nft(13, ASSET, 100);
    assert_eq!(r.unwrap_err(), MarketplaceError::InsufficientFunds);
    assert_eq!(s.balance_of(13), 1_000);
    assert!(s.get_listing(ASSET).unwrap().is_active);
}

#[test]
fn listing_requires_owning_the_asset() {
    let mut s = setup(500);
    let r = s.list_nft(BUYER, ASSET, 1_000_000, DAY, false, 0);
    assert_eq!(r.unwrap_err(), MarketplaceError::SellerDoesNotOwnNft);
    let r2 = s.list_nft(SELLER, 999, 1_000_000, DAY, false, 0);
    assert_eq!(r2.unwrap_err(), MarketplaceError::SellerDoesNotOwnNft);
}

#[test]
fn listing_requires_positive_price() {
    let mut s = setup(500);
    let r = s.list_nft(SELLER, ASSET, 0, DAY, false, 0);
    assert_eq!(r.unwrap_err(), MarketplaceError::PriceMustBePositive);
}

#[test]
fn relisting_while_active_fails() {
    let mut s = setup(500);
    s.list_nft(SELLER, ASSET, 1_000_000, DAY, false, 0).unwrap();
    let r = s.list_nft(SELLER, ASSET, 2_000_000, DAY, false, 1);
    assert_eq!(r.unwrap_err(), MarketplaceError::ListingNotActive);
    assert_eq!(s.get_listing(ASSET).unwrap().price, 1_000_000);
}

#[test]
fn listing_expiration_overflow_is_an_error() {
    let mut s = setup(500);
    let r = s.list_nft(SELLER, ASSET, 1_000_000, DAY, false, i64::MAX - 100);
    assert_eq!(r.unwrap_err(), MarketplaceError::Overflow);
}

#[test]
fn update_price_rules() {
    let mut s = setup(500);
    s.list_nft(SELLER, ASSET, 1_000_000, DAY, false, 0).unwrap();
    assert_eq!(
        s.update_price(SELLER, ASSET, 0).unwrap_err(),
        MarketplaceError::PriceMustBePositive
    );
    assert_eq!(
        s.update_price(BUYER, ASSET, 5).unwrap_err(),
        MarketplaceError::InvalidSeller
    );
    let ev = s.update_price(SELLER, ASSET, 800_000).unwrap();
    assert_eq!(ev.old_price, 1_000_000);
    assert_eq!(ev.new_price, 800_000);
    // The next purchase pays the new price.
    s.buy_nft(BUYER, ASSET, 100).unwrap();
    assert_eq!(s.balance_of(BUYER), 2_000_000 - 800_000);
    // An inactive listing's price cannot change.
    assert_eq!(
        s.update_price(SELLER, ASSET, 5).unwrap_err(),
        MarketplaceError::ListingNotActive
    );
}

#[test]
fn offer_rules() {
    let mut s = setup(500);
    assert_eq!(
        s.make_offer(OFFERER, ASSET, 100, DAY, 0).unwrap_err(),
        MarketplaceError::ListingNotActive
    );
    s.list_nft(SELLER, ASSET, 1_000_000, DAY, false, 0).unwrap();
    assert_eq!(
        s.make_offer(OFFERER, ASSET, 0, DAY, 0).unwrap_err(),
        MarketplaceError::OfferAmountMustBePositive
    );
    assert_eq!(
        s.make_offer(SELLER, ASSET, 100, DAY, 0).unwrap_err(),
        MarketplaceError::CannotOfferOnOwnListing
    );
    s.credit_wallet(14, 10).unwrap();
    assert_eq!(
        s.make_offer(14, ASSET, 100, DAY, 0).unwrap_err(),
        MarketplaceError::InsufficientFunds
    );
    s.make_offer(OFFERER, ASSET, 100, DAY, 0).unwrap();
    // A standing offer must be cancelled before a new one can be placed.
    assert_eq!(
        s.make_offer(OFFERER, ASSET, 200, DAY, 1).unwrap_err(),
        MarketplaceError::OfferAlreadyActive
    );
    assert_eq!(s.get_offer(ASSET, OFFERER).unwrap().amount, 100);
}

#[test]
fn accept_offer_rules() {
    let mut s = setup(500);
    s.list_nft(SELLER, ASSET, 1_000_000, DAY, false, 0).unwrap();
    assert_eq!(
        s.accept_offer(SELLER, ASSET, OFFERER, 0).unwrap_err(),
        MarketplaceError::OfferNotFound
    );
    s.make_offer(OFFERER, ASSET, 100, 1000, 0).unwrap();
    assert_eq!(
        s.accept_offer(BUYER, ASSET, OFFERER, 0).unwrap_err(),
        MarketplaceError::InvalidSeller
    );
    assert_eq!(
        s.accept_offer(SELLER, ASSET, OFFERER, 1000).unwrap_err(),
        MarketplaceError::OfferExpired
    );
    // The expired offer is still standing and can be cancelled for a refund.
    s.cancel_offer(OFFERER, ASSET).unwrap();
    assert_eq!(s.balance_of(OFFERER), 2_000_000);
}

#[test]
fn acceptance_ignores_the_listing_expiration() {
    let mut s = setup(500);
    s.list_nft(SELLER, ASSET, 1_000_000, DAY, false, 0).unwrap();
    s.make_offer(OFFERER, ASSET, 1_000_000, 10 * DAY, 0).unwrap();
    // Well past the listing's own expiration, within the offer's: accepted.
    // Only the offer's expiration is checked — the preserved asymmetry.
    let ev = s.accept_offer(SELLER, ASSET, OFFERER, 5 * DAY).unwrap();
    assert_eq!(ev.fee, 50_000);
    assert_eq!(s.balance_of(SELLER), 2_000_000 + 950_000);
}

#[test]
fn dangling_offer_survives_a_sale_and_is_refundable() {
    let mut s = setup(500);
    s.list_nft(SELLER, ASSET, 1_000_000, DAY, false, 0).unwrap();
    s.make_offer(OFFERER, ASSET, 400, DAY, 0).unwrap();
    s.buy_nft(BUYER, ASSET, 100).unwrap();
    // The sale does not touch the standing offer; acceptance now fails, and
    // the offerer takes the escrowed amount back.
    assert_eq!(
        s.accept_offer(SELLER, ASSET, OFFERER, 100).unwrap_err(),
        MarketplaceError::ListingNotActive
    );
    assert_eq!(s.get_offer(ASSET, OFFERER).unwrap().amount, 400);
    s.cancel_offer(OFFERER, ASSET).unwrap();
    assert_eq!(s.balance_of(OFFERER), 2_000_000);
}

#[test]
fn stranger_cancelling_an_offer_finds_none() {
    let mut s = setup(500);
    s.list_nft(SELLER, ASSET, 1_000_000, DAY, false, 0).unwrap();
    s.make_offer(OFFERER, ASSET, 300, DAY, 0).unwrap();
    // Cancellation acts on the caller's own (asset, caller) address: another
    // identity has no record there.
    assert_eq!(
        s.cancel_offer(BUYER, ASSET).unwrap_err(),
        MarketplaceError::OfferNotFound
    );
    assert_eq!(s.get_offer(ASSET, OFFERER).unwrap().amount, 300);
}

#[test]
fn zero_fee_pays_the_recipient_nothing() {
    let mut s = setup(0);
    s.list_nft(SELLER, ASSET, 1_000_000, DAY, false, 0).unwrap();
    let ev = s.buy_nft(BUYER, ASSET, 100).unwrap();
    assert_eq!(ev.fee, 0);
    assert_eq!(s.balance_of(SELLER), 3_000_000);
    assert_eq!(s.balance_of(FEE_RECIPIENT), 0);
}

#[test]
fn escrow_descriptor_persists_across_cycles() {
    let mut s = setup(500);
    assert!(s.get_escrow(ASSET).is_none());
    s.list_nft(SELLER, ASSET, 1_000_000, DAY, false, 0).unwrap();
    assert_eq!(s.get_escrow(ASSET).unwrap().nft_mint, ASSET);
    s.cancel_listing(SELLER, ASSET).unwrap();
    // The escrow descriptor is never destroyed, even when the listing is.
    assert_eq!(s.get_escrow(ASSET).unwrap().nft_mint, ASSET);
}

#[test]
fn minting_an_issued_asset_fails() {
    let mut s = setup(500);
    let r = s.mint_asset(ASSET, BUYER);
    assert_eq!(r.unwrap_err(), MarketplaceError::AssetAlreadyMinted);
    assert_eq!(s.holder_of(ASSET), Some(AssetHolder::Wallet(SELLER)));
}

#[test]
fn wallet_credit_overflow_is_an_error() {
    let mut s = setup(500);
    s.credit_wallet(15, u64::MAX).unwrap();
    let r = s.credit_wallet(15, 1);
    assert_eq!(r.unwrap_err(), MarketplaceError::Overflow);
    assert_eq!(s.balance_of(15), u64::MAX);
}
