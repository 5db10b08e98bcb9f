use vstd::prelude::*;

use crate::errors::MarketplaceError;
use crate::fees::{lemma_settlement_splits_price, spec_fee, spec_payout};
use crate::model::{MarketView, market_inv};
use crate::transitions::{
    MIN_LISTING_DURATION, accept_offer_err, buy_nft_err, cancel_listing_err, cancel_offer_err,
    list_nft_err, spec_accept_offer, spec_buy_nft, spec_cancel_listing, spec_cancel_offer,
    spec_make_offer,
};

verus! {

/// A listing's address is stable across the create → sell → relist cycle:
/// a purchase retains the record at the asset's derived address with
/// `is_active == false`, and listing the same asset again — by its new
/// holder, with valid inputs — succeeds at that same address without fresh
/// allocation.
pub proof fn lemma_relist_after_purchase(
    v: MarketView,
    buyer: u64,
    asset: u64,
    now: i64,
    price2: u64,
    duration2: i64,
    now2: i64,
)
    requires
        market_inv(v),
        buy_nft_err(v, buyer, asset, now) is None,
        !v.paused,
        price2 > 0,
        duration2 >= MIN_LISTING_DURATION,
        now2 + duration2 <= i64::MAX,
        v.listing_count + 1 <= u64::MAX,
    ensures
        spec_buy_nft(v, buyer, asset).listings.contains_key(asset),
        !spec_buy_nft(v, buyer, asset).listings[asset].is_active,
        list_nft_err(spec_buy_nft(v, buyer, asset), buyer, asset, price2, duration2, now2)
            is None,
{
}

/// After a cancellation the asset's derived address is free again: the
/// record is destroyed, and the seller — who got the unit back — may create
/// a fresh listing there with valid inputs.
pub proof fn lemma_fresh_listing_after_cancel(
    v: MarketView,
    authority: u64,
    asset: u64,
    price2: u64,
    duration2: i64,
    now2: i64,
)
    requires
        market_inv(v),
        cancel_listing_err(v, authority, asset) is None,
        !v.paused,
        price2 > 0,
        duration2 >= MIN_LISTING_DURATION,
        now2 + duration2 <= i64::MAX,
        v.listing_count + 1 <= u64::MAX,
    ensures
        !spec_cancel_listing(v, asset).listings.contains_key(asset),
        list_nft_err(
            spec_cancel_listing(v, asset),
            v.listings[asset].seller,
            asset,
            price2,
            duration2,
            now2,
        ) is None,
{
}

/// A listing settles at most once: after a successful purchase, any further
/// purchase or offer-acceptance on the same asset — by anyone, at any time —
/// is refused before any currency moves, so a deactivated listing can never
/// pay twice. The refusal is the not-active error, except that the retained
/// record's own seller is turned away as a self-trade first.
pub proof fn lemma_no_double_settlement(
    v: MarketView,
    buyer: u64,
    asset: u64,
    now: i64,
    buyer2: u64,
    now2: i64,
    seller2: u64,
    offerer2: u64,
)
    requires
        market_inv(v),
        buy_nft_err(v, buyer, asset, now) is None,
    ensures
        buy_nft_err(spec_buy_nft(v, buyer, asset), buyer2, asset, now2) == Some(
            if buyer2 == v.listings[asset].seller {
                MarketplaceError::CannotBuyOwnListing
            } else {
                MarketplaceError::ListingNotActive
            },
        ),
        accept_offer_err(spec_buy_nft(v, buyer, asset), seller2, asset, offerer2, now2) == Some(
            MarketplaceError::ListingNotActive,
        ),
{
}

/// An offer settles at most once: acceptance deactivates the listing and
/// destroys the offer and its escrow record outright, so a further purchase
/// on the asset is refused — as not active, or as a self-trade for the
/// retained record's own seller — and a further cancellation of the offer
/// finds no record at all: never a second refund.
pub proof fn lemma_no_double_acceptance(
    v: MarketView,
    seller: u64,
    asset: u64,
    offerer: u64,
    now: i64,
    buyer2: u64,
    now2: i64,
)
    requires
        market_inv(v),
        accept_offer_err(v, seller, asset, offerer, now) is None,
    ensures
        !spec_accept_offer(v, seller, asset, offerer).offers.contains_key((asset, offerer)),
        !spec_accept_offer(v, seller, asset, offerer).offer_escrows.contains_key(
            (asset, offerer),
        ),
        buy_nft_err(spec_accept_offer(v, seller, asset, offerer), buyer2, asset, now2) == Some(
            if buyer2 == v.listings[asset].seller {
                MarketplaceError::CannotBuyOwnListing
            } else {
                MarketplaceError::ListingNotActive
            },
        ),
        cancel_offer_err(spec_accept_offer(v, seller, asset, offerer), offerer, asset) == Some(
            MarketplaceError::OfferNotFound,
        ),
{
}

/// Cancelling an offer is not idempotent, by design: the first cancellation
/// refunds and destroys the record, and a second attempt on the same offer
/// fails because the record no longer exists.
pub proof fn lemma_cancel_offer_twice_fails(v: MarketView, offerer: u64, asset: u64)
    requires
        market_inv(v),
        cancel_offer_err(v, offerer, asset) is None,
    ensures
        cancel_offer_err(spec_cancel_offer(v, offerer, asset), offerer, asset) == Some(
            MarketplaceError::OfferNotFound,
        ),
{
}

/// A purchase attempt by the listing's own stored seller fails with the
/// self-trade error whatever the record's state — active, retained-inactive,
/// expired or auction-flagged — and, like every refused purchase, moves
/// nothing.
pub proof fn lemma_self_purchase_always_refused(v: MarketView, asset: u64, now: i64)
    requires
        market_inv(v),
        v.listings.contains_key(asset),
    ensures
        buy_nft_err(v, v.listings[asset].seller, asset, now) == Some(
            MarketplaceError::CannotBuyOwnListing,
        ),
{
}

/// A purchase moves exactly the price and nothing else: the buyer pays it in
/// full, the seller's payout and the recipient's fee split it exactly, and no
/// other balance changes. Stated for a fee recipient distinct from the two
/// parties; when the recipient is the buyer or the seller the fee simply
/// flows back to them, as the transfer chain in the transition says.
pub proof fn lemma_purchase_conserves_currency(v: MarketView, buyer: u64, asset: u64, now: i64)
    requires
        market_inv(v),
        buy_nft_err(v, buyer, asset, now) is None,
        v.fee_recipient != buyer,
        v.fee_recipient != v.listings[asset].seller,
    ensures
        ({
            let l = v.listings[asset];
            let v2 = spec_buy_nft(v, buyer, asset);
            &&& v2.wallets[buyer] + l.price == v.wallets[buyer]
            &&& v2.wallets[l.seller] == v.wallets[l.seller] + spec_payout(l.price, v.fee_bps)
            &&& v2.wallets[v.fee_recipient] == v.wallets[v.fee_recipient] + spec_fee(
                l.price,
                v.fee_bps,
            )
            &&& forall|w: u64|
                w != buyer && w != l.seller && w != v.fee_recipient ==> v2.wallets[w]
                    == v.wallets[w]
        }),
{
    let l = v.listings[asset];
    lemma_settlement_splits_price(l.price, v.fee_bps);
}

/// Placing an offer moves exactly the amount into the offer's escrow record,
/// and accepting distributes exactly that escrowed amount: the seller's
/// payout and the recipient's fee split it, the offerer pays nothing further,
/// and no other balance changes.
pub proof fn lemma_offer_settlement_conserves_currency(
    v: MarketView,
    seller: u64,
    asset: u64,
    offerer: u64,
    now: i64,
)
    requires
        market_inv(v),
        accept_offer_err(v, seller, asset, offerer, now) is None,
        v.fee_recipient != seller,
    ensures
        ({
            let o = v.offers[(asset, offerer)];
            let v2 = spec_accept_offer(v, seller, asset, offerer);
            &&& spec_fee(o.amount, v.fee_bps) + spec_payout(o.amount, v.fee_bps) == o.amount
            &&& v.offer_escrows[(asset, offerer)].balance == o.amount
            &&& v2.wallets[seller] == v.wallets[seller] + spec_payout(o.amount, v.fee_bps)
            &&& v2.wallets[v.fee_recipient] == v.wallets[v.fee_recipient] + spec_fee(
                o.amount,
                v.fee_bps,
            )
            &&& forall|w: u64|
                w != seller && w != v.fee_recipient ==> v2.wallets[w] == v.wallets[w]
        }),
{
    let o = v.offers[(asset, offerer)];
    lemma_settlement_splits_price(o.amount, v.fee_bps);
}

/// The escrowed amount is exactly what the offerer paid, and cancelling
/// returns exactly it: an offer's round trip moves no currency at all.
pub proof fn lemma_offer_round_trip_restores_balance(
    v: MarketView,
    offerer: u64,
    asset: u64,
    amount: u64,
    duration: i64,
    now: i64,
)
    requires
        market_inv(v),
        crate::transitions::make_offer_err(v, offerer, asset, amount, duration, now) is None,
    ensures
        ({
            let v2 = spec_make_offer(v, offerer, asset, amount, duration, now);
            &&& v2.wallets[offerer] + amount == v.wallets[offerer]
            &&& v2.offer_escrows[(asset, offerer)].balance == amount
            &&& cancel_offer_err(v2, offerer, asset) is None
            &&& spec_cancel_offer(v2, offerer, asset).wallets =~= v.wallets
            &&& forall|w: u64| w != offerer ==> v2.wallets[w] == v.wallets[w]
        }),
{
}


} // verus!
