use vstd::prelude::*;

use crate::errors::MarketplaceError;
use crate::fees::{spec_fee, spec_payout};
use crate::model::{
    MarketView, active_listing, can_credit, can_debit, can_transfer, credit, debit, transfer,
};
use crate::records::{AssetHolder, Escrow, Listing, Offer, OfferEscrow};

verus! {

/// The shortest lifetime a listing may be given: one day, in seconds.
pub const MIN_LISTING_DURATION: i64 = 86400;

// ─── Configuration manager ───────────────────────────────────────────────────

pub open spec fn initialize_err(fee_bps: u16) -> Option<MarketplaceError> {
    if fee_bps > 1000 {
        Some(MarketplaceError::FeeTooHigh)
    } else {
        None
    }
}

/// The state the configuration singleton is created in: unpaused, no listings
/// counted, every store empty, every balance zero, no asset issued.
pub open spec fn spec_initialize(
    admin: u64,
    fee_recipient: u64,
    fee_bps: u16,
    reserve_min: u64,
) -> MarketView {
    MarketView {
        admin,
        fee_recipient,
        fee_bps,
        paused: false,
        listing_count: 0,
        config_vault: 0,
        reserve_min,
        listings: Map::empty(),
        escrows: Map::empty(),
        offers: Map::empty(),
        offer_escrows: Map::empty(),
        wallets: Map::new(|w: u64| true, |w: u64| 0u64),
        holders: Map::empty(),
    }
}

pub open spec fn pause_err(v: MarketView, caller: u64) -> Option<MarketplaceError> {
    if caller != v.admin {
        Some(MarketplaceError::Unauthorized)
    } else if v.paused {
        Some(MarketplaceError::AlreadyPaused)
    } else {
        None
    }
}

pub open spec fn spec_pause(v: MarketView) -> MarketView {
    MarketView { paused: true, ..v }
}

pub open spec fn unpause_err(v: MarketView, caller: u64) -> Option<MarketplaceError> {
    if caller != v.admin {
        Some(MarketplaceError::Unauthorized)
    } else if !v.paused {
        Some(MarketplaceError::NotPaused)
    } else {
        None
    }
}

pub open spec fn spec_unpause(v: MarketView) -> MarketView {
    MarketView { paused: false, ..v }
}

pub open spec fn update_fee_err(v: MarketView, caller: u64, new_fee_bps: u16) -> Option<
    MarketplaceError,
> {
    if new_fee_bps > 1000 {
        Some(MarketplaceError::FeeTooHigh)
    } else if caller != v.admin {
        Some(MarketplaceError::Unauthorized)
    } else {
        None
    }
}

pub open spec fn spec_update_fee(v: MarketView, new_fee_bps: u16) -> MarketView {
    MarketView { fee_bps: new_fee_bps, ..v }
}

pub open spec fn update_fee_recipient_err(v: MarketView, caller: u64, new_recipient: u64) -> Option<
    MarketplaceError,
> {
    if caller != v.admin {
        Some(MarketplaceError::Unauthorized)
    } else if new_recipient == crate::records::NULL_IDENTITY {
        Some(MarketplaceError::InvalidFeeRecipient)
    } else {
        None
    }
}

pub open spec fn spec_update_fee_recipient(v: MarketView, new_recipient: u64) -> MarketView {
    MarketView { fee_recipient: new_recipient, ..v }
}

/// What an emergency withdrawal of `amount` actually moves: the requested
/// amount, capped by the surplus above the reserved minimum.
pub open spec fn spec_withdraw_amount(v: MarketView, amount: u64) -> u64 {
    let available = (v.config_vault - v.reserve_min) as u64;
    if amount <= available {
        amount
    } else {
        available
    }
}

pub open spec fn emergency_withdraw_err(v: MarketView, caller: u64, amount: u64) -> Option<
    MarketplaceError,
> {
    if caller != v.admin {
        Some(MarketplaceError::Unauthorized)
    } else if amount == 0 {
        Some(MarketplaceError::NothingToWithdraw)
    } else if v.config_vault < v.reserve_min {
        Some(MarketplaceError::NothingToWithdraw)
    } else if spec_withdraw_amount(v, amount) == 0 {
        Some(MarketplaceError::NothingToWithdraw)
    } else if !can_credit(v.wallets, v.admin, spec_withdraw_amount(v, amount)) {
        Some(MarketplaceError::Overflow)
    } else {
        None
    }
}

pub open spec fn spec_emergency_withdraw(v: MarketView, amount: u64) -> MarketView {
    let moved = spec_withdraw_amount(v, amount);
    MarketView {
        config_vault: (v.config_vault - moved) as u64,
        wallets: credit(v.wallets, v.admin, moved),
        ..v
    }
}

// ─── Listing lifecycle ───────────────────────────────────────────────────────

pub open spec fn list_nft_err(
    v: MarketView,
    seller: u64,
    asset: u64,
    price: u64,
    duration: i64,
    now: i64,
) -> Option<MarketplaceError> {
    if v.paused {
        Some(MarketplaceError::MarketplacePaused)
    } else if price == 0 {
        Some(MarketplaceError::PriceMustBePositive)
    } else if duration < MIN_LISTING_DURATION {
        Some(MarketplaceError::DurationTooShort)
    } else if active_listing(v, asset) {
        Some(MarketplaceError::ListingNotActive)
    } else if !(v.holders.contains_key(asset) && v.holders[asset] == AssetHolder::Wallet(seller)) {
        Some(MarketplaceError::SellerDoesNotOwnNft)
    } else if now + duration > i64::MAX {
        Some(MarketplaceError::Overflow)
    } else if v.listing_count + 1 > u64::MAX {
        Some(MarketplaceError::Overflow)
    } else {
        None
    }
}

/// A successful listing: the asset's unit moves into escrow custody, a fresh
/// active record stands at the asset's derived address (reusing a retained
/// inactive record if one is there), the escrow descriptor is present, and
/// the global listing counter advances.
pub open spec fn spec_list_nft(
    v: MarketView,
    seller: u64,
    asset: u64,
    price: u64,
    duration: i64,
    is_auction: bool,
    now: i64,
) -> MarketView {
    MarketView {
        listings: v.listings.insert(
            asset,
            Listing {
                seller,
                nft_mint: asset,
                price,
                expiration_time: (now + duration) as i64,
                is_active: true,
                is_auction,
                created_at: now,
            },
        ),
        escrows: v.escrows.insert(asset, Escrow { nft_mint: asset }),
        holders: v.holders.insert(asset, AssetHolder::EscrowVault),
        listing_count: (v.listing_count + 1) as u64,
        ..v
    }
}

pub open spec fn cancel_listing_err(v: MarketView, authority: u64, asset: u64) -> Option<
    MarketplaceError,
> {
    if !v.listings.contains_key(asset) {
        Some(MarketplaceError::ListingNotActive)
    } else if authority != v.listings[asset].seller && authority != v.admin {
        Some(MarketplaceError::Unauthorized)
    } else if !v.listings[asset].is_active {
        Some(MarketplaceError::ListingNotActive)
    } else {
        None
    }
}

/// A successful cancellation: the asset's unit returns to the seller and the
/// listing record is destroyed — unlike a sale, which retains it. The escrow
/// descriptor stays for reuse.
pub open spec fn spec_cancel_listing(v: MarketView, asset: u64) -> MarketView {
    MarketView {
        listings: v.listings.remove(asset),
        holders: v.holders.insert(asset, AssetHolder::Wallet(v.listings[asset].seller)),
        ..v
    }
}

/// The purchase error cascade. A record must stand at the asset's address;
/// given one, a buyer equal to its stored seller is refused as a self-trade
/// before any state of the record — active, expired or auction-flagged — is
/// even looked at.
pub open spec fn buy_nft_err(v: MarketView, buyer: u64, asset: u64, now: i64) -> Option<
    MarketplaceError,
> {
    if !v.listings.contains_key(asset) {
        Some(MarketplaceError::ListingNotActive)
    } else {
        let l = v.listings[asset];
        if buyer == l.seller {
            Some(MarketplaceError::CannotBuyOwnListing)
        } else if !l.is_active {
            Some(MarketplaceError::ListingNotActive)
        } else if now >= l.expiration_time {
            Some(MarketplaceError::ListingExpired)
        } else if l.is_auction {
            Some(MarketplaceError::UseAuctionBidding)
        } else if l.price * v.fee_bps > u64::MAX {
            Some(MarketplaceError::Overflow)
        } else {
            let fee = spec_fee(l.price, v.fee_bps) as u64;
            let payout = spec_payout(l.price, v.fee_bps) as u64;
            if !can_debit(v.wallets, buyer, payout) {
                Some(MarketplaceError::InsufficientFunds)
            } else if !can_credit(debit(v.wallets, buyer, payout), l.seller, payout) {
                Some(MarketplaceError::Overflow)
            } else {
                let w1 = transfer(v.wallets, buyer, l.seller, payout);
                if !can_debit(w1, buyer, fee) {
                    Some(MarketplaceError::InsufficientFunds)
                } else if !can_credit(debit(w1, buyer, fee), v.fee_recipient, fee) {
                    Some(MarketplaceError::Overflow)
                } else {
                    None
                }
            }
        }
    }
}

/// A successful purchase: the buyer pays the seller the payout and the fee
/// recipient the fee, the asset's unit leaves escrow for the buyer, and the
/// listing is retained deactivated so its address can be reused.
pub open spec fn spec_buy_nft(v: MarketView, buyer: u64, asset: u64) -> MarketView {
    let l = v.listings[asset];
    let fee = spec_fee(l.price, v.fee_bps) as u64;
    let payout = spec_payout(l.price, v.fee_bps) as u64;
    MarketView {
        wallets: transfer(
            transfer(v.wallets, buyer, l.seller, payout),
            buyer,
            v.fee_recipient,
            fee,
        ),
        holders: v.holders.insert(asset, AssetHolder::Wallet(buyer)),
        listings: v.listings.insert(asset, Listing { is_active: false, ..l }),
        ..v
    }
}

pub open spec fn update_price_err(v: MarketView, seller: u64, asset: u64, new_price: u64) -> Option<
    MarketplaceError,
> {
    if new_price == 0 {
        Some(MarketplaceError::PriceMustBePositive)
    } else if !active_listing(v, asset) {
        Some(MarketplaceError::ListingNotActive)
    } else if seller != v.listings[asset].seller {
        Some(MarketplaceError::InvalidSeller)
    } else {
        None
    }
}

pub open spec fn spec_update_price(v: MarketView, asset: u64, new_price: u64) -> MarketView {
    MarketView {
        listings: v.listings.insert(
            asset,
            Listing { price: new_price, ..v.listings[asset] },
        ),
        ..v
    }
}

// ─── Offer lifecycle ─────────────────────────────────────────────────────────

pub open spec fn make_offer_err(
    v: MarketView,
    offerer: u64,
    asset: u64,
    amount: u64,
    duration: i64,
    now: i64,
) -> Option<MarketplaceError> {
    if v.paused {
        Some(MarketplaceError::MarketplacePaused)
    } else if amount == 0 {
        Some(MarketplaceError::OfferAmountMustBePositive)
    } else if !active_listing(v, asset) {
        Some(MarketplaceError::ListingNotActive)
    } else if offerer == v.listings[asset].seller {
        Some(MarketplaceError::CannotOfferOnOwnListing)
    } else if v.offers.contains_key((asset, offerer)) {
        Some(MarketplaceError::OfferAlreadyActive)
    } else if now + duration > i64::MAX || now + duration < i64::MIN {
        Some(MarketplaceError::Overflow)
    } else if !can_debit(v.wallets, offerer, amount) {
        Some(MarketplaceError::InsufficientFunds)
    } else {
        None
    }
}

/// A successful offer: the offered currency moves from the offerer into the
/// offer's escrow record, created beside the active offer record.
pub open spec fn spec_make_offer(
    v: MarketView,
    offerer: u64,
    asset: u64,
    amount: u64,
    duration: i64,
    now: i64,
) -> MarketView {
    MarketView {
        offers: v.offers.insert(
            (asset, offerer),
            Offer {
                offerer,
                nft_mint: asset,
                amount,
                expiration_time: (now + duration) as i64,
                is_active: true,
                created_at: now,
            },
        ),
        offer_escrows: v.offer_escrows.insert(
            (asset, offerer),
            OfferEscrow { nft_mint: asset, offerer, balance: amount },
        ),
        wallets: debit(v.wallets, offerer, amount),
        ..v
    }
}

pub open spec fn cancel_offer_err(v: MarketView, offerer: u64, asset: u64) -> Option<
    MarketplaceError,
> {
    if !v.offers.contains_key((asset, offerer)) {
        Some(MarketplaceError::OfferNotFound)
    } else if !can_credit(v.wallets, offerer, v.offers[(asset, offerer)].amount) {
        Some(MarketplaceError::Overflow)
    } else {
        None
    }
}

/// A successful cancellation: the full escrowed amount returns to the
/// offerer and both the offer and its escrow record are destroyed.
pub open spec fn spec_cancel_offer(v: MarketView, offerer: u64, asset: u64) -> MarketView {
    MarketView {
        offers: v.offers.remove((asset, offerer)),
        offer_escrows: v.offer_escrows.remove((asset, offerer)),
        wallets: credit(v.wallets, offerer, v.offers[(asset, offerer)].amount),
        ..v
    }
}

pub open spec fn accept_offer_err(
    v: MarketView,
    seller: u64,
    asset: u64,
    offerer: u64,
    now: i64,
) -> Option<MarketplaceError> {
    if !active_listing(v, asset) {
        Some(MarketplaceError::ListingNotActive)
    } else if !v.offers.contains_key((asset, offerer)) {
        Some(MarketplaceError::OfferNotFound)
    } else if seller != v.listings[asset].seller {
        Some(MarketplaceError::InvalidSeller)
    } else {
        let o = v.offers[(asset, offerer)];
        if now >= o.expiration_time {
            Some(MarketplaceError::OfferExpired)
        } else if o.amount * v.fee_bps > u64::MAX {
            Some(MarketplaceError::Overflow)
        } else {
            let fee = spec_fee(o.amount, v.fee_bps) as u64;
            let payout = spec_payout(o.amount, v.fee_bps) as u64;
            if !can_credit(v.wallets, seller, payout) {
                Some(MarketplaceError::Overflow)
            } else if !can_credit(credit(v.wallets, seller, payout), v.fee_recipient, fee) {
                Some(MarketplaceError::Overflow)
            } else {
                None
            }
        }
    }
}

/// A successful acceptance: the escrowed amount is split into the seller's
/// payout and the fee, the asset's unit leaves escrow for the offerer, the
/// listing is retained deactivated, and the offer and its escrow record are
/// destroyed. Only the offer's expiration is checked, not the listing's: a
/// deliberate asymmetry of the settlement rules.
pub open spec fn spec_accept_offer(
    v: MarketView,
    seller: u64,
    asset: u64,
    offerer: u64,
) -> MarketView {
    let l = v.listings[asset];
    let o = v.offers[(asset, offerer)];
    let fee = spec_fee(o.amount, v.fee_bps) as u64;
    let payout = spec_payout(o.amount, v.fee_bps) as u64;
    MarketView {
        wallets: credit(credit(v.wallets, seller, payout), v.fee_recipient, fee),
        holders: v.holders.insert(asset, AssetHolder::Wallet(offerer)),
        listings: v.listings.insert(asset, Listing { is_active: false, ..l }),
        offers: v.offers.remove((asset, offerer)),
        offer_escrows: v.offer_escrows.remove((asset, offerer)),
        ..v
    }
}

// ─── Host-ledger endowment primitives ────────────────────────────────────────

pub open spec fn credit_wallet_err(v: MarketView, wallet: u64, amount: u64) -> Option<
    MarketplaceError,
> {
    if !can_credit(v.wallets, wallet, amount) {
        Some(MarketplaceError::Overflow)
    } else {
        None
    }
}

pub open spec fn spec_credit_wallet(v: MarketView, wallet: u64, amount: u64) -> MarketView {
    MarketView { wallets: credit(v.wallets, wallet, amount), ..v }
}

pub open spec fn mint_asset_err(v: MarketView, asset: u64) -> Option<MarketplaceError> {
    if v.holders.contains_key(asset) {
        Some(MarketplaceError::AssetAlreadyMinted)
    } else {
        None
    }
}

pub open spec fn spec_mint_asset(v: MarketView, asset: u64, owner: u64) -> MarketView {
    MarketView { holders: v.holders.insert(asset, AssetHolder::Wallet(owner)), ..v }
}

pub open spec fn credit_config_err(v: MarketView, amount: u64) -> Option<MarketplaceError> {
    if v.config_vault + amount > u64::MAX {
        Some(MarketplaceError::Overflow)
    } else {
        None
    }
}

pub open spec fn spec_credit_config(v: MarketView, amount: u64) -> MarketView {
    MarketView { config_vault: (v.config_vault + amount) as u64, ..v }
}

} // verus!
