use vstd::prelude::*;

use std::collections::HashMap;

use crate::errors::MarketplaceError;
use crate::events::{
    FeeRecipientUpdated, FeeUpdated, ListingCancelled, ListingCreated, MarketplaceInitialized,
    MarketplacePausedEvent, NftPurchased, OfferAccepted, OfferCancelled, OfferCreated,
    PriceUpdated,
};
use crate::fees::{lemma_fee_bounds, settle, spec_fee};
use crate::model::{
    MarketView, balances_of, can_credit, can_debit, can_transfer, credit, debit, market_inv,
    transfer,
};
use crate::records::{AssetHolder, Escrow, Listing, Marketplace, Offer, OfferEscrow};
use crate::transitions::{
    MIN_LISTING_DURATION, accept_offer_err, buy_nft_err, cancel_listing_err, cancel_offer_err,
    credit_config_err, credit_wallet_err, emergency_withdraw_err, initialize_err, list_nft_err,
    make_offer_err, mint_asset_err, pause_err, spec_accept_offer, spec_buy_nft,
    spec_cancel_listing, spec_cancel_offer, spec_credit_config, spec_credit_wallet,
    spec_emergency_withdraw, spec_initialize, spec_list_nft, spec_make_offer, spec_mint_asset,
    spec_pause, spec_unpause, spec_update_fee, spec_update_fee_recipient, spec_update_price,
    unpause_err, update_fee_err, update_fee_recipient_err, update_price_err,
};

verus! {

broadcast use vstd::std_specs::hash::group_hash_axioms;

/// The address seed of an offer, packed into one key: the asset id in the
/// high half, the offerer in the low half. Distinct seed pairs give distinct
/// keys, as distinct seeds give distinct derived addresses.
pub closed spec fn offer_key(asset: u64, offerer: u64) -> u128 {
    (asset * 0x1_0000_0000_0000_0000 + offerer) as u128
}

proof fn lemma_offer_key_injective(a1: u64, o1: u64, a2: u64, o2: u64)
    ensures
        offer_key(a1, o1) == offer_key(a2, o2) ==> (a1 == a2 && o1 == o2),
{
    assert(a1 * 0x1_0000_0000_0000_0000 + o1 == a2 * 0x1_0000_0000_0000_0000 + o2 ==> (a1 == a2
        && o1 == o2)) by (nonlinear_arith)
        requires
            o1 <= 0xffff_ffff_ffff_ffffu64,
            o2 <= 0xffff_ffff_ffff_ffffu64,
    ;
}

fn offer_key_exec(asset: u64, offerer: u64) -> (k: u128)
    ensures
        k == offer_key(asset, offerer),
{
    proof {
        assert(asset * 0x1_0000_0000_0000_0000 + offerer <= u128::MAX) by (nonlinear_arith)
            requires
                asset <= 0xffff_ffff_ffff_ffffu64,
                offerer <= 0xffff_ffff_ffff_ffffu64,
        ;
    }
    (asset as u128) * 0x1_0000_0000_0000_0000u128 + (offerer as u128)
}


/// The offer store as seen through its address seeds: the packed-key map read
/// back as a map over (asset, offerer) pairs.
pub closed spec fn offers_view(m: Map<u128, Offer>) -> Map<(u64, u64), Offer> {
    Map::new(
        |p: (u64, u64)| m.contains_key(offer_key(p.0, p.1)),
        |p: (u64, u64)| m[offer_key(p.0, p.1)],
    )
}

/// The offer-escrow store read back the same way.
pub closed spec fn offer_escrows_view(m: Map<u128, OfferEscrow>) -> Map<(u64, u64), OfferEscrow> {
    Map::new(
        |p: (u64, u64)| m.contains_key(offer_key(p.0, p.1)),
        |p: (u64, u64)| m[offer_key(p.0, p.1)],
    )
}

/// Every other seed pair has a different packed key.
proof fn lemma_offer_key_ne(asset: u64, offerer: u64)
    ensures
        forall|p: (u64, u64)|
            p != (asset, offerer) ==> #[trigger] offer_key(p.0, p.1) != offer_key(asset, offerer),
{
    assert forall|p: (u64, u64)| p != (asset, offerer) implies #[trigger] offer_key(p.0, p.1)
        != offer_key(asset, offerer) by {
        lemma_offer_key_injective(p.0, p.1, asset, offerer);
    }
}

/// The whole store seen through a pair: reading at the packed key.
proof fn lemma_offers_view_at(m: Map<u128, Offer>, asset: u64, offerer: u64)
    ensures
        offers_view(m).contains_key((asset, offerer)) == m.contains_key(offer_key(asset, offerer)),
        m.contains_key(offer_key(asset, offerer)) ==> offers_view(m)[(asset, offerer)]
            == m[offer_key(asset, offerer)],
{
}

proof fn lemma_offers_view_insert(m: Map<u128, Offer>, asset: u64, offerer: u64, o: Offer)
    ensures
        offers_view(m.insert(offer_key(asset, offerer), o)) == offers_view(m).insert(
            (asset, offerer),
            o,
        ),
{
    lemma_offer_key_ne(asset, offerer);
    assert(offers_view(m.insert(offer_key(asset, offerer), o)) =~= offers_view(m).insert(
        (asset, offerer),
        o,
    ));
}

proof fn lemma_offers_view_remove(m: Map<u128, Offer>, asset: u64, offerer: u64)
    ensures
        offers_view(m.remove(offer_key(asset, offerer))) == offers_view(m).remove(
            (asset, offerer),
        ),
{
    lemma_offer_key_ne(asset, offerer);
    assert(offers_view(m.remove(offer_key(asset, offerer))) =~= offers_view(m).remove(
        (asset, offerer),
    ));
}

proof fn lemma_offer_escrows_view_insert(
    m: Map<u128, OfferEscrow>,
    asset: u64,
    offerer: u64,
    e: OfferEscrow,
)
    ensures
        offer_escrows_view(m.insert(offer_key(asset, offerer), e)) == offer_escrows_view(
            m,
        ).insert((asset, offerer), e),
{
    lemma_offer_key_ne(asset, offerer);
    assert(offer_escrows_view(m.insert(offer_key(asset, offerer), e)) =~= offer_escrows_view(
        m,
    ).insert((asset, offerer), e));
}

proof fn lemma_offer_escrows_view_remove(m: Map<u128, OfferEscrow>, asset: u64, offerer: u64)
    ensures
        offer_escrows_view(m.remove(offer_key(asset, offerer))) == offer_escrows_view(m).remove(
            (asset, offerer),
        ),
{
    lemma_offer_key_ne(asset, offerer);
    assert(offer_escrows_view(m.remove(offer_key(asset, offerer))) =~= offer_escrows_view(
        m,
    ).remove((asset, offerer)));
}

/// The whole market: the configuration singleton, the record stores keyed by
/// their deterministic address seeds, and the modeled host ledger (currency
/// balances and the holder of each asset's unit).
pub struct MarketState {
    config: Marketplace,
    config_vault: u64,
    reserve_min: u64,
    listings: HashMap<u64, Listing>,
    escrows: HashMap<u64, Escrow>,
    offers: HashMap<u128, Offer>,
    offer_escrows: HashMap<u128, OfferEscrow>,
    wallets: HashMap<u64, u64>,
    holders: HashMap<u64, AssetHolder>,
}

impl View for MarketState {
    type V = MarketView;

    closed spec fn view(&self) -> MarketView {
        MarketView {
            admin: self.config.admin,
            fee_recipient: self.config.fee_recipient,
            fee_bps: self.config.fee_bps,
            paused: self.config.paused,
            listing_count: self.config.listing_count,
            config_vault: self.config_vault,
            reserve_min: self.reserve_min,
            listings: self.listings@,
            escrows: self.escrows@,
            offers: offers_view(self.offers@),
            offer_escrows: offer_escrows_view(self.offer_escrows@),
            wallets: balances_of(self.wallets@),
            holders: self.holders@,
        }
    }
}

// ─── Balance-map helpers ─────────────────────────────────────────────────────

fn read_balance(m: &HashMap<u64, u64>, w: u64) -> (b: u64)
    ensures
        b == balances_of(m@)[w],
{
    match m.get(&w) {
        Some(v) => *v,
        None => 0,
    }
}

fn write_balance(m: &mut HashMap<u64, u64>, w: u64, b: u64)
    ensures
        balances_of(final(m)@) == balances_of(old(m)@).insert(w, b),
{
    m.insert(w, b);
    proof {
        assert(balances_of(m@) =~= balances_of(old(m)@).insert(w, b));
    }
}

fn credit_balance(m: &mut HashMap<u64, u64>, to: u64, amount: u64) -> (r: Result<
    (),
    MarketplaceError,
>)
    ensures
        match r {
            Ok(_) => can_credit(balances_of(old(m)@), to, amount) && balances_of(final(m)@) == credit(
                balances_of(old(m)@),
                to,
                amount,
            ),
            Err(e) => !can_credit(balances_of(old(m)@), to, amount) && e
                == MarketplaceError::Overflow && final(m)@ == old(m)@,
        },
{
    let b = read_balance(m, to);
    match b.checked_add(amount) {
        Some(nb) => {
            write_balance(m, to, nb);
            Ok(())
        },
        None => Err(MarketplaceError::Overflow),
    }
}

fn debit_balance(m: &mut HashMap<u64, u64>, from: u64, amount: u64) -> (r: Result<
    (),
    MarketplaceError,
>)
    ensures
        match r {
            Ok(_) => can_debit(balances_of(old(m)@), from, amount) && balances_of(final(m)@) == debit(
                balances_of(old(m)@),
                from,
                amount,
            ),
            Err(e) => !can_debit(balances_of(old(m)@), from, amount) && e
                == MarketplaceError::InsufficientFunds && final(m)@ == old(m)@,
        },
{
    let b = read_balance(m, from);
    if b < amount {
        Err(MarketplaceError::InsufficientFunds)
    } else {
        write_balance(m, from, b - amount);
        Ok(())
    }
}

/// One currency move between two identities, which may coincide. On failure
/// nothing is moved; the error says whether the payer was short or the payee's
/// balance would have left range.
fn transfer_balance(m: &mut HashMap<u64, u64>, from: u64, to: u64, amount: u64) -> (r: Result<
    (),
    MarketplaceError,
>)
    ensures
        match r {
            Ok(_) => can_transfer(balances_of(old(m)@), from, to, amount) && balances_of(final(m)@)
                == transfer(balances_of(old(m)@), from, to, amount),
            Err(e) => final(m)@ == old(m)@ && !can_transfer(balances_of(old(m)@), from, to, amount) && e
                == (if !can_debit(balances_of(old(m)@), from, amount) {
                MarketplaceError::InsufficientFunds
            } else {
                MarketplaceError::Overflow
            }),
        },
{
    let bf = read_balance(m, from);
    if bf < amount {
        return Err(MarketplaceError::InsufficientFunds);
    }
    let base = if to == from {
        bf - amount
    } else {
        read_balance(m, to)
    };
    match base.checked_add(amount) {
        None => Err(MarketplaceError::Overflow),
        Some(nb) => {
            write_balance(m, from, bf - amount);
            write_balance(m, to, nb);
            proof {
                assert(balances_of(m@) =~= transfer(balances_of(old(m)@), from, to, amount));
            }
            Ok(())
        },
    }
}


fn credit_balance_ok(m: &mut HashMap<u64, u64>, to: u64, amount: u64)
    requires
        can_credit(balances_of(old(m)@), to, amount),
    ensures
        balances_of(final(m)@) == credit(balances_of(old(m)@), to, amount),
{
    let b = read_balance(m, to);
    write_balance(m, to, b + amount);
}

fn transfer_balance_ok(m: &mut HashMap<u64, u64>, from: u64, to: u64, amount: u64)
    requires
        can_transfer(balances_of(old(m)@), from, to, amount),
    ensures
        balances_of(final(m)@) == transfer(balances_of(old(m)@), from, to, amount),
{
    let bf = read_balance(m, from);
    let base = if to == from {
        bf - amount
    } else {
        read_balance(m, to)
    };
    write_balance(m, from, bf - amount);
    write_balance(m, to, base + amount);
    proof {
        assert(balances_of(m@) =~= transfer(balances_of(old(m)@), from, to, amount));
    }
}

// ─── The operations ──────────────────────────────────────────────────────────

impl MarketState {
    /// Create the configuration singleton: admin, fee recipient, fee rate
    /// (rejected above 1000 basis points), unpaused, zero listings counted.
    /// `reserve_min` is the host ledger's minimum balance that must always
    /// remain with the configuration record. Callable once: the record is the
    /// state itself.
    pub fn initialize_marketplace(
        admin: u64,
        fee_recipient: u64,
        fee_bps: u16,
        reserve_min: u64,
    ) -> (r: Result<(MarketState, MarketplaceInitialized), MarketplaceError>)
        ensures
            match r {
                Ok(p) => initialize_err(fee_bps) is None && p.0@ == spec_initialize(
                    admin,
                    fee_recipient,
                    fee_bps,
                    reserve_min,
                ) && market_inv(p.0@) && p.1 == (MarketplaceInitialized {
                    admin,
                    fee_recipient,
                    fee_bps,
                }),
                Err(e) => initialize_err(fee_bps) == Some(e),
            },
    {
        if fee_bps > 1000 {
            return Err(MarketplaceError::FeeTooHigh);
        }
        let s = MarketState {
            config: Marketplace { admin, fee_recipient, fee_bps, paused: false, listing_count: 0 },
            config_vault: 0,
            reserve_min,
            listings: HashMap::new(),
            escrows: HashMap::new(),
            offers: HashMap::new(),
            offer_escrows: HashMap::new(),
            wallets: HashMap::new(),
            holders: HashMap::new(),
        };
        proof {
            assert(s@ =~= spec_initialize(admin, fee_recipient, fee_bps, reserve_min));
            assert(market_inv(s@));
        }
        Ok((s, MarketplaceInitialized { admin, fee_recipient, fee_bps }))
    }

    /// Halt every mutating listing and offer operation. Admin only; fails if
    /// already paused.
    pub fn pause_marketplace(&mut self, caller: u64) -> (r: Result<
        MarketplacePausedEvent,
        MarketplaceError,
    >)
        requires
            market_inv(old(self)@),
        ensures
            market_inv(final(self)@),
            match r {
                Ok(ev) => pause_err(old(self)@, caller) is None && final(self)@ == spec_pause(
                    old(self)@,
                ) && ev == (MarketplacePausedEvent { paused: true }),
                Err(e) => pause_err(old(self)@, caller) == Some(e) && final(self)@ == old(self)@,
            },
    {
        if caller != self.config.admin {
            return Err(MarketplaceError::Unauthorized);
        }
        if self.config.paused {
            return Err(MarketplaceError::AlreadyPaused);
        }
        self.config.paused = true;
        proof {
            assert(self@ =~= spec_pause(old(self)@));
        }
        Ok(MarketplacePausedEvent { paused: true })
    }

    /// Resume operations. Admin only; fails if not paused.
    pub fn unpause_marketplace(&mut self, caller: u64) -> (r: Result<
        MarketplacePausedEvent,
        MarketplaceError,
    >)
        requires
            market_inv(old(self)@),
        ensures
            market_inv(final(self)@),
            match r {
                Ok(ev) => unpause_err(old(self)@, caller) is None && final(self)@ == spec_unpause(
                    old(self)@,
                ) && ev == (MarketplacePausedEvent { paused: false }),
                Err(e) => unpause_err(old(self)@, caller) == Some(e) && final(self)@ == old(self)@,
            },
    {
        if caller != self.config.admin {
            return Err(MarketplaceError::Unauthorized);
        }
        if !self.config.paused {
            return Err(MarketplaceError::NotPaused);
        }
        self.config.paused = false;
        proof {
            assert(self@ =~= spec_unpause(old(self)@));
        }
        Ok(MarketplacePausedEvent { paused: false })
    }

    /// Replace the fee rate. Admin only; the new rate is rejected above the
    /// 1000-basis-point cap, so the cap is an invariant.
    pub fn update_fee(&mut self, caller: u64, new_fee_bps: u16) -> (r: Result<
        FeeUpdated,
        MarketplaceError,
    >)
        requires
            market_inv(old(self)@),
        ensures
            market_inv(final(self)@),
            match r {
                Ok(ev) => update_fee_err(old(self)@, caller, new_fee_bps) is None && final(self)@
                    == spec_update_fee(old(self)@, new_fee_bps) && ev == (FeeUpdated {
                    old_fee_bps: old(self)@.fee_bps,
                    new_fee_bps,
                }),
                Err(e) => update_fee_err(old(self)@, caller, new_fee_bps) == Some(e) && final(self)@ == old(self)@,
            },
    {
        if new_fee_bps > 1000 {
            return Err(MarketplaceError::FeeTooHigh);
        }
        if caller != self.config.admin {
            return Err(MarketplaceError::Unauthorized);
        }
        let old_fee_bps = self.config.fee_bps;
        self.config.fee_bps = new_fee_bps;
        proof {
            assert(self@ =~= spec_update_fee(old(self)@, new_fee_bps));
        }
        Ok(FeeUpdated { old_fee_bps, new_fee_bps })
    }

    /// Replace the fee recipient. Admin only; the null identity is rejected.
    pub fn update_fee_recipient(&mut self, caller: u64, new_recipient: u64) -> (r: Result<
        FeeRecipientUpdated,
        MarketplaceError,
    >)
        requires
            market_inv(old(self)@),
        ensures
            market_inv(final(self)@),
            match r {
                Ok(ev) => update_fee_recipient_err(old(self)@, caller, new_recipient) is None
                    && final(self)@ == spec_update_fee_recipient(old(self)@, new_recipient) && ev
                    == (FeeRecipientUpdated {
                    old_recipient: old(self)@.fee_recipient,
                    new_recipient,
                }),
                Err(e) => update_fee_recipient_err(old(self)@, caller, new_recipient) == Some(e)
                    && final(self)@ == old(self)@,
            },
    {
        if caller != self.config.admin {
            return Err(MarketplaceError::Unauthorized);
        }
        if new_recipient == crate::records::NULL_IDENTITY {
            return Err(MarketplaceError::InvalidFeeRecipient);
        }
        let old_recipient = self.config.fee_recipient;
        self.config.fee_recipient = new_recipient;
        proof {
            assert(self@ =~= spec_update_fee_recipient(old(self)@, new_recipient));
        }
        Ok(FeeRecipientUpdated { old_recipient, new_recipient })
    }

    /// Reclaim surplus currency from the configuration record: what is moved
    /// is the requested amount capped by the balance above the reserved
    /// minimum, and it goes to the admin. Admin only; fails when nothing
    /// would move.
    pub fn emergency_withdraw(&mut self, caller: u64, amount: u64) -> (r: Result<
        (),
        MarketplaceError,
    >)
        requires
            market_inv(old(self)@),
        ensures
            market_inv(final(self)@),
            match r {
                Ok(_) => emergency_withdraw_err(old(self)@, caller, amount) is None && final(self)@ == spec_emergency_withdraw(old(self)@, amount),
                Err(e) => emergency_withdraw_err(old(self)@, caller, amount) == Some(e) && final(self)@ == old(self)@,
            },
    {
        if caller != self.config.admin {
            return Err(MarketplaceError::Unauthorized);
        }
        if amount == 0 {
            return Err(MarketplaceError::NothingToWithdraw);
        }
        let available = match self.config_vault.checked_sub(self.reserve_min) {
            Some(a) => a,
            None => return Err(MarketplaceError::NothingToWithdraw),
        };
        let moved = if amount <= available {
            amount
        } else {
            available
        };
        if moved == 0 {
            return Err(MarketplaceError::NothingToWithdraw);
        }
        match credit_balance(&mut self.wallets, self.config.admin, moved) {
            Ok(_) => {},
            Err(e) => {
                return Err(e);
            },
        }
        self.config_vault = self.config_vault - moved;
        proof {
            assert(self@ =~= spec_emergency_withdraw(old(self)@, amount));
        }
        Ok(())
    }


    // ─── Listing lifecycle ───────────────────────────────────────────────────

    /// Place an asset on sale at a fixed price. Requires an unpaused market,
    /// a positive price, at least the one-day minimum duration, no active
    /// listing already standing at the asset's address, and the seller
    /// holding the asset's unit. On success the unit moves into escrow
    /// custody, the record at the asset's derived address is (re)written as
    /// active, and the global listing counter advances.
    pub fn list_nft(
        &mut self,
        seller: u64,
        asset: u64,
        price: u64,
        duration: i64,
        is_auction: bool,
        now: i64,
    ) -> (r: Result<ListingCreated, MarketplaceError>)
        requires
            market_inv(old(self)@),
        ensures
            market_inv(final(self)@),
            match r {
                Ok(ev) => list_nft_err(old(self)@, seller, asset, price, duration, now) is None
                    && final(self)@ == spec_list_nft(
                    old(self)@,
                    seller,
                    asset,
                    price,
                    duration,
                    is_auction,
                    now,
                ) && ev == (ListingCreated {
                    seller,
                    nft_mint: asset,
                    price,
                    is_auction,
                    expiration_time: (now + duration) as i64,
                }),
                Err(e) => list_nft_err(old(self)@, seller, asset, price, duration, now) == Some(e)
                    && final(self)@ == old(self)@,
            },
    {
        if self.config.paused {
            return Err(MarketplaceError::MarketplacePaused);
        }
        if price == 0 {
            return Err(MarketplaceError::PriceMustBePositive);
        }
        if duration < MIN_LISTING_DURATION {
            return Err(MarketplaceError::DurationTooShort);
        }
        let already_active = match self.listings.get(&asset) {
            Some(l) => l.is_active,
            None => false,
        };
        if already_active {
            return Err(MarketplaceError::ListingNotActive);
        }
        let owns = match self.holders.get(&asset) {
            Some(h) => *h == AssetHolder::Wallet(seller),
            None => false,
        };
        if !owns {
            return Err(MarketplaceError::SellerDoesNotOwnNft);
        }
        let expiration_time = match now.checked_add(duration) {
            Some(t) => t,
            None => {
                return Err(MarketplaceError::Overflow);
            },
        };
        let new_count = match self.config.listing_count.checked_add(1) {
            Some(c) => c,
            None => {
                return Err(MarketplaceError::Overflow);
            },
        };
        let listing = Listing {
            seller,
            nft_mint: asset,
            price,
            expiration_time,
            is_active: true,
            is_auction,
            created_at: now,
        };
        self.listings.insert(asset, listing);
        self.escrows.insert(asset, Escrow { nft_mint: asset });
        self.holders.insert(asset, AssetHolder::EscrowVault);
        self.config.listing_count = new_count;
        proof {
            assert(self@ =~= spec_list_nft(
                old(self)@,
                seller,
                asset,
                price,
                duration,
                is_auction,
                now,
            ));
            assert(market_inv(self@));
        }
        Ok(ListingCreated { seller, nft_mint: asset, price, is_auction, expiration_time })
    }

    /// Take a listing down. The seller or the admin may cancel; the asset's
    /// unit returns to the seller and the record is destroyed — the one path
    /// that frees the address for a fresh record.
    pub fn cancel_listing(&mut self, authority: u64, asset: u64) -> (r: Result<
        ListingCancelled,
        MarketplaceError,
    >)
        requires
            market_inv(old(self)@),
        ensures
            market_inv(final(self)@),
            match r {
                Ok(ev) => cancel_listing_err(old(self)@, authority, asset) is None && final(self)@ == spec_cancel_listing(old(self)@, asset) && ev == (ListingCancelled {
                    nft_mint: asset,
                    seller: old(self)@.listings[asset].seller,
                }),
                Err(e) => cancel_listing_err(old(self)@, authority, asset) == Some(e) && final(self)@ == old(self)@,
            },
    {
        let listing = match self.listings.get(&asset) {
            Some(l) => *l,
            None => {
                return Err(MarketplaceError::ListingNotActive);
            },
        };
        if authority != listing.seller && authority != self.config.admin {
            return Err(MarketplaceError::Unauthorized);
        }
        if !listing.is_active {
            return Err(MarketplaceError::ListingNotActive);
        }
        self.holders.insert(asset, AssetHolder::Wallet(listing.seller));
        self.listings.remove(&asset);
        proof {
            assert(self@ =~= spec_cancel_listing(old(self)@, asset));
            assert(market_inv(self@));
        }
        Ok(ListingCancelled { nft_mint: asset, seller: listing.seller })
    }

    /// Change an active listing's price. Only the stored seller may; the new
    /// price must be positive.
    pub fn update_price(&mut self, seller: u64, asset: u64, new_price: u64) -> (r: Result<
        PriceUpdated,
        MarketplaceError,
    >)
        requires
            market_inv(old(self)@),
        ensures
            market_inv(final(self)@),
            match r {
                Ok(ev) => update_price_err(old(self)@, seller, asset, new_price) is None && final(self)@ == spec_update_price(old(self)@, asset, new_price) && ev == (PriceUpdated {
                    nft_mint: asset,
                    old_price: old(self)@.listings[asset].price,
                    new_price,
                }),
                Err(e) => update_price_err(old(self)@, seller, asset, new_price) == Some(e)
                    && final(self)@ == old(self)@,
            },
    {
        if new_price == 0 {
            return Err(MarketplaceError::PriceMustBePositive);
        }
        let listing = match self.listings.get(&asset) {
            Some(l) => *l,
            None => {
                return Err(MarketplaceError::ListingNotActive);
            },
        };
        if !listing.is_active {
            return Err(MarketplaceError::ListingNotActive);
        }
        if seller != listing.seller {
            return Err(MarketplaceError::InvalidSeller);
        }
        let old_price = listing.price;
        self.listings.insert(asset, Listing { price: new_price, ..listing });
        proof {
            assert(self@ =~= spec_update_price(old(self)@, asset, new_price));
            assert(market_inv(self@));
        }
        Ok(PriceUpdated { nft_mint: asset, old_price, new_price })
    }


    /// Settle a fixed-price purchase. Requires an active, unexpired,
    /// non-auction listing and a buyer other than the seller — a buyer equal
    /// to the record's stored seller is refused as a self-trade whatever the
    /// record's state. The buyer pays the seller the payout and the fee
    /// recipient the fee (skipped when zero), the asset's unit leaves escrow
    /// for the buyer, and the listing is retained deactivated so its address
    /// can be reused.
    pub fn buy_nft(&mut self, buyer: u64, asset: u64, now: i64) -> (r: Result<
        NftPurchased,
        MarketplaceError,
    >)
        requires
            market_inv(old(self)@),
        ensures
            market_inv(final(self)@),
            match r {
                Ok(ev) => buy_nft_err(old(self)@, buyer, asset, now) is None && final(self)@
                    == spec_buy_nft(old(self)@, buyer, asset) && ev == (NftPurchased {
                    nft_mint: asset,
                    buyer,
                    seller: old(self)@.listings[asset].seller,
                    price: old(self)@.listings[asset].price,
                    fee: spec_fee(old(self)@.listings[asset].price, old(self)@.fee_bps) as u64,
                }),
                Err(e) => buy_nft_err(old(self)@, buyer, asset, now) == Some(e) && final(self)@
                    == old(self)@,
            },
    {
        let listing = match self.listings.get(&asset) {
            Some(l) => *l,
            None => {
                return Err(MarketplaceError::ListingNotActive);
            },
        };
        if buyer == listing.seller {
            return Err(MarketplaceError::CannotBuyOwnListing);
        }
        if !listing.is_active {
            return Err(MarketplaceError::ListingNotActive);
        }
        if now >= listing.expiration_time {
            return Err(MarketplaceError::ListingExpired);
        }
        if listing.is_auction {
            return Err(MarketplaceError::UseAuctionBidding);
        }
        let (fee, payout) = match settle(listing.price, self.config.fee_bps) {
            Some(split) => split,
            None => {
                return Err(MarketplaceError::Overflow);
            },
        };
        proof {
            lemma_fee_bounds(listing.price, self.config.fee_bps);
        }
        // Check both transfers before moving anything, in the order the
        // moves are made, so a refused settlement has no effect at all.
        let buyer_balance = read_balance(&self.wallets, buyer);
        if buyer_balance < payout {
            return Err(MarketplaceError::InsufficientFunds);
        }
        let seller_credited = match read_balance(&self.wallets, listing.seller).checked_add(
            payout,
        ) {
            Some(b) => b,
            None => {
                return Err(MarketplaceError::Overflow);
            },
        };
        let ghost w1 = transfer(old(self)@.wallets, buyer, listing.seller, payout);
        if buyer_balance - payout < fee {
            return Err(MarketplaceError::InsufficientFunds);
        }
        let recipient_base = if self.config.fee_recipient == buyer {
            (buyer_balance - payout) - fee
        } else if self.config.fee_recipient == listing.seller {
            seller_credited
        } else {
            read_balance(&self.wallets, self.config.fee_recipient)
        };
        proof {
            assert(recipient_base == debit(w1, buyer, fee)[self.config.fee_recipient]);
        }
        if recipient_base.checked_add(fee).is_none() {
            return Err(MarketplaceError::Overflow);
        }
        let fee_recipient = self.config.fee_recipient;
        transfer_balance_ok(&mut self.wallets, buyer, listing.seller, payout);
        transfer_balance_ok(&mut self.wallets, buyer, fee_recipient, fee);
        self.holders.insert(asset, AssetHolder::Wallet(buyer));
        self.listings.insert(asset, Listing { is_active: false, ..listing });
        proof {
            assert(self@ =~= spec_buy_nft(old(self)@, buyer, asset));
            assert(market_inv(self@));
        }
        Ok(NftPurchased { nft_mint: asset, buyer, seller: listing.seller, price: listing.price, fee })
    }


    // ─── Offer lifecycle ─────────────────────────────────────────────────────

    /// Place a standing bid on a listed asset. Requires an unpaused market, a
    /// positive amount, an active listing, an offerer other than the seller,
    /// and no offer already standing for this (asset, offerer) pair — an
    /// outstanding offer must be cancelled first, never overwritten while its
    /// escrowed currency is at stake. On success the amount moves from the
    /// offerer into a fresh offer-escrow record beside the offer.
    pub fn make_offer(
        &mut self,
        offerer: u64,
        asset: u64,
        amount: u64,
        duration: i64,
        now: i64,
    ) -> (r: Result<OfferCreated, MarketplaceError>)
        requires
            market_inv(old(self)@),
        ensures
            market_inv(final(self)@),
            match r {
                Ok(ev) => make_offer_err(old(self)@, offerer, asset, amount, duration, now)
                    is None && final(self)@ == spec_make_offer(
                    old(self)@,
                    offerer,
                    asset,
                    amount,
                    duration,
                    now,
                ) && ev == (OfferCreated {
                    nft_mint: asset,
                    offerer,
                    amount,
                    expiration_time: (now + duration) as i64,
                }),
                Err(e) => make_offer_err(old(self)@, offerer, asset, amount, duration, now)
                    == Some(e) && final(self)@ == old(self)@,
            },
    {
        if self.config.paused {
            return Err(MarketplaceError::MarketplacePaused);
        }
        if amount == 0 {
            return Err(MarketplaceError::OfferAmountMustBePositive);
        }
        let listing = match self.listings.get(&asset) {
            Some(l) => *l,
            None => {
                return Err(MarketplaceError::ListingNotActive);
            },
        };
        if !listing.is_active {
            return Err(MarketplaceError::ListingNotActive);
        }
        if offerer == listing.seller {
            return Err(MarketplaceError::CannotOfferOnOwnListing);
        }
        let key = offer_key_exec(asset, offerer);
        if self.offers.contains_key(&key) {
            proof {
                lemma_offers_view_at(self.offers@, asset, offerer);
            }
            return Err(MarketplaceError::OfferAlreadyActive);
        }
        proof {
            lemma_offers_view_at(self.offers@, asset, offerer);
        }
        let expiration_time = match now.checked_add(duration) {
            Some(t) => t,
            None => {
                return Err(MarketplaceError::Overflow);
            },
        };
        match debit_balance(&mut self.wallets, offerer, amount) {
            Ok(_) => {},
            Err(e) => {
                return Err(e);
            },
        }
        let offer = Offer {
            offerer,
            nft_mint: asset,
            amount,
            expiration_time,
            is_active: true,
            created_at: now,
        };
        self.offers.insert(key, offer);
        self.offer_escrows.insert(key, OfferEscrow { nft_mint: asset, offerer, balance: amount });
        proof {
            lemma_offers_view_insert(old(self).offers@, asset, offerer, offer);
            lemma_offer_escrows_view_insert(
                old(self).offer_escrows@,
                asset,
                offerer,
                OfferEscrow { nft_mint: asset, offerer, balance: amount },
            );
            assert(self@ =~= spec_make_offer(old(self)@, offerer, asset, amount, duration, now));
            assert(market_inv(self@));
        }
        Ok(OfferCreated { nft_mint: asset, offerer, amount, expiration_time })
    }

    /// Take a standing offer back. Only the offerer may; the full escrowed
    /// amount returns to them, and the offer and its escrow record are
    /// destroyed — a second cancellation finds no record at all.
    pub fn cancel_offer(&mut self, offerer: u64, asset: u64) -> (r: Result<
        OfferCancelled,
        MarketplaceError,
    >)
        requires
            market_inv(old(self)@),
        ensures
            market_inv(final(self)@),
            match r {
                Ok(ev) => cancel_offer_err(old(self)@, offerer, asset) is None && final(self)@
                    == spec_cancel_offer(old(self)@, offerer, asset) && ev == (OfferCancelled {
                    nft_mint: asset,
                    offerer,
                    amount: old(self)@.offers[(asset, offerer)].amount,
                }),
                Err(e) => cancel_offer_err(old(self)@, offerer, asset) == Some(e) && final(self)@
                    == old(self)@,
            },
    {
        let key = offer_key_exec(asset, offerer);
        proof {
            lemma_offers_view_at(self.offers@, asset, offerer);
        }
        let offer = match self.offers.get(&key) {
            Some(o) => *o,
            None => {
                return Err(MarketplaceError::OfferNotFound);
            },
        };
        match credit_balance(&mut self.wallets, offerer, offer.amount) {
            Ok(_) => {},
            Err(e) => {
                return Err(e);
            },
        }
        self.offers.remove(&key);
        self.offer_escrows.remove(&key);
        proof {
            lemma_offers_view_remove(old(self).offers@, asset, offerer);
            lemma_offer_escrows_view_remove(old(self).offer_escrows@, asset, offerer);
            assert(self@ =~= spec_cancel_offer(old(self)@, offerer, asset));
            assert(market_inv(self@));
        }
        Ok(OfferCancelled { nft_mint: asset, offerer, amount: offer.amount })
    }

    /// Accept a standing offer on one's own active listing. Only the offer's
    /// expiration is checked, not the listing's — the deliberate asymmetry of
    /// the settlement rules. The escrowed amount is split into the seller's
    /// payout and the fee, the asset's unit leaves escrow for the offerer,
    /// the listing is retained deactivated, and the offer and its escrow
    /// record are destroyed.
    pub fn accept_offer(&mut self, seller: u64, asset: u64, offerer: u64, now: i64) -> (r: Result<
        OfferAccepted,
        MarketplaceError,
    >)
        requires
            market_inv(old(self)@),
        ensures
            market_inv(final(self)@),
            match r {
                Ok(ev) => accept_offer_err(old(self)@, seller, asset, offerer, now) is None
                    && final(self)@ == spec_accept_offer(old(self)@, seller, asset, offerer) && ev
                    == (OfferAccepted {
                    nft_mint: asset,
                    buyer: offerer,
                    seller,
                    price: old(self)@.offers[(asset, offerer)].amount,
                    fee: spec_fee(
                        old(self)@.offers[(asset, offerer)].amount,
                        old(self)@.fee_bps,
                    ) as u64,
                }),
                Err(e) => accept_offer_err(old(self)@, seller, asset, offerer, now) == Some(e)
                    && final(self)@ == old(self)@,
            },
    {
        let listing = match self.listings.get(&asset) {
            Some(l) => *l,
            None => {
                return Err(MarketplaceError::ListingNotActive);
            },
        };
        if !listing.is_active {
            return Err(MarketplaceError::ListingNotActive);
        }
        let key = offer_key_exec(asset, offerer);
        proof {
            lemma_offers_view_at(self.offers@, asset, offerer);
        }
        let offer = match self.offers.get(&key) {
            Some(o) => *o,
            None => {
                return Err(MarketplaceError::OfferNotFound);
            },
        };
        if seller != listing.seller {
            return Err(MarketplaceError::InvalidSeller);
        }
        if now >= offer.expiration_time {
            return Err(MarketplaceError::OfferExpired);
        }
        let (fee, payout) = match settle(offer.amount, self.config.fee_bps) {
            Some(split) => split,
            None => {
                return Err(MarketplaceError::Overflow);
            },
        };
        proof {
            lemma_fee_bounds(offer.amount, self.config.fee_bps);
        }
        // Check both credits before moving anything, in the order the moves
        // are made, so a refused settlement has no effect at all.
        let seller_credited = match read_balance(&self.wallets, seller).checked_add(payout) {
            Some(b) => b,
            None => {
                return Err(MarketplaceError::Overflow);
            },
        };
        let recipient_base = if self.config.fee_recipient == seller {
            seller_credited
        } else {
            read_balance(&self.wallets, self.config.fee_recipient)
        };
        if recipient_base.checked_add(fee).is_none() {
            return Err(MarketplaceError::Overflow);
        }
        let fee_recipient = self.config.fee_recipient;
        credit_balance_ok(&mut self.wallets, seller, payout);
        credit_balance_ok(&mut self.wallets, fee_recipient, fee);
        self.holders.insert(asset, AssetHolder::Wallet(offerer));
        self.listings.insert(asset, Listing { is_active: false, ..listing });
        self.offers.remove(&key);
        self.offer_escrows.remove(&key);
        proof {
            lemma_offers_view_remove(old(self).offers@, asset, offerer);
            lemma_offer_escrows_view_remove(old(self).offer_escrows@, asset, offerer);
            assert(self@ =~= spec_accept_offer(old(self)@, seller, asset, offerer));
            assert(market_inv(self@));
        }
        Ok(OfferAccepted { nft_mint: asset, buyer: offerer, seller, price: offer.amount, fee })
    }

    // ─── Host-ledger endowment primitives ────────────────────────────────────

    /// Credit a wallet from outside the market: the host ledger's inbound
    /// native-currency flow.
    pub fn credit_wallet(&mut self, wallet: u64, amount: u64) -> (r: Result<
        (),
        MarketplaceError,
    >)
        requires
            market_inv(old(self)@),
        ensures
            market_inv(final(self)@),
            match r {
                Ok(_) => credit_wallet_err(old(self)@, wallet, amount) is None && final(self)@
                    == spec_credit_wallet(old(self)@, wallet, amount),
                Err(e) => credit_wallet_err(old(self)@, wallet, amount) == Some(e) && final(self)@ == old(self)@,
            },
    {
        match credit_balance(&mut self.wallets, wallet, amount) {
            Ok(_) => {
                proof {
                    assert(self@ =~= spec_credit_wallet(old(self)@, wallet, amount));
                }
                Ok(())
            },
            Err(e) => Err(e),
        }
    }

    /// Issue the single unit of a new asset to a wallet: the host sub-ledger's
    /// mint. Fails if the asset has already been issued.
    pub fn mint_asset(&mut self, asset: u64, owner: u64) -> (r: Result<(), MarketplaceError>)
        requires
            market_inv(old(self)@),
        ensures
            market_inv(final(self)@),
            match r {
                Ok(_) => mint_asset_err(old(self)@, asset) is None && final(self)@
                    == spec_mint_asset(old(self)@, asset, owner),
                Err(e) => mint_asset_err(old(self)@, asset) == Some(e) && final(self)@ == old(
                    self,
                )@,
            },
    {
        if self.holders.contains_key(&asset) {
            return Err(MarketplaceError::AssetAlreadyMinted);
        }
        self.holders.insert(asset, AssetHolder::Wallet(owner));
        proof {
            assert(self@ =~= spec_mint_asset(old(self)@, asset, owner));
            assert(market_inv(self@));
        }
        Ok(())
    }

    /// Credit the configuration record's own balance: the host ledger's
    /// inbound flow to its address, the source of any withdrawable surplus.
    pub fn credit_config(&mut self, amount: u64) -> (r: Result<(), MarketplaceError>)
        requires
            market_inv(old(self)@),
        ensures
            market_inv(final(self)@),
            match r {
                Ok(_) => credit_config_err(old(self)@, amount) is None && final(self)@
                    == spec_credit_config(old(self)@, amount),
                Err(e) => credit_config_err(old(self)@, amount) == Some(e) && final(self)@ == old(
                    self,
                )@,
            },
    {
        match self.config_vault.checked_add(amount) {
            Some(nb) => {
                self.config_vault = nb;
                proof {
                    assert(self@ =~= spec_credit_config(old(self)@, amount));
                }
                Ok(())
            },
            None => Err(MarketplaceError::Overflow),
        }
    }

    // ─── Read access ─────────────────────────────────────────────────────────

    /// The listing record at the asset's derived address, if one exists —
    /// active or retained-inactive.
    pub fn get_listing(&self, asset: u64) -> (r: Option<Listing>)
        ensures
            r == if self@.listings.contains_key(asset) {
                Some(self@.listings[asset])
            } else {
                None::<Listing>
            },
    {
        match self.listings.get(&asset) {
            Some(l) => Some(*l),
            None => None,
        }
    }

    /// The escrow descriptor at the asset's derived address, if one exists.
    pub fn get_escrow(&self, asset: u64) -> (r: Option<Escrow>)
        ensures
            r == if self@.escrows.contains_key(asset) {
                Some(self@.escrows[asset])
            } else {
                None::<Escrow>
            },
    {
        match self.escrows.get(&asset) {
            Some(e) => Some(*e),
            None => None,
        }
    }

    /// The offer record at the (asset, offerer) derived address, if one
    /// exists; a destroyed offer is absent, not inactive.
    pub fn get_offer(&self, asset: u64, offerer: u64) -> (r: Option<Offer>)
        ensures
            r == if self@.offers.contains_key((asset, offerer)) {
                Some(self@.offers[(asset, offerer)])
            } else {
                None::<Offer>
            },
    {
        let k = offer_key_exec(asset, offerer);
        match self.offers.get(&k) {
            Some(o) => Some(*o),
            None => None,
        }
    }

    /// The offer-escrow custody record beside an offer, if one exists.
    pub fn get_offer_escrow(&self, asset: u64, offerer: u64) -> (r: Option<OfferEscrow>)
        ensures
            r == if self@.offer_escrows.contains_key((asset, offerer)) {
                Some(self@.offer_escrows[(asset, offerer)])
            } else {
                None::<OfferEscrow>
            },
    {
        let k = offer_key_exec(asset, offerer);
        match self.offer_escrows.get(&k) {
            Some(e) => Some(*e),
            None => None,
        }
    }

    /// A wallet's native-currency balance.
    pub fn balance_of(&self, wallet: u64) -> (b: u64)
        ensures
            b == self@.wallets[wallet],
    {
        read_balance(&self.wallets, wallet)
    }

    /// Who holds an asset's single unit, if it has been issued.
    pub fn holder_of(&self, asset: u64) -> (r: Option<AssetHolder>)
        ensures
            r == if self@.holders.contains_key(asset) {
                Some(self@.holders[asset])
            } else {
                None::<AssetHolder>
            },
    {
        match self.holders.get(&asset) {
            Some(h) => Some(*h),
            None => None,
        }
    }

    /// The configuration record's fields.
    pub fn config(&self) -> (c: Marketplace)
        ensures
            c.admin == self@.admin,
            c.fee_recipient == self@.fee_recipient,
            c.fee_bps == self@.fee_bps,
            c.paused == self@.paused,
            c.listing_count == self@.listing_count,
    {
        self.config
    }

    /// The currency held by the configuration record itself.
    pub fn config_balance(&self) -> (b: u64)
        ensures
            b == self@.config_vault,
    {
        self.config_vault
    }
}

} // verus!
