use vstd::prelude::*;

use crate::records::{AssetHolder, Escrow, Listing, Offer, OfferEscrow};

verus! {

/// The mathematical model of the whole market: the configuration singleton,
/// every record store keyed by the values its deterministic address is
/// derived from, the native-currency balance of every identity, and the
/// holder of each issued asset's single unit.
#[verifier::ext_equal]
pub struct MarketView {
    pub admin: u64,
    pub fee_recipient: u64,
    pub fee_bps: u16,
    pub paused: bool,
    pub listing_count: u64,
    /// Currency held by the configuration record itself.
    pub config_vault: u64,
    /// The host ledger's minimum balance that must remain with the
    /// configuration record.
    pub reserve_min: u64,
    /// Listing records, keyed by asset id (the listing address seed).
    pub listings: Map<u64, Listing>,
    /// Asset-escrow descriptors, keyed by asset id; never removed.
    pub escrows: Map<u64, Escrow>,
    /// Offer records, keyed by (asset id, offerer) — the offer address seed.
    pub offers: Map<(u64, u64), Offer>,
    /// Offer-escrow custody records, keyed like their offers.
    pub offer_escrows: Map<(u64, u64), OfferEscrow>,
    /// Native-currency balance of every identity; total, absent means zero.
    pub wallets: Map<u64, u64>,
    /// Holder of each issued asset's single unit; the domain is the set of
    /// issued assets.
    pub holders: Map<u64, AssetHolder>,
}

/// Whether `from` can pay `amount` out of its balance.
pub open spec fn can_debit(w: Map<u64, u64>, from: u64, amount: u64) -> bool {
    w[from] >= amount
}

/// Whether `to` can receive `amount` without its balance leaving `u64`.
pub open spec fn can_credit(w: Map<u64, u64>, to: u64, amount: u64) -> bool {
    w[to] + amount <= u64::MAX
}

/// The balance map after `from` pays `amount` away.
pub open spec fn debit(w: Map<u64, u64>, from: u64, amount: u64) -> Map<u64, u64> {
    w.insert(from, (w[from] - amount) as u64)
}

/// The balance map after `to` receives `amount`.
pub open spec fn credit(w: Map<u64, u64>, to: u64, amount: u64) -> Map<u64, u64> {
    w.insert(to, (w[to] + amount) as u64)
}

/// Whether a transfer of `amount` from `from` to `to` can settle: the payer
/// covers it, and the payee's balance stays in range. Payer and payee may
/// coincide; the transfer is then a no-op and always in range.
pub open spec fn can_transfer(w: Map<u64, u64>, from: u64, to: u64, amount: u64) -> bool {
    can_debit(w, from, amount) && can_credit(debit(w, from, amount), to, amount)
}

/// The balance map after a transfer of `amount` from `from` to `to`.
pub open spec fn transfer(w: Map<u64, u64>, from: u64, to: u64, amount: u64) -> Map<u64, u64> {
    credit(debit(w, from, amount), to, amount)
}

/// The total balance map read off a partial one: absent entries are zero.
pub open spec fn balances_of(m: Map<u64, u64>) -> Map<u64, u64> {
    Map::new(|w: u64| true, |w: u64| if m.contains_key(w) { m[w] } else { 0u64 })
}

/// Whether an active listing stands for `asset`.
pub open spec fn active_listing(v: MarketView, asset: u64) -> bool {
    v.listings.contains_key(asset) && v.listings[asset].is_active
}

/// The invariant set that holds after every operation:
/// - the fee rate never exceeds 1000 basis points;
/// - every identity has a balance (absent means zero at the representation
///   level, so the balance map is total);
/// - a listing record is keyed by its own asset, carries a positive price,
///   and has its escrow descriptor and an issued asset unit beside it;
/// - an asset's unit sits in escrow custody exactly while a listing for it
///   is active, and with a wallet otherwise;
/// - an offer record is keyed by its own asset and offerer, is active with a
///   positive amount, and its escrow record holds exactly the offered
///   amount — there is no offer escrow without its offer.
pub open spec fn market_inv(v: MarketView) -> bool {
    &&& v.fee_bps <= 1000
    &&& forall|w: u64| v.wallets.dom().contains(w)
    &&& forall|a: u64| #[trigger] v.listings.contains_key(a) ==> {
        &&& v.listings[a].nft_mint == a
        &&& v.listings[a].price > 0
        &&& v.escrows.contains_key(a)
        &&& v.holders.contains_key(a)
    }
    &&& forall|a: u64| #[trigger] v.escrows.contains_key(a) ==> v.escrows[a].nft_mint == a
    &&& forall|a: u64| #[trigger] v.holders.contains_key(a) ==> ((v.holders[a]
        == AssetHolder::EscrowVault) <==> active_listing(v, a))
    &&& forall|p: (u64, u64)| #[trigger] v.offers.contains_key(p) ==> {
        &&& v.offers[p].nft_mint == p.0
        &&& v.offers[p].offerer == p.1
        &&& v.offers[p].amount > 0
        &&& v.offers[p].is_active
        &&& v.offer_escrows.contains_key(p)
        &&& v.offer_escrows[p] == (OfferEscrow {
            nft_mint: p.0,
            offerer: p.1,
            balance: v.offers[p].amount,
        })
    }
    &&& forall|p: (u64, u64)| #[trigger] v.offer_escrows.contains_key(p) ==> v.offers.contains_key(
        p,
    )
}

} // verus!
