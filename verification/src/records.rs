use vstd::prelude::*;

verus! {

/// The null identity: rejected when offered as a new fee recipient.
pub const NULL_IDENTITY: u64 = 0;

/// The singleton configuration record: admin identity, fee recipient, fee
/// rate in basis points (capped at 1000), emergency-pause flag and the
/// monotonic count of listings ever created.
#[derive(Clone, Copy, Debug, PartialEq, Eq, Structural)]
pub struct Marketplace {
    pub admin: u64,
    pub fee_recipient: u64,
    pub fee_bps: u16,
    pub paused: bool,
    pub listing_count: u64,
}

/// A sale record for one asset. On a successful sale the record is retained
/// with `is_active == false` so the same derived address can be reused for a
/// future listing of the same asset; on explicit cancellation it is destroyed.
#[derive(Clone, Copy, Debug, PartialEq, Eq, Structural)]
pub struct Listing {
    pub seller: u64,
    pub nft_mint: u64,
    pub price: u64,
    pub expiration_time: i64,
    pub is_active: bool,
    /// Accepted and stored, but the fixed-price purchase path refuses
    /// auction-flagged listings: no bidding settlement path exists.
    pub is_auction: bool,
    pub created_at: i64,
}

/// A standing bid by `offerer` on one asset. Unlike a listing, an offer
/// record is destroyed outright on cancellation or acceptance.
#[derive(Clone, Copy, Debug, PartialEq, Eq, Structural)]
pub struct Offer {
    pub offerer: u64,
    pub nft_mint: u64,
    pub amount: u64,
    pub expiration_time: i64,
    pub is_active: bool,
    pub created_at: i64,
}

/// The custody descriptor holding an asset's unit while its listing is
/// active. Created on the asset's first listing and never destroyed.
#[derive(Clone, Copy, Debug, PartialEq, Eq, Structural)]
pub struct Escrow {
    pub nft_mint: u64,
}

/// The custody record holding the currency backing one offer. Created with
/// its offer and destroyed with it; while it exists its balance equals the
/// offer's amount.
#[derive(Clone, Copy, Debug, PartialEq, Eq, Structural)]
pub struct OfferEscrow {
    pub nft_mint: u64,
    pub offerer: u64,
    pub balance: u64,
}

/// Who holds an asset's single unit: a wallet, or the asset's own escrow
/// custody address while a listing is active.
#[derive(Clone, Copy, Debug, PartialEq, Eq, Structural)]
pub enum AssetHolder {
    Wallet(u64),
    EscrowVault,
}

} // verus!
