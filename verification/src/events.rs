use vstd::prelude::*;

verus! {

/// Emitted once, when the configuration singleton is created.
#[derive(Clone, Copy, Debug, PartialEq, Eq, Structural)]
pub struct MarketplaceInitialized {
    pub admin: u64,
    pub fee_recipient: u64,
    pub fee_bps: u16,
}

/// Emitted when an asset is placed on sale.
#[derive(Clone, Copy, Debug, PartialEq, Eq, Structural)]
pub struct ListingCreated {
    pub seller: u64,
    pub nft_mint: u64,
    pub price: u64,
    pub is_auction: bool,
    pub expiration_time: i64,
}

/// Emitted when a listing is cancelled and its record destroyed.
#[derive(Clone, Copy, Debug, PartialEq, Eq, Structural)]
pub struct ListingCancelled {
    pub nft_mint: u64,
    pub seller: u64,
}

/// Emitted when a fixed-price purchase settles.
#[derive(Clone, Copy, Debug, PartialEq, Eq, Structural)]
pub struct NftPurchased {
    pub nft_mint: u64,
    pub buyer: u64,
    pub seller: u64,
    pub price: u64,
    pub fee: u64,
}

/// Emitted when a standing offer is placed.
#[derive(Clone, Copy, Debug, PartialEq, Eq, Structural)]
pub struct OfferCreated {
    pub nft_mint: u64,
    pub offerer: u64,
    pub amount: u64,
    pub expiration_time: i64,
}

/// Emitted when an offer is cancelled and refunded.
#[derive(Clone, Copy, Debug, PartialEq, Eq, Structural)]
pub struct OfferCancelled {
    pub nft_mint: u64,
    pub offerer: u64,
    pub amount: u64,
}

/// Emitted when a seller accepts a standing offer.
#[derive(Clone, Copy, Debug, PartialEq, Eq, Structural)]
pub struct OfferAccepted {
    pub nft_mint: u64,
    pub buyer: u64,
    pub seller: u64,
    pub price: u64,
    pub fee: u64,
}

/// Emitted when a seller changes an active listing's price.
#[derive(Clone, Copy, Debug, PartialEq, Eq, Structural)]
pub struct PriceUpdated {
    pub nft_mint: u64,
    pub old_price: u64,
    pub new_price: u64,
}

/// Emitted when the pause flag is toggled.
#[derive(Clone, Copy, Debug, PartialEq, Eq, Structural)]
pub struct MarketplacePausedEvent {
    pub paused: bool,
}

/// Emitted when the admin changes the fee rate.
#[derive(Clone, Copy, Debug, PartialEq, Eq, Structural)]
pub struct FeeUpdated {
    pub old_fee_bps: u16,
    pub new_fee_bps: u16,
}

/// Emitted when the admin changes the fee recipient.
#[derive(Clone, Copy, Debug, PartialEq, Eq, Structural)]
pub struct FeeRecipientUpdated {
    pub old_recipient: u64,
    pub new_recipient: u64,
}

} // verus!
