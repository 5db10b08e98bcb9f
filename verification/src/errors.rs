use vstd::prelude::*;

verus! {

/// Every way an operation can refuse to act. Each operation's contract says
/// exactly which inputs produce which variant; a failed operation never
/// changes any state.
#[derive(Clone, Copy, Debug, PartialEq, Eq, Structural)]
pub enum MarketplaceError {
    /// A mutating operation was attempted while the marketplace is paused.
    MarketplacePaused,
    /// `pause_marketplace` while already paused.
    AlreadyPaused,
    /// `unpause_marketplace` while not paused.
    NotPaused,
    /// A listing price of zero was supplied.
    PriceMustBePositive,
    /// A listing duration below the one-day minimum was supplied.
    DurationTooShort,
    /// The would-be seller does not hold the asset's single unit.
    SellerDoesNotOwnNft,
    /// No active listing stands where one is required, or an active one
    /// stands where none may.
    ListingNotActive,
    /// The listing's expiration timestamp has passed.
    ListingExpired,
    /// A buyer attempted to purchase their own listing.
    CannotBuyOwnListing,
    /// Fixed-price purchase was attempted on an auction-flagged listing.
    UseAuctionBidding,
    /// The caller is neither the required seller nor the admin.
    Unauthorized,
    /// A fee rate above the 1000-basis-point cap was supplied.
    FeeTooHigh,
    /// The null identity was supplied as the fee recipient.
    InvalidFeeRecipient,
    /// The caller is not the listing's seller.
    InvalidSeller,
    /// An offer was placed by the listing's own seller.
    CannotOfferOnOwnListing,
    /// An offer amount of zero was supplied.
    OfferAmountMustBePositive,
    /// No offer record exists for the given asset and offerer.
    OfferNotFound,
    /// An offer already stands for the given asset and offerer; it must be
    /// cancelled before a new one can be placed.
    OfferAlreadyActive,
    /// The offer's expiration timestamp has passed.
    OfferExpired,
    /// A fee, timestamp, counter or balance computation left its type's range.
    Overflow,
    /// The payer's balance cannot cover the required payment.
    InsufficientFunds,
    /// `emergency_withdraw` found no surplus above the reserved minimum.
    NothingToWithdraw,
    /// The asset's single unit has already been issued.
    AssetAlreadyMinted,
}

} // verus!
