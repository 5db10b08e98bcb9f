use vstd::prelude::*;

verus! {

/// The denominator of a fee rate given in basis points: 100 bps = 1%.
pub const BPS_DENOMINATOR: u64 = 10000;

/// Fee owed on a settlement of `price` at `fee_bps` basis points:
/// `floor(price * fee_bps / 10_000)`, integer division truncating.
pub open spec fn spec_fee(price: u64, fee_bps: u16) -> int {
    (price * fee_bps) / (BPS_DENOMINATOR as int)
}

/// What the seller receives: the price less the fee.
pub open spec fn spec_payout(price: u64, fee_bps: u16) -> int {
    price - spec_fee(price, fee_bps)
}

/// The fee never exceeds the price while the rate stays at or below 100%;
/// under the cap enforced at configuration time the rate is far below that.
pub proof fn lemma_fee_bounds(price: u64, fee_bps: u16)
    requires
        fee_bps <= BPS_DENOMINATOR,
    ensures
        0 <= spec_fee(price, fee_bps) <= price,
{
    assert(0 <= (price * fee_bps) / (BPS_DENOMINATOR as int) <= price) by (nonlinear_arith)
        requires fee_bps <= BPS_DENOMINATOR, BPS_DENOMINATOR == 10000;
}

/// The fee and the payout split the price exactly: `fee + payout == price`,
/// with `fee == floor(price * fee_bps / 10_000)`. Holds for every price and
/// every fee rate up to the configuration cap of 1000 basis points.
pub proof fn lemma_settlement_splits_price(price: u64, fee_bps: u16)
    requires
        price > 0,
        fee_bps <= 1000,
    ensures
        spec_fee(price, fee_bps) + spec_payout(price, fee_bps) == price,
        spec_fee(price, fee_bps) == (price * fee_bps) / 10000,
        0 <= spec_fee(price, fee_bps) <= price,
        0 < spec_payout(price, fee_bps) <= price,
{
    lemma_fee_bounds(price, fee_bps);
    if fee_bps < BPS_DENOMINATOR {
        assert((price * fee_bps) / (BPS_DENOMINATOR as int) < price) by (nonlinear_arith)
            requires price > 0, fee_bps < BPS_DENOMINATOR, BPS_DENOMINATOR == 10000;
    }
}

/// Settlement arithmetic: the fee and the seller's payout for a sale at
/// `price` with fee rate `fee_bps`. Returns `None` exactly when the
/// intermediate product `price * fee_bps` does not fit in 64 bits, the
/// one computation here that can overflow.
pub fn settle(price: u64, fee_bps: u16) -> (r: Option<(u64, u64)>)
    requires
        fee_bps <= 1000,
    ensures
        r is Some <==> price * fee_bps <= u64::MAX,
        match r {
            Some(split) => split.0 == spec_fee(price, fee_bps)
                && split.1 == spec_payout(price, fee_bps),
            None => true,
        },
{
    match price.checked_mul(fee_bps as u64) {
        Some(product) => {
            let fee: u64 = product / BPS_DENOMINATOR;
            proof {
                lemma_fee_bounds(price, fee_bps);
            }
            let payout: u64 = price - fee;
            Some((fee, payout))
        },
        None => None,
    }
}

} // verus!
