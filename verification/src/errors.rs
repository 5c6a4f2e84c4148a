use vstd::prelude::*;

verus! {

/// Typed failure reason for every engine operation. A failing operation
/// returns one of these and leaves all records and escrows untouched.
#[derive(Clone, Copy, Debug, PartialEq, Eq, Structural)]
pub enum CouponError {
    /// A discount percentage is out of its allowed range.
    InvalidDiscount,
    /// A participant target or supply bound is out of range.
    InvalidSupply,
    /// A duration or deadline is out of range, or an operation ran at the
    /// wrong time relative to a stored deadline.
    InvalidExpiry,
    /// A price, bid or reward amount fails its bound.
    InvalidPrice,
    /// The promotion, pool or stake the operation needs is not active.
    PromotionInactive,
    /// No capacity is left for another participant.
    SupplyExhausted,
    /// The coupon was already redeemed, the participant already refunded,
    /// or the participant's coupon already minted (replay).
    CouponAlreadyRedeemed,
    /// The coupon or the deal passed its expiry time.
    CouponExpired,
    /// The caller is not the owner the record names.
    NotCouponOwner,
    /// The promotion does not belong to the given merchant.
    WrongMerchant,
    /// The auction, listing or deal is no longer open.
    ListingInactive,
    /// The given coupon is not the one the record refers to.
    WrongCoupon,
    /// The caller is not the seller the record names.
    NotListingSeller,
    /// A structurally invalid argument (wrong auction kind, malformed tier
    /// list, missing bidder, zero duration).
    InvalidInput,
}

} // verus!
