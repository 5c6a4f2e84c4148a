use vstd::prelude::*;

verus! {

/// One redeemable coupon in the shared asset registry. The engines read its
/// owner, expiry and redeemed flag to decide eligibility, and write `owner`
/// when a sale settles; everything else belongs to the registry collaborator.
/// Account identities (owner, merchant, mint) are the host ledger's stable
/// record keys.
#[derive(Debug, PartialEq, Eq)]
pub struct Coupon {
    pub id: u64,
    pub promotion: u64,
    pub owner: u64,
    pub merchant: u64,
    pub discount_percentage: u8,
    pub expiry_timestamp: i64,
    pub is_redeemed: bool,
    pub redeemed_at: i64,
    pub created_at: i64,
    pub metadata_uri: String,
    pub mint: Option<u64>,
}

/// The slice of a promotion record the engines touch: group deals check its
/// supply bounds and merchant link, take over its discount and expiry when
/// minting, and bump `current_supply` on settlement.
#[derive(Clone, Copy, Debug, PartialEq, Eq, Structural)]
pub struct Promotion {
    pub merchant: u64,
    pub discount_percentage: u8,
    pub max_supply: u32,
    pub current_supply: u32,
    pub expiry_timestamp: i64,
    pub price: u64,
    pub is_active: bool,
    pub created_at: i64,
}

/// The slice of a merchant record the engines touch: group-deal settlement
/// pays `authority` and bumps `total_coupons_created`.
#[derive(Clone, Copy, Debug, PartialEq, Eq, Structural)]
pub struct Merchant {
    pub authority: u64,
    pub total_coupons_created: u64,
    pub total_coupons_redeemed: u64,
    pub is_active: bool,
}

} // verus!
