use discount_platform::errors::CouponError;
use discount_platform::registry::Coupon;
use discount_platform::staking::{
    claim_rewards, initialize_staking, stake_coupon, StakeAccount, StakingPool,
};

const AUTHORITY: u64 = 300;
const USER: u64 = 301;
const COUPON_KEY: u64 = 302;
const NFT_MINT: u64 = 303;

fn staked_coupon(owner: u64) -> Coupon {
    Coupon {
        id: 2,
        promotion: 12,
        owner,
        merchant: 22,
        discount_percentage: 10,
        expiry_timestamp: 2_000_000_000,
        is_redeemed: false,
        redeemed_at: 0,
        created_at: 0,
        metadata_uri: String::new(),
        mint: Some(NFT_MINT),
    }
}

fn active_pool() -> StakingPool {
    // 1% per day, one day minimum.
    initialize_staking(AUTHORITY, 100, 86400, 500)
}

#[test]
fn initialize_staking_opens_empty_pool() {
    let pool = active_pool();
    assert_eq!(pool.authority, AUTHORITY);
    assert_eq!(pool.total_staked, 0);
    assert_eq!(pool.total_rewards_distributed, 0);
    assert_eq!(pool.reward_rate_per_day, 100);
    assert_eq!(pool.min_stake_duration, 86400);
    assert!(pool.is_active);
    assert_eq!(pool.created_at, 500);
}

#[test]
fn reward_accrual_truncates_to_whole_days() {
    let stake = StakeAccount {
        user: USER,
        coupon: COUPON_KEY,
        nft_mint: NFT_MINT,
        amount_staked: 1_000_000,
        staked_at: 0,
        unlock_at: 3 * 86400,
        duration_days: 3,
        rewards_earned: 0,
        is_active: true,
        claimed_at: None,
    };
    // 1_000_000 * 100 * 3 / 10000 = 30_000 after three whole days.
    assert_eq!(stake.calculate_rewards(3 * 86400, 100), 30_000);
    // 2.9 days elapse: only floor(2.9) = 2 days accrue.
    assert_eq!(stake.calculate_rewards(250_560, 100), 20_000);
    // A partial first day accrues nothing.
    assert_eq!(stake.calculate_rewards(86399, 100), 0);
    // Nothing accrues before the stake began.
    assert_eq!(stake.calculate_rewards(-5, 100), 0);
}

#[test]
fn stake_locks_token_and_grows_pool() {
    let mut pool = active_pool();
    let c = staked_coupon(USER);
    let stake = stake_coupon(&mut pool, &c, COUPON_KEY, NFT_MINT, USER, 5, 1000).unwrap();
    assert_eq!(stake.user, USER);
    assert_eq!(stake.coupon, COUPON_KEY);
    assert_eq!(stake.nft_mint, NFT_MINT);
    assert_eq!(stake.amount_staked, 1_000_000);
    assert_eq!(stake.staked_at, 1000);
    assert_eq!(stake.unlock_at, 1000 + 5 * 86400);
    assert_eq!(stake.duration_days, 5);
    assert_eq!(stake.rewards_earned, 0);
    assert!(stake.is_active);
    assert_eq!(stake.claimed_at, None);
    assert_eq!(pool.total_staked, 1_000_000);
}

#[test]
fn stake_validations() {
    let mut pool = active_pool();
    let c = staked_coupon(USER);

    let r = stake_coupon(&mut pool, &staked_coupon(999), COUPON_KEY, NFT_MINT, USER, 5, 1000);
    assert_eq!(r, Err(CouponError::NotCouponOwner));

    let mut redeemed = staked_coupon(USER);
    redeemed.is_redeemed = true;
    let r = stake_coupon(&mut pool, &redeemed, COUPON_KEY, NFT_MINT, USER, 5, 1000);
    assert_eq!(r, Err(CouponError::CouponAlreadyRedeemed));

    let r = stake_coupon(&mut pool, &c, COUPON_KEY, 999, USER, 5, 1000);
    assert_eq!(r, Err(CouponError::WrongCoupon));

    let r = stake_coupon(&mut pool, &c, COUPON_KEY, NFT_MINT, USER, 0, 1000);
    assert_eq!(r, Err(CouponError::InvalidInput));

    // 12 hours is below the pool's one-day minimum; duration is in days, so
    // even one day passes, but a pool with a three-day minimum rejects two.
    pool.min_stake_duration = 3 * 86400;
    let r = stake_coupon(&mut pool, &c, COUPON_KEY, NFT_MINT, USER, 2, 1000);
    assert_eq!(r, Err(CouponError::InvalidExpiry));

    pool.is_active = false;
    let r = stake_coupon(&mut pool, &c, COUPON_KEY, NFT_MINT, USER, 5, 1000);
    assert_eq!(r, Err(CouponError::PromotionInactive));
    assert_eq!(pool.total_staked, 0);
}

#[test]
fn claim_pays_rewards_and_closes_stake() {
    let mut pool = active_pool();
    let c = staked_coupon(USER);
    let mut stake = stake_coupon(&mut pool, &c, COUPON_KEY, NFT_MINT, USER, 3, 0).unwrap();
    // Claim one day late: four whole days accrued.
    let claim_time = 4 * 86400;
    let rewards = claim_rewards(&mut pool, &mut stake, USER, claim_time).unwrap();
    assert_eq!(rewards, 40_000);
    assert_eq!(stake.rewards_earned, 40_000);
    assert!(!stake.is_active);
    assert_eq!(stake.claimed_at, Some(claim_time));
    assert_eq!(pool.total_staked, 0);
    assert_eq!(pool.total_rewards_distributed, 40_000);

    // A stake already claimed is inert.
    let r = claim_rewards(&mut pool, &mut stake, USER, claim_time + 86400);
    assert_eq!(r, Err(CouponError::PromotionInactive));
}

#[test]
fn claim_rejections() {
    let mut pool = active_pool();
    let c = staked_coupon(USER);
    let mut stake = stake_coupon(&mut pool, &c, COUPON_KEY, NFT_MINT, USER, 3, 0).unwrap();

    let r = claim_rewards(&mut pool, &mut stake, 999, 4 * 86400);
    assert_eq!(r, Err(CouponError::NotCouponOwner));

    // Still locked.
    let r = claim_rewards(&mut pool, &mut stake, USER, 3 * 86400 - 1);
    assert_eq!(r, Err(CouponError::InvalidExpiry));

    // A zero-rate pool accrues nothing, and a zero reward cannot be claimed.
    let mut zero_pool = initialize_staking(AUTHORITY, 0, 86400, 0);
    let mut zero_stake =
        stake_coupon(&mut zero_pool, &c, COUPON_KEY, NFT_MINT, USER, 3, 0).unwrap();
    let r = claim_rewards(&mut zero_pool, &mut zero_stake, USER, 4 * 86400);
    assert_eq!(r, Err(CouponError::InvalidPrice));
    assert!(zero_stake.is_active);
    assert_eq!(zero_pool.total_staked, 1_000_000);
}
